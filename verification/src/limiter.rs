//! Pacing of requests to one host: no two permitted requests stand closer
//! together than a fixed interval.
//!
//! The limiter keeps the time of the last permitted request. Time is a count
//! of milliseconds on a clock that the caller reads, so that the pacing can
//! be checked without waiting. Callers share one limiter under mutual
//! exclusion and hold it from the reading of the clock until the stamp is
//! set; each host has a limiter of its own.
use vstd::prelude::*;

verus! {

/// The interval between two requests to the catalog, in milliseconds.
pub const CATALOG_INTERVAL_MS: u64 = 1100;

/// The interval between two downloads of cover art, in milliseconds.
pub const COVER_ART_INTERVAL_MS: u64 = 1000;

pub struct RateLimiter {
    interval_ms: u64,
    last: Option<u64>,
}

/// The wait that a caller owes who reads `now` on the clock, where the last
/// request was permitted at `last`: nothing where no request was permitted
/// yet or a full interval has passed, else the rest of the interval. A clock
/// that reads less than `last` counts as no time passed.
pub open spec fn wait_owed(interval: int, last: Option<int>, now: int) -> int {
    match last {
        None => 0,
        Some(at) => {
            let elapsed = if now >= at {
                now - at
            } else {
                0
            };
            if elapsed < interval {
                interval - elapsed
            } else {
                0
            }
        },
    }
}

/// The time at which the caller's request is permitted: the end of the wait.
pub open spec fn permitted_at(interval: int, last: Option<int>, now: int) -> int {
    now + wait_owed(interval, last, now)
}

/// The times at which the requests of a run are permitted, one for each
/// reading of the clock, where `last` is the limiter's stamp before the run.
pub open spec fn stamps(interval: int, last: Option<int>, readings: Seq<int>) -> Seq<int>
    decreases readings.len(),
{
    if readings.len() == 0 {
        Seq::empty()
    } else {
        let earlier = stamps(interval, last, readings.drop_last());
        let before = if earlier.len() == 0 {
            last
        } else {
            Some(earlier.last())
        };
        earlier.push(permitted_at(interval, before, readings.last()))
    }
}

/// Tells whether the readings are those of a clock that callers read one
/// after the other: no caller reads the clock before the request before it
/// was permitted.
pub open spec fn in_issuance_order(interval: int, last: Option<int>, readings: Seq<int>) -> bool {
    &&& last is Some && readings.len() > 0 ==> last->0 <= readings[0]
    &&& forall|i: int|
        0 < i < readings.len() ==> stamps(interval, last, readings.take(i)).last()
            <= #[trigger] readings[i]
}

/// One stamp for each reading.
pub proof fn lemma_stamps_len(interval: int, last: Option<int>, readings: Seq<int>)
    ensures
        stamps(interval, last, readings).len() == readings.len(),
    decreases readings.len(),
{
    if readings.len() > 0 {
        lemma_stamps_len(interval, last, readings.drop_last());
    }
}

/// The stamps of the first readings of a run are the first stamps of the run.
pub proof fn lemma_stamps_prefix(interval: int, last: Option<int>, readings: Seq<int>, count: int)
    requires
        0 <= count <= readings.len(),
    ensures
        stamps(interval, last, readings.take(count)) == stamps(interval, last, readings).take(
            count,
        ),
    decreases readings.len(),
{
    lemma_stamps_len(interval, last, readings);
    if count == readings.len() {
        assert(readings.take(count) =~= readings);
        assert(stamps(interval, last, readings).take(count) =~= stamps(interval, last, readings));
    } else {
        lemma_stamps_prefix(interval, last, readings.drop_last(), count);
        lemma_stamps_len(interval, last, readings.drop_last());
        assert(readings.drop_last().take(count) =~= readings.take(count));
        assert(stamps(interval, last, readings).take(count) =~= stamps(
            interval,
            last,
            readings.drop_last(),
        ).take(count));
    }
}

/// The pacing law. However many callers acquire the limiter one after the
/// other, the times at which their requests are permitted stand at least one
/// interval apart, in the order of the calls, and the first of them stands at
/// least one interval behind the limiter's earlier stamp.
pub proof fn lemma_requests_spaced(interval: int, last: Option<int>, readings: Seq<int>)
    requires
        0 <= interval,
        in_issuance_order(interval, last, readings),
    ensures
        stamps(interval, last, readings).len() == readings.len(),
        last is Some && readings.len() > 0 ==> stamps(interval, last, readings)[0] >= last->0
            + interval,
        forall|i: int|
            0 < i < readings.len() ==> #[trigger] stamps(interval, last, readings)[i] >= stamps(
                interval,
                last,
                readings,
            )[i - 1] + interval,
{
    let all = stamps(interval, last, readings);
    lemma_stamps_len(interval, last, readings);
    assert forall|i: int| 0 <= i < readings.len() implies (i == 0 ==> (last is Some ==> all[0]
        >= last->0 + interval)) && (i > 0 ==> #[trigger] all[i] >= all[i - 1] + interval) by {
        let head = readings.take(i + 1);
        lemma_stamps_prefix(interval, last, readings, i + 1);
        lemma_stamps_prefix(interval, last, readings, i);
        lemma_stamps_len(interval, last, head);
        assert(head.drop_last() =~= readings.take(i));
        assert(head.last() == readings[i]);
        assert(stamps(interval, last, head).last() == all[i]);
        if i > 0 {
            lemma_stamps_len(interval, last, readings.take(i));
            assert(stamps(interval, last, readings.take(i)).last() == all[i - 1]);
        } else {
            assert(readings.take(0) =~= Seq::<int>::empty());
        }
    }
}

/// Turns are stamped in the order in which they are taken. With an interval
/// above nothing, every caller's request is permitted later than the request
/// of every caller that held the limiter before: the caller that takes the
/// limiter as the k-th has the k-th stamp.
pub proof fn lemma_stamps_in_gate_order(interval: int, last: Option<int>, readings: Seq<int>)
    requires
        0 < interval,
        in_issuance_order(interval, last, readings),
    ensures
        stamps(interval, last, readings).len() == readings.len(),
        forall|i: int, j: int|
            0 <= i < j < readings.len() ==> stamps(interval, last, readings)[i] + (j - i)
                * interval <= stamps(interval, last, readings)[j],
        last is Some ==> forall|j: int|
            0 <= j < readings.len() ==> last->0 < #[trigger] stamps(interval, last, readings)[j],
{
    lemma_requests_spaced(interval, last, readings);
    let all = stamps(interval, last, readings);
    assert forall|i: int, j: int| 0 <= i < j < readings.len() implies all[i] + (j - i) * interval
        <= all[j] by {
        lemma_stamps_apart(interval, all, i, j);
    }
    if last is Some {
        assert forall|j: int| 0 <= j < readings.len() implies last->0 < #[trigger] all[j] by {
            if j > 0 {
                lemma_stamps_apart(interval, all, 0, j);
                assert((j - 0) * interval >= 0) by (nonlinear_arith)
                    requires
                        j >= 0,
                        interval > 0,
                ;
            }
        }
    }
}

/// Stamps of which each stands one interval behind the one before stand as
/// many intervals apart as there are turns between them.
proof fn lemma_stamps_apart(interval: int, all: Seq<int>, i: int, j: int)
    requires
        0 <= i <= j < all.len(),
        forall|k: int| 0 < k < all.len() ==> #[trigger] all[k] >= all[k - 1] + interval,
    ensures
        all[i] + (j - i) * interval <= all[j],
    decreases j - i,
{
    if i < j {
        lemma_stamps_apart(interval, all, i, j - 1);
        assert(all[j] >= all[j - 1] + interval);
        assert((j - i) * interval == (j - 1 - i) * interval + interval) by (nonlinear_arith);
    } else {
        assert((j - i) * interval == 0) by (nonlinear_arith)
            requires
                i == j,
        ;
    }
}

/// The stamp of a limiter as a mathematical integer.
pub open spec fn stamp_of(last: Option<u64>) -> Option<int> {
    match last {
        Some(at) => Some(at as int),
        None => None,
    }
}

impl RateLimiter {
    /// The interval that the limiter keeps, in milliseconds.
    pub closed spec fn interval(&self) -> u64 {
        self.interval_ms
    }

    /// The time of the last permitted request, where there was one.
    pub closed spec fn last(&self) -> Option<u64> {
        self.last
    }

    /// A limiter that has permitted no request yet.
    pub fn new(interval_ms: u64) -> (r: RateLimiter)
        ensures
            r.interval() == interval_ms,
            r.last() is None,
    {
        RateLimiter { interval_ms, last: None }
    }

    /// The limiter of the catalog's host.
    pub fn for_catalog() -> (r: RateLimiter)
        ensures
            r.interval() == CATALOG_INTERVAL_MS,
            r.last() is None,
    {
        RateLimiter::new(CATALOG_INTERVAL_MS)
    }

    /// The limiter of the cover art archive's host.
    pub fn for_cover_art() -> (r: RateLimiter)
        ensures
            r.interval() == COVER_ART_INTERVAL_MS,
            r.last() is None,
    {
        RateLimiter::new(COVER_ART_INTERVAL_MS)
    }

    pub fn interval_ms(&self) -> (r: u64)
        ensures
            r == self.interval(),
    {
        self.interval_ms
    }

    pub fn last_permitted(&self) -> (r: Option<u64>)
        ensures
            r == self.last(),
    {
        self.last
    }

    /// Tells whether the clock reading `now_ms` leaves room for the stamp.
    pub fn can_acquire(&self, now_ms: u64) -> (r: bool)
        ensures
            r == (now_ms + self.interval() <= u64::MAX),
    {
        now_ms <= u64::MAX - self.interval_ms
    }

    /// Takes the caller's turn where the clock reading leaves room for the
    /// stamp, as [`RateLimiter::acquire`] does, and does nothing where it does
    /// not.
    pub fn try_acquire(&mut self, now_ms: u64) -> (r: Option<u64>)
        ensures
            final(self).interval() == old(self).interval(),
            now_ms + old(self).interval() > u64::MAX ==> r is None && final(self).last()
                == old(self).last(),
            now_ms + old(self).interval() <= u64::MAX ==> {
                &&& r == Some(
                    wait_owed(
                        old(self).interval() as int,
                        stamp_of(old(self).last()),
                        now_ms as int,
                    ) as u64,
                )
                &&& stamp_of(final(self).last()) == Some(
                    permitted_at(
                        old(self).interval() as int,
                        stamp_of(old(self).last()),
                        now_ms as int,
                    ),
                )
                &&& old(self).last() is Some && old(self).last()->0 <= now_ms
                    ==> final(self).last()->0 >= old(self).last()->0 + old(self).interval()
            },
    {
        if self.can_acquire(now_ms) {
            Some(self.acquire(now_ms))
        } else {
            None
        }
    }

    /// Takes the caller's turn: tells how long the caller has to wait before
    /// the request, and stamps the end of that wait as the time of the last
    /// permitted request. The caller reads `now_ms` on the clock while holding
    /// the limiter and lets go of it only after the wait.
    pub fn acquire(&mut self, now_ms: u64) -> (wait_ms: u64)
        requires
            now_ms + old(self).interval() <= u64::MAX,
        ensures
            wait_ms == wait_owed(
                old(self).interval() as int,
                stamp_of(old(self).last()),
                now_ms as int,
            ),
            final(self).interval() == old(self).interval(),
            stamp_of(final(self).last()) == Some(
                permitted_at(
                    old(self).interval() as int,
                    stamp_of(old(self).last()),
                    now_ms as int,
                ),
            ),
            old(self).last() is Some && old(self).last()->0 <= now_ms ==> final(self).last()->0
                >= old(self).last()->0 + old(self).interval(),
    {
        let wait_ms: u64 = match self.last {
            None => 0,
            Some(at) => {
                let elapsed: u64 = if now_ms >= at {
                    now_ms - at
                } else {
                    0
                };
                if elapsed < self.interval_ms {
                    self.interval_ms - elapsed
                } else {
                    0
                }
            },
        };
        self.last = Some(now_ms + wait_ms);
        wait_ms
    }
}

} // verus!
