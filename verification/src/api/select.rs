//! Choosing the canonical release of a release group.
//!
//! Each candidate is ranked by its effective date: its own date, or the
//! group's first release date where it has none. A candidate whose date can be
//! read beats one whose date cannot; among readable dates the earlier day
//! wins, and the smaller text on the same day; among unreadable dates a text
//! beats no text and the smaller text beats the larger. The order of texts is
//! that of their bytes. Of candidates that rank equal the first one is kept.
use crate::api::wire::ReleaseItem;
use crate::dates::{parse_date, parsed_date, CalendarDate};
use crate::text::{
    lemma_lex_asymmetric, lemma_lex_connected, lemma_lex_transitive, lex_lt, str_lt, utf8,
};
use vstd::prelude::*;
use vstd::string::*;

verus! {

/// Tells whether a candidate with the date `new_sort` and the text `new_value`
/// takes the place of the one kept so far.
pub open spec fn replaces(
    new_sort: Option<CalendarDate>,
    new_value: Seq<char>,
    existing_sort: Option<CalendarDate>,
    existing_value: Seq<char>,
) -> bool {
    match (existing_sort, new_sort) {
        (Some(kept), Some(coming)) => coming.before(kept) || (!kept.before(coming) && lex_lt(
            utf8(new_value),
            utf8(existing_value),
        )),
        (None, Some(_)) => true,
        (Some(_), None) => false,
        (None, None) => new_value.len() > 0 && (existing_value.len() == 0 || lex_lt(
            utf8(new_value),
            utf8(existing_value),
        )),
    }
}

/// Tells whether the effective date `coming` beats the effective date `kept`.
pub open spec fn beats(coming: Seq<char>, kept: Seq<char>) -> bool {
    replaces(parsed_date(coming), coming, parsed_date(kept), kept)
}

/// The effective date of a candidate: its own date, or the fallback where it
/// has none or an empty one.
pub open spec fn effective_date_of(own: Option<String>, fallback: Seq<char>) -> Seq<char> {
    match own {
        Some(date) => if date@.len() == 0 {
            fallback
        } else {
            date@
        },
        None => fallback,
    }
}

/// The effective dates of a list of releases.
pub open spec fn effective_dates(releases: Seq<ReleaseItem>, fallback: Seq<char>) -> Seq<
    Seq<char>,
> {
    Seq::new(releases.len(), |i: int| effective_date_of(releases[i].date, fallback))
}

/// Tells whether `index` is the choice among the first `count` of `dates`: no
/// date among them beats it, and it beats every date before it.
pub open spec fn is_choice(dates: Seq<Seq<char>>, count: int, index: int) -> bool {
    &&& 0 <= index < count <= dates.len()
    &&& forall|j: int| 0 <= j < count ==> !beats(#[trigger] dates[j], dates[index])
    &&& forall|j: int| 0 <= j < index ==> beats(dates[index], #[trigger] dates[j])
}

/// The choice among all of a list of effective dates.
pub open spec fn choice(dates: Seq<Seq<char>>) -> int {
    choose|index: int| is_choice(dates, dates.len() as int, index)
}

/// No effective date beats itself.
pub proof fn lemma_beats_irreflexive(a: Seq<char>)
    ensures
        !beats(a, a),
{
    crate::text::lemma_lex_irreflexive(utf8(a));
}

/// Two effective dates cannot each beat the other.
pub proof fn lemma_beats_asymmetric(a: Seq<char>, b: Seq<char>)
    ensures
        beats(a, b) ==> !beats(b, a),
{
    lemma_lex_asymmetric(utf8(a), utf8(b));
    lemma_empty_text(a);
    lemma_empty_text(b);
}

/// What beats a date also beats every date that this date does not lose to:
/// with [`lemma_beats_asymmetric`] this makes the ranking a strict weak order.
pub proof fn lemma_beats_carries(a: Seq<char>, b: Seq<char>, c: Seq<char>)
    requires
        beats(a, b),
        !beats(c, b),
    ensures
        beats(a, c),
{
    lemma_empty_text(a);
    lemma_empty_text(b);
    lemma_empty_text(c);
    lemma_lex_connected(utf8(c), utf8(b));
    lemma_lex_connected(utf8(a), utf8(c));
    lemma_lex_asymmetric(utf8(a), utf8(b));
    if lex_lt(utf8(a), utf8(b)) && lex_lt(utf8(b), utf8(c)) {
        lemma_lex_transitive(utf8(a), utf8(b), utf8(c));
    }
    if lex_lt(utf8(c), utf8(a)) && lex_lt(utf8(a), utf8(b)) {
        lemma_lex_transitive(utf8(c), utf8(a), utf8(b));
    }
}

/// The choice among a list of effective dates is unique.
pub proof fn lemma_choice_unique(dates: Seq<Seq<char>>, count: int, i: int, j: int)
    requires
        is_choice(dates, count, i),
        is_choice(dates, count, j),
    ensures
        i == j,
{
    if i < j {
        assert(beats(dates[j], dates[i]));
        assert(!beats(dates[j], dates[i]));
    }
    if j < i {
        assert(beats(dates[i], dates[j]));
        assert(!beats(dates[i], dates[j]));
    }
}

/// A text is empty exactly when it has no bytes.
proof fn lemma_empty_text(a: Seq<char>)
    ensures
        a.len() == 0 <==> utf8(a).len() == 0,
{
    vstd::utf8::encode_utf8_decode_utf8(a);
    if a.len() == 0 {
        assert(a =~= Seq::<char>::empty());
    }
    if utf8(a).len() == 0 {
        assert(utf8(a) =~= Seq::<u8>::empty());
        assert(utf8(Seq::<char>::empty()) =~= Seq::<u8>::empty());
    }
}

/// Decides whether a new candidate takes the place of the one kept so far.
pub fn should_replace_release(
    new_sort: Option<CalendarDate>,
    new_value: &str,
    existing_sort: Option<CalendarDate>,
    existing_value: &str,
) -> (r: bool)
    ensures
        r == replaces(new_sort, new_value@, existing_sort, existing_value@),
{
    match (existing_sort, new_sort) {
        (Some(kept), Some(coming)) => {
            if coming.is_before(&kept) {
                true
            } else if kept.is_before(&coming) {
                false
            } else {
                str_lt(new_value, existing_value)
            }
        },
        (None, Some(_)) => true,
        (Some(_), None) => false,
        (None, None) => {
            if new_value.is_empty() {
                false
            } else if existing_value.is_empty() {
                true
            } else {
                str_lt(new_value, existing_value)
            }
        },
    }
}

/// The effective date of a candidate.
pub fn effective_date(own: &Option<String>, fallback: &str) -> (r: String)
    ensures
        r@ == effective_date_of(*own, fallback@),
{
    match own {
        Some(date) => {
            if date.as_str().is_empty() {
                String::from_str(fallback)
            } else {
                date.clone()
            }
        },
        None => String::from_str(fallback),
    }
}

/// Chooses among effective dates: the index of the first date that no other
/// beats, or `None` where the list is empty.
pub fn select_effective(dates: &Vec<String>) -> (r: Option<usize>)
    ensures
        dates@.len() == 0 <==> r is None,
        r matches Some(index) ==> is_choice(
            crate::text::views(dates@),
            dates@.len() as int,
            index as int,
        ) && index == choice(crate::text::views(dates@)),
{
    let n: usize = dates.len();
    if n == 0 {
        return None;
    }
    let ghost texts = crate::text::views(dates@);
    let mut best: usize = 0;
    let mut best_sort = parse_date(dates[0].as_str());
    proof {
        lemma_beats_irreflexive(texts[0]);
    }
    let mut k: usize = 1;
    while k < n
        invariant
            n == dates@.len(),
            texts == crate::text::views(dates@),
            1 <= k <= n,
            best < k,
            best_sort == parsed_date(texts[best as int]),
            is_choice(texts, k as int, best as int),
        decreases n - k,
    {
        let sort = parse_date(dates[k].as_str());
        if should_replace_release(sort, dates[k].as_str(), best_sort, dates[best].as_str()) {
            proof {
                let coming = texts[k as int];
                let kept = texts[best as int];
                lemma_beats_irreflexive(coming);
                assert forall|j: int| 0 <= j < k implies beats(coming, #[trigger] texts[j]) by {
                    lemma_beats_carries(coming, kept, texts[j]);
                }
                assert forall|j: int| 0 <= j < k + 1 implies !beats(
                    #[trigger] texts[j],
                    coming,
                ) by {
                    if j < k {
                        lemma_beats_asymmetric(coming, texts[j]);
                    }
                }
            }
            best = k;
            best_sort = sort;
        }
        k = k + 1;
    }
    proof {
        lemma_choice_unique(texts, n as int, best as int, choice(texts));
    }
    Some(best)
}

/// Chooses the canonical release of a group: the index of the choice among
/// the releases' effective dates, or `None` where there is no release.
pub fn select_release(releases: &Vec<ReleaseItem>, fallback: &str) -> (r: Option<usize>)
    ensures
        releases@.len() == 0 <==> r is None,
        r matches Some(index) ==> is_choice(
            effective_dates(releases@, fallback@),
            releases@.len() as int,
            index as int,
        ) && index == choice(effective_dates(releases@, fallback@)),
{
    let n: usize = releases.len();
    let mut dates: Vec<String> = Vec::new();
    let mut i: usize = 0;
    while i < n
        invariant
            n == releases@.len(),
            i <= n,
            dates@.len() == i,
            forall|k: int|
                0 <= k < i ==> dates@[k]@ == effective_date_of(releases@[k].date, fallback@),
        decreases n - i,
    {
        dates.push(effective_date(&releases[i].date, fallback));
        i = i + 1;
    }
    proof {
        assert(crate::text::views(dates@) =~= effective_dates(releases@, fallback@));
    }
    select_effective(&dates)
}

} // verus!
