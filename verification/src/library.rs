//! The table of stored albums: one record for each release group, found by
//! the group's id.
//!
//! The table says what the store holds and how it changes; keeping it on disk
//! is the business of whoever owns the table.
use crate::clock::utc_now_rfc3339;
use crate::models::library::{
    copy_records, copy_text, record_views, text_of, AlbumRecord, AlbumRecordView, CoverArtStatus,
    NoteStatus,
};
use crate::sorting::{is_stable_arrangement, is_total, ranking, stable_sort, Ranked};
use crate::text::{
    lemma_lex_asymmetric, lemma_lex_connected, lemma_lex_le_transitive, lemma_lex_transitive,
    lex_le, lex_lt, str_eq, str_lt, utf8,
};
use vstd::prelude::*;
use vstd::string::*;

verus! {

/// The lower-case form of a text, as the standard library makes it.
pub uninterp spec fn lowercased(text: Seq<char>) -> Seq<char>;

/// Calls `str::to_lowercase`. The result is a function of the text alone,
/// named [`lowercased`].
#[verifier::external_body]
fn to_lowercase(text: &str) -> (r: String)
    ensures
        r@ == lowercased(text@),
{
    text.to_lowercase()
}

/// The order in which the store lists its records: by title without regard
/// to case, the lower-case titles taken by their bytes.
pub open spec fn title_precedes(a: AlbumRecordView, b: AlbumRecordView) -> bool {
    lex_le(utf8(lowercased(a.title)), utf8(lowercased(b.title)))
}

/// The store's listing order as a relation.
pub open spec fn title_order() -> spec_fn(AlbumRecordView, AlbumRecordView) -> bool {
    |a: AlbumRecordView, b: AlbumRecordView| title_precedes(a, b)
}

/// The store's listing order is total: of two records one may stand before
/// the other, so that the store lists its records in one order and no other.
pub proof fn lemma_title_order_total()
    ensures
        is_total(title_order()),
{
    assert forall|a: AlbumRecordView, b: AlbumRecordView|
        #[trigger] title_order()(a, b) || #[trigger] title_order()(b, a) by {
        lemma_lex_asymmetric(utf8(lowercased(a.title)), utf8(lowercased(b.title)));
    }
}

impl Ranked for AlbumRecord {
    open spec fn precedes(&self, other: &Self) -> bool {
        title_precedes(self@, other@)
    }

    fn may_precede(&self, other: &Self) -> (r: bool) {
        let mine = to_lowercase(self.title.as_str());
        let theirs = to_lowercase(other.title.as_str());
        !str_lt(theirs.as_str(), mine.as_str())
    }

    proof fn lemma_total(a: &Self, b: &Self) {
        lemma_lex_asymmetric(utf8(lowercased(a@.title)), utf8(lowercased(b@.title)));
    }

    proof fn lemma_transitive(a: &Self, b: &Self, c: &Self) {
        lemma_lex_le_transitive(
            utf8(lowercased(a@.title)),
            utf8(lowercased(b@.title)),
            utf8(lowercased(c@.title)),
        );
    }
}

/// The key under which the record with the id `id` is kept on disk.
pub open spec fn album_key_of(id: Seq<char>) -> Seq<char> {
    "album::"@ + id
}

/// Writes the key under which a record is kept on disk.
pub fn album_key(id: &str) -> (r: String)
    ensures
        r@ == album_key_of(id@),
{
    let mut key = String::from_str("album::");
    key.append(id);
    key
}

/// Tells whether the id `a` comes before the id `b`: ids are put in the order
/// of their bytes. That is also the order of the keys under which the records
/// are kept on disk, which differ only behind their common beginning.
pub open spec fn id_before(a: Seq<char>, b: Seq<char>) -> bool {
    lex_lt(utf8(a), utf8(b))
}

/// Tells whether the records of a list stand in the order of their ids, each
/// id before the next.
pub open spec fn is_in_key_order(records: Seq<AlbumRecordView>) -> bool {
    forall|i: int, j: int|
        0 <= i < j < records.len() ==> id_before(
            (#[trigger] records[i]).mbid,
            (#[trigger] records[j]).mbid,
        )
}

/// Tells whether `slot` is the place at which a record with the id `id`,
/// which the list does not hold, goes into the list: behind all records with
/// an id before it, and before all others.
pub open spec fn is_slot(records: Seq<AlbumRecordView>, id: Seq<char>, slot: int) -> bool {
    &&& 0 <= slot <= records.len()
    &&& forall|j: int| 0 <= j < slot ==> id_before((#[trigger] records[j]).mbid, id)
    &&& forall|j: int| slot <= j < records.len() ==> id_before(id, (#[trigger] records[j]).mbid)
}

/// The place at which a record with a new id goes into a list.
pub open spec fn slot_of(records: Seq<AlbumRecordView>, id: Seq<char>) -> int {
    choose|slot: int| is_slot(records, id, slot)
}

/// Tells whether no two records of a list go by the same id.
pub open spec fn has_unique_ids(records: Seq<AlbumRecordView>) -> bool {
    forall|i: int, j: int|
        0 <= i < j < records.len() ==> (#[trigger] records[i]).mbid != (#[trigger] records[j]).mbid
}

/// Tells whether a list holds a record with the id `id`.
pub open spec fn holds(records: Seq<AlbumRecordView>, id: Seq<char>) -> bool {
    exists|i: int| 0 <= i < records.len() && (#[trigger] records[i]).mbid == id
}

/// The place of the record with the id `id` in a list that holds one.
pub open spec fn place_of(records: Seq<AlbumRecordView>, id: Seq<char>) -> int {
    choose|i: int| 0 <= i < records.len() && (#[trigger] records[i]).mbid == id
}

/// A record as it is written at the moment `now`.
pub open spec fn stamped(record: AlbumRecordView, now: Seq<char>) -> AlbumRecordView {
    AlbumRecordView { updated_at_utc: now, ..record }
}

/// Tells whether cover art that stands at `stored` would go back by being set
/// to `coming`: the one step that no write takes is the one from a later
/// status back to `Pending`.
pub open spec fn steps_back(stored: CoverArtStatus, coming: CoverArtStatus) -> bool {
    coming == CoverArtStatus::Pending && stored != CoverArtStatus::Pending
}

/// Tells whether a note that stands at `stored` would go back by being set to
/// `coming`: a note that was written is never again unwritten.
pub open spec fn note_steps_back(stored: NoteStatus, coming: NoteStatus) -> bool {
    coming == NoteStatus::NotGenerated && stored == NoteStatus::Generated
}

/// A record with the cover art of `stored`, status and path, where its own
/// would set the cover art back to `Pending`.
pub open spec fn keeping_cover_art(stored: AlbumRecordView, record: AlbumRecordView) -> AlbumRecordView {
    if steps_back(stored.cover_art_status, record.cover_art_status) {
        AlbumRecordView {
            cover_art_status: stored.cover_art_status,
            cover_art_path: stored.cover_art_path,
            ..record
        }
    } else {
        record
    }
}

/// A record with the note of `stored`, status and path, where its own would
/// make a written note unwritten.
pub open spec fn keeping_note(stored: AlbumRecordView, record: AlbumRecordView) -> AlbumRecordView {
    if note_steps_back(stored.note_status, record.note_status) {
        AlbumRecordView { note_status: stored.note_status, note_path: stored.note_path, ..record }
    } else {
        record
    }
}

/// The record that takes the place of `stored` when `record` is written over
/// it: `record` itself, except that neither the cover art nor the note goes
/// back. Cover art past `Pending` is not set back to `Pending`, and a note
/// that was written stays written; in both cases the stored status and path
/// are kept.
pub open spec fn written_over(stored: AlbumRecordView, record: AlbumRecordView) -> AlbumRecordView {
    keeping_note(stored, keeping_cover_art(stored, record))
}

/// The record that the table holds under an id, where it holds one.
pub open spec fn held(records: Seq<AlbumRecordView>, id: Seq<char>) -> Option<AlbumRecordView> {
    if holds(records, id) {
        Some(records[place_of(records, id)])
    } else {
        None
    }
}

/// The record that stands in the table after `record` was written at the
/// moment `now`.
pub open spec fn written(
    records: Seq<AlbumRecordView>,
    record: AlbumRecordView,
    now: Seq<char>,
) -> AlbumRecordView {
    stamped(
        match held(records, record.mbid) {
            Some(stored) => written_over(stored, record),
            None => record,
        },
        now,
    )
}

/// The table after `record` was written at the moment `now`: the record takes
/// the place of the one with its id, whose cover art it never sets back to
/// `Pending`, or goes to its place in the order of ids where the table held
/// none.
pub open spec fn upserted(
    records: Seq<AlbumRecordView>,
    record: AlbumRecordView,
    now: Seq<char>,
) -> Seq<AlbumRecordView> {
    if holds(records, record.mbid) {
        let at = place_of(records, record.mbid);
        records.update(at, stamped(written_over(records[at], record), now))
    } else {
        records.insert(slot_of(records, record.mbid), stamped(record, now))
    }
}

/// A record after its cover art was settled at the moment `now`.
pub open spec fn with_cover_art(
    record: AlbumRecordView,
    path: Option<Seq<char>>,
    status: CoverArtStatus,
    now: Seq<char>,
) -> AlbumRecordView {
    AlbumRecordView { cover_art_path: path, cover_art_status: status, updated_at_utc: now, ..record }
}

/// The change that a setting of cover art makes to a record at the moment
/// `now`: path, status and the time of the last change are set, except where
/// that would set the cover art back to `Pending`: such a record stays as it
/// was.
pub open spec fn cover_art_change(
    path: Option<Seq<char>>,
    status: CoverArtStatus,
    now: Seq<char>,
) -> spec_fn(AlbumRecordView) -> AlbumRecordView {
    |r: AlbumRecordView|
        if steps_back(r.cover_art_status, status) {
            r
        } else {
            with_cover_art(r, path, status, now)
        }
}

/// A record after its note was written at the moment `now`.
pub open spec fn with_note(record: AlbumRecordView, path: Seq<char>, now: Seq<char>) -> AlbumRecordView {
    AlbumRecordView {
        note_status: NoteStatus::Generated,
        note_path: Some(path),
        updated_at_utc: now,
        ..record
    }
}

/// The table after the record with the id `id`, where there is one, was
/// changed by `change`.
pub open spec fn changed(
    records: Seq<AlbumRecordView>,
    id: Seq<char>,
    change: spec_fn(AlbumRecordView) -> AlbumRecordView,
) -> Seq<AlbumRecordView> {
    if holds(records, id) {
        records.update(place_of(records, id), change(records[place_of(records, id)]))
    } else {
        records
    }
}

/// The time of the last change of the record with the id `id`.
pub open spec fn last_change(records: Seq<AlbumRecordView>, id: Seq<char>) -> Seq<char> {
    records[place_of(records, id)].updated_at_utc
}

/// Tells whether `listing` is what the store lists for the table `records`:
/// all records in the order of their titles, those of equal rank as they
/// stand in the table, which is the order of their ids.
pub open spec fn is_listing_of(records: Seq<AlbumRecordView>, listing: Seq<AlbumRecordView>) -> bool {
    exists|origin: Seq<int>| #[trigger]
        is_stable_arrangement(records, listing, origin, title_order())
}

pub struct LibraryStore {
    records: Vec<AlbumRecord>,
}

impl View for LibraryStore {
    type V = Seq<AlbumRecordView>;

    /// The records of the table, in the order of their ids.
    closed spec fn view(&self) -> Seq<AlbumRecordView> {
        record_views(self.records@)
    }
}

impl LibraryStore {
    #[verifier::type_invariant]
    spec fn well_formed(self) -> bool {
        is_in_key_order(record_views(self.records@))
    }

    /// The empty table.
    pub fn new() -> (r: LibraryStore)
        ensures
            r@ == Seq::<AlbumRecordView>::empty(),
    {
        let r = LibraryStore { records: Vec::new() };
        proof {
            assert(r@ =~= Seq::<AlbumRecordView>::empty());
        }
        r
    }

    /// The number of records. They stand in the order of their ids, and no
    /// two of them go by the same id.
    pub fn len(&self) -> (r: usize)
        ensures
            r == self@.len(),
            is_in_key_order(self@),
            has_unique_ids(self@),
    {
        proof {
            use_type_invariant(self);
            lemma_key_order_unique(self@);
        }
        self.records.len()
    }

    /// Takes the records out of the table, which is left empty.
    fn take_records(&mut self) -> (r: Vec<AlbumRecord>)
        ensures
            r@ == old(self).records@,
            final(self).records@.len() == 0,
    {
        let mut taken = LibraryStore { records: Vec::new() };
        std::mem::swap(self, &mut taken);
        taken.records
    }

    fn find(&self, mbid: &str) -> (r: Option<usize>)
        ensures
            r is Some <==> holds(self@, mbid@),
            r matches Some(i) ==> i == place_of(self@, mbid@) && 0 <= i < self@.len(),
            is_in_key_order(self@),
            has_unique_ids(self@),
    {
        proof {
            use_type_invariant(self);
            lemma_key_order_unique(self@);
        }
        let n: usize = self.records.len();
        let mut i: usize = 0;
        while i < n
            invariant
                n == self.records@.len(),
                i <= n,
                is_in_key_order(self@),
                has_unique_ids(self@),
                forall|k: int| 0 <= k < i ==> (#[trigger] self@[k]).mbid != mbid@,
            decreases n - i,
        {
            if str_eq(self.records[i].mbid.as_str(), mbid) {
                proof {
                    assert(self@[i as int].mbid == mbid@);
                    let j = place_of(self@, mbid@);
                    assert(self@[j].mbid == mbid@);
                    if j < i {
                        assert(self@[j].mbid != self@[i as int].mbid);
                    }
                    if i < j {
                        assert(self@[i as int].mbid != self@[j].mbid);
                    }
                }
                return Some(i);
            }
            i = i + 1;
        }
        None
    }

    /// The place at which a record with the id `mbid`, which the table does
    /// not hold, goes into the table.
    fn find_slot(&self, mbid: &str) -> (r: usize)
        requires
            !holds(self@, mbid@),
        ensures
            is_slot(self@, mbid@, r as int),
            r == slot_of(self@, mbid@),
    {
        proof {
            use_type_invariant(self);
        }
        let n: usize = self.records.len();
        let mut i: usize = 0;
        while i < n && str_lt(self.records[i].mbid.as_str(), mbid)
            invariant
                n == self.records@.len(),
                i <= n,
                forall|k: int| 0 <= k < i ==> id_before((#[trigger] self@[k]).mbid, mbid@),
            decreases n - i,
        {
            i = i + 1;
        }
        proof {
            assert forall|j: int| i <= j < n implies id_before(mbid@, (#[trigger] self@[j]).mbid) by {
                let here = self@[i as int].mbid;
                assert(here != mbid@);
                lemma_utf8_differs(here, mbid@);
                lemma_lex_connected(utf8(here), utf8(mbid@));
                if i < j {
                    lemma_lex_transitive(utf8(mbid@), utf8(here), utf8(self@[j].mbid));
                }
            }
            lemma_slot_unique(self@, mbid@, i as int, slot_of(self@, mbid@));
        }
        i
    }

    /// Tells whether the table holds a record with the id `mbid`.
    pub fn contains(&self, mbid: &str) -> (r: bool)
        ensures
            r == holds(self@, mbid@),
    {
        self.find(mbid).is_some()
    }

    /// Writes a record at the moment `now` and tells whether its id is new to
    /// the table. After the call the table holds the id, once.
    pub fn upsert_album_at(&mut self, record: AlbumRecord, now: &str) -> (is_new: bool)
        ensures
            is_new == !holds(old(self)@, record@.mbid),
            final(self)@ == upserted(old(self)@, record@, now@),
            holds(final(self)@, record@.mbid),
            is_in_key_order(final(self)@),
            has_unique_ids(final(self)@),
    {
        let mut record = record;
        let ghost given = record@;
        record.touch_at(now);
        match self.find(record.mbid.as_str()) {
            Some(i) => {
                let stored = &self.records[i];
                if record.cover_art_status == CoverArtStatus::Pending && stored.cover_art_status
                    != CoverArtStatus::Pending {
                    record.cover_art_status = stored.cover_art_status;
                    record.cover_art_path = copy_text(&stored.cover_art_path);
                }
                if record.note_status == NoteStatus::NotGenerated && stored.note_status
                    == NoteStatus::Generated {
                    record.note_status = stored.note_status;
                    record.note_path = copy_text(&stored.note_path);
                }
                let mut records = self.take_records();
                records.set(i, record);
                proof {
                    lemma_upserted_holds(old(self)@, given, now@);
                    assert(record_views(records@) =~= upserted(old(self)@, given, now@));
                }
                self.records = records;
                false
            },
            None => {
                let slot = self.find_slot(record.mbid.as_str());
                let mut records = self.take_records();
                records.insert(slot, record);
                proof {
                    lemma_upserted_holds(old(self)@, given, now@);
                    assert(record_views(records@) =~= upserted(old(self)@, given, now@));
                }
                self.records = records;
                true
            },
        }
    }

    /// Writes a record at the time of the call and tells whether its id is
    /// new to the table. Whatever the clock reads, the table is the one that
    /// [`LibraryStore::upsert_album_at`] makes for that reading, which the
    /// written record carries.
    pub fn upsert_album(&mut self, record: AlbumRecord) -> (is_new: bool)
        ensures
            is_new == !holds(old(self)@, record@.mbid),
            final(self)@ == upserted(
                old(self)@,
                record@,
                last_change(final(self)@, record@.mbid),
            ),
    {
        let now = utc_now_rfc3339();
        proof {
            use_type_invariant(&*self);
            lemma_key_order_unique(self@);
        }
        let is_new = self.upsert_album_at(record, now.as_str());
        proof {
            lemma_upserted_holds(old(self)@, record@, now@);
        }
        is_new
    }

    /// The record with the id `mbid`, where the table holds one.
    pub fn get_album(&self, mbid: &str) -> (r: Option<AlbumRecord>)
        ensures
            r is Some <==> holds(self@, mbid@),
            r matches Some(record) ==> record@ == self@[place_of(self@, mbid@)],
    {
        match self.find(mbid) {
            Some(i) => Some(self.records[i].clone()),
            None => None,
        }
    }

    /// All records, in the order of their titles without regard to case.
    pub fn all_albums(&self) -> (r: Vec<AlbumRecord>)
        ensures
            is_listing_of(self@, record_views(r@)),
    {
        let mut list = copy_records(&self.records);
        let ghost copied = list@;
        stable_sort(&mut list);
        proof {
            let origin = choose|origin: Seq<int>|
                is_stable_arrangement(copied, list@, origin, ranking::<AlbumRecord>());
            assert(record_views(copied) == self@);
            assert(record_views(copied).len() == copied.len());
            assert(is_stable_arrangement(self@, record_views(list@), origin, title_order()));
        }
        list
    }

    /// Sets the cover art of the record with the id `mbid` at the moment
    /// `now`. A table without that record stays as it is, and so does a
    /// record whose cover art would go back to `Pending`.
    pub fn set_cover_art_path_at(
        &mut self,
        mbid: &str,
        path: Option<String>,
        status: CoverArtStatus,
        now: &str,
    )
        ensures
            final(self)@ == changed(
                old(self)@,
                mbid@,
                cover_art_change(text_of(path), status, now@),
            ),
    {
        match self.find(mbid) {
            Some(i) => {
                if status == CoverArtStatus::Pending && self.records[i].cover_art_status
                    != CoverArtStatus::Pending {
                    proof {
                        assert(self@ =~= changed(
                            self@,
                            mbid@,
                            cover_art_change(text_of(path), status, now@),
                        ));
                    }
                    return ;
                }
                let mut record = self.records[i].clone();
                record.cover_art_path = path;
                record.cover_art_status = status;
                record.touch_at(now);
                let mut records = self.take_records();
                records.set(i, record);
                proof {
                    lemma_changed_holds(
                        old(self)@,
                        mbid@,
                        cover_art_change(text_of(path), status, now@),
                    );
                    assert(record_views(records@) =~= old(self)@.update(
                        i as int,
                        with_cover_art(old(self)@[i as int], text_of(path), status, now@),
                    ));
                }
                self.records = records;
            },
            None => {},
        }
    }

    /// Sets the cover art of the record with the id `mbid` at the time of
    /// the call. A table without that record stays as it is, and so does a
    /// record whose cover art would go back to `Pending`.
    pub fn set_cover_art_path(&mut self, mbid: &str, path: Option<String>, status: CoverArtStatus)
        ensures
            final(self)@ == changed(
                old(self)@,
                mbid@,
                cover_art_change(text_of(path), status, last_change(final(self)@, mbid@)),
            ),
    {
        let now = utc_now_rfc3339();
        proof {
            use_type_invariant(&*self);
            lemma_key_order_unique(self@);
        }
        self.set_cover_art_path_at(mbid, path, status, now.as_str());
        proof {
            lemma_changed_holds(
                old(self)@,
                mbid@,
                cover_art_change(text_of(path), status, now@),
            );
            assert(self@ =~= changed(
                old(self)@,
                mbid@,
                cover_art_change(text_of(path), status, last_change(self@, mbid@)),
            ));
        }
    }

    /// Marks the note of the record with the id `mbid` as written to
    /// `note_path` at the moment `now`. A table without that record stays as
    /// it is.
    pub fn mark_note_generated_at(&mut self, mbid: &str, note_path: String, now: &str)
        ensures
            final(self)@ == changed(
                old(self)@,
                mbid@,
                |r: AlbumRecordView| with_note(r, note_path@, now@),
            ),
    {
        match self.find(mbid) {
            Some(i) => {
                let mut record = self.records[i].clone();
                record.note_status = NoteStatus::Generated;
                record.note_path = Some(note_path);
                record.touch_at(now);
                let mut records = self.take_records();
                records.set(i, record);
                proof {
                    lemma_changed_holds(
                        old(self)@,
                        mbid@,
                        |r: AlbumRecordView| with_note(r, note_path@, now@),
                    );
                    assert(record_views(records@) =~= old(self)@.update(
                        i as int,
                        with_note(old(self)@[i as int], note_path@, now@),
                    ));
                }
                self.records = records;
            },
            None => {},
        }
    }

    /// Marks the note of the record with the id `mbid` as written to
    /// `note_path` at the time of the call. A table without that record stays
    /// as it is.
    pub fn mark_note_generated(&mut self, mbid: &str, note_path: String)
        ensures
            final(self)@ == changed(
                old(self)@,
                mbid@,
                |r: AlbumRecordView| with_note(r, note_path@, last_change(final(self)@, mbid@)),
            ),
    {
        let now = utc_now_rfc3339();
        proof {
            use_type_invariant(&*self);
            lemma_key_order_unique(self@);
        }
        self.mark_note_generated_at(mbid, note_path, now.as_str());
        proof {
            lemma_changed_holds(
                old(self)@,
                mbid@,
                |r: AlbumRecordView| with_note(r, note_path@, now@),
            );
            if holds(old(self)@, mbid@) {
                assert(last_change(self@, mbid@) == now@);
            }
            assert(self@ =~= changed(
                old(self)@,
                mbid@,
                |r: AlbumRecordView| with_note(r, note_path@, last_change(self@, mbid@)),
            ));
        }
    }
}

/// Two different texts have different bytes.
proof fn lemma_utf8_differs(a: Seq<char>, b: Seq<char>)
    requires
        a != b,
    ensures
        utf8(a) != utf8(b),
{
    vstd::utf8::encode_utf8_decode_utf8(a);
    vstd::utf8::encode_utf8_decode_utf8(b);
}

/// Records in the order of their ids go by different ids.
pub proof fn lemma_key_order_unique(records: Seq<AlbumRecordView>)
    requires
        is_in_key_order(records),
    ensures
        has_unique_ids(records),
{
    assert forall|i: int, j: int| 0 <= i < j < records.len() implies (#[trigger] records[i]).mbid
        != (#[trigger] records[j]).mbid by {
        crate::text::lemma_lex_irreflexive(utf8(records[i].mbid));
    }
}

/// A new id has one place in a list and no other.
pub proof fn lemma_slot_unique(records: Seq<AlbumRecordView>, id: Seq<char>, a: int, b: int)
    requires
        is_slot(records, id, a),
        (exists|slot: int| is_slot(records, id, slot)) ==> is_slot(records, id, b),
    ensures
        a == b,
{
    assert(is_slot(records, id, b));
    if a < b {
        assert(id_before(records[a].mbid, id));
        assert(id_before(id, records[a].mbid));
        lemma_lex_asymmetric(utf8(id), utf8(records[a].mbid));
    }
    if b < a {
        assert(id_before(records[b].mbid, id));
        assert(id_before(id, records[b].mbid));
        lemma_lex_asymmetric(utf8(id), utf8(records[b].mbid));
    }
}

/// A list in the order of its ids has a place for every id that it does not
/// hold.
pub proof fn lemma_slot_exists(records: Seq<AlbumRecordView>, id: Seq<char>)
    requires
        is_in_key_order(records),
        !holds(records, id),
    ensures
        is_slot(records, id, slot_of(records, id)),
    decreases records.len(),
{
    if records.len() == 0 {
        assert(is_slot(records, id, 0));
    } else {
        let init = records.drop_last();
        let last = records.last();
        assert(is_in_key_order(init)) by {
            assert forall|i: int, j: int| 0 <= i < j < init.len() implies id_before(
                (#[trigger] init[i]).mbid,
                (#[trigger] init[j]).mbid,
            ) by {
                assert(init[i] == records[i] && init[j] == records[j]);
            }
        }
        assert(!holds(init, id)) by {
            if holds(init, id) {
                let k = choose|k: int| 0 <= k < init.len() && (#[trigger] init[k]).mbid == id;
                assert(records[k].mbid == id);
            }
        }
        lemma_slot_exists(init, id);
        let slot = slot_of(init, id);
        assert(last.mbid != id) by {
            assert(records[records.len() - 1].mbid == last.mbid);
        }
        lemma_utf8_differs(last.mbid, id);
        lemma_lex_connected(utf8(last.mbid), utf8(id));
        if id_before(last.mbid, id) {
            assert forall|j: int| 0 <= j < records.len() implies id_before(
                (#[trigger] records[j]).mbid,
                id,
            ) by {
                if j < records.len() - 1 {
                    assert(id_before(records[j].mbid, records[records.len() - 1].mbid));
                    lemma_lex_transitive(utf8(records[j].mbid), utf8(last.mbid), utf8(id));
                }
            }
            assert(is_slot(records, id, records.len() as int));
        } else {
            assert forall|j: int| 0 <= j < slot implies id_before(
                (#[trigger] records[j]).mbid,
                id,
            ) by {
                assert(records[j] == init[j]);
            }
            assert forall|j: int| slot <= j < records.len() implies id_before(
                id,
                (#[trigger] records[j]).mbid,
            ) by {
                if j < records.len() - 1 {
                    assert(records[j] == init[j]);
                }
            }
            assert(is_slot(records, id, slot));
        }
    }
}

/// After a record was written, the table holds its id once, at a known place
/// and with the stamp of the writing, and stands in the order of its ids.
pub proof fn lemma_upserted_holds(
    records: Seq<AlbumRecordView>,
    record: AlbumRecordView,
    now: Seq<char>,
)
    requires
        is_in_key_order(records),
    ensures
        is_in_key_order(upserted(records, record, now)),
        has_unique_ids(upserted(records, record, now)),
        holds(upserted(records, record, now), record.mbid),
        upserted(records, record, now)[place_of(upserted(records, record, now), record.mbid)]
            == written(records, record, now),
        last_change(upserted(records, record, now), record.mbid) == now,
        upserted(records, record, now).len() == if holds(records, record.mbid) {
            records.len()
        } else {
            records.len() + 1
        },
{
    let after = upserted(records, record, now);
    if !holds(records, record.mbid) {
        lemma_slot_exists(records, record.mbid);
    }
    let at = if holds(records, record.mbid) {
        place_of(records, record.mbid)
    } else {
        slot_of(records, record.mbid)
    };
    assert(after[at] == written(records, record, now));
    assert(after[at].mbid == record.mbid);
    assert forall|i: int, j: int| 0 <= i < j < after.len() implies id_before(
        (#[trigger] after[i]).mbid,
        (#[trigger] after[j]).mbid,
    ) by {
        if holds(records, record.mbid) {
            assert(after[i].mbid == records[i].mbid);
            assert(after[j].mbid == records[j].mbid);
        } else {
            let before_i = if i < at {
                i
            } else {
                i - 1
            };
            let before_j = if j < at {
                j
            } else {
                j - 1
            };
            if i != at {
                assert(after[i] == records[before_i]);
            }
            if j != at {
                assert(after[j] == records[before_j]);
            }
        }
    }
    lemma_key_order_unique(after);
    let found = place_of(after, record.mbid);
    if found < at {
        assert(after[found].mbid != after[at].mbid);
    }
    if at < found {
        assert(after[at].mbid != after[found].mbid);
    }
}

/// No write sets cover art back to `Pending`. Where the table holds a record
/// whose cover art is past `Pending`, it is past `Pending` after every write
/// of a record under that id and after every setting of its cover art,
/// whatever status the write or the setting names.
pub proof fn lemma_never_back_to_pending(
    records: Seq<AlbumRecordView>,
    record: AlbumRecordView,
    path: Option<Seq<char>>,
    status: CoverArtStatus,
    now: Seq<char>,
)
    requires
        is_in_key_order(records),
        holds(records, record.mbid),
        records[place_of(records, record.mbid)].cover_art_status != CoverArtStatus::Pending,
    ensures
        ({
            let id = record.mbid;
            let after_write = upserted(records, record, now);
            let after_setting = changed(records, id, cover_art_change(path, status, now));
            &&& holds(after_write, id)
            &&& after_write[place_of(after_write, id)].cover_art_status != CoverArtStatus::Pending
            &&& holds(after_setting, id)
            &&& after_setting[place_of(after_setting, id)].cover_art_status
                != CoverArtStatus::Pending
            &&& status == CoverArtStatus::Pending ==> after_setting == records
        }),
{
    lemma_upserted_holds(records, record, now);
    lemma_key_order_unique(records);
    lemma_changed_holds(records, record.mbid, cover_art_change(path, status, now));
    let at = place_of(records, record.mbid);
    let after_setting = changed(records, record.mbid, cover_art_change(path, status, now));
    assert(after_setting[at] == cover_art_change(path, status, now)(records[at]));
    if status == CoverArtStatus::Pending {
        assert(after_setting =~= records);
    }
}

/// No write makes a written note unwritten. Where the table holds a record
/// whose note was written, the note is written, under the same path, after
/// every write of a record that names no note under that id, and after every
/// setting of its cover art.
pub proof fn lemma_note_stays_written(
    records: Seq<AlbumRecordView>,
    record: AlbumRecordView,
    path: Option<Seq<char>>,
    status: CoverArtStatus,
    now: Seq<char>,
)
    requires
        is_in_key_order(records),
        holds(records, record.mbid),
        records[place_of(records, record.mbid)].note_status == NoteStatus::Generated,
    ensures
        ({
            let id = record.mbid;
            let stored = records[place_of(records, id)];
            let after_write = upserted(records, record, now);
            let after_setting = changed(records, id, cover_art_change(path, status, now));
            &&& holds(after_write, id)
            &&& after_write[place_of(after_write, id)].note_status == NoteStatus::Generated
            &&& record.note_status == NoteStatus::NotGenerated ==> after_write[place_of(
                after_write,
                id,
            )].note_path == stored.note_path
            &&& holds(after_setting, id)
            &&& after_setting[place_of(after_setting, id)].note_status == NoteStatus::Generated
            &&& after_setting[place_of(after_setting, id)].note_path == stored.note_path
        }),
{
    lemma_upserted_holds(records, record, now);
    lemma_key_order_unique(records);
    lemma_changed_holds(records, record.mbid, cover_art_change(path, status, now));
    let at = place_of(records, record.mbid);
    let after_setting = changed(records, record.mbid, cover_art_change(path, status, now));
    assert(after_setting[at] == cover_art_change(path, status, now)(records[at]));
}

/// After the record with an id was changed by a change that keeps the id,
/// the table holds the same ids at the same places.
pub proof fn lemma_changed_holds(
    records: Seq<AlbumRecordView>,
    id: Seq<char>,
    change: spec_fn(AlbumRecordView) -> AlbumRecordView,
)
    requires
        has_unique_ids(records),
        forall|r: AlbumRecordView| (#[trigger] change(r)).mbid == r.mbid,
    ensures
        has_unique_ids(changed(records, id, change)),
        is_in_key_order(records) ==> is_in_key_order(changed(records, id, change)),
        holds(changed(records, id, change), id) == holds(records, id),
        holds(records, id) ==> place_of(changed(records, id, change), id) == place_of(records, id),
        changed(records, id, change).len() == records.len(),
{
    let after = changed(records, id, change);
    if holds(records, id) {
        let at = place_of(records, id);
        assert(after[at] == change(records[at]));
        assert(after[at].mbid == id);
        assert forall|i: int, j: int| 0 <= i < j < after.len() implies (#[trigger] after[i]).mbid
            != (#[trigger] after[j]).mbid by {
            assert(after[i].mbid == records[i].mbid);
            assert(after[j].mbid == records[j].mbid);
        }
        let found = place_of(after, id);
        if found < at {
            assert(after[found].mbid != after[at].mbid);
        }
        if at < found {
            assert(after[at].mbid != after[found].mbid);
        }
        if is_in_key_order(records) {
            assert forall|i: int, j: int| 0 <= i < j < after.len() implies id_before(
                (#[trigger] after[i]).mbid,
                (#[trigger] after[j]).mbid,
            ) by {
                assert(after[i].mbid == records[i].mbid);
                assert(after[j].mbid == records[j].mbid);
            }
        }
    }
}

/// Writing twice under one id leaves one record. After two writes of records
/// with the same id, the table holds that id at exactly one place, the record
/// there is the one that the second write left, with the stamp of the second
/// write, and every listing of the table shows that id exactly once, with
/// that stamp.
pub proof fn lemma_upsert_twice(
    records: Seq<AlbumRecordView>,
    first: AlbumRecordView,
    first_at: Seq<char>,
    second: AlbumRecordView,
    second_at: Seq<char>,
    listing: Seq<AlbumRecordView>,
)
    requires
        is_in_key_order(records),
        first.mbid == second.mbid,
        is_listing_of(upserted(upserted(records, first, first_at), second, second_at), listing),
    ensures
        ({
            let once = upserted(records, first, first_at);
            let twice = upserted(once, second, second_at);
            &&& twice.len() == once.len()
            &&& has_unique_ids(twice)
            &&& twice[place_of(twice, first.mbid)] == written(once, second, second_at)
            &&& written(once, second, second_at).updated_at_utc == second_at
            &&& listing.len() == twice.len()
            &&& exists|k: int|
                0 <= k < listing.len() && #[trigger] listing[k] == written(
                    once,
                    second,
                    second_at,
                )
            &&& forall|i: int, j: int|
                0 <= i < listing.len() && 0 <= j < listing.len() && (#[trigger] listing[i]).mbid
                    == first.mbid && (#[trigger] listing[j]).mbid == first.mbid ==> i == j
        }),
{
    let once = upserted(records, first, first_at);
    let twice = upserted(once, second, second_at);
    lemma_upserted_holds(records, first, first_at);
    lemma_upserted_holds(once, second, second_at);
    let origin = choose|origin: Seq<int>| #[trigger]
        is_stable_arrangement(twice, listing, origin, title_order());
    let at = place_of(twice, first.mbid);
    crate::sorting::lemma_arrangement_onto(twice, listing, origin, title_order(), at);
    let k = choose|k: int| 0 <= k < listing.len() && origin[k] == at;
    assert(listing[k] == written(once, second, second_at));
    assert forall|i: int, j: int|
        0 <= i < listing.len() && 0 <= j < listing.len() && (#[trigger] listing[i]).mbid
            == first.mbid && (#[trigger] listing[j]).mbid == first.mbid implies i == j by {
        let oi = origin[i];
        let oj = origin[j];
        assert(twice[oi].mbid == twice[oj].mbid);
        if oi < oj {
            assert(twice[oi].mbid != twice[oj].mbid);
        }
        if oj < oi {
            assert(twice[oj].mbid != twice[oi].mbid);
        }
        if i < j {
            assert(origin[i] != origin[j]);
        }
        if j < i {
            assert(origin[j] != origin[i]);
        }
    }
}

} // verus!
