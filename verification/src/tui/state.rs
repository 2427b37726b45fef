//! What the screen shows, apart from how it is drawn: the lists, what is
//! selected in each, the log, and the part that takes the keys.
use crate::messages::{AppMessage, MessageView};
use crate::models::album::{album_views, Album, AlbumView};
use crate::models::artist::{artist_views, Artist, ArtistView};
use crate::models::library::{
    copy_text, record_views, AlbumRecord, AlbumRecordView, CoverArtStatus,
};
use crate::library::steps_back;
use crate::text::{str_eq, views};
use std::collections::VecDeque;
use vstd::prelude::*;
use vstd::string::*;

verus! {

/// The part of the screen that takes the keys.
#[derive(Debug, Clone, Copy, PartialEq, Eq, Structural)]
pub enum FocusArea {
    Search,
    Artists,
    Albums,
    Library,
    Logs,
    ManualAdd,
}

/// The part that follows `area` when the focus moves on: the five panes in a
/// ring, and the dialog for adding by hand, which keeps the focus.
pub open spec fn focus_after(area: FocusArea) -> FocusArea {
    match area {
        FocusArea::Search => FocusArea::Artists,
        FocusArea::Artists => FocusArea::Albums,
        FocusArea::Albums => FocusArea::Library,
        FocusArea::Library => FocusArea::Logs,
        FocusArea::Logs => FocusArea::Search,
        FocusArea::ManualAdd => FocusArea::ManualAdd,
    }
}

/// The part that comes before `area` in the ring.
pub open spec fn focus_before(area: FocusArea) -> FocusArea {
    match area {
        FocusArea::Search => FocusArea::Logs,
        FocusArea::Artists => FocusArea::Search,
        FocusArea::Albums => FocusArea::Artists,
        FocusArea::Library => FocusArea::Albums,
        FocusArea::Logs => FocusArea::Library,
        FocusArea::ManualAdd => FocusArea::ManualAdd,
    }
}

/// Moving the focus on and back leaves it where it was, and so does moving it
/// back and on.
pub proof fn lemma_focus_round_trip(area: FocusArea)
    ensures
        focus_before(focus_after(area)) == area,
        focus_after(focus_before(area)) == area,
{
}

impl FocusArea {
    pub fn next(self) -> (r: FocusArea)
        ensures
            r == focus_after(self),
    {
        match self {
            FocusArea::Search => FocusArea::Artists,
            FocusArea::Artists => FocusArea::Albums,
            FocusArea::Albums => FocusArea::Library,
            FocusArea::Library => FocusArea::Logs,
            FocusArea::Logs => FocusArea::Search,
            FocusArea::ManualAdd => FocusArea::ManualAdd,
        }
    }

    pub fn previous(self) -> (r: FocusArea)
        ensures
            r == focus_before(self),
    {
        match self {
            FocusArea::Search => FocusArea::Logs,
            FocusArea::Artists => FocusArea::Search,
            FocusArea::Albums => FocusArea::Artists,
            FocusArea::Library => FocusArea::Albums,
            FocusArea::Logs => FocusArea::Library,
            FocusArea::ManualAdd => FocusArea::ManualAdd,
        }
    }
}

/// The number of lines that the log keeps.
pub const LOG_CAPACITY: usize = 200;

/// The state of the screen.
pub struct App {
    pub search_input: String,
    pub manual_add_input: String,
    pub artist_results: Vec<Artist>,
    pub artist_selected: Option<usize>,
    pub albums: Vec<Album>,
    pub album_selected: Option<usize>,
    /// The ids of the albums that are marked for adding.
    pub selected_album_ids: Vec<String>,
    pub library: Vec<AlbumRecord>,
    pub library_selected: Option<usize>,
    /// The log, oldest line first.
    pub logs: VecDeque<String>,
    pub focus: FocusArea,
    pub should_quit: bool,
}

/// What an [`App`] holds, as plain values.
pub struct AppView {
    pub search_input: Seq<char>,
    pub manual_add_input: Seq<char>,
    pub artist_results: Seq<ArtistView>,
    pub artist_selected: Option<usize>,
    pub albums: Seq<AlbumView>,
    pub album_selected: Option<usize>,
    pub selected_album_ids: Set<Seq<char>>,
    pub library: Seq<AlbumRecordView>,
    pub library_selected: Option<usize>,
    pub logs: Seq<Seq<char>>,
    pub focus: FocusArea,
    pub should_quit: bool,
}

/// The texts that a list of strings holds, as a set.
pub open spec fn text_set(list: Seq<String>) -> Set<Seq<char>> {
    Set::new(|t: Seq<char>| exists|i: int| 0 <= i < list.len() && (#[trigger] list[i])@ == t)
}

impl View for App {
    type V = AppView;

    open spec fn view(&self) -> AppView {
        AppView {
            search_input: self.search_input@,
            manual_add_input: self.manual_add_input@,
            artist_results: artist_views(self.artist_results@),
            artist_selected: self.artist_selected,
            albums: album_views(self.albums@),
            album_selected: self.album_selected,
            selected_album_ids: text_set(self.selected_album_ids@),
            library: record_views(self.library@),
            library_selected: self.library_selected,
            logs: views(self.logs@),
            focus: self.focus,
            should_quit: self.should_quit,
        }
    }
}

/// The screen of a program that has just started.
pub open spec fn fresh_screen() -> AppView {
    AppView {
        search_input: Seq::empty(),
        manual_add_input: Seq::empty(),
        artist_results: Seq::empty(),
        artist_selected: None,
        albums: Seq::empty(),
        album_selected: None,
        selected_album_ids: Set::empty(),
        library: Seq::empty(),
        library_selected: None,
        logs: Seq::empty(),
        focus: FocusArea::Search,
        should_quit: false,
    }
}

/// The log after a line was added: the log keeps its newest lines, so where
/// it is full its oldest line gives way.
pub open spec fn logged(logs: Seq<Seq<char>>, line: Seq<char>) -> Seq<Seq<char>> {
    (if logs.len() == LOG_CAPACITY {
        logs.drop_first()
    } else {
        logs
    }).push(line)
}

/// The log after several lines were added, one after the other.
pub open spec fn logged_all(logs: Seq<Seq<char>>, lines: Seq<Seq<char>>) -> Seq<Seq<char>>
    decreases lines.len(),
{
    if lines.len() == 0 {
        logs
    } else {
        logged(logged_all(logs, lines.drop_last()), lines.last())
    }
}

/// The selection in a list that was just filled: its first entry, or nothing
/// where the list is empty.
pub open spec fn first_entry(len: nat) -> Option<usize> {
    if len == 0 {
        None
    } else {
        Some(0usize)
    }
}

/// The selection in a list of `len` entries after it moved by `delta`: up for
/// a negative `delta`, where it stops at the first entry, and down otherwise,
/// where it stops at the last. A list without a selection counts as having
/// its first entry selected; an empty list has no selection.
pub open spec fn moved(selected: Option<usize>, len: nat, delta: int) -> Option<usize> {
    if len == 0 {
        None
    } else {
        let current: int = match selected {
            Some(index) => index as int,
            None => 0,
        };
        if delta < 0 {
            if current + delta < 0 {
                Some(0usize)
            } else {
                Some((current + delta) as usize)
            }
        } else if current + delta > len - 1 {
            Some((len - 1) as usize)
        } else {
            Some((current + delta) as usize)
        }
    }
}

/// The selection in a list that was replaced by one of `len` entries: where
/// it was, or at the last entry where the list has become shorter.
pub open spec fn kept(selected: Option<usize>, len: nat) -> Option<usize> {
    moved(selected, len, 0)
}

/// Tells whether a list holds a record with the id `id`.
pub open spec fn lists(records: Seq<AlbumRecordView>, id: Seq<char>) -> bool {
    exists|i: int| 0 <= i < records.len() && (#[trigger] records[i]).mbid == id
}

/// The place of the first record with the id `id` in a list that holds one.
pub open spec fn first_place(records: Seq<AlbumRecordView>, id: Seq<char>) -> int {
    choose|i: int|
        0 <= i < records.len() && (#[trigger] records[i]).mbid == id && forall|j: int|
            0 <= j < i ==> (#[trigger] records[j]).mbid != id
}

/// The list after the cover art of the first record with the id `id` was
/// set. A list without such a record stays as it is, and so does a record
/// whose cover art would go back to `Pending`.
#[verifier::opaque]
pub open spec fn with_status(
    records: Seq<AlbumRecordView>,
    id: Seq<char>,
    status: CoverArtStatus,
    path: Option<Seq<char>>,
) -> Seq<AlbumRecordView> {
    if lists(records, id) && !steps_back(
        records[first_place(records, id)].cover_art_status,
        status,
    ) {
        let at = first_place(records, id);
        records.update(
            at,
            AlbumRecordView { cover_art_status: status, cover_art_path: path, ..records[at] },
        )
    } else {
        records
    }
}

/// The screen after a message has arrived.
///
/// Artists that were found fill the list of artists, which takes the focus:
/// so do the albums of a listing, which also clear the marks. A failed search
/// and a line for the log go to the log. A change of cover art shows in the
/// list of the library. A new view of the store takes the place of the list
/// of the library and keeps the selection as far as it can. The lines of the
/// note writer go to the log, one after the other.
pub open spec fn after_message(app: AppView, message: MessageView) -> AppView {
    match message {
        MessageView::ArtistResults(results) => AppView {
            artist_results: results,
            artist_selected: first_entry(results.len()),
            focus: FocusArea::Artists,
            logs: logged(app.logs, "Artist search completed"@),
            ..app
        },
        MessageView::AlbumsLoaded(albums) => AppView {
            albums,
            album_selected: first_entry(albums.len()),
            selected_album_ids: Set::empty(),
            focus: FocusArea::Albums,
            logs: logged(app.logs, "Albums loaded"@),
            ..app
        },
        MessageView::SearchFailed(reason) => AppView { logs: logged(app.logs, reason), ..app },
        MessageView::CoverArtStatus { mbid, status, path } => AppView {
            library: with_status(app.library, mbid, status, path),
            ..app
        },
        MessageView::DownloadLog(line) => AppView { logs: logged(app.logs, line), ..app },
        MessageView::LibraryRefreshed(records) => AppView {
            library: records,
            library_selected: kept(app.library_selected, records.len()),
            ..app
        },
        MessageView::NotesGenerated(lines) => AppView { logs: logged_all(app.logs, lines), ..app },
    }
}

/// The albums of a list whose ids are marked, in the order of the list.
pub open spec fn marked(albums: Seq<AlbumView>, ids: Set<Seq<char>>) -> Seq<AlbumView>
    decreases albums.len(),
{
    if albums.len() == 0 {
        Seq::empty()
    } else if ids.contains(albums.last().id) {
        marked(albums.drop_last(), ids).push(albums.last())
    } else {
        marked(albums.drop_last(), ids)
    }
}

/// The entry of a list that is selected, where the selection points into the
/// list.
pub open spec fn selected_in<T>(list: Seq<T>, selected: Option<usize>) -> Option<T> {
    match selected {
        Some(index) => if index < list.len() {
            Some(list[index as int])
        } else {
            None
        },
        None => None,
    }
}

/// The marks after the mark of `id` was turned over.
pub open spec fn toggled(ids: Set<Seq<char>>, id: Seq<char>) -> Set<Seq<char>> {
    if ids.contains(id) {
        ids.remove(id)
    } else {
        ids.insert(id)
    }
}

/// Moves a selection in a list of `len` entries by `delta`.
pub fn update_list_state(selected: Option<usize>, len: usize, delta: isize) -> (r: Option<usize>)
    ensures
        r == moved(selected, len as nat, delta as int),
{
    if len == 0 {
        return None;
    }
    let current: usize = match selected {
        Some(index) => index,
        None => 0,
    };
    if delta < 0 {
        let step: usize = ((-(delta + 1)) as usize) + 1;
        if step > current {
            Some(0)
        } else {
            Some(current - step)
        }
    } else {
        let step: usize = delta as usize;
        if current >= len - 1 {
            Some(len - 1)
        } else if step > len - 1 - current {
            Some(len - 1)
        } else {
            Some(current + step)
        }
    }
}

/// Tells whether a list of ids holds `id`.
pub fn holds_id(ids: &Vec<String>, id: &str) -> (r: bool)
    ensures
        r == text_set(ids@).contains(id@),
{
    let n: usize = ids.len();
    let mut i: usize = 0;
    while i < n
        invariant
            n == ids@.len(),
            i <= n,
            forall|k: int| 0 <= k < i ==> (#[trigger] ids@[k])@ != id@,
        decreases n - i,
    {
        if str_eq(ids[i].as_str(), id) {
            return true;
        }
        i = i + 1;
    }
    false
}

/// The ids of a list without `id`.
fn without_id(ids: &Vec<String>, id: &str) -> (r: Vec<String>)
    ensures
        text_set(r@) == text_set(ids@).remove(id@),
{
    let mut out: Vec<String> = Vec::new();
    let n: usize = ids.len();
    let mut i: usize = 0;
    while i < n
        invariant
            n == ids@.len(),
            i <= n,
            forall|k: int| 0 <= k < out@.len() ==> (#[trigger] out@[k])@ != id@,
            forall|k: int|
                0 <= k < out@.len() ==> exists|j: int|
                    0 <= j < i && (#[trigger] ids@[j])@ == (#[trigger] out@[k])@,
            forall|j: int|
                0 <= j < i && (#[trigger] ids@[j])@ != id@ ==> exists|k: int|
                    0 <= k < out@.len() && (#[trigger] out@[k])@ == ids@[j]@,
        decreases n - i,
    {
        if !str_eq(ids[i].as_str(), id) {
            let ghost before = out@;
            out.push(ids[i].clone());
            proof {
                assert(out@[before.len() as int]@ == ids@[i as int]@);
                assert forall|j: int| 0 <= j < i + 1 && (#[trigger] ids@[j])@ != id@ implies exists|
                    k: int,
                | 0 <= k < out@.len() && (#[trigger] out@[k])@ == ids@[j]@ by {
                    if j < i {
                        let k = choose|k: int|
                            0 <= k < before.len() && (#[trigger] before[k])@ == ids@[j]@;
                        assert(out@[k]@ == ids@[j]@);
                    } else {
                        assert(out@[before.len() as int]@ == ids@[j]@);
                    }
                }
                assert forall|k: int| 0 <= k < out@.len() implies exists|j: int|
                    0 <= j < i + 1 && (#[trigger] ids@[j])@ == (#[trigger] out@[k])@ by {
                    if k < before.len() {
                        assert(out@[k] == before[k]);
                        let j = choose|j: int|
                            0 <= j < i && (#[trigger] ids@[j])@ == (#[trigger] before[k])@;
                        assert(0 <= j < i + 1 && ids@[j]@ == out@[k]@);
                    } else {
                        assert(ids@[i as int]@ == out@[k]@);
                    }
                }
            }
        }
        i = i + 1;
    }
    proof {
        assert(text_set(out@) =~= text_set(ids@).remove(id@));
    }
    out
}

impl App {
    /// The screen of a program that has just started.
    pub fn new() -> (r: App)
        ensures
            r@ == fresh_screen(),
    {
        let r = App {
            search_input: String::new(),
            manual_add_input: String::new(),
            artist_results: Vec::new(),
            artist_selected: None,
            albums: Vec::new(),
            album_selected: None,
            selected_album_ids: Vec::new(),
            library: Vec::new(),
            library_selected: None,
            logs: VecDeque::new(),
            focus: FocusArea::Search,
            should_quit: false,
        };
        proof {
            assert(r@.artist_results =~= Seq::empty());
            assert(r@.albums =~= Seq::empty());
            assert(r@.library =~= Seq::empty());
            assert(r@.logs =~= Seq::empty());
            assert(r@.selected_album_ids =~= Set::empty());
        }
        r
    }

    /// Shows the store when the program starts: the records fill the list of
    /// the library, and the first of them is selected.
    pub fn bootstrap(&mut self, records: Vec<AlbumRecord>)
        ensures
            final(self)@ == (AppView {
                library: record_views(records@),
                library_selected: if records@.len() == 0 {
                    old(self)@.library_selected
                } else {
                    Some(0usize)
                },
                ..old(self)@
            }),
    {
        self.library = records;
        if self.library.len() != 0 {
            self.library_selected = Some(0);
        }
        proof {
            assert(record_views(self.library@).len() == self.library@.len());
        }
    }

    /// Adds a line to the log.
    pub fn push_log(&mut self, message: String)
        ensures
            final(self)@ == (AppView { logs: logged(old(self)@.logs, message@), ..old(self)@ }),
    {
        if self.logs.len() == LOG_CAPACITY {
            let _ = self.logs.pop_front();
        }
        self.logs.push_back(message);
        proof {
            assert(views(self.logs@) =~= logged(views(old(self).logs@), message@));
        }
    }

    pub fn next_focus(&mut self)
        ensures
            final(self)@ == (AppView { focus: focus_after(old(self)@.focus), ..old(self)@ }),
    {
        self.focus = self.focus.next();
    }

    pub fn previous_focus(&mut self)
        ensures
            final(self)@ == (AppView { focus: focus_before(old(self)@.focus), ..old(self)@ }),
    {
        self.focus = self.focus.previous();
    }

    /// The artist that is selected, where one is.
    pub fn selected_artist(&self) -> (r: Option<Artist>)
        ensures
            match selected_in(self@.artist_results, self@.artist_selected) {
                Some(artist) => r matches Some(found) && found@ == artist,
                None => r is None,
            },
    {
        proof {
            assert(artist_views(self.artist_results@).len() == self.artist_results@.len());
        }
        match self.artist_selected {
            Some(index) => {
                if index < self.artist_results.len() {
                    Some(self.artist_results[index].clone())
                } else {
                    None
                }
            },
            None => None,
        }
    }

    /// The album that is selected, where one is.
    pub fn selected_album(&self) -> (r: Option<Album>)
        ensures
            match selected_in(self@.albums, self@.album_selected) {
                Some(album) => r matches Some(found) && found@ == album,
                None => r is None,
            },
    {
        proof {
            assert(album_views(self.albums@).len() == self.albums@.len());
        }
        match self.album_selected {
            Some(index) => {
                if index < self.albums.len() {
                    Some(self.albums[index].clone())
                } else {
                    None
                }
            },
            None => None,
        }
    }

    /// Turns the mark of the selected album over: a marked album loses its
    /// mark, an unmarked one gets it. Without a selected album nothing
    /// changes.
    pub fn toggle_album_selection(&mut self)
        ensures
            final(self)@ == (AppView {
                selected_album_ids: match selected_in(old(self)@.albums, old(self)@.album_selected) {
                    Some(album) => toggled(old(self)@.selected_album_ids, album.id),
                    None => old(self)@.selected_album_ids,
                },
                ..old(self)@
            }),
    {
        match self.selected_album() {
            Some(album) => {
                if holds_id(&self.selected_album_ids, album.id.as_str()) {
                    self.selected_album_ids = without_id(&self.selected_album_ids, album.id.as_str());
                } else {
                    self.selected_album_ids.push(album.id.clone());
                    proof {
                        let before = old(self).selected_album_ids@;
                        let after = self.selected_album_ids@;
                        assert(after[before.len() as int]@ == album.id@);
                        assert forall|t: Seq<char>|
                            text_set(after).contains(t) <==> text_set(before).insert(
                                album.id@,
                            ).contains(t) by {
                            if text_set(after).contains(t) {
                                let i = choose|i: int|
                                    0 <= i < after.len() && (#[trigger] after[i])@ == t;
                                if i < before.len() {
                                    assert(before[i]@ == t);
                                }
                            }
                            if text_set(before).contains(t) {
                                let i = choose|i: int|
                                    0 <= i < before.len() && (#[trigger] before[i])@ == t;
                                assert(after[i]@ == t);
                            }
                        }
                        assert(text_set(after) =~= text_set(before).insert(album.id@));
                    }
                }
            },
            None => {},
        }
    }

    /// The albums that are marked, in the order of the list.
    pub fn selected_albums(&self) -> (r: Vec<Album>)
        ensures
            album_views(r@) == marked(self@.albums, self@.selected_album_ids),
    {
        let mut out: Vec<Album> = Vec::new();
        let n: usize = self.albums.len();
        let ghost all = album_views(self.albums@);
        let ghost ids = text_set(self.selected_album_ids@);
        let mut i: usize = 0;
        proof {
            assert(all.take(0) =~= Seq::<AlbumView>::empty());
            assert(album_views(out@) =~= Seq::<AlbumView>::empty());
        }
        while i < n
            invariant
                n == self.albums@.len(),
                all == album_views(self.albums@),
                ids == text_set(self.selected_album_ids@),
                i <= n,
                album_views(out@) == marked(all.take(i as int), ids),
            decreases n - i,
        {
            proof {
                assert(all.take(i + 1).drop_last() =~= all.take(i as int));
                assert(all.take(i + 1).last() == self.albums@[i as int]@);
            }
            if holds_id(&self.selected_album_ids, self.albums[i].id.as_str()) {
                let ghost before = album_views(out@);
                out.push(self.albums[i].clone());
                proof {
                    assert(album_views(out@) =~= before.push(self.albums@[i as int]@));
                }
            }
            i = i + 1;
        }
        proof {
            assert(all.take(n as int) =~= all);
        }
        out
    }

    pub fn move_artist_selection(&mut self, delta: isize)
        ensures
            final(self)@ == (AppView {
                artist_selected: moved(
                    old(self)@.artist_selected,
                    old(self)@.artist_results.len(),
                    delta as int,
                ),
                ..old(self)@
            }),
    {
        proof {
            assert(artist_views(self.artist_results@).len() == self.artist_results@.len());
        }
        self.artist_selected = update_list_state(self.artist_selected, self.artist_results.len(), delta);
    }

    pub fn move_album_selection(&mut self, delta: isize)
        ensures
            final(self)@ == (AppView {
                album_selected: moved(
                    old(self)@.album_selected,
                    old(self)@.albums.len(),
                    delta as int,
                ),
                ..old(self)@
            }),
    {
        proof {
            assert(album_views(self.albums@).len() == self.albums@.len());
        }
        self.album_selected = update_list_state(self.album_selected, self.albums.len(), delta);
    }

    pub fn move_library_selection(&mut self, delta: isize)
        ensures
            final(self)@ == (AppView {
                library_selected: moved(
                    old(self)@.library_selected,
                    old(self)@.library.len(),
                    delta as int,
                ),
                ..old(self)@
            }),
    {
        proof {
            assert(record_views(self.library@).len() == self.library@.len());
        }
        self.library_selected = update_list_state(self.library_selected, self.library.len(), delta);
    }

    /// Sets the cover art of the first record of the library's list that goes
    /// by the id `mbid`.
    fn show_cover_art(&mut self, mbid: &str, status: CoverArtStatus, path: Option<String>)
        ensures
            final(self)@ == (AppView {
                library: with_status(
                    old(self)@.library,
                    mbid@,
                    status,
                    crate::models::library::text_of(path),
                ),
                ..old(self)@
            }),
    {
        let n: usize = self.library.len();
        let ghost list = record_views(self.library@);
        let mut i: usize = 0;
        while i < n
            invariant
                n == self.library@.len(),
                list == record_views(self.library@),
                *self == *old(self),
                i <= n,
                forall|k: int| 0 <= k < i ==> (#[trigger] list[k]).mbid != mbid@,
            decreases n - i,
        {
            if str_eq(self.library[i].mbid.as_str(), mbid) {
                proof {
                    reveal(with_status);
                    assert(list[i as int].mbid == mbid@);
                    let at = first_place(list, mbid@);
                    assert(at == i) by {
                        if at < i {
                            assert(list[at].mbid != mbid@);
                        }
                    }
                }
                if status == CoverArtStatus::Pending && self.library[i].cover_art_status
                    != CoverArtStatus::Pending {
                    proof {
                        assert(list == with_status(
                            list,
                            mbid@,
                            status,
                            crate::models::library::text_of(path),
                        ));
                    }
                    return ;
                }
                let mut record = self.library[i].clone();
                record.cover_art_status = status;
                record.cover_art_path = path;
                self.library.set(i, record);
                proof {
                    assert(record_views(self.library@) =~= with_status(
                        list,
                        mbid@,
                        status,
                        crate::models::library::text_of(path),
                    ));
                }
                return ;
            }
            i = i + 1;
        }
        proof {
            reveal(with_status);
        }
    }

    /// Adds lines to the log, one after the other.
    pub fn push_logs(&mut self, lines: &Vec<String>)
        ensures
            final(self)@ == (AppView {
                logs: logged_all(old(self)@.logs, views(lines@)),
                ..old(self)@
            }),
    {
        let n: usize = lines.len();
        let ghost texts = views(lines@);
        let mut i: usize = 0;
        proof {
            assert(texts.take(0) =~= Seq::<Seq<char>>::empty());
        }
        while i < n
            invariant
                n == lines@.len(),
                texts == views(lines@),
                i <= n,
                self@ == (AppView {
                    logs: logged_all(old(self)@.logs, texts.take(i as int)),
                    ..old(self)@
                }),
            decreases n - i,
        {
            proof {
                assert(texts.take(i + 1).drop_last() =~= texts.take(i as int));
                assert(texts.take(i + 1).last() == lines@[i as int]@);
            }
            self.push_log(lines[i].clone());
            i = i + 1;
        }
        proof {
            assert(texts.take(n as int) =~= texts);
        }
    }

    /// Takes in a message.
    pub fn handle_message(&mut self, message: AppMessage)
        ensures
            final(self)@ == after_message(old(self)@, message@),
    {
        match message {
            AppMessage::ArtistResults(results) => {
                self.artist_selected = if results.len() == 0 {
                    None
                } else {
                    Some(0)
                };
                proof {
                    assert(artist_views(results@).len() == results@.len());
                }
                self.artist_results = results;
                self.focus = FocusArea::Artists;
                self.push_log(String::from_str("Artist search completed"));
            },
            AppMessage::AlbumsLoaded(albums) => {
                self.album_selected = if albums.len() == 0 {
                    None
                } else {
                    Some(0)
                };
                proof {
                    assert(album_views(albums@).len() == albums@.len());
                }
                self.albums = albums;
                self.selected_album_ids = Vec::new();
                proof {
                    assert(text_set(self.selected_album_ids@) =~= Set::empty());
                }
                self.focus = FocusArea::Albums;
                self.push_log(String::from_str("Albums loaded"));
            },
            AppMessage::SearchFailed(reason) => {
                self.push_log(reason);
            },
            AppMessage::CoverArtStatus { mbid, status, path } => {
                self.show_cover_art(mbid.as_str(), status, path);
            },
            AppMessage::DownloadLog(entry) => {
                self.push_log(entry);
            },
            AppMessage::LibraryRefreshed(records) => {
                proof {
                    assert(record_views(records@).len() == records@.len());
                }
                self.library_selected = update_list_state(self.library_selected, records.len(), 0);
                self.library = records;
            },
            AppMessage::NotesGenerated(lines) => {
                self.push_logs(&lines);
            },
        }
    }
}

} // verus!
