//! What a key does: how it changes the screen, and which command it gives.
use crate::models::album::{album_views, Album, AlbumView};
use crate::models::artist::{Artist, ArtistView};
use crate::models::library::{record_views, AlbumRecord, AlbumRecordView, CoverArtStatus};
use crate::text::{trim, trimmed};
use crate::tui::state::{
    focus_after, focus_before, logged, marked, moved, selected_in, toggled, App, AppView,
    FocusArea,
};
use vstd::prelude::*;
use vstd::string::*;

verus! {

/// The keys that mean something to the program.
#[derive(Debug, Clone, Copy, PartialEq, Eq, Structural)]
pub enum KeyCode {
    Char(char),
    Enter,
    Backspace,
    Esc,
    Tab,
    BackTab,
    Up,
    Down,
    /// Any other key.
    Other,
}

/// One press of a key, with the modifiers that were held.
#[derive(Debug, Clone, Copy, PartialEq, Eq, Structural)]
pub struct KeyPress {
    pub code: KeyCode,
    pub control: bool,
    pub alt: bool,
}

/// What the program is asked to do after a key.
#[derive(Debug, PartialEq)]
pub enum Command {
    Nothing,
    /// Search the catalog for artists.
    Search(String),
    /// List the albums of an artist.
    LoadAlbums(Artist),
    /// Add albums to the store.
    AddAlbums(Vec<Album>),
    /// Write the notes of records.
    GenerateNotes(Vec<AlbumRecord>),
    /// Add the album with this id.
    AddByReleaseId(String),
}

/// What a [`Command`] holds, as plain values.
pub enum CommandView {
    Nothing,
    Search(Seq<char>),
    LoadAlbums(ArtistView),
    AddAlbums(Seq<AlbumView>),
    GenerateNotes(Seq<AlbumRecordView>),
    AddByReleaseId(Seq<char>),
}

impl View for Command {
    type V = CommandView;

    open spec fn view(&self) -> CommandView {
        match self {
            Command::Nothing => CommandView::Nothing,
            Command::Search(query) => CommandView::Search(query@),
            Command::LoadAlbums(artist) => CommandView::LoadAlbums(artist@),
            Command::AddAlbums(albums) => CommandView::AddAlbums(album_views(albums@)),
            Command::GenerateNotes(records) => CommandView::GenerateNotes(record_views(records@)),
            Command::AddByReleaseId(id) => CommandView::AddByReleaseId(id@),
        }
    }
}

/// Appends a character to a string: `String::push`, which puts the character
/// behind all others.
#[verifier::external_body]
fn push_char(text: &mut String, ch: char)
    ensures
        final(text)@ == old(text)@.push(ch),
{
    text.push(ch);
}

/// Takes the last character off a string: `String::pop`, which leaves an
/// empty string as it is.
#[verifier::external_body]
fn pop_char(text: &mut String)
    ensures
        final(text)@ == if old(text)@.len() == 0 {
            old(text)@
        } else {
            old(text)@.drop_last()
        },
{
    let _ = text.pop();
}

/// A text after a key was typed into it: a character is added unless
/// control or alt was held, and the backspace key takes the last character
/// away.
pub open spec fn typed(text: Seq<char>, key: KeyPress) -> Seq<char> {
    match key.code {
        KeyCode::Backspace => if text.len() == 0 {
            text
        } else {
            text.drop_last()
        },
        KeyCode::Char(ch) => if !key.alt && !key.control {
            text.push(ch)
        } else {
            text
        },
        _ => text,
    }
}

/// Tells whether a record is ready for the note writer: it has an artist and
/// a title, its cover art is settled, with a path or as `Unavailable`, and it
/// has no note yet.
pub open spec fn is_due_for_note(record: AlbumRecordView) -> bool {
    &&& record.artist.len() > 0
    &&& record.title.len() > 0
    &&& (record.cover_art_path is Some || record.cover_art_status == CoverArtStatus::Unavailable)
    &&& record.note_path is None
}

/// The records of a list whose notes are still to be written: those that are
/// ready for the note writer, in the order of the list.
pub open spec fn awaiting_notes(records: Seq<AlbumRecordView>) -> Seq<AlbumRecordView>
    decreases records.len(),
{
    if records.len() == 0 {
        Seq::empty()
    } else if is_due_for_note(records.last()) {
        awaiting_notes(records.drop_last()).push(records.last())
    } else {
        awaiting_notes(records.drop_last())
    }
}

/// What a key does in the search field.
pub open spec fn after_search_key(app: AppView, key: KeyPress) -> (AppView, CommandView) {
    match key.code {
        KeyCode::Enter => (app, CommandView::Search(app.search_input)),
        _ => (AppView { search_input: typed(app.search_input, key), ..app }, CommandView::Nothing),
    }
}

/// What a key does in the list of artists.
pub open spec fn after_artists_key(app: AppView, key: KeyPress) -> (AppView, CommandView) {
    match key.code {
        KeyCode::Up => (
            AppView {
                artist_selected: moved(app.artist_selected, app.artist_results.len(), -1),
                ..app
            },
            CommandView::Nothing,
        ),
        KeyCode::Down => (
            AppView {
                artist_selected: moved(app.artist_selected, app.artist_results.len(), 1),
                ..app
            },
            CommandView::Nothing,
        ),
        KeyCode::Enter => (
            app,
            match selected_in(app.artist_results, app.artist_selected) {
                Some(artist) => CommandView::LoadAlbums(artist),
                None => CommandView::Nothing,
            },
        ),
        _ => (app, CommandView::Nothing),
    }
}

/// What a key does in the list of albums.
pub open spec fn after_albums_key(app: AppView, key: KeyPress) -> (AppView, CommandView) {
    match key.code {
        KeyCode::Up => (
            AppView { album_selected: moved(app.album_selected, app.albums.len(), -1), ..app },
            CommandView::Nothing,
        ),
        KeyCode::Down => (
            AppView { album_selected: moved(app.album_selected, app.albums.len(), 1), ..app },
            CommandView::Nothing,
        ),
        KeyCode::Char(ch) => if ch == ' ' {
            (
                AppView {
                    selected_album_ids: match selected_in(app.albums, app.album_selected) {
                        Some(album) => toggled(app.selected_album_ids, album.id),
                        None => app.selected_album_ids,
                    },
                    ..app
                },
                CommandView::Nothing,
            )
        } else if ch == 'a' {
            if marked(app.albums, app.selected_album_ids).len() == 0 {
                (
                    AppView { logs: logged(app.logs, "No albums selected"@), ..app },
                    CommandView::Nothing,
                )
            } else {
                (app, CommandView::AddAlbums(marked(app.albums, app.selected_album_ids)))
            }
        } else {
            (app, CommandView::Nothing)
        },
        _ => (app, CommandView::Nothing),
    }
}

/// What a key does in the list of the library.
pub open spec fn after_library_key(app: AppView, key: KeyPress) -> (AppView, CommandView) {
    match key.code {
        KeyCode::Up => (
            AppView { library_selected: moved(app.library_selected, app.library.len(), -1), ..app },
            CommandView::Nothing,
        ),
        KeyCode::Down => (
            AppView { library_selected: moved(app.library_selected, app.library.len(), 1), ..app },
            CommandView::Nothing,
        ),
        KeyCode::Char(ch) => if ch == 'g' {
            if awaiting_notes(app.library).len() == 0 {
                (
                    AppView {
                        logs: logged(
                            app.logs,
                            if app.library.len() > 0 {
                                "All notes already generated (or metadata still loading)"@
                            } else {
                                "No albums in library"@
                            },
                        ),
                        ..app
                    },
                    CommandView::Nothing,
                )
            } else {
                (app, CommandView::GenerateNotes(awaiting_notes(app.library)))
            }
        } else {
            (app, CommandView::Nothing)
        },
        _ => (app, CommandView::Nothing),
    }
}

/// What a key does in the dialog for adding by hand.
pub open spec fn after_manual_add_key(app: AppView, key: KeyPress) -> (AppView, CommandView) {
    match key.code {
        KeyCode::Enter => if trimmed(app.manual_add_input).len() > 0 {
            (
                AppView { manual_add_input: Seq::empty(), focus: FocusArea::Library, ..app },
                CommandView::AddByReleaseId(trimmed(app.manual_add_input)),
            )
        } else {
            (app, CommandView::Nothing)
        },
        _ => (
            AppView { manual_add_input: typed(app.manual_add_input, key), ..app },
            CommandView::Nothing,
        ),
    }
}

/// What a key does where no general meaning of the key applies: it goes to
/// the part of the screen that has the focus.
pub open spec fn after_focused_key(app: AppView, key: KeyPress) -> (AppView, CommandView) {
    match app.focus {
        FocusArea::Search => after_search_key(app, key),
        FocusArea::Artists => after_artists_key(app, key),
        FocusArea::Albums => after_albums_key(app, key),
        FocusArea::Library => after_library_key(app, key),
        FocusArea::Logs => (app, CommandView::Nothing),
        FocusArea::ManualAdd => after_manual_add_key(app, key),
    }
}

/// What the escape key does: it closes the dialog for adding by hand, empties
/// the search field, or clears the marks of the albums, by the focus.
pub open spec fn after_escape(app: AppView) -> AppView {
    match app.focus {
        FocusArea::ManualAdd => AppView {
            focus: FocusArea::Library,
            manual_add_input: Seq::empty(),
            ..app
        },
        FocusArea::Search => AppView { search_input: Seq::empty(), ..app },
        FocusArea::Albums => AppView { selected_album_ids: Set::empty(), ..app },
        _ => app,
    }
}

/// The screen and the command after a key.
///
/// `q` ends the program, except in the dialog for adding by hand; so does `c`
/// with control, everywhere. `m` with control opens the dialog. Tab and back
/// tab move the focus, except in the dialog. Every other key goes to the part
/// of the screen that has the focus.
pub open spec fn after_key(app: AppView, key: KeyPress) -> (AppView, CommandView) {
    let in_dialog = app.focus == FocusArea::ManualAdd;
    match key.code {
        KeyCode::Char(ch) => if ch == 'q' && !in_dialog {
            (AppView { should_quit: true, ..app }, CommandView::Nothing)
        } else if ch == 'c' && key.control {
            (AppView { should_quit: true, ..app }, CommandView::Nothing)
        } else if ch == 'm' && key.control && !in_dialog {
            (
                AppView { focus: FocusArea::ManualAdd, manual_add_input: Seq::empty(), ..app },
                CommandView::Nothing,
            )
        } else {
            after_focused_key(app, key)
        },
        KeyCode::Esc => (after_escape(app), CommandView::Nothing),
        KeyCode::Tab => if !in_dialog {
            (AppView { focus: focus_after(app.focus), ..app }, CommandView::Nothing)
        } else {
            after_focused_key(app, key)
        },
        KeyCode::BackTab => if !in_dialog {
            (AppView { focus: focus_before(app.focus), ..app }, CommandView::Nothing)
        } else {
            after_focused_key(app, key)
        },
        _ => after_focused_key(app, key),
    }
}

/// Types a key into a text.
fn type_into(text: &mut String, key: KeyPress)
    ensures
        final(text)@ == typed(old(text)@, key),
{
    match key.code {
        KeyCode::Backspace => {
            pop_char(text);
        },
        KeyCode::Char(ch) => {
            if !key.alt && !key.control {
                push_char(text, ch);
            }
        },
        _ => {},
    }
}

/// The records of a list whose notes are still to be written.
pub fn records_awaiting_notes(records: &Vec<AlbumRecord>) -> (r: Vec<AlbumRecord>)
    ensures
        record_views(r@) == awaiting_notes(record_views(records@)),
{
    let mut out: Vec<AlbumRecord> = Vec::new();
    let n: usize = records.len();
    let ghost all = record_views(records@);
    let mut i: usize = 0;
    proof {
        assert(all.take(0) =~= Seq::<AlbumRecordView>::empty());
        assert(record_views(out@) =~= Seq::<AlbumRecordView>::empty());
    }
    while i < n
        invariant
            n == records@.len(),
            all == record_views(records@),
            i <= n,
            record_views(out@) == awaiting_notes(all.take(i as int)),
        decreases n - i,
    {
        proof {
            assert(all.take(i + 1).drop_last() =~= all.take(i as int));
            assert(all.take(i + 1).last() == records@[i as int]@);
        }
        let record = &records[i];
        if !record.artist.as_str().is_empty() && !record.title.as_str().is_empty() && (
        record.cover_art_path.is_some() || record.cover_art_status == CoverArtStatus::Unavailable)
            && record.note_path.is_none() {
            let ghost before = record_views(out@);
            out.push(records[i].clone());
            proof {
                assert(record_views(out@) =~= before.push(records@[i as int]@));
            }
        }
        i = i + 1;
    }
    proof {
        assert(all.take(n as int) =~= all);
    }
    out
}

fn handle_search_keys(app: &mut App, key: KeyPress) -> (r: Command)
    ensures
        (final(app)@, r@) == after_search_key(old(app)@, key),
{
    match key.code {
        KeyCode::Enter => Command::Search(app.search_input.clone()),
        _ => {
            type_into(&mut app.search_input, key);
            Command::Nothing
        },
    }
}

fn handle_artists_keys(app: &mut App, key: KeyPress) -> (r: Command)
    ensures
        (final(app)@, r@) == after_artists_key(old(app)@, key),
{
    match key.code {
        KeyCode::Up => {
            app.move_artist_selection(-1);
            Command::Nothing
        },
        KeyCode::Down => {
            app.move_artist_selection(1);
            Command::Nothing
        },
        KeyCode::Enter => {
            match app.selected_artist() {
                Some(artist) => Command::LoadAlbums(artist),
                None => Command::Nothing,
            }
        },
        _ => Command::Nothing,
    }
}

fn handle_albums_keys(app: &mut App, key: KeyPress) -> (r: Command)
    ensures
        (final(app)@, r@) == after_albums_key(old(app)@, key),
{
    match key.code {
        KeyCode::Up => {
            app.move_album_selection(-1);
            Command::Nothing
        },
        KeyCode::Down => {
            app.move_album_selection(1);
            Command::Nothing
        },
        KeyCode::Char(ch) => {
            if ch == ' ' {
                app.toggle_album_selection();
                Command::Nothing
            } else if ch == 'a' {
                let albums = app.selected_albums();
                proof {
                    assert(album_views(albums@).len() == albums@.len());
                }
                if albums.len() == 0 {
                    app.push_log(String::from_str("No albums selected"));
                    Command::Nothing
                } else {
                    Command::AddAlbums(albums)
                }
            } else {
                Command::Nothing
            }
        },
        _ => Command::Nothing,
    }
}

fn handle_library_keys(app: &mut App, key: KeyPress) -> (r: Command)
    ensures
        (final(app)@, r@) == after_library_key(old(app)@, key),
{
    match key.code {
        KeyCode::Up => {
            app.move_library_selection(-1);
            Command::Nothing
        },
        KeyCode::Down => {
            app.move_library_selection(1);
            Command::Nothing
        },
        KeyCode::Char(ch) => {
            if ch == 'g' {
                let pending = records_awaiting_notes(&app.library);
                proof {
                    assert(record_views(pending@).len() == pending@.len());
                    assert(record_views(app.library@).len() == app.library@.len());
                }
                if pending.len() == 0 {
                    if app.library.len() != 0 {
                        app.push_log(
                            String::from_str(
                                "All notes already generated (or metadata still loading)",
                            ),
                        );
                    } else {
                        app.push_log(String::from_str("No albums in library"));
                    }
                    Command::Nothing
                } else {
                    Command::GenerateNotes(pending)
                }
            } else {
                Command::Nothing
            }
        },
        _ => Command::Nothing,
    }
}

fn handle_manual_add_keys(app: &mut App, key: KeyPress) -> (r: Command)
    ensures
        (final(app)@, r@) == after_manual_add_key(old(app)@, key),
{
    match key.code {
        KeyCode::Enter => {
            let release_id = trim(app.manual_add_input.as_str());
            if !release_id.as_str().is_empty() {
                app.manual_add_input = String::new();
                app.focus = FocusArea::Library;
                Command::AddByReleaseId(release_id)
            } else {
                Command::Nothing
            }
        },
        _ => {
            type_into(&mut app.manual_add_input, key);
            Command::Nothing
        },
    }
}

fn handle_focused_key(app: &mut App, key: KeyPress) -> (r: Command)
    ensures
        (final(app)@, r@) == after_focused_key(old(app)@, key),
{
    match app.focus {
        FocusArea::Search => handle_search_keys(app, key),
        FocusArea::Artists => handle_artists_keys(app, key),
        FocusArea::Albums => handle_albums_keys(app, key),
        FocusArea::Library => handle_library_keys(app, key),
        FocusArea::Logs => Command::Nothing,
        FocusArea::ManualAdd => handle_manual_add_keys(app, key),
    }
}

/// Takes in a key: changes the screen and tells what the program is asked to
/// do.
pub fn handle_key_event(app: &mut App, key: KeyPress) -> (r: Command)
    ensures
        (final(app)@, r@) == after_key(old(app)@, key),
{
    let in_dialog = match app.focus {
        FocusArea::ManualAdd => true,
        _ => false,
    };
    match key.code {
        KeyCode::Char(ch) => {
            if ch == 'q' && !in_dialog {
                app.should_quit = true;
                Command::Nothing
            } else if ch == 'c' && key.control {
                app.should_quit = true;
                Command::Nothing
            } else if ch == 'm' && key.control && !in_dialog {
                app.focus = FocusArea::ManualAdd;
                app.manual_add_input = String::new();
                Command::Nothing
            } else {
                handle_focused_key(app, key)
            }
        },
        KeyCode::Esc => {
            match app.focus {
                FocusArea::ManualAdd => {
                    app.focus = FocusArea::Library;
                    app.manual_add_input = String::new();
                },
                FocusArea::Search => {
                    app.search_input = String::new();
                },
                FocusArea::Albums => {
                    app.selected_album_ids = Vec::new();
                    proof {
                        assert(crate::tui::state::text_set(app.selected_album_ids@) =~= Set::empty());
                    }
                },
                _ => {},
            }
            Command::Nothing
        },
        KeyCode::Tab => {
            if !in_dialog {
                app.next_focus();
                Command::Nothing
            } else {
                handle_focused_key(app, key)
            }
        },
        KeyCode::BackTab => {
            if !in_dialog {
                app.previous_focus();
                Command::Nothing
            } else {
                handle_focused_key(app, key)
            }
        },
        _ => handle_focused_key(app, key),
    }
}

} // verus!
