//! Notes: one text file for each stored album, made from a template.
//!
//! This module decides which albums get a note, where the note goes and what
//! it says. Looking for the file and writing it is left to the caller.
use crate::config::{child_path, child_path_of};
use crate::models::album::secondary_types_label_of;
use crate::models::library::{
    note_filename_of, track_lines, AlbumRecord, AlbumRecordView,
};
use crate::text::{join, joined, replace, replaced, views};
use vstd::prelude::*;
use vstd::string::*;

verus! {

/// The text of a note: the template with each placeholder replaced by the
/// album's value, one placeholder after the other.
pub open spec fn rendered(
    template: Seq<char>,
    album: AlbumRecordView,
    cover_art_path: Seq<char>,
) -> Seq<char> {
    let body = replaced(template, "{title}"@, album.title);
    let body = replaced(body, "{artist}"@, album.artist);
    let body = replaced(body, "{release_date}"@, album.release_date);
    let body = replaced(body, "{musicbrainz_id}"@, album.mbid);
    let body = replaced(body, "{primary_type}"@, album.primary_type);
    let body = replaced(
        body,
        "{secondary_types}"@,
        secondary_types_label_of(album.secondary_types),
    );
    let body = replaced(body, "{cover_art_relative_path}"@, cover_art_path);
    replaced(body, "{track_listing}"@, track_listing_of(album))
}

/// The track listing of a note: the lines of the track list, or one line that
/// says that there are none.
pub open spec fn track_listing_of(album: AlbumRecordView) -> Seq<char> {
    if album.tracklist.len() == 0 {
        "- Track details unavailable"@
    } else {
        joined(track_lines(album.tracklist), "\n"@)
    }
}

/// Fills the template of a note with the values of an album.
pub fn render_template(template: &str, album: &AlbumRecord, cover_art_path: String) -> (r: String)
    ensures
        r@ == rendered(template@, album@, cover_art_path@),
{
    let body = replace(template, "{title}", album.title.as_str());
    let body = replace(body.as_str(), "{artist}", album.artist.as_str());
    let body = replace(body.as_str(), "{release_date}", album.release_date.as_str());
    let body = replace(body.as_str(), "{musicbrainz_id}", album.mbid.as_str());
    let body = replace(body.as_str(), "{primary_type}", album.primary_type.as_str());
    let label = album.secondary_types_label();
    let body = replace(body.as_str(), "{secondary_types}", label.as_str());
    let body = replace(body.as_str(), "{cover_art_relative_path}", cover_art_path.as_str());
    let track_listing = if album.tracklist.len() == 0 {
        String::from_str("- Track details unavailable")
    } else {
        let lines = album.as_track_listing_lines();
        join(&lines, "\n")
    };
    proof {
        assert(crate::models::album::track_views(album.tracklist@).len() == album.tracklist@.len());
    }
    replace(body.as_str(), "{track_listing}", track_listing.as_str())
}

/// The characters that no file name keeps: the slash and the backslash, the
/// signs `?`, `<`, `>`, `:`, `*`, `|` and `"`, and the control characters.
pub open spec fn is_stripped(c: char) -> bool {
    let code = c as u32;
    ||| code <= 0x1f
    ||| 0x80 <= code <= 0x9f
    ||| c == '/'
    ||| c == '\\'
    ||| c == '?'
    ||| c == '<'
    ||| c == '>'
    ||| c == ':'
    ||| c == '*'
    ||| c == '|'
    ||| c == '"'
}

/// Tells whether a text can be the name of a file: it keeps none of the
/// characters that are taken out of file names, and has 255 bytes at most.
pub open spec fn is_file_name(name: Seq<char>) -> bool {
    &&& crate::text::utf8(name).len() <= 255
    &&& forall|i: int| 0 <= i < name.len() ==> !is_stripped(#[trigger] name[i])
}

/// Tells whether `part` is `whole` with some of its characters taken out:
/// the characters of `part` stand in `whole`, in the same order.
pub open spec fn is_remainder_of(part: Seq<char>, whole: Seq<char>) -> bool
    decreases whole.len(),
{
    if part.len() == 0 {
        true
    } else if whole.len() == 0 {
        false
    } else if part.last() == whole.last() {
        is_remainder_of(part.drop_last(), whole.drop_last())
    } else {
        is_remainder_of(part, whole.drop_last())
    }
}

/// Calls `sanitize_filename::sanitize(name)`. What else is taken out of a
/// name depends on the system that the program was built for, so the result
/// has no name. On every system the crate only takes characters out and puts
/// nothing in; it takes out the characters of [`is_stripped`], and cuts the
/// name to 255 bytes at most.
#[verifier::external_body]
fn sanitize(name: &str) -> (r: String)
    ensures
        is_file_name(r@),
        is_remainder_of(r@, name@),
{
    sanitize_filename::sanitize(name)
}

/// Calls `pathdiff::diff_paths(path, base)` and writes the path that comes
/// back out as text. How a path falls into parts depends on the system that
/// the program was built for, so nothing is claimed of the result.
#[verifier::external_body]
fn diff_paths(path: &str, base: &str) -> (r: Option<String>) {
    match pathdiff::diff_paths(path, base) {
        Some(relative) => Some(relative.to_string_lossy().into_owned()),
        None => None,
    }
}

/// Tells whether a record has the metadata that a note needs: an artist and
/// a title.
pub open spec fn has_metadata(album: AlbumRecordView) -> bool {
    album.artist.len() > 0 && album.title.len() > 0
}

/// The line for the log about an album without metadata: it goes by its
/// title, or by its id where it has no title.
pub open spec fn no_metadata_line(album: AlbumRecordView) -> Seq<char> {
    "Skipped "@ + (if album.title.len() == 0 {
        album.mbid
    } else {
        album.title
    }) + " - metadata not yet loaded"@
}

/// Checks that a record has the metadata that a note needs: `None` where it
/// has, else the line for the log that says why the album is passed over.
pub fn check_metadata(album: &AlbumRecord) -> (r: Option<String>)
    ensures
        has_metadata(album@) <==> r is None,
        r matches Some(line) ==> line@ == no_metadata_line(album@),
{
    if album.artist.as_str().is_empty() || album.title.as_str().is_empty() {
        let mut line = String::from_str("Skipped ");
        if album.title.as_str().is_empty() {
            line.append(album.mbid.as_str());
        } else {
            line.append(album.title.as_str());
        }
        line.append(" - metadata not yet loaded");
        Some(line)
    } else {
        None
    }
}

/// The path of the note of an album whose file name is `name`.
pub fn note_path_for(notes_dir: &str, name: &str) -> (r: String)
    ensures
        r@ == child_path_of(notes_dir@, name@),
{
    child_path(notes_dir, name)
}

/// The path of an album's note: a file in the directory of notes, named after
/// artist and title as far as the file system takes the name. Whatever the
/// name becomes, it is what is left of artist and title when characters are
/// taken out, and it is the name of a file: it holds no slash, so that the
/// note lies in the directory of notes itself.
pub fn note_path(album: &AlbumRecord, notes_dir: &str) -> (r: String)
    ensures
        exists|name: Seq<char>|
            r@ == child_path_of(notes_dir@, name) && is_file_name(name) && is_remainder_of(
                name,
                note_filename_of(album@.artist, album@.title),
            ),
{
    let wanted = album.note_filename();
    let name = sanitize(wanted.as_str());
    note_path_for(notes_dir, name.as_str())
}

/// What is done about the note of one album.
#[derive(Debug, PartialEq)]
pub enum NoteStep {
    /// No note is written: the line says why.
    Skip(String),
    /// The note is written to `path` with the text `body`; after that the
    /// store is told and the line goes to the log.
    Write { path: String, body: String, log: String },
}

/// What a [`NoteStep`] holds, as plain values.
pub enum NoteStepView {
    Skip(Seq<char>),
    Write { path: Seq<char>, body: Seq<char>, log: Seq<char> },
}

impl View for NoteStep {
    type V = NoteStepView;

    open spec fn view(&self) -> NoteStepView {
        match self {
            NoteStep::Skip(line) => NoteStepView::Skip(line@),
            NoteStep::Write { path, body, log } => NoteStepView::Write {
                path: path@,
                body: body@,
                log: log@,
            },
        }
    }
}

/// The path of the cover art as the note names it: without carriage returns,
/// and with a slash for every line feed.
pub open spec fn cover_art_link(relative: Seq<char>) -> Seq<char> {
    replaced(replaced(relative, "\r"@, ""@), "\n"@, "/"@)
}

/// What is done about the note of one album, where `path` is the path of the
/// note, `exists` tells whether a file stands there, and `relative` is the
/// way from the directory of notes to the cover art. An album without
/// metadata is passed over, and so is one whose note exists and one whose
/// cover art is not settled yet; for every other album the note is written.
pub open spec fn note_step(
    template: Seq<char>,
    album: AlbumRecordView,
    path: Seq<char>,
    exists: bool,
    relative: Seq<char>,
) -> NoteStepView {
    if !has_metadata(album) {
        NoteStepView::Skip(no_metadata_line(album))
    } else if exists {
        NoteStepView::Skip("Skipped existing note for "@ + album.artist + " - "@ + album.title)
    } else if album.cover_art_path is None {
        NoteStepView::Skip(
            "Skipped "@ + album.artist + " - "@ + album.title + " (waiting for cover art)"@,
        )
    } else {
        NoteStepView::Write {
            path,
            body: rendered(template, album, cover_art_link(relative)),
            log: "Generated note: "@ + path,
        }
    }
}

/// Decides what is done about the note of one album, given the way from the
/// directory of notes to the cover art.
pub fn plan_note_with(
    template: &str,
    album: &AlbumRecord,
    path: &str,
    exists: bool,
    relative: &str,
) -> (r: NoteStep)
    ensures
        r@ == note_step(template@, album@, path@, exists, relative@),
{
    match check_metadata(album) {
        Some(line) => {
            return NoteStep::Skip(line);
        },
        None => {},
    }
    if exists {
        let mut line = String::from_str("Skipped existing note for ");
        line.append(album.artist.as_str());
        line.append(" - ");
        line.append(album.title.as_str());
        return NoteStep::Skip(line);
    }
    if album.cover_art_path.is_none() {
        let mut line = String::from_str("Skipped ");
        line.append(album.artist.as_str());
        line.append(" - ");
        line.append(album.title.as_str());
        line.append(" (waiting for cover art)");
        return NoteStep::Skip(line);
    }
    let link = replace(relative, "\r", "");
    let link = replace(link.as_str(), "\n", "/");
    let body = render_template(template, album, link);
    let mut log = String::from_str("Generated note: ");
    log.append(path);
    NoteStep::Write { path: String::from_str(path), body, log }
}

/// Decides what is done about the note of one album. The way to the cover
/// art is worked out from the two paths; whatever it comes to, the step is
/// the one that [`plan_note_with`] takes for it.
pub fn plan_note(
    template: &str,
    album: &AlbumRecord,
    notes_dir: &str,
    path: &str,
    exists: bool,
) -> (r: NoteStep)
    ensures
        exists|relative: Seq<char>| r@ == note_step(template@, album@, path@, exists, relative),
{
    let relative = match &album.cover_art_path {
        Some(art_path) => {
            match diff_paths(art_path.as_str(), notes_dir) {
                Some(way) => way,
                None => art_path.clone(),
            }
        },
        None => String::new(),
    };
    let step = plan_note_with(template, album, path, exists, relative.as_str());
    proof {
        assert(step@ == note_step(template@, album@, path@, exists, relative@));
    }
    step
}

} // verus!
