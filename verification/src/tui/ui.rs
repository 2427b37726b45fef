//! The words and the measures of the screen: what each line of a list says,
//! which lines of the log are shown, and where the dialog stands.
use crate::models::album::{secondary_types_label_of, Album, AlbumView};
use crate::models::artist::{display_name_of, Artist, ArtistView};
use crate::models::library::{AlbumRecord, AlbumRecordView, CoverArtStatus};
use crate::text::views;
use crate::tui::state::FocusArea;
use std::collections::VecDeque;
use vstd::prelude::*;
use vstd::string::*;

verus! {

/// The number of log lines that are shown.
pub const VISIBLE_LOG_LINES: usize = 100;

/// The width of the dialog where the screen is wide enough.
pub const DIALOG_WIDTH: u16 = 60;

/// The height of the dialog.
pub const DIALOG_HEIGHT: u16 = 5;

/// The line of an artist in the list of artists.
pub fn artist_line(artist: &Artist) -> (r: String)
    ensures
        r@ == display_name_of(artist@.name, artist@.disambiguation),
{
    artist.display_name()
}

/// The two lines of an album in the list of albums: its mark, title and
/// date, and below them its types.
pub open spec fn album_lines_of(album: AlbumView, selected: bool) -> Seq<Seq<char>> {
    seq![
        (if selected {
            "[x]"@
        } else {
            "[ ]"@
        }) + " "@ + album.title + " ("@ + album.first_release_date + ")"@,
        "   "@ + album.primary_type + " • "@ + secondary_types_label_of(album.secondary_types),
    ]
}

/// Writes the two lines of an album in the list of albums.
pub fn album_lines(album: &Album, selected: bool) -> (r: Vec<String>)
    ensures
        views(r@) == album_lines_of(album@, selected),
{
    let mut first = String::from_str(
        if selected {
            "[x]"
        } else {
            "[ ]"
        },
    );
    first.append(" ");
    first.append(album.title.as_str());
    first.append(" (");
    first.append(album.first_release_date.as_str());
    first.append(")");
    let mut second = String::from_str("   ");
    second.append(album.primary_type.as_str());
    second.append(" • ");
    let label = album.secondary_types_label();
    second.append(label.as_str());
    let mut out: Vec<String> = Vec::new();
    out.push(first);
    out.push(second);
    proof {
        assert(views(out@) =~= album_lines_of(album@, selected));
    }
    out
}

/// The sign of a cover art status.
pub open spec fn cover_art_sign(status: CoverArtStatus) -> Seq<char> {
    match status {
        CoverArtStatus::Completed => "Art: ✔"@,
        CoverArtStatus::Queued => "Art: ⏳"@,
        CoverArtStatus::Pending => "Art: ⏳"@,
        CoverArtStatus::Downloading => "Art: ↓"@,
        CoverArtStatus::Unavailable => "Art: ✖"@,
    }
}

/// The two lines of a record in the list of the library: artist and title,
/// and below them where cover art and note stand.
pub open spec fn library_lines_of(record: AlbumRecordView) -> Seq<Seq<char>> {
    seq![
        record.artist + " — "@ + record.title,
        "   "@ + cover_art_sign(record.cover_art_status) + " • "@ + (if record.note_path is Some {
            "Notes: ✔"@
        } else {
            "Notes: ⏳"@
        }),
    ]
}

/// Writes the two lines of a record in the list of the library.
pub fn library_lines(record: &AlbumRecord) -> (r: Vec<String>)
    ensures
        views(r@) == library_lines_of(record@),
{
    let status = match record.cover_art_status {
        CoverArtStatus::Completed => "Art: ✔",
        CoverArtStatus::Queued => "Art: ⏳",
        CoverArtStatus::Pending => "Art: ⏳",
        CoverArtStatus::Downloading => "Art: ↓",
        CoverArtStatus::Unavailable => "Art: ✖",
    };
    let notes = if record.note_path.is_some() {
        "Notes: ✔"
    } else {
        "Notes: ⏳"
    };
    let mut first = record.artist.clone();
    first.append(" — ");
    first.append(record.title.as_str());
    let mut second = String::from_str("   ");
    second.append(status);
    second.append(" • ");
    second.append(notes);
    let mut out: Vec<String> = Vec::new();
    out.push(first);
    out.push(second);
    proof {
        assert(views(out@) =~= library_lines_of(record@));
    }
    out
}

/// The lines of the log that are shown: the newest first, and no more than
/// fit.
pub open spec fn shown_logs(logs: Seq<Seq<char>>) -> Seq<Seq<char>> {
    let count = if logs.len() < VISIBLE_LOG_LINES {
        logs.len()
    } else {
        VISIBLE_LOG_LINES as nat
    };
    Seq::new(count, |i: int| logs[logs.len() - 1 - i])
}

/// Picks the lines of the log that are shown.
pub fn visible_logs(logs: &VecDeque<String>) -> (r: Vec<String>)
    ensures
        views(r@) == shown_logs(views(logs@)),
{
    let n: usize = logs.len();
    let count: usize = if n < VISIBLE_LOG_LINES {
        n
    } else {
        VISIBLE_LOG_LINES
    };
    let mut out: Vec<String> = Vec::new();
    let mut i: usize = 0;
    while i < count
        invariant
            n == logs@.len(),
            count <= n,
            i <= count,
            out@.len() == i,
            forall|k: int| 0 <= k < i ==> out@[k]@ == logs@[n - 1 - k]@,
        decreases count - i,
    {
        out.push(logs[n - 1 - i].clone());
        i = i + 1;
    }
    proof {
        assert(views(out@) =~= shown_logs(views(logs@)));
    }
    out
}

/// A rectangle of the screen.
#[derive(Debug, Clone, Copy, PartialEq, Eq, Structural)]
pub struct Area {
    pub x: u16,
    pub y: u16,
    pub width: u16,
    pub height: u16,
}

/// Where the dialog stands on a screen of the given size: in the middle, 60
/// columns wide where the screen leaves two columns free on each side of it,
/// else as wide as the screen allows, and 5 rows high.
pub open spec fn dialog_area_of(width: u16, height: u16) -> Area {
    let room: int = if width >= 4 {
        width - 4
    } else {
        0
    };
    let dialog_width: int = if room < DIALOG_WIDTH {
        room
    } else {
        DIALOG_WIDTH as int
    };
    Area {
        x: ((width - dialog_width) / 2) as u16,
        y: (if height >= DIALOG_HEIGHT {
            (height - DIALOG_HEIGHT) / 2
        } else {
            0
        }) as u16,
        width: dialog_width as u16,
        height: DIALOG_HEIGHT,
    }
}

/// Places the dialog on a screen of the given size.
pub fn dialog_area(width: u16, height: u16) -> (r: Area)
    ensures
        r == dialog_area_of(width, height),
{
    let room: u16 = if width >= 4 {
        width - 4
    } else {
        0
    };
    let dialog_width: u16 = if room < DIALOG_WIDTH {
        room
    } else {
        DIALOG_WIDTH
    };
    let x: u16 = (width - dialog_width) / 2;
    let y: u16 = if height >= DIALOG_HEIGHT {
        (height - DIALOG_HEIGHT) / 2
    } else {
        0
    };
    Area { x, y, width: dialog_width, height: DIALOG_HEIGHT }
}

/// Tells whether a part of the screen is drawn with the border of the part
/// that has the focus.
pub fn has_focus_border(current: FocusArea, area: FocusArea) -> (r: bool)
    ensures
        r == (current == area),
{
    current == area
}

} // verus!
