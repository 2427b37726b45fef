//! What the background work tells the one who drives the program.
//!
//! The kinds of message are a closed set. Messages of one sender arrive in
//! the order in which they were sent; nothing is said of the order between
//! senders, and a message is delivered at most once.
use crate::models::album::{album_views, copy_albums, Album, AlbumView};
use crate::models::artist::{artist_views, copy_artists, Artist, ArtistView};
use crate::models::library::{
    copy_records, copy_text, record_views, text_of, AlbumRecord, AlbumRecordView, CoverArtStatus,
};
use crate::text::{copy_strings, views};
use vstd::prelude::*;
use vstd::string::*;

verus! {

#[derive(Debug, PartialEq)]
pub enum AppMessage {
    /// The artists that a search found.
    ArtistResults(Vec<Artist>),
    /// The albums of an artist, in order.
    AlbumsLoaded(Vec<Album>),
    /// A search that gave nothing, with the reason.
    SearchFailed(String),
    /// The cover art of the record `mbid` has reached `status`.
    CoverArtStatus { mbid: String, status: CoverArtStatus, path: Option<String> },
    /// A line for the log.
    DownloadLog(String),
    /// All records of the store, as it lists them.
    LibraryRefreshed(Vec<AlbumRecord>),
    /// The log lines of a run of the note writer.
    NotesGenerated(Vec<String>),
}

/// What an [`AppMessage`] holds, as plain values.
pub enum MessageView {
    ArtistResults(Seq<ArtistView>),
    AlbumsLoaded(Seq<AlbumView>),
    SearchFailed(Seq<char>),
    CoverArtStatus { mbid: Seq<char>, status: CoverArtStatus, path: Option<Seq<char>> },
    DownloadLog(Seq<char>),
    LibraryRefreshed(Seq<AlbumRecordView>),
    NotesGenerated(Seq<Seq<char>>),
}

impl View for AppMessage {
    type V = MessageView;

    open spec fn view(&self) -> MessageView {
        match self {
            AppMessage::ArtistResults(artists) => MessageView::ArtistResults(artist_views(artists@)),
            AppMessage::AlbumsLoaded(albums) => MessageView::AlbumsLoaded(album_views(albums@)),
            AppMessage::SearchFailed(reason) => MessageView::SearchFailed(reason@),
            AppMessage::CoverArtStatus { mbid, status, path } => MessageView::CoverArtStatus {
                mbid: mbid@,
                status: *status,
                path: text_of(*path),
            },
            AppMessage::DownloadLog(line) => MessageView::DownloadLog(line@),
            AppMessage::LibraryRefreshed(records) => MessageView::LibraryRefreshed(
                record_views(records@),
            ),
            AppMessage::NotesGenerated(lines) => MessageView::NotesGenerated(views(lines@)),
        }
    }
}

/// The views of a list of messages.
pub open spec fn message_views(list: Seq<AppMessage>) -> Seq<MessageView> {
    list.map_values(|m: AppMessage| m@)
}

impl Clone for AppMessage {
    fn clone(&self) -> (r: Self)
        ensures
            r@ == self@,
    {
        match self {
            AppMessage::ArtistResults(artists) => AppMessage::ArtistResults(copy_artists(artists)),
            AppMessage::AlbumsLoaded(albums) => AppMessage::AlbumsLoaded(copy_albums(albums)),
            AppMessage::SearchFailed(reason) => AppMessage::SearchFailed(reason.clone()),
            AppMessage::CoverArtStatus { mbid, status, path } => AppMessage::CoverArtStatus {
                mbid: mbid.clone(),
                status: *status,
                path: copy_text(path),
            },
            AppMessage::DownloadLog(line) => AppMessage::DownloadLog(line.clone()),
            AppMessage::LibraryRefreshed(records) => AppMessage::LibraryRefreshed(
                copy_records(records),
            ),
            AppMessage::NotesGenerated(lines) => AppMessage::NotesGenerated(copy_strings(lines)),
        }
    }
}

} // verus!
