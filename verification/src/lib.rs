//! The core of a music library manager: it plans the requests to a remote
//! catalog and reads the answers, chooses the canonical release of a release
//! group, paces the requests to each host, keeps the table of stored albums,
//! and decides what the cover art worker, the note writer and the screen do.
//!
//! The library sends nothing and keeps no files. Whoever uses it sends the
//! requests, writes the files, and hands the library what came of it.
pub mod api;
mod clock;
pub mod config;
pub mod dates;
pub mod library;
pub mod limiter;
pub mod messages;
pub mod models;
pub mod notes;
pub mod sorting;
pub mod tasks;
pub mod text;
pub mod tui;
