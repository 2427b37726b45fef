//! The rules of the cover art worker.
//!
//! One worker takes the jobs in the order in which they were queued. For each
//! job it tells that the job is queued, waits for its turn at the archive,
//! and asks for the cover. A cover that came is saved under a path made from
//! the record's id, the store is told, and after that the listeners. A cover
//! that did not come, for whatever reason, makes the record `Unavailable`; the
//! download is not tried again until somebody queues the record anew.
use crate::api::musicbrainz::is_success_status;
use crate::api::request::pair_views;
use crate::config::{child_path, child_path_of, AppConfig};
use crate::library::{changed, cover_art_change, LibraryStore};
use crate::messages::{message_views, AppMessage, MessageView};
use crate::models::library::{
    cover_art_filename_of, text_of, AlbumRecord, AlbumRecordView, CoverArtStatus,
};
use crate::text::{decimal, render_decimal};
use vstd::prelude::*;
use vstd::string::*;

verus! {

/// The headers that go with every request to the cover art archive.
pub fn cover_art_headers(config: &AppConfig) -> (r: Vec<(String, String)>)
    ensures
        pair_views(r@) == seq![
            ("User-Agent"@, config@.user_agent),
            ("X-Client-Id"@, config@.client_id),
            ("Accept"@, "image/jpeg, image/png, application/json"@),
        ],
{
    let mut out: Vec<(String, String)> = Vec::new();
    out.push((String::from_str("User-Agent"), String::from_str(config.user_agent())));
    out.push((String::from_str("X-Client-Id"), String::from_str(config.client_id())));
    out.push(
        (String::from_str("Accept"), String::from_str("image/jpeg, image/png, application/json")),
    );
    proof {
        assert(pair_views(out@) =~= seq![
            ("User-Agent"@, config@.user_agent),
            ("X-Client-Id"@, config@.client_id),
            ("Accept"@, "image/jpeg, image/png, application/json"@),
        ]);
    }
    out
}

/// How the request for one cover ended.
pub enum CoverArtFetch {
    /// No answer came: the reason is the transport's.
    Transport(String),
    /// The archive answered with this status.
    Answer { status: u16 },
}

/// What the worker does with the answer of the archive.
#[derive(Debug, PartialEq)]
pub enum DownloadPlan {
    /// The cover came: save it at `path`.
    Save { path: String },
    /// No cover came.
    GiveUp { reason: String },
}

/// What a [`DownloadPlan`] holds, as plain values.
pub enum DownloadPlanView {
    Save { path: Seq<char> },
    GiveUp { reason: Seq<char> },
}

impl View for DownloadPlan {
    type V = DownloadPlanView;

    open spec fn view(&self) -> DownloadPlanView {
        match self {
            DownloadPlan::Save { path } => DownloadPlanView::Save { path: path@ },
            DownloadPlan::GiveUp { reason } => DownloadPlanView::GiveUp { reason: reason@ },
        }
    }
}

/// The message that tells that a job was taken from the queue.
pub open spec fn queued_message(mbid: Seq<char>) -> MessageView {
    MessageView::CoverArtStatus { mbid, status: CoverArtStatus::Queued, path: None }
}

/// The path under which the cover of a record is saved.
pub open spec fn cover_art_target(album_art_dir: Seq<char>, mbid: Seq<char>) -> Seq<char> {
    child_path_of(album_art_dir, cover_art_filename_of(mbid))
}

/// What follows the archive's answer: a successful status means that the
/// cover is saved under the record's path; every other status, and a request
/// without an answer, means that there is no cover.
pub open spec fn download_plan(
    mbid: Seq<char>,
    album_art_dir: Seq<char>,
    fetch: CoverArtFetch,
) -> DownloadPlanView {
    match fetch {
        CoverArtFetch::Transport(reason) => DownloadPlanView::GiveUp {
            reason: "failed to request cover art: "@ + reason@,
        },
        CoverArtFetch::Answer { status } => if is_success_status(status) {
            DownloadPlanView::Save { path: cover_art_target(album_art_dir, mbid) }
        } else {
            DownloadPlanView::GiveUp {
                reason: "cover art returned status "@ + decimal(status as nat),
            }
        },
    }
}

/// What the worker tells after a job: after a cover was saved, that the cover
/// art is `Completed`, with the path; after a failure, a line for the log and
/// that the cover art is `Unavailable`, without a path.
pub open spec fn finish_messages(mbid: Seq<char>, result: Result<Seq<char>, Seq<char>>) -> Seq<
    MessageView,
> {
    match result {
        Ok(path) => seq![
            MessageView::CoverArtStatus {
                mbid,
                status: CoverArtStatus::Completed,
                path: Some(path),
            },
        ],
        Err(reason) => seq![
            MessageView::DownloadLog("Cover art unavailable for "@ + mbid + ": "@ + reason),
            MessageView::CoverArtStatus { mbid, status: CoverArtStatus::Unavailable, path: None },
        ],
    }
}

/// The change that the end of a job makes to the record.
pub open spec fn finish_change(result: Result<Seq<char>, Seq<char>>, now: Seq<char>) -> spec_fn(
    AlbumRecordView,
) -> AlbumRecordView {
    match result {
        Ok(path) => cover_art_change(Some(path), CoverArtStatus::Completed, now),
        Err(_) => cover_art_change(None, CoverArtStatus::Unavailable, now),
    }
}

/// The end of a job settles the cover art for good: whatever the record held
/// before, it is `Completed` with the path of the saved cover, or
/// `Unavailable` without a path, and never again `Pending` or `Queued`.
pub proof fn lemma_finish_settles(
    record: AlbumRecordView,
    result: Result<Seq<char>, Seq<char>>,
    now: Seq<char>,
)
    ensures
        ({
            let after = finish_change(result, now)(record);
            &&& result is Ok ==> after.cover_art_status == CoverArtStatus::Completed
                && after.cover_art_path == Some(result->Ok_0)
            &&& result is Err ==> after.cover_art_status == CoverArtStatus::Unavailable
                && after.cover_art_path is None
            &&& after.mbid == record.mbid
            &&& after.note_status == record.note_status
        }),
{
}

/// The views of the two sides of a job's result.
pub open spec fn result_view(result: Result<String, String>) -> Result<Seq<char>, Seq<char>> {
    match result {
        Ok(path) => Ok(path@),
        Err(reason) => Err(reason@),
    }
}

/// The message that the worker sends when it takes a job from the queue.
pub fn job_started(record: &AlbumRecord) -> (r: AppMessage)
    ensures
        r@ == queued_message(record@.mbid),
{
    AppMessage::CoverArtStatus {
        mbid: record.mbid.clone(),
        status: CoverArtStatus::Queued,
        path: None,
    }
}

/// Decides what to do with the archive's answer to the request for a
/// record's cover.
pub fn plan_download(
    record: &AlbumRecord,
    album_art_dir: &str,
    fetch: CoverArtFetch,
) -> (r: DownloadPlan)
    ensures
        r@ == download_plan(record@.mbid, album_art_dir@, fetch),
{
    match fetch {
        CoverArtFetch::Transport(reason) => {
            let mut text = String::from_str("failed to request cover art: ");
            text.append(reason.as_str());
            DownloadPlan::GiveUp { reason: text }
        },
        CoverArtFetch::Answer { status } => {
            if 200 <= status && status <= 299 {
                let name = record.cover_art_filename();
                DownloadPlan::Save { path: child_path(album_art_dir, name.as_str()) }
            } else {
                let mut text = String::from_str("cover art returned status ");
                let digits = render_decimal(status as u64);
                text.append(digits.as_str());
                DownloadPlan::GiveUp { reason: text }
            }
        },
    }
}

/// What the worker tells after a job whose change could perhaps not be kept,
/// where `store_failure` is the reason why it could not. A cover that was
/// saved is told of all the same, behind a line for the log; after a download
/// that failed the failure of the store is passed over.
pub open spec fn job_messages_of(
    mbid: Seq<char>,
    result: Result<Seq<char>, Seq<char>>,
    store_failure: Option<Seq<char>>,
) -> Seq<MessageView> {
    if result is Ok && store_failure is Some {
        seq![
            MessageView::DownloadLog(
                "Failed to update library for "@ + mbid + ": "@ + store_failure->0,
            ),
        ] + finish_messages(mbid, result)
    } else {
        finish_messages(mbid, result)
    }
}

/// The line for the log when the store could not be told of a saved cover.
pub fn store_failure_line(mbid: &str, reason: &str) -> (r: String)
    ensures
        r@ == "Failed to update library for "@ + mbid@ + ": "@ + reason@,
{
    let mut line = String::from_str("Failed to update library for ");
    line.append(mbid);
    line.append(": ");
    line.append(reason);
    line
}

/// Writes the messages that the worker sends after a job, in their order.
pub fn job_messages(
    mbid: &str,
    result: &Result<String, String>,
    store_failure: &Option<String>,
) -> (r: Vec<AppMessage>)
    ensures
        message_views(r@) == job_messages_of(
            mbid@,
            result_view(*result),
            crate::models::library::text_of(*store_failure),
        ),
{
    let mut out: Vec<AppMessage> = Vec::new();
    match result {
        Ok(path) => {
            match store_failure {
                Some(reason) => {
                    out.push(AppMessage::DownloadLog(store_failure_line(mbid, reason.as_str())));
                },
                None => {},
            }
            out.push(
                AppMessage::CoverArtStatus {
                    mbid: String::from_str(mbid),
                    status: CoverArtStatus::Completed,
                    path: Some(path.clone()),
                },
            );
        },
        Err(reason) => {
            let mut line = String::from_str("Cover art unavailable for ");
            line.append(mbid);
            line.append(": ");
            line.append(reason.as_str());
            out.push(AppMessage::DownloadLog(line));
            out.push(
                AppMessage::CoverArtStatus {
                    mbid: String::from_str(mbid),
                    status: CoverArtStatus::Unavailable,
                    path: None,
                },
            );
        },
    }
    proof {
        assert(message_views(out@) =~= job_messages_of(
            mbid@,
            result_view(*result),
            crate::models::library::text_of(*store_failure),
        ));
    }
    out
}

/// Ends a job at the moment `now`: `result` is the path under which the
/// cover was saved, or the reason why there is none. The store is changed
/// first; the messages that come back are then sent in their order.
pub fn finish_job(
    store: &mut LibraryStore,
    mbid: &str,
    result: Result<String, String>,
    now: &str,
) -> (r: Vec<AppMessage>)
    ensures
        final(store)@ == changed(old(store)@, mbid@, finish_change(result_view(result), now@)),
        message_views(r@) == finish_messages(mbid@, result_view(result)),
{
    match &result {
        Ok(path) => {
            store.set_cover_art_path_at(mbid, Some(path.clone()), CoverArtStatus::Completed, now);
        },
        Err(_) => {
            store.set_cover_art_path_at(mbid, None, CoverArtStatus::Unavailable, now);
        },
    }
    job_messages(mbid, &result, &None)
}

} // verus!
