//! The upload queue: a first-in, first-out scheduler of upload and backup
//! tasks, written as a state machine.
//!
//! The queue never talks to the store. Each step takes what the store
//! answered to the previous action and returns the next action to perform,
//! until it returns `StoreAction::Done`. Whoever drives the queue performs the
//! actions, one at a time.
//!
//! A conflict with `autorename` off ends the run at once. The backup of the
//! remote version has been scheduled by then and is left in the queue: it is
//! never uploaded.

use crate::dropbox::client::{
    FetchFailure, FetchFailureView, FileMetadata, FileMetadataView,
};
use crate::dropbox::operations::{
    backup_name, backup_path, detect, detect_conflict, fetched_view, ConflictResult,
    ConflictResultView, UploadOptions,
};
use crate::time::unix_now;
use std::collections::VecDeque;
use vstd::prelude::*;

verus! {

/// How the store treats an object that already lives at the destination.
#[derive(Debug, Clone, Copy, PartialEq, Eq, Structural)]
pub enum WriteMode {
    /// Replace it.
    Overwrite,
    /// Keep it: the upload fails, or is stored under another name when
    /// `autorename` is set.
    Add,
}

/// A unit of work for the queue.
#[derive(Debug)]
pub enum UploadTask {
    /// Upload `content` to `path`, looking out for a conflict first where the
    /// options ask for it.
    Upload { path: String, content: Vec<u8>, options: UploadOptions },
    /// Store `content`, the remote version of `original_path`, at
    /// `backup_path`. A backup never causes further checks or backups.
    Backup { original_path: String, backup_path: String, content: Vec<u8> },
}

impl Clone for UploadTask {
    fn clone(&self) -> (copy: Self)
        ensures
            copy@ == self@,
    {
        match self {
            UploadTask::Upload { path, content, options } => UploadTask::Upload {
                path: path.clone(),
                content: content.clone(),
                options: *options,
            },
            UploadTask::Backup { original_path, backup_path, content } => UploadTask::Backup {
                original_path: original_path.clone(),
                backup_path: backup_path.clone(),
                content: content.clone(),
            },
        }
    }
}

/// What an `UploadTask` holds, as mathematical values.
pub enum UploadTaskView {
    Upload { path: Seq<char>, content: Seq<u8>, options: UploadOptions },
    Backup { original_path: Seq<char>, backup_path: Seq<char>, content: Seq<u8> },
}

impl View for UploadTask {
    type V = UploadTaskView;

    open spec fn view(&self) -> UploadTaskView {
        match *self {
            UploadTask::Upload { path, content, options } => UploadTaskView::Upload {
                path: path@,
                content: content@,
                options,
            },
            UploadTask::Backup { original_path, backup_path, content } => UploadTaskView::Backup {
                original_path: original_path@,
                backup_path: backup_path@,
                content: content@,
            },
        }
    }
}

/// One upload call on the store.
#[derive(Debug)]
pub struct UploadRequest {
    pub path: String,
    pub content: Vec<u8>,
    pub mode: WriteMode,
    pub autorename: bool,
    pub mute: bool,
    /// For a backup, the path whose remote version is kept; `None` for the
    /// upload of local content. The store is not told.
    pub backup_of: Option<String>,
}

/// What an `UploadRequest` holds, as mathematical values.
pub struct UploadRequestView {
    pub path: Seq<char>,
    pub content: Seq<u8>,
    pub mode: WriteMode,
    pub autorename: bool,
    pub mute: bool,
    pub backup_of: Option<Seq<char>>,
}

impl View for UploadRequest {
    type V = UploadRequestView;

    open spec fn view(&self) -> UploadRequestView {
        UploadRequestView {
            path: self.path@,
            content: self.content@,
            mode: self.mode,
            autorename: self.autorename,
            mute: self.mute,
            backup_of: self.backup_of.deep_view(),
        }
    }
}

/// The store's answer to an upload call that reached it.
#[derive(Debug)]
pub struct UploadReply {
    /// The HTTP status of the answer.
    pub status: u16,
    /// The body of the answer; read only where the status is no success.
    pub detail: String,
}

/// What an `UploadReply` holds, as mathematical values.
pub struct UploadReplyView {
    pub status: u16,
    pub detail: Seq<char>,
}

impl View for UploadReply {
    type V = UploadReplyView;

    open spec fn view(&self) -> UploadReplyView {
        UploadReplyView { status: self.status, detail: self.detail@ }
    }
}

/// Why an upload run ended without success.
#[derive(Debug)]
pub enum UploadError {
    /// The remote object differs from the local content and `autorename` is
    /// off. `conflict` is the detector's verdict, with both sizes.
    Conflict { path: String, conflict: ConflictResult },
    /// The detector could not tell whether there is a conflict.
    Detection { message: String },
    /// The remote version could not be fetched for its backup.
    Download { path: String, message: String },
    /// An upload call did not reach the store.
    Transport { path: String, backup: bool, message: String },
    /// The store answered an upload call with a status that is no success.
    Rejected { path: String, backup: bool, status: u16, detail: String },
    /// The queue was handed an event that it was not waiting for.
    UnexpectedEvent,
}

/// What an `UploadError` holds, as mathematical values.
pub enum UploadErrorView {
    Conflict { path: Seq<char>, conflict: ConflictResultView },
    Detection { message: Seq<char> },
    Download { path: Seq<char>, message: Seq<char> },
    Transport { path: Seq<char>, backup: bool, message: Seq<char> },
    Rejected { path: Seq<char>, backup: bool, status: u16, detail: Seq<char> },
    UnexpectedEvent,
}

impl View for UploadError {
    type V = UploadErrorView;

    open spec fn view(&self) -> UploadErrorView {
        match *self {
            UploadError::Conflict { path, conflict } => UploadErrorView::Conflict {
                path: path@,
                conflict: conflict@,
            },
            UploadError::Detection { message } => UploadErrorView::Detection { message: message@ },
            UploadError::Download { path, message } => UploadErrorView::Download {
                path: path@,
                message: message@,
            },
            UploadError::Transport { path, backup, message } => UploadErrorView::Transport {
                path: path@,
                backup,
                message: message@,
            },
            UploadError::Rejected { path, backup, status, detail } => UploadErrorView::Rejected {
                path: path@,
                backup,
                status,
                detail: detail@,
            },
            UploadError::UnexpectedEvent => UploadErrorView::UnexpectedEvent,
        }
    }
}

/// The view of a run's outcome.
pub open spec fn outcome_view(outcome: Result<(), UploadError>) -> Result<(), UploadErrorView> {
    match outcome {
        Ok(_) => Ok(()),
        Err(error) => Err(error@),
    }
}

/// What the driver reports to the queue.
#[derive(Debug)]
pub enum StoreEvent {
    /// Nothing has happened yet: the run starts.
    Begin,
    /// The answer to `StoreAction::GetMetadata`.
    Metadata(Result<FileMetadata, FetchFailure>),
    /// The answer to `StoreAction::Download`.
    Content(Result<Vec<u8>, String>),
    /// The answer to `StoreAction::Upload`: the store's reply, or why the call
    /// did not reach it.
    Uploaded(Result<UploadReply, String>),
}

/// What a `StoreEvent` holds, as mathematical values.
pub enum StoreEventView {
    Begin,
    Metadata(Result<FileMetadataView, FetchFailureView>),
    Content(Result<Seq<u8>, Seq<char>>),
    Uploaded(Result<UploadReplyView, Seq<char>>),
}

impl View for StoreEvent {
    type V = StoreEventView;

    open spec fn view(&self) -> StoreEventView {
        match *self {
            StoreEvent::Begin => StoreEventView::Begin,
            StoreEvent::Metadata(remote) => StoreEventView::Metadata(fetched_view(remote)),
            StoreEvent::Content(Ok(bytes)) => StoreEventView::Content(Ok(bytes@)),
            StoreEvent::Content(Err(message)) => StoreEventView::Content(Err(message@)),
            StoreEvent::Uploaded(Ok(reply)) => StoreEventView::Uploaded(Ok(reply@)),
            StoreEvent::Uploaded(Err(message)) => StoreEventView::Uploaded(Err(message@)),
        }
    }
}

/// What the queue asks its driver to do next.
#[derive(Debug)]
pub enum StoreAction {
    /// Fetch the descriptor of the remote object at `path`.
    GetMetadata { path: String },
    /// Fetch the bytes of the remote object at `path`, to keep them as a
    /// backup: the object differs from the local content as `conflict` says.
    Download { path: String, conflict: ConflictResult },
    /// Upload as the request says.
    Upload(UploadRequest),
    /// The run is over, with this outcome.
    Done(Result<(), UploadError>),
}

/// What a `StoreAction` holds, as mathematical values.
pub enum StoreActionView {
    GetMetadata { path: Seq<char> },
    Download { path: Seq<char>, conflict: ConflictResultView },
    Upload(UploadRequestView),
    Done(Result<(), UploadErrorView>),
}

impl View for StoreAction {
    type V = StoreActionView;

    open spec fn view(&self) -> StoreActionView {
        match *self {
            StoreAction::GetMetadata { path } => StoreActionView::GetMetadata { path: path@ },
            StoreAction::Download { path, conflict } => StoreActionView::Download {
                path: path@,
                conflict: conflict@,
            },
            StoreAction::Upload(request) => StoreActionView::Upload(request@),
            StoreAction::Done(outcome) => StoreActionView::Done(outcome_view(outcome)),
        }
    }
}

/// What the queue is waiting for.
#[derive(Debug)]
enum Stage {
    Ready,
    Checking { path: String, content: Vec<u8>, options: UploadOptions },
    Fetching {
        path: String,
        content: Vec<u8>,
        options: UploadOptions,
        backup_path: String,
        conflict: ConflictResult,
    },
    Sending { path: String, backup: bool },
    Finished,
}

/// What the queue is waiting for, as mathematical values.
pub enum StageView {
    /// The run has not started.
    Ready,
    /// The descriptor of the remote object at `path` has been asked for.
    Checking { path: Seq<char>, content: Seq<u8>, options: UploadOptions },
    /// A conflict was found and the remote bytes have been asked for, to be
    /// kept at `backup_path`.
    Fetching {
        path: Seq<char>,
        content: Seq<u8>,
        options: UploadOptions,
        backup_path: Seq<char>,
        conflict: ConflictResultView,
    },
    /// An upload to `path` is under way; `backup` tells whether it is a backup.
    Sending { path: Seq<char>, backup: bool },
    /// The run is over.
    Finished,
}

impl View for Stage {
    type V = StageView;

    closed spec fn view(&self) -> StageView {
        match *self {
            Stage::Ready => StageView::Ready,
            Stage::Checking { path, content, options } => StageView::Checking {
                path: path@,
                content: content@,
                options,
            },
            Stage::Fetching { path, content, options, backup_path, conflict } => StageView::Fetching {
                path: path@,
                content: content@,
                options,
                backup_path: backup_path@,
                conflict: conflict@,
            },
            Stage::Sending { path, backup } => StageView::Sending { path: path@, backup },
            Stage::Finished => StageView::Finished,
        }
    }
}

/// The state of an upload run, as mathematical values: the tasks that wait,
/// first in front, and what the queue is waiting for.
pub struct UploadQueueView {
    pub pending: Seq<UploadTaskView>,
    pub stage: StageView,
}

/// The views of a sequence of tasks.
pub open spec fn task_views(tasks: Seq<UploadTask>) -> Seq<UploadTaskView> {
    tasks.map_values(|task: UploadTask| task@)
}

/// The upload call for a task's content under its options.
pub open spec fn upload_request(
    path: Seq<char>,
    content: Seq<u8>,
    options: UploadOptions,
) -> UploadRequestView {
    UploadRequestView {
        path,
        content,
        mode: if options.overwrite {
            WriteMode::Overwrite
        } else {
            WriteMode::Add
        },
        autorename: options.autorename,
        mute: options.mute,
        backup_of: None,
    }
}

/// The upload call that stores at `backup_path` the remote version of
/// `original_path`: it overwrites, silently.
pub open spec fn backup_request(
    original_path: Seq<char>,
    backup_path: Seq<char>,
    content: Seq<u8>,
) -> UploadRequestView {
    UploadRequestView {
        path: backup_path,
        content,
        mode: WriteMode::Overwrite,
        autorename: false,
        mute: true,
        backup_of: Some(original_path),
    }
}

/// Whether an upload under these options looks at the remote object first.
pub open spec fn checks_remote(options: UploadOptions) -> bool {
    !options.overwrite && options.create_backup
}

/// Whether the store's status means success.
pub open spec fn is_success(status: u16) -> bool {
    200 <= status < 300
}

/// The run ends with `error`; what waits in the queue stays there.
pub open spec fn halt(pending: Seq<UploadTaskView>, error: UploadErrorView) -> (
    UploadQueueView,
    StoreActionView,
) {
    (
        UploadQueueView { pending, stage: StageView::Finished },
        StoreActionView::Done(Err(error)),
    )
}

/// The content of an upload task goes to the store.
pub open spec fn send(
    pending: Seq<UploadTaskView>,
    path: Seq<char>,
    content: Seq<u8>,
    options: UploadOptions,
) -> (UploadQueueView, StoreActionView) {
    (
        UploadQueueView { pending, stage: StageView::Sending { path, backup: false } },
        StoreActionView::Upload(upload_request(path, content, options)),
    )
}

/// The queue takes up its first task, or ends the run with success when
/// nothing waits.
pub open spec fn dispatch(pending: Seq<UploadTaskView>) -> (UploadQueueView, StoreActionView) {
    if pending.len() == 0 {
        (UploadQueueView { pending, stage: StageView::Finished }, StoreActionView::Done(Ok(())))
    } else {
        let rest = pending.drop_first();
        match pending[0] {
            UploadTaskView::Upload { path, content, options } => if checks_remote(options) {
                (
                    UploadQueueView {
                        pending: rest,
                        stage: StageView::Checking { path, content, options },
                    },
                    StoreActionView::GetMetadata { path },
                )
            } else {
                send(rest, path, content, options)
            },
            UploadTaskView::Backup { original_path, backup_path, content } => (
                UploadQueueView {
                    pending: rest,
                    stage: StageView::Sending { path: backup_path, backup: true },
                },
                StoreActionView::Upload(backup_request(original_path, backup_path, content)),
            ),
        }
    }
}

/// One step of an upload run: from the state and what the store answered, at
/// Unix time `now`, to the next state and the next action.
///
/// An event that the state is not waiting for ends the run with
/// `UnexpectedEvent`.
pub open spec fn next_step(queue: UploadQueueView, event: StoreEventView, now: i64) -> (
    UploadQueueView,
    StoreActionView,
) {
    match queue.stage {
        StageView::Ready => match event {
            StoreEventView::Begin => dispatch(queue.pending),
            _ => halt(queue.pending, UploadErrorView::UnexpectedEvent),
        },
        StageView::Checking { path, content, options } => match event {
            StoreEventView::Metadata(remote) => match detect(content.len(), remote) {
                ConflictResultView::NoConflict => send(queue.pending, path, content, options),
                ConflictResultView::Error(message) => halt(
                    queue.pending,
                    UploadErrorView::Detection { message },
                ),
                ConflictResultView::Conflict { .. } => (
                    UploadQueueView {
                        pending: queue.pending,
                        stage: StageView::Fetching {
                            path,
                            content,
                            options,
                            backup_path: backup_name(path, now as int),
                            conflict: detect(content.len(), remote),
                        },
                    },
                    StoreActionView::Download { path, conflict: detect(content.len(), remote) },
                ),
            },
            _ => halt(queue.pending, UploadErrorView::UnexpectedEvent),
        },
        StageView::Fetching { path, content, options, backup_path, conflict } => match event {
            StoreEventView::Content(Ok(bytes)) => {
                let pending = queue.pending.push(
                    UploadTaskView::Backup { original_path: path, backup_path, content: bytes },
                );
                if options.autorename {
                    send(pending, path, content, options)
                } else {
                    halt(pending, UploadErrorView::Conflict { path, conflict })
                }
            },
            StoreEventView::Content(Err(message)) => halt(
                queue.pending,
                UploadErrorView::Download { path, message },
            ),
            _ => halt(queue.pending, UploadErrorView::UnexpectedEvent),
        },
        StageView::Sending { path, backup } => match event {
            StoreEventView::Uploaded(Ok(reply)) => if is_success(reply.status) {
                dispatch(queue.pending)
            } else {
                halt(
                    queue.pending,
                    UploadErrorView::Rejected {
                        path,
                        backup,
                        status: reply.status,
                        detail: reply.detail,
                    },
                )
            },
            StoreEventView::Uploaded(Err(message)) => halt(
                queue.pending,
                UploadErrorView::Transport { path, backup, message },
            ),
            _ => halt(queue.pending, UploadErrorView::UnexpectedEvent),
        },
        StageView::Finished => halt(queue.pending, UploadErrorView::UnexpectedEvent),
    }
}

/// Whether a step finds a conflict: the run waits for a descriptor, the
/// descriptor arrives, and its size differs from that of the local content.
/// Only such a step looks at the time, to name the backup.
pub open spec fn finds_conflict(queue: UploadQueueView, event: StoreEventView) -> bool {
    &&& queue.stage matches StageView::Checking { content, .. }
    &&& event matches StoreEventView::Metadata(Ok(metadata))
    &&& metadata.size != content.len()
}

/// A step that finds no conflict does the same at any time.
pub proof fn lemma_time_matters_on_conflict_only(
    queue: UploadQueueView,
    event: StoreEventView,
    first: i64,
    second: i64,
)
    requires
        !finds_conflict(queue, event),
    ensures
        next_step(queue, event, first) == next_step(queue, event, second),
{
}

/// The state in which a run on `task` starts.
pub open spec fn initial(task: UploadTaskView) -> UploadQueueView {
    UploadQueueView { pending: seq![task], stage: StageView::Ready }
}

/// An upload run: the tasks that wait and what the run is waiting for.
#[derive(Debug)]
pub struct UploadQueue {
    pending: VecDeque<UploadTask>,
    stage: Stage,
}

impl View for UploadQueue {
    type V = UploadQueueView;

    closed spec fn view(&self) -> UploadQueueView {
        UploadQueueView { pending: task_views(self.pending@), stage: self.stage@ }
    }
}

/// Ends the run with `error`.
fn halted(pending: VecDeque<UploadTask>, error: UploadError) -> (next: (UploadQueue, StoreAction))
    ensures
        (next.0@, next.1@) == halt(task_views(pending@), error@),
{
    (UploadQueue { pending, stage: Stage::Finished }, StoreAction::Done(Err(error)))
}

/// Hands the content of an upload task to the store.
fn sending(
    pending: VecDeque<UploadTask>,
    path: String,
    content: Vec<u8>,
    options: UploadOptions,
) -> (next: (UploadQueue, StoreAction))
    ensures
        (next.0@, next.1@) == send(task_views(pending@), path@, content@, options),
{
    let mode = if options.overwrite {
        WriteMode::Overwrite
    } else {
        WriteMode::Add
    };
    let request = UploadRequest {
        path: path.clone(),
        content,
        mode,
        autorename: options.autorename,
        mute: options.mute,
        backup_of: None,
    };
    (
        UploadQueue { pending, stage: Stage::Sending { path, backup: false } },
        StoreAction::Upload(request),
    )
}

/// Takes up the first task that waits.
fn dispatched(pending: VecDeque<UploadTask>) -> (next: (UploadQueue, StoreAction))
    ensures
        (next.0@, next.1@) == dispatch(task_views(pending@)),
{
    let mut pending = pending;
    let ghost before = pending@;
    match pending.pop_front() {
        None => (UploadQueue { pending, stage: Stage::Finished }, StoreAction::Done(Ok(()))),
        Some(task) => {
            assert(task_views(pending@) =~= task_views(before).drop_first());
            assert(task_views(before)[0] == task@);
            match task {
                UploadTask::Upload { path, content, options } => {
                    if !options.overwrite && options.create_backup {
                        let target = path.clone();
                        (
                            UploadQueue {
                                pending,
                                stage: Stage::Checking { path, content, options },
                            },
                            StoreAction::GetMetadata { path: target },
                        )
                    } else {
                        sending(pending, path, content, options)
                    }
                },
                UploadTask::Backup { original_path, backup_path, content } => {
                    let request = UploadRequest {
                        path: backup_path.clone(),
                        content,
                        mode: WriteMode::Overwrite,
                        autorename: false,
                        mute: true,
                        backup_of: Some(original_path),
                    };
                    (
                        UploadQueue {
                            pending,
                            stage: Stage::Sending { path: backup_path, backup: true },
                        },
                        StoreAction::Upload(request),
                    )
                },
            }
        },
    }
}

impl UploadQueue {
    /// A run that has `task` to do and has not started.
    pub fn new(task: UploadTask) -> (queue: UploadQueue)
        ensures
            queue@ == initial(task@),
    {
        let mut pending: VecDeque<UploadTask> = VecDeque::new();
        pending.push_back(task);
        assert(task_views(pending@) =~= seq![task@]);
        UploadQueue { pending, stage: Stage::Ready }
    }

    /// Whether the run is over.
    pub fn is_finished(&self) -> (finished: bool)
        ensures
            finished == (self@.stage is Finished),
    {
        match self.stage {
            Stage::Finished => true,
            _ => false,
        }
    }

    /// The number of tasks that wait in the queue.
    pub fn pending_len(&self) -> (count: usize)
        ensures
            count == self@.pending.len(),
    {
        self.pending.len()
    }

    /// The tasks that wait in the queue, first in front. After a run that
    /// ended on a conflict this holds the backup that was never uploaded.
    pub fn into_pending(self) -> (tasks: VecDeque<UploadTask>)
        ensures
            task_views(tasks@) == self@.pending,
    {
        self.pending
    }

    /// Whether this step reads the clock: it does when the awaited descriptor
    /// arrives and shows a conflict, since the backup is named after the time.
    pub fn reads_clock(&self, event: &StoreEvent) -> (reads: bool)
        ensures
            reads == finds_conflict(self@, event@),
    {
        match &self.stage {
            Stage::Checking { path: _, content, options: _ } => match event {
                StoreEvent::Metadata(Ok(metadata)) => metadata.size != content.len() as u64,
                _ => false,
            },
            _ => false,
        }
    }

    /// One step of the run at Unix time `now`: takes what the store answered
    /// to the action issued last, and returns the state that follows together
    /// with the next action. `now` names the backup when this step finds a
    /// conflict, and is ignored otherwise.
    pub fn step_at(self, event: StoreEvent, now: i64) -> (next: (UploadQueue, StoreAction))
        ensures
            (next.0@, next.1@) == next_step(self@, event@, now),
    {
        let UploadQueue { pending, stage } = self;
        match stage {
            Stage::Ready => match event {
                StoreEvent::Begin => dispatched(pending),
                _ => halted(pending, UploadError::UnexpectedEvent),
            },
            Stage::Checking { path, content, options } => match event {
                StoreEvent::Metadata(remote) => {
                    match detect_conflict(content.as_slice(), remote) {
                        ConflictResult::NoConflict => sending(pending, path, content, options),
                        ConflictResult::Error(message) => halted(
                            pending,
                            UploadError::Detection { message },
                        ),
                        ConflictResult::Conflict {
                            local_size,
                            remote_size,
                            local_modified,
                            remote_modified,
                            local_hash,
                            remote_hash,
                        } => {
                            let backup_path = backup_path(path.as_str(), now);
                            let target = path.clone();
                            let conflict = ConflictResult::Conflict {
                                local_size,
                                remote_size,
                                local_modified,
                                remote_modified,
                                local_hash,
                                remote_hash,
                            };
                            let verdict = conflict.clone();
                            (
                                UploadQueue {
                                    pending,
                                    stage: Stage::Fetching {
                                        path,
                                        content,
                                        options,
                                        backup_path,
                                        conflict,
                                    },
                                },
                                StoreAction::Download { path: target, conflict: verdict },
                            )
                        },
                    }
                },
                _ => halted(pending, UploadError::UnexpectedEvent),
            },
            Stage::Fetching { path, content, options, backup_path, conflict } => match event {
                StoreEvent::Content(Ok(bytes)) => {
                    let mut pending = pending;
                    let ghost before = pending@;
                    let backup = UploadTask::Backup {
                        original_path: path.clone(),
                        backup_path,
                        content: bytes,
                    };
                    pending.push_back(backup);
                    assert(task_views(pending@) =~= task_views(before).push(backup@));
                    if options.autorename {
                        sending(pending, path, content, options)
                    } else {
                        halted(pending, UploadError::Conflict { path, conflict })
                    }
                },
                StoreEvent::Content(Err(message)) => halted(
                    pending,
                    UploadError::Download { path, message },
                ),
                _ => halted(pending, UploadError::UnexpectedEvent),
            },
            Stage::Sending { path, backup } => match event {
                StoreEvent::Uploaded(Ok(reply)) => {
                    if 200 <= reply.status && reply.status < 300 {
                        dispatched(pending)
                    } else {
                        halted(
                            pending,
                            UploadError::Rejected {
                                path,
                                backup,
                                status: reply.status,
                                detail: reply.detail,
                            },
                        )
                    }
                },
                StoreEvent::Uploaded(Err(message)) => halted(
                    pending,
                    UploadError::Transport { path, backup, message },
                ),
                _ => halted(pending, UploadError::UnexpectedEvent),
            },
            Stage::Finished => halted(pending, UploadError::UnexpectedEvent),
        }
    }

    /// One step of the run, as `step_at` at the time that the system clock
    /// shows. The clock is read only when this step finds a conflict; any
    /// other step is the same at every time.
    pub fn step(self, event: StoreEvent) -> (next: (UploadQueue, StoreAction))
        ensures
            exists|now: i64| (next.0@, next.1@) == #[trigger] next_step(self@, event@, now),
            !finds_conflict(self@, event@) ==> forall|now: i64|
                (next.0@, next.1@) == #[trigger] next_step(self@, event@, now),
    {
        let now: i64 = if self.reads_clock(&event) {
            unix_now()
        } else {
            0
        };
        proof {
            if !finds_conflict(self@, event@) {
                assert forall|other: i64|
                    next_step(self@, event@, now) == #[trigger] next_step(self@, event@, other) by {
                    lemma_time_matters_on_conflict_only(self@, event@, now, other);
                }
            }
        }
        self.step_at(event, now)
    }
}

} // verus!
