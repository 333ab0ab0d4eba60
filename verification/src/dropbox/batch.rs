//! Batch upload: each file goes through an upload run of its own, with the
//! default options. A file that fails does not stop the batch: every file's
//! outcome is kept, in the order in which the files were given.

use crate::dropbox::operations::{default_options, UploadOptions};
use crate::dropbox::queue::{
    finds_conflict, initial, lemma_time_matters_on_conflict_only, next_step, outcome_view,
    StoreAction, StoreActionView, StoreEvent, StoreEventView, UploadError, UploadErrorView,
    UploadQueue, UploadQueueView, UploadTask, UploadTaskView,
};
use crate::time::unix_now;
use vstd::prelude::*;

verus! {

/// A file of a batch: the remote path and the bytes to store there.
pub struct BatchFileView {
    pub path: Seq<char>,
    pub content: Seq<u8>,
}

/// The views of the files of a batch.
pub open spec fn file_views(files: Seq<(String, Vec<u8>)>) -> Seq<BatchFileView> {
    files.map_values(|file: (String, Vec<u8>)| BatchFileView { path: file.0@, content: file.1@ })
}

/// The views of a sequence of outcomes.
pub open spec fn outcome_views(outcomes: Seq<Result<(), UploadError>>) -> Seq<
    Result<(), UploadErrorView>,
> {
    outcomes.map_values(|outcome: Result<(), UploadError>| outcome_view(outcome))
}

/// The state of a batch, as mathematical values: all its files, how many of
/// them have been taken up, the outcomes so far, and the run of the file in
/// hand. Without a run in hand the batch is over.
pub struct BatchView {
    pub files: Seq<BatchFileView>,
    pub taken: nat,
    pub results: Seq<Result<(), UploadErrorView>>,
    pub current: Option<UploadQueueView>,
}

/// What a batch asks its driver to do next.
#[derive(Debug)]
pub enum BatchAction {
    /// Perform this action for the file in hand. It is never `Done`.
    Store(StoreAction),
    /// The batch is over: every file has its outcome.
    Finished,
}

/// What a `BatchAction` holds, as mathematical values.
pub enum BatchActionView {
    Store(StoreActionView),
    Finished,
}

impl View for BatchAction {
    type V = BatchActionView;

    open spec fn view(&self) -> BatchActionView {
        match *self {
            BatchAction::Store(action) => BatchActionView::Store(action@),
            BatchAction::Finished => BatchActionView::Finished,
        }
    }
}

/// The batch takes up its next file and starts its run, or ends when no
/// file is left.
pub open spec fn launch(
    files: Seq<BatchFileView>,
    taken: nat,
    results: Seq<Result<(), UploadErrorView>>,
) -> (BatchView, BatchActionView) {
    if taken >= files.len() {
        (BatchView { files, taken, results, current: None }, BatchActionView::Finished)
    } else {
        let file = files[taken as int];
        let started = next_step(
            initial(
                UploadTaskView::Upload {
                    path: file.path,
                    content: file.content,
                    options: default_options(),
                },
            ),
            StoreEventView::Begin,
            0,
        );
        (
            BatchView { files, taken: taken + 1, results, current: Some(started.0) },
            BatchActionView::Store(started.1),
        )
    }
}

/// The state and the first action of a batch over `files`.
pub open spec fn batch_start(files: Seq<BatchFileView>) -> (BatchView, BatchActionView) {
    launch(files, 0, Seq::empty())
}

/// One step of a batch at Unix time `now`. The answer goes to the run of
/// the file in hand. When that run ends, its outcome is recorded, whatever
/// it is, and the next file is taken up. A batch that is over stays over.
pub open spec fn batch_step(batch: BatchView, event: StoreEventView, now: i64) -> (
    BatchView,
    BatchActionView,
) {
    match batch.current {
        None => (batch, BatchActionView::Finished),
        Some(run) => {
            let stepped = next_step(run, event, now);
            match stepped.1 {
                StoreActionView::Done(outcome) => launch(
                    batch.files,
                    batch.taken,
                    batch.results.push(outcome),
                ),
                action => (
                    BatchView {
                        files: batch.files,
                        taken: batch.taken,
                        results: batch.results,
                        current: Some(stepped.0),
                    },
                    BatchActionView::Store(action),
                ),
            }
        },
    }
}

/// Whether a step of a batch finds a conflict: the run in hand does.
pub open spec fn batch_finds_conflict(batch: BatchView, event: StoreEventView) -> bool {
    batch.current matches Some(run) && finds_conflict(run, event)
}

/// A step of a batch that finds no conflict does the same at any time.
pub proof fn lemma_batch_time_matters_on_conflict_only(
    batch: BatchView,
    event: StoreEventView,
    first: i64,
    second: i64,
)
    requires
        !batch_finds_conflict(batch, event),
    ensures
        batch_step(batch, event, first) == batch_step(batch, event, second),
{
    if let Some(run) = batch.current {
        lemma_time_matters_on_conflict_only(run, event, first, second);
    }
}

/// Every file that was taken up has its outcome, but for the one in hand.
pub open spec fn accounted(batch: BatchView) -> bool {
    &&& batch.taken <= batch.files.len()
    &&& batch.results.len() + (if batch.current is Some {
        1nat
    } else {
        0nat
    }) == batch.taken
    &&& batch.current is None ==> batch.taken == batch.files.len()
}

/// A batch starts accounted for, and never asks its driver for `Done`.
pub proof fn lemma_batch_start_accounted(files: Seq<BatchFileView>)
    ensures
        accounted(batch_start(files).0),
        !(batch_start(files).1 matches BatchActionView::Store(StoreActionView::Done(_))),
        batch_start(files).0.files == files,
{
    if files.len() > 0 {
        let file = files[0];
        let task = UploadTaskView::Upload {
            path: file.path,
            content: file.content,
            options: default_options(),
        };
        assert(initial(task).pending[0] == task);
    }
}

/// A step keeps a batch accounted for, keeps its files, and never asks the
/// driver for `Done`. When the step ends the batch, there are as many
/// outcomes as files: a failure of one file takes no outcome away from
/// another.
pub proof fn lemma_batch_step_accounted(batch: BatchView, event: StoreEventView, now: i64)
    requires
        accounted(batch),
    ensures
        accounted(batch_step(batch, event, now).0),
        batch_step(batch, event, now).0.files == batch.files,
        !(batch_step(batch, event, now).1 matches BatchActionView::Store(
            StoreActionView::Done(_),
        )),
        batch_step(batch, event, now).1 is Finished ==> batch_step(
            batch,
            event,
            now,
        ).0.results.len() == batch.files.len(),
        batch.results.is_prefix_of(batch_step(batch, event, now).0.results),
{
    match batch.current {
        None => {},
        Some(run) => {
            let stepped = next_step(run, event, now);
            match stepped.1 {
                StoreActionView::Done(outcome) => {
                    if batch.taken < batch.files.len() {
                        let file = batch.files[batch.taken as int];
                        let task = UploadTaskView::Upload {
                            path: file.path,
                            content: file.content,
                            options: default_options(),
                        };
                        assert(initial(task).pending[0] == task);
                    }
                },
                _ => {},
            }
        },
    }
}

/// A batch of uploads.
#[derive(Debug)]
pub struct BatchUpload {
    files: Vec<(String, Vec<u8>)>,
    taken: usize,
    results: Vec<Result<(), UploadError>>,
    current: Option<UploadQueue>,
}

impl View for BatchUpload {
    type V = BatchView;

    closed spec fn view(&self) -> BatchView {
        BatchView {
            files: file_views(self.files@),
            taken: self.taken as nat,
            results: outcome_views(self.results@),
            current: match self.current {
                Some(run) => Some(run@),
                None => None,
            },
        }
    }
}

/// Takes up the next file of a batch.
fn launched(
    files: Vec<(String, Vec<u8>)>,
    taken: usize,
    results: Vec<Result<(), UploadError>>,
) -> (next: (BatchUpload, BatchAction))
    ensures
        (next.0@, next.1@) == launch(
            file_views(files@),
            taken as nat,
            outcome_views(results@),
        ),
{
    if taken >= files.len() {
        (BatchUpload { files, taken, results, current: None }, BatchAction::Finished)
    } else {
        let path = files[taken].0.clone();
        let content = files[taken].1.clone();
        assert(content@ == files@[taken as int].1@);
        let task = UploadTask::Upload { path, content, options: UploadOptions::default() };
        let (run, action) = UploadQueue::new(task).step_at(StoreEvent::Begin, 0);
        (
            BatchUpload { files, taken: taken + 1, results, current: Some(run) },
            BatchAction::Store(action),
        )
    }
}

impl BatchUpload {
    /// Starts a batch over `files`, each a remote path with the bytes to
    /// store there, and returns it with its first action.
    pub fn start(files: Vec<(String, Vec<u8>)>) -> (next: (BatchUpload, BatchAction))
        ensures
            (next.0@, next.1@) == batch_start(file_views(files@)),
    {
        let results: Vec<Result<(), UploadError>> = Vec::new();
        assert(outcome_views(results@) =~= Seq::empty());
        launched(files, 0, results)
    }

    /// Whether the batch is over.
    pub fn is_finished(&self) -> (finished: bool)
        ensures
            finished == (self@.current is None),
    {
        self.current.is_none()
    }

    /// The outcomes so far, one for each file whose run has ended, in the
    /// order of the files.
    pub fn into_results(self) -> (results: Vec<Result<(), UploadError>>)
        ensures
            outcome_views(results@) == self@.results,
    {
        self.results
    }

    /// One step of the batch at Unix time `now`.
    pub fn step_at(self, event: StoreEvent, now: i64) -> (next: (BatchUpload, BatchAction))
        ensures
            (next.0@, next.1@) == batch_step(self@, event@, now),
    {
        let BatchUpload { files, taken, results, current } = self;
        match current {
            None => (BatchUpload { files, taken, results, current: None }, BatchAction::Finished),
            Some(run) => {
                let (run, action) = run.step_at(event, now);
                match action {
                    StoreAction::Done(outcome) => {
                        let mut results = results;
                        let ghost before = results@;
                        results.push(outcome);
                        assert(outcome_views(results@) =~= outcome_views(before).push(
                            outcome_view(outcome),
                        ));
                        launched(files, taken, results)
                    },
                    other => (
                        BatchUpload { files, taken, results, current: Some(run) },
                        BatchAction::Store(other),
                    ),
                }
            },
        }
    }

    /// One step of the batch, as `step_at` at the time that the system clock
    /// shows. The clock is read only when this step finds a conflict; any
    /// other step is the same at every time.
    pub fn step(self, event: StoreEvent) -> (next: (BatchUpload, BatchAction))
        ensures
            exists|now: i64| (next.0@, next.1@) == #[trigger] batch_step(self@, event@, now),
            !batch_finds_conflict(self@, event@) ==> forall|now: i64|
                (next.0@, next.1@) == #[trigger] batch_step(self@, event@, now),
    {
        let reads = match &self.current {
            Some(run) => run.reads_clock(&event),
            None => false,
        };
        let now: i64 = if reads {
            unix_now()
        } else {
            0
        };
        proof {
            if !batch_finds_conflict(self@, event@) {
                assert forall|other: i64|
                    batch_step(self@, event@, now) == #[trigger] batch_step(
                        self@,
                        event@,
                        other,
                    ) by {
                    lemma_batch_time_matters_on_conflict_only(self@, event@, now, other);
                }
            }
        }
        self.step_at(event, now)
    }
}

} // verus!
