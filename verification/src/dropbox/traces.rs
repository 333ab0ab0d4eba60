//! Whole runs of the upload queue: the actions that a run issues for a
//! sequence of answers, and what holds of them whatever the store answers.

use crate::dropbox::client::{FetchFailureView, FileMetadataView};
use crate::dropbox::operations::{backup_name, detect, ConflictResultView, UploadOptions};
use crate::dropbox::queue::{
    backup_request, checks_remote, initial, is_success, next_step, upload_request, StageView,
    StoreActionView, StoreEventView, UploadErrorView, UploadQueueView, UploadReplyView,
    UploadTaskView, WriteMode,
};
use vstd::prelude::*;

verus! {

/// An answer of the store together with the Unix time at which the queue
/// takes it.
pub struct Timed {
    pub event: StoreEventView,
    pub now: i64,
}

/// The state of a run after it has taken `events`, one after the other.
pub open spec fn state_after(queue: UploadQueueView, events: Seq<Timed>) -> UploadQueueView
    decreases events.len(),
{
    if events.len() == 0 {
        queue
    } else {
        state_after(next_step(queue, events[0].event, events[0].now).0, events.drop_first())
    }
}

/// The actions that a run issues while it takes `events`: one for each event,
/// in order.
pub open spec fn actions_of(queue: UploadQueueView, events: Seq<Timed>) -> Seq<StoreActionView>
    decreases events.len(),
{
    if events.len() == 0 {
        Seq::empty()
    } else {
        seq![next_step(queue, events[0].event, events[0].now).1] + actions_of(
            next_step(queue, events[0].event, events[0].now).0,
            events.drop_first(),
        )
    }
}

/// A run that takes `first` and then `rest` issues the action of its first
/// step and then the actions of the run that goes on from there.
pub proof fn lemma_run_unfolds(queue: UploadQueueView, first: Timed, rest: Seq<Timed>)
    ensures
        actions_of(queue, seq![first] + rest) == seq![
            next_step(queue, first.event, first.now).1,
        ] + actions_of(next_step(queue, first.event, first.now).0, rest),
        state_after(queue, seq![first] + rest) == state_after(
            next_step(queue, first.event, first.now).0,
            rest,
        ),
{
    let events = seq![first] + rest;
    assert(events[0] == first);
    assert(events.drop_first() =~= rest);
}

/// A run issues one action for each event that it takes.
pub proof fn lemma_one_action_per_event(queue: UploadQueueView, events: Seq<Timed>)
    ensures
        actions_of(queue, events).len() == events.len(),
    decreases events.len(),
{
    if events.len() > 0 {
        lemma_one_action_per_event(
            next_step(queue, events[0].event, events[0].now).0,
            events.drop_first(),
        );
    }
}

/// No task that waits asks for a look at the remote object, and the run is
/// not in the middle of one.
pub open spec fn never_checks(queue: UploadQueueView) -> bool {
    &&& queue.stage is Ready || queue.stage is Sending || queue.stage is Finished
    &&& forall|i: int|
        0 <= i < queue.pending.len() ==> (#[trigger] queue.pending[i] matches UploadTaskView::Upload {
            options,
            ..
        } ==> !checks_remote(options))
}

/// A step from a state that never checks leads to such a state again, and
/// issues an upload or ends the run.
pub proof fn lemma_never_checks_step(queue: UploadQueueView, event: StoreEventView, now: i64)
    requires
        never_checks(queue),
    ensures
        never_checks(next_step(queue, event, now).0),
        next_step(queue, event, now).1 is Upload || next_step(queue, event, now).1 is Done,
{
    let next = next_step(queue, event, now).0;
    if queue.pending.len() > 0 {
        let rest = queue.pending.drop_first();
        assert forall|i: int| 0 <= i < rest.len() implies (#[trigger] rest[i] matches UploadTaskView::Upload {
            options,
            ..
        } ==> !checks_remote(options)) by {
            assert(rest[i] == queue.pending[i + 1]);
        }
        assert(queue.pending[0] matches UploadTaskView::Upload { options, .. } ==> !checks_remote(
            options,
        ));
    }
}

/// A run from a state that never checks issues uploads and its outcome,
/// nothing else.
pub proof fn lemma_never_checks_run(queue: UploadQueueView, events: Seq<Timed>)
    requires
        never_checks(queue),
    ensures
        forall|i: int|
            0 <= i < actions_of(queue, events).len() ==> {
                let action = #[trigger] actions_of(queue, events)[i];
                action is Upload || action is Done
            },
    decreases events.len(),
{
    if events.len() > 0 {
        let first = events[0];
        let next = next_step(queue, first.event, first.now).0;
        lemma_never_checks_step(queue, first.event, first.now);
        lemma_never_checks_run(next, events.drop_first());
    }
}

/// With `overwrite` set, an upload never looks at the remote object: whatever
/// the store answers, and in whatever order, the run asks for no descriptor
/// and for no download.
pub proof fn lemma_overwrite_skips_detection(
    path: Seq<char>,
    content: Seq<u8>,
    options: UploadOptions,
    events: Seq<Timed>,
)
    requires
        options.overwrite,
    ensures
        forall|i: int|
            0 <= i < events.len() ==> {
                let action = #[trigger] actions_of(
                    initial(UploadTaskView::Upload { path, content, options }),
                    events,
                )[i];
                !(action is GetMetadata) && !(action is Download)
            },
{
    let start = initial(UploadTaskView::Upload { path, content, options });
    assert(never_checks(start));
    lemma_never_checks_run(start, events);
    lemma_one_action_per_event(start, events);
}

/// With `overwrite` set, the first action of an upload is the upload itself,
/// in overwrite mode.
pub proof fn lemma_overwrite_uploads_at_once(
    path: Seq<char>,
    content: Seq<u8>,
    options: UploadOptions,
    now: i64,
)
    requires
        options.overwrite,
    ensures
        next_step(
            initial(UploadTaskView::Upload { path, content, options }),
            StoreEventView::Begin,
            now,
        ).1 == StoreActionView::Upload(upload_request(path, content, options)),
        upload_request(path, content, options).mode == WriteMode::Overwrite,
{
    let start = initial(UploadTaskView::Upload { path, content, options });
    assert(start.pending.drop_first() =~= Seq::empty());
}

/// The run is over, or waits for the remote bytes of a conflict that it will
/// not resolve by renaming.
pub open spec fn bound_to_fail(queue: UploadQueueView) -> bool {
    ||| queue.stage is Finished
    ||| queue.stage matches StageView::Fetching { options, .. } && !options.autorename
}

/// A run that is bound to fail stays so and issues no upload.
pub proof fn lemma_bound_to_fail_run(queue: UploadQueueView, events: Seq<Timed>)
    requires
        bound_to_fail(queue),
    ensures
        forall|i: int|
            0 <= i < actions_of(queue, events).len() ==> {
                let action = #[trigger] actions_of(queue, events)[i];
                action matches StoreActionView::Done(outcome) && outcome is Err
            },
    decreases events.len(),
{
    if events.len() > 0 {
        let first = events[0];
        let next = next_step(queue, first.event, first.now).0;
        assert(bound_to_fail(next));
        lemma_bound_to_fail_run(next, events.drop_first());
    }
}

/// The two answers that make an upload find a conflict: the start of the run,
/// and a descriptor of the remote object.
pub open spec fn conflict_events(metadata: FileMetadataView, t0: i64, t1: i64) -> Seq<Timed> {
    seq![
        Timed { event: StoreEventView::Begin, now: t0 },
        Timed { event: StoreEventView::Metadata(Ok(metadata)), now: t1 },
    ]
}

/// A conflict with `autorename` off: the run asks for the descriptor and for
/// the remote bytes, and after that issues no upload, whatever the store
/// answers then and later. Every further action reports failure.
pub proof fn lemma_conflict_without_autorename_never_uploads(
    path: Seq<char>,
    content: Seq<u8>,
    options: UploadOptions,
    metadata: FileMetadataView,
    t0: i64,
    t1: i64,
    rest: Seq<Timed>,
)
    requires
        checks_remote(options),
        !options.autorename,
        metadata.size != content.len(),
    ensures
        ({
            let actions = actions_of(
                initial(UploadTaskView::Upload { path, content, options }),
                conflict_events(metadata, t0, t1) + rest,
            );
            &&& actions.len() == 2 + rest.len()
            &&& actions[0] == StoreActionView::GetMetadata { path }
            &&& actions[1] == StoreActionView::Download {
                path,
                conflict: detect(content.len(), Ok(metadata)),
            }
            &&& forall|i: int| 0 <= i < actions.len() ==> !(#[trigger] actions[i] is Upload)
            &&& forall|i: int|
                2 <= i < actions.len() ==> (#[trigger] actions[i] matches StoreActionView::Done(
                    outcome,
                ) && outcome is Err)
        }),
{
    let start = initial(UploadTaskView::Upload { path, content, options });
    let begin = Timed { event: StoreEventView::Begin, now: t0 };
    let fetched = Timed { event: StoreEventView::Metadata(Ok(metadata)), now: t1 };
    let checking = next_step(start, begin.event, begin.now).0;
    let fetching = next_step(checking, fetched.event, fetched.now).0;
    assert(start.pending.drop_first() =~= Seq::empty());
    assert(conflict_events(metadata, t0, t1) + rest =~= seq![begin] + (seq![fetched] + rest));
    lemma_run_unfolds(start, begin, seq![fetched] + rest);
    lemma_run_unfolds(checking, fetched, rest);
    assert(bound_to_fail(fetching));
    lemma_bound_to_fail_run(fetching, rest);
    lemma_one_action_per_event(fetching, rest);
    let tail = actions_of(fetching, rest);
    let actions = actions_of(start, conflict_events(metadata, t0, t1) + rest);
    assert(actions =~= seq![
        StoreActionView::GetMetadata { path },
        StoreActionView::Download { path, conflict: detect(content.len(), Ok(metadata)) },
    ] + tail);
    assert forall|i: int| 2 <= i < actions.len() implies (#[trigger] actions[i] matches StoreActionView::Done(
        outcome,
    ) && outcome is Err) by {
        assert(actions[i] == tail[i - 2]);
    }
}

/// A conflict with `autorename` off, where the remote bytes can be fetched:
/// the run ends in a conflict error that carries the detector's verdict, and
/// the backup of the remote bytes is left waiting in the queue. The content
/// is one that a machine can hold: its length fits in 64 bits.
pub proof fn lemma_conflict_without_autorename_fails(
    path: Seq<char>,
    content: Seq<u8>,
    options: UploadOptions,
    metadata: FileMetadataView,
    remote_bytes: Seq<u8>,
    t0: i64,
    t1: i64,
    t2: i64,
)
    requires
        checks_remote(options),
        !options.autorename,
        metadata.size != content.len(),
        content.len() <= u64::MAX,
    ensures
        ({
            let events = conflict_events(metadata, t0, t1) + seq![
                Timed { event: StoreEventView::Content(Ok(remote_bytes)), now: t2 },
            ];
            let start = initial(UploadTaskView::Upload { path, content, options });
            let verdict = detect(content.len(), Ok(metadata));
            &&& verdict matches ConflictResultView::Conflict { local_size, remote_size, .. }
                && local_size == content.len() && remote_size == metadata.size
            &&& actions_of(start, events) == seq![
                StoreActionView::GetMetadata { path },
                StoreActionView::Download { path, conflict: detect(content.len(), Ok(metadata)) },
                StoreActionView::Done(Err(UploadErrorView::Conflict { path, conflict: verdict })),
            ]
            &&& state_after(start, events) == (UploadQueueView {
                pending: seq![
                    UploadTaskView::Backup {
                        original_path: path,
                        backup_path: backup_name(path, t1 as int),
                        content: remote_bytes,
                    },
                ],
                stage: StageView::Finished,
            })
        }),
{
    let start = initial(UploadTaskView::Upload { path, content, options });
    let begin = Timed { event: StoreEventView::Begin, now: t0 };
    let fetched = Timed { event: StoreEventView::Metadata(Ok(metadata)), now: t1 };
    let loaded = Timed { event: StoreEventView::Content(Ok(remote_bytes)), now: t2 };
    let checking = next_step(start, begin.event, begin.now).0;
    let fetching = next_step(checking, fetched.event, fetched.now).0;
    let ended = next_step(fetching, loaded.event, loaded.now).0;
    let none = Seq::<Timed>::empty();
    assert(start.pending.drop_first() =~= Seq::empty());
    assert(conflict_events(metadata, t0, t1) + seq![loaded] =~= seq![begin] + (seq![fetched] + (
    seq![loaded] + none)));
    lemma_run_unfolds(start, begin, seq![fetched] + (seq![loaded] + none));
    lemma_run_unfolds(checking, fetched, seq![loaded] + none);
    lemma_run_unfolds(fetching, loaded, none);
    assert(actions_of(ended, none) =~= Seq::empty());
    assert(ended.pending =~= seq![
        UploadTaskView::Backup {
            original_path: path,
            backup_path: backup_name(path, t1 as int),
            content: remote_bytes,
        },
    ]);
    let verdict = detect(content.len(), Ok(metadata));
    assert(actions_of(start, conflict_events(metadata, t0, t1) + seq![loaded]) =~= seq![
        StoreActionView::GetMetadata { path },
        StoreActionView::Download { path, conflict: detect(content.len(), Ok(metadata)) },
        StoreActionView::Done(Err(UploadErrorView::Conflict { path, conflict: verdict })),
    ]);
}

/// A conflict with `autorename` on, where the store serves every call: the
/// run uploads the local content once, in add mode with `autorename`, then
/// stores the backup of the remote bytes in overwrite mode, and ends with
/// success. The upload of the local content is the only one in add mode.
pub proof fn lemma_conflict_with_autorename_completes(
    path: Seq<char>,
    content: Seq<u8>,
    options: UploadOptions,
    metadata: FileMetadataView,
    remote_bytes: Seq<u8>,
    first_reply: UploadReplyView,
    second_reply: UploadReplyView,
    times: Seq<i64>,
)
    requires
        checks_remote(options),
        options.autorename,
        metadata.size != content.len(),
        is_success(first_reply.status),
        is_success(second_reply.status),
        times.len() == 5,
    ensures
        ({
            let events = conflict_events(metadata, times[0], times[1]) + seq![
                Timed { event: StoreEventView::Content(Ok(remote_bytes)), now: times[2] },
                Timed { event: StoreEventView::Uploaded(Ok(first_reply)), now: times[3] },
                Timed { event: StoreEventView::Uploaded(Ok(second_reply)), now: times[4] },
            ];
            let start = initial(UploadTaskView::Upload { path, content, options });
            let actions = actions_of(start, events);
            &&& actions == seq![
                StoreActionView::GetMetadata { path },
                StoreActionView::Download { path, conflict: detect(content.len(), Ok(metadata)) },
                StoreActionView::Upload(upload_request(path, content, options)),
                StoreActionView::Upload(
                    backup_request(path, backup_name(path, times[1] as int), remote_bytes),
                ),
                StoreActionView::Done(Ok(())),
            ]
            &&& upload_request(path, content, options).mode == WriteMode::Add
            &&& upload_request(path, content, options).autorename
            &&& forall|i: int|
                0 <= i < actions.len() ==> ((#[trigger] actions[i] matches StoreActionView::Upload(
                    request,
                ) && request.mode == WriteMode::Add) <==> i == 2)
            &&& state_after(start, events) == (UploadQueueView {
                pending: Seq::empty(),
                stage: StageView::Finished,
            })
        }),
{
    let start = initial(UploadTaskView::Upload { path, content, options });
    let e0 = Timed { event: StoreEventView::Begin, now: times[0] };
    let e1 = Timed { event: StoreEventView::Metadata(Ok(metadata)), now: times[1] };
    let e2 = Timed { event: StoreEventView::Content(Ok(remote_bytes)), now: times[2] };
    let e3 = Timed { event: StoreEventView::Uploaded(Ok(first_reply)), now: times[3] };
    let e4 = Timed { event: StoreEventView::Uploaded(Ok(second_reply)), now: times[4] };
    let none = Seq::<Timed>::empty();
    let s1 = next_step(start, e0.event, e0.now).0;
    let s2 = next_step(s1, e1.event, e1.now).0;
    let s3 = next_step(s2, e2.event, e2.now).0;
    let s4 = next_step(s3, e3.event, e3.now).0;
    let s5 = next_step(s4, e4.event, e4.now).0;
    let backup = UploadTaskView::Backup {
        original_path: path,
        backup_path: backup_name(path, times[1] as int),
        content: remote_bytes,
    };
    assert(start.pending.drop_first() =~= Seq::empty());
    assert(s2.pending =~= Seq::empty());
    assert(s3.pending =~= seq![backup]);
    assert(s3.pending.drop_first() =~= Seq::empty());
    assert(s4.pending =~= Seq::empty());
    assert(s5.pending =~= Seq::empty());
    let events = conflict_events(metadata, times[0], times[1]) + seq![e2, e3, e4];
    assert(events =~= seq![e0] + (seq![e1] + (seq![e2] + (seq![e3] + (seq![e4] + none)))));
    lemma_run_unfolds(start, e0, seq![e1] + (seq![e2] + (seq![e3] + (seq![e4] + none))));
    lemma_run_unfolds(s1, e1, seq![e2] + (seq![e3] + (seq![e4] + none)));
    lemma_run_unfolds(s2, e2, seq![e3] + (seq![e4] + none));
    lemma_run_unfolds(s3, e3, seq![e4] + none);
    lemma_run_unfolds(s4, e4, none);
    assert(actions_of(s5, none) =~= Seq::empty());
    let actions = actions_of(start, events);
    assert(actions =~= seq![
        StoreActionView::GetMetadata { path },
        StoreActionView::Download { path, conflict: detect(content.len(), Ok(metadata)) },
        StoreActionView::Upload(upload_request(path, content, options)),
        StoreActionView::Upload(
            backup_request(path, backup_name(path, times[1] as int), remote_bytes),
        ),
        StoreActionView::Done(Ok(())),
    ]);
}

/// A backup is terminal: a run on a backup task asks for no descriptor and
/// for no download, whatever the store answers, so a backup never leads to
/// a check or to another backup.
pub proof fn lemma_backup_is_terminal(
    original_path: Seq<char>,
    backup_path: Seq<char>,
    content: Seq<u8>,
    events: Seq<Timed>,
)
    ensures
        forall|i: int|
            0 <= i < events.len() ==> {
                let action = #[trigger] actions_of(
                    initial(UploadTaskView::Backup { original_path, backup_path, content }),
                    events,
                )[i];
                action is Upload || action is Done
            },
{
    let start = initial(UploadTaskView::Backup { original_path, backup_path, content });
    assert(never_checks(start));
    lemma_never_checks_run(start, events);
    lemma_one_action_per_event(start, events);
}

/// The queue grows by one task at most in a step, and only where the remote
/// bytes of a conflict arrive: then the backup of those bytes joins the
/// queue. No other step adds a task.
pub proof fn lemma_queue_grows_by_backups_only(
    queue: UploadQueueView,
    event: StoreEventView,
    now: i64,
)
    ensures
        next_step(queue, event, now).0.pending.len() <= queue.pending.len() + 1,
        next_step(queue, event, now).0.pending.len() > queue.pending.len() ==> {
            &&& queue.stage is Fetching
            &&& event matches StoreEventView::Content(Ok(_))
            &&& next_step(queue, event, now).0.pending.last() is Backup
        },
{
}

/// A fetch of the descriptor that fails other than by not-found ends the
/// run with a detection error that carries the reason, whatever the reason's
/// text holds. The run issues no upload and no download, then or later: the
/// failure is never taken as leave to write.
pub proof fn lemma_failed_detection_never_uploads(
    path: Seq<char>,
    content: Seq<u8>,
    options: UploadOptions,
    reason: Seq<char>,
    t0: i64,
    t1: i64,
    rest: Seq<Timed>,
)
    requires
        checks_remote(options),
    ensures
        ({
            let actions = actions_of(
                initial(UploadTaskView::Upload { path, content, options }),
                seq![
                    Timed { event: StoreEventView::Begin, now: t0 },
                    Timed {
                        event: StoreEventView::Metadata(Err(FetchFailureView::Other(reason))),
                        now: t1,
                    },
                ] + rest,
            );
            &&& actions.len() == 2 + rest.len()
            &&& actions[0] == StoreActionView::GetMetadata { path }
            &&& actions[1] == StoreActionView::Done(
                Err(UploadErrorView::Detection { message: reason }),
            )
            &&& forall|i: int|
                0 <= i < actions.len() ==> !(#[trigger] actions[i] is Upload) && !(actions[i]
                    is Download)
            &&& forall|i: int|
                1 <= i < actions.len() ==> (#[trigger] actions[i] matches StoreActionView::Done(
                    outcome,
                ) && outcome is Err)
        }),
{
    let start = initial(UploadTaskView::Upload { path, content, options });
    let begin = Timed { event: StoreEventView::Begin, now: t0 };
    let failed = Timed {
        event: StoreEventView::Metadata(Err(FetchFailureView::Other(reason))),
        now: t1,
    };
    let checking = next_step(start, begin.event, begin.now).0;
    let ended = next_step(checking, failed.event, failed.now).0;
    assert(start.pending.drop_first() =~= Seq::empty());
    assert(seq![begin, failed] + rest =~= seq![begin] + (seq![failed] + rest));
    lemma_run_unfolds(start, begin, seq![failed] + rest);
    lemma_run_unfolds(checking, failed, rest);
    assert(bound_to_fail(ended));
    lemma_bound_to_fail_run(ended, rest);
    lemma_one_action_per_event(ended, rest);
    let tail = actions_of(ended, rest);
    let actions = actions_of(start, seq![begin, failed] + rest);
    assert(actions =~= seq![
        StoreActionView::GetMetadata { path },
        StoreActionView::Done(Err(UploadErrorView::Detection { message: reason })),
    ] + tail);
    assert forall|i: int| 2 <= i < actions.len() implies (#[trigger] actions[i] matches StoreActionView::Done(
        outcome,
    ) && outcome is Err) by {
        assert(actions[i] == tail[i - 2]);
    }
}

/// A conflict whose remote bytes cannot be fetched ends the run with a
/// download error that carries the reason, with `autorename` on or off. The
/// run issues no upload, then or later, and no backup joins the queue.
pub proof fn lemma_failed_download_never_uploads(
    path: Seq<char>,
    content: Seq<u8>,
    options: UploadOptions,
    metadata: FileMetadataView,
    reason: Seq<char>,
    t0: i64,
    t1: i64,
    t2: i64,
    rest: Seq<Timed>,
)
    requires
        checks_remote(options),
        metadata.size != content.len(),
    ensures
        ({
            let actions = actions_of(
                initial(UploadTaskView::Upload { path, content, options }),
                conflict_events(metadata, t0, t1) + seq![
                    Timed { event: StoreEventView::Content(Err(reason)), now: t2 },
                ] + rest,
            );
            &&& actions.len() == 3 + rest.len()
            &&& actions[0] == StoreActionView::GetMetadata { path }
            &&& actions[1] == StoreActionView::Download {
                path,
                conflict: detect(content.len(), Ok(metadata)),
            }
            &&& actions[2] == StoreActionView::Done(
                Err(UploadErrorView::Download { path, message: reason }),
            )
            &&& forall|i: int| 0 <= i < actions.len() ==> !(#[trigger] actions[i] is Upload)
        }),
{
    let start = initial(UploadTaskView::Upload { path, content, options });
    let begin = Timed { event: StoreEventView::Begin, now: t0 };
    let fetched = Timed { event: StoreEventView::Metadata(Ok(metadata)), now: t1 };
    let failed = Timed { event: StoreEventView::Content(Err(reason)), now: t2 };
    let checking = next_step(start, begin.event, begin.now).0;
    let fetching = next_step(checking, fetched.event, fetched.now).0;
    let ended = next_step(fetching, failed.event, failed.now).0;
    assert(start.pending.drop_first() =~= Seq::empty());
    let events = conflict_events(metadata, t0, t1) + seq![failed] + rest;
    assert(events =~= seq![begin] + (seq![fetched] + (seq![failed] + rest)));
    lemma_run_unfolds(start, begin, seq![fetched] + (seq![failed] + rest));
    lemma_run_unfolds(checking, fetched, seq![failed] + rest);
    lemma_run_unfolds(fetching, failed, rest);
    assert(bound_to_fail(ended));
    lemma_bound_to_fail_run(ended, rest);
    lemma_one_action_per_event(ended, rest);
    let tail = actions_of(ended, rest);
    let actions = actions_of(start, events);
    assert(actions =~= seq![
        StoreActionView::GetMetadata { path },
        StoreActionView::Download { path, conflict: detect(content.len(), Ok(metadata)) },
        StoreActionView::Done(Err(UploadErrorView::Download { path, message: reason })),
    ] + tail);
    assert forall|i: int| 0 <= i < actions.len() implies !(#[trigger] actions[i] is Upload) by {
        if i >= 3 {
            assert(actions[i] == tail[i - 3]);
        }
    }
}

/// Where the remote object does not exist there is nothing to protect: the
/// run asks for the descriptor and then uploads the local content, with no
/// download and no backup.
pub proof fn lemma_missing_object_uploads_at_once(
    path: Seq<char>,
    content: Seq<u8>,
    options: UploadOptions,
    t0: i64,
    t1: i64,
)
    requires
        checks_remote(options),
    ensures
        actions_of(
            initial(UploadTaskView::Upload { path, content, options }),
            seq![
                Timed { event: StoreEventView::Begin, now: t0 },
                Timed { event: StoreEventView::Metadata(Err(FetchFailureView::NotFound)), now: t1 },
            ],
        ) == seq![
            StoreActionView::GetMetadata { path },
            StoreActionView::Upload(upload_request(path, content, options)),
        ],
{
    let start = initial(UploadTaskView::Upload { path, content, options });
    let begin = Timed { event: StoreEventView::Begin, now: t0 };
    let missing = Timed {
        event: StoreEventView::Metadata(Err(FetchFailureView::NotFound)),
        now: t1,
    };
    let none = Seq::<Timed>::empty();
    let checking = next_step(start, begin.event, begin.now).0;
    let sending = next_step(checking, missing.event, missing.now).0;
    assert(start.pending.drop_first() =~= Seq::empty());
    assert(seq![begin, missing] =~= seq![begin] + (seq![missing] + none));
    lemma_run_unfolds(start, begin, seq![missing] + none);
    lemma_run_unfolds(checking, missing, none);
    assert(actions_of(sending, none) =~= Seq::empty());
    assert(actions_of(start, seq![begin, missing]) =~= seq![
        StoreActionView::GetMetadata { path },
        StoreActionView::Upload(upload_request(path, content, options)),
    ]);
}

} // verus!
