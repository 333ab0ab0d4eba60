use boxdrop_sync_daemon::dropbox::batch::{BatchAction, BatchUpload};
use boxdrop_sync_daemon::dropbox::client::{FetchFailure, FileMetadata};
use boxdrop_sync_daemon::dropbox::directory::{
    join_path, relative_path, upload_local_file, DirectoryUpload, EntryKind, ListedEntry,
    LocalEntry, LocalRead, WalkAction, WalkError, WalkEvent,
};
use boxdrop_sync_daemon::dropbox::operations::{ConflictResult, UploadOptions};
use boxdrop_sync_daemon::dropbox::queue::{
    StoreAction, StoreEvent, UploadError, UploadQueue, UploadReply, UploadRequest, UploadTask,
    WriteMode,
};
use std::collections::BTreeMap;
use std::path::PathBuf;

const NOW: i64 = 1_700_000_000;

/// A store that lives in memory and keeps a record of every call.
struct FakeStore {
    objects: BTreeMap<String, Vec<u8>>,
    rejected: Vec<String>,
    unreachable: Vec<String>,
    broken_metadata: Vec<String>,
    broken_download: Vec<String>,
    calls: Vec<String>,
    uploads: Vec<UploadRequest>,
}

fn store() -> FakeStore {
    FakeStore {
        objects: BTreeMap::new(),
        rejected: Vec::new(),
        unreachable: Vec::new(),
        broken_metadata: Vec::new(),
        broken_download: Vec::new(),
        calls: Vec::new(),
        uploads: Vec::new(),
    }
}

fn descriptor(path: &str, size: u64) -> FileMetadata {
    FileMetadata {
        name: path.to_string(),
        path_lower: path.to_string(),
        path_display: path.to_string(),
        id: "id".to_string(),
        client_modified: None,
        server_modified: Some("2024-01-01T00:00:00Z".to_string()),
        rev: "rev".to_string(),
        size,
        is_downloadable: true,
        content_hash: Some("hash".to_string()),
        tag: "file".to_string(),
    }
}

fn answer(store: &mut FakeStore, action: StoreAction) -> StoreEvent {
    match action {
        StoreAction::GetMetadata { path } => {
            store.calls.push(format!("get_metadata {}", path));
            if store.broken_metadata.contains(&path) {
                StoreEvent::Metadata(Err(FetchFailure::Other(format!(
                    "Failed to get metadata for {}: connection refused",
                    path
                ))))
            } else {
                match store.objects.get(&path) {
                    Some(bytes) => StoreEvent::Metadata(Ok(descriptor(&path, bytes.len() as u64))),
                    None => StoreEvent::Metadata(Err(FetchFailure::NotFound)),
                }
            }
        }
        StoreAction::Download { path, conflict } => {
            assert!(matches!(conflict, ConflictResult::Conflict { .. }));
            store.calls.push(format!("download {}", path));
            if store.broken_download.contains(&path) {
                StoreEvent::Content(Err("Failed to download file: HTTP 503".to_string()))
            } else {
                StoreEvent::Content(Ok(store.objects.get(&path).cloned().unwrap_or_default()))
            }
        }
        StoreAction::Upload(request) => {
            store.calls.push(format!("upload {}", request.path));
            let path = request.path.clone();
            let content = request.content.clone();
            store.uploads.push(request);
            if store.unreachable.contains(&path) {
                StoreEvent::Uploaded(Err("connection refused".to_string()))
            } else if store.rejected.contains(&path) {
                StoreEvent::Uploaded(Ok(UploadReply { status: 500, detail: "boom".to_string() }))
            } else {
                store.objects.insert(path, content);
                StoreEvent::Uploaded(Ok(UploadReply { status: 200, detail: String::new() }))
            }
        }
        StoreAction::Done(_) => panic!("a finished run asks for nothing"),
    }
}

fn upload(path: &str, content: &[u8], options: UploadOptions) -> UploadTask {
    UploadTask::Upload { path: path.to_string(), content: content.to_vec(), options }
}

/// Drives a run to its end and returns the outcome with what was left in
/// the queue.
fn run(store: &mut FakeStore, task: UploadTask) -> (Result<(), UploadError>, Vec<UploadTask>) {
    let mut queue = UploadQueue::new(task);
    let mut event = StoreEvent::Begin;
    loop {
        let (next, action) = queue.step_at(event, NOW);
        queue = next;
        match action {
            StoreAction::Done(outcome) => {
                assert!(queue.is_finished());
                return (outcome, queue.into_pending().into_iter().collect());
            }
            other => {
                assert!(!queue.is_finished());
                event = answer(store, other);
            }
        }
    }
}

fn options(overwrite: bool, create_backup: bool, autorename: bool, mute: bool) -> UploadOptions {
    UploadOptions { overwrite, create_backup, autorename, mute }
}

#[test]
fn a_new_file_is_uploaded_in_add_mode() {
    let mut store = store();
    let (outcome, left) = run(&mut store, upload("/a.txt", b"hello", UploadOptions::default()));
    assert!(outcome.is_ok());
    assert!(left.is_empty());
    assert_eq!(store.calls, vec!["get_metadata /a.txt", "upload /a.txt"]);
    let request = &store.uploads[0];
    assert_eq!(request.path, "/a.txt");
    assert_eq!(request.content, b"hello");
    assert_eq!(request.mode, WriteMode::Add);
    assert_eq!(request.autorename, false);
    assert_eq!(request.mute, false);
}

#[test]
fn a_remote_object_of_equal_size_is_no_conflict() {
    let mut store = store();
    store.objects.insert("/a.txt".to_string(), b"HELLO".to_vec());
    let (outcome, left) = run(&mut store, upload("/a.txt", b"hello", UploadOptions::default()));
    assert!(outcome.is_ok());
    assert!(left.is_empty());
    assert_eq!(store.calls, vec!["get_metadata /a.txt", "upload /a.txt"]);
}

#[test]
fn overwrite_never_looks_at_the_remote_object() {
    let mut store = store();
    store.objects.insert("/a.txt".to_string(), b"something longer".to_vec());
    let (outcome, left) = run(&mut store, upload("/a.txt", b"hello", options(true, true, false, true)));
    assert!(outcome.is_ok());
    assert!(left.is_empty());
    assert_eq!(store.calls, vec!["upload /a.txt"]);
    assert_eq!(store.uploads[0].mode, WriteMode::Overwrite);
    assert_eq!(store.uploads[0].mute, true);
    assert_eq!(store.objects["/a.txt"], b"hello");
}

#[test]
fn without_backups_there_is_no_check_either() {
    let mut store = store();
    store.objects.insert("/a.txt".to_string(), b"something longer".to_vec());
    let (outcome, _) = run(&mut store, upload("/a.txt", b"hello", options(false, false, true, false)));
    assert!(outcome.is_ok());
    assert_eq!(store.calls, vec!["upload /a.txt"]);
    assert_eq!(store.uploads[0].mode, WriteMode::Add);
    assert_eq!(store.uploads[0].autorename, true);
}

#[test]
fn a_conflict_without_autorename_ends_in_a_conflict_error() {
    let mut store = store();
    store.objects.insert("/a.txt".to_string(), b"remote!".to_vec());
    let (outcome, _) = run(&mut store, upload("/a.txt", b"hello", UploadOptions::default()));
    match outcome {
        Err(UploadError::Conflict { path, conflict }) => {
            assert_eq!(path, "/a.txt");
            match conflict {
                ConflictResult::Conflict { local_size, remote_size, remote_hash, .. } => {
                    assert_eq!(local_size, 5);
                    assert_eq!(remote_size, 7);
                    assert_eq!(remote_hash, Some("hash".to_string()));
                }
                other => panic!("no conflict carried: {:?}", other),
            }
        }
        other => panic!("no conflict error: {:?}", other),
    }
    // Nothing was uploaded: the remote object is as it was.
    assert_eq!(store.calls, vec!["get_metadata /a.txt", "download /a.txt"]);
    assert!(store.uploads.is_empty());
    assert_eq!(store.objects["/a.txt"], b"remote!");
}

#[test]
fn a_conflict_without_autorename_leaves_its_backup_in_the_queue() {
    // The backup is scheduled before the run gives up, and the run gives up
    // before the queue is drained: the backup is never uploaded.
    let mut store = store();
    store.objects.insert("/a.txt".to_string(), b"remote!".to_vec());
    let (outcome, left) = run(&mut store, upload("/a.txt", b"hello", UploadOptions::default()));
    assert!(outcome.is_err());
    assert_eq!(left.len(), 1);
    match &left[0] {
        UploadTask::Backup { original_path, backup_path, content } => {
            assert_eq!(original_path, "/a.txt");
            assert_eq!(backup_path, "/a.txt.backup.1700000000");
            assert_eq!(content, b"remote!");
        }
        other => panic!("no backup left: {:?}", other),
    }
    assert!(!store.objects.contains_key("/a.txt.backup.1700000000"));
}

#[test]
fn a_conflict_with_autorename_uploads_once_and_then_backs_up() {
    let mut store = store();
    store.objects.insert("/a.txt".to_string(), b"remote!".to_vec());
    let (outcome, left) = run(&mut store, upload("/a.txt", b"hello", options(false, true, true, false)));
    assert!(outcome.is_ok());
    assert!(left.is_empty());
    assert_eq!(
        store.calls,
        vec![
            "get_metadata /a.txt",
            "download /a.txt",
            "upload /a.txt",
            "upload /a.txt.backup.1700000000",
        ]
    );
    let renamed: Vec<&UploadRequest> =
        store.uploads.iter().filter(|r| r.mode == WriteMode::Add && r.autorename).collect();
    assert_eq!(renamed.len(), 1);
    assert_eq!(renamed[0].path, "/a.txt");
    assert_eq!(renamed[0].content, b"hello");
    assert_eq!(renamed[0].backup_of, None);
    let backup = &store.uploads[1];
    assert_eq!(backup.backup_of, Some("/a.txt".to_string()));
    assert_eq!(backup.mode, WriteMode::Overwrite);
    assert_eq!(backup.autorename, false);
    assert_eq!(backup.mute, true);
    assert_eq!(backup.content, b"remote!");
}

#[test]
fn a_detection_error_is_fatal() {
    let mut store = store();
    store.broken_metadata.push("/a.txt".to_string());
    let (outcome, _) = run(&mut store, upload("/a.txt", b"hello", UploadOptions::default()));
    match outcome {
        Err(UploadError::Detection { message }) => {
            assert_eq!(message, "Failed to get metadata for /a.txt: connection refused")
        }
        other => panic!("no detection error: {:?}", other),
    }
    assert_eq!(store.calls, vec!["get_metadata /a.txt"]);
    assert!(store.uploads.is_empty());
}

#[test]
fn a_refused_connection_on_a_path_that_looks_missing_is_fatal() {
    // The path carries the store's not-found marker; the call never reached
    // the store. Nothing is uploaded.
    let mut store = store();
    store.broken_metadata.push("/not_found.txt".to_string());
    let (outcome, left) =
        run(&mut store, upload("/not_found.txt", b"abc", UploadOptions::default()));
    match outcome {
        Err(UploadError::Detection { message }) => {
            assert_eq!(message, "Failed to get metadata for /not_found.txt: connection refused")
        }
        other => panic!("no detection error: {:?}", other),
    }
    assert!(left.is_empty());
    assert_eq!(store.calls, vec!["get_metadata /not_found.txt"]);
    assert!(store.uploads.is_empty());
    assert!(store.objects.is_empty());
}

#[test]
fn a_download_carries_the_verdict_of_the_check() {
    let queue = UploadQueue::new(upload("/a.txt", b"hello", UploadOptions::default()));
    let (queue, _) = queue.step_at(StoreEvent::Begin, NOW);
    let (_, action) = queue.step_at(StoreEvent::Metadata(Ok(descriptor("/a.txt", 7))), NOW);
    match action {
        StoreAction::Download {
            path,
            conflict: ConflictResult::Conflict { local_size, remote_size, remote_hash, .. },
        } => {
            assert_eq!(path, "/a.txt");
            assert_eq!(local_size, 5);
            assert_eq!(remote_size, 7);
            assert_eq!(remote_hash, Some("hash".to_string()));
        }
        other => panic!("no download asked for: {:?}", other),
    }
}

#[test]
fn a_task_can_be_copied() {
    let task = upload("/a.txt", b"hello", options(true, false, true, false));
    match task.clone() {
        UploadTask::Upload { path, content, options } => {
            assert_eq!(path, "/a.txt");
            assert_eq!(content, b"hello");
            assert!(options.overwrite && options.autorename);
        }
        other => panic!("wrong copy: {:?}", other),
    }
    let task = UploadTask::Backup {
        original_path: "/a".to_string(),
        backup_path: "/a.backup.1".to_string(),
        content: vec![1, 2],
    };
    match task.clone() {
        UploadTask::Backup { original_path, backup_path, content } => {
            assert_eq!(original_path, "/a");
            assert_eq!(backup_path, "/a.backup.1");
            assert_eq!(content, vec![1, 2]);
        }
        other => panic!("wrong copy: {:?}", other),
    }
}

#[test]
fn a_failed_download_of_the_remote_version_is_fatal() {
    let mut store = store();
    store.objects.insert("/a.txt".to_string(), b"remote!".to_vec());
    store.broken_download.push("/a.txt".to_string());
    let (outcome, left) = run(&mut store, upload("/a.txt", b"hello", options(false, true, true, false)));
    match outcome {
        Err(UploadError::Download { path, message }) => {
            assert_eq!(path, "/a.txt");
            assert_eq!(message, "Failed to download file: HTTP 503");
        }
        other => panic!("no download error: {:?}", other),
    }
    assert!(left.is_empty());
    assert!(store.uploads.is_empty());
}

#[test]
fn a_rejected_upload_is_fatal() {
    let mut store = store();
    store.rejected.push("/a.txt".to_string());
    let (outcome, _) = run(&mut store, upload("/a.txt", b"hello", UploadOptions::default()));
    match outcome {
        Err(UploadError::Rejected { path, backup, status, detail }) => {
            assert_eq!(path, "/a.txt");
            assert_eq!(backup, false);
            assert_eq!(status, 500);
            assert_eq!(detail, "boom");
        }
        other => panic!("no rejection: {:?}", other),
    }
}

#[test]
fn an_upload_that_does_not_reach_the_store_is_fatal() {
    let mut store = store();
    store.unreachable.push("/a.txt".to_string());
    let (outcome, _) = run(&mut store, upload("/a.txt", b"hello", options(true, false, false, false)));
    match outcome {
        Err(UploadError::Transport { path, backup, message }) => {
            assert_eq!(path, "/a.txt");
            assert_eq!(backup, false);
            assert_eq!(message, "connection refused");
        }
        other => panic!("no transport error: {:?}", other),
    }
}

#[test]
fn a_rejected_backup_is_fatal_too() {
    let mut store = store();
    store.objects.insert("/a.txt".to_string(), b"remote!".to_vec());
    store.rejected.push("/a.txt.backup.1700000000".to_string());
    let (outcome, _) = run(&mut store, upload("/a.txt", b"hello", options(false, true, true, false)));
    match outcome {
        Err(UploadError::Rejected { path, backup, status, .. }) => {
            assert_eq!(path, "/a.txt.backup.1700000000");
            assert_eq!(backup, true);
            assert_eq!(status, 500);
        }
        other => panic!("no rejection: {:?}", other),
    }
}

#[test]
fn a_backup_task_uploads_without_any_check() {
    let mut store = store();
    store.objects.insert("/b".to_string(), b"old backup".to_vec());
    let task = UploadTask::Backup {
        original_path: "/a".to_string(),
        backup_path: "/b".to_string(),
        content: b"kept".to_vec(),
    };
    let (outcome, left) = run(&mut store, task);
    assert!(outcome.is_ok());
    assert!(left.is_empty());
    assert_eq!(store.calls, vec!["upload /b"]);
    assert_eq!(store.uploads[0].mode, WriteMode::Overwrite);
    assert_eq!(store.uploads[0].mute, true);
    assert_eq!(store.uploads[0].autorename, false);
    assert_eq!(store.uploads[0].backup_of, Some("/a".to_string()));
}

#[test]
fn every_status_from_200_to_299_is_a_success() {
    for status in [200u16, 201, 204, 299] {
        let queue = UploadQueue::new(upload("/a", b"x", options(true, false, false, false)));
        let (queue, _) = queue.step_at(StoreEvent::Begin, NOW);
        let reply = UploadReply { status, detail: String::new() };
        let (_, action) = queue.step_at(StoreEvent::Uploaded(Ok(reply)), NOW);
        assert!(matches!(action, StoreAction::Done(Ok(()))));
    }
    for status in [100u16, 199, 300, 404, 500] {
        let queue = UploadQueue::new(upload("/a", b"x", options(true, false, false, false)));
        let (queue, _) = queue.step_at(StoreEvent::Begin, NOW);
        let reply = UploadReply { status, detail: "no".to_string() };
        let (_, action) = queue.step_at(StoreEvent::Uploaded(Ok(reply)), NOW);
        assert!(matches!(action, StoreAction::Done(Err(UploadError::Rejected { .. }))));
    }
}

#[test]
fn an_answer_that_was_not_awaited_ends_the_run() {
    let queue = UploadQueue::new(upload("/a", b"x", UploadOptions::default()));
    let (queue, action) = queue.step_at(StoreEvent::Content(Ok(vec![1])), NOW);
    assert!(matches!(action, StoreAction::Done(Err(UploadError::UnexpectedEvent))));
    assert!(queue.is_finished());
    assert_eq!(queue.pending_len(), 1);
    let (queue, action) = queue.step_at(StoreEvent::Begin, NOW);
    assert!(matches!(action, StoreAction::Done(Err(UploadError::UnexpectedEvent))));
    assert!(queue.is_finished());

    let queue = UploadQueue::new(upload("/a", b"x", UploadOptions::default()));
    let (queue, _) = queue.step_at(StoreEvent::Begin, NOW);
    let (_, action) = queue.step_at(StoreEvent::Begin, NOW);
    assert!(matches!(action, StoreAction::Done(Err(UploadError::UnexpectedEvent))));
}

#[test]
fn the_clock_names_the_backup_when_no_time_is_given() {
    let queue = UploadQueue::new(upload("/a.txt", b"hello", UploadOptions::default()));
    let (queue, _) = queue.step(StoreEvent::Begin);
    let event = StoreEvent::Metadata(Ok(descriptor("/a.txt", 7)));
    assert!(queue.reads_clock(&event));
    let (queue, action) = queue.step(event);
    assert!(matches!(action, StoreAction::Download { .. }));
    let (queue, action) = queue.step(StoreEvent::Content(Ok(b"remote!".to_vec())));
    assert!(matches!(action, StoreAction::Done(Err(UploadError::Conflict { .. }))));
    let left: Vec<UploadTask> = queue.into_pending().into_iter().collect();
    match &left[0] {
        UploadTask::Backup { backup_path, .. } => {
            let seconds = backup_path.strip_prefix("/a.txt.backup.").unwrap();
            let seconds: i64 = seconds.parse().unwrap();
            assert!(seconds > 1_600_000_000);
        }
        other => panic!("no backup left: {:?}", other),
    }
}

#[test]
fn the_clock_is_not_read_without_a_conflict() {
    let queue = UploadQueue::new(upload("/a.txt", b"hello", UploadOptions::default()));
    assert!(!queue.reads_clock(&StoreEvent::Begin));
    let (queue, _) = queue.step(StoreEvent::Begin);
    assert!(!queue.reads_clock(&StoreEvent::Metadata(Ok(descriptor("/a.txt", 5)))));
    assert!(!queue.reads_clock(&StoreEvent::Metadata(Err(FetchFailure::NotFound))));
    assert!(!queue.reads_clock(&StoreEvent::Metadata(Err(FetchFailure::Other("x".to_string())))));
    assert!(!queue.reads_clock(&StoreEvent::Begin));
}

fn run_batch(store: &mut FakeStore, files: Vec<(String, Vec<u8>)>) -> Vec<Result<(), UploadError>> {
    let (mut batch, mut action) = BatchUpload::start(files);
    loop {
        match action {
            BatchAction::Finished => {
                assert!(batch.is_finished());
                return batch.into_results();
            }
            BatchAction::Store(inner) => {
                assert!(!batch.is_finished());
                let event = answer(store, inner);
                let (next, following) = batch.step_at(event, NOW);
                batch = next;
                action = following;
            }
        }
    }
}

#[test]
fn a_batch_keeps_the_success_of_one_file_beside_the_failure_of_another() {
    let mut store = store();
    store.rejected.push("/b.txt".to_string());
    let results = run_batch(
        &mut store,
        vec![("/a.txt".to_string(), b"valid".to_vec()), ("/b.txt".to_string(), b"bad".to_vec())],
    );
    assert_eq!(results.len(), 2);
    assert!(results[0].is_ok());
    match &results[1] {
        Err(UploadError::Rejected { path, status, .. }) => {
            assert_eq!(path, "/b.txt");
            assert_eq!(*status, 500);
        }
        other => panic!("no failure for the second file: {:?}", other),
    }
    assert_eq!(store.objects["/a.txt"], b"valid");
}

#[test]
fn a_batch_goes_on_after_a_failure() {
    let mut store = store();
    store.objects.insert("/a.txt".to_string(), b"remote!".to_vec());
    store.broken_metadata.push("/b.txt".to_string());
    let results = run_batch(
        &mut store,
        vec![
            ("/a.txt".to_string(), b"hello".to_vec()),
            ("/b.txt".to_string(), b"b".to_vec()),
            ("/c.txt".to_string(), b"c".to_vec()),
        ],
    );
    assert_eq!(results.len(), 3);
    assert!(matches!(results[0], Err(UploadError::Conflict { .. })));
    assert!(matches!(results[1], Err(UploadError::Detection { .. })));
    assert!(results[2].is_ok());
    assert_eq!(store.objects["/c.txt"], b"c");
}

#[test]
fn an_empty_batch_is_over_at_once() {
    let (batch, action) = BatchUpload::start(Vec::new());
    assert!(matches!(action, BatchAction::Finished));
    assert!(batch.is_finished());
    let (batch, action) = batch.step_at(StoreEvent::Begin, NOW);
    assert!(matches!(action, BatchAction::Finished));
    assert!(batch.into_results().is_empty());
}

#[test]
fn a_batch_step_reads_the_clock_where_needed() {
    let (batch, action) = BatchUpload::start(vec![("/a.txt".to_string(), b"hello".to_vec())]);
    assert!(matches!(action, BatchAction::Store(StoreAction::GetMetadata { .. })));
    let (batch, action) = batch.step(StoreEvent::Metadata(Ok(descriptor("/a.txt", 7))));
    assert!(matches!(action, BatchAction::Store(StoreAction::Download { .. })));
    let (batch, action) = batch.step(StoreEvent::Content(Ok(b"remote!".to_vec())));
    assert!(matches!(action, BatchAction::Finished));
    let results = batch.into_results();
    assert!(matches!(results[0], Err(UploadError::Conflict { .. })));
}

/// A local tree that lives in memory: directories with their entries in
/// listing order, and files with their bytes.
struct FakeTree {
    directories: BTreeMap<PathBuf, Vec<(String, EntryKind)>>,
    files: BTreeMap<PathBuf, Vec<u8>>,
    unlistable: Vec<PathBuf>,
    seen: Vec<String>,
}

fn listing(tree: &FakeTree, directory: &PathBuf) -> Result<Vec<ListedEntry>, String> {
    if tree.unlistable.contains(directory) {
        return Err("permission denied".to_string());
    }
    let entries = tree.directories.get(directory).cloned().unwrap_or_default();
    Ok(entries
        .into_iter()
        .map(|(name, kind)| {
            if name.starts_with('!') {
                ListedEntry::Failed(name)
            } else {
                ListedEntry::Entry(LocalEntry { path: directory.join(&name), name, kind })
            }
        })
        .collect())
}

fn read(tree: &FakeTree, file: &PathBuf) -> LocalRead {
    match tree.files.get(file) {
        Some(bytes) => LocalRead::Loaded(bytes.clone()),
        None => {
            if tree.directories.contains_key(file) {
                LocalRead::NotAFile
            } else {
                LocalRead::Missing
            }
        }
    }
}

fn walk(
    tree: &mut FakeTree,
    store: &mut FakeStore,
    root: &str,
    remote: &str,
) -> Result<(), WalkError> {
    let root = PathBuf::from(root);
    let is_dir = tree.directories.contains_key(&root);
    let present = is_dir || tree.files.contains_key(&root);
    let (mut state, mut action) = DirectoryUpload::start(root, present, is_dir, remote.to_string());
    loop {
        let event = match action {
            WalkAction::Done(outcome) => {
                assert!(state.is_finished());
                return outcome;
            }
            WalkAction::List { directory } => {
                tree.seen.push(format!("list {}", directory.display()));
                WalkEvent::Listed(listing(tree, &directory))
            }
            WalkAction::Read { file } => {
                tree.seen.push(format!("read {}", file.display()));
                WalkEvent::Read(read(tree, &file))
            }
            WalkAction::Store(inner) => WalkEvent::Store(answer(store, inner)),
        };
        let (next, following) = state.step_at(event, NOW);
        state = next;
        action = following;
    }
}

fn small_tree() -> FakeTree {
    let mut tree = FakeTree {
        directories: BTreeMap::new(),
        files: BTreeMap::new(),
        unlistable: Vec::new(),
        seen: Vec::new(),
    };
    tree.directories.insert(
        PathBuf::from("root"),
        vec![("a.txt".to_string(), EntryKind::File), ("sub".to_string(), EntryKind::Directory)],
    );
    tree.directories
        .insert(PathBuf::from("root/sub"), vec![("b.txt".to_string(), EntryKind::File)]);
    tree.files.insert(PathBuf::from("root/a.txt"), b"aaa".to_vec());
    tree.files.insert(PathBuf::from("root/sub/b.txt"), b"bb".to_vec());
    tree
}

#[test]
fn a_walk_uploads_every_file_of_the_tree() {
    let mut tree = small_tree();
    let mut store = store();
    let outcome = walk(&mut tree, &mut store, "root", "remote");
    assert!(outcome.is_ok());
    assert_eq!(store.uploads.len(), 2);
    assert_eq!(store.uploads[0].path, "remote/a.txt");
    assert_eq!(store.uploads[0].content, b"aaa");
    // A file goes to the prefix of its directory, a slash, and its path
    // relative to the root of the walk.
    assert_eq!(store.uploads[1].path, "remote/sub/sub/b.txt");
    assert_eq!(store.uploads[1].content, b"bb");
    assert_eq!(
        tree.seen,
        vec!["list root", "read root/a.txt", "list root/sub", "read root/sub/b.txt"]
    );
}

#[test]
fn a_walk_is_breadth_first() {
    let mut tree = small_tree();
    tree.directories.insert(
        PathBuf::from("root"),
        vec![
            ("sub".to_string(), EntryKind::Directory),
            ("a.txt".to_string(), EntryKind::File),
            ("pipe".to_string(), EntryKind::Other),
            ("zzz".to_string(), EntryKind::Directory),
        ],
    );
    tree.directories.insert(
        PathBuf::from("root/sub"),
        vec![("deep".to_string(), EntryKind::Directory), ("b.txt".to_string(), EntryKind::File)],
    );
    tree.directories
        .insert(PathBuf::from("root/zzz"), vec![("z.txt".to_string(), EntryKind::File)]);
    tree.directories
        .insert(PathBuf::from("root/sub/deep"), vec![("c.txt".to_string(), EntryKind::File)]);
    tree.files.insert(PathBuf::from("root/zzz/z.txt"), b"z".to_vec());
    tree.files.insert(PathBuf::from("root/sub/deep/c.txt"), b"c".to_vec());
    let mut store = store();
    let outcome = walk(&mut tree, &mut store, "root", "/remote");
    assert!(outcome.is_ok());
    let paths: Vec<&str> = store.uploads.iter().map(|r| r.path.as_str()).collect();
    assert_eq!(
        paths,
        vec![
            "/remote/a.txt",
            "/remote/sub/sub/b.txt",
            "/remote/zzz/zzz/z.txt",
            "/remote/sub/deep/sub/deep/c.txt",
        ]
    );
    assert_eq!(
        tree.seen,
        vec![
            "list root",
            "read root/a.txt",
            "list root/sub",
            "read root/sub/b.txt",
            "list root/zzz",
            "read root/zzz/z.txt",
            "list root/sub/deep",
            "read root/sub/deep/c.txt",
        ]
    );
}

#[test]
fn a_walk_over_a_missing_root_fails_at_once() {
    let mut tree = small_tree();
    let mut store = store();
    let outcome = walk(&mut tree, &mut store, "nowhere", "remote");
    assert!(matches!(outcome, Err(WalkError::NotADirectory)));
    assert!(store.calls.is_empty());
    assert!(tree.seen.is_empty());
}

#[test]
fn a_walk_over_a_file_fails_at_once() {
    let mut tree = small_tree();
    let mut store = store();
    let outcome = walk(&mut tree, &mut store, "root/a.txt", "remote");
    assert!(matches!(outcome, Err(WalkError::NotADirectory)));
    assert!(store.calls.is_empty());
    assert!(tree.seen.is_empty());
}

#[test]
fn a_walk_stops_at_the_first_failed_upload() {
    let mut tree = small_tree();
    let mut store = store();
    store.rejected.push("remote/a.txt".to_string());
    let outcome = walk(&mut tree, &mut store, "root", "remote");
    match outcome {
        Err(WalkError::Upload(UploadError::Rejected { path, .. })) => {
            assert_eq!(path, "remote/a.txt")
        }
        other => panic!("no upload failure: {:?}", other),
    }
    assert_eq!(store.uploads.len(), 1);
    assert_eq!(tree.seen, vec!["list root", "read root/a.txt"]);
}

#[test]
fn a_walk_stops_at_a_directory_that_cannot_be_listed() {
    let mut tree = small_tree();
    tree.unlistable.push(PathBuf::from("root/sub"));
    let mut store = store();
    let outcome = walk(&mut tree, &mut store, "root", "remote");
    match outcome {
        Err(WalkError::ListFailed { message }) => assert_eq!(message, "permission denied"),
        other => panic!("no listing failure: {:?}", other),
    }
    assert_eq!(store.uploads.len(), 1);
}

#[test]
fn a_walk_uploads_what_comes_before_an_entry_that_cannot_be_read() {
    let mut tree = small_tree();
    tree.directories.insert(
        PathBuf::from("root"),
        vec![
            ("a.txt".to_string(), EntryKind::File),
            ("!stale handle".to_string(), EntryKind::Other),
            ("sub".to_string(), EntryKind::Directory),
        ],
    );
    let mut store = store();
    let outcome = walk(&mut tree, &mut store, "root", "remote");
    match outcome {
        Err(WalkError::EntryFailed { message }) => assert_eq!(message, "!stale handle"),
        other => panic!("no entry failure: {:?}", other),
    }
    assert_eq!(store.uploads.len(), 1);
    assert_eq!(store.uploads[0].path, "remote/a.txt");
    assert_eq!(tree.seen, vec!["list root", "read root/a.txt"]);
}

#[test]
fn a_walk_stops_at_a_file_that_vanished() {
    let mut tree = small_tree();
    tree.files.remove(&PathBuf::from("root/a.txt"));
    let mut store = store();
    let outcome = walk(&mut tree, &mut store, "root", "remote");
    assert!(matches!(outcome, Err(WalkError::FileMissing)));
    assert!(store.calls.is_empty());
}

#[test]
fn a_walk_takes_an_unexpected_event_as_its_end() {
    let (state, action) =
        DirectoryUpload::start(PathBuf::from("root"), true, true, "remote".to_string());
    assert!(matches!(action, WalkAction::List { .. }));
    let (state, action) = state.step_at(WalkEvent::Read(LocalRead::Missing), NOW);
    assert!(matches!(action, WalkAction::Done(Err(WalkError::UnexpectedEvent))));
    assert!(state.is_finished());
    let (_, action) = state.step(WalkEvent::Listed(Ok(Vec::new())));
    assert!(matches!(action, WalkAction::Done(Err(WalkError::UnexpectedEvent))));
}

#[test]
fn a_walk_of_an_empty_directory_succeeds() {
    let (state, _) = DirectoryUpload::start(PathBuf::from("root"), true, true, "r".to_string());
    let (state, action) = state.step(WalkEvent::Listed(Ok(Vec::new())));
    assert!(matches!(action, WalkAction::Done(Ok(()))));
    assert!(state.is_finished());
}

#[test]
fn a_local_file_that_was_read_gets_a_run_with_default_options() {
    let run = upload_local_file(LocalRead::Loaded(b"data".to_vec()), "/r/data.bin".to_string());
    let queue = run.unwrap();
    assert_eq!(queue.pending_len(), 1);
    let (_, action) = queue.step_at(StoreEvent::Begin, NOW);
    match action {
        StoreAction::GetMetadata { path } => assert_eq!(path, "/r/data.bin"),
        other => panic!("wrong action: {:?}", other),
    }
}

#[test]
fn a_local_file_that_is_not_there_gets_no_run() {
    assert!(matches!(
        upload_local_file(LocalRead::Missing, "/r".to_string()),
        Err(WalkError::FileMissing)
    ));
    assert!(matches!(
        upload_local_file(LocalRead::NotAFile, "/r".to_string()),
        Err(WalkError::NotAFile)
    ));
    match upload_local_file(LocalRead::Failed("io error".to_string()), "/r".to_string()) {
        Err(WalkError::ReadFailed { message }) => assert_eq!(message, "io error"),
        other => panic!("no read failure: {:?}", other),
    }
}

#[test]
fn paths_are_joined_with_a_slash() {
    assert_eq!(join_path("remote", "a.txt"), "remote/a.txt");
    assert_eq!(join_path("", "a"), "/a");
    assert_eq!(join_path("r/", ""), "r//");
    assert_eq!(relative_path("", "a.txt"), "a.txt");
    assert_eq!(relative_path("sub", "b.txt"), "sub/b.txt");
    assert_eq!(relative_path("sub/deep", "c"), "sub/deep/c");
}
