//! Directory upload: a breadth-first walk over a local directory tree, one
//! directory listing at a time, that uploads every file it finds through an
//! upload run with the default options.
//!
//! The walk never touches the file system or the store. Each step takes
//! what its driver found and returns the next thing to do. Directories wait
//! in a first-in, first-out queue, so the depth of the tree costs no stack.
//! The first failure ends the walk.
//!
//! A file goes to the remote prefix of its directory, a slash, and the
//! file's path relative to the root of the walk. A subdirectory gets the
//! remote prefix of its parent, a slash, and its own name.

use crate::dropbox::operations::{default_options, UploadOptions};
use crate::dropbox::queue::{
    finds_conflict, initial, lemma_time_matters_on_conflict_only, next_step, StoreAction,
    StoreActionView, StoreEvent, StoreEventView, UploadError, UploadErrorView, UploadQueue,
    UploadQueueView, UploadTask, UploadTaskView,
};
use crate::time::unix_now;
use std::collections::VecDeque;
use std::path::PathBuf;
use vstd::prelude::*;
use vstd::string::StringExecFns;

verus! {

/// What a directory entry is.
#[derive(Debug, Clone, Copy, PartialEq, Eq, Structural)]
pub enum EntryKind {
    File,
    Directory,
    /// Neither a file nor a directory: the walk passes it by.
    Other,
}

/// An entry of a local directory.
#[derive(Debug)]
pub struct LocalEntry {
    /// Where the entry is, for the driver to read or list it.
    pub path: PathBuf,
    /// The entry's name within its directory.
    pub name: String,
    pub kind: EntryKind,
}

/// What a `LocalEntry` holds, as mathematical values.
pub struct LocalEntryView {
    pub path: PathBuf,
    pub name: Seq<char>,
    pub kind: EntryKind,
}

impl View for LocalEntry {
    type V = LocalEntryView;

    open spec fn view(&self) -> LocalEntryView {
        LocalEntryView { path: self.path, name: self.name@, kind: self.kind }
    }
}

/// One item of a directory listing: an entry, or the reason why the entry
/// at this place could not be read.
#[derive(Debug)]
pub enum ListedEntry {
    Entry(LocalEntry),
    Failed(String),
}

/// What a `ListedEntry` holds, as mathematical values.
pub enum ListedEntryView {
    Entry(LocalEntryView),
    Failed(Seq<char>),
}

impl View for ListedEntry {
    type V = ListedEntryView;

    open spec fn view(&self) -> ListedEntryView {
        match *self {
            ListedEntry::Entry(entry) => ListedEntryView::Entry(entry@),
            ListedEntry::Failed(message) => ListedEntryView::Failed(message@),
        }
    }
}

/// The views of the items of a listing.
pub open spec fn entry_views(entries: Seq<ListedEntry>) -> Seq<ListedEntryView> {
    entries.map_values(|entry: ListedEntry| entry@)
}

/// What the driver found when it went to read a local file.
#[derive(Debug)]
pub enum LocalRead {
    /// Nothing is there.
    Missing,
    /// Something is there and it is no file.
    NotAFile,
    /// The file is there and could not be read.
    Failed(String),
    /// The bytes of the file.
    Loaded(Vec<u8>),
}

/// What a `LocalRead` holds, as mathematical values.
pub enum LocalReadView {
    Missing,
    NotAFile,
    Failed(Seq<char>),
    Loaded(Seq<u8>),
}

impl View for LocalRead {
    type V = LocalReadView;

    open spec fn view(&self) -> LocalReadView {
        match *self {
            LocalRead::Missing => LocalReadView::Missing,
            LocalRead::NotAFile => LocalReadView::NotAFile,
            LocalRead::Failed(message) => LocalReadView::Failed(message@),
            LocalRead::Loaded(bytes) => LocalReadView::Loaded(bytes@),
        }
    }
}

/// Why a walk, or the upload of one local file, ended without success.
#[derive(Debug)]
pub enum WalkError {
    /// The root of the walk does not exist or is no directory.
    NotADirectory,
    /// A directory could not be listed.
    ListFailed { message: String },
    /// An entry of a directory could not be read.
    EntryFailed { message: String },
    /// The local file does not exist.
    FileMissing,
    /// The local path is no file.
    NotAFile,
    /// The local file could not be read.
    ReadFailed { message: String },
    /// The upload of a file failed.
    Upload(UploadError),
    /// The walk was handed an event that it was not waiting for.
    UnexpectedEvent,
}

/// What a `WalkError` holds, as mathematical values.
pub enum WalkErrorView {
    NotADirectory,
    ListFailed { message: Seq<char> },
    EntryFailed { message: Seq<char> },
    FileMissing,
    NotAFile,
    ReadFailed { message: Seq<char> },
    Upload(UploadErrorView),
    UnexpectedEvent,
}

impl View for WalkError {
    type V = WalkErrorView;

    open spec fn view(&self) -> WalkErrorView {
        match *self {
            WalkError::NotADirectory => WalkErrorView::NotADirectory,
            WalkError::ListFailed { message } => WalkErrorView::ListFailed { message: message@ },
            WalkError::EntryFailed { message } => WalkErrorView::EntryFailed { message: message@ },
            WalkError::FileMissing => WalkErrorView::FileMissing,
            WalkError::NotAFile => WalkErrorView::NotAFile,
            WalkError::ReadFailed { message } => WalkErrorView::ReadFailed { message: message@ },
            WalkError::Upload(error) => WalkErrorView::Upload(error@),
            WalkError::UnexpectedEvent => WalkErrorView::UnexpectedEvent,
        }
    }
}

/// The view of a walk's outcome.
pub open spec fn walk_outcome_view(outcome: Result<(), WalkError>) -> Result<(), WalkErrorView> {
    match outcome {
        Ok(_) => Ok(()),
        Err(error) => Err(error@),
    }
}

/// What the driver reports to the walk.
#[derive(Debug)]
pub enum WalkEvent {
    /// The answer to `WalkAction::List`: the items of the directory in the
    /// order in which the file system gave them, or why it could not be
    /// listed.
    Listed(Result<Vec<ListedEntry>, String>),
    /// The answer to `WalkAction::Read`.
    Read(LocalRead),
    /// The answer to `WalkAction::Store`.
    Store(StoreEvent),
}

/// What a `WalkEvent` holds, as mathematical values.
pub enum WalkEventView {
    Listed(Result<Seq<ListedEntryView>, Seq<char>>),
    Read(LocalReadView),
    Store(StoreEventView),
}

impl View for WalkEvent {
    type V = WalkEventView;

    open spec fn view(&self) -> WalkEventView {
        match *self {
            WalkEvent::Listed(Ok(entries)) => WalkEventView::Listed(Ok(entry_views(entries@))),
            WalkEvent::Listed(Err(message)) => WalkEventView::Listed(Err(message@)),
            WalkEvent::Read(read) => WalkEventView::Read(read@),
            WalkEvent::Store(event) => WalkEventView::Store(event@),
        }
    }
}

/// What the walk asks its driver to do next.
#[derive(Debug)]
pub enum WalkAction {
    /// List the entries of this local directory.
    List { directory: PathBuf },
    /// Read this local file.
    Read { file: PathBuf },
    /// Perform this action on the store, for the file in hand. It is never
    /// `Done`.
    Store(StoreAction),
    /// The walk is over, with this outcome.
    Done(Result<(), WalkError>),
}

/// What a `WalkAction` holds, as mathematical values.
pub enum WalkActionView {
    List { directory: PathBuf },
    Read { file: PathBuf },
    Store(StoreActionView),
    Done(Result<(), WalkErrorView>),
}

impl View for WalkAction {
    type V = WalkActionView;

    open spec fn view(&self) -> WalkActionView {
        match *self {
            WalkAction::List { directory } => WalkActionView::List { directory },
            WalkAction::Read { file } => WalkActionView::Read { file },
            WalkAction::Store(action) => WalkActionView::Store(action@),
            WalkAction::Done(outcome) => WalkActionView::Done(walk_outcome_view(outcome)),
        }
    }
}

/// A directory that waits to be listed.
#[derive(Debug)]
struct PendingDirectory {
    path: PathBuf,
    prefix: String,
    relative: String,
}

/// A directory that waits to be listed, as mathematical values: where it
/// is, the remote prefix for what it holds, and its path relative to the
/// root of the walk (empty for the root itself).
pub struct DirectoryView {
    pub path: PathBuf,
    pub prefix: Seq<char>,
    pub relative: Seq<char>,
}

impl View for PendingDirectory {
    type V = DirectoryView;

    closed spec fn view(&self) -> DirectoryView {
        DirectoryView { path: self.path, prefix: self.prefix@, relative: self.relative@ }
    }
}

/// What the walk is waiting for.
#[derive(Debug)]
enum WalkStage {
    Listing,
    Reading { remote_path: String },
    Uploading { run: UploadQueue },
    Finished,
}

/// What the walk is waiting for, as mathematical values.
pub enum WalkStageView {
    /// The listing of the directory in hand has been asked for.
    Listing,
    /// The bytes of a file have been asked for; they go to `remote_path`.
    Reading { remote_path: Seq<char> },
    /// The upload run of a file is under way.
    Uploading { run: UploadQueueView },
    /// The walk is over.
    Finished,
}

impl View for WalkStage {
    type V = WalkStageView;

    closed spec fn view(&self) -> WalkStageView {
        match *self {
            WalkStage::Listing => WalkStageView::Listing,
            WalkStage::Reading { remote_path } => WalkStageView::Reading {
                remote_path: remote_path@,
            },
            WalkStage::Uploading { run } => WalkStageView::Uploading { run: run@ },
            WalkStage::Finished => WalkStageView::Finished,
        }
    }
}

/// The state of a walk, as mathematical values: the directories that wait,
/// first in front; the remote prefix and the relative path of the directory
/// in hand; the items of its listing that have not been looked at; and what
/// the walk is waiting for.
pub struct WalkView {
    pub directories: Seq<DirectoryView>,
    pub prefix: Seq<char>,
    pub relative: Seq<char>,
    pub entries: Seq<ListedEntryView>,
    pub stage: WalkStageView,
}

/// The separator of path components, local and remote.
pub open spec fn separator() -> Seq<char> {
    seq!['/']
}

/// `name` under `base`: the two with a separator between them.
pub open spec fn joined(base: Seq<char>, name: Seq<char>) -> Seq<char> {
    base + separator() + name
}

/// The path, relative to the root of the walk, of the entry `name` in the
/// directory whose relative path is `relative`.
pub open spec fn relative_of(relative: Seq<char>, name: Seq<char>) -> Seq<char> {
    if relative.len() == 0 {
        name
    } else {
        joined(relative, name)
    }
}

/// The remote path of the file `name` in the directory with remote prefix
/// `prefix` and relative path `relative`.
pub open spec fn destination(prefix: Seq<char>, relative: Seq<char>, name: Seq<char>) -> Seq<
    char,
> {
    joined(prefix, relative_of(relative, name))
}

/// The walk ends with `error`; its state stays as it is.
pub open spec fn walk_halt(walk: WalkView, error: WalkErrorView) -> (WalkView, WalkActionView) {
    (
        WalkView {
            directories: walk.directories,
            prefix: walk.prefix,
            relative: walk.relative,
            entries: walk.entries,
            stage: WalkStageView::Finished,
        },
        WalkActionView::Done(Err(error)),
    )
}

/// The walk takes up the first directory that waits, or ends with success
/// when none waits.
pub open spec fn next_directory(walk: WalkView) -> (WalkView, WalkActionView) {
    if walk.directories.len() == 0 {
        (
            WalkView {
                directories: walk.directories,
                prefix: walk.prefix,
                relative: walk.relative,
                entries: walk.entries,
                stage: WalkStageView::Finished,
            },
            WalkActionView::Done(Ok(())),
        )
    } else {
        let first = walk.directories[0];
        (
            WalkView {
                directories: walk.directories.drop_first(),
                prefix: first.prefix,
                relative: first.relative,
                entries: Seq::empty(),
                stage: WalkStageView::Listing,
            },
            WalkActionView::List { directory: first.path },
        )
    }
}

/// The walk looks at the items of the listing in hand, in order: a
/// directory joins the queue, anything that is neither file nor directory is
/// passed by, and the first file is asked for. An item that could not be
/// read ends the walk. When no item is left the next directory is taken up.
pub open spec fn scan(walk: WalkView) -> (WalkView, WalkActionView)
    decreases walk.entries.len(),
{
    if walk.entries.len() == 0 {
        next_directory(walk)
    } else {
        let rest = walk.entries.drop_first();
        match walk.entries[0] {
            ListedEntryView::Failed(message) => walk_halt(
                walk,
                WalkErrorView::EntryFailed { message },
            ),
            ListedEntryView::Entry(entry) => match entry.kind {
                EntryKind::File => (
                    WalkView {
                        directories: walk.directories,
                        prefix: walk.prefix,
                        relative: walk.relative,
                        entries: rest,
                        stage: WalkStageView::Reading {
                            remote_path: destination(walk.prefix, walk.relative, entry.name),
                        },
                    },
                    WalkActionView::Read { file: entry.path },
                ),
                EntryKind::Directory => scan(
                    WalkView {
                        directories: walk.directories.push(
                            DirectoryView {
                                path: entry.path,
                                prefix: joined(walk.prefix, entry.name),
                                relative: relative_of(walk.relative, entry.name),
                            },
                        ),
                        prefix: walk.prefix,
                        relative: walk.relative,
                        entries: rest,
                        stage: walk.stage,
                    },
                ),
                EntryKind::Other => scan(
                    WalkView {
                        directories: walk.directories,
                        prefix: walk.prefix,
                        relative: walk.relative,
                        entries: rest,
                        stage: walk.stage,
                    },
                ),
            },
        }
    }
}

/// The upload run of a local file: what the driver found decides whether
/// there is one. A file that was read is uploaded to `remote_path` with the
/// default options.
pub open spec fn local_upload(read: LocalReadView, remote_path: Seq<char>) -> Result<
    UploadQueueView,
    WalkErrorView,
> {
    match read {
        LocalReadView::Missing => Err(WalkErrorView::FileMissing),
        LocalReadView::NotAFile => Err(WalkErrorView::NotAFile),
        LocalReadView::Failed(message) => Err(WalkErrorView::ReadFailed { message }),
        LocalReadView::Loaded(bytes) => Ok(
            initial(
                UploadTaskView::Upload {
                    path: remote_path,
                    content: bytes,
                    options: default_options(),
                },
            ),
        ),
    }
}

/// The state and the first action of a walk over the local directory
/// `root`, whose files go under `remote_base`. A root that does not exist
/// or is no directory ends the walk before anything is listed.
pub open spec fn walk_start(root: PathBuf, present: bool, is_dir: bool, remote_base: Seq<char>) -> (
    WalkView,
    WalkActionView,
) {
    let walk = WalkView {
        directories: Seq::empty(),
        prefix: remote_base,
        relative: Seq::empty(),
        entries: Seq::empty(),
        stage: WalkStageView::Listing,
    };
    if present && is_dir {
        (walk, WalkActionView::List { directory: root })
    } else {
        walk_halt(walk, WalkErrorView::NotADirectory)
    }
}

/// One step of a walk at Unix time `now`.
///
/// An event that the walk is not waiting for ends it with
/// `UnexpectedEvent`.
pub open spec fn walk_step(walk: WalkView, event: WalkEventView, now: i64) -> (
    WalkView,
    WalkActionView,
) {
    match walk.stage {
        WalkStageView::Listing => match event {
            WalkEventView::Listed(Ok(entries)) => scan(
                WalkView {
                    directories: walk.directories,
                    prefix: walk.prefix,
                    relative: walk.relative,
                    entries,
                    stage: walk.stage,
                },
            ),
            WalkEventView::Listed(Err(message)) => walk_halt(
                walk,
                WalkErrorView::ListFailed { message },
            ),
            _ => walk_halt(walk, WalkErrorView::UnexpectedEvent),
        },
        WalkStageView::Reading { remote_path } => match event {
            WalkEventView::Read(read) => match local_upload(read, remote_path) {
                Ok(run) => {
                    let started = next_step(run, StoreEventView::Begin, 0);
                    (
                        WalkView {
                            directories: walk.directories,
                            prefix: walk.prefix,
                            relative: walk.relative,
                            entries: walk.entries,
                            stage: WalkStageView::Uploading { run: started.0 },
                        },
                        WalkActionView::Store(started.1),
                    )
                },
                Err(error) => walk_halt(walk, error),
            },
            _ => walk_halt(walk, WalkErrorView::UnexpectedEvent),
        },
        WalkStageView::Uploading { run } => match event {
            WalkEventView::Store(answer) => {
                let stepped = next_step(run, answer, now);
                match stepped.1 {
                    StoreActionView::Done(Ok(_)) => scan(walk),
                    StoreActionView::Done(Err(error)) => walk_halt(
                        walk,
                        WalkErrorView::Upload(error),
                    ),
                    action => (
                        WalkView {
                            directories: walk.directories,
                            prefix: walk.prefix,
                            relative: walk.relative,
                            entries: walk.entries,
                            stage: WalkStageView::Uploading { run: stepped.0 },
                        },
                        WalkActionView::Store(action),
                    ),
                }
            },
            _ => walk_halt(walk, WalkErrorView::UnexpectedEvent),
        },
        WalkStageView::Finished => walk_halt(walk, WalkErrorView::UnexpectedEvent),
    }
}

/// Whether a step of a walk finds a conflict: the upload run in hand does.
pub open spec fn walk_finds_conflict(walk: WalkView, event: WalkEventView) -> bool {
    &&& walk.stage matches WalkStageView::Uploading { run }
    &&& event matches WalkEventView::Store(answer)
    &&& finds_conflict(run, answer)
}

/// A step of a walk that finds no conflict does the same at any time.
pub proof fn lemma_walk_time_matters_on_conflict_only(
    walk: WalkView,
    event: WalkEventView,
    first: i64,
    second: i64,
)
    requires
        !walk_finds_conflict(walk, event),
    ensures
        walk_step(walk, event, first) == walk_step(walk, event, second),
{
    if let WalkStageView::Uploading { run } = walk.stage {
        if let WalkEventView::Store(answer) = event {
            lemma_time_matters_on_conflict_only(run, answer, first, second);
        }
    }
}

/// A walk that is over stays over: whatever it is handed, it reports
/// failure and asks for nothing.
pub proof fn lemma_finished_walk_stays(walk: WalkView, event: WalkEventView, now: i64)
    requires
        walk.stage is Finished,
    ensures
        walk_step(walk, event, now).0 == walk,
        walk_step(walk, event, now).1 == WalkActionView::Done(
            Err(WalkErrorView::UnexpectedEvent),
        ),
{
}

/// A walk over a root that does not exist, or is no directory, fails at
/// once with `NotADirectory` and is over: it lists nothing, reads nothing
/// and asks nothing of the store.
pub proof fn lemma_bad_root_fails_at_once(
    root: PathBuf,
    present: bool,
    is_dir: bool,
    remote_base: Seq<char>,
)
    requires
        !present || !is_dir,
    ensures
        walk_start(root, present, is_dir, remote_base).1 == WalkActionView::Done(
            Err(WalkErrorView::NotADirectory),
        ),
        walk_start(root, present, is_dir, remote_base).0.stage is Finished,
{
}

/// Decides on the upload of one local file from what the driver found when
/// it went to read it: a run with the default options to `remote_path` for
/// a file that was read, and the matching error otherwise.
pub fn upload_local_file(read: LocalRead, remote_path: String) -> (run: Result<
    UploadQueue,
    WalkError,
>)
    ensures
        match run {
            Ok(queue) => local_upload(read@, remote_path@) == Ok::<
                UploadQueueView,
                WalkErrorView,
            >(queue@),
            Err(error) => local_upload(read@, remote_path@) == Err::<
                UploadQueueView,
                WalkErrorView,
            >(error@),
        },
{
    match read {
        LocalRead::Missing => Err(WalkError::FileMissing),
        LocalRead::NotAFile => Err(WalkError::NotAFile),
        LocalRead::Failed(message) => Err(WalkError::ReadFailed { message }),
        LocalRead::Loaded(bytes) => Ok(
            UploadQueue::new(
                UploadTask::Upload {
                    path: remote_path,
                    content: bytes,
                    options: UploadOptions::default(),
                },
            ),
        ),
    }
}

/// `name` under `base`, with a slash between them.
pub fn join_path(base: &str, name: &str) -> (path: String)
    ensures
        path@ == joined(base@, name@),
{
    proof {
        reveal_strlit("/");
    }
    let mut path = String::from_str(base);
    path.append("/");
    path.append(name);
    assert(path@ =~= joined(base@, name@));
    path
}

/// The path of the entry `name`, relative to the root of the walk, in the
/// directory whose relative path is `relative`.
pub fn relative_path(relative: &str, name: &str) -> (path: String)
    ensures
        path@ == relative_of(relative@, name@),
{
    if relative.unicode_len() == 0 {
        String::from_str(name)
    } else {
        join_path(relative, name)
    }
}

/// The views of the directories that wait.
spec fn directory_views(directories: Seq<PendingDirectory>) -> Seq<DirectoryView> {
    directories.map_values(|directory: PendingDirectory| directory@)
}

/// The items of a listing from `position` on.
pub open spec fn remaining(entries: Seq<ListedEntry>, position: int) -> Seq<ListedEntryView> {
    entry_views(entries).subrange(position, entries.len() as int)
}

/// What a walk holds whatever it is waiting for: the directories that wait,
/// the directory in hand, its listing and the place in the listing.
#[derive(Debug)]
struct Frame {
    directories: VecDeque<PendingDirectory>,
    prefix: String,
    relative: String,
    entries: Vec<ListedEntry>,
    position: usize,
}

impl Frame {
    /// The place in the listing lies within the listing.
    #[verifier::type_invariant]
    spec fn within_listing(self) -> bool {
        self.position <= self.entries.len()
    }

    /// The state of a walk that holds this and is at `stage`.
    spec fn at(self, stage: WalkStageView) -> WalkView {
        WalkView {
            directories: directory_views(self.directories@),
            prefix: self.prefix@,
            relative: self.relative@,
            entries: remaining(self.entries@, self.position as int),
            stage,
        }
    }
}

/// A walk over a local directory tree.
#[derive(Debug)]
pub struct DirectoryUpload {
    frame: Frame,
    stage: WalkStage,
}

impl View for DirectoryUpload {
    type V = WalkView;

    closed spec fn view(&self) -> WalkView {
        self.frame.at(self.stage@)
    }
}

/// Ends a walk with `error`.
fn walk_halted(frame: Frame, stage: Ghost<WalkStageView>, error: WalkError) -> (next: (
    DirectoryUpload,
    WalkAction,
))
    ensures
        (next.0@, next.1@) == walk_halt(frame.at(stage@), error@),
{
    (DirectoryUpload { frame, stage: WalkStage::Finished }, WalkAction::Done(Err(error)))
}

/// Takes up the first directory that waits.
fn next_directory_of(frame: Frame, stage: Ghost<WalkStageView>) -> (next: (
    DirectoryUpload,
    WalkAction,
))
    ensures
        (next.0@, next.1@) == next_directory(frame.at(stage@)),
{
    proof {
        use_type_invariant(&frame);
    }
    let Frame { directories, prefix, relative, entries, position } = frame;
    let mut directories = directories;
    let ghost before = directories@;
    match directories.pop_front() {
        None => (
            DirectoryUpload {
                frame: Frame { directories, prefix, relative, entries, position },
                stage: WalkStage::Finished,
            },
            WalkAction::Done(Ok(())),
        ),
        Some(first) => {
            assert(directory_views(directories@) =~= directory_views(before).drop_first());
            assert(directory_views(before)[0] == first@);
            let PendingDirectory { path, prefix, relative } = first;
            let entries: Vec<ListedEntry> = Vec::new();
            assert(remaining(entries@, 0) =~= Seq::empty());
            (
                DirectoryUpload {
                    frame: Frame { directories, prefix, relative, entries, position: 0 },
                    stage: WalkStage::Listing,
                },
                WalkAction::List { directory: path },
            )
        },
    }
}

/// Looks at the items of the listing in hand until a file turns up.
fn scanned(frame: Frame, stage: Ghost<WalkStageView>) -> (next: (DirectoryUpload, WalkAction))
    ensures
        (next.0@, next.1@) == scan(frame.at(stage@)),
{
    proof {
        use_type_invariant(&frame);
        lemma_scan_ignores_stage(frame.at(stage@), WalkStageView::Listing);
    }
    let ghost start = frame.at(WalkStageView::Listing);
    let Frame { directories, prefix, relative, entries, position } = frame;
    let mut directories = directories;
    let mut position = position;
    while position < entries.len()
        invariant
            position <= entries.len(),
            scan(start) == scan(frame.at(stage@)),
            scan(
                WalkView {
                    directories: directory_views(directories@),
                    prefix: prefix@,
                    relative: relative@,
                    entries: remaining(entries@, position as int),
                    stage: WalkStageView::Listing,
                },
            ) == scan(start),
        decreases entries.len() - position,
    {
        let ghost here = WalkView {
            directories: directory_views(directories@),
            prefix: prefix@,
            relative: relative@,
            entries: remaining(entries@, position as int),
            stage: WalkStageView::Listing,
        };
        assert(here.entries.len() == entries.len() - position);
        assert(here.entries[0] == entries@[position as int]@);
        assert(here.entries.drop_first() =~= remaining(entries@, position + 1));
        match &entries[position] {
            ListedEntry::Failed(message) => {
                let error = WalkError::EntryFailed { message: message.clone() };
                return walk_halted(
                    Frame { directories, prefix, relative, entries, position },
                    Ghost(WalkStageView::Listing),
                    error,
                );
            },
            ListedEntry::Entry(entry) => {
                match entry.kind {
                    EntryKind::File => {
                        let inner = relative_path(relative.as_str(), entry.name.as_str());
                        let remote_path = join_path(prefix.as_str(), inner.as_str());
                        let file = entry.path.clone();
                        return (
                            DirectoryUpload {
                                frame: Frame {
                                    directories,
                                    prefix,
                                    relative,
                                    entries,
                                    position: position + 1,
                                },
                                stage: WalkStage::Reading { remote_path },
                            },
                            WalkAction::Read { file },
                        );
                    },
                    EntryKind::Directory => {
                        let ghost before = directories@;
                        let waiting = PendingDirectory {
                            path: entry.path.clone(),
                            prefix: join_path(prefix.as_str(), entry.name.as_str()),
                            relative: relative_path(relative.as_str(), entry.name.as_str()),
                        };
                        directories.push_back(waiting);
                        assert(directory_views(directories@) =~= directory_views(before).push(
                            waiting@,
                        ));
                        position += 1;
                    },
                    EntryKind::Other => {
                        position += 1;
                    },
                }
            },
        }
    }
    assert(remaining(entries@, position as int) =~= Seq::empty());
    next_directory_of(
        Frame { directories, prefix, relative, entries, position },
        Ghost(WalkStageView::Listing),
    )
}

impl DirectoryUpload {
    /// Starts a walk over the local directory `root`, whose files go under
    /// `remote_base`. `present` and `is_dir` tell what the driver found at
    /// `root`.
    pub fn start(root: PathBuf, present: bool, is_dir: bool, remote_base: String) -> (next: (
        DirectoryUpload,
        WalkAction,
    ))
        ensures
            (next.0@, next.1@) == walk_start(root, present, is_dir, remote_base@),
            !present || !is_dir ==> next.1@ == WalkActionView::Done(
                Err(WalkErrorView::NotADirectory),
            ),
    {
        let directories: VecDeque<PendingDirectory> = VecDeque::new();
        let entries: Vec<ListedEntry> = Vec::new();
        assert(directory_views(directories@) =~= Seq::empty());
        assert(remaining(entries@, 0) =~= Seq::empty());
        let frame = Frame {
            directories,
            prefix: remote_base,
            relative: String::new(),
            entries,
            position: 0,
        };
        if present && is_dir {
            (
                DirectoryUpload { frame, stage: WalkStage::Listing },
                WalkAction::List { directory: root },
            )
        } else {
            walk_halted(frame, Ghost(WalkStageView::Listing), WalkError::NotADirectory)
        }
    }

    /// Whether the walk is over.
    pub fn is_finished(&self) -> (finished: bool)
        ensures
            finished == (self@.stage is Finished),
    {
        match self.stage {
            WalkStage::Finished => true,
            _ => false,
        }
    }

    /// Whether this step reads the clock: it does when the upload run in
    /// hand finds a conflict.
    fn reads_clock(&self, event: &WalkEvent) -> (reads: bool)
        ensures
            reads == walk_finds_conflict(self@, event@),
    {
        match &self.stage {
            WalkStage::Uploading { run } => match event {
                WalkEvent::Store(answer) => run.reads_clock(answer),
                _ => false,
            },
            _ => false,
        }
    }

    /// One step of the walk at Unix time `now`.
    pub fn step_at(self, event: WalkEvent, now: i64) -> (next: (DirectoryUpload, WalkAction))
        ensures
            (next.0@, next.1@) == walk_step(self@, event@, now),
    {
        let DirectoryUpload { frame, stage } = self;
        let ghost was = stage@;
        match stage {
            WalkStage::Listing => match event {
                WalkEvent::Listed(Ok(listing)) => {
                    let Frame { directories, prefix, relative, entries: _, position: _ } = frame;
                    assert(remaining(listing@, 0) =~= entry_views(listing@));
                    scanned(
                        Frame { directories, prefix, relative, entries: listing, position: 0 },
                        Ghost(was),
                    )
                },
                WalkEvent::Listed(Err(message)) => walk_halted(
                    frame,
                    Ghost(was),
                    WalkError::ListFailed { message },
                ),
                _ => walk_halted(frame, Ghost(was), WalkError::UnexpectedEvent),
            },
            WalkStage::Reading { remote_path } => match event {
                WalkEvent::Read(read) => match upload_local_file(read, remote_path) {
                    Ok(run) => {
                        let (run, action) = run.step_at(StoreEvent::Begin, 0);
                        (
                            DirectoryUpload { frame, stage: WalkStage::Uploading { run } },
                            WalkAction::Store(action),
                        )
                    },
                    Err(error) => walk_halted(frame, Ghost(was), error),
                },
                _ => walk_halted(frame, Ghost(was), WalkError::UnexpectedEvent),
            },
            WalkStage::Uploading { run } => match event {
                WalkEvent::Store(answer) => {
                    let (run, action) = run.step_at(answer, now);
                    match action {
                        StoreAction::Done(Ok(_)) => scanned(frame, Ghost(was)),
                        StoreAction::Done(Err(error)) => walk_halted(
                            frame,
                            Ghost(was),
                            WalkError::Upload(error),
                        ),
                        other => (
                            DirectoryUpload { frame, stage: WalkStage::Uploading { run } },
                            WalkAction::Store(other),
                        ),
                    }
                },
                _ => walk_halted(frame, Ghost(was), WalkError::UnexpectedEvent),
            },
            WalkStage::Finished => walk_halted(frame, Ghost(was), WalkError::UnexpectedEvent),
        }
    }

    /// One step of the walk, as `step_at` at the time that the system clock
    /// shows. The clock is read only when this step finds a conflict; any
    /// other step is the same at every time.
    pub fn step(self, event: WalkEvent) -> (next: (DirectoryUpload, WalkAction))
        ensures
            exists|now: i64| (next.0@, next.1@) == #[trigger] walk_step(self@, event@, now),
            !walk_finds_conflict(self@, event@) ==> forall|now: i64|
                (next.0@, next.1@) == #[trigger] walk_step(self@, event@, now),
    {
        let now: i64 = if self.reads_clock(&event) {
            unix_now()
        } else {
            0
        };
        proof {
            if !walk_finds_conflict(self@, event@) {
                assert forall|other: i64|
                    walk_step(self@, event@, now) == #[trigger] walk_step(self@, event@, other) by {
                    lemma_walk_time_matters_on_conflict_only(self@, event@, now, other);
                }
            }
        }
        self.step_at(event, now)
    }
}

/// What a scan leads to does not depend on what the walk was waiting for
/// before, but for the stage that it hands on where it asks for a file.
pub proof fn lemma_scan_ignores_stage(walk: WalkView, stage: WalkStageView)
    ensures
        scan(
            WalkView {
                directories: walk.directories,
                prefix: walk.prefix,
                relative: walk.relative,
                entries: walk.entries,
                stage,
            },
        ) == scan(walk),
    decreases walk.entries.len(),
{
    let other = WalkView {
        directories: walk.directories,
        prefix: walk.prefix,
        relative: walk.relative,
        entries: walk.entries,
        stage,
    };
    if walk.entries.len() > 0 {
        let rest = walk.entries.drop_first();
        match walk.entries[0] {
            ListedEntryView::Failed(message) => {},
            ListedEntryView::Entry(entry) => match entry.kind {
                EntryKind::File => {},
                EntryKind::Directory => {
                    let grown = walk.directories.push(
                        DirectoryView {
                            path: entry.path,
                            prefix: joined(walk.prefix, entry.name),
                            relative: relative_of(walk.relative, entry.name),
                        },
                    );
                    lemma_scan_ignores_stage(
                        WalkView {
                            directories: grown,
                            prefix: walk.prefix,
                            relative: walk.relative,
                            entries: rest,
                            stage: walk.stage,
                        },
                        stage,
                    );
                },
                EntryKind::Other => {
                    lemma_scan_ignores_stage(
                        WalkView {
                            directories: walk.directories,
                            prefix: walk.prefix,
                            relative: walk.relative,
                            entries: rest,
                            stage: walk.stage,
                        },
                        stage,
                    );
                },
            },
        }
    }
}

/// A scan asks for a file or for a listing, or ends the walk: it asks
/// nothing of the store.
pub proof fn lemma_scan_asks_nothing_of_the_store(walk: WalkView)
    ensures
        !(scan(walk).1 is Store),
    decreases walk.entries.len(),
{
    if walk.entries.len() > 0 {
        let rest = walk.entries.drop_first();
        match walk.entries[0] {
            ListedEntryView::Failed(message) => {},
            ListedEntryView::Entry(entry) => match entry.kind {
                EntryKind::File => {},
                EntryKind::Directory => {
                    lemma_scan_asks_nothing_of_the_store(
                        WalkView {
                            directories: walk.directories.push(
                                DirectoryView {
                                    path: entry.path,
                                    prefix: joined(walk.prefix, entry.name),
                                    relative: relative_of(walk.relative, entry.name),
                                },
                            ),
                            prefix: walk.prefix,
                            relative: walk.relative,
                            entries: rest,
                            stage: walk.stage,
                        },
                    );
                },
                EntryKind::Other => {
                    lemma_scan_asks_nothing_of_the_store(
                        WalkView {
                            directories: walk.directories,
                            prefix: walk.prefix,
                            relative: walk.relative,
                            entries: rest,
                            stage: walk.stage,
                        },
                    );
                },
            },
        }
    }
}

/// What a walk asks of the store is never `Done`: the end of an upload run
/// is the walk's own business.
pub proof fn lemma_walk_never_hands_on_done(walk: WalkView, event: WalkEventView, now: i64)
    ensures
        !(walk_step(walk, event, now).1 matches WalkActionView::Store(StoreActionView::Done(_))),
{
    match walk.stage {
        WalkStageView::Listing => {
            if let WalkEventView::Listed(Ok(entries)) = event {
                lemma_scan_asks_nothing_of_the_store(
                    WalkView {
                        directories: walk.directories,
                        prefix: walk.prefix,
                        relative: walk.relative,
                        entries,
                        stage: walk.stage,
                    },
                );
            }
        },
        WalkStageView::Reading { remote_path } => {
            if let WalkEventView::Read(LocalReadView::Loaded(bytes)) = event {
                let task = UploadTaskView::Upload {
                    path: remote_path,
                    content: bytes,
                    options: default_options(),
                };
                assert(initial(task).pending[0] == task);
            }
        },
        WalkStageView::Uploading { run } => {
            lemma_scan_asks_nothing_of_the_store(walk);
        },
        WalkStageView::Finished => {},
    }
}

} // verus!
