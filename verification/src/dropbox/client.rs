//! What the remote store hands out: descriptors, the kinds of a failed
//! fetch, and folder listings page by page.

use crate::text::{contains, occurs_in};
use vstd::prelude::*;
use vstd::std_specs::iter::IteratorSpec;

verus! {

/// Descriptor of a remote file: a snapshot taken when it was fetched.
#[derive(Debug)]
pub struct FileMetadata {
    pub name: String,
    pub path_lower: String,
    pub path_display: String,
    pub id: String,
    pub client_modified: Option<String>,
    pub server_modified: Option<String>,
    pub rev: String,
    pub size: u64,
    pub is_downloadable: bool,
    pub content_hash: Option<String>,
    pub tag: String,
}

/// What a `FileMetadata` holds, as mathematical values.
pub struct FileMetadataView {
    pub name: Seq<char>,
    pub path_lower: Seq<char>,
    pub path_display: Seq<char>,
    pub id: Seq<char>,
    pub client_modified: Option<Seq<char>>,
    pub server_modified: Option<Seq<char>>,
    pub rev: Seq<char>,
    pub size: u64,
    pub is_downloadable: bool,
    pub content_hash: Option<Seq<char>>,
    pub tag: Seq<char>,
}

impl View for FileMetadata {
    type V = FileMetadataView;

    open spec fn view(&self) -> FileMetadataView {
        FileMetadataView {
            name: self.name@,
            path_lower: self.path_lower@,
            path_display: self.path_display@,
            id: self.id@,
            client_modified: self.client_modified.deep_view(),
            server_modified: self.server_modified.deep_view(),
            rev: self.rev@,
            size: self.size,
            is_downloadable: self.is_downloadable,
            content_hash: self.content_hash.deep_view(),
            tag: self.tag@,
        }
    }
}

/// Descriptor of a remote folder.
#[derive(Debug)]
pub struct FolderMetadata {
    pub name: String,
    pub path_lower: String,
    pub path_display: String,
    pub id: String,
    pub tag: String,
}

/// What a `FolderMetadata` holds, as mathematical values.
pub struct FolderMetadataView {
    pub name: Seq<char>,
    pub path_lower: Seq<char>,
    pub path_display: Seq<char>,
    pub id: Seq<char>,
    pub tag: Seq<char>,
}

impl View for FolderMetadata {
    type V = FolderMetadataView;

    open spec fn view(&self) -> FolderMetadataView {
        FolderMetadataView {
            name: self.name@,
            path_lower: self.path_lower@,
            path_display: self.path_display@,
            id: self.id@,
            tag: self.tag@,
        }
    }
}

/// Why the descriptor of a remote object could not be fetched. The driver
/// says which of the two it was: the library reads no kind out of a reason's
/// text.
#[derive(Debug)]
pub enum FetchFailure {
    /// The store answered that the object does not exist.
    NotFound,
    /// Anything else: the store could not be reached, refused the call, or
    /// gave an answer that could not be read. The text is the reason.
    Other(String),
}

/// What a `FetchFailure` holds, as mathematical values.
pub enum FetchFailureView {
    NotFound,
    Other(Seq<char>),
}

impl View for FetchFailure {
    type V = FetchFailureView;

    open spec fn view(&self) -> FetchFailureView {
        match *self {
            FetchFailure::NotFound => FetchFailureView::NotFound,
            FetchFailure::Other(reason) => FetchFailureView::Other(reason@),
        }
    }
}

/// The marker that the store puts into the summary of an error when the
/// object asked for does not exist.
pub open spec fn not_found_marker() -> Seq<char> {
    "not_found"@
}

/// The kind of failure that the store's own error summary stands for.
pub open spec fn refusal(summary: Seq<char>) -> FetchFailureView {
    if occurs_in(summary, not_found_marker()) {
        FetchFailureView::NotFound
    } else {
        FetchFailureView::Other(summary)
    }
}

impl FetchFailure {
    /// Reads the kind of failure from the error summary with which the
    /// store itself answered a call for a descriptor: a summary that carries
    /// the not-found marker means that the object does not exist. This is
    /// for the store's answer only; a call that did not reach the store is
    /// `Other`, whatever its text holds.
    pub fn from_refusal(summary: String) -> (failure: FetchFailure)
        ensures
            failure@ == refusal(summary@),
    {
        if contains(summary.as_str(), "not_found") {
            FetchFailure::NotFound
        } else {
            FetchFailure::Other(summary)
        }
    }
}

/// One entry of a folder listing, as the store's answer was understood.
#[derive(Debug)]
pub enum FolderEntry {
    File(FileMetadata),
    Folder(FolderMetadata),
    /// Neither a file nor a folder descriptor.
    Unrecognized,
}

/// What a `FolderEntry` holds, as mathematical values.
pub enum FolderEntryView {
    File(FileMetadataView),
    Folder(FolderMetadataView),
    Unrecognized,
}

impl View for FolderEntry {
    type V = FolderEntryView;

    open spec fn view(&self) -> FolderEntryView {
        match *self {
            FolderEntry::File(metadata) => FolderEntryView::File(metadata@),
            FolderEntry::Folder(metadata) => FolderEntryView::Folder(metadata@),
            FolderEntry::Unrecognized => FolderEntryView::Unrecognized,
        }
    }
}

/// One page of a folder listing.
#[derive(Debug)]
pub struct FolderPage {
    pub entries: Vec<FolderEntry>,
    /// Where the next page starts.
    pub cursor: String,
    /// Whether there is a next page.
    pub has_more: bool,
}

/// What a `FolderPage` holds, as mathematical values.
pub struct FolderPageView {
    pub entries: Seq<FolderEntryView>,
    pub cursor: Seq<char>,
    pub has_more: bool,
}

/// The views of a sequence of entries.
pub open spec fn folder_entry_views(entries: Seq<FolderEntry>) -> Seq<FolderEntryView> {
    entries.map_values(|entry: FolderEntry| entry@)
}

/// The views of a sequence of file descriptors.
pub open spec fn metadata_views(files: Seq<FileMetadata>) -> Seq<FileMetadataView> {
    files.map_values(|file: FileMetadata| file@)
}

impl View for FolderPage {
    type V = FolderPageView;

    open spec fn view(&self) -> FolderPageView {
        FolderPageView {
            entries: folder_entry_views(self.entries@),
            cursor: self.cursor@,
            has_more: self.has_more,
        }
    }
}

/// The number of entries that the first request of a listing asks for.
pub const LIST_FOLDER_LIMIT: u32 = 1000;

/// A request for one page of a folder listing.
#[derive(Debug)]
pub enum ListRequest {
    /// The first page of the folder at `path`, not recursive.
    First { path: String },
    /// The page that starts at `cursor`.
    Continue { cursor: String },
}

/// What a `ListRequest` holds, as mathematical values.
pub enum ListRequestView {
    First { path: Seq<char> },
    Continue { cursor: Seq<char> },
}

impl View for ListRequest {
    type V = ListRequestView;

    open spec fn view(&self) -> ListRequestView {
        match *self {
            ListRequest::First { path } => ListRequestView::First { path: path@ },
            ListRequest::Continue { cursor } => ListRequestView::Continue { cursor: cursor@ },
        }
    }
}

impl ListRequest {
    /// The endpoint, below the base address of the store, that serves the
    /// request.
    pub fn endpoint(&self) -> (endpoint: &'static str)
        ensures
            endpoint@ == (match *self {
                ListRequest::First { .. } => "/files/list_folder"@,
                ListRequest::Continue { .. } => "/files/list_folder/continue"@,
            }),
    {
        match self {
            ListRequest::First { .. } => "/files/list_folder",
            ListRequest::Continue { .. } => "/files/list_folder/continue",
        }
    }
}

/// The file descriptors among `entries`, in order. Folders and what was not
/// recognised are left out.
pub open spec fn files_of(entries: Seq<FolderEntryView>) -> Seq<FileMetadataView>
    decreases entries.len(),
{
    if entries.len() == 0 {
        Seq::empty()
    } else {
        let before = files_of(entries.drop_last());
        match entries.last() {
            FolderEntryView::File(metadata) => before.push(metadata),
            _ => before,
        }
    }
}

/// How a listing goes on after a page.
#[derive(Debug)]
pub enum ListStep {
    /// There is another page: ask for it.
    More(FolderListing, ListRequest),
    /// The listing is over: all the files of the folder, or why a page
    /// could not be had.
    Done(Result<Vec<FileMetadata>, String>),
}

/// What a `ListStep` holds, as mathematical values.
pub enum ListStepView {
    More(Seq<FileMetadataView>, ListRequestView),
    Done(Result<Seq<FileMetadataView>, Seq<char>>),
}

impl View for ListStep {
    type V = ListStepView;

    open spec fn view(&self) -> ListStepView {
        match *self {
            ListStep::More(listing, request) => ListStepView::More(listing@, request@),
            ListStep::Done(Ok(files)) => ListStepView::Done(Ok(metadata_views(files@))),
            ListStep::Done(Err(reason)) => ListStepView::Done(Err(reason@)),
        }
    }
}

/// A listing with `files` gathered so far takes `page`: the files of the
/// page join the others; a page with more behind it leads to the request
/// for the next one, the last page ends the listing with all the files. A
/// page that could not be had ends the listing with the reason.
pub open spec fn absorbed(
    files: Seq<FileMetadataView>,
    page: Result<FolderPageView, Seq<char>>,
) -> ListStepView {
    match page {
        Err(reason) => ListStepView::Done(Err(reason)),
        Ok(page) => {
            let all = files + files_of(page.entries);
            if page.has_more {
                ListStepView::More(all, ListRequestView::Continue { cursor: page.cursor })
            } else {
                ListStepView::Done(Ok(all))
            }
        },
    }
}

/// The view of what asking for a page gave.
pub open spec fn page_view(page: Result<FolderPage, String>) -> Result<FolderPageView, Seq<char>> {
    match page {
        Ok(page) => Ok(page@),
        Err(reason) => Err(reason@),
    }
}

/// A folder listing under way: the files gathered from the pages so far.
/// The view is their descriptors, in the order of the pages.
#[derive(Debug)]
pub struct FolderListing {
    files: Vec<FileMetadata>,
}

impl View for FolderListing {
    type V = Seq<FileMetadataView>;

    closed spec fn view(&self) -> Seq<FileMetadataView> {
        metadata_views(self.files@)
    }
}

impl FolderListing {
    /// Starts the listing of the folder at `path`: nothing is gathered yet,
    /// and the first page is to be asked for.
    pub fn start(path: String) -> (next: (FolderListing, ListRequest))
        ensures
            next.0@ == Seq::<FileMetadataView>::empty(),
            next.1@ == (ListRequestView::First { path: path@ }),
    {
        let files: Vec<FileMetadata> = Vec::new();
        assert(metadata_views(files@) =~= Seq::empty());
        (FolderListing { files }, ListRequest::First { path })
    }

    /// Takes what asking for a page gave, and says how the listing goes on.
    pub fn absorb(self, page: Result<FolderPage, String>) -> (step: ListStep)
        ensures
            step@ == absorbed(self@, page_view(page)),
    {
        match page {
            Err(reason) => ListStep::Done(Err(reason)),
            Ok(page) => {
                let FolderPage { entries, cursor, has_more } = page;
                let mut files = self.files;
                let ghost gathered = metadata_views(files@);
                let ghost listed = folder_entry_views(entries@);
                for entry in it: entries
                    invariant
                        folder_entry_views(it.seq()) == listed,
                        metadata_views(files@) == gathered + files_of(
                            listed.take(it.index() as int),
                        ),
                {
                    let ghost files_before = files@;
                    proof {
                        let seen = it.index() as int;
                        assert(entry@ == listed[seen]);
                        assert(listed.take(seen + 1).drop_last() =~= listed.take(seen));
                        assert(listed.take(seen + 1).last() == listed[seen]);
                    }
                    match entry {
                        FolderEntry::File(metadata) => {
                            files.push(metadata);
                            assert(metadata_views(files@) =~= metadata_views(files_before).push(
                                metadata@,
                            ));
                        },
                        _ => {},
                    }
                }
                assert(listed.take(listed.len() as int) =~= listed);
                if has_more {
                    ListStep::More(FolderListing { files }, ListRequest::Continue { cursor })
                } else {
                    ListStep::Done(Ok(files))
                }
            },
        }
    }
}

} // verus!
