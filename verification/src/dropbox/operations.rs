//! Conflict detection, backup naming and the upload queue.

use crate::dropbox::client::{
    FetchFailure, FetchFailureView, FileMetadata, FileMetadataView,
};
use crate::text::{decimal, lemma_decimal_injective, push_decimal};
use crate::time::{parse_rfc3339, rfc3339_utc, Timestamp};
use vstd::prelude::*;
use vstd::string::StringExecFns;

verus! {

/// Outcome of comparing local content with the remote object's descriptor.
#[derive(Debug)]
pub enum ConflictResult {
    NoConflict,
    Conflict {
        local_size: u64,
        remote_size: u64,
        local_modified: Option<Timestamp>,
        remote_modified: Option<Timestamp>,
        local_hash: Option<String>,
        remote_hash: Option<String>,
    },
    Error(String),
}

/// What a `ConflictResult` holds, as mathematical values.
pub enum ConflictResultView {
    NoConflict,
    Conflict {
        local_size: u64,
        remote_size: u64,
        local_modified: Option<Timestamp>,
        remote_modified: Option<Timestamp>,
        local_hash: Option<Seq<char>>,
        remote_hash: Option<Seq<char>>,
    },
    Error(Seq<char>),
}

impl View for ConflictResult {
    type V = ConflictResultView;

    open spec fn view(&self) -> ConflictResultView {
        match *self {
            ConflictResult::NoConflict => ConflictResultView::NoConflict,
            ConflictResult::Conflict {
                local_size,
                remote_size,
                local_modified,
                remote_modified,
                local_hash,
                remote_hash,
            } => ConflictResultView::Conflict {
                local_size,
                remote_size,
                local_modified,
                remote_modified,
                local_hash: local_hash.deep_view(),
                remote_hash: remote_hash.deep_view(),
            },
            ConflictResult::Error(message) => ConflictResultView::Error(message@),
        }
    }
}

impl Clone for ConflictResult {
    fn clone(&self) -> (copy: Self)
        ensures
            copy@ == self@,
    {
        match self {
            ConflictResult::NoConflict => ConflictResult::NoConflict,
            ConflictResult::Conflict {
                local_size,
                remote_size,
                local_modified,
                remote_modified,
                local_hash,
                remote_hash,
            } => ConflictResult::Conflict {
                local_size: *local_size,
                remote_size: *remote_size,
                local_modified: *local_modified,
                remote_modified: *remote_modified,
                local_hash: match local_hash {
                    Some(hash) => Some(hash.clone()),
                    None => None,
                },
                remote_hash: match remote_hash {
                    Some(hash) => Some(hash.clone()),
                    None => None,
                },
            },
            ConflictResult::Error(message) => ConflictResult::Error(message.clone()),
        }
    }
}

/// How an upload treats the remote object.
#[derive(Debug, Clone, Copy, PartialEq, Eq, Structural)]
pub struct UploadOptions {
    /// Replace the remote object without looking at it first.
    pub overwrite: bool,
    /// Keep a copy of the remote object when it differs from the local one.
    pub create_backup: bool,
    /// Let the store pick another name instead of giving up on a conflict.
    pub autorename: bool,
    /// Ask the store not to notify anyone of the change.
    pub mute: bool,
}

/// The options that apply where none are given: look at the remote object
/// first, keep a backup of it on a conflict, and give up on a conflict.
pub open spec fn default_options() -> UploadOptions {
    UploadOptions { overwrite: false, create_backup: true, autorename: false, mute: false }
}

impl Default for UploadOptions {
    fn default() -> (options: Self)
        ensures
            options == default_options(),
    {
        UploadOptions { overwrite: false, create_backup: true, autorename: false, mute: false }
    }
}

/// What fetching a remote descriptor gave: the descriptor, or why there is
/// none.
pub open spec fn fetched_view(remote: Result<FileMetadata, FetchFailure>) -> Result<
    FileMetadataView,
    FetchFailureView,
> {
    match remote {
        Ok(metadata) => Ok(metadata@),
        Err(failure) => Err(failure@),
    }
}

/// The server-side modification time of a descriptor: absent where the
/// descriptor has none or its text is no RFC 3339 date and time.
pub open spec fn modified_at(server_modified: Option<Seq<char>>) -> Option<Timestamp> {
    match server_modified {
        Some(text) => rfc3339_utc(text),
        None => None,
    }
}

/// The verdict on local content of `local_len` bytes against what fetching the
/// remote descriptor gave. Sizes alone decide: contents of equal length are
/// never compared.
pub open spec fn detect(
    local_len: nat,
    remote: Result<FileMetadataView, FetchFailureView>,
) -> ConflictResultView {
    match remote {
        Ok(metadata) => if local_len != metadata.size {
            ConflictResultView::Conflict {
                local_size: local_len as u64,
                remote_size: metadata.size,
                local_modified: None,
                remote_modified: modified_at(metadata.server_modified),
                local_hash: None,
                remote_hash: metadata.content_hash,
            }
        } else {
            ConflictResultView::NoConflict
        },
        Err(FetchFailureView::NotFound) => ConflictResultView::NoConflict,
        Err(FetchFailureView::Other(reason)) => ConflictResultView::Error(reason),
    }
}

/// Classifies the divergence between local content and the remote object,
/// given what fetching the remote descriptor returned.
///
/// A missing remote object is no conflict; any other failed fetch is an
/// error with its reason, never a licence to overwrite. Contents of equal
/// length count as equal whatever they hold. The local modification time
/// and the local hash are never filled in.
pub fn detect_conflict(local_content: &[u8], remote: Result<FileMetadata, FetchFailure>) -> (result:
    ConflictResult)
    ensures
        result@ == detect(local_content@.len(), fetched_view(remote)),
        remote matches Ok(metadata) ==> (if metadata.size == local_content@.len() {
            result is NoConflict
        } else {
            result matches ConflictResult::Conflict { local_size, remote_size, .. }
                && local_size == local_content@.len() && remote_size == metadata.size
        }),
        remote matches Err(FetchFailure::NotFound) ==> result is NoConflict,
        remote matches Err(FetchFailure::Other(reason)) ==> result@ == ConflictResultView::Error(
            reason@,
        ),
        result is Error <==> remote matches Err(FetchFailure::Other(_)),
        result is Conflict <==> (remote matches Ok(metadata) && metadata.size
            != local_content@.len()),
{
    match remote {
        Ok(metadata) => {
            let local_size = local_content.len() as u64;
            let remote_size = metadata.size;
            if local_size != remote_size {
                let remote_modified = match &metadata.server_modified {
                    Some(text) => parse_rfc3339(text.as_str()),
                    None => None,
                };
                ConflictResult::Conflict {
                    local_size,
                    remote_size,
                    local_modified: None,
                    remote_modified,
                    local_hash: None,
                    remote_hash: metadata.content_hash,
                }
            } else {
                ConflictResult::NoConflict
            }
        },
        Err(FetchFailure::NotFound) => ConflictResult::NoConflict,
        Err(FetchFailure::Other(reason)) => ConflictResult::Error(reason),
    }
}

/// The suffix that marks a backup, between the original path and the time.
pub open spec fn backup_infix() -> Seq<char> {
    ".backup."@
}

/// The name under which the remote version of `original` is kept when it is
/// backed up at Unix time `seconds`.
pub open spec fn backup_name(original: Seq<char>, seconds: int) -> Seq<char> {
    original + backup_infix() + decimal(seconds)
}

/// Derives the backup destination for `original` at Unix time `seconds`:
/// the original path, `.backup.`, and the seconds in decimal.
pub fn backup_path(original: &str, seconds: i64) -> (path: String)
    ensures
        path@ == backup_name(original@, seconds as int),
{
    let mut path = String::from_str(original);
    path.append(".backup.");
    push_decimal(&mut path, seconds);
    path
}

/// Backups of one path taken at different seconds get different names.
pub proof fn lemma_backup_names_differ(original: Seq<char>, first: int, second: int)
    requires
        first != second,
    ensures
        backup_name(original, first) != backup_name(original, second),
{
    let stem = original + backup_infix();
    let a = backup_name(original, first);
    let b = backup_name(original, second);
    if a == b {
        assert(a.subrange(stem.len() as int, a.len() as int) =~= decimal(first));
        assert(b.subrange(stem.len() as int, b.len() as int) =~= decimal(second));
        lemma_decimal_injective(first, second);
    }
}

} // verus!
