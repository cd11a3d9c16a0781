//! What is asked of SlateDB, and what its answers mean.

use bytes::Bytes;
use uuid::Uuid;
use vstd::prelude::*;
use vstd::string::to_string_from_display_ensures;

use crate::ops::{
    CheckpointInfo, Record, StorageError, StorageErrorView, StorageResult, WriteResult,
};
use crate::text::{contains, occurs_in};

verus! {

/// How durable data must be for a scan to return it.
#[derive(Clone, Copy, Debug, PartialEq, Eq, Structural)]
pub enum DurabilityLevel {
    /// Stored durably in object storage.
    Remote,
    /// Stored durably, or in memory and waiting to be.
    Memory,
}

/// The order in which a scan walks the keys.
#[derive(Clone, Copy, Debug, PartialEq, Eq, Structural)]
pub enum IterationOrder {
    Ascending,
    Descending,
}

/// How a scan is run. No scan carries a context for custom filters.
#[derive(Clone, Copy, Debug, PartialEq, Eq, Structural)]
pub struct ScanOptions {
    pub durability_filter: DurabilityLevel,
    /// Whether uncommitted data is returned.
    pub dirty: bool,
    pub read_ahead_bytes: usize,
    /// Whether the blocks read are kept in the cache.
    pub cache_blocks: bool,
    pub max_fetch_tasks: usize,
    pub order: IterationOrder,
}

/// Returns the default scan options used for storage scans.
pub fn default_scan_options() -> (options: ScanOptions)
    ensures
        options == (ScanOptions {
            durability_filter: DurabilityLevel::Memory,
            dirty: false,
            read_ahead_bytes: 1048576,
            cache_blocks: true,
            max_fetch_tasks: 4,
            order: IterationOrder::Ascending,
        }),
{
    ScanOptions {
        durability_filter: DurabilityLevel::Memory,
        dirty: false,
        read_ahead_bytes: 1024 * 1024,
        cache_blocks: true,
        max_fetch_tasks: 4,
        order: IterationOrder::Ascending,
    }
}

/// What a checkpoint covers.
#[derive(Clone, Copy, Debug, PartialEq, Eq, Structural)]
pub enum CheckpointScope {
    /// Every write made before the checkpoint is asked for.
    All,
    /// Only the writes that are durable by then.
    Durable,
}

/// The scope of the checkpoints of a storage: they cover all data.
pub fn checkpoint_scope() -> (scope: CheckpointScope)
    ensures
        scope == CheckpointScope::All,
{
    CheckpointScope::All
}

/// `result` is the failure that `e` stands for: a storage error whose message
/// is `e` as it displays.
pub open spec fn fails_with<T, E: std::fmt::Display>(result: StorageResult<T>, e: E) -> bool {
    result matches Err(StorageError::Storage(msg)) && to_string_from_display_ensures(&e, msg)
}

/// The answer of an operation whose value is used as it is: taking a snapshot,
/// opening a scan, flushing, closing.
pub fn storage_result<T, E: std::fmt::Display>(outcome: Result<T, E>) -> (result: StorageResult<T>)
    ensures
        match outcome {
            Ok(value) => result == Ok::<T, StorageError>(value),
            Err(e) => fails_with(result, e),
        },
{
    match outcome {
        Ok(value) => Ok(value),
        Err(e) => Err(StorageError::from_storage(e)),
    }
}

/// The answer to a write, from the sequence number that SlateDB gave it.
pub fn write_result<E: std::fmt::Display>(outcome: Result<u64, E>) -> (result: StorageResult<
    WriteResult,
>)
    ensures
        match outcome {
            Ok(seqnum) => result == Ok::<WriteResult, StorageError>(WriteResult { seqnum }),
            Err(e) => fails_with(result, e),
        },
{
    match storage_result(outcome) {
        Ok(seqnum) => Ok(WriteResult { seqnum }),
        Err(e) => Err(e),
    }
}

/// Whether a failed merge says that the database has no merge operator.
pub open spec fn says_no_merge_operator(msg: Seq<char>) -> bool {
    occurs_in(msg, "merge operator"@) || occurs_in(msg, "not configured"@)
}

/// The error that a failed merge is reported as.
pub open spec fn merge_error_view(msg: Seq<char>) -> StorageErrorView {
    if says_no_merge_operator(msg) {
        StorageErrorView::Storage("Merge operator not configured for this database"@)
    } else {
        StorageErrorView::Storage(msg)
    }
}

/// The error that a failed merge is reported as, from its message. A message
/// about a missing merge operator is replaced by a clear one.
pub fn merge_error(msg: String) -> (error: StorageError)
    ensures
        error@ == merge_error_view(msg@),
{
    if contains(msg.as_str(), "merge operator") || contains(msg.as_str(), "not configured") {
        StorageError::Storage("Merge operator not configured for this database".to_owned())
    } else {
        StorageError::Storage(msg)
    }
}

/// The answer to a merge, from the sequence number that SlateDB gave it.
/// Returns a clear error if no merge operator is configured on the database.
pub fn merge_result<E: std::fmt::Display>(outcome: Result<u64, E>) -> (result: StorageResult<
    WriteResult,
>)
    ensures
        match outcome {
            Ok(seqnum) => result == Ok::<WriteResult, StorageError>(WriteResult { seqnum }),
            Err(e) => exists|msg: String| #[trigger]
                to_string_from_display_ensures(&e, msg) && (result matches Err(error) && error@
                    == merge_error_view(msg@)),
        },
{
    match outcome {
        Ok(seqnum) => Ok(WriteResult { seqnum }),
        Err(e) => Err(merge_error(e.to_string())),
    }
}

/// The answer to a read of `key`: the record of the key and the value found
/// under it, or `None` if there is none.
pub fn get_result<E: std::fmt::Display>(key: Bytes, outcome: Result<Option<Bytes>, E>) -> (result:
    StorageResult<Option<Record>>)
    ensures
        match outcome {
            Ok(Some(value)) => result == Ok::<Option<Record>, StorageError>(
                Some(Record { key, value }),
            ),
            Ok(None) => result == Ok::<Option<Record>, StorageError>(None),
            Err(e) => fails_with(result, e),
        },
{
    match storage_result(outcome) {
        Ok(Some(value)) => Ok(Some(Record::new(key, value))),
        Ok(None) => Ok(None),
        Err(e) => Err(e),
    }
}

/// The next record of a scan, from the entry that SlateDB's iterator gave, or
/// `None` at the end.
pub fn next_result<E: std::fmt::Display>(outcome: Result<Option<(Bytes, Bytes)>, E>) -> (result:
    StorageResult<Option<Record>>)
    ensures
        match outcome {
            Ok(Some((key, value))) => result == Ok::<Option<Record>, StorageError>(
                Some(Record { key, value }),
            ),
            Ok(None) => result == Ok::<Option<Record>, StorageError>(None),
            Err(e) => fails_with(result, e),
        },
{
    match storage_result(outcome) {
        Ok(Some((key, value))) => Ok(Some(Record::new(key, value))),
        Ok(None) => Ok(None),
        Err(e) => Err(e),
    }
}

/// The answer to a request for a checkpoint, from the checkpoint's id and the
/// id of the manifest that it holds.
pub fn checkpoint_result<E: std::fmt::Display>(outcome: Result<(Uuid, u64), E>) -> (result:
    StorageResult<CheckpointInfo>)
    ensures
        match outcome {
            Ok((id, manifest_id)) => result == Ok::<CheckpointInfo, StorageError>(
                CheckpointInfo { id, manifest_id },
            ),
            Err(e) => fails_with(result, e),
        },
{
    match storage_result(outcome) {
        Ok((id, manifest_id)) => Ok(CheckpointInfo { id, manifest_id }),
        Err(e) => Err(e),
    }
}

} // verus!
