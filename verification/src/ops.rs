//! Plain storage data types: what is written, what is read, what comes back.
//!
//! They carry no SlateDB types themselves.

use bytes::Bytes;
use uuid::Uuid;
use vstd::prelude::*;
use vstd::string::to_string_from_display_ensures;

use crate::outside::{bytes_of, string_text};
use crate::text::displays_as_itself;

verus! {

/// Identifies a checkpoint of the storage backend at a point in time.
///
/// Checkpoints capture a manifest snapshot that a reader can later open
/// against to get a consistent view of the database at the time the
/// checkpoint was created.
#[derive(Debug, Clone, Copy, PartialEq, Eq)]
pub struct CheckpointInfo {
    pub id: Uuid,
    pub manifest_id: u64,
}

/// Time-to-live for a written record.
#[derive(Clone, Copy, Debug, PartialEq, Eq, Structural)]
pub enum Ttl {
    /// The database's default applies.
    Default,
    /// The record never expires.
    NoExpiry,
    /// The record expires this many milliseconds after it is written.
    ExpireAfter(u64),
    /// The record expires at this time, in milliseconds.
    ExpireAt(i64),
}

impl Default for Ttl {
    fn default() -> (ttl: Self)
        ensures
            ttl == Ttl::Default,
    {
        Ttl::Default
    }
}

/// Options of one put.
#[derive(Clone, Copy, Debug, PartialEq, Eq, Structural)]
pub struct PutOptions {
    pub ttl: Ttl,
}

impl Default for PutOptions {
    fn default() -> (options: Self)
        ensures
            options == (PutOptions { ttl: Ttl::Default }),
    {
        PutOptions { ttl: Ttl::Default }
    }
}

/// A record being put along with options specific to the put.
#[derive(Debug)]
pub struct PutRecordOp {
    pub record: Record,
    pub options: PutOptions,
}

impl PutRecordOp {
    /// A put of `record` with the default options.
    pub fn new(record: Record) -> (op: Self)
        ensures
            op == (PutRecordOp { record, options: PutOptions { ttl: Ttl::Default } }),
    {
        Self { record, options: PutOptions::default() }
    }

    /// A put of `record` with `options`.
    pub fn new_with_options(record: Record, options: PutOptions) -> (op: Self)
        ensures
            op == (PutRecordOp { record, options }),
    {
        Self { record, options }
    }

    /// The same record with `options` in place of the options it had.
    pub fn with_options(self, options: PutOptions) -> (op: Self)
        ensures
            op == (PutRecordOp { record: self.record, options }),
    {
        Self { record: self.record, options }
    }
}

impl Clone for PutRecordOp {
    fn clone(&self) -> (copy: Self)
        ensures
            copy@ == self@,
    {
        PutRecordOp { record: self.record.clone(), options: self.options }
    }
}

impl From<Record> for PutRecordOp {
    fn from(record: Record) -> (op: Self) {
        Self::new(record)
    }
}

impl vstd::std_specs::convert::FromSpecImpl<Record> for PutRecordOp {
    open spec fn obeys_from_spec() -> bool {
        true
    }

    open spec fn from_spec(record: Record) -> Self {
        PutRecordOp { record, options: PutOptions { ttl: Ttl::Default } }
    }
}

/// Options of one merge.
#[derive(Clone, Copy, Debug, PartialEq, Eq, Structural)]
pub struct MergeOptions {
    pub ttl: Ttl,
}

impl Default for MergeOptions {
    fn default() -> (options: Self)
        ensures
            options == (MergeOptions { ttl: Ttl::Default }),
    {
        MergeOptions { ttl: Ttl::Default }
    }
}

/// A record written as part of a merge op along with options specific to the merge.
#[derive(Debug)]
pub struct MergeRecordOp {
    pub record: Record,
    pub options: MergeOptions,
}

impl MergeRecordOp {
    /// A merge of `record` with the default options.
    pub fn new(record: Record) -> (op: Self)
        ensures
            op == (MergeRecordOp { record, options: MergeOptions { ttl: Ttl::Default } }),
    {
        Self { record, options: MergeOptions::default() }
    }

    /// A merge of `record` with `options`.
    pub fn new_with_ttl(record: Record, options: MergeOptions) -> (op: Self)
        ensures
            op == (MergeRecordOp { record, options }),
    {
        Self { record, options }
    }
}

impl Clone for MergeRecordOp {
    fn clone(&self) -> (copy: Self)
        ensures
            copy@ == self@,
    {
        MergeRecordOp { record: self.record.clone(), options: self.options }
    }
}

impl From<Record> for MergeRecordOp {
    fn from(record: Record) -> (op: Self) {
        Self::new(record)
    }
}

impl vstd::std_specs::convert::FromSpecImpl<Record> for MergeRecordOp {
    open spec fn obeys_from_spec() -> bool {
        true
    }

    open spec fn from_spec(record: Record) -> Self {
        MergeRecordOp { record, options: MergeOptions { ttl: Ttl::Default } }
    }
}

/// A key/value pair read from or written to storage.
#[derive(Debug)]
pub struct Record {
    pub key: Bytes,
    pub value: Bytes,
}

/// A [`Record`] by its bytes.
pub struct RecordView {
    pub key: Seq<u8>,
    pub value: Seq<u8>,
}

impl View for Record {
    type V = RecordView;

    open spec fn view(&self) -> RecordView {
        RecordView { key: bytes_of(self.key), value: bytes_of(self.value) }
    }
}

impl Clone for Record {
    fn clone(&self) -> (copy: Self)
        ensures
            copy@ == self@,
    {
        Record { key: self.key.clone(), value: self.value.clone() }
    }
}

impl Record {
    /// The record of `key` and `value`.
    pub fn new(key: Bytes, value: Bytes) -> (record: Self)
        ensures
            record == (Record { key, value }),
    {
        Self { key, value }
    }

    /// The record of `key` with an empty value.
    pub fn empty(key: Bytes) -> (record: Self)
        ensures
            record.key == key,
            bytes_of(record.value) == Seq::<u8>::empty(),
    {
        Self::new(key, Bytes::new())
    }
}

/// A single operation in an atomic batch.
#[derive(Debug)]
pub enum RecordOp {
    Put(PutRecordOp),
    Merge(MergeRecordOp),
    Delete(Bytes),
}

/// A [`RecordOp`] by its bytes and its time-to-live.
pub enum RecordOpView {
    Put(RecordView, Ttl),
    Merge(RecordView, Ttl),
    Delete(Seq<u8>),
}

impl View for PutRecordOp {
    type V = RecordOpView;

    open spec fn view(&self) -> RecordOpView {
        RecordOpView::Put(self.record@, self.options.ttl)
    }
}

impl View for MergeRecordOp {
    type V = RecordOpView;

    open spec fn view(&self) -> RecordOpView {
        RecordOpView::Merge(self.record@, self.options.ttl)
    }
}

impl View for RecordOp {
    type V = RecordOpView;

    open spec fn view(&self) -> RecordOpView {
        match self {
            RecordOp::Put(op) => op@,
            RecordOp::Merge(op) => op@,
            RecordOp::Delete(key) => RecordOpView::Delete(bytes_of(*key)),
        }
    }
}

impl Clone for RecordOp {
    fn clone(&self) -> (copy: Self)
        ensures
            copy@ == self@,
    {
        match self {
            RecordOp::Put(op) => RecordOp::Put(op.clone()),
            RecordOp::Merge(op) => RecordOp::Merge(op.clone()),
            RecordOp::Delete(key) => RecordOp::Delete(key.clone()),
        }
    }
}

/// Options controlling the durability behavior of a write.
#[derive(Debug)]
pub struct WriteOptions {
    /// When `true`, the operation does not return until the data has been
    /// persisted to durable storage. When `false` (the default), it returns as
    /// soon as the data is in memory.
    pub await_durable: bool,
}

impl Clone for WriteOptions {
    fn clone(&self) -> (copy: Self)
        ensures
            copy == *self,
    {
        WriteOptions { await_durable: self.await_durable }
    }
}

impl Default for WriteOptions {
    fn default() -> (options: Self)
        ensures
            options == (WriteOptions { await_durable: false }),
    {
        WriteOptions { await_durable: false }
    }
}

/// Result of a write, carrying the sequence number assigned by SlateDB.
#[derive(Clone, Copy, Debug, PartialEq, Eq, Structural)]
pub struct WriteResult {
    pub seqnum: u64,
}

/// Error type for storage operations.
#[derive(Debug, PartialEq, Eq)]
pub enum StorageError {
    /// Storage-related errors (e.g. SlateDB I/O).
    Storage(String),
    /// Internal errors.
    Internal(String),
}

/// A [`StorageError`] by the characters of its message.
pub enum StorageErrorView {
    Storage(Seq<char>),
    Internal(Seq<char>),
}

impl View for StorageError {
    type V = StorageErrorView;

    open spec fn view(&self) -> StorageErrorView {
        match self {
            StorageError::Storage(msg) => StorageErrorView::Storage(msg@),
            StorageError::Internal(msg) => StorageErrorView::Internal(msg@),
        }
    }
}

impl Clone for StorageError {
    fn clone(&self) -> (copy: Self)
        ensures
            copy == *self,
    {
        match self {
            StorageError::Storage(msg) => StorageError::Storage(msg.clone()),
            StorageError::Internal(msg) => StorageError::Internal(msg.clone()),
        }
    }
}

impl StorageErrorView {
    /// The text that the error is shown as.
    pub open spec fn text(self) -> Seq<char> {
        match self {
            StorageErrorView::Storage(msg) => "Storage error: "@ + msg,
            StorageErrorView::Internal(msg) => "Internal error: "@ + msg,
        }
    }
}

impl StorageError {
    /// Converts any displayable error into [`StorageError::Storage`]. The
    /// message is what the error displays as and nothing else.
    /// Converting the message again changes nothing.
    pub fn from_storage(e: impl std::fmt::Display) -> (error: Self)
        ensures
            error matches StorageError::Storage(msg) && to_string_from_display_ensures(&e, msg)
                && displays_as_itself(msg@),
    {
        StorageError::Storage(string_text(e.to_string()))
    }

    /// The text that the error is shown as.
    pub fn to_string(&self) -> (text: String)
        ensures
            text@ == self@.text(),
    {
        match self {
            StorageError::Storage(msg) => "Storage error: ".to_owned().concat(msg.as_str()),
            StorageError::Internal(msg) => "Internal error: ".to_owned().concat(msg.as_str()),
        }
    }
}

/// Result type alias for storage operations.
pub type StorageResult<T> = std::result::Result<T, StorageError>;

} // verus!
