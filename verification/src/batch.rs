//! The batches that writes turn into.
//!
//! A batch is modelled as a map from each key it touches to the entries it
//! will apply to that key, oldest first. A put or a delete starts a key's
//! entries anew; a merge adds to them.

use bytes::Bytes;
use slatedb::WriteBatch;
use vstd::prelude::*;

use crate::ops::{
    MergeRecordOp, PutRecordOp, Record, RecordOp, RecordOpView, Ttl, WriteOptions,
};
use crate::outside::{
    batch_delete, batch_entries, batch_merge, batch_put, batch_writes, bytes_of,
};

verus! {

/// One effect of a batch on one key.
pub enum BatchEntry {
    Put { value: Seq<u8>, ttl: Ttl },
    Merge { value: Seq<u8>, ttl: Ttl },
    Delete,
}

/// A batch that touches no key.
pub open spec fn no_entries() -> Map<Seq<u8>, Seq<BatchEntry>> {
    Map::empty()
}

/// The entries that a batch holds for `key`, none if it does not touch it.
pub open spec fn entries_of(entries: Map<Seq<u8>, Seq<BatchEntry>>, key: Seq<u8>) -> Seq<
    BatchEntry,
> {
    if entries.contains_key(key) {
        entries[key]
    } else {
        Seq::empty()
    }
}

/// A put replaces all that was held for its key.
pub open spec fn after_put(
    entries: Map<Seq<u8>, Seq<BatchEntry>>,
    key: Seq<u8>,
    value: Seq<u8>,
    ttl: Ttl,
) -> Map<Seq<u8>, Seq<BatchEntry>> {
    entries.insert(key, seq![BatchEntry::Put { value, ttl }])
}

/// A merge comes after all that was held for its key.
pub open spec fn after_merge(
    entries: Map<Seq<u8>, Seq<BatchEntry>>,
    key: Seq<u8>,
    value: Seq<u8>,
    ttl: Ttl,
) -> Map<Seq<u8>, Seq<BatchEntry>> {
    entries.insert(key, entries_of(entries, key).push(BatchEntry::Merge { value, ttl }))
}

/// A delete replaces all that was held for its key.
pub open spec fn after_delete(entries: Map<Seq<u8>, Seq<BatchEntry>>, key: Seq<u8>) -> Map<
    Seq<u8>,
    Seq<BatchEntry>,
> {
    entries.insert(key, seq![BatchEntry::Delete])
}

impl RecordOpView {
    /// The key that the operation touches.
    pub open spec fn key(self) -> Seq<u8> {
        match self {
            RecordOpView::Put(record, _) => record.key,
            RecordOpView::Merge(record, _) => record.key,
            RecordOpView::Delete(key) => key,
        }
    }

    /// What the operation does to its key.
    pub open spec fn entry(self) -> BatchEntry {
        match self {
            RecordOpView::Put(record, ttl) => BatchEntry::Put { value: record.value, ttl },
            RecordOpView::Merge(record, ttl) => BatchEntry::Merge { value: record.value, ttl },
            RecordOpView::Delete(_) => BatchEntry::Delete,
        }
    }

    /// Whether SlateDB takes the operation: a key of 1 to 65535 bytes, and a
    /// value, if there is one, whose length fits in 32 bits.
    pub open spec fn fits(self) -> bool {
        &&& 0 < self.key().len() <= u16::MAX
        &&& self matches RecordOpView::Put(record, _) ==> record.value.len() <= u32::MAX
        &&& self matches RecordOpView::Merge(record, _) ==> record.value.len() <= u32::MAX
    }

    /// The batch `entries` with this operation added.
    pub open spec fn added_to(self, entries: Map<Seq<u8>, Seq<BatchEntry>>) -> Map<
        Seq<u8>,
        Seq<BatchEntry>,
    > {
        match self {
            RecordOpView::Put(record, ttl) => after_put(entries, record.key, record.value, ttl),
            RecordOpView::Merge(record, ttl) => after_merge(entries, record.key, record.value, ttl),
            RecordOpView::Delete(key) => after_delete(entries, key),
        }
    }
}

/// The batch that `ops` make, added one after the other to an empty one.
pub open spec fn batch_of(ops: Seq<RecordOpView>) -> Map<Seq<u8>, Seq<BatchEntry>>
    decreases ops.len(),
{
    if ops.len() == 0 {
        no_entries()
    } else {
        ops.last().added_to(batch_of(ops.drop_last()))
    }
}

/// Whether SlateDB takes every one of `ops`.
pub open spec fn all_fit(ops: Seq<RecordOpView>) -> bool {
    forall|i: int| 0 <= i < ops.len() ==> (#[trigger] ops[i]).fits()
}

/// The operations of a batch as bytes.
pub open spec fn op_views(ops: Seq<RecordOp>) -> Seq<RecordOpView> {
    ops.map_values(|op: RecordOp| op@)
}

/// Puts as the operations of a batch.
pub open spec fn put_views(records: Seq<PutRecordOp>) -> Seq<RecordOpView> {
    records.map_values(|op: PutRecordOp| op@)
}

/// Merges as the operations of a batch.
pub open spec fn merge_views(records: Seq<MergeRecordOp>) -> Seq<RecordOpView> {
    records.map_values(|op: MergeRecordOp| op@)
}

/// A write ready to be handed to SlateDB: all of it is applied, or none.
pub struct WriteRequest {
    pub batch: WriteBatch,
    pub options: WriteOptions,
}

impl WriteRequest {
    /// A batch of mixed operations, with options controlling durability.
    pub fn apply_with_options(records: Vec<RecordOp>, options: WriteOptions) -> (request: Self)
        requires
            all_fit(op_views(records@)),
        ensures
            batch_entries(request.batch) == batch_of(op_views(records@)),
            request.options == options,
    {
        let ghost views = op_views(records@);
        let mut batch = WriteBatch::new();
        assert(views.take(0) =~= Seq::empty());
        assert(views.len() == records.len());
        for op in iter: records
            invariant
                views == op_views(iter.seq()),
                views.len() <= usize::MAX,
                all_fit(views),
                batch_entries(batch) == batch_of(views.take(iter.index())),
                batch_writes(batch) == iter.index(),
        {
            let ghost i = iter.index();
            assert(op@ == views[i]);
            assert(views[i].fits());
            assert(views.take(i + 1).drop_last() =~= views.take(i));
            match op {
                RecordOp::Put(op) => batch_put(
                    &mut batch,
                    op.record.key,
                    op.record.value,
                    op.options,
                ),
                RecordOp::Merge(op) => batch_merge(
                    &mut batch,
                    op.record.key,
                    op.record.value,
                    op.options,
                ),
                RecordOp::Delete(key) => batch_delete(&mut batch, key),
            }
        }
        assert(views.take(views.len() as int) =~= views);
        WriteRequest { batch, options }
    }

    /// A batch of mixed operations, with the default options: the write
    /// returns without waiting for durable storage.
    pub fn apply(ops: Vec<RecordOp>) -> (request: Self)
        requires
            all_fit(op_views(ops@)),
        ensures
            batch_entries(request.batch) == batch_of(op_views(ops@)),
            request.options == (WriteOptions { await_durable: false }),
    {
        Self::apply_with_options(ops, WriteOptions::default())
    }

    /// A batch of puts, with options controlling durability.
    pub fn put_with_options(records: Vec<PutRecordOp>, options: WriteOptions) -> (request: Self)
        requires
            all_fit(put_views(records@)),
        ensures
            batch_entries(request.batch) == batch_of(put_views(records@)),
            request.options == options,
    {
        let ghost views = put_views(records@);
        let mut batch = WriteBatch::new();
        assert(views.take(0) =~= Seq::empty());
        assert(views.len() == records.len());
        for op in iter: records
            invariant
                views == put_views(iter.seq()),
                views.len() <= usize::MAX,
                all_fit(views),
                batch_entries(batch) == batch_of(views.take(iter.index())),
                batch_writes(batch) == iter.index(),
        {
            let ghost i = iter.index();
            assert(op@ == views[i]);
            assert(views[i].fits());
            assert(views.take(i + 1).drop_last() =~= views.take(i));
            batch_put(&mut batch, op.record.key, op.record.value, op.options);
        }
        assert(views.take(views.len() as int) =~= views);
        WriteRequest { batch, options }
    }

    /// A batch of puts, with the default options: the write returns without
    /// waiting for durable storage.
    pub fn put(records: Vec<PutRecordOp>) -> (request: Self)
        requires
            all_fit(put_views(records@)),
        ensures
            batch_entries(request.batch) == batch_of(put_views(records@)),
            request.options == (WriteOptions { await_durable: false }),
    {
        Self::put_with_options(records, WriteOptions::default())
    }

    /// A batch of merges, with options controlling durability.
    pub fn merge_with_options(records: Vec<MergeRecordOp>, options: WriteOptions) -> (request: Self)
        requires
            all_fit(merge_views(records@)),
        ensures
            batch_entries(request.batch) == batch_of(merge_views(records@)),
            request.options == options,
    {
        let ghost views = merge_views(records@);
        let mut batch = WriteBatch::new();
        assert(views.take(0) =~= Seq::empty());
        assert(views.len() == records.len());
        for op in iter: records
            invariant
                views == merge_views(iter.seq()),
                views.len() <= usize::MAX,
                all_fit(views),
                batch_entries(batch) == batch_of(views.take(iter.index())),
                batch_writes(batch) == iter.index(),
        {
            let ghost i = iter.index();
            assert(op@ == views[i]);
            assert(views[i].fits());
            assert(views.take(i + 1).drop_last() =~= views.take(i));
            batch_merge(&mut batch, op.record.key, op.record.value, op.options);
        }
        assert(views.take(views.len() as int) =~= views);
        WriteRequest { batch, options }
    }

    /// A batch of merges, with the default options: the write returns without
    /// waiting for durable storage.
    pub fn merge(records: Vec<MergeRecordOp>) -> (request: Self)
        requires
            all_fit(merge_views(records@)),
        ensures
            batch_entries(request.batch) == batch_of(merge_views(records@)),
            request.options == (WriteOptions { await_durable: false }),
    {
        Self::merge_with_options(records, WriteOptions::default())
    }

    /// [`WriteRequest::apply_with_options`] for operations that were not
    /// tested yet: `None` if SlateDB would refuse one of them.
    pub fn checked_apply_with_options(records: Vec<RecordOp>, options: WriteOptions) -> (request:
        Option<Self>)
        ensures
            request is Some <==> all_fit(op_views(records@)),
            request matches Some(r) ==> {
                &&& batch_entries(r.batch) == batch_of(op_views(records@))
                &&& r.options == options
            },
    {
        let ghost views = op_views(records@);
        for i in 0..records.len()
            invariant
                views == op_views(records@),
                forall|j: int| 0 <= j < i ==> (#[trigger] views[j]).fits(),
        {
            if !records[i].fits() {
                assert(!views[i as int].fits());
                return None;
            }
            assert(views[i as int].fits());
        }
        Some(Self::apply_with_options(records, options))
    }

    /// [`WriteRequest::put_with_options`] for puts that were not tested yet:
    /// `None` if SlateDB would refuse one of them.
    pub fn checked_put_with_options(records: Vec<PutRecordOp>, options: WriteOptions) -> (request:
        Option<Self>)
        ensures
            request is Some <==> all_fit(put_views(records@)),
            request matches Some(r) ==> {
                &&& batch_entries(r.batch) == batch_of(put_views(records@))
                &&& r.options == options
            },
    {
        let ghost views = put_views(records@);
        for i in 0..records.len()
            invariant
                views == put_views(records@),
                forall|j: int| 0 <= j < i ==> (#[trigger] views[j]).fits(),
        {
            if !records[i].fits() {
                assert(!views[i as int].fits());
                return None;
            }
            assert(views[i as int].fits());
        }
        Some(Self::put_with_options(records, options))
    }

    /// [`WriteRequest::merge_with_options`] for merges that were not tested
    /// yet: `None` if SlateDB would refuse one of them.
    pub fn checked_merge_with_options(records: Vec<MergeRecordOp>, options: WriteOptions) -> (
    request: Option<Self>)
        ensures
            request is Some <==> all_fit(merge_views(records@)),
            request matches Some(r) ==> {
                &&& batch_entries(r.batch) == batch_of(merge_views(records@))
                &&& r.options == options
            },
    {
        let ghost views = merge_views(records@);
        for i in 0..records.len()
            invariant
                views == merge_views(records@),
                forall|j: int| 0 <= j < i ==> (#[trigger] views[j]).fits(),
        {
            if !records[i].fits() {
                assert(!views[i as int].fits());
                return None;
            }
            assert(views[i as int].fits());
        }
        Some(Self::merge_with_options(records, options))
    }
}

/// Whether SlateDB takes `key`.
fn key_fits(key: &Bytes) -> (fits: bool)
    ensures
        fits == (0 < bytes_of(*key).len() <= u16::MAX),
{
    0 < key.len() && key.len() <= u16::MAX as usize
}

/// Whether SlateDB takes `record`.
fn record_fits(record: &Record) -> (fits: bool)
    ensures
        fits == (0 < record@.key.len() <= u16::MAX && record@.value.len() <= u32::MAX),
{
    key_fits(&record.key) && record.value.len() as u64 <= u32::MAX as u64
}

impl PutRecordOp {
    /// Whether SlateDB takes the put.
    pub fn fits(&self) -> (fits: bool)
        ensures
            fits == self@.fits(),
    {
        record_fits(&self.record)
    }
}

impl MergeRecordOp {
    /// Whether SlateDB takes the merge.
    pub fn fits(&self) -> (fits: bool)
        ensures
            fits == self@.fits(),
    {
        record_fits(&self.record)
    }
}

impl RecordOp {
    /// Whether SlateDB takes the operation.
    pub fn fits(&self) -> (fits: bool)
        ensures
            fits == self@.fits(),
    {
        match self {
            RecordOp::Put(op) => op.fits(),
            RecordOp::Merge(op) => op.fits(),
            RecordOp::Delete(key) => key_fits(key),
        }
    }
}

} // verus!
