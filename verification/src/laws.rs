//! What holds of the backend as a whole.
//!
//! - [`values`]: of the value types.
//! - [`writes`]: of what a write hands to SlateDB.
//! - [`answers`]: of what SlateDB's answers become.
//! - [`builds`]: of putting a storage together.
//!
//! Below stand the laws of batches and scans over their models.

pub mod answers;
pub mod builds;
pub mod values;
pub mod writes;

use bytes::Bytes;
use vstd::prelude::*;
use vstd::string::to_string_from_display_ensures;

use crate::batch::{
    all_fit, batch_of, entries_of, merge_views, op_views, put_views, BatchEntry,
};
use crate::factory::{
    Backend, ReaderBuild, ReaderBuildWithStore, ReaderPlan, SlateDbStorageConfig, StorageBuild,
    StorageBuildWithSettings, StorageBuildWithStore, StoragePlan,
};
use crate::ops::{
    MergeRecordOp, PutRecordOp, Record, RecordOp, RecordOpView, StorageError,
    StorageErrorView, StorageResult, Ttl,
};
use crate::outside::bytes_of;
use crate::scan::{scan_after, ScanView};
use crate::slate::{get_result, next_result};

verus! {

/// The operations among `ops` that touch `key`, in their order.
pub open spec fn on_key(ops: Seq<RecordOpView>, key: Seq<u8>) -> Seq<RecordOpView> {
    ops.filter(|op: RecordOpView| op.key() == key)
}

/// What each of `ops` does to its key.
pub open spec fn entries(ops: Seq<RecordOpView>) -> Seq<BatchEntry> {
    ops.map_values(|op: RecordOpView| op.entry())
}

/// A batch touches the keys of its operations and no others.
pub proof fn law_batch_touches_the_keys_of_its_operations(ops: Seq<RecordOpView>, key: Seq<u8>)
    ensures
        batch_of(ops).contains_key(key) <==> exists|i: int|
            0 <= i < ops.len() && (#[trigger] ops[i]).key() == key,
    decreases ops.len(),
{
    if ops.len() > 0 {
        let rest = ops.drop_last();
        law_batch_touches_the_keys_of_its_operations(rest, key);
        if exists|i: int| 0 <= i < rest.len() && (#[trigger] rest[i]).key() == key {
            let i = choose|i: int| 0 <= i < rest.len() && (#[trigger] rest[i]).key() == key;
            assert(ops[i].key() == key);
        }
        if exists|i: int| 0 <= i < ops.len() && (#[trigger] ops[i]).key() == key {
            let i = choose|i: int| 0 <= i < ops.len() && (#[trigger] ops[i]).key() == key;
            if i < rest.len() {
                assert(rest[i].key() == key);
            }
        }
        assert(ops[ops.len() - 1] == ops.last());
    }
}

/// What a batch does to a key rests on the operations on that key alone.
pub proof fn law_keys_are_independent(ops: Seq<RecordOpView>, key: Seq<u8>)
    ensures
        entries_of(batch_of(ops), key) == entries_of(batch_of(on_key(ops, key)), key),
    decreases ops.len(),
{
    reveal(Seq::filter);
    let rest = ops.drop_last();
    if ops.len() > 0 {
        law_keys_are_independent(rest, key);
        if ops.last().key() == key {
            assert(on_key(ops, key) =~= on_key(rest, key).push(ops.last()));
            assert(on_key(ops, key).drop_last() =~= on_key(rest, key));
        } else {
            assert(on_key(ops, key) =~= on_key(rest, key));
        }
    }
}

/// Two batches are the same if each key sees the same operations in the same
/// order in both: how operations on different keys interleave is of no
/// consequence.
pub proof fn law_order_across_keys_is_of_no_consequence(
    a: Seq<RecordOpView>,
    b: Seq<RecordOpView>,
)
    requires
        forall|key: Seq<u8>| #[trigger] on_key(a, key) == on_key(b, key),
    ensures
        batch_of(a) == batch_of(b),
{
    let (left, right) = (batch_of(a), batch_of(b));
    assert forall|key: Seq<u8>| #[trigger]
        left.contains_key(key) == right.contains_key(key) && (left.contains_key(key) ==> left[key]
            == right[key]) by {
        assert(on_key(a, key) == on_key(b, key));
        lemma_touched_iff_on_key(a, key);
        lemma_touched_iff_on_key(b, key);
        law_keys_are_independent(a, key);
        law_keys_are_independent(b, key);
    }
    assert(left.dom() =~= right.dom());
    assert(left =~= right);
}

proof fn lemma_touched_iff_on_key(ops: Seq<RecordOpView>, key: Seq<u8>)
    ensures
        batch_of(ops).contains_key(key) <==> on_key(ops, key).len() > 0,
    decreases ops.len(),
{
    reveal(Seq::filter);
    if ops.len() > 0 {
        lemma_touched_iff_on_key(ops.drop_last(), key);
    }
}

/// The last put or delete on a key decides: what came before it is gone, and
/// the merges that follow it are kept in their order.
pub proof fn law_last_put_or_delete_decides(ops: Seq<RecordOpView>, i: int)
    requires
        0 <= i < ops.len(),
        ops[i] !is Merge,
        forall|j: int|
            i < j < ops.len() && (#[trigger] ops[j]).key() == ops[i].key() ==> ops[j] is Merge,
    ensures
        entries_of(batch_of(ops), ops[i].key()) == seq![ops[i].entry()] + entries(
            on_key(ops.skip(i + 1), ops[i].key()),
        ),
    decreases ops.len(),
{
    reveal(Seq::filter);
    let key = ops[i].key();
    let rest = ops.drop_last();
    let after = ops.skip(i + 1);
    if i == ops.len() - 1 {
        assert(after =~= Seq::empty());
        assert(entries(on_key(after, key)) =~= Seq::empty());
        assert(seq![ops[i].entry()] + entries(on_key(after, key)) =~= seq![ops[i].entry()]);
    } else {
        assert forall|j: int|
            i < j < rest.len() && (#[trigger] rest[j]).key() == key implies rest[j] is Merge by {
            assert(ops[j].key() == key);
        }
        law_last_put_or_delete_decides(rest, i);
        assert(after.drop_last() =~= rest.skip(i + 1));
        assert(after.last() == ops.last());
        if ops.last().key() == key {
            assert(ops[ops.len() - 1] is Merge);
            assert(on_key(after, key) =~= on_key(rest.skip(i + 1), key).push(ops.last()));
            assert(entries(on_key(after, key)) =~= entries(on_key(rest.skip(i + 1), key)).push(
                ops.last().entry(),
            ));
            assert(seq![ops[i].entry()] + entries(on_key(after, key)) =~= (seq![ops[i].entry()]
                + entries(on_key(rest.skip(i + 1), key))).push(ops.last().entry()));
        } else {
            assert(on_key(after, key) =~= on_key(rest.skip(i + 1), key));
        }
    }
}

/// Merges on a key that is neither put nor deleted are all kept, in their order.
pub proof fn law_merges_accumulate(ops: Seq<RecordOpView>, key: Seq<u8>)
    requires
        forall|j: int| 0 <= j < ops.len() && (#[trigger] ops[j]).key() == key ==> ops[j] is Merge,
    ensures
        entries_of(batch_of(ops), key) == entries(on_key(ops, key)),
    decreases ops.len(),
{
    reveal(Seq::filter);
    if ops.len() == 0 {
        assert(entries(on_key(ops, key)) =~= Seq::empty());
    } else {
        let rest = ops.drop_last();
        assert forall|j: int|
            0 <= j < rest.len() && (#[trigger] rest[j]).key() == key implies rest[j] is Merge by {
            assert(ops[j].key() == key);
        }
        law_merges_accumulate(rest, key);
        if ops.last().key() == key {
            assert(ops[ops.len() - 1] is Merge);
            assert(on_key(ops, key) =~= on_key(rest, key).push(ops.last()));
            assert(entries(on_key(ops, key)) =~= entries(on_key(rest, key)).push(
                ops.last().entry(),
            ));
        } else {
            assert(on_key(ops, key) =~= on_key(rest, key));
        }
    }
}

/// Putting records is applying the puts of them.
pub proof fn law_put_is_apply_of_puts(records: Seq<PutRecordOp>)
    ensures
        ({
            let ops = records.map_values(|op: PutRecordOp| RecordOp::Put(op));
            &&& all_fit(put_views(records)) == all_fit(op_views(ops))
            &&& batch_of(put_views(records)) == batch_of(op_views(ops))
        }),
{
    let ops = records.map_values(|op: PutRecordOp| RecordOp::Put(op));
    assert(put_views(records) =~= op_views(ops));
}

/// Merging records is applying the merges of them.
pub proof fn law_merge_is_apply_of_merges(records: Seq<MergeRecordOp>)
    ensures
        ({
            let ops = records.map_values(|op: MergeRecordOp| RecordOp::Merge(op));
            &&& all_fit(merge_views(records)) == all_fit(op_views(ops))
            &&& batch_of(merge_views(records)) == batch_of(op_views(ops))
        }),
{
    let ops = records.map_values(|op: MergeRecordOp| RecordOp::Merge(op));
    assert(merge_views(records) =~= op_views(ops));
}

/// What was put last under a key is read back unchanged: if SlateDB answers a
/// read of the key with the value that the batch puts there, [`get_result`]
/// gives the record written, and so does [`next_result`] for a scan that meets
/// the key.
pub proof fn law_read_gives_back_the_record_put_last<E: std::fmt::Display>(
    ops: Seq<RecordOpView>,
    i: int,
    key: Bytes,
    value: Bytes,
    ttl: Ttl,
)
    requires
        0 <= i < ops.len(),
        ops[i] is Put,
        forall|j: int| i < j < ops.len() ==> (#[trigger] ops[j]).key() != ops[i].key(),
        bytes_of(key) == ops[i].key(),
        entries_of(batch_of(ops), bytes_of(key)) == seq![
            BatchEntry::Put { value: bytes_of(value), ttl },
        ],
    ensures
        forall|result: StorageResult<Option<Record>>| #[trigger]
            call_ensures(get_result::<E>, (key, Ok(Some(value))), result) ==> (result matches Ok(
                Some(record),
            ) && ops[i] == RecordOpView::Put(record@, ttl)),
        forall|result: StorageResult<Option<Record>>| #[trigger]
            call_ensures(next_result::<E>, (Ok(Some((key, value))),), result) ==> (
            result matches Ok(Some(record)) && ops[i] == RecordOpView::Put(record@, ttl)),
{
    law_last_put_or_delete_decides(ops, i);
    let held = entries_of(batch_of(ops), bytes_of(key));
    assert(held[0] == ops[i].entry());
}

/// A key that the batch deletes last is read back as absent: if SlateDB answers
/// a read of it with no value, [`get_result`] gives no record.
pub proof fn law_read_gives_no_record_after_a_delete<E: std::fmt::Display>(
    ops: Seq<RecordOpView>,
    i: int,
    key: Bytes,
)
    requires
        0 <= i < ops.len(),
        ops[i] is Delete,
        forall|j: int| i < j < ops.len() ==> (#[trigger] ops[j]).key() != ops[i].key(),
        bytes_of(key) == ops[i].key(),
    ensures
        entries_of(batch_of(ops), bytes_of(key)) == seq![BatchEntry::Delete],
        forall|result: StorageResult<Option<Record>>| #[trigger]
            call_ensures(get_result::<E>, (key, Ok(None)), result) ==> result == Ok::<
                Option<Record>,
                StorageError,
            >(None),
{
    law_last_put_or_delete_decides(ops, i);
    lemma_no_operation_on_key(ops.skip(i + 1), ops[i].key());
    assert(seq![ops[i].entry()] + entries(Seq::empty()) =~= seq![ops[i].entry()]);
}

proof fn lemma_no_operation_on_key(ops: Seq<RecordOpView>, key: Seq<u8>)
    requires
        forall|j: int| 0 <= j < ops.len() ==> (#[trigger] ops[j]).key() != key,
    ensures
        on_key(ops, key) == Seq::<RecordOpView>::empty(),
    decreases ops.len(),
{
    reveal(Seq::filter);
    if ops.len() > 0 {
        let rest = ops.drop_last();
        assert forall|j: int| 0 <= j < rest.len() implies (#[trigger] rest[j]).key() != key by {
            assert(ops[j].key() != key);
        }
        lemma_no_operation_on_key(rest, key);
        assert(ops[ops.len() - 1].key() != key);
    }
}

/// Converting an error gives the same as converting its text: the storage error
/// whose message is that text and nothing else. `text` is what the error
/// displays as, whenever it is asked.
pub proof fn law_converting_the_text_gives_the_same_error<E: std::fmt::Display>(
    e: E,
    text: String,
    from_error: StorageError,
    from_text: StorageError,
)
    requires
        to_string_from_display_ensures(&e, text),
        forall|shown: String| #[trigger]
            to_string_from_display_ensures(&e, shown) ==> shown@ == text@,
        call_ensures(StorageError::from_storage, (e,), from_error),
        call_ensures(StorageError::from_storage, (text,), from_text),
    ensures
        from_error@ == StorageErrorView::Storage(text@),
        from_text@ == from_error@,
{
}

/// The answers of an iterator that gives `records` and goes on.
pub open spec fn answers_of(records: Seq<Record>) -> Seq<StorageResult<Option<Record>>> {
    records.map_values(|record: Record| Ok::<Option<Record>, StorageError>(Some(record)))
}

/// A scan goes on as long as records come, and loses and reorders none.
pub proof fn law_scan_collects_every_record(records: Seq<Record>)
    ensures
        scan_after(answers_of(records)) == ScanView::Running(records),
    decreases records.len(),
{
    if records.len() == 0 {
        assert(records =~= Seq::empty());
    } else {
        law_scan_collects_every_record(records.drop_last());
        assert(answers_of(records).drop_last() =~= answers_of(records.drop_last()));
        assert(records.drop_last().push(records.last()) =~= records);
    }
}

/// A scan that reaches the end of its range gives every record, in order.
pub proof fn law_scan_gives_every_record(records: Seq<Record>)
    ensures
        scan_after(answers_of(records).push(Ok(None))) == ScanView::Finished(Ok(records)),
{
    law_scan_collects_every_record(records);
    assert(answers_of(records).push(Ok(None)).drop_last() =~= answers_of(records));
}

/// A scan that meets an error gives the error and none of the records before it.
pub proof fn law_scan_gives_the_first_error(records: Seq<Record>, e: StorageError)
    ensures
        scan_after(answers_of(records).push(Err(e))) == ScanView::Finished(Err(e)),
{
    law_scan_collects_every_record(records);
    assert(answers_of(records).push(Err(e)).drop_last() =~= answers_of(records));
}

/// A scan that is over stays as it is, whatever an iterator might still say.
pub proof fn law_finished_scan_stays(
    answers: Seq<StorageResult<Option<Record>>>,
    more: Seq<StorageResult<Option<Record>>>,
)
    requires
        scan_after(answers) is Finished,
    ensures
        scan_after(answers + more) == scan_after(answers),
    decreases more.len(),
{
    if more.len() == 0 {
        assert(answers + more =~= answers);
    } else {
        law_finished_scan_stays(answers, more.drop_last());
        assert((answers + more).drop_last() =~= answers + more.drop_last());
    }
}

/// A read/write storage whose steps all succeed is opened at the configured
/// path with exactly what the steps gave: the object store, the settings, the
/// cache if one was built, the metrics recorder in any case, and the merge
/// operator if one was provided.
pub proof fn law_storage_is_opened_with_what_it_was_given<B: Backend>(
    config: &SlateDbStorageConfig<B>,
    metrics_recorder: B::MetricsRecorder,
    merge_operator: Option<B::MergeOperator>,
    object_store: B::ObjectStore,
    settings: B::Settings,
    cache: Option<B::Cache>,
)
    ensures
        ({
            let build = StorageBuild { config, metrics_recorder, merge_operator };
            let with_store = build.after_object_store(Ok(object_store));
            &&& with_store is Ok
            &&& with_store->Ok_0.after_settings(settings).after_cache(Ok(cache)) == Ok::<
                StoragePlan<B>,
                StorageError,
            >(
                StoragePlan {
                    path: config.path,
                    object_store,
                    settings,
                    metrics_recorder,
                    cache,
                    merge_operator,
                },
            )
        }),
{
}

/// An object store or a cache that cannot be made ends the build of a
/// read/write storage with its own error.
pub proof fn law_failed_step_ends_the_storage_build<B: Backend>(
    build: StorageBuild<'_, B>,
    with_settings: StorageBuildWithSettings<'_, B>,
    e: StorageError,
)
    ensures
        build.after_object_store(Err(e)) == Err::<StorageBuildWithStore<'_, B>, StorageError>(e),
        with_settings.after_cache(Err(e)) == Err::<StoragePlan<B>, StorageError>(e),
{
}

/// A reader whose steps all succeed is opened at the configured path with
/// exactly what it was given and the steps gave: the object store, the options,
/// the checkpoint if it is pinned to one, the cache if one was built, the
/// metrics recorder in any case, and the merge operator if one was provided.
pub proof fn law_reader_is_opened_with_what_it_was_given<B: Backend>(
    build: ReaderBuild<'_, B>,
    object_store: B::ObjectStore,
    cache: Option<B::Cache>,
)
    ensures
        ({
            let with_store = build.after_object_store(Ok(object_store));
            &&& with_store is Ok
            &&& with_store->Ok_0.after_cache(Ok(cache)) == Ok::<ReaderPlan<B>, StorageError>(
                ReaderPlan {
                    path: build.config.path,
                    object_store,
                    options: build.options,
                    metrics_recorder: build.metrics_recorder,
                    checkpoint_id: build.checkpoint_id,
                    merge_operator: build.merge_operator,
                    cache,
                },
            )
        }),
{
}

/// An object store or a cache that cannot be made ends the build of a reader
/// with its own error.
pub proof fn law_failed_step_ends_the_reader_build<B: Backend>(
    build: ReaderBuild<'_, B>,
    with_store: ReaderBuildWithStore<'_, B>,
    e: StorageError,
)
    ensures
        build.after_object_store(Err(e)) == Err::<ReaderBuildWithStore<'_, B>, StorageError>(e),
        with_store.after_cache(Err(e)) == Err::<ReaderPlan<B>, StorageError>(e),
{
}

} // verus!
