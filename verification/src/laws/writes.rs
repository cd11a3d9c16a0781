//! What a write hands to SlateDB, for every list of operations.

use vstd::prelude::*;

use crate::batch::{
    batch_of, entries_of, merge_views, op_views, put_views, BatchEntry, WriteRequest,
};
use crate::ops::{
    MergeRecordOp, PutRecordOp, Record, RecordOp, RecordOpView, StorageResult, WriteOptions,
};
use crate::outside::{batch_entries, bytes_of};
use crate::slate::get_result;

verus! {

/// The bytes of the key that an operation names.
pub open spec fn named_key(op: RecordOp) -> Seq<u8> {
    match op {
        RecordOp::Put(op) => bytes_of(op.record.key),
        RecordOp::Merge(op) => bytes_of(op.record.key),
        RecordOp::Delete(key) => bytes_of(key),
    }
}

/// What is held for the key of an operation that no later one touches: its own
/// effect alone, or, for a merge, its own effect after that of the operations
/// before it.
proof fn lemma_last_operation(ops: Seq<RecordOpView>, i: int)
    requires
        0 <= i < ops.len(),
        forall|j: int| i < j < ops.len() ==> (#[trigger] ops[j]).key() != ops[i].key(),
    ensures
        batch_of(ops).contains_key(ops[i].key()),
        batch_of(ops)[ops[i].key()] == if ops[i] is Merge {
            entries_of(batch_of(ops.take(i)), ops[i].key()).push(ops[i].entry())
        } else {
            seq![ops[i].entry()]
        },
    decreases ops.len(),
{
    let rest = ops.drop_last();
    if i == ops.len() - 1 {
        assert(ops.take(i) =~= rest);
    } else {
        assert forall|j: int| i < j < rest.len() implies (#[trigger] rest[j]).key()
            != rest[i].key() by {
            assert(ops[j].key() != ops[i].key());
        }
        lemma_last_operation(rest, i);
        assert(rest.take(i) =~= ops.take(i));
        assert(ops[ops.len() - 1].key() != ops[i].key());
    }
}

/// A put that no later operation on its key follows is all that the batch holds
/// for the key, with its own value and time-to-live.
pub proof fn law_last_put_is_sent_as_it_is(
    records: Vec<RecordOp>,
    options: WriteOptions,
    request: WriteRequest,
    i: int,
    put: PutRecordOp,
)
    requires
        call_ensures(WriteRequest::apply_with_options, (records, options), request),
        0 <= i < records@.len(),
        records@[i] == RecordOp::Put(put),
        forall|j: int|
            i < j < records@.len() ==> named_key(#[trigger] records@[j]) != bytes_of(
                put.record.key,
            ),
    ensures
        batch_entries(request.batch).contains_key(bytes_of(put.record.key)),
        batch_entries(request.batch)[bytes_of(put.record.key)] == seq![
            BatchEntry::Put { value: bytes_of(put.record.value), ttl: put.options.ttl },
        ],
{
    let views = op_views(records@);
    assert forall|j: int| i < j < views.len() implies (#[trigger] views[j]).key()
        != views[i].key() by {
        assert(named_key(records@[j]) != bytes_of(put.record.key));
    }
    lemma_last_operation(views, i);
}

/// A merge that no later operation on its key follows is the last that the
/// batch holds for the key, with its own value and time-to-live.
pub proof fn law_last_merge_is_sent_as_it_is(
    records: Vec<RecordOp>,
    options: WriteOptions,
    request: WriteRequest,
    i: int,
    merge: MergeRecordOp,
)
    requires
        call_ensures(WriteRequest::apply_with_options, (records, options), request),
        0 <= i < records@.len(),
        records@[i] == RecordOp::Merge(merge),
        forall|j: int|
            i < j < records@.len() ==> named_key(#[trigger] records@[j]) != bytes_of(
                merge.record.key,
            ),
    ensures
        batch_entries(request.batch).contains_key(bytes_of(merge.record.key)),
        batch_entries(request.batch)[bytes_of(merge.record.key)].len() > 0,
        batch_entries(request.batch)[bytes_of(merge.record.key)].last() == (BatchEntry::Merge {
            value: bytes_of(merge.record.value),
            ttl: merge.options.ttl,
        }),
{
    let views = op_views(records@);
    assert forall|j: int| i < j < views.len() implies (#[trigger] views[j]).key()
        != views[i].key() by {
        assert(named_key(records@[j]) != bytes_of(merge.record.key));
    }
    lemma_last_operation(views, i);
}

/// A delete that no later operation on its key follows is all that the batch
/// holds for the key.
pub proof fn law_last_delete_is_sent_as_it_is(
    records: Vec<RecordOp>,
    options: WriteOptions,
    request: WriteRequest,
    i: int,
    key: bytes::Bytes,
)
    requires
        call_ensures(WriteRequest::apply_with_options, (records, options), request),
        0 <= i < records@.len(),
        records@[i] == RecordOp::Delete(key),
        forall|j: int|
            i < j < records@.len() ==> named_key(#[trigger] records@[j]) != bytes_of(key),
    ensures
        batch_entries(request.batch).contains_key(bytes_of(key)),
        batch_entries(request.batch)[bytes_of(key)] == seq![BatchEntry::Delete],
{
    let views = op_views(records@);
    assert forall|j: int| i < j < views.len() implies (#[trigger] views[j]).key()
        != views[i].key() by {
        assert(named_key(records@[j]) != bytes_of(key));
    }
    lemma_last_operation(views, i);
}

/// No operations make a batch that touches no key.
pub proof fn law_no_operations_make_an_empty_batch(
    records: Vec<RecordOp>,
    options: WriteOptions,
    request: WriteRequest,
)
    requires
        call_ensures(WriteRequest::apply_with_options, (records, options), request),
        records@.len() == 0,
    ensures
        forall|key: Seq<u8>| !#[trigger] batch_entries(request.batch).contains_key(key),
{
}

/// One more put makes the batch hold the put alone for its key, and changes
/// nothing for any other key.
pub proof fn law_one_more_put(
    before: Vec<RecordOp>,
    after: Vec<RecordOp>,
    put: PutRecordOp,
    first: WriteRequest,
    second: WriteRequest,
    options: WriteOptions,
)
    requires
        after@ == before@.push(RecordOp::Put(put)),
        call_ensures(WriteRequest::apply_with_options, (before, options), first),
        call_ensures(WriteRequest::apply_with_options, (after, options), second),
    ensures
        batch_entries(second.batch) == batch_entries(first.batch).insert(
            bytes_of(put.record.key),
            seq![BatchEntry::Put { value: bytes_of(put.record.value), ttl: put.options.ttl }],
        ),
{
    lemma_one_more(before@, RecordOp::Put(put));
}

/// One more merge makes the batch hold the merge after all that it held for the
/// key, and changes nothing for any other key.
pub proof fn law_one_more_merge(
    before: Vec<RecordOp>,
    after: Vec<RecordOp>,
    merge: MergeRecordOp,
    first: WriteRequest,
    second: WriteRequest,
    options: WriteOptions,
)
    requires
        after@ == before@.push(RecordOp::Merge(merge)),
        call_ensures(WriteRequest::apply_with_options, (before, options), first),
        call_ensures(WriteRequest::apply_with_options, (after, options), second),
    ensures
        ({
            let key = bytes_of(merge.record.key);
            let held = batch_entries(first.batch);
            let entry = BatchEntry::Merge {
                value: bytes_of(merge.record.value),
                ttl: merge.options.ttl,
            };
            &&& held.contains_key(key) ==> batch_entries(second.batch) == held.insert(
                key,
                held[key].push(entry),
            )
            &&& !held.contains_key(key) ==> batch_entries(second.batch) == held.insert(
                key,
                seq![entry],
            )
        }),
{
    lemma_one_more(before@, RecordOp::Merge(merge));
    let entry = BatchEntry::Merge { value: bytes_of(merge.record.value), ttl: merge.options.ttl };
    assert(Seq::empty().push(entry) =~= seq![entry]);
}

/// One more delete makes the batch hold the delete alone for its key, and
/// changes nothing for any other key.
pub proof fn law_one_more_delete(
    before: Vec<RecordOp>,
    after: Vec<RecordOp>,
    key: bytes::Bytes,
    first: WriteRequest,
    second: WriteRequest,
    options: WriteOptions,
)
    requires
        after@ == before@.push(RecordOp::Delete(key)),
        call_ensures(WriteRequest::apply_with_options, (before, options), first),
        call_ensures(WriteRequest::apply_with_options, (after, options), second),
    ensures
        batch_entries(second.batch) == batch_entries(first.batch).insert(
            bytes_of(key),
            seq![BatchEntry::Delete],
        ),
{
    lemma_one_more(before@, RecordOp::Delete(key));
}

proof fn lemma_one_more(ops: Seq<RecordOp>, op: RecordOp)
    ensures
        batch_of(op_views(ops.push(op))) == op@.added_to(batch_of(op_views(ops))),
{
    let views = op_views(ops.push(op));
    assert(views.drop_last() =~= op_views(ops));
    assert(views.last() == op@);
}

/// Putting records sends what applying the puts of them sends.
pub proof fn law_put_sends_what_apply_sends(
    records: Vec<PutRecordOp>,
    ops: Vec<RecordOp>,
    options: WriteOptions,
    put: WriteRequest,
    apply: WriteRequest,
)
    requires
        ops@.len() == records@.len(),
        forall|i: int|
            0 <= i < ops@.len() ==> #[trigger] ops@[i] == RecordOp::Put(records@[i]),
        call_ensures(WriteRequest::put_with_options, (records, options), put),
        call_ensures(WriteRequest::apply_with_options, (ops, options), apply),
    ensures
        batch_entries(put.batch) == batch_entries(apply.batch),
        put.options == apply.options,
{
    assert(put_views(records@) =~= op_views(ops@));
}

/// Merging records sends what applying the merges of them sends.
pub proof fn law_merge_sends_what_apply_sends(
    records: Vec<MergeRecordOp>,
    ops: Vec<RecordOp>,
    options: WriteOptions,
    merge: WriteRequest,
    apply: WriteRequest,
)
    requires
        ops@.len() == records@.len(),
        forall|i: int|
            0 <= i < ops@.len() ==> #[trigger] ops@[i] == RecordOp::Merge(records@[i]),
        call_ensures(WriteRequest::merge_with_options, (records, options), merge),
        call_ensures(WriteRequest::apply_with_options, (ops, options), apply),
    ensures
        batch_entries(merge.batch) == batch_entries(apply.batch),
        merge.options == apply.options,
{
    assert(merge_views(records@) =~= op_views(ops@));
}

/// The record put last under a key is all that a batch of puts holds for the
/// key, with its own value and time-to-live.
pub proof fn law_put_sends_the_last_record_of_a_key(
    records: Vec<PutRecordOp>,
    options: WriteOptions,
    request: WriteRequest,
    i: int,
)
    requires
        call_ensures(WriteRequest::put_with_options, (records, options), request),
        0 <= i < records@.len(),
        forall|j: int|
            i < j < records@.len() ==> bytes_of((#[trigger] records@[j]).record.key) != bytes_of(
                records@[i].record.key,
            ),
    ensures
        batch_entries(request.batch).contains_key(bytes_of(records@[i].record.key)),
        batch_entries(request.batch)[bytes_of(records@[i].record.key)] == seq![
            BatchEntry::Put {
                value: bytes_of(records@[i].record.value),
                ttl: records@[i].options.ttl,
            },
        ],
{
    let views = put_views(records@);
    assert forall|j: int| i < j < views.len() implies (#[trigger] views[j]).key()
        != views[i].key() by {
        assert(bytes_of(records@[j].record.key) != bytes_of(records@[i].record.key));
    }
    lemma_last_operation(views, i);
}

/// A record that is put is read back: the batch puts its value under its key,
/// and a read of the key that SlateDB answers with what the batch put there
/// gives the record, key and value unchanged.
pub proof fn law_put_record_is_read_back<E: std::fmt::Display>(
    records: Vec<PutRecordOp>,
    options: WriteOptions,
    request: WriteRequest,
    i: int,
    key: bytes::Bytes,
)
    requires
        call_ensures(WriteRequest::put_with_options, (records, options), request),
        0 <= i < records@.len(),
        forall|j: int|
            i < j < records@.len() ==> bytes_of((#[trigger] records@[j]).record.key) != bytes_of(
                records@[i].record.key,
            ),
        bytes_of(key) == bytes_of(records@[i].record.key),
    ensures
        ({
            let held = batch_entries(request.batch)[bytes_of(key)];
            &&& batch_entries(request.batch).contains_key(bytes_of(key))
            &&& held.len() == 1
            &&& held[0] is Put
            &&& forall|value: bytes::Bytes, result: StorageResult<Option<Record>>|
                bytes_of(value) == held[0]->Put_value && #[trigger] call_ensures(
                    get_result::<E>,
                    (key, Ok(Some(value))),
                    result,
                ) ==> {
                    &&& result is Ok
                    &&& result->Ok_0 is Some
                    &&& bytes_of(result->Ok_0->0.key) == bytes_of(records@[i].record.key)
                    &&& bytes_of(result->Ok_0->0.value) == bytes_of(records@[i].record.value)
                }
        }),
{
    law_put_sends_the_last_record_of_a_key(records, options, request, i);
}

/// The record merged last under a key is the last that a batch of merges holds
/// for the key, with its own value and time-to-live.
pub proof fn law_merge_sends_the_last_record_of_a_key(
    records: Vec<MergeRecordOp>,
    options: WriteOptions,
    request: WriteRequest,
    i: int,
)
    requires
        call_ensures(WriteRequest::merge_with_options, (records, options), request),
        0 <= i < records@.len(),
        forall|j: int|
            i < j < records@.len() ==> bytes_of((#[trigger] records@[j]).record.key) != bytes_of(
                records@[i].record.key,
            ),
    ensures
        batch_entries(request.batch).contains_key(bytes_of(records@[i].record.key)),
        batch_entries(request.batch)[bytes_of(records@[i].record.key)].len() > 0,
        batch_entries(request.batch)[bytes_of(records@[i].record.key)].last() == (
        BatchEntry::Merge {
            value: bytes_of(records@[i].record.value),
            ttl: records@[i].options.ttl,
        }),
{
    let views = merge_views(records@);
    assert forall|j: int| i < j < views.len() implies (#[trigger] views[j]).key()
        != views[i].key() by {
        assert(bytes_of(records@[j].record.key) != bytes_of(records@[i].record.key));
    }
    lemma_last_operation(views, i);
}

/// Merges with keys of their own are all sent, each alone under its key.
pub proof fn law_merge_under_a_key_of_its_own_is_sent_alone(
    records: Vec<MergeRecordOp>,
    options: WriteOptions,
    request: WriteRequest,
    i: int,
)
    requires
        call_ensures(WriteRequest::merge_with_options, (records, options), request),
        0 <= i < records@.len(),
        forall|j: int|
            0 <= j < records@.len() && j != i ==> bytes_of((#[trigger] records@[j]).record.key)
                != bytes_of(records@[i].record.key),
    ensures
        batch_entries(request.batch)[bytes_of(records@[i].record.key)] == seq![
            BatchEntry::Merge {
                value: bytes_of(records@[i].record.value),
                ttl: records@[i].options.ttl,
            },
        ],
{
    let views = merge_views(records@);
    let key = views[i].key();
    assert forall|j: int| i < j < views.len() implies (#[trigger] views[j]).key() != key by {
        assert(bytes_of(records@[j].record.key) != bytes_of(records@[i].record.key));
    }
    lemma_last_operation(views, i);
    let before = views.take(i);
    assert forall|j: int| 0 <= j < before.len() implies (#[trigger] before[j]).key() != key by {
        assert(bytes_of(records@[j].record.key) != bytes_of(records@[i].record.key));
    }
    crate::laws::law_batch_touches_the_keys_of_its_operations(before, key);
    assert(entries_of(batch_of(before), key) =~= Seq::empty());
    assert(Seq::empty().push(views[i].entry()) =~= seq![views[i].entry()]);
}

/// A write waits for durable storage if and only if its options say so, and
/// what it sends does not depend on that.
pub proof fn law_options_decide_durability_alone(
    ops: Vec<RecordOp>,
    puts: Vec<PutRecordOp>,
    merges: Vec<MergeRecordOp>,
    one: WriteOptions,
    other: WriteOptions,
)
    ensures
        forall|request: WriteRequest| #[trigger]
            call_ensures(WriteRequest::apply_with_options, (ops, one), request)
                ==> request.options.await_durable == one.await_durable,
        forall|request: WriteRequest| #[trigger]
            call_ensures(WriteRequest::put_with_options, (puts, one), request)
                ==> request.options.await_durable == one.await_durable,
        forall|request: WriteRequest| #[trigger]
            call_ensures(WriteRequest::merge_with_options, (merges, one), request)
                ==> request.options.await_durable == one.await_durable,
        forall|a: WriteRequest, b: WriteRequest|
            #![trigger call_ensures(WriteRequest::apply_with_options, (ops, one), a),
                call_ensures(WriteRequest::apply_with_options, (ops, other), b)]
            call_ensures(WriteRequest::apply_with_options, (ops, one), a) && call_ensures(
                WriteRequest::apply_with_options,
                (ops, other),
                b,
            ) ==> batch_entries(a.batch) == batch_entries(b.batch),
        forall|a: WriteRequest, b: WriteRequest|
            #![trigger call_ensures(WriteRequest::put_with_options, (puts, one), a),
                call_ensures(WriteRequest::put_with_options, (puts, other), b)]
            call_ensures(WriteRequest::put_with_options, (puts, one), a) && call_ensures(
                WriteRequest::put_with_options,
                (puts, other),
                b,
            ) ==> batch_entries(a.batch) == batch_entries(b.batch),
        forall|a: WriteRequest, b: WriteRequest|
            #![trigger call_ensures(WriteRequest::merge_with_options, (merges, one), a),
                call_ensures(WriteRequest::merge_with_options, (merges, other), b)]
            call_ensures(WriteRequest::merge_with_options, (merges, one), a) && call_ensures(
                WriteRequest::merge_with_options,
                (merges, other),
                b,
            ) ==> batch_entries(a.batch) == batch_entries(b.batch),
{
}

/// A write without options sends what the same write with any options sends,
/// and does not wait for durable storage.
pub proof fn law_writes_do_not_wait_by_default(
    ops: Vec<RecordOp>,
    puts: Vec<PutRecordOp>,
    merges: Vec<MergeRecordOp>,
    options: WriteOptions,
)
    ensures
        forall|a: WriteRequest, b: WriteRequest|
            #![trigger call_ensures(WriteRequest::apply, (ops,), a),
                call_ensures(WriteRequest::apply_with_options, (ops, options), b)]
            call_ensures(WriteRequest::apply, (ops,), a) && call_ensures(
                WriteRequest::apply_with_options,
                (ops, options),
                b,
            ) ==> batch_entries(a.batch) == batch_entries(b.batch) && !a.options.await_durable,
        forall|a: WriteRequest, b: WriteRequest|
            #![trigger call_ensures(WriteRequest::put, (puts,), a),
                call_ensures(WriteRequest::put_with_options, (puts, options), b)]
            call_ensures(WriteRequest::put, (puts,), a) && call_ensures(
                WriteRequest::put_with_options,
                (puts, options),
                b,
            ) ==> batch_entries(a.batch) == batch_entries(b.batch) && !a.options.await_durable,
        forall|a: WriteRequest, b: WriteRequest|
            #![trigger call_ensures(WriteRequest::merge, (merges,), a),
                call_ensures(WriteRequest::merge_with_options, (merges, options), b)]
            call_ensures(WriteRequest::merge, (merges,), a) && call_ensures(
                WriteRequest::merge_with_options,
                (merges, options),
                b,
            ) ==> batch_entries(a.batch) == batch_entries(b.batch) && !a.options.await_durable,
{
}

/// A key of 1 to 65535 bytes.
pub open spec fn key_in_bounds(key: bytes::Bytes) -> bool {
    1 <= bytes_of(key).len() <= 65535
}

/// An operation with a key of 1 to 65535 bytes and, if it writes a value, a
/// value of at most 4294967295 bytes.
pub open spec fn in_bounds(op: RecordOp) -> bool {
    match op {
        RecordOp::Put(op) => key_in_bounds(op.record.key) && bytes_of(op.record.value).len()
            <= 4294967295,
        RecordOp::Merge(op) => key_in_bounds(op.record.key) && bytes_of(op.record.value).len()
            <= 4294967295,
        RecordOp::Delete(key) => key_in_bounds(key),
    }
}

/// A delete is taken if and only if its key has 1 to 65535 bytes.
pub proof fn law_delete_is_taken_by_the_length_of_its_key(key: bytes::Bytes, taken: bool)
    requires
        call_ensures(RecordOp::fits, (&RecordOp::Delete(key),), taken),
    ensures
        taken <==> 1 <= bytes_of(key).len() <= 65535,
{
}

/// A put is taken if and only if its key has 1 to 65535 bytes and its value at
/// most 4294967295, alone or as an operation of a batch.
pub proof fn law_put_is_taken_by_its_lengths(put: PutRecordOp)
    ensures
        forall|taken: bool| #[trigger]
            call_ensures(PutRecordOp::fits, (&put,), taken) ==> (taken <==> 1 <= bytes_of(
                put.record.key,
            ).len() <= 65535 && bytes_of(put.record.value).len() <= 4294967295),
        forall|taken: bool| #[trigger]
            call_ensures(RecordOp::fits, (&RecordOp::Put(put),), taken) ==> (taken <==> 1
                <= bytes_of(put.record.key).len() <= 65535 && bytes_of(put.record.value).len()
                <= 4294967295),
{
}

/// A merge is taken if and only if its key has 1 to 65535 bytes and its value
/// at most 4294967295, alone or as an operation of a batch.
pub proof fn law_merge_is_taken_by_its_lengths(merge: MergeRecordOp)
    ensures
        forall|taken: bool| #[trigger]
            call_ensures(MergeRecordOp::fits, (&merge,), taken) ==> (taken <==> 1 <= bytes_of(
                merge.record.key,
            ).len() <= 65535 && bytes_of(merge.record.value).len() <= 4294967295),
        forall|taken: bool| #[trigger]
            call_ensures(RecordOp::fits, (&RecordOp::Merge(merge),), taken) ==> (taken <==> 1
                <= bytes_of(merge.record.key).len() <= 65535 && bytes_of(merge.record.value).len()
                <= 4294967295),
{
}

/// Operations that are in bounds may be applied, and a checked batch is made if
/// and only if all of its operations are. It is then the batch that the
/// unchecked call makes.
pub proof fn law_operations_in_bounds_are_applied(
    records: Vec<RecordOp>,
    options: WriteOptions,
    checked: Option<WriteRequest>,
)
    requires
        call_ensures(WriteRequest::checked_apply_with_options, (records, options), checked),
    ensures
        checked is Some <==> forall|i: int|
            0 <= i < records@.len() ==> in_bounds(#[trigger] records@[i]),
        checked is Some ==> call_requires(WriteRequest::apply_with_options, (records, options))
            && call_requires(WriteRequest::apply, (records,)),
        checked matches Some(request) ==> request.options.await_durable == options.await_durable,
        forall|request: WriteRequest| #[trigger]
            call_ensures(WriteRequest::apply_with_options, (records, options), request) && checked
                is Some ==> batch_entries(checked->0.batch) == batch_entries(request.batch),
{
    let views = op_views(records@);
    assert forall|i: int| 0 <= i < records@.len() implies in_bounds(#[trigger] records@[i])
        == views[i].fits() by {}
    if checked is Some {
        assert forall|i: int| 0 <= i < records@.len() implies in_bounds(#[trigger] records@[i]) by {
            assert(views[i].fits());
        }
    } else {
        let i = choose|i: int| 0 <= i < views.len() && !(#[trigger] views[i]).fits();
        assert(!in_bounds(records@[i]));
    }
}

/// Records in bounds may be put, and a checked batch of puts is made if and
/// only if all of its records are. It is then the batch that the unchecked call
/// makes.
pub proof fn law_records_in_bounds_are_put(
    records: Vec<PutRecordOp>,
    options: WriteOptions,
    checked: Option<WriteRequest>,
)
    requires
        call_ensures(WriteRequest::checked_put_with_options, (records, options), checked),
    ensures
        checked is Some <==> forall|i: int|
            0 <= i < records@.len() ==> in_bounds(RecordOp::Put(#[trigger] records@[i])),
        checked is Some ==> call_requires(WriteRequest::put_with_options, (records, options))
            && call_requires(WriteRequest::put, (records,)),
        checked matches Some(request) ==> request.options.await_durable == options.await_durable,
        forall|request: WriteRequest| #[trigger]
            call_ensures(WriteRequest::put_with_options, (records, options), request) && checked
                is Some ==> batch_entries(checked->0.batch) == batch_entries(request.batch),
{
    let views = put_views(records@);
    if checked is Some {
        assert forall|i: int| 0 <= i < records@.len() implies in_bounds(
            RecordOp::Put(#[trigger] records@[i]),
        ) by {
            assert(views[i].fits());
        }
    } else {
        let i = choose|i: int| 0 <= i < views.len() && !(#[trigger] views[i]).fits();
        assert(!in_bounds(RecordOp::Put(records@[i])));
    }
}

/// Records in bounds may be merged, and a checked batch of merges is made if
/// and only if all of its records are. It is then the batch that the unchecked
/// call makes.
pub proof fn law_records_in_bounds_are_merged(
    records: Vec<MergeRecordOp>,
    options: WriteOptions,
    checked: Option<WriteRequest>,
)
    requires
        call_ensures(WriteRequest::checked_merge_with_options, (records, options), checked),
    ensures
        checked is Some <==> forall|i: int|
            0 <= i < records@.len() ==> in_bounds(RecordOp::Merge(#[trigger] records@[i])),
        checked is Some ==> call_requires(WriteRequest::merge_with_options, (records, options))
            && call_requires(WriteRequest::merge, (records,)),
        checked matches Some(request) ==> request.options.await_durable == options.await_durable,
        forall|request: WriteRequest| #[trigger]
            call_ensures(WriteRequest::merge_with_options, (records, options), request) && checked
                is Some ==> batch_entries(checked->0.batch) == batch_entries(request.batch),
{
    let views = merge_views(records@);
    if checked is Some {
        assert forall|i: int| 0 <= i < records@.len() implies in_bounds(
            RecordOp::Merge(#[trigger] records@[i]),
        ) by {
            assert(views[i].fits());
        }
    } else {
        let i = choose|i: int| 0 <= i < views.len() && !(#[trigger] views[i]).fits();
        assert(!in_bounds(RecordOp::Merge(records@[i])));
    }
}

} // verus!
