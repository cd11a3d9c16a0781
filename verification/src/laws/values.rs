//! What the value types carry, for every value that is put in.

use bytes::Bytes;
use vstd::prelude::*;
use vstd::string::to_string_from_display_ensures;

use crate::ops::{
    MergeOptions, MergeRecordOp, PutOptions, PutRecordOp, Record, RecordOp, StorageError, Ttl,
    WriteOptions,
};
use crate::outside::bytes_of;

verus! {

/// A record made of a key and a value has that key and that value.
pub proof fn law_record_keeps_key_and_value(key: Bytes, value: Bytes, record: Record)
    requires
        call_ensures(Record::new, (key, value), record),
    ensures
        record.key == key,
        record.value == value,
{
}

/// A record made of a key alone has that key and a value without bytes.
pub proof fn law_empty_record_keeps_key(key: Bytes, record: Record)
    requires
        call_ensures(Record::empty, (key,), record),
    ensures
        record.key == key,
        bytes_of(record.value).len() == 0,
{
}

/// A record turned into a put is that record, key and value unchanged, with the
/// database's default time-to-live; it is what making a new put of it gives.
pub proof fn law_record_becomes_a_put_of_itself(
    record: Record,
    converted: PutRecordOp,
    made: PutRecordOp,
)
    requires
        call_ensures(<PutRecordOp as From<Record>>::from, (record,), converted),
        call_ensures(PutRecordOp::new, (record,), made),
    ensures
        converted.record.key == record.key,
        converted.record.value == record.value,
        converted.options.ttl == Ttl::Default,
        converted == made,
{
}

/// A record turned into a merge is that record, key and value unchanged, with
/// the database's default time-to-live; it is what making a new merge of it
/// gives.
pub proof fn law_record_becomes_a_merge_of_itself(
    record: Record,
    converted: MergeRecordOp,
    made: MergeRecordOp,
)
    requires
        call_ensures(<MergeRecordOp as From<Record>>::from, (record,), converted),
        call_ensures(MergeRecordOp::new, (record,), made),
    ensures
        converted.record.key == record.key,
        converted.record.value == record.value,
        converted.options.ttl == Ttl::Default,
        converted == made,
{
}

/// A new put of a record has its key and value and the default time-to-live;
/// with options given, it has theirs. Giving a put options afterwards is the
/// same as giving them at once.
pub proof fn law_put_keeps_record_and_options(
    record: Record,
    options: PutOptions,
    plain: PutRecordOp,
    at_once: PutRecordOp,
    afterwards: PutRecordOp,
)
    requires
        call_ensures(PutRecordOp::new, (record,), plain),
        call_ensures(PutRecordOp::new_with_options, (record, options), at_once),
        call_ensures(PutRecordOp::with_options, (plain, options), afterwards),
    ensures
        plain.record.key == record.key,
        plain.record.value == record.value,
        plain.options.ttl == Ttl::Default,
        at_once.record.key == record.key,
        at_once.record.value == record.value,
        at_once.options.ttl == options.ttl,
        afterwards == at_once,
{
}

/// The options that a put is given last are the ones it has, and they do not
/// touch its record.
pub proof fn law_last_options_of_a_put_hold(
    put: PutRecordOp,
    first: PutOptions,
    second: PutOptions,
    once: PutRecordOp,
    twice: PutRecordOp,
)
    requires
        call_ensures(PutRecordOp::with_options, (put, first), once),
        call_ensures(PutRecordOp::with_options, (once, second), twice),
    ensures
        twice.record.key == put.record.key,
        twice.record.value == put.record.value,
        twice.options.ttl == second.ttl,
{
}

/// A new merge of a record has its key and value and the default time-to-live;
/// with options given, it has theirs.
pub proof fn law_merge_keeps_record_and_options(
    record: Record,
    options: MergeOptions,
    plain: MergeRecordOp,
    given: MergeRecordOp,
)
    requires
        call_ensures(MergeRecordOp::new, (record,), plain),
        call_ensures(MergeRecordOp::new_with_ttl, (record, options), given),
    ensures
        plain.record.key == record.key,
        plain.record.value == record.value,
        plain.options.ttl == Ttl::Default,
        given.record.key == record.key,
        given.record.value == record.value,
        given.options.ttl == options.ttl,
{
}

/// By default the database decides on the time-to-live, and a write does not
/// wait for durable storage.
pub proof fn law_defaults(
    ttl: Ttl,
    put_options: PutOptions,
    merge_options: MergeOptions,
    write_options: WriteOptions,
)
    requires
        call_ensures(<Ttl as Default>::default, (), ttl),
        call_ensures(<PutOptions as Default>::default, (), put_options),
        call_ensures(<MergeOptions as Default>::default, (), merge_options),
        call_ensures(<WriteOptions as Default>::default, (), write_options),
    ensures
        ttl == Ttl::Default,
        put_options.ttl == Ttl::Default,
        merge_options.ttl == Ttl::Default,
        !write_options.await_durable,
{
}

/// A copy of a record shows the same bytes.
pub proof fn law_copy_of_a_record_shows_the_same_bytes(record: Record, copy: Record)
    requires
        call_ensures(<Record as Clone>::clone, (&record,), copy),
    ensures
        bytes_of(copy.key) == bytes_of(record.key),
        bytes_of(copy.value) == bytes_of(record.value),
{
}

/// A copy of a put shows the same bytes and has the same time-to-live.
pub proof fn law_copy_of_a_put_is_the_same_put(put: PutRecordOp, copy: PutRecordOp)
    requires
        call_ensures(<PutRecordOp as Clone>::clone, (&put,), copy),
    ensures
        bytes_of(copy.record.key) == bytes_of(put.record.key),
        bytes_of(copy.record.value) == bytes_of(put.record.value),
        copy.options.ttl == put.options.ttl,
{
}

/// A copy of a merge shows the same bytes and has the same time-to-live.
pub proof fn law_copy_of_a_merge_is_the_same_merge(merge: MergeRecordOp, copy: MergeRecordOp)
    requires
        call_ensures(<MergeRecordOp as Clone>::clone, (&merge,), copy),
    ensures
        bytes_of(copy.record.key) == bytes_of(merge.record.key),
        bytes_of(copy.record.value) == bytes_of(merge.record.value),
        copy.options.ttl == merge.options.ttl,
{
}

/// A copy of an operation is of the same kind, shows the same bytes and has the
/// same time-to-live.
pub proof fn law_copy_of_an_operation_is_the_same_operation(op: RecordOp, copy: RecordOp)
    requires
        call_ensures(<RecordOp as Clone>::clone, (&op,), copy),
    ensures
        match op {
            RecordOp::Put(put) => {
                &&& copy is Put
                &&& bytes_of(copy->Put_0.record.key) == bytes_of(put.record.key)
                &&& bytes_of(copy->Put_0.record.value) == bytes_of(put.record.value)
                &&& copy->Put_0.options.ttl == put.options.ttl
            },
            RecordOp::Merge(merge) => {
                &&& copy is Merge
                &&& bytes_of(copy->Merge_0.record.key) == bytes_of(merge.record.key)
                &&& bytes_of(copy->Merge_0.record.value) == bytes_of(merge.record.value)
                &&& copy->Merge_0.options.ttl == merge.options.ttl
            },
            RecordOp::Delete(key) => {
                &&& copy is Delete
                &&& bytes_of(copy->Delete_0) == bytes_of(key)
            },
        },
{
}

/// A copy of write options says the same of durability, and a copy of an error
/// is of the same kind and has the same message.
pub proof fn law_copies_of_options_and_errors(
    options: WriteOptions,
    options_copy: WriteOptions,
    error: StorageError,
    error_copy: StorageError,
)
    requires
        call_ensures(<WriteOptions as Clone>::clone, (&options,), options_copy),
        call_ensures(<StorageError as Clone>::clone, (&error,), error_copy),
    ensures
        options_copy.await_durable == options.await_durable,
        match error {
            StorageError::Storage(msg) => error_copy is Storage && error_copy->Storage_0@ == msg@,
            StorageError::Internal(msg) => error_copy is Internal && error_copy->Internal_0@
                == msg@,
        },
{
}

/// Any error converted is a storage error, and its message is what the error
/// displays as, neither more nor less.
pub proof fn law_converted_error_is_a_storage_error_with_its_text<E: std::fmt::Display>(
    e: E,
    error: StorageError,
)
    requires
        call_ensures(StorageError::from_storage, (e,), error),
    ensures
        error is Storage,
        to_string_from_display_ensures(&e, error->Storage_0),
{
}

/// An error is shown as its kind, a colon, a space and its message.
pub proof fn law_error_is_shown_with_its_kind_and_message(error: StorageError, text: String)
    requires
        call_ensures(StorageError::to_string, (&error,), text),
    ensures
        match error {
            StorageError::Storage(msg) => text@ == "Storage error: "@ + msg@,
            StorageError::Internal(msg) => text@ == "Internal error: "@ + msg@,
        },
{
}

/// Two errors of one kind are shown alike only if their messages are the same,
/// and errors of different kinds are never shown alike.
pub proof fn law_errors_shown_alike_are_the_same(
    one: StorageError,
    other: StorageError,
    one_text: String,
    other_text: String,
)
    requires
        call_ensures(StorageError::to_string, (&one,), one_text),
        call_ensures(StorageError::to_string, (&other,), other_text),
        one_text@ == other_text@,
    ensures
        match (one, other) {
            (StorageError::Storage(a), StorageError::Storage(b)) => a@ == b@,
            (StorageError::Internal(a), StorageError::Internal(b)) => a@ == b@,
            _ => false,
        },
{
    reveal_strlit("Storage error: ");
    reveal_strlit("Internal error: ");
    match (one, other) {
        (StorageError::Storage(a), StorageError::Storage(b)) => {
            assert(a@ =~= one_text@.skip(15));
            assert(b@ =~= other_text@.skip(15));
        },
        (StorageError::Internal(a), StorageError::Internal(b)) => {
            assert(a@ =~= one_text@.skip(16));
            assert(b@ =~= other_text@.skip(16));
        },
        _ => {
            assert("Storage error: "@[0] == 'S');
            assert("Internal error: "@[0] == 'I');
            assert(one_text@[0] == if one is Storage { 'S' } else { 'I' });
            assert(other_text@[0] == if other is Storage { 'S' } else { 'I' });
        },
    }
}

} // verus!
