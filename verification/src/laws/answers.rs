//! What is asked of SlateDB and what its answers become, for every answer.

use bytes::Bytes;
use uuid::Uuid;
use vstd::prelude::*;
use vstd::string::to_string_from_display_ensures;

use crate::ops::{CheckpointInfo, Record, StorageError, StorageResult, WriteResult};
use crate::scan::{Scan, ScanStep};
use crate::slate::{
    checkpoint_result, checkpoint_scope, default_scan_options, get_result, merge_error,
    merge_result, next_result, storage_result, write_result, CheckpointScope, ScanOptions,
};
use crate::text::{occurs_at, occurs_in};

verus! {

/// Scans see committed data, durable or not yet, in ascending order. They read
/// a mebibyte ahead with four tasks and keep what they read in the cache.
pub proof fn law_scans_see_committed_data_in_ascending_order(options: ScanOptions)
    requires
        call_ensures(default_scan_options, (), options),
    ensures
        options.durability_filter is Memory,
        !options.dirty,
        options.order is Ascending,
        options.read_ahead_bytes == 1024 * 1024,
        options.max_fetch_tasks == 4,
        options.cache_blocks,
{
}

/// Checkpoints cover all data.
pub proof fn law_checkpoints_cover_all_data(scope: CheckpointScope)
    requires
        call_ensures(checkpoint_scope, (), scope),
    ensures
        scope is All,
{
}

/// An answer that is used as it is is neither changed nor lost, and a failure
/// becomes a storage error with the failure's text.
pub proof fn law_plain_answer_is_kept<T, E: std::fmt::Display>(
    value: T,
    e: E,
    good: StorageResult<T>,
    bad: StorageResult<T>,
)
    requires
        call_ensures(storage_result::<T, E>, (Ok(value),), good),
        call_ensures(storage_result::<T, E>, (Err(e),), bad),
    ensures
        good is Ok,
        good->Ok_0 == value,
        bad is Err,
        bad->Err_0 is Storage,
        to_string_from_display_ensures(&e, bad->Err_0->Storage_0),
{
}

/// A write that succeeds gives the sequence number that SlateDB gave it, and
/// one that fails a storage error with the failure's text.
pub proof fn law_write_gives_the_sequence_number<E: std::fmt::Display>(
    seqnum: u64,
    e: E,
    good: StorageResult<WriteResult>,
    bad: StorageResult<WriteResult>,
)
    requires
        call_ensures(write_result::<E>, (Ok(seqnum),), good),
        call_ensures(write_result::<E>, (Err(e),), bad),
    ensures
        good is Ok,
        good->Ok_0.seqnum == seqnum,
        bad is Err,
        bad->Err_0 is Storage,
        to_string_from_display_ensures(&e, bad->Err_0->Storage_0),
{
}

/// A read that finds a value gives the record of the key asked for and that
/// value; one that finds none gives no record; one that fails a storage error
/// with the failure's text.
pub proof fn law_read_gives_what_was_found_under_its_key<E: std::fmt::Display>(
    key: Bytes,
    value: Bytes,
    e: E,
    found: StorageResult<Option<Record>>,
    absent: StorageResult<Option<Record>>,
    bad: StorageResult<Option<Record>>,
)
    requires
        call_ensures(get_result::<E>, (key, Ok(Some(value))), found),
        call_ensures(get_result::<E>, (key, Ok(None)), absent),
        call_ensures(get_result::<E>, (key, Err(e)), bad),
    ensures
        found is Ok,
        found->Ok_0 is Some,
        found->Ok_0->0.key == key,
        found->Ok_0->0.value == value,
        absent is Ok,
        absent->Ok_0 is None,
        bad is Err,
        bad->Err_0 is Storage,
        to_string_from_display_ensures(&e, bad->Err_0->Storage_0),
{
}

/// A step of a scan that meets an entry gives the record of its key and value;
/// at the end it gives no record; one that fails a storage error with the
/// failure's text.
pub proof fn law_scan_step_gives_the_entry_met<E: std::fmt::Display>(
    key: Bytes,
    value: Bytes,
    e: E,
    met: StorageResult<Option<Record>>,
    end: StorageResult<Option<Record>>,
    bad: StorageResult<Option<Record>>,
)
    requires
        call_ensures(next_result::<E>, (Ok(Some((key, value))),), met),
        call_ensures(next_result::<E>, (Ok(None),), end),
        call_ensures(next_result::<E>, (Err(e),), bad),
    ensures
        met is Ok,
        met->Ok_0 is Some,
        met->Ok_0->0.key == key,
        met->Ok_0->0.value == value,
        end is Ok,
        end->Ok_0 is None,
        bad is Err,
        bad->Err_0 is Storage,
        to_string_from_display_ensures(&e, bad->Err_0->Storage_0),
{
}

/// A checkpoint that was created is named by its own id and its own manifest;
/// one that could not be is a storage error with the failure's text.
pub proof fn law_checkpoint_is_named_as_created<E: std::fmt::Display>(
    id: Uuid,
    manifest_id: u64,
    e: E,
    good: StorageResult<CheckpointInfo>,
    bad: StorageResult<CheckpointInfo>,
)
    requires
        call_ensures(checkpoint_result::<E>, (Ok((id, manifest_id)),), good),
        call_ensures(checkpoint_result::<E>, (Err(e),), bad),
    ensures
        good is Ok,
        good->Ok_0.id == id,
        good->Ok_0.manifest_id == manifest_id,
        bad is Err,
        bad->Err_0 is Storage,
        to_string_from_display_ensures(&e, bad->Err_0->Storage_0),
{
}

/// A part occurs in a text if and only if the text is something, then the part,
/// then something.
pub proof fn law_part_occurs_where_the_text_splits_around_it(text: Seq<char>, part: Seq<char>)
    ensures
        occurs_in(text, part) <==> exists|before: Seq<char>, after: Seq<char>|
            text == #[trigger] (before + part + after),
{
    if occurs_in(text, part) {
        let at = choose|at: int| occurs_at(text, part, at);
        let before = text.take(at);
        let after = text.skip(at + part.len());
        assert(text =~= before + part + after);
    }
    if exists|before: Seq<char>, after: Seq<char>| text == #[trigger] (before + part + after) {
        let (before, after) = choose|before: Seq<char>, after: Seq<char>|
            text == #[trigger] (before + part + after);
        let at = before.len() as int;
        assert(text.subrange(at, at + part.len()) =~= part);
        assert(occurs_at(text, part, at));
    }
}

/// A failed merge whose message speaks of a merge operator, or of something not
/// configured, is told clearly, whatever stands around those words.
pub proof fn law_missing_merge_operator_is_told_clearly(
    msg: String,
    error: StorageError,
    before: Seq<char>,
    after: Seq<char>,
)
    requires
        call_ensures(merge_error, (msg,), error),
        msg@ == before + "merge operator"@ + after || msg@ == before + "not configured"@ + after,
    ensures
        error is Storage,
        error->Storage_0@ == "Merge operator not configured for this database"@,
{
    law_part_occurs_where_the_text_splits_around_it(msg@, "merge operator"@);
    law_part_occurs_where_the_text_splits_around_it(msg@, "not configured"@);
}

/// A failed merge whose message speaks of neither keeps its message.
pub proof fn law_other_failures_of_a_merge_keep_their_message(msg: String, error: StorageError)
    requires
        call_ensures(merge_error, (msg,), error),
        forall|before: Seq<char>, after: Seq<char>|
            msg@ != #[trigger] (before + "merge operator"@ + after),
        forall|before: Seq<char>, after: Seq<char>|
            msg@ != #[trigger] (before + "not configured"@ + after),
    ensures
        error is Storage,
        error->Storage_0@ == msg@,
{
    law_part_occurs_where_the_text_splits_around_it(msg@, "merge operator"@);
    law_part_occurs_where_the_text_splits_around_it(msg@, "not configured"@);
}

/// A merge that succeeds gives the sequence number that SlateDB gave it. One
/// that fails is told as a failed merge with the failure's text is.
pub proof fn law_merge_gives_the_sequence_number_or_its_failure<E: std::fmt::Display>(
    seqnum: u64,
    e: E,
    text: String,
    good: StorageResult<WriteResult>,
    bad: StorageResult<WriteResult>,
    told: StorageError,
)
    requires
        to_string_from_display_ensures(&e, text),
        forall|shown: String| #[trigger]
            to_string_from_display_ensures(&e, shown) ==> shown@ == text@,
        call_ensures(merge_result::<E>, (Ok(seqnum),), good),
        call_ensures(merge_result::<E>, (Err(e),), bad),
        call_ensures(merge_error, (text,), told),
    ensures
        good is Ok,
        good->Ok_0.seqnum == seqnum,
        bad is Err,
        bad->Err_0 is Storage,
        told is Storage,
        bad->Err_0->Storage_0@ == told->Storage_0@,
{
}

/// A merge that fails for want of a merge operator is told clearly.
pub proof fn law_merge_without_operator_is_told_clearly<E: std::fmt::Display>(
    e: E,
    text: String,
    result: StorageResult<WriteResult>,
    before: Seq<char>,
    after: Seq<char>,
)
    requires
        to_string_from_display_ensures(&e, text),
        forall|shown: String| #[trigger]
            to_string_from_display_ensures(&e, shown) ==> shown@ == text@,
        call_ensures(merge_result::<E>, (Err(e),), result),
        text@ == before + "merge operator"@ + after || text@ == before + "not configured"@ + after,
    ensures
        result is Err,
        result->Err_0 is Storage,
        result->Err_0->Storage_0@ == "Merge operator not configured for this database"@,
{
    law_part_occurs_where_the_text_splits_around_it(text@, "merge operator"@);
    law_part_occurs_where_the_text_splits_around_it(text@, "not configured"@);
}

/// A merge that fails for any other reason keeps the failure's text.
pub proof fn law_merge_that_fails_otherwise_keeps_the_text<E: std::fmt::Display>(
    e: E,
    text: String,
    result: StorageResult<WriteResult>,
)
    requires
        to_string_from_display_ensures(&e, text),
        forall|shown: String| #[trigger]
            to_string_from_display_ensures(&e, shown) ==> shown@ == text@,
        call_ensures(merge_result::<E>, (Err(e),), result),
        forall|before: Seq<char>, after: Seq<char>|
            text@ != #[trigger] (before + "merge operator"@ + after),
        forall|before: Seq<char>, after: Seq<char>|
            text@ != #[trigger] (before + "not configured"@ + after),
    ensures
        result is Err,
        result->Err_0 is Storage,
        result->Err_0->Storage_0@ == text@,
{
    law_part_occurs_where_the_text_splits_around_it(text@, "merge operator"@);
    law_part_occurs_where_the_text_splits_around_it(text@, "not configured"@);
}

/// The scans `scans` are those of one run: the first is new, and each one that
/// follows comes of the one before it by the next of `records`.
pub open spec fn run_of(scans: Seq<Scan>, records: Seq<Record>) -> bool {
    &&& scans.len() == records.len() + 1
    &&& call_ensures(Scan::new, (), scans[0])
    &&& forall|i: int|
        0 <= i < records.len() ==> call_ensures(
            Scan::next,
            (scans[i], Ok(Some(#[trigger] records[i]))),
            ScanStep::Continue(scans[i + 1]),
        )
}

proof fn lemma_run_collects(scans: Seq<Scan>, records: Seq<Record>)
    requires
        run_of(scans, records),
    ensures
        scans.last()@ == records,
    decreases records.len(),
{
    if records.len() == 0 {
        assert(records =~= Seq::empty());
    } else {
        let rest = records.drop_last();
        assert forall|i: int| 0 <= i < rest.len() implies call_ensures(
            Scan::next,
            (scans.drop_last()[i], Ok(Some(#[trigger] rest[i]))),
            ScanStep::Continue(scans.drop_last()[i + 1]),
        ) by {
            assert(records[i] == rest[i]);
        }
        lemma_run_collects(scans.drop_last(), rest);
        let last = records.len() - 1;
        assert(records[last] == records.last());
        assert(scans[last]@ == rest);
        assert(rest.push(records.last()) =~= records);
    }
}

/// A scan that is given some records and then the end is over, and gives those
/// records, all of them, in the order in which they came.
pub proof fn law_run_of_a_scan_gives_the_records_it_was_given(
    scans: Seq<Scan>,
    records: Seq<Record>,
    step: ScanStep,
)
    requires
        run_of(scans, records),
        call_ensures(Scan::next, (scans.last(), Ok(None)), step),
    ensures
        step is Finished,
        step->Finished_0 is Ok,
        step->Finished_0->Ok_0@ == records,
{
    lemma_run_collects(scans, records);
}

/// A scan that is given a record goes on.
pub proof fn law_scan_goes_on_after_a_record(scan: Scan, record: Record, step: ScanStep)
    requires
        call_ensures(Scan::next, (scan, Ok(Some(record))), step),
    ensures
        step is Continue,
{
}

/// A scan that is given an error is over, with that very error.
pub proof fn law_scan_ends_with_the_error_it_was_given(scan: Scan, e: StorageError, step: ScanStep)
    requires
        call_ensures(Scan::next, (scan, Err(e)), step),
    ensures
        step is Finished,
        step->Finished_0 is Err,
        step->Finished_0->Err_0 == e,
{
}

} // verus!
