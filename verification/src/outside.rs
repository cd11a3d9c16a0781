//! What the crate takes on trust from `bytes`, `slatedb`, `uuid` and `std`.

use bytes::Bytes;
use slatedb::WriteBatch;
use vstd::prelude::*;

use crate::batch::{after_delete, after_merge, after_put, no_entries, BatchEntry};
use crate::ops::{MergeOptions, PutOptions, Ttl};
use crate::text::displays_as_itself;

verus! {

/// [`bytes::Bytes`], carried through as it is.
#[verifier::external_type_specification]
#[verifier::external_body]
pub struct ExBytes(bytes::Bytes);

/// [`uuid::Uuid`], carried through as it is.
#[verifier::external_type_specification]
#[verifier::external_body]
pub struct ExUuid(uuid::Uuid);

/// The bytes that a [`Bytes`] handle shows.
pub uninterp spec fn bytes_of(b: Bytes) -> Seq<u8>;

/// [`Bytes::new`] shows no bytes.
pub assume_specification[ bytes::Bytes::new ]() -> (b: bytes::Bytes)
    ensures
        bytes_of(b) == Seq::<u8>::empty(),
;

/// [`Bytes::len`] counts the bytes shown.
pub assume_specification[ bytes::Bytes::len ](b: &bytes::Bytes) -> (n: usize)
    ensures
        n == bytes_of(*b).len(),
;

/// [`Bytes`] clones to a handle that shows the same bytes.
pub assume_specification[ <bytes::Bytes as Clone>::clone ](b: &bytes::Bytes) -> (copy: bytes::Bytes)
    ensures
        bytes_of(copy) == bytes_of(*b),
;

/// [`slatedb::WriteBatch`], the set of writes that SlateDB applies atomically.
#[verifier::external_type_specification]
#[verifier::external_body]
pub struct ExWriteBatch(slatedb::WriteBatch);

/// What a batch will do to each key that it touches, in the order of the calls.
pub uninterp spec fn batch_entries(batch: WriteBatch) -> Map<Seq<u8>, Seq<BatchEntry>>;

/// How many writes the batch has been given so far; SlateDB numbers them in a `u64`.
pub uninterp spec fn batch_writes(batch: WriteBatch) -> nat;

/// [`WriteBatch::new`] touches no key.
pub assume_specification[ slatedb::WriteBatch::new ]() -> (batch: slatedb::WriteBatch)
    ensures
        batch_entries(batch) == no_entries(),
        batch_writes(batch) == 0,
;

/// [`WriteBatch::put_with_options`] drops what the batch held for the key and
/// holds the put alone, with the time-to-live it was given. It panics on an
/// empty key and on a key or value that is too long.
#[verifier::external_body]
pub(crate) fn batch_put(batch: &mut WriteBatch, key: Bytes, value: Bytes, options: PutOptions)
    requires
        0 < bytes_of(key).len() <= u16::MAX,
        bytes_of(value).len() <= u32::MAX,
        batch_writes(*old(batch)) < u64::MAX,
    ensures
        batch_entries(*final(batch)) == after_put(
            batch_entries(*old(batch)),
            bytes_of(key),
            bytes_of(value),
            options.ttl,
        ),
        batch_writes(*final(batch)) == batch_writes(*old(batch)) + 1,
{
    let ttl = match options.ttl {
        Ttl::Default => slatedb::config::Ttl::Default,
        Ttl::NoExpiry => slatedb::config::Ttl::NoExpiry,
        Ttl::ExpireAfter(ms) => slatedb::config::Ttl::ExpireAfter(ms),
        Ttl::ExpireAt(ms) => slatedb::config::Ttl::ExpireAt(ms),
    };
    batch.put_with_options(key, value, &slatedb::config::PutOptions { ttl });
}

/// [`WriteBatch::merge_with_options`] adds the operand after what the batch
/// held for the key, with the time-to-live it was given. It panics on an empty
/// key and on a key or value that is too long.
#[verifier::external_body]
pub(crate) fn batch_merge(batch: &mut WriteBatch, key: Bytes, value: Bytes, options: MergeOptions)
    requires
        0 < bytes_of(key).len() <= u16::MAX,
        bytes_of(value).len() <= u32::MAX,
        batch_writes(*old(batch)) < u64::MAX,
    ensures
        batch_entries(*final(batch)) == after_merge(
            batch_entries(*old(batch)),
            bytes_of(key),
            bytes_of(value),
            options.ttl,
        ),
        batch_writes(*final(batch)) == batch_writes(*old(batch)) + 1,
{
    let ttl = match options.ttl {
        Ttl::Default => slatedb::config::Ttl::Default,
        Ttl::NoExpiry => slatedb::config::Ttl::NoExpiry,
        Ttl::ExpireAfter(ms) => slatedb::config::Ttl::ExpireAfter(ms),
        Ttl::ExpireAt(ms) => slatedb::config::Ttl::ExpireAt(ms),
    };
    batch.merge_with_options(key, value, &slatedb::config::MergeOptions { ttl });
}

/// [`WriteBatch::delete`] drops what the batch held for the key and holds the
/// delete alone. It panics on an empty key and on a key that is too long.
#[verifier::external_body]
pub(crate) fn batch_delete(batch: &mut WriteBatch, key: Bytes)
    requires
        0 < bytes_of(key).len() <= u16::MAX,
        batch_writes(*old(batch)) < u64::MAX,
    ensures
        batch_entries(*final(batch)) == after_delete(batch_entries(*old(batch)), bytes_of(key)),
        batch_writes(*final(batch)) == batch_writes(*old(batch)) + 1,
{
    batch.delete(key);
}

/// [`ToString::to_string`] of a [`String`] gives the same string back: a
/// string, displayed, is its own text.
#[verifier::external_body]
pub(crate) fn string_text(s: String) -> (text: String)
    ensures
        text == s,
        displays_as_itself(text@),
{
    s.to_string()
}

} // verus!
