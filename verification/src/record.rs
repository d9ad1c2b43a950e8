//! The book itself: a byte string with a bound on its length, kept in a
//! `BoundedVec` of `frame_support`.

use frame_support::traits::ConstU32;
use frame_support::BoundedVec;
use vstd::prelude::*;

verus! {

/// `frame_support::traits::ConstU32`, the type that stands for one `u32`.
/// Nothing is said of it; it only names the bound of a book.
#[verifier::external_type_specification]
#[verifier::external_body]
pub struct ExConstU32<const N: u32>(ConstU32<N>);

/// `frame_support::BoundedVec`, a vector that is never longer than its bound.
/// What one holds is known only through [`record_bytes`].
#[verifier::external_type_specification]
#[verifier::external_body]
#[verifier::reject_recursive_types(T)]
#[verifier::reject_recursive_types(S)]
pub struct ExBoundedVec<T, S>(BoundedVec<T, S>);

/// The greatest number of bytes a book may hold.
pub const MAX_STRING_LENGTH: usize = 256;

/// The bound of a book, as the type that `BoundedVec` asks for.
pub type MaxStringLength = ConstU32<256>;

/// A book: a byte string of at most [`MAX_STRING_LENGTH`] bytes.
pub type BookRecord = BoundedVec<u8, MaxStringLength>;

/// The bytes that a book holds, in order.
pub uninterp spec fn record_bytes(book: BookRecord) -> Seq<u8>;

/// Calls `BoundedVec::try_from` on a vector of bytes.
///
/// Taken on trust: the call succeeds exactly when `data` has at most 256
/// bytes; the book it then gives holds the bytes of `data`, in order; a `data`
/// that it refuses comes back as it was.
#[verifier::external_body]
pub(crate) fn bounded_from(data: Vec<u8>) -> (r: Result<BookRecord, Vec<u8>>)
    ensures
        match r {
            Ok(book) => data@.len() <= MAX_STRING_LENGTH && record_bytes(book) == data@,
            Err(rejected) => data@.len() > MAX_STRING_LENGTH && rejected == data,
        },
{
    BoundedVec::try_from(data)
}

/// Calls `clone` on a book.
///
/// Taken on trust: the clone holds the same bytes as the book.
#[verifier::external_body]
pub(crate) fn clone_record(book: &BookRecord) -> (r: BookRecord)
    ensures
        record_bytes(r) == record_bytes(*book),
{
    book.clone()
}

} // verus!
