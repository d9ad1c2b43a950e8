//! The failures of the calls.

use vstd::prelude::*;

verus! {

/// The failures that belong to the book store.
#[derive(Clone, Copy, Debug, PartialEq, Eq)]
pub enum Error {
    /// A value was expected and none was there. No call raises it.
    NoneValue,
    /// The bytes of a book were more than a book may hold.
    StorageOverflow,
    /// No book is stored under the key. No call raises it: a lookup that
    /// finds nothing succeeds and reports the absence in its event.
    BookNotFound,
}

/// Why a call failed.
#[derive(Clone, Copy, Debug, PartialEq, Eq)]
pub enum DispatchError {
    /// The call did not come from a signed origin.
    BadOrigin,
    /// The book store refused the call.
    Module(Error),
}

} // verus!
