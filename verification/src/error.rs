//! What can go wrong: the store refuses an operation, or a name cannot be
//! handed to the store at all.

use vstd::prelude::*;

verus! {

/// A failure that the store reported for one call.
#[derive(Clone, Copy, Debug, PartialEq, Eq, Structural)]
pub struct StoreError {
    /// The code that the call returned; negative for every failure.
    pub code: i32,
    /// The class under which the store recorded the failure.
    pub class: i32,
}

/// The error of every branch operation.
#[derive(Clone, Copy, Debug, PartialEq, Eq, Structural)]
pub enum Error {
    /// The store rejected the operation.
    StoreError(StoreError),
    /// A name holds a zero byte and cannot be handed to the store.
    InvalidName,
}

/// The code with which the store says that an enumeration has no further entry.
pub open spec fn end_of_iteration() -> i32 {
    -31i32
}

/// The code with which the store says that what was asked for does not exist.
pub open spec fn not_found() -> i32 {
    -3i32
}

/// `libgit2_sys::GIT_ITEROVER`: the constant is -31.
#[verifier::external_body]
fn raw_iterover() -> (code: i32)
    ensures
        code == end_of_iteration(),
{
    libgit2_sys::GIT_ITEROVER
}

/// `libgit2_sys::GIT_ENOTFOUND`: the constant is -3.
#[verifier::external_body]
fn raw_not_found() -> (code: i32)
    ensures
        code == not_found(),
{
    libgit2_sys::GIT_ENOTFOUND
}

impl StoreError {
    /// Reads the code that a store call returned: a negative code is a
    /// failure, recorded with the class that the store gave it; zero and
    /// positive codes are none.
    pub fn from_code(code: i32, class: i32) -> (res: Option<StoreError>)
        ensures
            code < 0 ==> res == Some(StoreError { code, class }),
            code >= 0 ==> res is None,
    {
        if code < 0 {
            Some(StoreError { code, class })
        } else {
            None
        }
    }

    /// Whether this is the store's signal that an enumeration is over.
    pub fn is_end_of_iteration(&self) -> (res: bool)
        ensures
            res == (self.code == end_of_iteration()),
    {
        self.code == raw_iterover()
    }

    /// Whether the store failed because what was asked for does not exist.
    pub fn is_not_found(&self) -> (res: bool)
        ensures
            res == (self.code == not_found()),
    {
        self.code == raw_not_found()
    }
}

} // verus!
