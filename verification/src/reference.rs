//! The reference that a branch wraps, as the values that the branch logic
//! reads from it.

use crate::error::StoreError;
use std::cmp::Ordering;
use vstd::prelude::*;

verus! {

/// One named pointer of the store, as the store handed it out.
///
/// A reference is a snapshot: it does not change when the repository does.
/// It holds the handle by which the store knows it, and what the store
/// answers when asked for its branch name: the name's bytes, or the failure
/// with which the store refuses (as for a reference that is no branch).
#[derive(Debug)]
pub struct Reference {
    raw: u64,
    branch_name: Result<Vec<u8>, StoreError>,
}

/// What a [`Reference`] stands for.
pub struct ReferenceView {
    /// The store's handle.
    pub raw: u64,
    /// The store's answer to the question for the branch name.
    pub branch_name: Result<Seq<u8>, StoreError>,
}

/// The store's answer to the question for a branch name, with the bytes as
/// a sequence.
pub open spec fn name_answer(answer: Result<Vec<u8>, StoreError>) -> Result<Seq<u8>, StoreError> {
    match answer {
        Ok(bytes) => Ok(bytes@),
        Err(e) => Err(e),
    }
}

/// The order of two references that the store's comparison reports: a
/// negative answer puts the first before the second, zero makes them equal,
/// a positive answer puts the first after the second.
pub open spec fn reference_order(answer: i32) -> Ordering {
    if answer < 0 {
        Ordering::Less
    } else if answer == 0 {
        Ordering::Equal
    } else {
        Ordering::Greater
    }
}

impl View for Reference {
    type V = ReferenceView;

    closed spec fn view(&self) -> ReferenceView {
        ReferenceView { raw: self.raw, branch_name: name_answer(self.branch_name) }
    }
}

impl Reference {
    /// A reference with the handle `raw`, for which the store answers
    /// `branch_name` when asked for its branch name.
    pub fn new(raw: u64, branch_name: Result<Vec<u8>, StoreError>) -> (res: Reference)
        ensures
            res@ == (ReferenceView { raw, branch_name: name_answer(branch_name) }),
    {
        Reference { raw, branch_name }
    }

    /// The handle to pass to the store.
    pub fn raw(&self) -> (res: u64)
        ensures
            res == self@.raw,
    {
        self.raw
    }

    /// The store's answer to the question for the branch name.
    pub fn branch_name(&self) -> (res: Result<&[u8], StoreError>)
        ensures
            match self@.branch_name {
                Ok(bytes) => res matches Ok(slice) && slice@ == bytes,
                Err(e) => res matches Err(failure) && failure == e,
            },
    {
        match &self.branch_name {
            Ok(bytes) => Ok(bytes.as_slice()),
            Err(e) => Err(*e),
        }
    }

    /// Reads the answer of the store's comparison of two references.
    pub fn order(answer: i32) -> (res: Ordering)
        ensures
            res == reference_order(answer),
    {
        if answer < 0 {
            Ordering::Less
        } else if answer == 0 {
            Ordering::Equal
        } else {
            Ordering::Greater
        }
    }
}

} // verus!
