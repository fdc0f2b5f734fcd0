//! The calls that the operations of a branch make on the store. Each call
//! says what to hand to the store, and its `finish` reads the store's reply.

use crate::branch::Branch;
use crate::error::Error;
use crate::error::StoreError;
use crate::name::has_nul;
use crate::reference::Reference;
use vstd::prelude::*;

verus! {

/// What an operation without a value returns for the store's reply: the
/// store's failure, as it is, or nothing.
pub open spec fn done(reply: Result<(), StoreError>) -> Result<(), Error> {
    match reply {
        Ok(_) => Ok(()),
        Err(e) => Err(Error::StoreError(e)),
    }
}

/// Whether `res` is what an operation that yields a branch returns for the
/// store's reply: the store's failure, as it is, or the branch that wraps
/// the reference that the store handed out.
pub open spec fn wraps(res: Result<Branch, Error>, reply: Result<Reference, StoreError>) -> bool {
    match reply {
        Ok(reference) => res matches Ok(branch) && branch@ == reference@,
        Err(e) => res matches Err(failure) && failure == Error::StoreError(e),
    }
}

/// The deletion of a branch, waiting for the store.
#[derive(Debug, PartialEq, Eq, Structural)]
pub struct Delete {
    /// The handle of the reference to delete.
    pub reference: u64,
}

/// The question whether a branch is the one that is checked out, waiting for
/// the store.
#[derive(Debug, PartialEq, Eq, Structural)]
pub struct IsHead {
    /// The handle of the reference that is asked about.
    pub reference: u64,
}

/// The question for the upstream of a branch, waiting for the store.
#[derive(Debug, PartialEq, Eq, Structural)]
pub struct Upstream {
    /// The handle of the reference whose upstream is asked for.
    pub reference: u64,
}

/// The renaming of a branch, waiting for the store. The new name has passed
/// its check.
#[derive(Debug)]
pub struct Rename {
    reference: u64,
    new_name: Vec<u8>,
    force: bool,
}

/// What a [`Rename`] hands to the store.
pub struct RenameView {
    /// The handle of the reference to rename.
    pub reference: u64,
    /// The new name's bytes, none of them zero.
    pub new_name: Seq<u8>,
    /// Whether a branch that has the new name already is overwritten.
    pub force: bool,
}

/// The change of the upstream of a branch, waiting for the store. The name
/// of the new upstream has passed its check.
#[derive(Debug)]
pub struct SetUpstream {
    reference: u64,
    upstream_name: Option<Vec<u8>>,
}

/// What a [`SetUpstream`] hands to the store.
pub struct SetUpstreamView {
    /// The handle of the reference whose upstream changes.
    pub reference: u64,
    /// The bytes of the upstream's name, none of them zero, or nothing where
    /// the upstream is to be unset.
    pub upstream_name: Option<Seq<u8>>,
}

impl Delete {
    /// Reads the store's reply to the deletion.
    pub fn finish(self, reply: Result<(), StoreError>) -> (res: Result<(), Error>)
        ensures
            res == done(reply),
    {
        match reply {
            Ok(_) => Ok(()),
            Err(e) => Err(Error::StoreError(e)),
        }
    }
}

impl IsHead {
    /// Reads the store's answer: only the answer 1 says that the branch is
    /// checked out, and every other answer, a failure too, says that it is
    /// not.
    pub fn finish(self, answer: i32) -> (res: bool)
        ensures
            res == (answer == 1),
    {
        answer == 1
    }
}

impl Upstream {
    /// Reads the store's reply: the upstream is the branch around the
    /// reference that the store handed out.
    pub fn finish(self, reply: Result<Reference, StoreError>) -> (res: Result<Branch, Error>)
        ensures
            wraps(res, reply),
    {
        match reply {
            Ok(reference) => Ok(Branch::wrap(reference)),
            Err(e) => Err(Error::StoreError(e)),
        }
    }
}

impl View for Rename {
    type V = RenameView;

    closed spec fn view(&self) -> RenameView {
        RenameView { reference: self.reference, new_name: self.new_name@, force: self.force }
    }
}

impl Rename {
    /// No rename holds a name that the store would cut short.
    #[verifier::type_invariant]
    spec fn name_is_whole(self) -> bool {
        !has_nul(self.new_name@)
    }

    pub(crate) fn new(reference: u64, new_name: Vec<u8>, force: bool) -> (res: Rename)
        requires
            !has_nul(new_name@),
        ensures
            res@ == (RenameView { reference, new_name: new_name@, force }),
    {
        Rename { reference, new_name, force }
    }

    /// The handle of the reference to rename.
    pub fn reference(&self) -> (res: u64)
        ensures
            res == self@.reference,
    {
        self.reference
    }

    /// The new name, to hand to the store: no byte of it is zero.
    pub fn new_name(&self) -> (res: &[u8])
        ensures
            res@ == self@.new_name,
            !has_nul(res@),
    {
        proof {
            use_type_invariant(self);
        }
        self.new_name.as_slice()
    }

    /// Whether a branch that has the new name already is overwritten.
    pub fn force(&self) -> (res: bool)
        ensures
            res == self@.force,
    {
        self.force
    }

    /// Reads the store's reply: the renamed branch is a new one, around the
    /// reference that the store handed out.
    pub fn finish(self, reply: Result<Reference, StoreError>) -> (res: Result<Branch, Error>)
        ensures
            wraps(res, reply),
    {
        match reply {
            Ok(reference) => Ok(Branch::wrap(reference)),
            Err(e) => Err(Error::StoreError(e)),
        }
    }
}

impl View for SetUpstream {
    type V = SetUpstreamView;

    closed spec fn view(&self) -> SetUpstreamView {
        SetUpstreamView {
            reference: self.reference,
            upstream_name: match self.upstream_name {
                Some(bytes) => Some(bytes@),
                None => None,
            },
        }
    }
}

impl SetUpstream {
    /// No change of the upstream holds a name that the store would cut short.
    #[verifier::type_invariant]
    spec fn name_is_whole(self) -> bool {
        self.upstream_name matches Some(bytes) ==> !has_nul(bytes@)
    }

    pub(crate) fn new(reference: u64, upstream_name: Option<Vec<u8>>) -> (res: SetUpstream)
        requires
            upstream_name matches Some(bytes) ==> !has_nul(bytes@),
        ensures
            res@ == (SetUpstreamView {
                reference,
                upstream_name: match upstream_name {
                    Some(bytes) => Some(bytes@),
                    None => None,
                },
            }),
    {
        SetUpstream { reference, upstream_name }
    }

    /// The handle of the reference whose upstream changes.
    pub fn reference(&self) -> (res: u64)
        ensures
            res == self@.reference,
    {
        self.reference
    }

    /// The name of the new upstream, to hand to the store, or nothing where
    /// the upstream is to be unset. No byte of the name is zero.
    pub fn upstream_name(&self) -> (res: Option<&[u8]>)
        ensures
            match self@.upstream_name {
                Some(bytes) => res matches Some(slice) && slice@ == bytes && !has_nul(bytes),
                None => res is None,
            },
    {
        proof {
            use_type_invariant(self);
        }
        match &self.upstream_name {
            Some(bytes) => Some(bytes.as_slice()),
            None => None,
        }
    }

    /// Reads the store's reply to the change.
    pub fn finish(self, reply: Result<(), StoreError>) -> (res: Result<(), Error>)
        ensures
            res == done(reply),
    {
        match reply {
            Ok(_) => Ok(()),
            Err(e) => Err(Error::StoreError(e)),
        }
    }
}

} // verus!
