//! A branch: one reference, with the operations and the order that make it
//! a branch.

use crate::call::Delete;
use crate::call::IsHead;
use crate::call::Rename;
use crate::call::RenameView;
use crate::call::SetUpstream;
use crate::call::SetUpstreamView;
use crate::call::Upstream;
use crate::error::Error;
use crate::error::StoreError;
use crate::name::encode;
use crate::name::encode_opt;
use crate::name::from_utf8;
use crate::name::has_nul;
use crate::order::compare;
use crate::order::lemma_lex_order_antisymmetric;
use crate::order::lemma_lex_order_equal_is_same;
use crate::order::lemma_lex_order_reflexive;
use crate::order::lemma_lex_order_transitive;
use crate::order::lex_order;
use crate::order::reversed;
use crate::reference::reference_order;
use crate::reference::Reference;
use crate::reference::ReferenceView;
use std::cmp::Ordering;
use vstd::prelude::*;
use vstd::string::StringSliceAdditionalSpecFns;
use vstd::utf8::decode_utf8;
use vstd::utf8::decode_utf8_encode_utf8;
use vstd::utf8::encode_utf8_decode_utf8;
use vstd::utf8::valid_utf8;

verus! {

/// A branch of a repository: a wrapper around the reference that is the
/// branch. A branch is as valid as its reference, and stands for the same
/// values.
#[derive(Debug)]
pub struct Branch {
    inner: Reference,
}

impl View for Branch {
    type V = ReferenceView;

    closed spec fn view(&self) -> ReferenceView {
        self.inner@
    }
}

/// The name of a branch in its three states: the store's failure where it
/// produced no name, nothing where the name's bytes are not UTF-8, and the
/// decoded name otherwise.
pub open spec fn resolved_name(branch: ReferenceView) -> Result<Option<Seq<char>>, Error> {
    match branch.branch_name {
        Ok(bytes) => if valid_utf8(bytes) {
            Ok(Some(decode_utf8(bytes)))
        } else {
            Ok(None)
        },
        Err(e) => Err(Error::StoreError(e)),
    }
}

/// The bytes by which a branch is sorted: those of its name, where the
/// store produced one and it is UTF-8.
pub open spec fn sort_name(branch: ReferenceView) -> Option<Seq<u8>> {
    match branch.branch_name {
        Ok(bytes) => if valid_utf8(bytes) {
            Some(bytes)
        } else {
            None
        },
        Err(_) => None,
    }
}

/// The order of two branches as far as their names decide it. Two branches
/// with a name to sort by are ordered by these names, byte by byte. A branch
/// with such a name comes before one without. Of two branches without, the
/// names decide nothing.
pub open spec fn name_order(left: ReferenceView, right: ReferenceView) -> Option<Ordering> {
    match (sort_name(left), sort_name(right)) {
        (Some(l), Some(r)) => Some(lex_order(l, r)),
        (Some(_), None) => Some(Ordering::Less),
        (None, Some(_)) => Some(Ordering::Greater),
        (None, None) => None,
    }
}

/// The order of two branches: that of their names, and where the names
/// decide nothing, the order `references` in which the store has their
/// references.
pub open spec fn branch_order(
    left: ReferenceView,
    right: ReferenceView,
    references: Ordering,
) -> Ordering {
    match name_order(left, right) {
        Some(order) => order,
        None => references,
    }
}

impl Branch {
    /// Makes a branch of a reference.
    pub fn wrap(reference: Reference) -> (res: Branch)
        ensures
            res@ == reference@,
    {
        Branch { inner: reference }
    }

    /// The reference that is this branch.
    pub fn get(&self) -> (res: &Reference)
        ensures
            res@ == self@,
    {
        &self.inner
    }

    /// Gives up the branch for its reference.
    pub fn into_reference(self) -> (res: Reference)
        ensures
            res@ == self@,
    {
        self.inner
    }

    /// The deletion of this branch: the store is to delete the reference
    /// that is this branch. The branch itself stays as it is: after a
    /// deletion that went through, its reference is one that the store no
    /// longer knows.
    pub fn delete(&mut self) -> (call: Delete)
        ensures
            *final(self) == *old(self),
            call.reference == old(self)@.raw,
    {
        Delete { reference: self.inner.raw() }
    }

    /// The question whether this branch is the one that is checked out: the
    /// store is asked about the reference that is this branch.
    pub fn is_head(&self) -> (call: IsHead)
        ensures
            call.reference == self@.raw,
    {
        IsHead { reference: self.inner.raw() }
    }

    /// The renaming of this branch to `new_branch_name`: the name is checked,
    /// before the store is asked anything, and the store is to rename the
    /// reference that is this branch. With `force`, a branch that has the new
    /// name already is overwritten.
    pub fn rename(&mut self, new_branch_name: &str, force: bool) -> (res: Result<Rename, Error>)
        ensures
            *final(self) == *old(self),
            match res {
                Ok(call) => !has_nul(new_branch_name.spec_bytes()) && call@ == (RenameView {
                    reference: old(self)@.raw,
                    new_name: new_branch_name.spec_bytes(),
                    force,
                }),
                Err(e) => has_nul(new_branch_name.spec_bytes()) && e == Error::InvalidName,
            },
    {
        match encode(new_branch_name) {
            Ok(new_name) => Ok(Rename::new(self.inner.raw(), new_name, force)),
            Err(e) => Err(e),
        }
    }

    /// The raw bytes of this branch's name, as the store produced them, or
    /// the failure with which the store produced none.
    pub fn name_bytes(&self) -> (res: Result<&[u8], Error>)
        ensures
            match self@.branch_name {
                Ok(bytes) => res matches Ok(slice) && slice@ == bytes,
                Err(e) => res matches Err(failure) && failure == Error::StoreError(e),
            },
    {
        match self.inner.branch_name() {
            Ok(bytes) => Ok(bytes),
            Err(e) => Err(Error::StoreError(e)),
        }
    }

    /// The name of this branch. A name whose bytes are not UTF-8 is no
    /// error: the branch then has no name to show, and the result is
    /// `Ok(None)`.
    pub fn name(&self) -> (res: Result<Option<&str>, Error>)
        ensures
            match res {
                Ok(Some(name)) => resolved_name(self@) == Ok::<Option<Seq<char>>, Error>(
                    Some(name@),
                ) && self@.branch_name == Ok::<Seq<u8>, StoreError>(name.spec_bytes()),
                Ok(None) => resolved_name(self@) == Ok::<Option<Seq<char>>, Error>(None),
                Err(e) => resolved_name(self@) == Err::<Option<Seq<char>>, Error>(e),
            },
    {
        match self.name_bytes() {
            Ok(bytes) => {
                let decoded = from_utf8(bytes);
                proof {
                    if let Some(name) = decoded {
                        encode_utf8_decode_utf8(name@);
                    }
                }
                Ok(decoded)
            },
            Err(e) => Err(e),
        }
    }

    /// The question for the upstream of this branch, the branch that it
    /// follows: the store is asked about the reference that is this branch.
    pub fn upstream(&self) -> (call: Upstream)
        ensures
            call.reference == self@.raw,
    {
        Upstream { reference: self.inner.raw() }
    }

    /// The change of the upstream of this branch, to the branch named
    /// `upstream_name` or, with `None`, to none: the name is checked, before
    /// the store is asked anything, and the store is to change the upstream
    /// of the reference that is this branch.
    pub fn set_upstream(&mut self, upstream_name: Option<&str>) -> (res: Result<SetUpstream, Error>)
        ensures
            *final(self) == *old(self),
            match upstream_name {
                None => res matches Ok(call) && call@ == (SetUpstreamView {
                    reference: old(self)@.raw,
                    upstream_name: None,
                }),
                Some(name) => match res {
                    Ok(call) => !has_nul(name.spec_bytes()) && call@ == (SetUpstreamView {
                        reference: old(self)@.raw,
                        upstream_name: Some(name.spec_bytes()),
                    }),
                    Err(e) => has_nul(name.spec_bytes()) && e == Error::InvalidName,
                },
            },
    {
        match encode_opt(upstream_name) {
            Ok(upstream_name) => Ok(SetUpstream::new(self.inner.raw(), upstream_name)),
            Err(e) => Err(e),
        }
    }

    /// Orders this branch and `rhs` as far as their names decide it. The
    /// result is `None` where neither branch has a name to sort by: the
    /// store must then be asked to compare the two references.
    pub fn cmp_by_name(&self, rhs: &Branch) -> (res: Option<Ordering>)
        ensures
            res == name_order(self@, rhs@),
    {
        match (self.name(), rhs.name()) {
            (Ok(Some(lname)), Ok(Some(rname))) => Some(
                compare(lname.as_bytes(), rname.as_bytes()),
            ),
            (Ok(Some(_)), _) => Some(Ordering::Less),
            (_, Ok(Some(_))) => Some(Ordering::Greater),
            _ => None,
        }
    }

    /// Orders this branch and `rhs`, given the answer of the store's
    /// comparison of the reference of this branch with that of `rhs`. The
    /// answer decides only where neither branch has a name to sort by.
    pub fn cmp(&self, rhs: &Branch, references: i32) -> (res: Ordering)
        ensures
            res == branch_order(self@, rhs@, reference_order(references)),
    {
        match self.cmp_by_name(rhs) {
            Some(order) => order,
            None => Reference::order(references),
        }
    }

    /// Whether this branch and `rhs` are equal: they are where the order
    /// makes them so, whatever their references are.
    pub fn eq(&self, rhs: &Branch, references: i32) -> (res: bool)
        ensures
            res == (branch_order(self@, rhs@, reference_order(references)) == Ordering::Equal),
    {
        match self.cmp(rhs, references) {
            Ordering::Equal => true,
            _ => false,
        }
    }

    /// The order of this branch and `rhs`, which is always there.
    pub fn partial_cmp(&self, rhs: &Branch, references: i32) -> (res: Option<Ordering>)
        ensures
            res == Some(branch_order(self@, rhs@, reference_order(references))),
    {
        Some(self.cmp(rhs, references))
    }
}

/// A branch is equal to itself: the store finds a reference equal to itself,
/// and a name is equal to itself.
pub proof fn lemma_branch_order_reflexive(branch: ReferenceView)
    ensures
        branch_order(branch, branch, Ordering::Equal) == Ordering::Equal,
{
    if let Some(name) = sort_name(branch) {
        lemma_lex_order_reflexive(name);
    }
}

/// Swapping two branches reverses their order: `left` is after `right`
/// exactly where `right` is before `left`. The store's order of the two
/// references is taken from the other side as well.
pub proof fn lemma_branch_order_antisymmetric(
    left: ReferenceView,
    right: ReferenceView,
    references: Ordering,
)
    ensures
        branch_order(right, left, reversed(references)) == reversed(
            branch_order(left, right, references),
        ),
{
    if let (Some(l), Some(r)) = (sort_name(left), sort_name(right)) {
        lemma_lex_order_antisymmetric(l, r);
    }
}

/// The order of branches is transitive where the store's order of their
/// references is: a branch that is not after a second, which is not after a
/// third, is not after the third, and it is before the third if either step
/// is strict. `ab`, `bc` and `ac` are the store's orders of the references
/// of `a` and `b`, of `b` and `c`, and of `a` and `c`.
pub proof fn lemma_branch_order_transitive(
    a: ReferenceView,
    b: ReferenceView,
    c: ReferenceView,
    ab: Ordering,
    bc: Ordering,
    ac: Ordering,
)
    requires
        ab != Ordering::Greater && bc != Ordering::Greater ==> ac != Ordering::Greater,
        ab != Ordering::Greater && bc != Ordering::Greater && (ab == Ordering::Less || bc
            == Ordering::Less) ==> ac == Ordering::Less,
        branch_order(a, b, ab) != Ordering::Greater,
        branch_order(b, c, bc) != Ordering::Greater,
    ensures
        branch_order(a, c, ac) != Ordering::Greater,
        branch_order(a, b, ab) == Ordering::Less || branch_order(b, c, bc) == Ordering::Less
            ==> branch_order(a, c, ac) == Ordering::Less,
{
    if let (Some(x), Some(y), Some(z)) = (sort_name(a), sort_name(b), sort_name(c)) {
        lemma_lex_order_transitive(x, y, z);
    }
}

/// A branch whose name can be decoded sorts before every branch whose name
/// cannot, be it that the bytes are not UTF-8 or that the store produced no
/// name, and whatever the store makes of the two references.
pub proof fn lemma_named_before_unnamed(
    named: ReferenceView,
    unnamed: ReferenceView,
    references: Ordering,
)
    requires
        resolved_name(named) matches Ok(Some(_)),
        !(resolved_name(unnamed) matches Ok(Some(_))),
    ensures
        branch_order(named, unnamed, references) == Ordering::Less,
        branch_order(unnamed, named, references) == Ordering::Greater,
{
}

/// Two branches whose names can be decoded are equal exactly where the
/// names are the same: their handles and the store's order of their
/// references have no part in it.
pub proof fn lemma_equal_by_name(left: ReferenceView, right: ReferenceView, references: Ordering)
    requires
        resolved_name(left) matches Ok(Some(_)),
        resolved_name(right) matches Ok(Some(_)),
    ensures
        branch_order(left, right, references) == Ordering::Equal <==> resolved_name(left)
            == resolved_name(right),
{
    let l = left.branch_name->Ok_0;
    let r = right.branch_name->Ok_0;
    lemma_lex_order_equal_is_same(l, r);
    decode_utf8_encode_utf8(l);
    decode_utf8_encode_utf8(r);
}

} // verus!
