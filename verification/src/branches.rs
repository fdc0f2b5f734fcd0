//! The enumeration of a repository's branches, over a cursor that the store
//! owns and that is to be released exactly once.

use crate::branch::Branch;
use crate::error::end_of_iteration;
use crate::error::Error;
use crate::error::StoreError;
use crate::reference::Reference;
use vstd::prelude::*;

verus! {

/// The two kinds of branch.
#[derive(Clone, Copy, Debug, PartialEq, Eq, Structural)]
pub enum BranchType {
    /// A branch of the repository itself.
    Local,
    /// A branch that follows one of another repository.
    Remote,
}

/// The kind that a tag of the store stands for: 1 for a local branch, 2 for
/// a remote one, and no kind for any other tag.
pub open spec fn kind_of(tag: u32) -> Option<BranchType> {
    if tag == 1 {
        Some(BranchType::Local)
    } else if tag == 2 {
        Some(BranchType::Remote)
    } else {
        None
    }
}

/// `libgit2_sys::GIT_BRANCH_LOCAL`: the constant is 1.
#[verifier::external_body]
fn raw_branch_local() -> (tag: u32)
    ensures
        tag == 1,
{
    libgit2_sys::GIT_BRANCH_LOCAL
}

/// `libgit2_sys::GIT_BRANCH_REMOTE`: the constant is 2.
#[verifier::external_body]
fn raw_branch_remote() -> (tag: u32)
    ensures
        tag == 2,
{
    libgit2_sys::GIT_BRANCH_REMOTE
}

impl BranchType {
    /// Reads a tag of the store.
    pub fn from_raw(tag: u32) -> (res: Option<BranchType>)
        ensures
            res == kind_of(tag),
    {
        if tag == raw_branch_local() {
            Some(BranchType::Local)
        } else if tag == raw_branch_remote() {
            Some(BranchType::Remote)
        } else {
            None
        }
    }
}

/// An enumeration of the branches of a repository, in the order of the
/// store. It holds the store's cursor, and knows whether it has handed the
/// cursor back for release.
#[derive(Debug)]
pub struct Branches {
    raw: u64,
    released: bool,
}

/// What a [`Branches`] stands for.
pub struct BranchesView {
    /// The store's cursor.
    pub raw: u64,
    /// Whether the cursor has been handed back for release.
    pub released: bool,
}

impl View for Branches {
    type V = BranchesView;

    closed spec fn view(&self) -> BranchesView {
        BranchesView { raw: self.raw, released: self.released }
    }
}

/// The question for the next entry of an enumeration, waiting for the store.
#[derive(Debug, PartialEq, Eq, Structural)]
pub struct Advance {
    /// The cursor of the enumeration.
    pub cursor: u64,
}

/// Whether `res` is what one step of an enumeration yields for the store's
/// reply: nothing where the store says that there is no further entry, the
/// store's failure where it reports another one, and else the branch that
/// wraps the reference of the entry, with the kind that the entry's tag
/// stands for.
pub open spec fn yields(
    res: Option<Result<(Branch, BranchType), Error>>,
    reply: Result<(Reference, u32), StoreError>,
) -> bool {
    match reply {
        Ok((reference, tag)) => res matches Some(Ok((branch, kind))) && branch@ == reference@
            && Some(kind) == kind_of(tag),
        Err(e) => if e.code == end_of_iteration() {
            res is None
        } else {
            res matches Some(Err(failure)) && failure == Error::StoreError(e)
        },
    }
}

/// The enumeration after its release.
pub open spec fn after_release(branches: BranchesView) -> BranchesView {
    BranchesView { raw: branches.raw, released: true }
}

/// The cursor that a release hands back to be freed: the enumeration's
/// cursor, unless an earlier release has handed it back already.
pub open spec fn cursor_to_free(branches: BranchesView) -> Option<u64> {
    if branches.released {
        None
    } else {
        Some(branches.raw)
    }
}

impl Advance {
    /// Reads the store's reply. A tag that stands for no kind is a fault of
    /// the store that cannot be mended: such a reply must not be handed in.
    pub fn finish(self, reply: Result<(Reference, u32), StoreError>) -> (res: Option<
        Result<(Branch, BranchType), Error>,
    >)
        requires
            reply matches Ok((_, tag)) ==> kind_of(tag) is Some,
        ensures
            yields(res, reply),
    {
        match reply {
            Ok((reference, tag)) => {
                let kind = if tag == raw_branch_local() {
                    BranchType::Local
                } else {
                    BranchType::Remote
                };
                Some(Ok((Branch::wrap(reference), kind)))
            },
            Err(e) => if e.is_end_of_iteration() {
                None
            } else {
                Some(Err(Error::StoreError(e)))
            },
        }
    }
}

impl Branches {
    /// An enumeration over the cursor `raw`, which the store has made and
    /// which nothing else releases. The cursor is taken on trust.
    pub fn from_raw(raw: u64) -> (res: Branches)
        ensures
            res@ == (BranchesView { raw, released: false }),
    {
        Branches { raw, released: false }
    }

    /// The cursor to pass to the store.
    pub fn raw(&self) -> (res: u64)
        ensures
            res == self@.raw,
    {
        self.raw
    }

    /// Whether the cursor has been handed back for release.
    pub fn is_released(&self) -> (res: bool)
        ensures
            res == self@.released,
    {
        self.released
    }

    /// The question for the next entry: the store is asked with the cursor
    /// of this enumeration. After the release there is nothing to ask, and
    /// the enumeration has ended.
    pub fn next(&mut self) -> (res: Option<Advance>)
        ensures
            *final(self) == *old(self),
            res == (if old(self)@.released {
                None
            } else {
                Some(Advance { cursor: old(self)@.raw })
            }),
    {
        if self.released {
            None
        } else {
            Some(Advance { cursor: self.raw })
        }
    }

    /// Ends the enumeration, at any point of it: hands back the cursor, for
    /// the caller to free it. Only the first release hands it back.
    pub fn release(&mut self) -> (res: Option<u64>)
        ensures
            final(self)@ == after_release(old(self)@),
            res == cursor_to_free(old(self)@),
    {
        if self.released {
            None
        } else {
            self.released = true;
            Some(self.raw)
        }
    }
}

/// What is done with an enumeration, one step at a time.
pub enum Step {
    /// The next entry is asked for.
    Next,
    /// The enumeration is released.
    Release,
}

/// The enumeration after one step: only a release changes it.
pub open spec fn after_step(branches: BranchesView, step: Step) -> BranchesView {
    match step {
        Step::Next => branches,
        Step::Release => after_release(branches),
    }
}

/// The number of times that the cursor is handed back to be freed, over a
/// run of steps.
pub open spec fn times_freed(branches: BranchesView, steps: Seq<Step>) -> nat
    decreases steps.len(),
{
    if steps.len() == 0 {
        0
    } else {
        let first: nat = match steps[0] {
            Step::Next => 0,
            Step::Release => if cursor_to_free(branches) is Some {
                1
            } else {
                0
            },
        };
        first + times_freed(after_step(branches, steps[0]), steps.drop_first())
    }
}

/// Whatever is done with an enumeration that has been released, its cursor
/// is not handed back again.
pub proof fn lemma_released_stays_released(branches: BranchesView, steps: Seq<Step>)
    requires
        branches.released,
    ensures
        times_freed(branches, steps) == 0,
    decreases steps.len(),
{
    if steps.len() > 0 {
        lemma_released_stays_released(after_step(branches, steps[0]), steps.drop_first());
    }
}

/// The cursor of an enumeration is released exactly once. Over any run of
/// steps on an enumeration that has not been released, the cursor is handed
/// back to be freed one time if a release is among the steps, however many
/// entries were asked for before it and whatever is done after it, and not
/// at all if none is.
pub proof fn lemma_released_exactly_once(branches: BranchesView, steps: Seq<Step>)
    requires
        !branches.released,
    ensures
        steps.contains(Step::Release) ==> times_freed(branches, steps) == 1,
        !steps.contains(Step::Release) ==> times_freed(branches, steps) == 0,
    decreases steps.len(),
{
    if steps.len() > 0 {
        let rest = steps.drop_first();
        assert forall|i: int| 0 <= i < rest.len() implies rest[i] == steps[i + 1] by {}
        match steps[0] {
            Step::Next => {
                lemma_released_exactly_once(branches, rest);
                if steps.contains(Step::Release) {
                    let i = choose|i: int| 0 <= i < steps.len() && steps[i] == Step::Release;
                    assert(rest[i - 1] == Step::Release);
                }
                if rest.contains(Step::Release) {
                    let i = choose|i: int| 0 <= i < rest.len() && rest[i] == Step::Release;
                    assert(steps[i + 1] == Step::Release);
                }
            },
            Step::Release => {
                lemma_released_stays_released(after_release(branches), rest);
                assert(steps[0] == Step::Release);
            },
        }
    }
}

} // verus!
