//! Branches of a version-controlled repository, as a verified core that never
//! touches the repository itself.
//!
//! A [`Branch`] is a thin wrapper around a [`Reference`], the value that
//! stands for one named pointer of the repository's store. [`Branches`]
//! enumerates the branches of a repository over a cursor of the store.
//!
//! Whatever needs the store is split in two. An operation yields a call:
//! the value that says what to hand to the store. The caller makes the call,
//! and hands the store's reply to the `finish` of the call, which gives what
//! the operation returns.
//!
//! - [`Branch::delete`], [`Branch::is_head`] and [`Branch::upstream`] hand
//!   the store the reference that is the branch.
//! - [`Branch::rename`] and [`Branch::set_upstream`] hand the store a name
//!   as well. They check the name, and yield a call only where it can be
//!   made.
//! - [`Branches::next`] hands the store the cursor of the enumeration, as
//!   long as the cursor has not been released. [`Branches::release`] hands
//!   the cursor back, once, for the caller to free it.
//!
//! What the store knows of a reference without looking at the repository
//! comes in as plain values: the branch name of a reference is held by the
//! [`Reference`], and the answer of the store's comparison of two references
//! is handed to [`Branch::cmp`], which needs it only for two branches that
//! have no name to sort by.
//!
//! A failure of the store comes back as it was reported, in
//! [`Error::StoreError`]. A name that cannot be handed to the store is
//! [`Error::InvalidName`], and is found before the store is asked anything.

pub mod branch;
pub mod branches;
pub mod call;
pub mod error;
pub mod name;
pub mod order;
pub mod reference;

pub use crate::branch::Branch;
pub use crate::branches::Advance;
pub use crate::branches::BranchType;
pub use crate::branches::Branches;
pub use crate::call::Delete;
pub use crate::call::IsHead;
pub use crate::call::Rename;
pub use crate::call::SetUpstream;
pub use crate::call::Upstream;
pub use crate::error::Error;
pub use crate::error::StoreError;
pub use crate::reference::Reference;
