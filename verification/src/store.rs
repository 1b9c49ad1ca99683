//! The write-once store that keeps the parsed policy set.
//!
//! The store starts empty, takes one policy set, and keeps it for good: no
//! operation replaces or removes what was committed. Committing needs
//! exclusive access to the store, so two commits can never interleave.

use crate::engine::policy_count;
use crate::error::Error;
use cedar_policy::PolicySet;
use once_cell::sync::OnceCell;
use vstd::prelude::*;

verus! {

/// The write-once cell of `once_cell`. Nothing inside it is visible here; what
/// it holds is named by [`cell_contents`].
#[verifier::external_type_specification]
#[verifier::external_body]
#[verifier::reject_recursive_types(T)]
pub struct ExOnceCell<T>(once_cell::sync::OnceCell<T>);

/// What a cell holds: nothing, or the one policy set it was given.
pub uninterp spec fn cell_contents(cell: OnceCell<PolicySet>) -> Option<PolicySet>;

/// Calls `once_cell::sync::OnceCell::new`, which makes an empty cell.
#[verifier::external_body]
fn cell_new() -> (cell: OnceCell<PolicySet>)
    ensures
        cell_contents(cell) is None,
{
    OnceCell::new()
}

/// Calls `once_cell::sync::OnceCell::set`. An empty cell takes the value and
/// the call returns `Ok`; a full cell keeps what it has and hands the value
/// back in `Err`.
#[verifier::external_body]
fn cell_set(cell: &mut OnceCell<PolicySet>, value: PolicySet) -> (taken: Result<(), PolicySet>)
    ensures
        cell_contents(*old(cell)) is None ==> taken is Ok
            && cell_contents(*final(cell)) == Some(value),
        cell_contents(*old(cell)) is Some ==> taken is Err && taken->Err_0 == value
            && cell_contents(*final(cell)) == cell_contents(*old(cell)),
{
    cell.set(value)
}

/// Calls `once_cell::sync::OnceCell::get`, which lends out what the cell
/// holds, or returns `None` for an empty cell.
#[verifier::external_body]
fn cell_get(cell: &OnceCell<PolicySet>) -> (held: Option<&PolicySet>)
    ensures
        match held {
            Some(set) => cell_contents(*cell) == Some(*set),
            None => cell_contents(*cell) is None,
        },
{
    cell.get()
}

/// The slot that holds the committed policy set, if any.
pub struct PolicyStore {
    cell: OnceCell<PolicySet>,
}

impl View for PolicyStore {
    type V = Option<PolicySet>;

    /// The committed policy set, or `None` while nothing was committed.
    closed spec fn view(&self) -> Option<PolicySet> {
        cell_contents(self.cell)
    }
}

/// What a caller can learn of a store's contents `held`: `None` while nothing
/// was committed, else the size of the committed set.
pub open spec fn committed_size(held: Option<PolicySet>) -> Option<nat> {
    match held {
        Some(set) => Some(policy_count(set)),
        None => None,
    }
}

/// The count that a store answers with: the size of the committed set, or
/// zero while nothing was committed.
pub open spec fn count_of(size: Option<nat>) -> nat {
    match size {
        Some(n) => n,
        None => 0,
    }
}

/// The outcome of a commit to a store that is `loaded` or not.
pub open spec fn commit_outcome(loaded: bool) -> Result<(), Error> {
    if loaded {
        Err(Error::AlreadyLoaded())
    } else {
        Ok(())
    }
}

impl PolicyStore {
    /// Makes an empty store.
    pub fn new() -> (store: Self)
        ensures
            store@ is None,
            count_of(committed_size(store@)) == 0,
    {
        PolicyStore { cell: cell_new() }
    }

    /// Commits `value` if the store is empty.
    ///
    /// An empty store takes the value and holds it from then on. A store that
    /// already holds a policy set is left as it is, `value` is dropped, and
    /// the call reports [`Error::AlreadyLoaded`].
    pub fn set(&mut self, value: PolicySet) -> (committed: Result<(), Error>)
        ensures
            committed == commit_outcome(old(self)@ is Some),
            old(self)@ is None ==> final(self)@ == Some(value),
            old(self)@ is Some ==> final(self)@ == old(self)@,
    {
        match cell_set(&mut self.cell, value) {
            Ok(_) => Ok(()),
            Err(_) => Err(Error::AlreadyLoaded()),
        }
    }

    /// Lends out the committed policy set, or returns `None` while nothing was
    /// committed.
    pub fn get(&self) -> (held: Option<&PolicySet>)
        ensures
            match held {
                Some(set) => self@ == Some(*set),
                None => self@ is None,
            },
    {
        cell_get(&self.cell)
    }

}

} // verus!
