//! Keeping a loaded index fresh: what is served while an index of the
//! commit graph is loaded again and again from storage.
//!
//! Loading is someone else's work. Here it is decided what a load that came
//! back means: a fresh index replaces the one that is served, a failed load
//! leaves it in place.

use vstd::prelude::*;
use vstd::string::StringExecFns;
use crate::text::{decimal, decimal_text};

verus! {

/// The text that says which repository a message is about.
pub open spec fn repo_prefix(repo_id: i32) -> Seq<char> {
    "repo "@ + decimal_text(repo_id as int) + ": "@
}

/// The message for a failure of `what` in the repository `repo_id`.
pub fn repo_message(repo_id: i32, what: &str) -> (message: String)
    ensures
        message@ == repo_prefix(repo_id) + what@,
{
    String::from_str("repo ").concat(decimal(repo_id as i64).as_str()).concat(": ").concat(what)
}

/// The version to load, or the error for a repository that has none
/// stored: such a repository was never seeded.
pub fn seeded_version<V>(repo_id: i32, stored: Option<V>) -> (version: Result<V, String>)
    ensures
        match stored {
            Some(v) => version == Ok::<V, String>(v),
            None => version matches Err(message) && message@ == repo_prefix(repo_id)
                + "segmented changelog metadata not found, maybe repo is not seeded"@,
        },
{
    match stored {
        Some(v) => Ok(v),
        None => Err(
            repo_message(
                repo_id,
                "segmented changelog metadata not found, maybe repo is not seeded",
            ),
        ),
    }
}

/// What became of a load that came back.
#[derive(Clone, Copy, Debug, PartialEq, Eq, Structural)]
pub enum Reloaded {
    /// The fresh index is served from now on.
    Stored,
    /// The load failed and the index that was served stays; the failure is
    /// to be logged.
    Kept,
}

/// An index that is served while it is reloaded at intervals.
pub struct PeriodicReload<T> {
    current: T,
    updates: u64,
}

impl<T> PeriodicReload<T> {
    /// The index that is served.
    pub closed spec fn served(&self) -> T {
        self.current
    }

    /// How many loads came back, failed ones included; a count that is full
    /// stays full.
    pub closed spec fn update_count(&self) -> u64 {
        self.updates
    }

    /// Starts serving the index of the first load.
    pub fn start(first: T) -> (reload: PeriodicReload<T>)
        ensures
            reload.served() == first,
            reload.update_count() == 0,
    {
        PeriodicReload { current: first, updates: 0 }
    }

    /// Takes in a load that came back: a fresh index, or nothing where the
    /// load failed. Whoever waits for an update is to be woken either way.
    pub fn reloaded(&mut self, fresh: Option<T>) -> (outcome: Reloaded)
        ensures
            match fresh {
                Some(index) => outcome == Reloaded::Stored && final(self).served() == index,
                None => outcome == Reloaded::Kept && final(self).served() == old(self).served(),
            },
            final(self).update_count() == if old(self).update_count() < u64::MAX {
                (old(self).update_count() + 1) as u64
            } else {
                u64::MAX
            },
    {
        self.updates = self.updates.saturating_add(1);
        match fresh {
            Some(index) => {
                self.current = index;
                Reloaded::Stored
            },
            None => Reloaded::Kept,
        }
    }

    /// The index that is served.
    pub fn current(&self) -> (index: &T)
        ensures
            *index == self.served(),
    {
        &self.current
    }

    /// How many loads came back.
    pub fn updates(&self) -> (count: u64)
        ensures
            count == self.update_count(),
    {
        self.updates
    }
}

} // verus!
