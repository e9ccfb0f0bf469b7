//! The decisions of the driving loop: for each item that a walk produces,
//! whether a path is printed, an error reported, or nothing done. The walk
//! itself, and the printing, belong to the caller.
use crate::filter::{chain_selects, Entry, FilterChain};
use vstd::prelude::*;

verus! {

/// A path that could not be read during a walk, and why.
pub struct TraversalError {
    pub path: Option<String>,
    pub message: String,
}

/// One item produced by a walk.
pub enum WalkItem {
    Found(Entry),
    Failed(TraversalError),
}

/// What the driver does with one item.
pub enum Action {
    /// Print this path to the output sink.
    Emit(String),
    /// Send this error to the error sink.
    Report(TraversalError),
    /// The entry was not selected.
    Skip,
}

/// What the run has seen so far, across all roots.
pub struct RunStatus {
    pub had_error: bool,
}

impl RunStatus {
    pub fn new() -> (r: RunStatus)
        ensures
            !r.had_error,
    {
        RunStatus { had_error: false }
    }

    /// Whether no traversal error occurred, so that the caller may exit with
    /// a zero status.
    pub fn succeeded(&self) -> (r: bool)
        ensures
            r == !self.had_error,
    {
        !self.had_error
    }

    /// Decides what to do with one item: a selected entry's path is emitted,
    /// an unselected entry is skipped, and an error is reported and recorded.
    pub fn step(&mut self, chain: &FilterChain, item: WalkItem) -> (a: Action)
        ensures
            item matches WalkItem::Found(e) ==> {
                &&& final(self).had_error == old(self).had_error
                &&& chain_selects(chain@, e@) ==> (a matches Action::Emit(p) && p@ == e.path@)
                &&& !chain_selects(chain@, e@) ==> a is Skip
            },
            item matches WalkItem::Failed(err) ==> {
                &&& final(self).had_error
                &&& a == Action::Report(err)
            },
    {
        match item {
            WalkItem::Found(e) => {
                if chain.matches(&e) {
                    Action::Emit(e.path)
                } else {
                    Action::Skip
                }
            },
            WalkItem::Failed(err) => {
                self.had_error = true;
                Action::Report(err)
            },
        }
    }
}

} // verus!
