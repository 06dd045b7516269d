//! Applying stashed changes.
use vstd::prelude::*;
use vstd::string::*;

use crate::error::BGitError;
use crate::events::{event_error, event_error_view};
use crate::text::{decimal, decimal_exec};

use crate::rules::{PreCheckRules, Rule};

verus! {

#[derive(Debug, Clone, Copy, PartialEq, Eq, Structural)]
pub enum StashOperation {
    Pop,
}

pub struct GitStash {
    name: String,
    operation: Option<StashOperation>,
    stash_index: Option<usize>,
    pre_check_rules: PreCheckRules,
}

/// The text of the error for a stash index that is not in the list.
pub open spec fn missing_stash_message(index: nat) -> Seq<char> {
    "Stash at index "@ + decimal(index) + " does not exist"@
}

impl GitStash {
    /// The rules checked before the event runs, in the order they were
    /// added.
    pub closed spec fn pre_check_rules_view(&self) -> Seq<Box<dyn Rule>> {
        self.pre_check_rules@
    }

    /// Adds `rule` after the rules already checked before the event runs;
    /// the event is otherwise unchanged.
    pub fn add_pre_check_rule(&mut self, rule: Box<dyn Rule>)
        ensures
            final(self).pre_check_rules_view() == old(self).pre_check_rules_view().push(rule),
            final(self).name_view() == old(self).name_view(),
            final(self).operation_view() == old(self).operation_view(),
            final(self).index_view() == old(self).index_view(),
    {
        self.pre_check_rules.push(rule);
    }

    /// The rules checked before the event runs, in the order they were
    /// added.
    pub fn get_pre_check_rule(&self) -> (r: &PreCheckRules)
        ensures
            r@ == self.pre_check_rules_view(),
    {
        &self.pre_check_rules
    }

    pub closed spec fn name_view(&self) -> Seq<char> {
        self.name@
    }

    pub closed spec fn operation_view(&self) -> Option<StashOperation> {
        self.operation
    }

    pub closed spec fn index_view(&self) -> Option<usize> {
        self.stash_index
    }

    /// The event `git_stash`, popping the stash at `index` (the latest when none).
    pub fn pop_stash(index: Option<usize>) -> (r: Self)
        ensures
            r.pre_check_rules_view().len() == 0,
            r.name_view() == "git_stash"@,
            r.operation_view() == Some(StashOperation::Pop),
            r.index_view() == index,
    {
        GitStash { name: String::from_str("git_stash"), operation: Some(StashOperation::Pop), stash_index: index, pre_check_rules: Vec::new() }
    }

    /// The event `git_stash`, with no operation.
    pub fn new() -> (r: Self)
        ensures
            r.pre_check_rules_view().len() == 0,
            r.name_view() == "git_stash"@,
            r.operation_view() is None,
            r.index_view() is None,
    {
        GitStash { name: String::from_str("git_stash"), operation: None, stash_index: None, pre_check_rules: Vec::new() }
    }

    pub fn get_name(&self) -> (r: &str)
        ensures
            r@ == self.name_view(),
    {
        self.name.as_str()
    }

    pub fn get_action_description(&self) -> (r: &'static str)
        ensures
            r@ == match self.operation_view() {
                Some(StashOperation::Pop) => "Pop stash and apply changes"@,
                None => "No stash operation defined"@,
            },
    {
        match self.operation {
            Some(StashOperation::Pop) => "Pop stash and apply changes",
            None => "No stash operation defined",
        }
    }

    /// The index of the stash to pop: the one given, else the latest (0).
    pub fn target_index(&self) -> (r: usize)
        ensures
            r == match self.index_view() {
                Some(i) => i,
                None => 0usize,
            },
    {
        match self.stash_index {
            Some(i) => i,
            None => 0,
        }
    }

    /// Which stash to pop, given the indices of the stashes that exist: an
    /// error when no operation was chosen or the target is not among them.
    #[verifier::loop_isolation(false)]
    pub fn pop_plan(&self, existing: &Vec<usize>) -> (r: Result<usize, BGitError>)
        ensures
            match self.operation_view() {
                None => (r matches Err(e) && e@ == event_error_view(self.name_view(), "No stash operation defined"@)),
                Some(StashOperation::Pop) => {
                    let t = match self.index_view() {
                        Some(i) => i,
                        None => 0usize,
                    };
                    if existing@.contains(t) {
                        r == Ok::<usize, BGitError>(t)
                    } else {
                        (r matches Err(e) && e@ == event_error_view(self.name_view(), missing_stash_message(t as nat)))
                    }
                },
            },
    {
        match self.operation {
            None => Err(event_error(self.name.as_str(), "No stash operation defined")),
            Some(StashOperation::Pop) => {
                let t = self.target_index();
                let mut i: usize = 0;
                while i < existing.len()
                    invariant
                        i <= existing@.len(),
                        t == match self.index_view() {
                            Some(k) => k,
                            None => 0usize,
                        },
                        forall|j: int| 0 <= j < i ==> existing@[j] != t,
                    decreases existing.len() - i,
                {
                    if existing[i] == t {
                        assert(existing@[i as int] == t);
                        return Ok(t);
                    }
                    i = i + 1;
                }
                let mut msg = String::from_str("Stash at index ");
                let num = decimal_exec(t as u64);
                msg.append(num.as_str());
                msg.append(" does not exist");
                Err(event_error(self.name.as_str(), msg.as_str()))
            },
        }
    }
}

} // verus!
