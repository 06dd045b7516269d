//! Branch checks and moving uncommitted changes to a new branch.
use vstd::prelude::*;
use vstd::string::*;

use crate::error::BGitError;
use crate::events::{event_error, event_error_view, StatusFlags};
use crate::global_config::BGitGlobalConfig;
use crate::text::{chars_of, skip, starts_with, str_eq, str_starts_with, string_from_range};

use crate::rules::{PreCheckRules, Rule};

verus! {

#[derive(Debug, Clone, Copy, PartialEq, Eq, Structural)]
pub enum BranchOperation {
    CheckCurrentBranch,
    MoveChanges,
}

pub struct GitBranch<'a> {
    name: String,
    operation: Option<BranchOperation>,
    target_branch_name: Option<String>,
    stash_message: Option<String>,
    _global_config: &'a BGitGlobalConfig,
    pre_check_rules: PreCheckRules,
}

/// The branches work should not be committed to directly.
pub open spec fn is_main_branch_name(b: Seq<char>) -> bool {
    b == "master"@ || b == "main"@ || b == "dev"@
}

/// Whether a path's status shows a change worth moving: a modification,
/// deletion or new file, in the working tree or in the index.
pub open spec fn is_movable_change(s: StatusFlags) -> bool {
    s.wt_modified || s.wt_deleted || s.wt_new || s.index_modified || s.index_deleted || s.index_new
}

pub open spec fn opt_view(o: Option<String>) -> Option<Seq<char>> {
    match o {
        Some(s) => Some(s@),
        None => None,
    }
}

impl<'a> GitBranch<'a> {
    /// The rules checked before the event runs, in the order they were
    /// added.
    pub closed spec fn pre_check_rules_view(&self) -> Seq<Box<dyn Rule>> {
        self.pre_check_rules@
    }

    /// Adds `rule` after the rules already checked before the event runs;
    /// the event is otherwise unchanged.
    pub fn add_pre_check_rule(&mut self, rule: Box<dyn Rule>)
        ensures
            final(self).pre_check_rules_view() == old(self).pre_check_rules_view().push(rule),
            final(self).name_view() == old(self).name_view(),
            final(self).operation_view() == old(self).operation_view(),
            final(self).target_view() == old(self).target_view(),
            final(self).stash_message_view() == old(self).stash_message_view(),
    {
        self.pre_check_rules.push(rule);
    }

    /// The rules checked before the event runs, in the order they were
    /// added.
    pub fn get_pre_check_rule(&self) -> (r: &PreCheckRules)
        ensures
            r@ == self.pre_check_rules_view(),
    {
        &self.pre_check_rules
    }

    pub closed spec fn name_view(&self) -> Seq<char> {
        self.name@
    }

    pub closed spec fn operation_view(&self) -> Option<BranchOperation> {
        self.operation
    }

    pub closed spec fn target_view(&self) -> Option<Seq<char>> {
        opt_view(self.target_branch_name)
    }

    pub closed spec fn stash_message_view(&self) -> Option<Seq<char>> {
        opt_view(self.stash_message)
    }

    /// The event that checks whether the current branch is a main branch.
    pub fn check_current_branch(_global_config: &'a BGitGlobalConfig) -> (r: Self)
        ensures
            r.pre_check_rules_view().len() == 0,
            r.name_view() == "git_branch"@,
            r.operation_view() == Some(BranchOperation::CheckCurrentBranch),
            r.target_view() is None,
            r.stash_message_view() is None,
    {
        GitBranch {
            name: String::from_str("git_branch"),
            operation: Some(BranchOperation::CheckCurrentBranch),
            target_branch_name: None,
            stash_message: None,
            _global_config,
            pre_check_rules: Vec::new(),
        }
    }

    /// The event that moves the current changes to the new branch
    /// `target_branch_name`.
    pub fn move_changes_to_branch(_global_config: &'a BGitGlobalConfig, target_branch_name: String) -> (r: Self)
        ensures
            r.pre_check_rules_view().len() == 0,
            r.name_view() == "git_branch"@,
            r.operation_view() == Some(BranchOperation::MoveChanges),
            r.target_view() == Some(target_branch_name@),
            r.stash_message_view() == Some("Moving changes to new branch"@),
    {
        GitBranch {
            name: String::from_str("git_branch"),
            operation: Some(BranchOperation::MoveChanges),
            target_branch_name: Some(target_branch_name),
            stash_message: Some(String::from_str("Moving changes to new branch")),
            _global_config,
            pre_check_rules: Vec::new(),
        }
    }

    /// The event with no operation yet.
    pub fn new(_global_config: &'a BGitGlobalConfig) -> (r: Self)
        ensures
            r.pre_check_rules_view().len() == 0,
            r.name_view() == "git_branch"@,
            r.operation_view() is None,
            r.target_view() is None,
            r.stash_message_view() is None,
    {
        GitBranch {
            name: String::from_str("git_branch"),
            operation: None,
            target_branch_name: None,
            stash_message: None,
            _global_config,
            pre_check_rules: Vec::new(),
        }
    }

    pub fn set_stash_message(&mut self, message: String)
        ensures
            final(self).pre_check_rules_view() == old(self).pre_check_rules_view(),
            final(self).stash_message_view() == Some(message@),
            final(self).name_view() == old(self).name_view(),
            final(self).operation_view() == old(self).operation_view(),
            final(self).target_view() == old(self).target_view(),
    {
        self.stash_message = Some(message);
    }

    pub fn get_name(&self) -> (r: &str)
        ensures
            r@ == self.name_view(),
    {
        self.name.as_str()
    }

    pub fn get_action_description(&self) -> (r: &'static str)
        ensures
            r@ == match self.operation_view() {
                Some(BranchOperation::CheckCurrentBranch) => "Check if current branch is master, main, or dev"@,
                Some(BranchOperation::MoveChanges) => "Move current changes to a new branch"@,
                None => "Branch operation (no operation specified)"@,
            },
    {
        match self.operation {
            Some(BranchOperation::CheckCurrentBranch) => "Check if current branch is master, main, or dev",
            Some(BranchOperation::MoveChanges) => "Move current changes to a new branch",
            None => "Branch operation (no operation specified)",
        }
    }

    /// The operation to run; an error when none was chosen.
    pub fn operation(&self) -> (r: Result<BranchOperation, BGitError>)
        ensures
            match self.operation_view() {
                Some(op) => r == Ok::<BranchOperation, BGitError>(op),
                None => (r matches Err(e) && e@ == event_error_view(self.name_view(), "No branch operation specified"@)),
            },
    {
        match self.operation {
            Some(op) => Ok(op),
            None => Err(event_error(self.name.as_str(), "No branch operation specified")),
        }
    }

    /// The branch name of an unborn `HEAD` from its symbolic target
    /// (`refs/heads/<name>`); an error for any other target.
    pub fn unborn_branch_name(&self, symbolic_target: &str) -> (r: Result<String, BGitError>)
        ensures
            starts_with(symbolic_target@, "refs/heads/"@) ==> (r matches Ok(b) && b@ == skip(symbolic_target@, 11)),
            !starts_with(symbolic_target@, "refs/heads/"@) ==> (r matches Err(e) && e@ == event_error_view(
                self.name_view(),
                "Invalid HEAD reference format in unborn branch: "@ + symbolic_target@,
            )),
    {
        if str_starts_with(symbolic_target, "refs/heads/") {
            proof {
                reveal_strlit("refs/heads/");
            }
            let v = chars_of(symbolic_target);
            Ok(string_from_range(&v, 11, v.len()))
        } else {
            let mut msg = String::from_str("Invalid HEAD reference format in unborn branch: ");
            msg.append(symbolic_target);
            Err(event_error(self.name.as_str(), msg.as_str()))
        }
    }

    /// Checks that the changes can be moved: a target branch was given, no
    /// branch of that name exists, and there are changes. Gives the target
    /// branch and the stash message to use.
    pub fn move_changes_preconditions(&self, target_exists: bool, has_changes: bool) -> (r: Result<(String, String), BGitError>)
        ensures
            match self.target_view() {
                None => (r matches Err(e) && e@ == event_error_view(
                    self.name_view(),
                    "Target branch name not provided for move changes operation"@,
                )),
                Some(t) => if target_exists {
                    (r matches Err(e) && e@ == event_error_view(
                        self.name_view(),
                        "Target branch '"@ + t + "' already exists"@,
                    ))
                } else if !has_changes {
                    (r matches Err(e) && e@ == event_error_view(self.name_view(), "No changes found to move to new branch"@))
                } else {
                    (r matches Ok((b, m)) && b@ == t && m@ == match self.stash_message_view() {
                        Some(m) => m,
                        None => "Moving changes to new branch"@,
                    })
                },
            },
    {
        match &self.target_branch_name {
            None => Err(
                event_error(self.name.as_str(), "Target branch name not provided for move changes operation"),
            ),
            Some(t) => {
                if target_exists {
                    let mut msg = String::from_str("Target branch '");
                    msg.append(t.as_str());
                    msg.append("' already exists");
                    Err(event_error(self.name.as_str(), msg.as_str()))
                } else if !has_changes {
                    Err(event_error(self.name.as_str(), "No changes found to move to new branch"))
                } else {
                    let m = match &self.stash_message {
                        Some(m) => m.clone(),
                        None => String::from_str("Moving changes to new branch"),
                    };
                    Ok((t.clone(), m))
                }
            },
        }
    }
}

/// Whether `branch` is `master`, `main` or `dev`.
pub fn is_main_branch(branch: &str) -> (b: bool)
    ensures
        b == is_main_branch_name(branch@),
{
    str_eq(branch, "master") || str_eq(branch, "main") || str_eq(branch, "dev")
}

/// Whether any path shows a change to move.
pub fn has_changes(statuses: &Vec<StatusFlags>) -> (b: bool)
    ensures
        b == exists|i: int| 0 <= i < statuses@.len() && is_movable_change(statuses@[i]),
{
    let mut i: usize = 0;
    while i < statuses.len()
        invariant
            i <= statuses@.len(),
            forall|j: int| 0 <= j < i ==> !is_movable_change(statuses@[j]),
        decreases statuses.len() - i,
    {
        let s = statuses[i];
        if s.wt_modified || s.wt_deleted || s.wt_new || s.index_modified || s.index_deleted || s.index_new {
            return true;
        }
        i = i + 1;
    }
    false
}

} // verus!
