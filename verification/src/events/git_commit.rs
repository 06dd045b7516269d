//! Committing the staged changes.
use vstd::prelude::*;
use vstd::string::*;

use crate::error::BGitError;
use crate::events::{event_error, event_error_view};
use crate::global_config::BGitGlobalConfig;
use crate::text::{str_eq, trim, trim_exec};

use crate::rules::{PreCheckRules, Rule};

verus! {

pub struct GitCommit<'a> {
    name: String,
    commit_message: Option<String>,
    _global_config: &'a BGitGlobalConfig,
    pre_check_rules: PreCheckRules,
}

pub open spec fn opt_view(o: Option<String>) -> Option<Seq<char>> {
    match o {
        Some(s) => Some(s@),
        None => None,
    }
}

impl<'a> GitCommit<'a> {
    /// The rules checked before the event runs, in the order they were
    /// added.
    pub closed spec fn pre_check_rules_view(&self) -> Seq<Box<dyn Rule>> {
        self.pre_check_rules@
    }

    /// Adds `rule` after the rules already checked before the event runs;
    /// the event is otherwise unchanged.
    pub fn add_pre_check_rule(&mut self, rule: Box<dyn Rule>)
        ensures
            final(self).pre_check_rules_view() == old(self).pre_check_rules_view().push(rule),
            final(self).name_view() == old(self).name_view(),
            final(self).message_view() == old(self).message_view(),
    {
        self.pre_check_rules.push(rule);
    }

    /// The rules checked before the event runs, in the order they were
    /// added.
    pub fn get_pre_check_rule(&self) -> (r: &PreCheckRules)
        ensures
            r@ == self.pre_check_rules_view(),
    {
        &self.pre_check_rules
    }

    pub closed spec fn name_view(&self) -> Seq<char> {
        self.name@
    }

    pub closed spec fn message_view(&self) -> Option<Seq<char>> {
        opt_view(self.commit_message)
    }

    /// The event `git_commit`, with no message yet.
    pub fn new(_global_config: &'a BGitGlobalConfig) -> (r: Self)
        ensures
            r.pre_check_rules_view().len() == 0,
            r.name_view() == "git_commit"@,
            r.message_view() is None,
    {
        GitCommit { name: String::from_str("git_commit"), commit_message: None, _global_config, pre_check_rules: Vec::new() }
    }

    pub fn get_name(&self) -> (r: &str)
        ensures
            r@ == self.name_view(),
    {
        self.name.as_str()
    }

    pub fn get_action_description(&self) -> (r: &'static str)
        ensures
            r@ == "Commit staged files with auto-generated message"@,
    {
        "Commit staged files with auto-generated message"
    }

    /// The same event, committing with `commit_message`.
    pub fn with_commit_message(self, commit_message: String) -> (r: Self)
        ensures
            r.pre_check_rules_view() == self.pre_check_rules_view(),
            r.name_view() == self.name_view(),
            r.message_view() == Some(commit_message@),
    {
        GitCommit { commit_message: Some(commit_message), ..self }
    }

    /// The message to commit with: an error when there is none or it is
    /// only whitespace.
    pub fn validated_message(&self) -> (r: Result<String, BGitError>)
        ensures
            match self.message_view() {
                None => (r matches Err(e) && e@ == event_error_view(
                    self.name_view(),
                    "No commit message provided. Use with_message() to set a commit message."@,
                )),
                Some(m) => if trim(m).len() == 0 {
                    (r matches Err(e) && e@ == event_error_view(self.name_view(), "Commit message cannot be empty."@))
                } else {
                    (r matches Ok(s) && s@ == m)
                },
            },
    {
        match &self.commit_message {
            Some(msg) => {
                let t = trim_exec(msg.as_str());
                if t.as_str().is_empty() {
                    return Err(event_error(self.name.as_str(), "Commit message cannot be empty."));
                }
                Ok(msg.clone())
            },
            None => Err(
                event_error(
                    self.name.as_str(),
                    "No commit message provided. Use with_message() to set a commit message.",
                ),
            ),
        }
    }

    /// Whether to create a commit, given whether the index has conflicts,
    /// the tree of the parent commit (none on an unborn branch) and the tree
    /// the index would commit: an error on conflicts, `false` when the tree
    /// is the parent's (nothing to commit), else `true`.
    pub fn commit_decision(&self, has_conflicts: bool, parent_tree: Option<&str>, tree: &str) -> (r: Result<bool, BGitError>)
        ensures
            has_conflicts ==> (r matches Err(e) && e@ == event_error_view(
                self.name_view(),
                "Merge conflicts found in index. Please resolve them before committing."@,
            )),
            !has_conflicts ==> (r matches Ok(b) && b == !(parent_tree matches Some(p) && p@ == tree@)),
    {
        if has_conflicts {
            return Err(
                event_error(
                    self.name.as_str(),
                    "Merge conflicts found in index. Please resolve them before committing.",
                ),
            );
        }
        match parent_tree {
            Some(p) => Ok(!str_eq(p, tree)),
            None => Ok(true),
        }
    }
}

} // verus!
