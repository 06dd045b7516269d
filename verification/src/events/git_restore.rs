//! Restoring files in the working tree or the index.
use vstd::prelude::*;
use vstd::string::*;

use crate::error::BGitError;
use crate::events::{event_error, event_error_view};
use crate::global_config::BGitGlobalConfig;

use crate::rules::{PreCheckRules, Rule};

verus! {

#[derive(Debug, Clone, Copy, PartialEq, Eq, Structural)]
pub enum RestoreMode {
    /// Put the working tree back to the index (`git restore .`).
    RestoreAllUnstaged,
    /// Put the index back to `HEAD` (`git restore --staged .`).
    UnstageAll,
}

pub struct GitRestore<'a> {
    name: String,
    mode: Option<RestoreMode>,
    _global_config: &'a BGitGlobalConfig,
    pre_check_rules: PreCheckRules,
}

impl<'a> GitRestore<'a> {
    /// The rules checked before the event runs, in the order they were
    /// added.
    pub closed spec fn pre_check_rules_view(&self) -> Seq<Box<dyn Rule>> {
        self.pre_check_rules@
    }

    /// Adds `rule` after the rules already checked before the event runs;
    /// the event is otherwise unchanged.
    pub fn add_pre_check_rule(&mut self, rule: Box<dyn Rule>)
        ensures
            final(self).pre_check_rules_view() == old(self).pre_check_rules_view().push(rule),
            final(self).name_view() == old(self).name_view(),
            final(self).mode_view() == old(self).mode_view(),
    {
        self.pre_check_rules.push(rule);
    }

    /// The rules checked before the event runs, in the order they were
    /// added.
    pub fn get_pre_check_rule(&self) -> (r: &PreCheckRules)
        ensures
            r@ == self.pre_check_rules_view(),
    {
        &self.pre_check_rules
    }

    pub closed spec fn name_view(&self) -> Seq<char> {
        self.name@
    }

    pub closed spec fn mode_view(&self) -> Option<RestoreMode> {
        self.mode
    }

    /// The event `git_restore`, with no mode yet.
    pub fn new(_global_config: &'a BGitGlobalConfig) -> (r: Self)
        ensures
            r.pre_check_rules_view().len() == 0,
            r.name_view() == "git_restore"@,
            r.mode_view() is None,
    {
        GitRestore { name: String::from_str("git_restore"), mode: None, _global_config, pre_check_rules: Vec::new() }
    }

    pub fn get_name(&self) -> (r: &str)
        ensures
            r@ == self.name_view(),
    {
        self.name.as_str()
    }

    pub fn get_action_description(&self) -> (r: &'static str)
        ensures
            r@ == "Restore files from staging area or working directory"@,
    {
        "Restore files from staging area or working directory"
    }

    /// The same event, restoring in `mode`.
    pub fn with_mode(self, mode: RestoreMode) -> (r: Self)
        ensures
            r.pre_check_rules_view() == self.pre_check_rules_view(),
            r.name_view() == self.name_view(),
            r.mode_view() == Some(mode),
    {
        GitRestore { mode: Some(mode), ..self }
    }

    /// What restoring does: the chosen mode, or an error when none was chosen.
    pub fn restore_plan(&self) -> (r: Result<RestoreMode, BGitError>)
        ensures
            match self.mode_view() {
                Some(m) => r == Ok::<RestoreMode, BGitError>(m),
                None => (r matches Err(e) && e@ == event_error_view(
                    self.name_view(),
                    "Restore mode not specified for git restore operation"@,
                )),
            },
    {
        match self.mode {
            Some(m) => Ok(m),
            None => Err(event_error(self.name.as_str(), "Restore mode not specified for git restore operation")),
        }
    }

    /// Whether unstaging can go on: not on a branch with no commit yet.
    pub fn unstage_check(&self, head_is_unborn: bool) -> (r: Result<(), BGitError>)
        ensures
            !head_is_unborn ==> r is Ok,
            head_is_unborn ==> (r matches Err(e) && e@ == event_error_view(
                self.name_view(),
                "Cannot restore staged files in unborn branch (no commits exist yet). Use 'git reset' or remove files from staging manually."@,
            )),
    {
        if head_is_unborn {
            Err(
                event_error(
                    self.name.as_str(),
                    "Cannot restore staged files in unborn branch (no commits exist yet). Use 'git reset' or remove files from staging manually.",
                ),
            )
        } else {
            Ok(())
        }
    }
}

} // verus!
