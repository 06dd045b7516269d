//! The rule that Git knows who commits: `user.name` and `user.email` are set.
use vstd::prelude::*;
use vstd::string::*;

use crate::config::WorkflowRules;
use crate::rules::{configured_level, rule_level_from_config, RuleLevel, RuleOutput, RuleOutputView};
use crate::text::{trim, trim_exec};

verus! {

/// What the check reports, from the default Git configuration (or why it
/// could not be opened) and the values of `user.name` and `user.email` in it.
pub open spec fn name_email_check_spec(config: Result<(Option<Seq<char>>, Option<Seq<char>>), Seq<char>>) -> RuleOutputView {
    match config {
        Err(d) => RuleOutputView::Exception("Failed to open Git config: "@ + d),
        Ok((Some(n), Some(e))) => if trim(n).len() > 0 && trim(e).len() > 0 {
            RuleOutputView::Success
        } else {
            RuleOutputView::Exception("Git user.name and/or user.email is not configured"@)
        },
        Ok(_) => RuleOutputView::Exception("Git user.name and/or user.email is not configured"@),
    }
}

pub open spec fn opt_view(o: Option<String>) -> Option<Seq<char>> {
    match o {
        Some(s) => Some(s@),
        None => None,
    }
}

pub struct GitNameEmailSetup {
    name: String,
    description: String,
    level: RuleLevel,
}

impl GitNameEmailSetup {
    pub closed spec fn name_view(&self) -> Seq<char> {
        self.name@
    }

    pub closed spec fn description_view(&self) -> Seq<char> {
        self.description@
    }

    pub closed spec fn level_view(&self) -> RuleLevel {
        self.level
    }

    /// The rule at the level configured for `GitNameEmailSetup` (an error by
    /// default).
    pub fn new(workflow_rule_config: Option<&WorkflowRules>) -> (r: Self)
        ensures
            r.name_view() == "GitNameEmailSetup"@,
            r.description_view() == "Ensure Git user.name and user.email are configured"@,
            r.level_view() == configured_level(workflow_rule_config, "GitNameEmailSetup"@, RuleLevel::Error),
    {
        let name = "GitNameEmailSetup";
        let level = rule_level_from_config(workflow_rule_config, name, RuleLevel::Error);
        GitNameEmailSetup {
            name: String::from_str(name),
            description: String::from_str("Ensure Git user.name and user.email are configured"),
            level,
        }
    }

    pub fn get_name(&self) -> (r: &str)
        ensures
            r@ == self.name_view(),
    {
        self.name.as_str()
    }

    pub fn get_description(&self) -> (r: &str)
        ensures
            r@ == self.description_view(),
    {
        self.description.as_str()
    }

    pub fn get_level(&self) -> (r: RuleLevel)
        ensures
            r == self.level_view(),
    {
        self.level
    }

    /// The check, from the default Git configuration: both values set and
    /// not blank.
    pub fn check_config(&self, config: Result<(Option<String>, Option<String>), String>) -> (r: RuleOutput)
        ensures
            r@ == name_email_check_spec(match config {
                Ok((n, e)) => Ok((opt_view(n), opt_view(e))),
                Err(d) => Err(d@),
            }),
    {
        match config {
            Err(d) => {
                let mut m = String::from_str("Failed to open Git config: ");
                m.append(d.as_str());
                RuleOutput::Exception(m)
            },
            Ok((Some(n), Some(e))) => {
                let tn = trim_exec(n.as_str());
                let te = trim_exec(e.as_str());
                if tn.as_str().unicode_len() > 0 && te.as_str().unicode_len() > 0 {
                    RuleOutput::Success
                } else {
                    RuleOutput::Exception(String::from_str("Git user.name and/or user.email is not configured"))
                }
            },
            Ok(_) => RuleOutput::Exception(String::from_str("Git user.name and/or user.email is not configured")),
        }
    }

    /// The settings cannot be made here: the user is told how to set them.
    pub fn try_fix(&self) -> (r: Result<bool, crate::error::BGitError>)
        ensures
            r matches Ok(b) && !b,
    {
        Ok(false)
    }

    /// What the user is told to run.
    pub fn fix_instructions() -> (r: &'static str)
        ensures
            r@ == "Git user configuration is missing. Please run the following commands:\n  git config --global user.name \"Your Name\"\n  git config --global user.email \"your.email@example.com\""@,
    {
        "Git user configuration is missing. Please run the following commands:\n  git config --global user.name \"Your Name\"\n  git config --global user.email \"your.email@example.com\""
    }
}

} // verus!
