//! The rule that commit messages follow the Conventional Commit
//! specification: `<type>[optional scope]: <description>`.
use vstd::prelude::*;
use vstd::string::*;

use crate::config::WorkflowRules;
use crate::error::BGitError;
use crate::pattern::{regex_compiles, regex_finds, Pattern};
use crate::rules::{
    configured_level, result_output_view, rule_level_from_config, Rule, RuleLevel, RuleOutput,
    RuleOutputView,
};
use crate::text::{first_line, first_line_exec};

verus! {

/// A first line that starts with one of the types, an optional scope in
/// parentheses, a colon, a space and a description of at least one character.
pub const CONVENTIONAL_COMMIT_PATTERN: &'static str =
    r"^(feat|fix|docs|style|refactor|test|chore|build|ci|perf|revert)(\(.+\))?: .+";

/// The message the check reports when there is no message.
pub open spec fn no_message_text() -> Seq<char> {
    "No commit message provided for validation"@
}

/// Whether `message` follows the specification: its first line matches
/// [`CONVENTIONAL_COMMIT_PATTERN`].
pub open spec fn is_conventional(message: Seq<char>) -> bool {
    regex_compiles(CONVENTIONAL_COMMIT_PATTERN@) && regex_finds(
        CONVENTIONAL_COMMIT_PATTERN@,
        first_line(message),
    )
}

/// What the check reports for a given message.
pub open spec fn check_spec(message: Option<Seq<char>>) -> RuleOutputView {
    match message {
        None => RuleOutputView::Exception(no_message_text()),
        Some(m) => if is_conventional(m) {
            RuleOutputView::Success
        } else {
            RuleOutputView::Exception(
                "Commit message does not follow Conventional Commit specification: '"@
                    + first_line(m) + "'"@,
            )
        },
    }
}

pub struct ConventionalCommitMessage {
    name: String,
    description: String,
    level: RuleLevel,
    message: Option<String>,
}

impl ConventionalCommitMessage {
    pub closed spec fn name_view(&self) -> Seq<char> {
        self.name@
    }

    pub closed spec fn description_view(&self) -> Seq<char> {
        self.description@
    }

    pub closed spec fn level_view(&self) -> RuleLevel {
        self.level
    }

    pub closed spec fn message_view(&self) -> Option<Seq<char>> {
        match self.message {
            Some(m) => Some(m@),
            None => None,
        }
    }

    /// The rule at the level configured for `ConventionalCommitMessage`
    /// (a warning by default), with no message yet.
    pub fn new(workflow_rule_config: Option<&WorkflowRules>) -> (r: Self)
        ensures
            r.name_view() == "ConventionalCommitMessage"@,
            r.description_view() == "Ensure commit messages follow Conventional Commit specification"@,
            r.level_view() == configured_level(
                workflow_rule_config,
                "ConventionalCommitMessage"@,
                RuleLevel::Warning,
            ),
            r.message_view() is None,
    {
        let name = "ConventionalCommitMessage";
        let level = rule_level_from_config(workflow_rule_config, name, RuleLevel::Warning);
        ConventionalCommitMessage {
            name: String::from_str(name),
            description: String::from_str(
                "Ensure commit messages follow Conventional Commit specification",
            ),
            level,
            message: None,
        }
    }

    /// The same rule, with `message` as the message to validate.
    pub fn with_message(self, message: String) -> (r: Self)
        ensures
            r.name_view() == self.name_view(),
            r.description_view() == self.description_view(),
            r.level_view() == self.level_view(),
            r.message_view() == Some(message@),
    {
        ConventionalCommitMessage { message: Some(message), ..self }
    }

    /// Whether the first line of `message` follows the specification.
    pub fn is_conventional_commit(&self, message: &str) -> (b: bool)
        ensures
            b == is_conventional(message@),
    {
        let first = first_line_exec(message);
        match Pattern::new(CONVENTIONAL_COMMIT_PATTERN) {
            Some(p) => p.is_match(first.as_str()),
            None => false,
        }
    }

    /// The guidance shown when a message does not follow the specification.
    pub fn fix_guidance() -> (r: &'static str)
        ensures
            r@ == "Conventional Commit format violation detected.\n\
Please follow the Conventional Commit specification:\n\
  <type>[optional scope]: <description>\n\
\n\
Examples:\n\
  feat: add user authentication\n\
  fix: resolve login issue\n\
  docs: update README\n\
  style: fix code formatting\n\
  refactor: simplify user service\n\
  test: add unit tests for auth\n\
  chore: update dependencies\n\
\n\
Valid types: feat, fix, docs, style, refactor, test, chore, build, ci, perf, revert"@,
    {
        "Conventional Commit format violation detected.\n\
Please follow the Conventional Commit specification:\n\
  <type>[optional scope]: <description>\n\
\n\
Examples:\n\
  feat: add user authentication\n\
  fix: resolve login issue\n\
  docs: update README\n\
  style: fix code formatting\n\
  refactor: simplify user service\n\
  test: add unit tests for auth\n\
  chore: update dependencies\n\
\n\
Valid types: feat, fix, docs, style, refactor, test, chore, build, ci, perf, revert"
    }
}

impl Rule for ConventionalCommitMessage {
    fn get_name(&self) -> (r: &str)
        ensures
            r@ == self.name_view(),
    {
        self.name.as_str()
    }

    fn get_description(&self) -> (r: &str)
        ensures
            r@ == self.description_view(),
    {
        self.description.as_str()
    }

    fn get_level(&self) -> (r: RuleLevel)
        ensures
            r == self.level_view(),
    {
        self.level
    }

    fn check(&self) -> (r: Result<RuleOutput, BGitError>)
        ensures
            result_output_view(r) == Ok::<RuleOutputView, crate::error::BGitErrorView>(
                check_spec(self.message_view()),
            ),
    {
        match &self.message {
            None => Ok(RuleOutput::Exception(String::from_str("No commit message provided for validation"))),
            Some(msg) => {
                if self.is_conventional_commit(msg.as_str()) {
                    Ok(RuleOutput::Success)
                } else {
                    let mut text = String::from_str(
                        "Commit message does not follow Conventional Commit specification: '",
                    );
                    let first = first_line_exec(msg.as_str());
                    text.append(first.as_str());
                    text.append("'");
                    Ok(RuleOutput::Exception(text))
                }
            },
        }
    }

    /// A message cannot be fixed automatically: the guidance of
    /// [`ConventionalCommitMessage::fix_guidance`] is all there is.
    fn try_fix(&self) -> (r: Result<bool, BGitError>)
        ensures
            r matches Ok(b) && !b,
    {
        Ok(false)
    }
}

} // verus!
