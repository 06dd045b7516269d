//! A tool for language-model agents: validating a Conventional Commit
//! message with the rule the workflows use.
use vstd::prelude::*;
use vstd::string::*;

use crate::conventional_commit::{check_spec, ConventionalCommitMessage};
use crate::rules::{Rule, RuleOutput, RuleOutputView};

verus! {

/// The tool's arguments: the message to validate.
#[derive(Debug, Clone)]
pub struct ValidateConventionalCommitArgs {
    /// The commit message to validate.
    pub message: String,
}

/// The tool's answer.
#[derive(Debug, Clone)]
pub struct ValidateConventionalCommitResult {
    /// Whether the message is valid.
    pub valid: bool,
    /// If invalid, a human-readable error message.
    pub error: Option<String>,
}

/// The tool that validates Conventional Commit messages.
#[derive(Debug, Clone, Copy, Default)]
pub struct ValidateConventionalCommit;

impl ValidateConventionalCommit {
    /// The tool's name.
    pub fn name() -> (r: &'static str)
        ensures
            r@ == "validate_conventional_commit"@,
    {
        "validate_conventional_commit"
    }

    /// Validates the message: valid when the rule's check passes, else the
    /// check's explanation.
    pub fn call(&self, args: ValidateConventionalCommitArgs) -> (r: ValidateConventionalCommitResult)
        ensures
            match check_spec(Some(args.message@)) {
                RuleOutputView::Success => r.valid && r.error is None,
                RuleOutputView::Exception(m) => !r.valid && (r.error matches Some(e) && e@ == m),
            },
    {
        let rule = ConventionalCommitMessage::new(None).with_message(args.message);
        match rule.check() {
            Ok(RuleOutput::Success) => ValidateConventionalCommitResult { valid: true, error: None },
            Ok(RuleOutput::Exception(msg)) => ValidateConventionalCommitResult { valid: false, error: Some(msg) },
            Err(err) => {
                let mut m = String::from_str("Internal error: ");
                m.append(err.message.as_str());
                ValidateConventionalCommitResult { valid: false, error: Some(m) }
            },
        }
    }
}

} // verus!
