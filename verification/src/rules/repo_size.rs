//! The rule that the repository's tracked files stay under a size limit.
use vstd::prelude::*;
use vstd::string::*;

use crate::config::WorkflowRules;
use crate::error::{error_view, BGitError, BGitErrorView, BGitErrorWorkflowType, NO_RULE, NO_STEP};
use crate::rules::{configured_level, rule_level_from_config, RuleLevel, RuleOutput, RuleOutputView};
use crate::text::{decimal, decimal_exec};

verus! {

/// The default limit, in MiB.
pub const DEFAULT_MAX_REPO_SIZE_IN_MIB: u64 = 128;

/// The size of a file that is too large to commit without LFS, by default.
pub const DEFAULT_MAX_LARGE_FILE_SIZE_IN_BYTES: u64 = 2097152;

/// The total size of the staged files that is too large, by default.
pub const DEFAULT_MAX_CUMMULATIVE_STAGED_FILE_SIZE_IN_BYTES: u64 = 33554432;

/// The sum of the sizes.
pub open spec fn total(sizes: Seq<u64>) -> nat
    decreases sizes.len(),
{
    if sizes.len() == 0 {
        0
    } else {
        total(sizes.drop_last()) + sizes.last() as nat
    }
}

/// What the check reports for a repository of `bytes` bytes (or the reason
/// its size could not be measured) and a limit of `max_mb` MiB: sizes are
/// compared in whole MiB.
pub open spec fn size_check_spec(size: Result<u64, Seq<char>>, max_mb: u64) -> RuleOutputView {
    match size {
        Ok(b) => {
            let mb = b / 1048576;
            if mb > max_mb {
                RuleOutputView::Exception(
                    "Repository size ("@ + decimal(mb as nat) + " MB) exceeds recommended limit of "@
                        + decimal(max_mb as nat) + " MB"@,
                )
            } else {
                RuleOutputView::Success
            }
        },
        Err(d) => RuleOutputView::Exception("Failed to calculate repository size: "@ + d),
    }
}

/// The total size of the tracked files, in bytes.
pub fn sum_sizes(sizes: &Vec<u64>) -> (r: u64)
    requires
        total(sizes@) <= u64::MAX,
    ensures
        r == total(sizes@),
{
    let mut sum: u64 = 0;
    let mut i: usize = 0;
    while i < sizes.len()
        invariant
            i <= sizes@.len(),
            total(sizes@) <= u64::MAX,
            sum == total(sizes@.subrange(0, i as int)),
        decreases sizes.len() - i,
    {
        assert(sizes@.subrange(0, i + 1).drop_last() =~= sizes@.subrange(0, i as int));
        proof {
            lemma_total_prefix(sizes@, i + 1);
        }
        sum = sum + sizes[i];
        i = i + 1;
    }
    assert(sizes@.subrange(0, sizes@.len() as int) =~= sizes@);
    sum
}

/// The sum of a prefix is at most the sum of the whole.
pub proof fn lemma_total_prefix(s: Seq<u64>, n: int)
    requires
        0 <= n <= s.len(),
    ensures
        total(s.subrange(0, n)) <= total(s),
    decreases s.len() - n,
{
    if n < s.len() {
        lemma_total_prefix(s, n + 1);
        assert(s.subrange(0, n + 1).drop_last() =~= s.subrange(0, n));
    } else {
        assert(s.subrange(0, n) =~= s);
    }
}

pub struct IsRepoSizeTooBig {
    name: String,
    description: String,
    level: RuleLevel,
    max_size_mb: u64,
}

impl IsRepoSizeTooBig {
    pub closed spec fn name_view(&self) -> Seq<char> {
        self.name@
    }

    pub closed spec fn description_view(&self) -> Seq<char> {
        self.description@
    }

    pub closed spec fn level_view(&self) -> RuleLevel {
        self.level
    }

    pub closed spec fn max_size_view(&self) -> u64 {
        self.max_size_mb
    }

    /// The rule at the level configured for `IsRepoSizeTooBig` (a warning by
    /// default), with the default limit.
    pub fn new(workflow_rule_config: Option<&WorkflowRules>) -> (r: Self)
        ensures
            r.name_view() == "IsRepoSizeTooBig"@,
            r.description_view() == "Check if repository size exceeds the recommended limit"@,
            r.level_view() == configured_level(workflow_rule_config, "IsRepoSizeTooBig"@, RuleLevel::Warning),
            r.max_size_view() == DEFAULT_MAX_REPO_SIZE_IN_MIB,
    {
        let name = "IsRepoSizeTooBig";
        let level = rule_level_from_config(workflow_rule_config, name, RuleLevel::Warning);
        IsRepoSizeTooBig {
            name: String::from_str(name),
            description: String::from_str("Check if repository size exceeds the recommended limit"),
            level,
            max_size_mb: DEFAULT_MAX_REPO_SIZE_IN_MIB,
        }
    }

    /// The same rule with a limit of `max_size_mb` MiB.
    pub fn with_max_size_mb(self, max_size_mb: u64) -> (r: Self)
        ensures
            r.name_view() == self.name_view(),
            r.description_view() == self.description_view(),
            r.level_view() == self.level_view(),
            r.max_size_view() == max_size_mb,
    {
        IsRepoSizeTooBig { max_size_mb, ..self }
    }

    pub fn get_name(&self) -> (r: &str)
        ensures
            r@ == self.name_view(),
    {
        self.name.as_str()
    }

    pub fn get_description(&self) -> (r: &str)
        ensures
            r@ == self.description_view(),
    {
        self.description.as_str()
    }

    pub fn get_level(&self) -> (r: RuleLevel)
        ensures
            r == self.level_view(),
    {
        self.level
    }

    /// The check, from the size of the tracked files in bytes (or why it
    /// could not be measured).
    pub fn size_check(&self, size: Result<u64, String>) -> (r: RuleOutput)
        ensures
            r@ == size_check_spec(match size {
                Ok(b) => Ok(b),
                Err(d) => Err(d@),
            }, self.max_size_view()),
    {
        match size {
            Ok(b) => {
                let mb = b / 1048576;
                if mb > self.max_size_mb {
                    let mut m = String::from_str("Repository size (");
                    let a = decimal_exec(mb);
                    m.append(a.as_str());
                    m.append(" MB) exceeds recommended limit of ");
                    let l = decimal_exec(self.max_size_mb);
                    m.append(l.as_str());
                    m.append(" MB");
                    RuleOutput::Exception(m)
                } else {
                    RuleOutput::Success
                }
            },
            Err(d) => {
                let mut m = String::from_str("Failed to calculate repository size: ");
                m.append(d.as_str());
                RuleOutput::Exception(m)
            },
        }
    }

    /// The error when the repository cannot be found.
    pub fn discover_error(&self, detail: &str) -> (e: BGitError)
        ensures
            e@ == error_view(
                "BGitError"@,
                "Failed to discover repository: "@ + detail@,
                BGitErrorWorkflowType::Rules,
                NO_STEP@,
                self.name_view(),
                NO_RULE@,
            ),
    {
        let mut m = String::from_str("Failed to discover repository: ");
        m.append(detail);
        BGitError::new("BGitError", m.as_str(), BGitErrorWorkflowType::Rules, NO_STEP, self.name.as_str(), NO_RULE)
    }

    /// Whether the clean-up did something: it found unreferenced objects or
    /// refreshed the index.
    pub fn cleanup_performed(unreferenced_objects: usize, index_refreshed: bool) -> (r: bool)
        ensures
            r == (unreferenced_objects > 0 || index_refreshed),
    {
        unreferenced_objects > 0 || index_refreshed
    }
}

} // verus!
