//! The rule that the remote a workflow pushes to is configured.
use vstd::prelude::*;
use vstd::string::*;

use crate::config::WorkflowRules;
use crate::error::{error_view, BGitError, BGitErrorView, BGitErrorWorkflowType};
use crate::rules::{configured_level, rule_level_from_config, RuleLevel, RuleOutput, RuleOutputView};
use crate::text::{join, join_exec, lines, lines_exec, str_eq, trim, trim_exec, views};

verus! {

/// How running `git remote` went.
#[derive(Debug, Clone)]
pub enum GitCommandOutcome {
    /// The command could not be started, for this reason.
    SpawnFailed(String),
    /// The command ran and failed.
    Failed,
    /// The command ran and printed this.
    Succeeded(String),
}

/// The remote names that `git remote` printed: its lines, trimmed, without
/// the blank ones.
pub open spec fn remote_names(lines: Seq<Seq<char>>) -> Seq<Seq<char>>
    decreases lines.len(),
{
    if lines.len() == 0 {
        Seq::empty()
    } else {
        let rest = remote_names(lines.drop_last());
        let t = trim(lines.last());
        if t.len() > 0 {
            rest.push(t)
        } else {
            rest
        }
    }
}

/// The explanation when `remote` is missing, given the remotes there are.
pub open spec fn missing_remote_message(remote: Seq<char>, remotes: Seq<Seq<char>>) -> Seq<char> {
    let available = if remotes.len() == 0 {
        "No remotes configured"@
    } else {
        "Available remotes: "@ + join(remotes, ", "@)
    };
    "Required remote '"@ + remote + "' does not exist. "@ + available
        + ". Hint: create a repo at https://github.com/new and add it as '"@ + remote
        + "' (prefer SSH). In GitHub, click 'Code' → 'SSH' and copy the URL, then run: git remote add "@
        + remote + " <ssh_url>"@
}

/// What the check reports for `remote`, from how `git remote` went.
pub open spec fn remote_check_spec(remote: Seq<char>, outcome: GitCommandOutcome) -> RuleOutputView {
    match outcome {
        GitCommandOutcome::SpawnFailed(d) => RuleOutputView::Exception("Failed to execute 'git remote' command: "@ + d@),
        GitCommandOutcome::Failed => RuleOutputView::Exception("Git command failed - ensure you're in a git repository"@),
        GitCommandOutcome::Succeeded(out) => {
            let names = remote_names(lines(out@));
            if names.contains(remote) {
                RuleOutputView::Success
            } else {
                RuleOutputView::Exception(missing_remote_message(remote, names))
            }
        },
    }
}

/// The remote names in the output of `git remote`.
pub fn parse_remote_names(output: &str) -> (r: Vec<String>)
    ensures
        views(r@) == remote_names(lines(output@)),
{
    let ls = lines_exec(output);
    let ghost lv = views(ls@);
    let mut r: Vec<String> = Vec::new();
    let mut i: usize = 0;
    assert(lv.subrange(0, 0) =~= Seq::<Seq<char>>::empty());
    assert(views(r@) =~= Seq::<Seq<char>>::empty());
    while i < ls.len()
        invariant
            i <= ls@.len(),
            lv == views(ls@),
            views(r@) == remote_names(lv.subrange(0, i as int)),
        decreases ls.len() - i,
    {
        let ghost prev = r@;
        assert(lv.subrange(0, i + 1).drop_last() =~= lv.subrange(0, i as int));
        assert(lv.subrange(0, i + 1).last() == ls@[i as int]@);
        let t = trim_exec(ls[i].as_str());
        if t.as_str().unicode_len() > 0 {
            r.push(t);
            assert(views(r@) =~= views(prev).push(r@.last()@));
        }
        i = i + 1;
    }
    assert(lv.subrange(0, ls@.len() as int) =~= lv);
    r
}

/// The stage of the fix that failed.
#[derive(Debug, Clone, Copy, PartialEq, Eq, Structural)]
pub enum RemoteFixStage {
    /// Reading the URL from the user.
    Input,
    /// Finding the repository.
    Discover,
    /// Adding the remote.
    AddRemote,
}

pub open spec fn fix_error_spec(stage: RemoteFixStage, detail: Seq<char>) -> BGitErrorView {
    match stage {
        RemoteFixStage::Input => error_view("RemoteExists"@, "Failed to get user input: "@ + detail, BGitErrorWorkflowType::Rules, "try_fix"@, "remote_check"@, "RemoteExists"@),
        RemoteFixStage::Discover => error_view("RemoteExists"@, "Failed to discover repository: "@ + detail, BGitErrorWorkflowType::Rules, "try_fix"@, "repository_discovery"@, "RemoteExists"@),
        RemoteFixStage::AddRemote => error_view("RemoteExists"@, "Failed to add remote: "@ + detail, BGitErrorWorkflowType::Rules, "try_fix"@, "add_remote"@, "RemoteExists"@),
    }
}

pub struct RemoteExists {
    name: String,
    description: String,
    level: RuleLevel,
    required_remote: String,
}

impl RemoteExists {
    pub closed spec fn name_view(&self) -> Seq<char> {
        self.name@
    }

    pub closed spec fn description_view(&self) -> Seq<char> {
        self.description@
    }

    pub closed spec fn level_view(&self) -> RuleLevel {
        self.level
    }

    pub closed spec fn remote_view(&self) -> Seq<char> {
        self.required_remote@
    }

    /// The rule for `origin`, at the level configured for `RemoteExists`
    /// (an error by default).
    pub fn new(workflow_rule_config: Option<&WorkflowRules>) -> (r: Self)
        ensures
            r.name_view() == "RemoteExists"@,
            r.description_view() == "Check that required Git remote exists before remote operations"@,
            r.level_view() == configured_level(workflow_rule_config, "RemoteExists"@, RuleLevel::Error),
            r.remote_view() == "origin"@,
    {
        let name = "RemoteExists";
        let level = rule_level_from_config(workflow_rule_config, name, RuleLevel::Error);
        RemoteExists {
            name: String::from_str(name),
            description: String::from_str("Check that required Git remote exists before remote operations"),
            level,
            required_remote: String::from_str("origin"),
        }
    }

    /// The rule for the remote `remote_name`.
    pub fn new_for_remote(remote_name: &str, workflow_rule_config: Option<&WorkflowRules>) -> (r: Self)
        ensures
            r.name_view() == "RemoteExists"@,
            r.description_view() == "Check that '"@ + remote_name@ + "' remote exists before remote operations"@,
            r.level_view() == configured_level(workflow_rule_config, "RemoteExists"@, RuleLevel::Error),
            r.remote_view() == remote_name@,
    {
        let name = "RemoteExists";
        let level = rule_level_from_config(workflow_rule_config, name, RuleLevel::Error);
        let mut description = String::from_str("Check that '");
        description.append(remote_name);
        description.append("' remote exists before remote operations");
        RemoteExists {
            name: String::from_str(name),
            description,
            level,
            required_remote: String::from_str(remote_name),
        }
    }

    pub fn get_name(&self) -> (r: &str)
        ensures
            r@ == self.name_view(),
    {
        self.name.as_str()
    }

    pub fn get_description(&self) -> (r: &str)
        ensures
            r@ == self.description_view(),
    {
        self.description.as_str()
    }

    pub fn get_level(&self) -> (r: RuleLevel)
        ensures
            r == self.level_view(),
    {
        self.level
    }

    /// The remote the rule requires.
    pub fn required_remote(&self) -> (r: &str)
        ensures
            r@ == self.remote_view(),
    {
        self.required_remote.as_str()
    }

    /// Whether `remote_name` is among the remotes `git remote` lists.
    #[verifier::loop_isolation(false)]
    pub fn check_remote(&self, remote_name: &str, outcome: GitCommandOutcome) -> (r: RuleOutput)
        ensures
            r@ == remote_check_spec(remote_name@, outcome),
    {
        match outcome {
            GitCommandOutcome::SpawnFailed(d) => {
                let mut m = String::from_str("Failed to execute 'git remote' command: ");
                m.append(d.as_str());
                RuleOutput::Exception(m)
            },
            GitCommandOutcome::Failed => RuleOutput::Exception(
                String::from_str("Git command failed - ensure you're in a git repository"),
            ),
            GitCommandOutcome::Succeeded(out) => {
                let names = parse_remote_names(out.as_str());
                let ghost nv = views(names@);
                let mut i: usize = 0;
                while i < names.len()
                    invariant
                        i <= names@.len(),
                        nv == views(names@),
                        forall|j: int| 0 <= j < i ==> nv[j] != remote_name@,
                    decreases names.len() - i,
                {
                    if str_eq(names[i].as_str(), remote_name) {
                        assert(nv[i as int] == remote_name@);
                        return RuleOutput::Success;
                    }
                    i = i + 1;
                }
                let mut m = String::from_str("Required remote '");
                m.append(remote_name);
                m.append("' does not exist. ");
                if names.len() == 0 {
                    m.append("No remotes configured");
                } else {
                    m.append("Available remotes: ");
                    let j = join_exec(&names, ", ");
                    m.append(j.as_str());
                }
                m.append(". Hint: create a repo at https://github.com/new and add it as '");
                m.append(remote_name);
                m.append("' (prefer SSH). In GitHub, click 'Code' → 'SSH' and copy the URL, then run: git remote add ");
                m.append(remote_name);
                m.append(" <ssh_url>");
                proof {
                    assert(!nv.contains(remote_name@));
                    assert(m@ =~= missing_remote_message(remote_name@, nv));
                }
                RuleOutput::Exception(m)
            },
        }
    }

    /// The URL to add the remote with, from what the user typed: trimmed,
    /// or none when only blanks were typed (then nothing is added).
    pub fn fix_url(&self, input: &str) -> (r: Option<String>)
        ensures
            trim(input@).len() == 0 ==> r is None,
            trim(input@).len() > 0 ==> (r matches Some(u) && u@ == trim(input@)),
    {
        let t = trim_exec(input);
        if t.as_str().unicode_len() == 0 {
            None
        } else {
            Some(t)
        }
    }

    /// The error of a failed stage of the fix.
    pub fn fix_error(&self, stage: RemoteFixStage, detail: &str) -> (e: BGitError)
        ensures
            e@ == fix_error_spec(stage, detail@),
    {
        match stage {
            RemoteFixStage::Input => {
                let mut m = String::from_str("Failed to get user input: ");
                m.append(detail);
                BGitError::new("RemoteExists", m.as_str(), BGitErrorWorkflowType::Rules, "try_fix", "remote_check", "RemoteExists")
            },
            RemoteFixStage::Discover => {
                let mut m = String::from_str("Failed to discover repository: ");
                m.append(detail);
                BGitError::new("RemoteExists", m.as_str(), BGitErrorWorkflowType::Rules, "try_fix", "repository_discovery", "RemoteExists")
            },
            RemoteFixStage::AddRemote => {
                let mut m = String::from_str("Failed to add remote: ");
                m.append(detail);
                BGitError::new("RemoteExists", m.as_str(), BGitErrorWorkflowType::Rules, "try_fix", "add_remote", "RemoteExists")
            },
        }
    }
}

} // verus!
