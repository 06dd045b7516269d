use bgit::error::{BGitError, BGitErrorWorkflowType};
use bgit::events::git_branch::GitBranch;
use bgit::events::git_stash::GitStash;
use bgit::events::git_status::{GitStatus, StatusMode};
use bgit::global_config::BGitGlobalConfig;
use bgit::rules::{run_pre_check_rules, Rule, RuleLevel, RuleOutput};

struct FixedRule {
    name: &'static str,
    level: RuleLevel,
    check: Result<bool, &'static str>,
    fixes: bool,
}

impl Rule for FixedRule {
    fn get_name(&self) -> &str {
        self.name
    }

    fn get_description(&self) -> &str {
        "fixed outcome"
    }

    fn get_level(&self) -> RuleLevel {
        self.level
    }

    fn check(&self) -> Result<RuleOutput, BGitError> {
        match self.check {
            Ok(true) => Ok(RuleOutput::Success),
            Ok(false) => Ok(RuleOutput::Exception("broken".to_string())),
            Err(m) => Err(BGitError::new("BGitError", m, BGitErrorWorkflowType::Rules, "", "", self.name)),
        }
    }

    fn try_fix(&self) -> Result<bool, BGitError> {
        Ok(self.fixes)
    }
}

fn rule(name: &'static str, level: RuleLevel, check: Result<bool, &'static str>) -> Box<dyn Rule> {
    Box::new(FixedRule { name, level, check, fixes: false })
}

#[test]
fn new_events_have_no_pre_check_rules() {
    let cfg = BGitGlobalConfig::default();
    assert!(GitStash::pop_stash(Some(2)).get_pre_check_rule().is_empty());
    assert!(GitBranch::move_changes_to_branch(&cfg, "feature".to_string()).get_pre_check_rule().is_empty());
    assert!(GitStatus::with_mode(StatusMode::CheckOnly).get_pre_check_rule().is_empty());
}

#[test]
fn pre_check_rules_are_kept_in_order() {
    let mut stash = GitStash::pop_stash(None);
    stash.add_pre_check_rule(rule("First", RuleLevel::Error, Ok(true)));
    stash.add_pre_check_rule(rule("Second", RuleLevel::Warning, Ok(false)));
    let names: Vec<&str> = stash.get_pre_check_rule().iter().map(|r| r.get_name()).collect();
    assert_eq!(names, vec!["First", "Second"]);
    assert_eq!(stash.get_name(), "git_stash");
    assert_eq!(stash.get_action_description(), "Pop stash and apply changes");
}

#[test]
fn passing_and_warning_rules_let_the_event_run() {
    let rules = vec![rule("Ok", RuleLevel::Error, Ok(true)), rule("Warn", RuleLevel::Warning, Ok(false))];
    assert_eq!(run_pre_check_rules(&rules).unwrap(), true);
    assert_eq!(run_pre_check_rules(&Vec::new()).unwrap(), true);
}

#[test]
fn first_failing_rule_stops_the_event() {
    let rules = vec![
        rule("Ok", RuleLevel::Error, Ok(true)),
        rule("Broken", RuleLevel::Error, Ok(false)),
        rule("Erroring", RuleLevel::Error, Err("never reached")),
    ];
    let e = run_pre_check_rules(&rules).unwrap_err();
    assert_eq!(e.name, "Failed to fix the rule");
    assert_eq!(e.message, "broken");
    assert_eq!(e.rule, "Broken");
}

#[test]
fn skipped_rule_is_not_checked() {
    let rules = vec![rule("Skipped", RuleLevel::Skip, Err("would fail"))];
    assert_eq!(run_pre_check_rules(&rules).unwrap(), true);
}
