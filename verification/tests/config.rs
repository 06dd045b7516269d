use bgit::config::{
    BGitConfig, FlagValue, RuleConfig, StepFlags, WorkflowConfig, WorkflowRules, WorkflowSteps,
};
use bgit::rules::RuleLevel;

fn rules(entries: &[(&str, RuleLevel)]) -> WorkflowRules {
    WorkflowRules {
        rule_levels: entries.iter().map(|(n, l)| (n.to_string(), *l)).collect(),
    }
}

fn sample_config() -> BGitConfig {
    let default_rules = rules(&[
        ("a01_git_install", RuleLevel::Warning),
        ("a02_git_name_email_setup", RuleLevel::Error),
        ("a12_no_secrets_staged", RuleLevel::Skip),
    ]);
    let commit_rules = rules(&[
        ("a01_git_install", RuleLevel::Error),
        ("a17_conventional_commit_message", RuleLevel::Warning),
    ]);
    let sole = StepFlags {
        flags: vec![
            (
                "overrideCheckForAuthors".to_string(),
                FlagValue::Array(vec![FlagValue::Str("Lab Rat <dev.frolics@gmail.com>".to_string())]),
            ),
            ("skipAddAll".to_string(), FlagValue::Bool(true)),
            ("force".to_string(), FlagValue::Bool(false)),
        ],
    };
    let add = StepFlags {
        flags: vec![
            ("skipAddAll".to_string(), FlagValue::Bool(true)),
            ("includeUntracked".to_string(), FlagValue::Bool(false)),
            ("maxFileSize".to_string(), FlagValue::Int(100)),
        ],
    };
    let checks = StepFlags {
        flags: vec![
            ("skipLinting".to_string(), FlagValue::Bool(true)),
            ("timeout".to_string(), FlagValue::Int(30)),
        ],
    };
    BGitConfig {
        rules: RuleConfig {
            workflows: vec![
                ("default".to_string(), default_rules),
                ("git_commit".to_string(), commit_rules),
            ],
        },
        workflow: WorkflowConfig {
            workflows: vec![
                (
                    "default".to_string(),
                    WorkflowSteps { steps: vec![("is_sole_contributor".to_string(), sole)] },
                ),
                (
                    "git_commit".to_string(),
                    WorkflowSteps { steps: vec![("git_add".to_string(), add)] },
                ),
                (
                    "git_push".to_string(),
                    WorkflowSteps { steps: vec![("pre_push_checks".to_string(), checks)] },
                ),
            ],
        },
    }
}

#[test]
fn test_default_config() {
    let config = BGitConfig::default();
    assert!(config.rules.workflows.is_empty());
    assert!(config.workflow.workflows.is_empty());
}

#[test]
fn test_config_parsing() {
    let config = sample_config();

    let default_rules = config.get_workflow_rules("default").unwrap();
    assert_eq!(default_rules.get_rule_level("a01_git_install"), Some(&RuleLevel::Warning));
    assert_eq!(default_rules.get_rule_level("a02_git_name_email_setup"), Some(&RuleLevel::Error));
    assert_eq!(default_rules.get_rule_level("a12_no_secrets_staged"), Some(&RuleLevel::Skip));
    assert!(default_rules.has_rule("a01_git_install"));
    assert!(!default_rules.has_rule("nonexistent_rule"));

    let git_commit_rules = config.get_workflow_rules("git_commit").unwrap();
    assert_eq!(git_commit_rules.get_rule_level("a01_git_install"), Some(&RuleLevel::Error));
    assert_eq!(
        git_commit_rules.get_rule_level("a17_conventional_commit_message"),
        Some(&RuleLevel::Warning)
    );

    let fallback_rules = config.get_workflow_rules_or_default("some_workflow").unwrap();
    assert_eq!(fallback_rules.get_rule_level("a01_git_install"), Some(&RuleLevel::Warning));

    let default_steps = config.get_workflow_steps("default").unwrap();
    assert!(default_steps.has_step("is_sole_contributor"));

    let step_flags = default_steps.get_step_flags("is_sole_contributor").unwrap();
    assert_eq!(step_flags.get_flag_bool("skipAddAll"), Some(true));
    assert!(!step_flags.get_flag_or_default_bool("nonexistent", false));
    assert!(step_flags.has_flag("skipAddAll"));
    assert!(!step_flags.has_flag("nonexistent"));
}

#[test]
fn test_workflow_structure_methods() {
    let config = sample_config();
    let default_rules = config.get_workflow_rules("default").unwrap();
    let rule_names = default_rules.get_rule_names();
    assert!(rule_names.contains(&&"a01_git_install".to_string()));
    assert!(rule_names.contains(&&"a02_git_name_email_setup".to_string()));

    let default_steps = config.get_workflow_steps("default").unwrap();
    let step_flags = default_steps.get_step_flags("is_sole_contributor").unwrap();
    let flag_names = step_flags.get_flag_names();
    assert!(flag_names.contains(&&"overrideCheckForAuthors".to_string()));
    assert!(flag_names.contains(&&"skipAddAll".to_string()));
}

#[test]
fn config_typed_flag_getters() {
    let config = sample_config();
    let steps = config.get_workflow_steps("git_commit").unwrap();
    let add = steps.get_step_flags("git_add").unwrap();
    assert_eq!(add.get_flag_i64("maxFileSize"), Some(100));
    assert_eq!(add.get_flag_bool("maxFileSize"), None);
    assert_eq!(add.get_flag_bool("includeUntracked"), Some(false));
    let sole = config
        .get_workflow_steps("default")
        .unwrap()
        .get_step_flags("is_sole_contributor")
        .unwrap();
    assert_eq!(
        sole.get_flag_strings("overrideCheckForAuthors"),
        Some(vec!["Lab Rat <dev.frolics@gmail.com>".to_string()])
    );
    assert_eq!(sole.get_flag_string("skipAddAll"), None);
}

#[test]
fn config_steps_fall_back_to_default_workflow() {
    let config = sample_config();
    let steps = config.get_workflow_steps_or_default("unknown").unwrap();
    assert!(steps.has_step("is_sole_contributor"));
    assert!(config.get_workflow_steps("unknown").is_none());
    assert!(config.get_workflow_rules("unknown").is_none());
    let empty = BGitConfig::default();
    assert!(empty.get_workflow_rules_or_default("x").is_none());
}

#[test]
fn config_first_entry_wins() {
    let r = rules(&[("a", RuleLevel::Skip), ("a", RuleLevel::Error)]);
    assert_eq!(r.get_rule_level("a"), Some(&RuleLevel::Skip));
}

#[test]
fn repeated_names_read_as_one_entry() {
    let rules = WorkflowRules {
        rule_levels: vec![
            ("A".to_string(), RuleLevel::Error),
            ("B".to_string(), RuleLevel::Skip),
            ("A".to_string(), RuleLevel::Warning),
        ],
    };
    let names: Vec<&str> = rules.get_rule_names().iter().map(|s| s.as_str()).collect();
    assert_eq!(names, vec!["A", "B"]);
    assert_eq!(rules.get_rule_level("A"), Some(&RuleLevel::Error));
}
