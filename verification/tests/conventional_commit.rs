use bgit::config::WorkflowRules;
use bgit::conventional_commit::ConventionalCommitMessage;
use bgit::rules::{Rule, RuleLevel, RuleOutput};

#[test]
fn test_valid_conventional_commits() {
    let rule = ConventionalCommitMessage::new(None);

    assert!(rule.is_conventional_commit("feat: add user authentication"));
    assert!(rule.is_conventional_commit("fix: resolve login issue"));
    assert!(rule.is_conventional_commit("docs: update README"));
    assert!(rule.is_conventional_commit("style: fix code formatting"));
    assert!(rule.is_conventional_commit("refactor: simplify user service"));
    assert!(rule.is_conventional_commit("test: add unit tests for auth"));
    assert!(rule.is_conventional_commit("chore: update dependencies"));
    assert!(rule.is_conventional_commit("build: update webpack config"));
    assert!(rule.is_conventional_commit("ci: add GitHub Actions"));
    assert!(rule.is_conventional_commit("perf: optimize database queries"));
    assert!(rule.is_conventional_commit("revert: undo last commit"));

    assert!(rule.is_conventional_commit("feat(auth): add user authentication"));
    assert!(rule.is_conventional_commit("fix(login): resolve login issue"));
    assert!(rule.is_conventional_commit("docs(readme): update installation guide"));

    assert!(rule.is_conventional_commit("feat: add new feature\n\nThis is a detailed description"));
}

#[test]
fn test_invalid_conventional_commits() {
    let rule = ConventionalCommitMessage::new(None);

    assert!(!rule.is_conventional_commit("Add user authentication"));
    assert!(!rule.is_conventional_commit("fix login issue"));
    assert!(!rule.is_conventional_commit("updated README"));
    assert!(!rule.is_conventional_commit("WIP: work in progress"));
    assert!(!rule.is_conventional_commit("hotfix: emergency fix"));
    assert!(!rule.is_conventional_commit("feature: new feature"));
    assert!(!rule.is_conventional_commit("bug: fix bug"));

    assert!(!rule.is_conventional_commit("feat:"));
    assert!(!rule.is_conventional_commit("fix: "));

    assert!(!rule.is_conventional_commit("feat add authentication"));
    assert!(!rule.is_conventional_commit("feat(scope) add authentication"));
}

#[test]
fn test_with_message_method() {
    let rule = ConventionalCommitMessage::new(None).with_message("feat: add new feature".to_string());

    let result = rule.check().unwrap();
    match result {
        RuleOutput::Success => (),
        _ => panic!("Expected success for valid conventional commit"),
    }
}

#[test]
fn test_with_invalid_message() {
    let rule = ConventionalCommitMessage::new(None).with_message("Add new feature".to_string());

    let result = rule.check().unwrap();
    match result {
        RuleOutput::Exception(msg) => {
            assert!(msg.contains("does not follow Conventional Commit specification"));
        }
        _ => panic!("Expected exception for invalid conventional commit"),
    }
}

#[test]
fn test_no_message_provided() {
    let rule = ConventionalCommitMessage::new(None);

    let result = rule.check().unwrap();
    match result {
        RuleOutput::Exception(msg) => {
            assert_eq!(msg, "No commit message provided for validation");
        }
        _ => panic!("Expected exception when no message is provided"),
    }
}

#[test]
fn test_rule_properties() {
    let rule = ConventionalCommitMessage::new(None);

    assert_eq!(rule.get_name(), "ConventionalCommitMessage");
    assert_eq!(
        rule.get_description(),
        "Ensure commit messages follow Conventional Commit specification"
    );
    assert_eq!(rule.get_level(), RuleLevel::Warning);
}

#[test]
fn test_try_fix_returns_false() {
    let rule = ConventionalCommitMessage::new(None);
    let result = rule.try_fix().unwrap();
    assert!(!result);
}

#[test]
fn test_chaining_with_message() {
    let rule = ConventionalCommitMessage::new(None)
        .with_message("fix(auth): resolve token validation".to_string());

    let result = rule.check().unwrap();
    match result {
        RuleOutput::Success => (),
        _ => panic!("Expected success for valid scoped conventional commit"),
    }
}

#[test]
fn invalid_message_reports_first_line_only() {
    let rule = ConventionalCommitMessage::new(None).with_message("oops\r\nsecond line".to_string());
    match rule.check().unwrap() {
        RuleOutput::Exception(msg) => assert_eq!(
            msg,
            "Commit message does not follow Conventional Commit specification: 'oops'"
        ),
        _ => panic!("expected an exception"),
    }
}

#[test]
fn configured_level_overrides_default() {
    let cfg = WorkflowRules {
        rule_levels: vec![("ConventionalCommitMessage".to_string(), RuleLevel::Error)],
    };
    let rule = ConventionalCommitMessage::new(Some(&cfg));
    assert_eq!(rule.get_level(), RuleLevel::Error);
    let other = WorkflowRules { rule_levels: vec![("Other".to_string(), RuleLevel::Skip)] };
    assert_eq!(ConventionalCommitMessage::new(Some(&other)).get_level(), RuleLevel::Warning);
}
