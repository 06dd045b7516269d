use bgit::rules::secrets::{
    added_content, check_sensitive_files, get_line_context, is_sequential, validate_base64,
    validate_not_common_word, NoSecretsStaged,
};
use bgit::rules::RuleOutput;

#[test]
fn secrets_added_lines_only() {
    let diff = "+++ b/app.py\n+token = 1\n-removed\n context\n+second\n";
    assert_eq!(added_content(diff), "+token = 1\n+second");
}

#[test]
fn secrets_sequential_runs() {
    assert_eq!(is_sequential("abcdefxyz"), Some(true));
    assert_eq!(is_sequential("abcdexyz"), Some(false));
    assert_eq!(is_sequential("abc"), Some(false));
    assert_eq!(is_sequential("ab\u{ff}cdefgh"), None);
}

#[test]
fn secrets_common_words() {
    assert_eq!(validate_not_common_word("EXAMPLEkey123456"), Some(false));
    assert_eq!(validate_not_common_word("aaaaaaaa"), Some(false));
    assert_eq!(validate_not_common_word("xq12345678zz"), Some(false));
    assert_eq!(validate_not_common_word("fakeQz9Lm2Kp"), Some(false));
    assert_eq!(validate_not_common_word("Qz9Lm2Kp7Rw3Xy"), Some(true));
}

#[test]
fn secrets_base64_shape() {
    assert!(validate_base64("QUJD"));
    assert!(!validate_base64("QUJ"));
    assert!(!validate_base64("QU-D"));
}

#[test]
fn secrets_line_context_redacts() {
    let content = "+a = 1\n+token: ghp_SECRET\n";
    assert_eq!(get_line_context("ghp_SECRET", content).as_deref(), Some("+token: [REDACTED]"));
    assert_eq!(get_line_context("missing", content).as_deref(), Some("unknown context"));
    let long = format!("+{}SECRET", "x".repeat(60));
    assert_eq!(get_line_context("SECRET", &long).as_deref(), Some(format!("+{}...", "x".repeat(46)).as_str()));
    let cut = format!("+{}é{}", "x".repeat(45), "y".repeat(10));
    assert_eq!(get_line_context("y", &cut), None);
}

#[test]
fn secrets_sensitive_file_headers() {
    let mut found = vec!["first".to_string()];
    check_sensitive_files("--- a/.env\n+++ b/.env\n+++ b/src/main.rs\n+x\n", &mut found);
    assert_eq!(found, vec!["first", "Sensitive file: a/.env", "Sensitive file: b/.env"]);
}

#[test]
fn secrets_pattern_findings_once_per_kind() {
    let rule = NoSecretsStaged::new(None);
    let token = format!("ghp_{}", "A1b2C3d4E5f6G7h8I9j0K1l2M3n4O5p6Q7r8");
    let text = format!("+a = \"{token}\"\n+b = \"{token}\"");
    let cands = rule.candidates(&text);
    assert_eq!(cands.len(), 2);
    assert_eq!(cands[0].name, "GitHub Personal Access Token");
    let paired: Vec<_> = cands.into_iter().map(|c| (c, true)).collect();
    let found = rule.pattern_findings(&paired, &text).unwrap();
    assert_eq!(found, vec!["GitHub Personal Access Token (line context: +a = \"[REDACTED]\")".to_string()]);
    let rejected: Vec<_> = paired.into_iter().map(|(c, _)| (c, false)).collect();
    assert!(rule.pattern_findings(&rejected, &text).unwrap().is_empty());
}

#[test]
fn secrets_assignments_and_report() {
    let rule = NoSecretsStaged::new(None);
    let text = "+    API_Token = \"Zx9Qw8Er7Ty6Ui5Op4\"";
    let found = rule.assignment_candidates(text);
    assert_eq!(found, vec![("api_token".to_string(), "Zx9Qw8Er7Ty6Ui5Op4".to_string())]);
    assert!(NoSecretsStaged::assignment_prefilter("api_token", "Zx9Qw8Er7Ty6Ui5Op4"));
    assert!(!NoSecretsStaged::assignment_prefilter("colour", "Zx9Qw8Er7Ty6Ui5Op4"));
    assert!(!NoSecretsStaged::assignment_prefilter("key", "short"));
    assert!(matches!(NoSecretsStaged::secrets_report(&vec![]), RuleOutput::Success));
    match NoSecretsStaged::secrets_report(&vec!["a".to_string(), "b".to_string()]) {
        RuleOutput::Exception(m) => assert_eq!(m, "Potential secrets detected in staged files: a, b"),
        _ => panic!("expected an exception"),
    }
    match NoSecretsStaged::diff_failure(Some("no git")) {
        RuleOutput::Exception(m) => assert_eq!(m, "Failed to execute git diff --staged: no git"),
        _ => panic!("expected an exception"),
    }
    assert!(!rule.try_fix().unwrap());
}
