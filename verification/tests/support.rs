use bgit::auth::{
    added_keys_message, auth_failed_message, check_auth_attempt, check_userpass, credential_route,
    https_credentials_saved, is_public_key_file, key_display_name, manual_key_choice, manual_key_options,
    persist_preferred_auth_question, should_add_keys, ssh_key_candidates, CredentialRoute,
};
use bgit::cli::{completion_install_hint, log_filter, ShellKind};
use bgit::create_creds::{key_identity, key_option_label, keygen_args, keygen_plan, setup_choice, validate_email, SetupChoice};
use bgit::global_config::{BGitGlobalConfig, PreferredAuth};
use bgit::hooks::{
    fallback_failure_detail, fallback_to_sh, hook_exit_detail, hook_permissions, normalize_hooks_path, scan_hooks,
    standard_hooks_dir, unsupported_hooks_warning,
};
use bgit::llm_tools::{ValidateConventionalCommit, ValidateConventionalCommitArgs};
use bgit::paths::{extension, extension_of, file_name};
use bgit::text::{decimal_exec, replace_all_exec, split_whitespace_exec, strip_all_prefix_exec, utf8_len_exec};
use bgit::workflow_queue::{check_init_step, next_step_decision, step_in_progress_message, QueueDecision, StepKind};

#[test]
fn auth_attempts_and_routes() {
    assert!(check_auth_attempt(3).is_ok());
    assert_eq!(check_auth_attempt(4).unwrap_err(), "Too many authentication attempts");
    assert_eq!(auth_failed_message(2), "Authentication failed - attempt 2");
    assert_eq!(credential_route(true), CredentialRoute::UserPass);
    assert_eq!(credential_route(false), CredentialRoute::Ssh);
    assert!(should_add_keys(0, 1));
    assert!(!should_add_keys(1, 1));
    assert!(check_userpass("u", "t").is_ok());
    assert_eq!(check_userpass("", "t").unwrap_err(), "Username or token cannot be empty");
}

#[test]
fn auth_persist_questions() {
    let mut cfg = BGitGlobalConfig::default();
    assert_eq!(
        persist_preferred_auth_question(&cfg, PreferredAuth::Ssh).as_deref(),
        Some("Set preferred auth to SSH for future operations?")
    );
    assert!(persist_preferred_auth_question(&cfg, PreferredAuth::RepositoryURLBased).is_none());
    cfg.auth.https.username = Some("u".to_string());
    cfg.auth.https.pat = Some("t".to_string());
    assert!(https_credentials_saved(&cfg, "u", "t"));
    assert!(!https_credentials_saved(&cfg, "u", "other"));
}

#[test]
fn auth_key_candidates() {
    let c = ssh_key_candidates(Some("/h/.ssh/id_rsa"), "/h/.ssh");
    assert_eq!(c, vec!["/h/.ssh/id_rsa", "/h/.ssh/id_ed25519", "/h/.ssh/id_ecdsa", "/h/.ssh/id_dsa"]);
    let c = ssh_key_candidates(Some("/h/.ssh//id_rsa/"), "/h/.ssh");
    assert_eq!(c, vec!["/h/.ssh//id_rsa/", "/h/.ssh/id_ed25519", "/h/.ssh/id_ecdsa", "/h/.ssh/id_dsa"]);
    let c = ssh_key_candidates(None, "/h/.ssh");
    assert_eq!(c, vec!["/h/.ssh/id_ed25519", "/h/.ssh/id_rsa", "/h/.ssh/id_ecdsa", "/h/.ssh/id_dsa"]);
    assert!(is_public_key_file("/h/.ssh/id_rsa.pub"));
    assert!(!is_public_key_file("/h/.ssh/id_rsa"));
    assert_eq!(key_display_name("/h/.ssh/id_rsa"), "id_rsa");
    assert_eq!(added_keys_message(2), "Successfully added 2 SSH key(s) to ssh-agent.");
    assert!(added_keys_message(0).starts_with("No SSH keys were added"));
    let opts = manual_key_options(&vec!["id_rsa".to_string()]);
    assert_eq!(opts, vec!["Add id_rsa to SSH agent", "Skip manual key addition"]);
    assert_eq!(manual_key_choice(0, 1), Some(0));
    assert_eq!(manual_key_choice(1, 1), None);
}

#[test]
fn create_creds_helpers() {
    assert_eq!(key_identity(Some("ssh-ed25519 AAAA me@host extra\n")), "me@host extra");
    assert_eq!(key_identity(Some("ssh-ed25519 AAAA")), "No identity found");
    assert_eq!(key_identity(None), "Could not read key");
    assert_eq!(validate_email("  ").unwrap_err(), "Email cannot be empty");
    assert_eq!(validate_email("me").unwrap_err(), "Please enter a valid email address");
    assert!(validate_email("me@x.org").is_ok());
    let plan = keygen_plan(1);
    assert_eq!(plan.key_name, "id_rsa");
    assert_eq!(keygen_args(&plan, "me@x.org", "/k"), vec!["-t", "rsa", "-b", "4096", "-C", "me@x.org", "-f", "/k", "-N", ""]);
    assert_eq!(keygen_plan(0).key_type, "Ed25519");
    assert_eq!(setup_choice(Some(0)), SetupChoice::UseExisting);
    assert_eq!(setup_choice(None), SetupChoice::Cancel);
    assert_eq!(key_option_label("id_rsa", "RSA", "me"), "id_rsa (RSA) - me");
}

#[test]
fn hook_helpers() {
    assert_eq!(hook_permissions(0o644), Some(0o755));
    assert_eq!(hook_permissions(0o700), None);
    assert!(fallback_to_sh(Some(8)));
    assert!(!fallback_to_sh(Some(2)));
    assert_eq!(hook_exit_detail(Some(3), "/h"), "Event-hook exited with non-zero status 3\nFile:/h");
    assert_eq!(hook_exit_detail(None, "/h"), "Event-hook exited with non-zero status -1\nFile:/h");
    assert_eq!(fallback_failure_detail("a", "b"), "a (fallback /bin/sh also failed: b)");
    assert_eq!(normalize_hooks_path("~/hooks", Some("/home/a"), "/repo"), "/home/a/hooks");
    assert_eq!(normalize_hooks_path("githooks", None, "/repo"), "/repo/githooks");
    assert_eq!(normalize_hooks_path("/abs", None, "/repo"), "/abs");
    assert_eq!(standard_hooks_dir(None, None, None, "/repo", "/repo/.git"), "/repo/.git/hooks");
    assert_eq!(standard_hooks_dir(None, Some("g"), None, "/repo", "/repo/.git"), "/repo/g");
    let (all, unsupported) = scan_hooks(&vec![
        "pre-commit".to_string(),
        "pre-push".to_string(),
        "pre-push.sample".to_string(),
        "custom".to_string(),
    ]);
    assert_eq!(all, vec!["pre-commit", "pre-push", "custom"]);
    assert_eq!(unsupported, vec!["pre-push"]);
    assert!(unsupported_hooks_warning("pre-push", "/d").starts_with("Detected standard Git hooks not executed by bgit: pre-push (at /d)."));
}

#[test]
fn workflow_queue_decisions() {
    assert!(check_init_step(StepKind::Start).is_ok());
    assert_eq!(check_init_step(StepKind::Task).unwrap_err().name, "init_step must be a Start Task!");
    assert!(matches!(next_step_decision(StepKind::Task), QueueDecision::RunTask));
    assert!(matches!(next_step_decision(StepKind::Stop), QueueDecision::Finished));
    match next_step_decision(StepKind::Start) {
        QueueDecision::Failed(e) => assert_eq!(e.message, "next_step must not be a Start Task! This is a bug in the code"),
        _ => panic!("expected a failure"),
    }
    assert_eq!(step_in_progress_message("add"), "Step 'add' in progress...");
}

#[test]
fn cli_levels_and_hints() {
    assert_eq!(log_filter(0), "warn");
    assert_eq!(log_filter(1), "info");
    assert_eq!(log_filter(2), "debug");
    assert_eq!(log_filter(7), "trace");
    assert!(completion_install_hint(ShellKind::Zsh).unwrap().contains("zsh"));
    assert!(completion_install_hint(ShellKind::Elvish).is_none());
}

#[test]
fn llm_tool_validates_messages() {
    let tool = ValidateConventionalCommit;
    assert_eq!(ValidateConventionalCommit::name(), "validate_conventional_commit");
    let ok = tool.call(ValidateConventionalCommitArgs { message: "feat: add x".to_string() });
    assert!(ok.valid && ok.error.is_none());
    let bad = tool.call(ValidateConventionalCommitArgs { message: "added x".to_string() });
    assert!(!bad.valid);
    assert_eq!(
        bad.error.as_deref(),
        Some("Commit message does not follow Conventional Commit specification: 'added x'")
    );
}

#[test]
fn text_and_path_helpers() {
    assert_eq!(decimal_exec(0), "0");
    assert_eq!(decimal_exec(1234567), "1234567");
    assert_eq!(utf8_len_exec("aé€😀"), 10);
    assert_eq!(replace_all_exec("a-b-c", "-", "+"), "a+b+c");
    assert_eq!(replace_all_exec("abc", "", "|"), "|a|b|c|");
    assert_eq!(replace_all_exec("aaaa", "aa", "b"), "bb");
    assert_eq!(strip_all_prefix_exec("+++++x", "++"), "+x");
    assert_eq!(split_whitespace_exec("  a b\t c  "), vec!["a", "b", "c"]);
    assert_eq!(file_name("dir/file.txt").as_deref(), Some("file.txt"));
    assert_eq!(file_name("dir/.."), None);
    assert_eq!(extension("dir/file.tar.gz").as_deref(), Some("gz"));
    assert_eq!(extension(".hidden"), None);
    assert_eq!(extension_of("name."), Some(String::new()));
    assert_eq!(extension_of("noext"), None);
}
