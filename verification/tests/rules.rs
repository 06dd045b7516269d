use bgit::config::WorkflowRules;
use bgit::events::StatusFlags;
use bgit::rules::git_name_email_setup::GitNameEmailSetup;
use bgit::rules::large_file::NoLargeFile;
use bgit::rules::remote_exists::{GitCommandOutcome, RemoteExists, RemoteFixStage};
use bgit::rules::repo_size::{sum_sizes, IsRepoSizeTooBig};
use bgit::rules::secret_files::NoSecretFilesStaged;
use bgit::rules::{rule_run_start, rule_run_step, RuleLevel, RuleOutput, RuleRunAction, RuleRunEvent};

fn flags() -> StatusFlags {
    StatusFlags {
        index_new: false,
        index_modified: false,
        index_deleted: false,
        index_renamed: false,
        index_typechange: false,
        wt_new: false,
        wt_modified: false,
        wt_deleted: false,
        wt_typechange: false,
        wt_renamed: false,
    }
}

fn exception(o: RuleOutput) -> String {
    match o {
        RuleOutput::Exception(m) => m,
        RuleOutput::Success => panic!("expected an exception"),
    }
}

#[test]
fn rule_run_passes_skipped_rule() {
    let (_, a) = rule_run_start(RuleLevel::Skip);
    assert!(matches!(a, RuleRunAction::Finish(Ok(true))));
}

#[test]
fn rule_run_error_level_needs_verified_fix() {
    let (s, a) = rule_run_start(RuleLevel::Error);
    assert!(matches!(a, RuleRunAction::RunCheck));
    let (s, a) = rule_run_step(RuleLevel::Error, "R", s, RuleRunEvent::Checked(Ok(RuleOutput::Exception("bad".to_string()))));
    assert!(matches!(a, RuleRunAction::RunFix));
    let (s, a) = rule_run_step(RuleLevel::Error, "R", s, RuleRunEvent::Fixed(Ok(true)));
    assert!(matches!(a, RuleRunAction::RunVerify));
    let (_, a) = rule_run_step(RuleLevel::Error, "R", s, RuleRunEvent::Verified(Ok(RuleOutput::Exception("still".to_string()))));
    match a {
        RuleRunAction::Finish(Err(e)) => {
            assert_eq!(e.name, "Failed to verify the rule");
            assert_eq!(e.message, "bad");
            assert_eq!(e.rule, "R");
        }
        _ => panic!("expected a failure"),
    }
}

#[test]
fn rule_run_warning_never_blocks() {
    let (s, _) = rule_run_start(RuleLevel::Warning);
    let (s, _) = rule_run_step(RuleLevel::Warning, "W", s, RuleRunEvent::Checked(Ok(RuleOutput::Exception("x".to_string()))));
    let (_, a) = rule_run_step(RuleLevel::Warning, "W", s, RuleRunEvent::Fixed(Ok(false)));
    assert!(matches!(a, RuleRunAction::Finish(Ok(true))));
}

#[test]
fn rule_run_unfixed_error_fails() {
    let (s, _) = rule_run_start(RuleLevel::Error);
    let (s, _) = rule_run_step(RuleLevel::Error, "E", s, RuleRunEvent::Checked(Ok(RuleOutput::Exception("x".to_string()))));
    let (_, a) = rule_run_step(RuleLevel::Error, "E", s, RuleRunEvent::Fixed(Ok(false)));
    match a {
        RuleRunAction::Finish(Err(e)) => assert_eq!(e.name, "Failed to fix the rule"),
        _ => panic!("expected a failure"),
    }
}

#[test]
fn name_email_check() {
    let r = GitNameEmailSetup::new(None);
    assert_eq!(r.get_name(), "GitNameEmailSetup");
    assert_eq!(r.get_level(), RuleLevel::Error);
    assert!(matches!(r.check_config(Ok((Some("Ann".to_string()), Some("a@x".to_string())))), RuleOutput::Success));
    assert_eq!(
        exception(r.check_config(Ok((Some("  ".to_string()), Some("a@x".to_string()))))),
        "Git user.name and/or user.email is not configured"
    );
    assert_eq!(
        exception(r.check_config(Ok((Some("Ann".to_string()), None)))),
        "Git user.name and/or user.email is not configured"
    );
    assert_eq!(exception(r.check_config(Err("no file".to_string()))), "Failed to open Git config: no file");
    assert!(!r.try_fix().unwrap());
}

#[test]
fn repo_size_check() {
    let r = IsRepoSizeTooBig::new(None);
    assert_eq!(r.get_level(), RuleLevel::Warning);
    assert!(matches!(r.size_check(Ok(128 * 1024 * 1024 + 1)), RuleOutput::Success));
    assert_eq!(
        exception(r.size_check(Ok(129 * 1024 * 1024))),
        "Repository size (129 MB) exceeds recommended limit of 128 MB"
    );
    let small = IsRepoSizeTooBig::new(None).with_max_size_mb(1);
    assert_eq!(exception(small.size_check(Ok(5 * 1024 * 1024))), "Repository size (5 MB) exceeds recommended limit of 1 MB");
    assert_eq!(exception(r.size_check(Err("index".to_string()))), "Failed to calculate repository size: index");
    assert_eq!(sum_sizes(&vec![1, 2, 3]), 6);
    assert!(IsRepoSizeTooBig::cleanup_performed(0, true));
    assert!(!IsRepoSizeTooBig::cleanup_performed(0, false));
    assert_eq!(r.discover_error("x").event, "IsRepoSizeTooBig");
}

#[test]
fn remote_exists_check() {
    let r = RemoteExists::new(None);
    assert_eq!(r.required_remote(), "origin");
    assert!(matches!(
        r.check_remote("origin", GitCommandOutcome::Succeeded("  origin \nupstream\n".to_string())),
        RuleOutput::Success
    ));
    assert_eq!(
        exception(r.check_remote("origin", GitCommandOutcome::Succeeded("\n".to_string()))),
        "Required remote 'origin' does not exist. No remotes configured. Hint: create a repo at https://github.com/new and add it as 'origin' (prefer SSH). In GitHub, click 'Code' → 'SSH' and copy the URL, then run: git remote add origin <ssh_url>"
    );
    let m = exception(r.check_remote("origin", GitCommandOutcome::Succeeded("a\nb\n".to_string())));
    assert!(m.contains("Available remotes: a, b."));
    assert_eq!(
        exception(r.check_remote("origin", GitCommandOutcome::Failed)),
        "Git command failed - ensure you're in a git repository"
    );
    assert_eq!(
        exception(r.check_remote("origin", GitCommandOutcome::SpawnFailed("nope".to_string()))),
        "Failed to execute 'git remote' command: nope"
    );
    let custom = RemoteExists::new_for_remote("backup", None);
    assert_eq!(custom.get_description(), "Check that 'backup' remote exists before remote operations");
    assert_eq!(custom.fix_url("  git@h:a/b.git \n").as_deref(), Some("git@h:a/b.git"));
    assert_eq!(custom.fix_url("   "), None);
    let e = custom.fix_error(RemoteFixStage::AddRemote, "exists");
    assert_eq!(e.message, "Failed to add remote: exists");
    assert_eq!(e.event, "add_remote");
}

#[test]
fn rule_levels_follow_configuration() {
    let cfg = WorkflowRules { rule_levels: vec![("RemoteExists".to_string(), RuleLevel::Skip)] };
    assert_eq!(RemoteExists::new(Some(&cfg)).get_level(), RuleLevel::Skip);
    assert_eq!(NoLargeFile::new(Some(&cfg)).get_level(), RuleLevel::Warning);
}

#[test]
fn secret_files_detected() {
    let r = NoSecretFilesStaged::new();
    let patterns = r.get_secret_file_patterns();
    assert_eq!(patterns.len(), 28);
    assert!(r.is_secret_file(".env", &patterns));
    assert!(r.is_secret_file("config/app/server.pem", &patterns));
    assert!(r.is_secret_file("deploy/id_rsa", &patterns));
    assert!(!r.is_secret_file("src/main.rs", &patterns));
    let mut added = flags();
    added.index_new = true;
    let mut deleted = flags();
    deleted.wt_deleted = true;
    let entries = vec![
        (".env".to_string(), added),
        ("keys/prod.key".to_string(), deleted),
        ("README.md".to_string(), added),
        ("aws/credentials.json".to_string(), added),
    ];
    assert_eq!(r.secret_files(&entries, &patterns), vec![".env".to_string(), "aws/credentials.json".to_string()]);
    assert_eq!(
        exception(r.check_entries(&entries)),
        "Potential secret files detected: .env, aws/credentials.json"
    );
    assert!(matches!(r.check_entries(&vec![("README.md".to_string(), added)]), RuleOutput::Success));
    let existing = vec![".env".to_string()];
    let files = vec![".env".to_string(), "a.pem".to_string()];
    assert_eq!(r.gitignore_additions(&existing, &files), vec!["a.pem".to_string()]);
}

#[test]
fn large_files_and_lfs() {
    let r = NoLargeFile::new(None);
    let attrs = vec!["*.mp4 filter=lfs diff=lfs merge=lfs -text".to_string(), "data/big.bin filter=lfs".to_string()];
    assert!(r.is_lfs_tracked("videos/a.mp4", &attrs));
    assert!(r.is_lfs_tracked("data/big.bin", &attrs));
    assert!(!r.is_lfs_tracked("data/other.bin", &attrs));
    let mut added = flags();
    added.wt_new = true;
    let entries = vec![
        ("videos/a.mp4".to_string(), added, Some(10 * 1024 * 1024)),
        ("data/other.bin".to_string(), added, Some(6 * 1024 * 1024)),
        ("small.txt".to_string(), added, Some(10)),
        ("gone.bin".to_string(), added, None),
    ];
    assert_eq!(r.large_files(&entries, &attrs), vec![("data/other.bin".to_string(), 6 * 1024 * 1024)]);
    let exts = r.lfs_extensions(&vec!["a.bin".to_string(), "b.bin".to_string(), "c.iso".to_string(), "noext".to_string()]);
    assert_eq!(exts.len(), 2);
    assert!(exts.contains(&"bin".to_string()) && exts.contains(&"iso".to_string()));
    let lines = r.lfs_lines_to_add("*.bin filter=lfs diff=lfs merge=lfs -text\n", &vec!["bin".to_string(), "iso".to_string()]);
    assert_eq!(lines, vec!["*.iso filter=lfs diff=lfs merge=lfs -text".to_string()]);
}
