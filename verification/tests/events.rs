use bgit::events::git_add::{AddMode, AddPlan, GitAdd};
use bgit::events::git_branch::{has_changes, is_main_branch, BranchOperation, GitBranch};
use bgit::events::git_clone::{repo_name, GitClone};
use bgit::events::git_commit::GitCommit;
use bgit::events::git_config::{ConfigOperation, ConfigScope, GitConfig};
use bgit::events::git_log::GitLog;
use bgit::events::git_pull::{
    check_pull_attempt, pull_auth_failure_message, pull_credential_plan, pull_key_paths, remote_ref_candidates, GitPull, PullAction,
    PullCredential,
};
use bgit::events::git_push::{lease_push_args, tracking_ref, upstream_remote, GitPush, PushCheck};
use bgit::events::git_restore::{GitRestore, RestoreMode};
use bgit::events::git_stash::GitStash;
use bgit::events::git_status::{
    get_unstaged_files_list, has_new_files, has_staged_files, has_unstaged_or_new_files, status_type,
    GitStatus, StatusMode,
};
use bgit::events::StatusFlags;
use bgit::global_config::BGitGlobalConfig;

fn flags() -> StatusFlags {
    StatusFlags {
        index_new: false,
        index_modified: false,
        index_deleted: false,
        index_renamed: false,
        index_typechange: false,
        wt_new: false,
        wt_modified: false,
        wt_deleted: false,
        wt_typechange: false,
        wt_renamed: false,
    }
}

#[test]
fn determine_remote_prefers_upstream() {
    let branch = "main";
    let gp = GitPush::new();
    let upstream = format!("refs/remotes/foo/{branch}");
    let remotes = vec![Some("foo".to_string()), Some("origin".to_string())];
    let chosen = gp.determine_remote_name(Some(upstream.as_str()), Some(&remotes)).unwrap();
    assert_eq!(chosen, "foo");
}

#[test]
fn expected_remote_oid_uses_remote_name() {
    let branch = "main";
    let head_id = "0123456789abcdef0123456789abcdef01234567".to_string();
    let gp = GitPush::new();
    assert_eq!(tracking_ref("foo", branch), format!("refs/remotes/foo/{branch}"));
    let oid = gp.expected_remote_oid(Some(head_id.clone())).unwrap();
    assert_eq!(oid, head_id);
}

#[test]
fn has_upstream_checks_presence() {
    let gp = GitPush::new();
    assert!(!gp.has_upstream("main", Ok(false)).unwrap());
    assert!(gp.has_upstream("main", Ok(true)).unwrap());
}

#[test]
fn push_remote_choice_without_upstream() {
    let gp = GitPush::new();
    let single = vec![Some("upstream".to_string())];
    assert_eq!(gp.determine_remote_name(None, Some(&single)).unwrap(), "upstream");
    let many = vec![Some("a".to_string()), Some("origin".to_string())];
    assert_eq!(gp.determine_remote_name(None, Some(&many)).unwrap(), "origin");
    let none = vec![Some("a".to_string()), Some("b".to_string())];
    let err = gp.determine_remote_name(Some("refs/heads/main"), Some(&none)).unwrap_err();
    assert!(err.starts_with("No suitable remote configured."));
    assert!(gp.determine_remote_name(None, None).is_err());
    assert_eq!(upstream_remote("refs/remotes/up/feature/x").as_deref(), Some("up"));
    assert_eq!(upstream_remote("refs/remotes/up"), None);
}

#[test]
fn push_refspec_and_upstream_flags() {
    let mut gp = GitPush::new();
    assert_eq!(gp.refspec("dev"), "refs/heads/dev");
    gp.with_upstream_flag(true).with_force_with_lease(true);
    assert!(gp.set_upstream && gp.force_with_lease);
    assert_eq!(gp.refspec("dev"), "refs/heads/dev:refs/heads/dev");
    assert!(gp.should_set_upstream(true));
    let plain = GitPush::new();
    assert!(plain.should_set_upstream(false));
    assert!(!plain.should_set_upstream(true));
    assert_eq!(plain.upstream_name("origin", "dev"), "origin/dev");
}

#[test]
fn push_lease_arguments() {
    let args = lease_push_args("origin", "dev", "abc", true);
    assert_eq!(
        args,
        vec!["push", "--force-with-lease=dev:abc", "--set-upstream", "origin", "refs/heads/dev:refs/heads/dev"]
    );
    let args = lease_push_args("origin", "dev", "abc", false);
    assert_eq!(args, vec!["push", "--force-with-lease=dev:abc", "origin", "refs/heads/dev:refs/heads/dev"]);
}

#[test]
fn push_transport_hints() {
    let gp = GitPush::new();
    assert_eq!(gp.transport_hint(Some("https://github.com/a/b")), "(HTTPS) - check token/credentials");
    assert_eq!(gp.transport_hint(Some("git@github.com:a/b")), "(SSH) - check keys/agent");
    assert_eq!(gp.transport_hint(Some("user@host:repo")), "(SSH) - check keys/agent");
    assert_eq!(gp.transport_hint(Some("/srv/repo")), "");
    assert_eq!(gp.transport_hint(None), "");
    let e = gp.push_failure_error(Some("ssh://h/r"), "denied");
    assert_eq!(
        e.message,
        "Failed to push to remote (SSH) - check keys/agent: denied. If authentication is required, ensure your credentials are set up."
    );
    assert_eq!(e.event, "git_push");
}

#[test]
fn push_safety_checks() {
    let gp = GitPush::new();
    assert_eq!(gp.push_check("a", "a", None).unwrap(), PushCheck::Safe);
    assert_eq!(gp.push_check("a", "b", None).unwrap(), PushCheck::NeedMergeBase);
    let e = gp.push_check("a", "b", Some("a")).unwrap_err();
    assert_eq!(e.message, "Local branch is behind remote. Pull changes first.");
    assert_eq!(gp.push_check("a", "b", Some("c")).unwrap(), PushCheck::Safe);
    assert!(gp.head_check(false).is_ok());
    assert!(gp.head_check(true).unwrap_err().message.starts_with("Cannot push from unborn branch"));
    let e = gp.expected_remote_oid(None).unwrap_err();
    assert_eq!(e.message, "Cannot perform force-with-lease: no remote tracking branch found");
    let e = gp.has_upstream("dev", Err("gone".to_string())).unwrap_err();
    assert_eq!(e.message, "Failed to find local branch dev: gone");
}

#[test]
fn pull_decisions() {
    let rebase = GitPull::new();
    assert!(rebase.rebase);
    assert_eq!(rebase.get_name(), "git_pull");
    assert_eq!(rebase.pull_action("a", "a", None).unwrap(), PullAction::UpToDate);
    assert_eq!(rebase.pull_action("a", "b", None).unwrap(), PullAction::NeedMergeBase);
    assert_eq!(rebase.pull_action("a", "b", Some("b")).unwrap(), PullAction::UpToDate);
    assert_eq!(rebase.pull_action("a", "b", Some("c")).unwrap(), PullAction::Rebase);
    let merge = GitPull::new().with_rebase(false);
    assert_eq!(merge.pull_action("a", "b", Some("a")).unwrap(), PullAction::FastForward);
    let e = merge.pull_action("a", "b", Some("c")).unwrap_err();
    assert_eq!(e.message, "Merge conflicts detected - manual resolution required");
    assert!(rebase.rebase_step(false).is_ok());
    assert!(rebase.rebase_step(true).unwrap_err().message.starts_with("Rebase conflicts detected."));
    let e = rebase.rebase_commit_error(3, "boom");
    assert_eq!(e.message, "Failed to commit during rebase operation 3: boom");
}

#[test]
fn pull_remote_reference_choice() {
    let pull = GitPull::new();
    assert_eq!(
        remote_ref_candidates("feat"),
        vec![
            "refs/remotes/origin/feat",
            "refs/remotes/origin/main",
            "refs/remotes/origin/master",
            "refs/remotes/origin/develop"
        ]
    );
    let none: Vec<String> = vec![];
    assert_eq!(pull.choose_remote_ref("feat", [false, true, true, false], &none).unwrap(), "refs/remotes/origin/main");
    assert_eq!(pull.choose_remote_ref("feat", [true, true, true, true], &none).unwrap(), "refs/remotes/origin/feat");
    let listed = vec!["origin/x".to_string()];
    let e = pull.choose_remote_ref("feat", [false; 4], &listed).unwrap_err();
    assert_eq!(
        e.message,
        "Failed to find remote reference: Remote branch 'origin/feat' not found. Available remote branches: [\"origin/x\"]; class=Reference (4); code=NotFound (-3)"
    );
}

#[test]
fn log_sole_contributor() {
    let log = GitLog::check_sole_contributor();
    assert_eq!(log.get_name(), "git_log");
    let me = ("Ann".to_string(), "ann@x.org".to_string());
    let other = ("Bob".to_string(), "bob@x.org".to_string());
    let ok = log
        .sole_contributor_result(Ok("Ann".to_string()), Ok("ann@x.org".to_string()), &vec![me.clone(), me.clone()])
        .unwrap();
    assert!(ok);
    let mixed = log
        .sole_contributor_result(Ok("Ann".to_string()), Ok("ann@x.org".to_string()), &vec![me.clone(), other])
        .unwrap();
    assert!(!mixed);
    let empty = log.sole_contributor_result(Ok("Ann".to_string()), Ok("ann@x.org".to_string()), &vec![]).unwrap();
    assert!(!empty);
    let e = log.sole_contributor_result(Err("missing".to_string()), Ok("x".to_string()), &vec![]).unwrap_err();
    assert_eq!(e.message, "Failed to get current user name: missing");
    let e = log.sole_contributor_result(Ok("x".to_string()), Err("nope".to_string()), &vec![]).unwrap_err();
    assert_eq!(e.message, "Failed to get current user email: nope");
}

#[test]
fn stash_pop_plan() {
    let s = GitStash::pop_stash(Some(2));
    assert_eq!(s.pop_plan(&vec![0, 1, 2]).unwrap(), 2);
    assert_eq!(s.pop_plan(&vec![0, 1]).unwrap_err().message, "Stash at index 2 does not exist");
    let latest = GitStash::pop_stash(None);
    assert_eq!(latest.target_index(), 0);
    assert_eq!(latest.get_action_description(), "Pop stash and apply changes");
    let none = GitStash::new();
    assert_eq!(none.pop_plan(&vec![0]).unwrap_err().message, "No stash operation defined");
    assert_eq!(none.get_action_description(), "No stash operation defined");
}

#[test]
fn status_lists_unstaged_files() {
    let mut modified = flags();
    modified.wt_modified = true;
    let mut new_file = flags();
    new_file.wt_new = true;
    new_file.wt_modified = true;
    let mut staged = flags();
    staged.index_new = true;
    let entries = vec![
        ("a.rs".to_string(), modified),
        ("b.rs".to_string(), staged),
        ("c.rs".to_string(), new_file),
    ];
    assert!(has_unstaged_or_new_files(&entries));
    assert!(has_staged_files(&entries));
    assert!(has_new_files(&entries));
    let list = get_unstaged_files_list(&entries);
    assert_eq!(list.len(), 2);
    assert_eq!(list[0].path, "a.rs");
    assert_eq!(list[0].status_type, "Modified");
    assert_eq!(list[1].path, "c.rs");
    assert_eq!(list[1].status_type, "New file");
    let clean = vec![("b.rs".to_string(), staged)];
    assert!(!has_unstaged_or_new_files(&clean));
    assert!(!GitStatus::new().execute_on(&clean));
    assert!(GitStatus::with_mode(StatusMode::ListFiles).execute_on(&entries));
    assert_eq!(GitStatus::new().get_unstaged_files(&clean).len(), 0);
    let mut renamed = flags();
    renamed.wt_renamed = true;
    assert_eq!(status_type(renamed), "Renamed");
    assert_eq!(status_type(flags()), "Unknown");
}

#[test]
fn restore_needs_a_mode() {
    let cfg = BGitGlobalConfig::default();
    let r = GitRestore::new(&cfg);
    assert_eq!(r.restore_plan().unwrap_err().message, "Restore mode not specified for git restore operation");
    let r = r.with_mode(RestoreMode::UnstageAll);
    assert_eq!(r.restore_plan().unwrap(), RestoreMode::UnstageAll);
    assert!(r.unstage_check(false).is_ok());
    assert!(r.unstage_check(true).is_err());
}

#[test]
fn add_plan_by_mode() {
    let cfg = BGitGlobalConfig::default();
    let add = GitAdd::new(&cfg);
    assert_eq!(add.plan().err().unwrap().message, "No add mode specified. Use 'with_add_mode' to set it.");
    let add = add.with_add_mode(AddMode::Selective(vec![]));
    assert_eq!(add.plan().err().unwrap().message, "No files selected for staging.");
    let add = GitAdd::new(&cfg).with_add_mode(AddMode::Selective(vec!["x".to_string()]));
    match add.plan() {
        Ok(AddPlan::AddFiles(v)) => assert_eq!(v, vec!["x".to_string()]),
        _ => panic!("expected files"),
    }
    let add = GitAdd::new(&cfg).with_add_mode(AddMode::All);
    assert!(matches!(add.plan(), Ok(AddPlan::AddAll)));
}

#[test]
fn commit_message_and_decision() {
    let cfg = BGitGlobalConfig::default();
    let c = GitCommit::new(&cfg);
    assert!(c.validated_message().is_err());
    let c = c.with_commit_message("   ".to_string());
    assert_eq!(c.validated_message().unwrap_err().message, "Commit message cannot be empty.");
    let c = GitCommit::new(&cfg).with_commit_message("fix: x".to_string());
    assert_eq!(c.validated_message().unwrap(), "fix: x");
    assert!(c.commit_decision(true, None, "t").is_err());
    assert!(!c.commit_decision(false, Some("t"), "t").unwrap());
    assert!(c.commit_decision(false, Some("u"), "t").unwrap());
    assert!(c.commit_decision(false, None, "t").unwrap());
}

#[test]
fn clone_target_directory() {
    let cfg = BGitGlobalConfig::default();
    let mut c = GitClone::new(&cfg);
    assert!(c.clone_target().is_err());
    c.set_url("https://github.com/owner/repo.git");
    assert_eq!(c.clone_target().unwrap(), "repo");
    assert_eq!(repo_name("git@github.com:owner/tool"), "tool");
}

#[test]
fn branch_helpers() {
    let cfg = BGitGlobalConfig::default();
    assert!(is_main_branch("main") && is_main_branch("master") && is_main_branch("dev"));
    assert!(!is_main_branch("feature"));
    let b = GitBranch::check_current_branch(&cfg);
    assert_eq!(b.operation().unwrap(), BranchOperation::CheckCurrentBranch);
    assert_eq!(b.unborn_branch_name("refs/heads/topic").unwrap(), "topic");
    assert!(b.unborn_branch_name("HEAD").is_err());
    let mut m = GitBranch::move_changes_to_branch(&cfg, "new".to_string());
    assert!(m.move_changes_preconditions(true, true).is_err());
    assert!(m.move_changes_preconditions(false, false).is_err());
    m.set_stash_message("wip".to_string());
    assert_eq!(m.move_changes_preconditions(false, true).unwrap(), ("new".to_string(), "wip".to_string()));
    let mut f = flags();
    assert!(!has_changes(&vec![f]));
    f.index_deleted = true;
    assert!(has_changes(&vec![f]));
}

#[test]
fn config_event_reads_values() {
    let ann = || Ok::<String, String>("Ann".to_string());
    let ev = GitConfig::new();
    assert_eq!(ev.get_scope(), ConfigScope::Local);
    assert!(ev.execute_on(ann()).is_err());
    let ev = ev.with_operation(ConfigOperation::Get);
    assert_eq!(ev.get_key(), None);
    assert_eq!(ev.get_value(ann()).err().unwrap().message, "Config key not provided for get operation");
    assert!(!ev.execute_on(ann()).unwrap());
    let ev = ev.with_key("user.name".to_string());
    assert_eq!(ev.get_key(), Some("user.name"));
    assert_eq!(ev.get_value(ann()).unwrap(), "Ann");
    assert!(ev.execute_on(ann()).unwrap());
    let unread = Err::<String, String>("config value 'user.email' was not found; class=Config (7); code=NotFound (-3)".to_string());
    let missing = GitConfig::new().with_key("user.email".to_string());
    assert_eq!(
        missing.get_value(unread).err().unwrap().message,
        "Configuration key 'user.email' not found: config value 'user.email' was not found; class=Config (7); code=NotFound (-3)"
    );
}

fn describe(plan: &[PullCredential]) -> Vec<String> {
    plan.iter()
        .map(|c| match c {
            PullCredential::Agent(u) => format!("agent {u}"),
            PullCredential::KeyPair(u, k, p) => format!("pair {u} {k} {p}"),
            PullCredential::PrivateKey(u, k) => format!("key {u} {k}"),
            PullCredential::UserPass(u, p) => format!("userpass {u} {p}"),
            PullCredential::Default => "default".to_string(),
        })
        .collect()
}

#[test]
fn pull_key_paths_are_under_dot_ssh() {
    let paths = pull_key_paths("/home/u");
    assert_eq!(
        paths,
        vec![
            ("/home/u/.ssh/id_ed25519".to_string(), "/home/u/.ssh/id_ed25519.pub".to_string()),
            ("/home/u/.ssh/id_rsa".to_string(), "/home/u/.ssh/id_rsa.pub".to_string()),
            ("/home/u/.ssh/id_ecdsa".to_string(), "/home/u/.ssh/id_ecdsa.pub".to_string()),
            ("/home/u/.ssh/id_dsa".to_string(), "/home/u/.ssh/id_dsa.pub".to_string()),
        ]
    );
}

#[test]
fn pull_plan_tries_agent_then_existing_keys_then_default() {
    let keys = vec![
        ("/h/.ssh/id_ed25519".to_string(), true, "/h/.ssh/id_ed25519.pub".to_string(), true),
        ("/h/.ssh/id_rsa".to_string(), false, "/h/.ssh/id_rsa.pub".to_string(), true),
        ("/h/.ssh/id_ecdsa".to_string(), true, "/h/.ssh/id_ecdsa.pub".to_string(), false),
        ("/h/.ssh/id_dsa".to_string(), false, "/h/.ssh/id_dsa.pub".to_string(), false),
    ];
    let plan = pull_credential_plan(0, true, false, true, Some("git"), "git@github.com:o/r.git", &keys, None, None, None)
        .unwrap();
    assert_eq!(
        describe(&plan),
        vec![
            "agent git",
            "pair git /h/.ssh/id_ed25519 /h/.ssh/id_ed25519.pub",
            "key git /h/.ssh/id_ed25519",
            "key git /h/.ssh/id_ecdsa",
            "default",
        ]
    );
}

#[test]
fn pull_plan_without_username_skips_ssh() {
    let plan = pull_credential_plan(1, true, false, false, None, "ssh://example.com/r", &Vec::new(), None, None, None)
        .unwrap();
    assert!(plan.is_empty());
}

#[test]
fn pull_plan_userpass_prefers_environment_then_github_token() {
    let plan = pull_credential_plan(
        2, false, true, false, None, "https://github.com/o/r", &Vec::new(), Some("me"), Some("pw"), Some("tok"),
    )
    .unwrap();
    assert_eq!(describe(&plan), vec!["userpass me pw"]);
    let plan = pull_credential_plan(
        2, false, true, false, None, "https://github.com/o/r", &Vec::new(), Some("me"), None, Some("tok"),
    )
    .unwrap();
    assert_eq!(describe(&plan), vec!["userpass git tok"]);
    let plan = pull_credential_plan(
        3, false, true, false, None, "https://gitlab.com/o/r", &Vec::new(), None, None, Some("tok"),
    )
    .unwrap();
    assert!(plan.is_empty());
}

#[test]
fn pull_plan_refuses_after_four_requests() {
    let r = pull_credential_plan(4, true, true, true, Some("git"), "u", &Vec::new(), None, None, None);
    assert_eq!(r.err(), Some("Maximum authentication attempts exceeded"));
}

#[test]
fn pull_auth_failure_counts_requests() {
    assert_eq!(
        pull_auth_failure_message(2, "https://h/r", "CredentialType(SSH_KEY)"),
        "Authentication failed after 3 attempts for https://h/r. Available methods: CredentialType(SSH_KEY)"
    );
}

#[test]
fn pull_attempt_limit_is_checked_first() {
    assert_eq!(check_pull_attempt(0), Ok(()));
    assert_eq!(check_pull_attempt(3), Ok(()));
    assert_eq!(check_pull_attempt(4), Err("Maximum authentication attempts exceeded"));
}
