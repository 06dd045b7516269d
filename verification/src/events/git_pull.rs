//! Bringing in the changes of the remote branch, by rebase or merge.
use vstd::prelude::*;
use vstd::string::*;

use crate::error::BGitError;
use crate::events::{event_error, event_error_view};
use crate::global_config::{join_path, path_join};
use crate::text::{contains_seq, debug_list, debug_string_list, decimal, decimal_exec, str_contains, str_eq, views};

use crate::rules::{PreCheckRules, Rule};

verus! {

/// What pulling does once the remote branch is fetched.
#[derive(Debug, Clone, Copy, PartialEq, Eq, Structural)]
pub enum PullAction {
    /// Nothing: the branch already holds the remote commit.
    UpToDate,
    /// The merge base of the two commits is needed to decide.
    NeedMergeBase,
    /// Move the branch to the remote commit.
    FastForward,
    /// Replay the local commits onto the remote commit.
    Rebase,
}

pub struct GitPull {
    pub rebase: bool,
    pub pre_check_rules: PreCheckRules,
}

/// The tracking reference of `branch` on `origin`.
pub open spec fn origin_ref(branch: Seq<char>) -> Seq<char> {
    "refs/remotes/origin/"@ + branch
}

/// The references tried, in order, for the remote side of `branch`.
pub open spec fn remote_ref_candidates_spec(branch: Seq<char>) -> Seq<Seq<char>> {
    seq![origin_ref(branch), "refs/remotes/origin/main"@, "refs/remotes/origin/master"@, "refs/remotes/origin/develop"@]
}

/// The text of the error when no candidate reference exists.
pub open spec fn missing_remote_ref_message(branch: Seq<char>, remote_branches: Seq<Seq<char>>) -> Seq<char> {
    "Failed to find remote reference: Remote branch 'origin/"@ + branch
        + "' not found. Available remote branches: "@ + debug_list(remote_branches)
        + "; class=Reference (4); code=NotFound (-3)"@
}

/// The decision of a pull, given the local and remote commits and, once
/// known, their merge base.
pub open spec fn pull_action_spec(rebase: bool, head: Seq<char>, remote: Seq<char>, merge_base: Option<Seq<char>>) -> Result<PullAction, Seq<char>> {
    if head == remote {
        Ok(PullAction::UpToDate)
    } else {
        match merge_base {
            None => Ok(PullAction::NeedMergeBase),
            Some(b) => if b == remote {
                Ok(PullAction::UpToDate)
            } else if rebase {
                Ok(PullAction::Rebase)
            } else if b == head {
                Ok(PullAction::FastForward)
            } else {
                Err("Merge conflicts detected - manual resolution required"@)
            },
        }
    }
}

pub open spec fn opt_str_view(o: Option<&str>) -> Option<Seq<char>> {
    match o {
        Some(s) => Some(s@),
        None => None,
    }
}

/// The references tried for the remote side of `branch`.
pub fn remote_ref_candidates(branch: &str) -> (r: Vec<String>)
    ensures
        views(r@) == remote_ref_candidates_spec(branch@),
{
    let mut exact = String::from_str("refs/remotes/origin/");
    exact.append(branch);
    let mut r: Vec<String> = Vec::new();
    r.push(exact);
    r.push(String::from_str("refs/remotes/origin/main"));
    r.push(String::from_str("refs/remotes/origin/master"));
    r.push(String::from_str("refs/remotes/origin/develop"));
    assert(views(r@) =~= remote_ref_candidates_spec(branch@));
    r
}

impl GitPull {
    /// The rules checked before the event runs, in the order they were
    /// added.
    pub open spec fn pre_check_rules_view(&self) -> Seq<Box<dyn Rule>> {
        self.pre_check_rules@
    }

    /// Adds `rule` after the rules already checked before the event runs;
    /// the event is otherwise unchanged.
    pub fn add_pre_check_rule(&mut self, rule: Box<dyn Rule>)
        ensures
            final(self).pre_check_rules_view() == old(self).pre_check_rules_view().push(rule),
            final(self).rebase == old(self).rebase,
    {
        self.pre_check_rules.push(rule);
    }

    /// The rules checked before the event runs, in the order they were
    /// added.
    pub fn get_pre_check_rule(&self) -> (r: &PreCheckRules)
        ensures
            r@ == self.pre_check_rules_view(),
    {
        &self.pre_check_rules
    }

    /// The event `git_pull`, rebasing by default.
    pub fn new() -> (r: Self)
        ensures
            r.pre_check_rules_view().len() == 0,
            r.rebase,
    {
        GitPull { rebase: true, pre_check_rules: Vec::new() }
    }

    pub fn get_name(&self) -> (r: &'static str)
        ensures
            r@ == "git_pull"@,
    {
        "git_pull"
    }

    pub fn get_action_description(&self) -> (r: &'static str)
        ensures
            r@ == "Pull changes from remote repository"@,
    {
        "Pull changes from remote repository"
    }

    /// The same event, rebasing when `rebase` holds and merging otherwise.
    pub fn with_rebase(self, rebase: bool) -> (r: Self)
        ensures
            r.pre_check_rules_view() == self.pre_check_rules_view(),
            r.rebase == rebase,
    {
        GitPull { rebase, ..self }
    }

    /// The remote reference to pull from: the first candidate that exists
    /// (`found[i]` tells whether candidate `i` does), else an error naming
    /// the remote branches there are.
    pub fn choose_remote_ref(&self, branch: &str, found: [bool; 4], remote_branches: &Vec<String>) -> (r: Result<String, BGitError>)
        ensures
            (exists|i: int| 0 <= i < 4 && found@[i]) ==> (r matches Ok(s) && exists|i: int| 0 <= i < 4 && found@[i]
                && s@ == remote_ref_candidates_spec(branch@)[i] && forall|j: int| 0 <= j < i ==> !found@[j]),
            !(exists|i: int| 0 <= i < 4 && found@[i]) ==> (r matches Err(e) && e@ == event_error_view(
                "git_pull"@,
                missing_remote_ref_message(branch@, views(remote_branches@)),
            )),
    {
        let candidates = remote_ref_candidates(branch);
        assert(candidates@.len() == views(candidates@).len());
        let mut i: usize = 0;
        while i < 4
            invariant
                i <= 4,
                candidates@.len() == 4,
                views(candidates@) == remote_ref_candidates_spec(branch@),
                forall|j: int| 0 <= j < i ==> !found@[j],
            decreases 4 - i,
        {
            if found[i] {
                let s = candidates[i].clone();
                assert(views(candidates@)[i as int] == candidates@[i as int]@);
                return Ok(s);
            }
            i = i + 1;
        }
        let mut msg = String::from_str("Failed to find remote reference: Remote branch 'origin/");
        msg.append(branch);
        msg.append("' not found. Available remote branches: ");
        let listed = debug_string_list(remote_branches);
        msg.append(listed.as_str());
        msg.append("; class=Reference (4); code=NotFound (-3)");
        Err(event_error("git_pull", msg.as_str()))
    }

    /// What pulling does, from the local commit `head`, the remote commit
    /// `remote` and, once asked for, their merge base.
    pub fn pull_action(&self, head: &str, remote: &str, merge_base: Option<&str>) -> (r: Result<PullAction, BGitError>)
        ensures
            match pull_action_spec(self.rebase, head@, remote@, opt_str_view(merge_base)) {
                Ok(a) => r == Ok::<PullAction, BGitError>(a),
                Err(m) => (r matches Err(e) && e@ == event_error_view("git_pull"@, m)),
            },
    {
        if str_eq(head, remote) {
            return Ok(PullAction::UpToDate);
        }
        match merge_base {
            None => Ok(PullAction::NeedMergeBase),
            Some(b) => {
                if str_eq(b, remote) {
                    Ok(PullAction::UpToDate)
                } else if self.rebase {
                    Ok(PullAction::Rebase)
                } else if str_eq(b, head) {
                    Ok(PullAction::FastForward)
                } else {
                    Err(event_error("git_pull", "Merge conflicts detected - manual resolution required"))
                }
            },
        }
    }

    /// Whether a rebase may go on after an operation was applied: an error
    /// (the rebase is then aborted) when the index has conflicts.
    pub fn rebase_step(&self, has_conflicts: bool) -> (r: Result<(), BGitError>)
        ensures
            !has_conflicts ==> r is Ok,
            has_conflicts ==> (r matches Err(e) && e@ == event_error_view(
                "git_pull"@,
                "Rebase conflicts detected. The rebase has been aborted to prevent data loss. Please resolve conflicts manually and retry."@,
            )),
    {
        if has_conflicts {
            Err(
                event_error(
                    "git_pull",
                    "Rebase conflicts detected. The rebase has been aborted to prevent data loss. Please resolve conflicts manually and retry.",
                ),
            )
        } else {
            Ok(())
        }
    }

    /// The error when committing the `operation`-th rebased change fails
    /// with `detail`.
    pub fn rebase_commit_error(&self, operation: usize, detail: &str) -> (e: BGitError)
        ensures
            e@ == event_error_view(
                "git_pull"@,
                "Failed to commit during rebase operation "@ + decimal(operation as nat) + ": "@ + detail@,
            ),
    {
        let mut msg = String::from_str("Failed to commit during rebase operation ");
        let n = decimal_exec(operation as u64);
        msg.append(n.as_str());
        msg.append(": ");
        msg.append(detail);
        event_error("git_pull", msg.as_str())
    }
}

/// A branch that already holds the remote commit is left alone, whether
/// pulling rebases or merges and whatever the merge base.
pub proof fn law_pull_noop_when_equal(rebase: bool, head: Seq<char>, merge_base: Option<Seq<char>>)
    ensures
        pull_action_spec(rebase, head, head, merge_base) == Ok::<PullAction, Seq<char>>(PullAction::UpToDate),
{
}

/// A merge reports a conflict only when the histories have diverged: the
/// merge base is neither the local nor the remote commit.
pub proof fn law_merge_conflict_only_when_diverged(head: Seq<char>, remote: Seq<char>, merge_base: Option<Seq<char>>)
    ensures
        pull_action_spec(false, head, remote, merge_base) is Err ==> (merge_base matches Some(b) && b != head && b != remote && head != remote),
        pull_action_spec(true, head, remote, merge_base) is Ok,
{
}

/// The key pairs a pull tries, in order: private and public key file names.
pub open spec fn pull_key_pairs() -> Seq<(Seq<char>, Seq<char>)> {
    seq![
        ("id_ed25519"@, "id_ed25519.pub"@),
        ("id_rsa"@, "id_rsa.pub"@),
        ("id_ecdsa"@, "id_ecdsa.pub"@),
        ("id_dsa"@, "id_dsa.pub"@),
    ]
}

/// The key pairs under `<home>/.ssh`.
pub open spec fn pull_key_paths_spec(home: Seq<char>) -> Seq<(Seq<char>, Seq<char>)> {
    pull_key_pairs().map_values(
        |p: (Seq<char>, Seq<char>)| (path_join(path_join(home, ".ssh"@), p.0), path_join(path_join(home, ".ssh"@), p.1)),
    )
}

/// The paths of the key pairs a pull tries, under `<home>/.ssh`.
pub fn pull_key_paths(home: &str) -> (r: Vec<(String, String)>)
    ensures
        r@.map_values(|p: (String, String)| (p.0@, p.1@)) == pull_key_paths_spec(home@),
{
    let dir = join_path(home, ".ssh");
    let names: Vec<(&str, &str)> = vec![
        ("id_ed25519", "id_ed25519.pub"),
        ("id_rsa", "id_rsa.pub"),
        ("id_ecdsa", "id_ecdsa.pub"),
        ("id_dsa", "id_dsa.pub"),
    ];
    assert(names@.map_values(|p: (&str, &str)| (p.0@, p.1@)) =~= pull_key_pairs());
    let ghost target = pull_key_paths_spec(home@);
    let mut r: Vec<(String, String)> = Vec::new();
    let mut i: usize = 0;
    while i < names.len()
        invariant
            i <= names@.len(),
            names@.len() == 4,
            dir@ == path_join(home@, ".ssh"@),
            names@.map_values(|p: (&str, &str)| (p.0@, p.1@)) == pull_key_pairs(),
            target == pull_key_paths_spec(home@),
            r@.map_values(|p: (String, String)| (p.0@, p.1@)) == target.subrange(0, i as int),
        decreases names.len() - i,
    {
        let ghost prev = r@.map_values(|p: (String, String)| (p.0@, p.1@));
        let (a, b) = names[i];
        assert(pull_key_pairs()[i as int] == (a@, b@));
        let private = join_path(dir.as_str(), a);
        let public = join_path(dir.as_str(), b);
        r.push((private, public));
        assert(r@.map_values(|p: (String, String)| (p.0@, p.1@)) =~= prev.push(target[i as int]));
        assert(target.subrange(0, i + 1) =~= target.subrange(0, i as int).push(target[i as int]));
        i = i + 1;
    }
    assert(target.subrange(0, 4) =~= target);
    r
}

/// A way to answer a credential request of a pull, tried in order.
#[derive(Debug, Clone)]
pub enum PullCredential {
    /// The SSH agent, for this user.
    Agent(String),
    /// A key pair: the user, the private key file and the public key file.
    KeyPair(String, String, String),
    /// A private key alone: the user and the private key file.
    PrivateKey(String, String),
    /// A username and a password or token; its outcome is the answer, taken
    /// or failed.
    UserPass(String, String),
    /// libgit2's default credential.
    Default,
}

pub enum PullCredentialView {
    Agent(Seq<char>),
    KeyPair(Seq<char>, Seq<char>, Seq<char>),
    PrivateKey(Seq<char>, Seq<char>),
    UserPass(Seq<char>, Seq<char>),
    Default,
}

impl View for PullCredential {
    type V = PullCredentialView;

    open spec fn view(&self) -> PullCredentialView {
        match self {
            PullCredential::Agent(u) => PullCredentialView::Agent(u@),
            PullCredential::KeyPair(u, k, p) => PullCredentialView::KeyPair(u@, k@, p@),
            PullCredential::PrivateKey(u, k) => PullCredentialView::PrivateKey(u@, k@),
            PullCredential::UserPass(u, p) => PullCredentialView::UserPass(u@, p@),
            PullCredential::Default => PullCredentialView::Default,
        }
    }
}

/// What is known of a key pair on disk: the private key file, whether it
/// exists, the public key file, whether it exists.
pub open spec fn probe_view(k: (String, bool, String, bool)) -> (Seq<char>, bool, Seq<char>, bool) {
    (k.0@, k.1, k.2@, k.3)
}

/// The key attempts for `user`: for each private key that exists, the pair
/// first when its public key exists too, then the private key alone.
pub open spec fn key_attempts(user: Seq<char>, keys: Seq<(Seq<char>, bool, Seq<char>, bool)>) -> Seq<PullCredentialView>
    decreases keys.len(),
{
    if keys.len() == 0 {
        Seq::empty()
    } else {
        let rest = key_attempts(user, keys.drop_last());
        let k = keys.last();
        if !k.1 {
            rest
        } else if k.3 {
            rest.push(PullCredentialView::KeyPair(user, k.0, k.2)).push(PullCredentialView::PrivateKey(user, k.0))
        } else {
            rest.push(PullCredentialView::PrivateKey(user, k.0))
        }
    }
}

/// The answers a pull tries for one credential request, in order: with SSH
/// keys allowed and a user named, the agent and then the key files; with a
/// username and password allowed, `GIT_USERNAME`/`GIT_PASSWORD`, else for a
/// GitHub URL `GITHUB_TOKEN` as the password of `git`; with the default
/// allowed, the default credential.
pub open spec fn pull_plan_spec(
    ssh_allowed: bool,
    userpass_allowed: bool,
    default_allowed: bool,
    username: Option<Seq<char>>,
    url: Seq<char>,
    keys: Seq<(Seq<char>, bool, Seq<char>, bool)>,
    git_user: Option<Seq<char>>,
    git_password: Option<Seq<char>>,
    github_token: Option<Seq<char>>,
) -> Seq<PullCredentialView> {
    let ssh = if ssh_allowed {
        match username {
            Some(u) => seq![PullCredentialView::Agent(u)] + key_attempts(u, keys),
            None => Seq::empty(),
        }
    } else {
        Seq::empty()
    };
    let userpass = if userpass_allowed {
        match (git_user, git_password) {
            (Some(u), Some(p)) => seq![PullCredentialView::UserPass(u, p)],
            _ => match github_token {
                Some(t) => if contains_seq(url, "github.com"@) {
                    seq![PullCredentialView::UserPass("git"@, t)]
                } else {
                    Seq::empty()
                },
                None => Seq::empty(),
            },
        }
    } else {
        Seq::empty()
    };
    let default = if default_allowed {
        seq![PullCredentialView::Default]
    } else {
        Seq::empty()
    };
    ssh + userpass + default
}

/// The last credential request a pull answers: requests are counted from 0.
pub const MAX_PULL_AUTH_ATTEMPT: usize = 3;

/// Whether the `attempt`-th credential request of a pull (counted from 0)
/// may still be answered; past the last one allowed, the error to answer
/// with. This is checked before anything is looked up for the request.
pub fn check_pull_attempt(attempt: usize) -> (r: Result<(), &'static str>)
    ensures
        attempt <= MAX_PULL_AUTH_ATTEMPT ==> r is Ok,
        attempt > MAX_PULL_AUTH_ATTEMPT ==> (r matches Err(m) && m@ == "Maximum authentication attempts exceeded"@),
{
    if attempt > MAX_PULL_AUTH_ATTEMPT {
        Err("Maximum authentication attempts exceeded")
    } else {
        Ok(())
    }
}

/// The answers to try for the `attempt`-th credential request of a pull
/// (counted from 0), from what the request allows, the user the URL names,
/// the key pairs found and the environment's `GIT_USERNAME`,
/// `GIT_PASSWORD` and `GITHUB_TOKEN`; past the last request allowed, the
/// error to answer with.
pub fn pull_credential_plan(
    attempt: usize,
    ssh_allowed: bool,
    userpass_allowed: bool,
    default_allowed: bool,
    username: Option<&str>,
    url: &str,
    keys: &Vec<(String, bool, String, bool)>,
    git_user: Option<&str>,
    git_password: Option<&str>,
    github_token: Option<&str>,
) -> (r: Result<Vec<PullCredential>, &'static str>)
    ensures
        attempt > MAX_PULL_AUTH_ATTEMPT ==> (r matches Err(m) && m@ == "Maximum authentication attempts exceeded"@),
        attempt <= MAX_PULL_AUTH_ATTEMPT ==> (r matches Ok(v) && v@.map_values(|c: PullCredential| c@) == pull_plan_spec(
            ssh_allowed,
            userpass_allowed,
            default_allowed,
            opt_str_view(username),
            url@,
            keys@.map_values(|k: (String, bool, String, bool)| probe_view(k)),
            opt_str_view(git_user),
            opt_str_view(git_password),
            opt_str_view(github_token),
        )),
{
    if attempt > MAX_PULL_AUTH_ATTEMPT {
        return Err("Maximum authentication attempts exceeded");
    }
    let ghost kv = keys@.map_values(|k: (String, bool, String, bool)| probe_view(k));
    let mut plan: Vec<PullCredential> = Vec::new();
    if ssh_allowed {
        match username {
            Some(u) => {
                plan.push(PullCredential::Agent(String::from_str(u)));
                let ghost base = plan@.map_values(|c: PullCredential| c@);
                assert(base =~= seq![PullCredentialView::Agent(u@)]);
                let mut i: usize = 0;
                assert(kv.subrange(0, 0) =~= Seq::<(Seq<char>, bool, Seq<char>, bool)>::empty());
                while i < keys.len()
                    invariant
                        i <= keys@.len(),
                        kv == keys@.map_values(|k: (String, bool, String, bool)| probe_view(k)),
                        plan@.map_values(|c: PullCredential| c@) == base + key_attempts(u@, kv.subrange(0, i as int)),
                    decreases keys.len() - i,
                {
                    let ghost prev = plan@.map_values(|c: PullCredential| c@);
                    let ghost pre = kv.subrange(0, i as int);
                    assert(kv.subrange(0, i + 1).drop_last() =~= pre);
                    assert(kv.subrange(0, i + 1).last() == probe_view(keys@[i as int]));
                    let k = &keys[i];
                    if k.1 {
                        if k.3 {
                            plan.push(PullCredential::KeyPair(String::from_str(u), k.0.clone(), k.2.clone()));
                            plan.push(PullCredential::PrivateKey(String::from_str(u), k.0.clone()));
                            assert(plan@.map_values(|c: PullCredential| c@) =~= prev.push(
                                PullCredentialView::KeyPair(u@, k.0@, k.2@),
                            ).push(PullCredentialView::PrivateKey(u@, k.0@)));
                        } else {
                            plan.push(PullCredential::PrivateKey(String::from_str(u), k.0.clone()));
                            assert(plan@.map_values(|c: PullCredential| c@) =~= prev.push(
                                PullCredentialView::PrivateKey(u@, k.0@),
                            ));
                        }
                    }
                    i = i + 1;
                }
                assert(kv.subrange(0, keys@.len() as int) =~= kv);
            },
            None => {},
        }
    }
    let ghost after_ssh = plan@.map_values(|c: PullCredential| c@);
    if userpass_allowed {
        match (git_user, git_password) {
            (Some(u), Some(p)) => {
                plan.push(PullCredential::UserPass(String::from_str(u), String::from_str(p)));
            },
            _ => match github_token {
                Some(t) => {
                    if str_contains(url, "github.com") {
                        plan.push(PullCredential::UserPass(String::from_str("git"), String::from_str(t)));
                    }
                },
                None => {},
            },
        }
    }
    let ghost after_userpass = plan@.map_values(|c: PullCredential| c@);
    if default_allowed {
        plan.push(PullCredential::Default);
    }
    proof {
        reveal_strlit("git");
        let spec = pull_plan_spec(
            ssh_allowed,
            userpass_allowed,
            default_allowed,
            opt_str_view(username),
            url@,
            kv,
            opt_str_view(git_user),
            opt_str_view(git_password),
            opt_str_view(github_token),
        );
        assert(plan@.map_values(|c: PullCredential| c@) =~= spec);
    }
    Ok(plan)
}

/// The error of a pull whose credential requests all failed: the number of
/// requests made, the URL, and the request's allowed methods as shown.
pub fn pull_auth_failure_message(attempt: usize, url: &str, methods: &str) -> (r: String)
    requires
        attempt < usize::MAX,
    ensures
        r@ == "Authentication failed after "@ + decimal((attempt + 1) as nat) + " attempts for "@ + url@
            + ". Available methods: "@ + methods@,
{
    let mut r = String::from_str("Authentication failed after ");
    let n = decimal_exec((attempt + 1) as u64);
    r.append(n.as_str());
    r.append(" attempts for ");
    r.append(url);
    r.append(". Available methods: ");
    r.append(methods);
    r
}

} // verus!
