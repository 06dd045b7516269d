//! The decisions of authenticating Git operations: which credentials to
//! try, when to give up, which SSH keys to offer, and when to offer saving
//! a choice to the global configuration.
use vstd::prelude::*;
use vstd::string::*;

use crate::global_config::{opt_view, path_join, BGitGlobalConfig, PreferredAuth};
use crate::paths::{extension_of_name, file_name, path_extension, path_file_name, paths_equal, same_path};
use crate::text::{decimal, decimal_exec, str_eq, views};

verus! {

/// The most credential requests answered in one operation.
pub const MAX_AUTH_ATTEMPTS: usize = 3;

/// The private key files looked for in the SSH directory, in order.
pub open spec fn key_file_names() -> Seq<Seq<char>> {
    seq!["id_ed25519"@, "id_rsa"@, "id_ecdsa"@, "id_dsa"@]
}

/// The private key files looked for in the SSH directory, in order.
pub fn key_files() -> (r: Vec<&'static str>)
    ensures
        r@.map_values(|s: &str| s@) == key_file_names(),
{
    let r: Vec<&'static str> = vec!["id_ed25519", "id_rsa", "id_ecdsa", "id_dsa"];
    assert(r@.map_values(|s: &str| s@) =~= key_file_names());
    r
}

/// How a credential request is answered.
#[derive(Debug, Clone, Copy, PartialEq, Eq, Structural)]
pub enum CredentialRoute {
    /// Username and token (HTTPS).
    UserPass,
    /// SSH keys.
    Ssh,
}

/// Which credentials answer a request: username and token whenever the
/// remote accepts them, else SSH.
pub fn credential_route(userpass_allowed: bool) -> (r: CredentialRoute)
    ensures
        userpass_allowed ==> r == CredentialRoute::UserPass,
        !userpass_allowed ==> r == CredentialRoute::Ssh,
{
    if userpass_allowed {
        CredentialRoute::UserPass
    } else {
        CredentialRoute::Ssh
    }
}

/// Whether the `attempt`-th request may still be answered: an error after
/// [`MAX_AUTH_ATTEMPTS`], so that a rejecting remote cannot loop forever.
pub fn check_auth_attempt(attempt: usize) -> (r: Result<(), String>)
    ensures
        attempt <= MAX_AUTH_ATTEMPTS ==> r is Ok,
        attempt > MAX_AUTH_ATTEMPTS ==> (r matches Err(m) && m@ == "Too many authentication attempts"@),
{
    if attempt > MAX_AUTH_ATTEMPTS {
        Err(String::from_str("Too many authentication attempts"))
    } else {
        Ok(())
    }
}

/// The error when every method failed at the `attempt`-th request.
pub fn auth_failed_message(attempt: usize) -> (r: String)
    ensures
        r@ == "Authentication failed - attempt "@ + decimal(attempt as nat),
{
    let mut m = String::from_str("Authentication failed - attempt ");
    let n = decimal_exec(attempt as u64);
    m.append(n.as_str());
    m
}

/// Whether the SSH agent should be given the keys of `~/.ssh`: it has none,
/// and the attempt is within the limit.
pub fn should_add_keys(identity_count: usize, attempt: usize) -> (r: bool)
    ensures
        r == (identity_count == 0 && attempt <= MAX_AUTH_ATTEMPTS),
{
    identity_count == 0 && attempt <= MAX_AUTH_ATTEMPTS
}

/// Username and token typed by the user: accepted when neither is empty.
pub fn check_userpass(username: &str, token: &str) -> (r: Result<(), String>)
    ensures
        (username@.len() > 0 && token@.len() > 0) ==> r is Ok,
        !(username@.len() > 0 && token@.len() > 0) ==> (r matches Err(m) && m@ == "Username or token cannot be empty"@),
{
    if !username.is_empty() && !token.is_empty() {
        Ok(())
    } else {
        Err(String::from_str("Username or token cannot be empty"))
    }
}

/// How a preferred method is named to the user.
pub open spec fn auth_label(method: PreferredAuth) -> Seq<char> {
    match method {
        PreferredAuth::Ssh => "SSH"@,
        PreferredAuth::Https => "HTTPS"@,
        PreferredAuth::RepositoryURLBased => "Repository URL based"@,
    }
}

/// How a preferred method is named to the user.
pub fn preferred_auth_label(method: PreferredAuth) -> (r: &'static str)
    ensures
        r@ == auth_label(method),
{
    match method {
        PreferredAuth::Ssh => "SSH",
        PreferredAuth::Https => "HTTPS",
        PreferredAuth::RepositoryURLBased => "Repository URL based",
    }
}

/// The question that offers to save `method` as the preferred one; none
/// when it is the preferred one already.
pub fn persist_preferred_auth_question(cfg: &BGitGlobalConfig, method: PreferredAuth) -> (r: Option<String>)
    ensures
        cfg.auth.preferred == method ==> r is None,
        cfg.auth.preferred != method ==> (r matches Some(q) && q@ == "Set preferred auth to "@ + auth_label(method) + " for future operations?"@),
{
    if cfg.auth.preferred == method {
        return None;
    }
    let mut q = String::from_str("Set preferred auth to ");
    q.append(preferred_auth_label(method));
    q.append(" for future operations?");
    Some(q)
}

/// Whether the configuration already holds these HTTPS credentials (then
/// saving them is not offered).
pub fn https_credentials_saved(cfg: &BGitGlobalConfig, username: &str, token: &str) -> (r: bool)
    ensures
        r == ((cfg.auth.https.username matches Some(u) && u@ == username@) && (cfg.auth.https.pat matches Some(t) && t@ == token@)),
{
    let same_user = match &cfg.auth.https.username {
        Some(u) => str_eq(u.as_str(), username),
        None => false,
    };
    let same_token = match &cfg.auth.https.pat {
        Some(t) => str_eq(t.as_str(), token),
        None => false,
    };
    same_user && same_token
}

/// The keys to try adding to the agent, in order: the configured key file
/// (when there is one), then each usual key file in `ssh_dir`, each path
/// once: a file is left out when a path already listed is the same path.
pub open spec fn key_candidates_spec(configured: Option<Seq<char>>, ssh_dir: Seq<char>) -> Seq<Seq<char>> {
    let start = match configured {
        Some(c) => seq![c],
        None => Seq::empty(),
    };
    dedup_into(start, key_file_names().map_values(|n: Seq<char>| path_join(ssh_dir, n)))
}

/// Whether `acc` lists a path that is the same path as `p`.
pub open spec fn has_same_path(acc: Seq<Seq<char>>, p: Seq<char>) -> bool {
    exists|i: int| 0 <= i < acc.len() && #[trigger] paths_equal(acc[i], p)
}

/// `acc` followed by the items of `items` that are not the same path as
/// one already there, in order.
pub open spec fn dedup_into(acc: Seq<Seq<char>>, items: Seq<Seq<char>>) -> Seq<Seq<char>>
    decreases items.len(),
{
    if items.len() == 0 {
        acc
    } else if has_same_path(acc, items[0]) {
        dedup_into(acc, items.drop_first())
    } else {
        dedup_into(acc.push(items[0]), items.drop_first())
    }
}

/// The keys to try adding to the agent.
pub fn ssh_key_candidates(configured: Option<&str>, ssh_dir: &str) -> (r: Vec<String>)
    ensures
        views(r@) == key_candidates_spec(match configured {
            Some(c) => Some(c@),
            None => None,
        }, ssh_dir@),
{
    let names = key_files();
    let ghost items = key_file_names().map_values(|n: Seq<char>| path_join(ssh_dir@, n));
    let mut r: Vec<String> = Vec::new();
    match configured {
        Some(c) => {
            r.push(String::from_str(c));
        },
        None => {},
    }
    let ghost start = views(r@);
    assert(start =~= match configured {
        Some(c) => seq![c@],
        None => Seq::<Seq<char>>::empty(),
    });
    let mut i: usize = 0;
    assert(items.subrange(0, items.len() as int) =~= items);
    while i < names.len()
        invariant
            i <= names@.len(),
            names@.map_values(|s: &str| s@) == key_file_names(),
            items == key_file_names().map_values(|n: Seq<char>| path_join(ssh_dir@, n)),
            dedup_into(start, items) == dedup_into(views(r@), items.subrange(i as int, items.len() as int)),
        decreases names.len() - i,
    {
        let ghost rest = items.subrange(i as int, items.len() as int);
        assert(rest.drop_first() =~= items.subrange(i + 1, items.len() as int));
        let p = crate::global_config::join_path(ssh_dir, names[i]);
        assert(p@ == rest[0]);
        let mut present = false;
        let mut j: usize = 0;
        while j < r.len()
            invariant
                j <= r@.len(),
                !present ==> forall|t: int| 0 <= t < j ==> !paths_equal(#[trigger] views(r@)[t], p@),
                present ==> has_same_path(views(r@), p@),
            decreases r.len() - j,
        {
            if same_path(r[j].as_str(), p.as_str()) {
                assert(paths_equal(views(r@)[j as int], p@));
                present = true;
            }
            j = j + 1;
        }
        let ghost prev = views(r@);
        if !present {
            r.push(p);
            assert(views(r@) =~= prev.push(rest[0]));
        }
        i = i + 1;
    }
    assert(items.subrange(4, 4) =~= Seq::<Seq<char>>::empty());
    r
}

/// Whether a candidate key is skipped as a public key: its extension is
/// `pub`.
pub fn is_public_key_file(path: &str) -> (r: bool)
    ensures
        r == (path_extension(path@) == Some("pub"@)),
{
    match crate::paths::extension(path) {
        Some(e) => str_eq(e.as_str(), "pub"),
        None => false,
    }
}

/// Whether a candidate key is given to `ssh-add`: it exists, is a file,
/// and is no public key.
pub fn key_should_be_added(path: &str, exists: bool, is_file: bool) -> (r: bool)
    ensures
        r == (exists && is_file && path_extension(path@) != Some("pub"@)),
{
    exists && is_file && !is_public_key_file(path)
}

/// The keys added to the agent so far: how many, and the first one.
pub struct KeysAdded {
    pub count: usize,
    pub first: Option<String>,
}

impl KeysAdded {
    /// No key added yet.
    pub fn new() -> (r: Self)
        ensures
            r.count == 0,
            r.first is None,
    {
        KeysAdded { count: 0, first: None }
    }

    /// Records that `path` was added: one more key, and `path` as the first
    /// when it is the first.
    pub fn record(&mut self, path: &str)
        requires
            old(self).count < usize::MAX,
        ensures
            final(self).count == old(self).count + 1,
            old(self).first is None ==> (final(self).first matches Some(f) && f@ == path@),
            old(self).first matches Some(f) ==> (final(self).first matches Some(g) && g@ == f@),
    {
        self.count = self.count + 1;
        if self.first.is_none() {
            self.first = Some(String::from_str(path));
        }
    }
}

/// How a key is named to the user: its file name, else `ssh_key`.
pub fn key_display_name(path: &str) -> (r: String)
    ensures
        r@ == match path_file_name(path@) {
            Some(n) => n,
            None => "ssh_key"@,
        },
{
    match file_name(path) {
        Some(n) => n,
        None => String::from_str("ssh_key"),
    }
}

/// What the user is told after adding keys.
pub fn added_keys_message(added_count: usize) -> (r: String)
    ensures
        added_count == 0 ==> r@ == "No SSH keys were added to ssh-agent.\nYou may need to generate SSH keys or check your ~/.ssh directory."@,
        added_count > 0 ==> r@ == "Successfully added "@ + decimal(added_count as nat) + " SSH key(s) to ssh-agent."@,
{
    if added_count == 0 {
        String::from_str("No SSH keys were added to ssh-agent.\nYou may need to generate SSH keys or check your ~/.ssh directory.")
    } else {
        let mut m = String::from_str("Successfully added ");
        let n = decimal_exec(added_count as u64);
        m.append(n.as_str());
        m.append(" SSH key(s) to ssh-agent.");
        m
    }
}

/// The choices offered when agent authentication failed: add each
/// available key, or skip.
pub fn manual_key_options(key_names: &Vec<String>) -> (r: Vec<String>)
    ensures
        r@.len() == key_names@.len() + 1,
        forall|i: int| 0 <= i < key_names@.len() ==> #[trigger] r@[i]@ == "Add "@ + key_names@[i]@ + " to SSH agent"@,
        r@[key_names@.len() as int]@ == "Skip manual key addition"@,
{
    let mut r: Vec<String> = Vec::new();
    let mut i: usize = 0;
    while i < key_names.len()
        invariant
            i <= key_names@.len(),
            r@.len() == i,
            forall|j: int| 0 <= j < i ==> #[trigger] r@[j]@ == "Add "@ + key_names@[j]@ + " to SSH agent"@,
        decreases key_names.len() - i,
    {
        let mut o = String::from_str("Add ");
        o.append(key_names[i].as_str());
        o.append(" to SSH agent");
        r.push(o);
        i = i + 1;
    }
    r.push(String::from_str("Skip manual key addition"));
    r
}

/// The key chosen from the offered options (`selection` among `key_count`
/// keys and the skip option): none when the skip option or beyond was
/// chosen.
pub fn manual_key_choice(selection: usize, key_count: usize) -> (r: Option<usize>)
    ensures
        selection < key_count ==> r == Some(selection),
        selection >= key_count ==> r is None,
{
    if selection >= key_count {
        None
    } else {
        Some(selection)
    }
}

/// Where answering an SSH credential request stands.
pub enum SshAuthState {
    /// Waiting for an SSH agent to be made ready.
    EnsuringAgent,
    /// Waiting for the number of keys the agent holds.
    CountingIdentities,
    /// Waiting for the keys of `~/.ssh` to be added to the agent.
    AddingKeys,
    /// Waiting for the agent to answer; the key added before, if any.
    TryingAgent(Option<String>),
    /// The agent answered; waiting for the configured key file, to compare
    /// it with the key added.
    CheckingKeyFile(String),
    /// Answered.
    Done,
}

/// The work the app does next in answering an SSH credential request.
pub enum SshAuthAction {
    /// Make an SSH agent ready.
    EnsureAgent,
    /// Count the keys the agent holds.
    CountIdentities,
    /// Add the keys of `~/.ssh` to the agent.
    AddKeys,
    /// Ask the agent for a credential.
    TryAgent,
    /// Read the configured SSH key file.
    ReadKeyFile,
    /// Answer with the agent's credential, offer SSH as the preferred
    /// authentication, and offer this key (when some) as the key file.
    Succeed(Option<String>),
    /// Answer with the error of making the agent ready.
    Abort,
    /// Answer with this error.
    Fail(String),
}

/// What the app observed.
pub enum SshAuthEvent {
    /// Whether an agent was made ready.
    AgentReady(bool),
    /// The keys the agent holds (0 when they could not be counted).
    IdentityCount(usize),
    /// The first key added, when one was.
    KeysAdded(Option<String>),
    /// Whether the agent gave a credential.
    AgentAuth(bool),
    /// The configured SSH key file.
    KeyFileRead(Option<String>),
}

pub enum SshAuthStateView {
    EnsuringAgent,
    CountingIdentities,
    AddingKeys,
    TryingAgent(Option<Seq<char>>),
    CheckingKeyFile(Seq<char>),
    Done,
}

pub enum SshAuthActionView {
    EnsureAgent,
    CountIdentities,
    AddKeys,
    TryAgent,
    ReadKeyFile,
    Succeed(Option<Seq<char>>),
    Abort,
    Fail(Seq<char>),
}

pub enum SshAuthEventView {
    AgentReady(bool),
    IdentityCount(usize),
    KeysAdded(Option<Seq<char>>),
    AgentAuth(bool),
    KeyFileRead(Option<Seq<char>>),
}

impl View for SshAuthState {
    type V = SshAuthStateView;

    open spec fn view(&self) -> SshAuthStateView {
        match self {
            SshAuthState::EnsuringAgent => SshAuthStateView::EnsuringAgent,
            SshAuthState::CountingIdentities => SshAuthStateView::CountingIdentities,
            SshAuthState::AddingKeys => SshAuthStateView::AddingKeys,
            SshAuthState::TryingAgent(k) => SshAuthStateView::TryingAgent(opt_view(*k)),
            SshAuthState::CheckingKeyFile(k) => SshAuthStateView::CheckingKeyFile(k@),
            SshAuthState::Done => SshAuthStateView::Done,
        }
    }
}

impl View for SshAuthAction {
    type V = SshAuthActionView;

    open spec fn view(&self) -> SshAuthActionView {
        match self {
            SshAuthAction::EnsureAgent => SshAuthActionView::EnsureAgent,
            SshAuthAction::CountIdentities => SshAuthActionView::CountIdentities,
            SshAuthAction::AddKeys => SshAuthActionView::AddKeys,
            SshAuthAction::TryAgent => SshAuthActionView::TryAgent,
            SshAuthAction::ReadKeyFile => SshAuthActionView::ReadKeyFile,
            SshAuthAction::Succeed(k) => SshAuthActionView::Succeed(opt_view(*k)),
            SshAuthAction::Abort => SshAuthActionView::Abort,
            SshAuthAction::Fail(m) => SshAuthActionView::Fail(m@),
        }
    }
}

impl View for SshAuthEvent {
    type V = SshAuthEventView;

    open spec fn view(&self) -> SshAuthEventView {
        match self {
            SshAuthEvent::AgentReady(b) => SshAuthEventView::AgentReady(*b),
            SshAuthEvent::IdentityCount(n) => SshAuthEventView::IdentityCount(*n),
            SshAuthEvent::KeysAdded(k) => SshAuthEventView::KeysAdded(opt_view(*k)),
            SshAuthEvent::AgentAuth(b) => SshAuthEventView::AgentAuth(*b),
            SshAuthEvent::KeyFileRead(k) => SshAuthEventView::KeyFileRead(opt_view(*k)),
        }
    }
}

/// The error when every method failed at the `attempt`-th request.
pub open spec fn auth_failed_text(attempt: usize) -> Seq<char> {
    "Authentication failed - attempt "@ + decimal(attempt as nat)
}

/// How answering the `attempt`-th SSH credential request begins: refused
/// past the limit; failed at once unless SSH keys are allowed and the URL
/// names a user; otherwise an agent is made ready first.
pub open spec fn ssh_auth_start_spec(attempt: usize, ssh_allowed: bool, has_username: bool) -> (SshAuthStateView, SshAuthActionView) {
    if attempt > MAX_AUTH_ATTEMPTS {
        (SshAuthStateView::Done, SshAuthActionView::Fail("Too many authentication attempts"@))
    } else if !ssh_allowed || !has_username {
        (SshAuthStateView::Done, SshAuthActionView::Fail(auth_failed_text(attempt)))
    } else {
        (SshAuthStateView::EnsuringAgent, SshAuthActionView::EnsureAgent)
    }
}

/// One decision in answering the `attempt`-th SSH credential request: an
/// agent that cannot be made ready ends it with that error; an agent with
/// no keys gets the keys of `~/.ssh` (within the limit); then the agent is
/// asked. When it gives a credential, a key that was added is offered as
/// the key file unless it is the same path as the configured one; when it
/// does not, the request fails. An event that does not fit the state fails
/// the request.
pub open spec fn ssh_auth_step_spec(attempt: usize, state: SshAuthStateView, event: SshAuthEventView) -> (SshAuthStateView, SshAuthActionView) {
    match (state, event) {
        (SshAuthStateView::EnsuringAgent, SshAuthEventView::AgentReady(ready)) => if ready {
            (SshAuthStateView::CountingIdentities, SshAuthActionView::CountIdentities)
        } else {
            (SshAuthStateView::Done, SshAuthActionView::Abort)
        },
        (SshAuthStateView::CountingIdentities, SshAuthEventView::IdentityCount(n)) => if n == 0 && attempt <= MAX_AUTH_ATTEMPTS {
            (SshAuthStateView::AddingKeys, SshAuthActionView::AddKeys)
        } else {
            (SshAuthStateView::TryingAgent(None), SshAuthActionView::TryAgent)
        },
        (SshAuthStateView::AddingKeys, SshAuthEventView::KeysAdded(k)) => (
            SshAuthStateView::TryingAgent(k),
            SshAuthActionView::TryAgent,
        ),
        (SshAuthStateView::TryingAgent(k), SshAuthEventView::AgentAuth(ok)) => if !ok {
            (SshAuthStateView::Done, SshAuthActionView::Fail(auth_failed_text(attempt)))
        } else {
            match k {
                None => (SshAuthStateView::Done, SshAuthActionView::Succeed(None)),
                Some(added) => (SshAuthStateView::CheckingKeyFile(added), SshAuthActionView::ReadKeyFile),
            }
        },
        (SshAuthStateView::CheckingKeyFile(added), SshAuthEventView::KeyFileRead(current)) => match current {
            Some(c) => if paths_equal(c, added) {
                (SshAuthStateView::Done, SshAuthActionView::Succeed(None))
            } else {
                (SshAuthStateView::Done, SshAuthActionView::Succeed(Some(added)))
            },
            None => (SshAuthStateView::Done, SshAuthActionView::Succeed(Some(added))),
        },
        _ => (SshAuthStateView::Done, SshAuthActionView::Fail(auth_failed_text(attempt))),
    }
}

/// How answering the `attempt`-th SSH credential request begins.
pub fn ssh_auth_start(attempt: usize, ssh_allowed: bool, has_username: bool) -> (r: (SshAuthState, SshAuthAction))
    ensures
        (r.0@, r.1@) == ssh_auth_start_spec(attempt, ssh_allowed, has_username),
{
    if attempt > MAX_AUTH_ATTEMPTS {
        (SshAuthState::Done, SshAuthAction::Fail(String::from_str("Too many authentication attempts")))
    } else if !ssh_allowed || !has_username {
        (SshAuthState::Done, SshAuthAction::Fail(auth_failed_message(attempt)))
    } else {
        (SshAuthState::EnsuringAgent, SshAuthAction::EnsureAgent)
    }
}

/// One decision in answering the `attempt`-th SSH credential request.
pub fn ssh_auth_step(attempt: usize, state: SshAuthState, event: SshAuthEvent) -> (r: (SshAuthState, SshAuthAction))
    ensures
        (r.0@, r.1@) == ssh_auth_step_spec(attempt, state@, event@),
{
    match (state, event) {
        (SshAuthState::EnsuringAgent, SshAuthEvent::AgentReady(ready)) => {
            if ready {
                (SshAuthState::CountingIdentities, SshAuthAction::CountIdentities)
            } else {
                (SshAuthState::Done, SshAuthAction::Abort)
            }
        },
        (SshAuthState::CountingIdentities, SshAuthEvent::IdentityCount(n)) => {
            if should_add_keys(n, attempt) {
                (SshAuthState::AddingKeys, SshAuthAction::AddKeys)
            } else {
                (SshAuthState::TryingAgent(None), SshAuthAction::TryAgent)
            }
        },
        (SshAuthState::AddingKeys, SshAuthEvent::KeysAdded(k)) => (SshAuthState::TryingAgent(k), SshAuthAction::TryAgent),
        (SshAuthState::TryingAgent(k), SshAuthEvent::AgentAuth(ok)) => {
            if !ok {
                (SshAuthState::Done, SshAuthAction::Fail(auth_failed_message(attempt)))
            } else {
                match k {
                    None => (SshAuthState::Done, SshAuthAction::Succeed(None)),
                    Some(added) => (SshAuthState::CheckingKeyFile(added), SshAuthAction::ReadKeyFile),
                }
            }
        },
        (SshAuthState::CheckingKeyFile(added), SshAuthEvent::KeyFileRead(current)) => match current {
            Some(c) => {
                if same_path(c.as_str(), added.as_str()) {
                    (SshAuthState::Done, SshAuthAction::Succeed(None))
                } else {
                    (SshAuthState::Done, SshAuthAction::Succeed(Some(added)))
                }
            },
            None => (SshAuthState::Done, SshAuthAction::Succeed(Some(added))),
        },
        _ => (SshAuthState::Done, SshAuthAction::Fail(auth_failed_message(attempt))),
    }
}

/// How much work answering a request still has at most.
pub open spec fn ssh_auth_rank(s: SshAuthStateView) -> nat {
    match s {
        SshAuthStateView::EnsuringAgent => 5,
        SshAuthStateView::CountingIdentities => 4,
        SshAuthStateView::AddingKeys => 3,
        SshAuthStateView::TryingAgent(_) => 2,
        SshAuthStateView::CheckingKeyFile(_) => 1,
        SshAuthStateView::Done => 0,
    }
}

/// Answering a request ends: every step either finishes (succeeds, aborts
/// or fails) or moves to a state with less work left.
pub proof fn law_ssh_auth_progresses(attempt: usize, state: SshAuthStateView, event: SshAuthEventView)
    ensures
        ({
            let (s, a) = ssh_auth_step_spec(attempt, state, event);
            ||| (a is Succeed || a is Abort || a is Fail) && s == SshAuthStateView::Done
            ||| ssh_auth_rank(s) < ssh_auth_rank(state)
        }),
{
}

} // verus!
