//! The SSH agent: reading what `ssh-agent` and `ssh-add` print, where bgit
//! keeps its own agent, and which agent authentication uses.
use vstd::prelude::*;
use vstd::string::*;

use crate::config::{distinct_keys, table_map, table_set};
use crate::global_config::{home_dir_string, join_path, path_join};
use crate::text::{
    chars_of, contains_seq, find, find_char, find_char_exec, find_from_exec, lines, lines_exec,
    skip, str_contains, string_from_range, trim, trim_exec, views,
};

pub mod unix;
pub mod unsupported;
pub mod windows;

verus! {

/// The name of the socket bgit binds its agent to, in `~/.ssh`.
pub const SSH_AGENT_SOCKET_BASENAME: &'static str = "bgit_ssh_agent.sock";

/// `s` up to its first `c` (all of `s` when `c` does not occur).
pub open spec fn before_char(s: Seq<char>, c: char) -> Seq<char> {
    match find_char(s, c) {
        Some(k) => s.subrange(0, k),
        None => s,
    }
}

/// `s` cut at its first `c`, without the `c`.
pub open spec fn split_once_char(s: Seq<char>, c: char) -> Option<(Seq<char>, Seq<char>)> {
    match find_char(s, c) {
        Some(k) => Some((s.subrange(0, k), s.subrange(k + 1, s.len() as int))),
        None => None,
    }
}

/// The variable that a line of `ssh-agent` output sets: a line naming
/// `SSH_AUTH_SOCK` or `SSH_AGENT_PID` with an `=`, read up to its first `;`
/// and cut at its first `=`.
pub open spec fn agent_line_entry(line: Seq<char>) -> Option<(Seq<char>, Seq<char>)> {
    if contains_seq(line, "="@) && (contains_seq(line, "SSH_AUTH_SOCK"@) || contains_seq(line, "SSH_AGENT_PID"@)) {
        split_once_char(before_char(line, ';'), '=')
    } else {
        None
    }
}

/// The variables the lines set: each name to the value of the last line
/// that sets it.
pub open spec fn agent_env(lines: Seq<Seq<char>>) -> Map<Seq<char>, Seq<char>>
    decreases lines.len(),
{
    if lines.len() == 0 {
        Map::empty()
    } else {
        let m = agent_env(lines.drop_last());
        match agent_line_entry(lines.last()) {
            Some((k, v)) => m.insert(k, v),
            None => m,
        }
    }
}

/// The value that a line gives after `pat`, up to the next `;`.
pub open spec fn var_in_line(line: Seq<char>, pat: Seq<char>) -> Option<Seq<char>> {
    match find(line, pat) {
        Some(k) => Some(before_char(skip(line, k + pat.len()), ';')),
        None => None,
    }
}

/// The value of the first line that has `pat`.
pub open spec fn first_var(lines: Seq<Seq<char>>, pat: Seq<char>) -> Option<Seq<char>>
    decreases lines.len(),
{
    if lines.len() == 0 {
        None
    } else {
        match var_in_line(lines[0], pat) {
            Some(v) => Some(v),
            None => first_var(lines.drop_first(), pat),
        }
    }
}

/// A line of `ssh-add -l` that lists a key: not blank, and not the notice
/// that the agent has none.
pub open spec fn is_identity_line(line: Seq<char>) -> bool {
    !contains_seq(line, "The agent has no identities"@) && trim(line).len() > 0
}

/// The number of keys listed in the lines.
pub open spec fn identity_count(lines: Seq<Seq<char>>) -> nat
    decreases lines.len(),
{
    if lines.len() == 0 {
        0
    } else {
        identity_count(lines.drop_last()) + if is_identity_line(lines.last()) { 1nat } else { 0nat }
    }
}

/// What a run of `ssh-add -l` says: the number of keys when it succeeded,
/// else why it failed.
pub open spec fn ssh_add_list_spec(success: bool, stdout: Seq<char>, stderr: Seq<char>) -> Result<nat, Seq<char>> {
    if success {
        Ok(identity_count(lines(stdout)))
    } else if contains_seq(stderr, "Could not open a connection to your authentication agent"@) {
        Err("ssh-agent not reachable"@)
    } else {
        Err("ssh-add -l failed: "@ + stderr)
    }
}

/// The directory of the user's SSH files: `.ssh` in `home`, else `.ssh`.
pub open spec fn ssh_dir_spec(home: Option<Seq<char>>) -> Seq<char> {
    match home {
        Some(h) => path_join(h, ".ssh"@),
        None => ".ssh"@,
    }
}

/// `s` cut at its first `c`.
pub fn split_once_char_exec(s: &Vec<char>, c: char) -> (r: Option<(String, String)>)
    ensures
        match split_once_char(s@, c) {
            Some((a, b)) => r matches Some(p) && p.0@ == a && p.1@ == b,
            None => r is None,
        },
{
    proof {
        crate::text::lemma_find_from_spec(s@, seq![c], 0);
    }
    assert(seq![c].len() == 1);
    match find_char_exec(s, c) {
        Some(k) => {
            let n = s.len();
            assert(crate::text::matches_at(s@, seq![c], k as int));
            Some((string_from_range(s, 0, k), string_from_range(s, k + 1, n)))
        },
        None => None,
    }
}

/// `s` up to its first `c`.
pub fn before_char_exec(s: &Vec<char>, c: char) -> (r: Vec<char>)
    ensures
        r@ == before_char(s@, c),
{
    proof {
        crate::text::lemma_find_from_spec(s@, seq![c], 0);
    }
    match find_char_exec(s, c) {
        Some(k) => {
            let mut r: Vec<char> = Vec::new();
            let mut i: usize = 0;
            while i < k
                invariant
                    i <= k <= s@.len(),
                    r@ == s@.subrange(0, i as int),
                decreases k - i,
            {
                r.push(s[i]);
                assert(s@.subrange(0, i + 1) =~= s@.subrange(0, i as int).push(s@[i as int]));
                i = i + 1;
            }
            r
        },
        None => s.clone(),
    }
}

/// The variable a line of `ssh-agent` output sets, if any.
pub fn agent_line_entry_exec(line: &str) -> (r: Option<(String, String)>)
    ensures
        match agent_line_entry(line@) {
            Some((k, v)) => r matches Some(p) && p.0@ == k && p.1@ == v,
            None => r is None,
        },
{
    if str_contains(line, "=") && (str_contains(line, "SSH_AUTH_SOCK") || str_contains(line, "SSH_AGENT_PID")) {
        let v = chars_of(line);
        let var_part = before_char_exec(&v, ';');
        split_once_char_exec(&var_part, '=')
    } else {
        None
    }
}

/// A table of names to texts, as a map of texts.
pub open spec fn string_table(entries: Seq<(String, String)>) -> Map<Seq<char>, Seq<char>> {
    table_map(entries).map_values(|v: String| v@)
}

/// The environment variables that `ssh-agent` output sets: each name once,
/// with the value of the last line that sets it.
pub fn parse_ssh_agent_output(output: &str) -> (r: Vec<(String, String)>)
    ensures
        distinct_keys(r@),
        string_table(r@) == agent_env(lines(output@)),
{
    let ls = lines_exec(output);
    let ghost lv = views(ls@);
    let mut r: Vec<(String, String)> = Vec::new();
    let mut i: usize = 0;
    assert(lv.subrange(0, 0) =~= Seq::<Seq<char>>::empty());
    assert(string_table(r@) =~= Map::<Seq<char>, Seq<char>>::empty());
    while i < ls.len()
        invariant
            i <= ls@.len(),
            lv == views(ls@),
            lv == lines(output@),
            distinct_keys(r@),
            string_table(r@) == agent_env(lv.subrange(0, i as int)),
        decreases ls.len() - i,
    {
        let ghost prev = lv.subrange(0, i as int);
        assert(lv.subrange(0, i + 1).drop_last() =~= prev);
        assert(lv.subrange(0, i + 1).last() == ls@[i as int]@);
        match agent_line_entry_exec(ls[i].as_str()) {
            Some((k, val)) => {
                let ghost before = r@;
                let ghost kv = k@;
                let ghost vv = val@;
                table_set(&mut r, k, val);
                assert(string_table(r@) =~= string_table(before).insert(kv, vv));
            },
            None => {},
        }
        i = i + 1;
    }
    assert(lv.subrange(0, ls@.len() as int) =~= lv);
    r
}

/// The value `line` gives after `pat`, up to the next `;`.
pub fn var_in_line_exec(line: &str, pat: &str) -> (r: Option<String>)
    requires
        pat@.len() > 0,
    ensures
        match var_in_line(line@, pat@) {
            Some(v) => r matches Some(s) && s@ == v,
            None => r is None,
        },
{
    let lv = chars_of(line);
    let pv = chars_of(pat);
    proof {
        crate::text::lemma_find_from_spec(lv@, pv@, 0);
    }
    match find_from_exec(&lv, &pv, 0) {
        Some(k) => {
            let n = lv.len();
            assert(crate::text::matches_at(lv@, pv@, k as int));
            let rest = crate::text::rest_from(&lv, k + pv.len());
            let v = before_char_exec(&rest, ';');
            Some(crate::text::string_from_chars(&v))
        },
        None => None,
    }
}

/// The value of the first line of `output` that has `pat`.
pub fn first_var_exec(output: &str, pat: &str) -> (r: Option<String>)
    requires
        pat@.len() > 0,
    ensures
        match first_var(lines(output@), pat@) {
            Some(v) => r matches Some(s) && s@ == v,
            None => r is None,
        },
{
    let ls = lines_exec(output);
    let ghost lv = views(ls@);
    let mut i: usize = 0;
    assert(lv.subrange(0, lv.len() as int) =~= lv);
    while i < ls.len()
        invariant
            i <= ls@.len(),
            lv == views(ls@),
            lv == lines(output@),
            pat@.len() > 0,
            first_var(lv, pat@) == first_var(lv.subrange(i as int, lv.len() as int), pat@),
        decreases ls.len() - i,
    {
        let ghost rest = lv.subrange(i as int, lv.len() as int);
        assert(rest[0] == ls@[i as int]@);
        assert(rest.drop_first() =~= lv.subrange(i + 1, lv.len() as int));
        match var_in_line_exec(ls[i].as_str(), pat) {
            Some(v) => {
                return Some(v);
            },
            None => {},
        }
        i = i + 1;
    }
    None
}

/// The socket and process id that `ssh-agent` output announces, or the
/// message of what could not be read (the socket first).
pub fn parse_agent_env(output: &str) -> (r: Result<(String, String), String>)
    ensures
        match (first_var(lines(output@), "SSH_AUTH_SOCK="@), first_var(lines(output@), "SSH_AGENT_PID="@)) {
            (Some(s), Some(p)) => r matches Ok(v) && v.0@ == s && v.1@ == p,
            (None, _) => r matches Err(m) && m@ == "Failed to parse SSH_AUTH_SOCK"@,
            (Some(_), None) => r matches Err(m) && m@ == "Failed to parse SSH_AGENT_PID"@,
        },
{
    proof {
        reveal_strlit("SSH_AUTH_SOCK=");
        reveal_strlit("SSH_AGENT_PID=");
    }
    let sock = match first_var_exec(output, "SSH_AUTH_SOCK=") {
        Some(s) => s,
        None => {
            return Err(String::from_str("Failed to parse SSH_AUTH_SOCK"));
        },
    };
    let pid = match first_var_exec(output, "SSH_AGENT_PID=") {
        Some(p) => p,
        None => {
            return Err(String::from_str("Failed to parse SSH_AGENT_PID"));
        },
    };
    Ok((sock, pid))
}

/// The number of keys an `ssh-add -l` run lists, or why the run failed.
pub fn ssh_add_list_result(success: bool, stdout: &str, stderr: &str) -> (r: Result<usize, String>)
    ensures
        match ssh_add_list_spec(success, stdout@, stderr@) {
            Ok(n) => r matches Ok(c) && c == n,
            Err(m) => r matches Err(s) && s@ == m,
        },
{
    if success {
        let ls = lines_exec(stdout);
        let ghost lv = views(ls@);
        let mut count: usize = 0;
        let mut i: usize = 0;
        assert(lv.subrange(0, 0) =~= Seq::<Seq<char>>::empty());
        while i < ls.len()
            invariant
                i <= ls@.len(),
                lv == views(ls@),
                count == identity_count(lv.subrange(0, i as int)),
                count <= i,
            decreases ls.len() - i,
        {
            assert(lv.subrange(0, i + 1).drop_last() =~= lv.subrange(0, i as int));
            assert(lv.subrange(0, i + 1).last() == ls@[i as int]@);
            let t = trim_exec(ls[i].as_str());
            if !str_contains(ls[i].as_str(), "The agent has no identities") && t.as_str().unicode_len() > 0 {
                count = count + 1;
            }
            i = i + 1;
        }
        assert(lv.subrange(0, ls@.len() as int) =~= lv);
        Ok(count)
    } else if str_contains(stderr, "Could not open a connection to your authentication agent") {
        Err(String::from_str("ssh-agent not reachable"))
    } else {
        let mut m = String::from_str("ssh-add -l failed: ");
        m.append(stderr);
        Err(m)
    }
}

/// The directory of the user's SSH files.
pub fn ssh_dir(home: Option<&str>) -> (r: String)
    ensures
        r@ == ssh_dir_spec(match home {
            Some(h) => Some(h@),
            None => None,
        }),
{
    match home {
        Some(h) => join_path(h, ".ssh"),
        None => String::from_str(".ssh"),
    }
}

/// Where bgit keeps its agent for the home directory `home`.
pub open spec fn agent_paths_spec(home: Option<Seq<char>>) -> (Seq<char>, Seq<char>) {
    let d = ssh_dir_spec(home);
    (path_join(d, SSH_AGENT_SOCKET_BASENAME@), path_join(d, SSH_AGENT_SOCKET_BASENAME@ + ".pid"@))
}

/// Where bgit keeps its agent: the socket, and the file with the agent's
/// process id, both in the SSH directory.
pub fn get_bgit_agent_paths(home: Option<&str>) -> (r: (String, String))
    ensures
        ({
            let d = ssh_dir_spec(match home {
                Some(h) => Some(h@),
                None => None,
            });
            r.0@ == path_join(d, SSH_AGENT_SOCKET_BASENAME@) && r.1@ == path_join(d, SSH_AGENT_SOCKET_BASENAME@ + ".pid"@)
        }),
{
    let d = ssh_dir(home);
    let sock = join_path(d.as_str(), SSH_AGENT_SOCKET_BASENAME);
    let mut pid_name = String::from_str(SSH_AGENT_SOCKET_BASENAME);
    pid_name.append(".pid");
    let pid = join_path(d.as_str(), pid_name.as_str());
    (sock, pid)
}

/// Where bgit keeps its agent, for the current user.
pub fn bgit_agent_paths() -> (r: (String, String))
    ensures
        exists|h: Option<Seq<char>>| #[trigger] agent_paths_spec(h) == (r.0@, r.1@),
{
    let home = home_dir_string();
    let r = match &home {
        Some(h) => get_bgit_agent_paths(Some(h.as_str())),
        None => get_bgit_agent_paths(None),
    };
    proof {
        let hv = opt_view(home);
        assert(agent_paths_spec(hv) == (r.0@, r.1@));
    }
    r
}

/// The agent bgit started: its socket and, when known, its process id.
#[derive(Debug, Clone)]
pub struct BgitSshAgentState {
    pub socket_path: String,
    pub pid: Option<String>,
}

/// What the files of bgit's agent say: the state when the socket and the
/// process-id file exist, the socket is one, and the file holds a process id
/// (its text trimmed, not empty).
pub open spec fn agent_state_spec(
    socket_exists: bool,
    pid_file_exists: bool,
    is_socket: bool,
    pid_file: Option<Seq<char>>,
) -> Option<Seq<char>> {
    if !socket_exists || !pid_file_exists || !is_socket {
        None
    } else {
        match pid_file {
            Some(c) => if trim(c).len() == 0 {
                None
            } else {
                Some(trim(c))
            },
            None => None,
        }
    }
}

impl BgitSshAgentState {
    /// The state of bgit's agent at `socket_path`, from whether the socket
    /// and the process-id file exist, whether the socket is a socket, and
    /// the text of the process-id file (none when it could not be read).
    pub fn load(
        socket_path: &str,
        socket_exists: bool,
        pid_file_exists: bool,
        is_socket: bool,
        pid_file: Option<&str>,
    ) -> (r: Option<BgitSshAgentState>)
        ensures
            match agent_state_spec(socket_exists, pid_file_exists, is_socket, match pid_file {
                Some(c) => Some(c@),
                None => None,
            }) {
                Some(p) => r matches Some(st) && st.socket_path@ == socket_path@ && (st.pid matches Some(q) && q@ == p),
                None => r is None,
            },
    {
        if !socket_exists || !pid_file_exists || !is_socket {
            return None;
        }
        match pid_file {
            Some(c) => {
                let t = trim_exec(c);
                if t.as_str().unicode_len() == 0 {
                    None
                } else {
                    Some(BgitSshAgentState { socket_path: String::from_str(socket_path), pid: Some(t) })
                }
            },
            None => None,
        }
    }
}

/// The agent authentication uses: bgit's own agent when it answers, else the
/// one the environment names when it is a socket and answers, else none.
#[derive(Debug, Clone)]
pub enum EffectiveAuthState {
    Start,
    VerifyingState(String, Option<String>),
    CleaningUp,
    ReadingEnv,
    CheckingEnvSocket(String, Option<String>),
    VerifyingEnv(String, Option<String>),
    Done,
}

/// The work the app does next in finding the agent.
#[derive(Debug, Clone)]
pub enum EffectiveAuthAction {
    /// Load bgit's agent state.
    LoadState,
    /// Ask the agent at this socket (with this process id) to list its keys.
    VerifyAgent(String, Option<String>),
    /// Remove bgit's agent files.
    CleanupState,
    /// Read `SSH_AUTH_SOCK` and `SSH_AGENT_PID`.
    ReadEnv,
    /// Tell whether this path is a socket.
    CheckSocket(String),
    /// The socket and process id to use.
    Finish(Option<String>, Option<String>),
}

/// What the app observed.
#[derive(Debug, Clone)]
pub enum EffectiveAuthEvent {
    StateLoaded(Option<BgitSshAgentState>),
    AgentVerified(bool),
    CleanedUp,
    EnvRead(Option<String>, Option<String>),
    SocketChecked(bool),
}

/// Starts finding the agent: load bgit's state first.
pub fn effective_auth_start() -> (r: (EffectiveAuthState, EffectiveAuthAction))
    ensures
        r.0 is Start,
        r.1 is LoadState,
{
    (EffectiveAuthState::Start, EffectiveAuthAction::LoadState)
}

pub open spec fn opt_view(o: Option<String>) -> Option<Seq<char>> {
    match o {
        Some(s) => Some(s@),
        None => None,
    }
}

pub enum EffectiveAuthStateView {
    Start,
    VerifyingState(Seq<char>, Option<Seq<char>>),
    CleaningUp,
    ReadingEnv,
    CheckingEnvSocket(Seq<char>, Option<Seq<char>>),
    VerifyingEnv(Seq<char>, Option<Seq<char>>),
    Done,
}

pub enum EffectiveAuthActionView {
    LoadState,
    VerifyAgent(Seq<char>, Option<Seq<char>>),
    CleanupState,
    ReadEnv,
    CheckSocket(Seq<char>),
    Finish(Option<Seq<char>>, Option<Seq<char>>),
}

pub enum EffectiveAuthEventView {
    StateLoaded(Option<(Seq<char>, Option<Seq<char>>)>),
    AgentVerified(bool),
    CleanedUp,
    EnvRead(Option<Seq<char>>, Option<Seq<char>>),
    SocketChecked(bool),
}

impl View for EffectiveAuthState {
    type V = EffectiveAuthStateView;

    open spec fn view(&self) -> EffectiveAuthStateView {
        match self {
            EffectiveAuthState::Start => EffectiveAuthStateView::Start,
            EffectiveAuthState::VerifyingState(s, p) => EffectiveAuthStateView::VerifyingState(s@, opt_view(*p)),
            EffectiveAuthState::CleaningUp => EffectiveAuthStateView::CleaningUp,
            EffectiveAuthState::ReadingEnv => EffectiveAuthStateView::ReadingEnv,
            EffectiveAuthState::CheckingEnvSocket(s, p) => EffectiveAuthStateView::CheckingEnvSocket(s@, opt_view(*p)),
            EffectiveAuthState::VerifyingEnv(s, p) => EffectiveAuthStateView::VerifyingEnv(s@, opt_view(*p)),
            EffectiveAuthState::Done => EffectiveAuthStateView::Done,
        }
    }
}

impl View for EffectiveAuthAction {
    type V = EffectiveAuthActionView;

    open spec fn view(&self) -> EffectiveAuthActionView {
        match self {
            EffectiveAuthAction::LoadState => EffectiveAuthActionView::LoadState,
            EffectiveAuthAction::VerifyAgent(s, p) => EffectiveAuthActionView::VerifyAgent(s@, opt_view(*p)),
            EffectiveAuthAction::CleanupState => EffectiveAuthActionView::CleanupState,
            EffectiveAuthAction::ReadEnv => EffectiveAuthActionView::ReadEnv,
            EffectiveAuthAction::CheckSocket(s) => EffectiveAuthActionView::CheckSocket(s@),
            EffectiveAuthAction::Finish(s, p) => EffectiveAuthActionView::Finish(opt_view(*s), opt_view(*p)),
        }
    }
}

impl View for EffectiveAuthEvent {
    type V = EffectiveAuthEventView;

    open spec fn view(&self) -> EffectiveAuthEventView {
        match self {
            EffectiveAuthEvent::StateLoaded(Some(st)) => EffectiveAuthEventView::StateLoaded(
                Some((st.socket_path@, opt_view(st.pid))),
            ),
            EffectiveAuthEvent::StateLoaded(None) => EffectiveAuthEventView::StateLoaded(None),
            EffectiveAuthEvent::AgentVerified(b) => EffectiveAuthEventView::AgentVerified(*b),
            EffectiveAuthEvent::CleanedUp => EffectiveAuthEventView::CleanedUp,
            EffectiveAuthEvent::EnvRead(s, p) => EffectiveAuthEventView::EnvRead(opt_view(*s), opt_view(*p)),
            EffectiveAuthEvent::SocketChecked(b) => EffectiveAuthEventView::SocketChecked(*b),
        }
    }
}

/// One decision in finding the agent: the next state and the work to do,
/// from the state and what was observed. bgit's own agent is verified
/// first and used when it answers; when it does not, its files are removed
/// and the environment's agent is tried: used when its path is a socket and
/// it answers. Any event that does not fit the state ends with no agent.
pub open spec fn effective_step_spec(
    state: EffectiveAuthStateView,
    event: EffectiveAuthEventView,
) -> (EffectiveAuthStateView, EffectiveAuthActionView) {
    match (state, event) {
        (EffectiveAuthStateView::Start, EffectiveAuthEventView::StateLoaded(Some((s, p)))) => (
            EffectiveAuthStateView::VerifyingState(s, p),
            EffectiveAuthActionView::VerifyAgent(s, p),
        ),
        (EffectiveAuthStateView::Start, EffectiveAuthEventView::StateLoaded(None)) => (
            EffectiveAuthStateView::ReadingEnv,
            EffectiveAuthActionView::ReadEnv,
        ),
        (EffectiveAuthStateView::VerifyingState(s, p), EffectiveAuthEventView::AgentVerified(ok)) => if ok {
            (EffectiveAuthStateView::Done, EffectiveAuthActionView::Finish(Some(s), p))
        } else {
            (EffectiveAuthStateView::CleaningUp, EffectiveAuthActionView::CleanupState)
        },
        (EffectiveAuthStateView::CleaningUp, EffectiveAuthEventView::CleanedUp) => (
            EffectiveAuthStateView::ReadingEnv,
            EffectiveAuthActionView::ReadEnv,
        ),
        (EffectiveAuthStateView::ReadingEnv, EffectiveAuthEventView::EnvRead(sock, pid)) => match sock {
            None => (EffectiveAuthStateView::Done, EffectiveAuthActionView::Finish(None, None)),
            Some(s) => (EffectiveAuthStateView::CheckingEnvSocket(s, pid), EffectiveAuthActionView::CheckSocket(s)),
        },
        (EffectiveAuthStateView::CheckingEnvSocket(s, p), EffectiveAuthEventView::SocketChecked(is_socket)) => if is_socket {
            (EffectiveAuthStateView::VerifyingEnv(s, p), EffectiveAuthActionView::VerifyAgent(s, p))
        } else {
            (EffectiveAuthStateView::Done, EffectiveAuthActionView::Finish(None, None))
        },
        (EffectiveAuthStateView::VerifyingEnv(s, p), EffectiveAuthEventView::AgentVerified(ok)) => if ok {
            (EffectiveAuthStateView::Done, EffectiveAuthActionView::Finish(Some(s), p))
        } else {
            (EffectiveAuthStateView::Done, EffectiveAuthActionView::Finish(None, None))
        },
        _ => (EffectiveAuthStateView::Done, EffectiveAuthActionView::Finish(None, None)),
    }
}

/// One decision in finding the agent, from the state and what was observed.
pub fn effective_auth_step(state: EffectiveAuthState, event: EffectiveAuthEvent) -> (r: (EffectiveAuthState, EffectiveAuthAction))
    ensures
        (r.0@, r.1@) == effective_step_spec(state@, event@),
{
    match (state, event) {
        (EffectiveAuthState::Start, EffectiveAuthEvent::StateLoaded(Some(st))) => {
            let s = st.socket_path.clone();
            let p = st.pid.clone();
            (EffectiveAuthState::VerifyingState(st.socket_path, st.pid), EffectiveAuthAction::VerifyAgent(s, p))
        },
        (EffectiveAuthState::Start, EffectiveAuthEvent::StateLoaded(None)) => (EffectiveAuthState::ReadingEnv, EffectiveAuthAction::ReadEnv),
        (EffectiveAuthState::VerifyingState(s, p), EffectiveAuthEvent::AgentVerified(ok)) => {
            if ok {
                (EffectiveAuthState::Done, EffectiveAuthAction::Finish(Some(s), p))
            } else {
                (EffectiveAuthState::CleaningUp, EffectiveAuthAction::CleanupState)
            }
        },
        (EffectiveAuthState::CleaningUp, EffectiveAuthEvent::CleanedUp) => (EffectiveAuthState::ReadingEnv, EffectiveAuthAction::ReadEnv),
        (EffectiveAuthState::ReadingEnv, EffectiveAuthEvent::EnvRead(sock, pid)) => match sock {
            None => (EffectiveAuthState::Done, EffectiveAuthAction::Finish(None, None)),
            Some(s) => {
                let c = s.clone();
                (EffectiveAuthState::CheckingEnvSocket(s, pid), EffectiveAuthAction::CheckSocket(c))
            },
        },
        (EffectiveAuthState::CheckingEnvSocket(s, p), EffectiveAuthEvent::SocketChecked(is_socket)) => {
            if is_socket {
                let s2 = s.clone();
                let p2 = p.clone();
                (EffectiveAuthState::VerifyingEnv(s, p), EffectiveAuthAction::VerifyAgent(s2, p2))
            } else {
                (EffectiveAuthState::Done, EffectiveAuthAction::Finish(None, None))
            }
        },
        (EffectiveAuthState::VerifyingEnv(s, p), EffectiveAuthEvent::AgentVerified(ok)) => {
            if ok {
                (EffectiveAuthState::Done, EffectiveAuthAction::Finish(Some(s), p))
            } else {
                (EffectiveAuthState::Done, EffectiveAuthAction::Finish(None, None))
            }
        },
        _ => (EffectiveAuthState::Done, EffectiveAuthAction::Finish(None, None)),
    }
}

/// bgit's own agent is used when it answers: after its state is loaded and
/// the agent answers, the search ends with its socket and process id.
pub proof fn law_own_agent_used_when_it_answers(socket: Seq<char>, pid: Option<Seq<char>>)
    ensures
        ({
            let (s1, a1) = effective_step_spec(
                EffectiveAuthStateView::Start,
                EffectiveAuthEventView::StateLoaded(Some((socket, pid))),
            );
            &&& a1 == EffectiveAuthActionView::VerifyAgent(socket, pid)
            &&& effective_step_spec(s1, EffectiveAuthEventView::AgentVerified(true)) == (
                EffectiveAuthStateView::Done,
                EffectiveAuthActionView::Finish(Some(socket), pid),
            )
        }),
{
}

/// Without an answering agent of bgit's, the environment's agent is used
/// exactly when its path is a socket and it answers; otherwise none is.
pub proof fn law_env_agent_needs_socket_and_answer(sock: Seq<char>, pid: Option<Seq<char>>, is_socket: bool, answers: bool)
    ensures
        ({
            let (s1, a1) = effective_step_spec(
                EffectiveAuthStateView::ReadingEnv,
                EffectiveAuthEventView::EnvRead(Some(sock), pid),
            );
            let (s2, a2) = effective_step_spec(s1, EffectiveAuthEventView::SocketChecked(is_socket));
            &&& a1 == EffectiveAuthActionView::CheckSocket(sock)
            &&& if !is_socket {
                a2 == EffectiveAuthActionView::Finish(None, None)
            } else {
                &&& a2 == EffectiveAuthActionView::VerifyAgent(sock, pid)
                &&& effective_step_spec(s2, EffectiveAuthEventView::AgentVerified(answers)).1 == if answers {
                    EffectiveAuthActionView::Finish(Some(sock), pid)
                } else {
                    EffectiveAuthActionView::Finish(None, None)
                }
            }
        }),
{
}

} // verus!
