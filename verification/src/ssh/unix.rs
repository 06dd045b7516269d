//! Getting an SSH agent ready on Unix: keep a working agent, else bind one
//! to bgit's socket in `~/.ssh`, else start one and read where it listens.
//!
//! The decisions are a state machine; the app does the work each action
//! names and hands back what it observed.
use vstd::prelude::*;
use vstd::string::*;

use crate::text::views;

verus! {

pub struct UnixSshAgentManager;

/// What is at the socket path.
#[derive(Debug, Clone, Copy, PartialEq, Eq, Structural)]
pub enum SocketKind {
    Missing,
    Socket,
    Other,
}

/// How far getting the agent ready has come.
#[derive(Debug, Clone, Copy, PartialEq, Eq, Structural)]
pub enum AgentReadyState {
    /// Waiting to learn whether the agent the environment names answers.
    ProbingEnv,
    /// Waiting to learn what is at bgit's socket path.
    CheckingStale,
    /// Waiting to learn whether the agent at bgit's socket answers.
    ProbingStale,
    /// Waiting for a stale socket to be removed.
    RemovingStale,
    /// Waiting for `SSH_AUTH_SOCK` to name bgit's socket.
    SettingSocket,
    /// Waiting to learn whether bgit's socket is there now.
    CheckingAlive,
    /// Waiting to learn whether the agent at bgit's socket answers now.
    ProbingAlive,
    /// Waiting for an agent bound to bgit's socket to be started.
    Starting,
    /// Waiting to learn whether the socket has appeared, after this many waits.
    Polling(u32),
    /// Waiting for a pause to end; this many pauses have been asked for.
    Sleeping(u32),
    /// Waiting for a plain agent to be started and its output read.
    Parsing,
    /// Waiting for the announced socket and process id to be exported.
    SettingEnv,
    /// Finished.
    Done,
}

/// The work the app does next.
#[derive(Debug, Clone)]
pub enum AgentReadyAction {
    /// Tell whether `SSH_AUTH_SOCK` is set and `ssh-add -l` succeeds.
    ProbeEnvAgent,
    /// Tell what is at bgit's socket path.
    InspectSocket,
    /// Tell whether `ssh-add -l` succeeds.
    ProbeAgent,
    /// Remove the file at bgit's socket path.
    RemoveSocket,
    /// Set `SSH_AUTH_SOCK` to bgit's socket path.
    UseSocket,
    /// Start an agent bound to bgit's socket, detached.
    StartDetached,
    /// Pause for 100 ms.
    Sleep,
    /// Start `ssh-agent` and read the socket and process id it announces.
    SpawnAndParse,
    /// Set `SSH_AUTH_SOCK` and `SSH_AGENT_PID` to these.
    SetEnv(String, String),
    /// The agent is as ready as it gets; this never fails.
    Finish,
}

/// What the app observed.
#[derive(Debug, Clone)]
pub enum AgentReadyEvent {
    EnvAgent(bool),
    Socket(SocketKind),
    Probed(bool),
    Removed,
    SocketUsed,
    Started,
    Slept,
    Parsed(Option<(String, String)>),
    EnvSet,
}

/// The mathematical content of an action.
pub enum AgentReadyActionView {
    ProbeEnvAgent,
    InspectSocket,
    ProbeAgent,
    RemoveSocket,
    UseSocket,
    StartDetached,
    Sleep,
    SpawnAndParse,
    SetEnv(Seq<char>, Seq<char>),
    Finish,
}

impl View for AgentReadyAction {
    type V = AgentReadyActionView;

    open spec fn view(&self) -> AgentReadyActionView {
        match self {
            AgentReadyAction::ProbeEnvAgent => AgentReadyActionView::ProbeEnvAgent,
            AgentReadyAction::InspectSocket => AgentReadyActionView::InspectSocket,
            AgentReadyAction::ProbeAgent => AgentReadyActionView::ProbeAgent,
            AgentReadyAction::RemoveSocket => AgentReadyActionView::RemoveSocket,
            AgentReadyAction::UseSocket => AgentReadyActionView::UseSocket,
            AgentReadyAction::StartDetached => AgentReadyActionView::StartDetached,
            AgentReadyAction::Sleep => AgentReadyActionView::Sleep,
            AgentReadyAction::SpawnAndParse => AgentReadyActionView::SpawnAndParse,
            AgentReadyAction::SetEnv(s, p) => AgentReadyActionView::SetEnv(s@, p@),
            AgentReadyAction::Finish => AgentReadyActionView::Finish,
        }
    }
}

/// The mathematical content of an event.
pub enum AgentReadyEventView {
    EnvAgent(bool),
    Socket(SocketKind),
    Probed(bool),
    Removed,
    SocketUsed,
    Started,
    Slept,
    Parsed(Option<(Seq<char>, Seq<char>)>),
    EnvSet,
}

impl View for AgentReadyEvent {
    type V = AgentReadyEventView;

    open spec fn view(&self) -> AgentReadyEventView {
        match self {
            AgentReadyEvent::EnvAgent(b) => AgentReadyEventView::EnvAgent(*b),
            AgentReadyEvent::Socket(k) => AgentReadyEventView::Socket(*k),
            AgentReadyEvent::Probed(b) => AgentReadyEventView::Probed(*b),
            AgentReadyEvent::Removed => AgentReadyEventView::Removed,
            AgentReadyEvent::SocketUsed => AgentReadyEventView::SocketUsed,
            AgentReadyEvent::Started => AgentReadyEventView::Started,
            AgentReadyEvent::Slept => AgentReadyEventView::Slept,
            AgentReadyEvent::Parsed(o) => AgentReadyEventView::Parsed(match o {
                Some((s, p)) => Some((s@, p@)),
                None => None,
            }),
            AgentReadyEvent::EnvSet => AgentReadyEventView::EnvSet,
        }
    }
}

/// The number of times the app looks for the socket after starting an agent.
pub const SOCKET_POLLS: u32 = 20;

/// The states the machine can be in.
pub open spec fn ready_state_wf(s: AgentReadyState) -> bool {
    match s {
        AgentReadyState::Polling(n) => n < SOCKET_POLLS,
        AgentReadyState::Sleeping(k) => 1 <= k <= SOCKET_POLLS,
        _ => true,
    }
}

/// A bound on the work left from a state.
pub open spec fn ready_rank(s: AgentReadyState) -> int {
    match s {
        AgentReadyState::ProbingEnv => 51,
        AgentReadyState::CheckingStale => 50,
        AgentReadyState::ProbingStale => 49,
        AgentReadyState::RemovingStale => 48,
        AgentReadyState::SettingSocket => 47,
        AgentReadyState::CheckingAlive => 46,
        AgentReadyState::ProbingAlive => 45,
        AgentReadyState::Starting => 44,
        AgentReadyState::Polling(n) => 3 + 2 * (SOCKET_POLLS - n),
        AgentReadyState::Sleeping(k) => 4 + 2 * (SOCKET_POLLS - k),
        AgentReadyState::Parsing => 3,
        AgentReadyState::SettingEnv => 2,
        AgentReadyState::Done => 0,
    }
}

/// One decision: the next state and action for a state and what was
/// observed. An event that the state does not wait for finishes the run.
pub open spec fn ready_step_spec(s: AgentReadyState, e: AgentReadyEventView) -> (AgentReadyState, AgentReadyActionView) {
    match (s, e) {
        (AgentReadyState::ProbingEnv, AgentReadyEventView::EnvAgent(true)) => (AgentReadyState::Done, AgentReadyActionView::Finish),
        (AgentReadyState::ProbingEnv, AgentReadyEventView::EnvAgent(false)) => (AgentReadyState::CheckingStale, AgentReadyActionView::InspectSocket),
        (AgentReadyState::CheckingStale, AgentReadyEventView::Socket(SocketKind::Missing)) => (AgentReadyState::SettingSocket, AgentReadyActionView::UseSocket),
        (AgentReadyState::CheckingStale, AgentReadyEventView::Socket(SocketKind::Socket)) => (AgentReadyState::ProbingStale, AgentReadyActionView::ProbeAgent),
        (AgentReadyState::CheckingStale, AgentReadyEventView::Socket(SocketKind::Other)) => (AgentReadyState::RemovingStale, AgentReadyActionView::RemoveSocket),
        (AgentReadyState::ProbingStale, AgentReadyEventView::Probed(true)) => (AgentReadyState::SettingSocket, AgentReadyActionView::UseSocket),
        (AgentReadyState::ProbingStale, AgentReadyEventView::Probed(false)) => (AgentReadyState::RemovingStale, AgentReadyActionView::RemoveSocket),
        (AgentReadyState::RemovingStale, AgentReadyEventView::Removed) => (AgentReadyState::SettingSocket, AgentReadyActionView::UseSocket),
        (AgentReadyState::SettingSocket, AgentReadyEventView::SocketUsed) => (AgentReadyState::CheckingAlive, AgentReadyActionView::InspectSocket),
        (AgentReadyState::CheckingAlive, AgentReadyEventView::Socket(SocketKind::Socket)) => (AgentReadyState::ProbingAlive, AgentReadyActionView::ProbeAgent),
        (AgentReadyState::CheckingAlive, AgentReadyEventView::Socket(_)) => (AgentReadyState::Starting, AgentReadyActionView::StartDetached),
        (AgentReadyState::ProbingAlive, AgentReadyEventView::Probed(true)) => (AgentReadyState::Done, AgentReadyActionView::Finish),
        (AgentReadyState::ProbingAlive, AgentReadyEventView::Probed(false)) => (AgentReadyState::Starting, AgentReadyActionView::StartDetached),
        (AgentReadyState::Starting, AgentReadyEventView::Started) => (AgentReadyState::Polling(0), AgentReadyActionView::InspectSocket),
        (AgentReadyState::Polling(_), AgentReadyEventView::Socket(SocketKind::Socket)) => (AgentReadyState::Done, AgentReadyActionView::Finish),
        (AgentReadyState::Polling(n), AgentReadyEventView::Socket(_)) => (AgentReadyState::Sleeping((n + 1) as u32), AgentReadyActionView::Sleep),
        (AgentReadyState::Sleeping(k), AgentReadyEventView::Slept) => if k < SOCKET_POLLS {
            (AgentReadyState::Polling(k), AgentReadyActionView::InspectSocket)
        } else {
            (AgentReadyState::Parsing, AgentReadyActionView::SpawnAndParse)
        },
        (AgentReadyState::Parsing, AgentReadyEventView::Parsed(Some((s, p)))) => (AgentReadyState::SettingEnv, AgentReadyActionView::SetEnv(s, p)),
        (AgentReadyState::Parsing, AgentReadyEventView::Parsed(None)) => (AgentReadyState::Done, AgentReadyActionView::Finish),
        (AgentReadyState::SettingEnv, AgentReadyEventView::EnvSet) => (AgentReadyState::Done, AgentReadyActionView::Finish),
        _ => (AgentReadyState::Done, AgentReadyActionView::Finish),
    }
}

impl UnixSshAgentManager {
    /// Starts getting the agent ready: first ask whether the agent the
    /// environment names already answers.
    pub fn start() -> (r: (AgentReadyState, AgentReadyAction))
        ensures
            r.0 == AgentReadyState::ProbingEnv,
            r.1@ is ProbeEnvAgent,
    {
        (AgentReadyState::ProbingEnv, AgentReadyAction::ProbeEnvAgent)
    }

    /// One decision of getting the agent ready. Each step either finishes or
    /// moves to a state with less work left, so the run ends; it never ends
    /// in an error.
    pub fn ensure_agent_ready(state: AgentReadyState, event: AgentReadyEvent) -> (r: (AgentReadyState, AgentReadyAction))
        requires
            ready_state_wf(state),
        ensures
            (r.0, r.1@) == ready_step_spec(state, event@),
            ready_state_wf(r.0),
            r.1@ is Finish || ready_rank(r.0) < ready_rank(state),
            r.1@ is Finish <==> r.0 == AgentReadyState::Done,
    {
        match (state, event) {
            (AgentReadyState::ProbingEnv, AgentReadyEvent::EnvAgent(ok)) => if ok {
                (AgentReadyState::Done, AgentReadyAction::Finish)
            } else {
                (AgentReadyState::CheckingStale, AgentReadyAction::InspectSocket)
            },
            (AgentReadyState::CheckingStale, AgentReadyEvent::Socket(k)) => match k {
                SocketKind::Missing => (AgentReadyState::SettingSocket, AgentReadyAction::UseSocket),
                SocketKind::Socket => (AgentReadyState::ProbingStale, AgentReadyAction::ProbeAgent),
                SocketKind::Other => (AgentReadyState::RemovingStale, AgentReadyAction::RemoveSocket),
            },
            (AgentReadyState::ProbingStale, AgentReadyEvent::Probed(alive)) => if alive {
                (AgentReadyState::SettingSocket, AgentReadyAction::UseSocket)
            } else {
                (AgentReadyState::RemovingStale, AgentReadyAction::RemoveSocket)
            },
            (AgentReadyState::RemovingStale, AgentReadyEvent::Removed) => (AgentReadyState::SettingSocket, AgentReadyAction::UseSocket),
            (AgentReadyState::SettingSocket, AgentReadyEvent::SocketUsed) => (AgentReadyState::CheckingAlive, AgentReadyAction::InspectSocket),
            (AgentReadyState::CheckingAlive, AgentReadyEvent::Socket(k)) => match k {
                SocketKind::Socket => (AgentReadyState::ProbingAlive, AgentReadyAction::ProbeAgent),
                _ => (AgentReadyState::Starting, AgentReadyAction::StartDetached),
            },
            (AgentReadyState::ProbingAlive, AgentReadyEvent::Probed(alive)) => if alive {
                (AgentReadyState::Done, AgentReadyAction::Finish)
            } else {
                (AgentReadyState::Starting, AgentReadyAction::StartDetached)
            },
            (AgentReadyState::Starting, AgentReadyEvent::Started) => (AgentReadyState::Polling(0), AgentReadyAction::InspectSocket),
            (AgentReadyState::Polling(n), AgentReadyEvent::Socket(k)) => match k {
                SocketKind::Socket => (AgentReadyState::Done, AgentReadyAction::Finish),
                _ => (AgentReadyState::Sleeping(n + 1), AgentReadyAction::Sleep),
            },
            (AgentReadyState::Sleeping(k), AgentReadyEvent::Slept) => if k < SOCKET_POLLS {
                (AgentReadyState::Polling(k), AgentReadyAction::InspectSocket)
            } else {
                (AgentReadyState::Parsing, AgentReadyAction::SpawnAndParse)
            },
            (AgentReadyState::Parsing, AgentReadyEvent::Parsed(parsed)) => match parsed {
                Some((s, p)) => (AgentReadyState::SettingEnv, AgentReadyAction::SetEnv(s, p)),
                None => (AgentReadyState::Done, AgentReadyAction::Finish),
            },
            (AgentReadyState::SettingEnv, AgentReadyEvent::EnvSet) => (AgentReadyState::Done, AgentReadyAction::Finish),
            _ => (AgentReadyState::Done, AgentReadyAction::Finish),
        }
    }

    /// The command that starts an agent without bgit as its parent: through
    /// `setsid` when there is one, else `nohup`, else directly; bound to
    /// `socket` when one is given, kept in the foreground (`-D`).
    pub fn detached_agent_command(has_setsid: bool, has_nohup: bool, socket: Option<&str>) -> (r: Vec<String>)
        ensures
            views(r@) == (if has_setsid {
                seq!["setsid"@, "ssh-agent"@]
            } else if has_nohup {
                seq!["nohup"@, "ssh-agent"@]
            } else {
                seq!["ssh-agent"@]
            }) + (match socket {
                Some(s) => seq!["-a"@, s@, "-D"@],
                None => seq!["-D"@],
            }),
    {
        let mut r: Vec<String> = Vec::new();
        if has_setsid {
            r.push(String::from_str("setsid"));
            r.push(String::from_str("ssh-agent"));
        } else if has_nohup {
            r.push(String::from_str("nohup"));
            r.push(String::from_str("ssh-agent"));
        } else {
            r.push(String::from_str("ssh-agent"));
        }
        match socket {
            Some(s) => {
                r.push(String::from_str("-a"));
                r.push(String::from_str(s));
                r.push(String::from_str("-D"));
            },
            None => {
                r.push(String::from_str("-D"));
            },
        }
        assert(views(r@) =~= (if has_setsid {
            seq!["setsid"@, "ssh-agent"@]
        } else if has_nohup {
            seq!["nohup"@, "ssh-agent"@]
        } else {
            seq!["ssh-agent"@]
        }) + (match socket {
            Some(s) => seq!["-a"@, s@, "-D"@],
            None => seq!["-D"@],
        }));
        r
    }

    /// Whether the plain command is tried after the bound one failed to
    /// spawn: only when a socket was asked for.
    pub fn retry_without_socket(spawn_failed: bool, socket_given: bool) -> (r: bool)
        ensures
            r == (spawn_failed && socket_given),
    {
        spawn_failed && socket_given
    }
}

} // verus!
