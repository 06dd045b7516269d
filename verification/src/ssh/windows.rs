//! Getting an SSH agent ready on Windows, where an existing agent (Pageant
//! or the OpenSSH agent) is relied on.
use vstd::prelude::*;
use vstd::string::*;

verus! {

/// What getting the agent ready needs.
#[derive(Debug, Clone, Copy, PartialEq, Eq, Structural)]
pub enum WindowsAgentAction {
    /// An agent is announced: nothing to do.
    Ready,
    /// Start `ssh-agent` in the background.
    Spawn,
}

pub struct WindowsSshAgentManager;

impl WindowsSshAgentManager {
    /// What to do, from whether `SSH_AUTH_SOCK` is set: start an agent only
    /// when it is not.
    pub fn ensure_agent_ready(ssh_auth_sock_set: bool) -> (r: WindowsAgentAction)
        ensures
            ssh_auth_sock_set ==> r == WindowsAgentAction::Ready,
            !ssh_auth_sock_set ==> r == WindowsAgentAction::Spawn,
    {
        if ssh_auth_sock_set {
            WindowsAgentAction::Ready
        } else {
            WindowsAgentAction::Spawn
        }
    }

    /// The outcome of starting the agent, from the spawn's result (or the
    /// reason it failed).
    pub fn spawn_outcome(spawn: Result<(), String>) -> (r: Result<(), String>)
        ensures
            match spawn {
                Ok(()) => r is Ok,
                Err(d) => r matches Err(m) && m@ == "Failed to spawn ssh-agent: "@ + d@,
            },
    {
        match spawn {
            Ok(()) => Ok(()),
            Err(d) => {
                let mut m = String::from_str("Failed to spawn ssh-agent: ");
                m.append(d.as_str());
                Err(m)
            },
        }
    }
}

} // verus!
