use bgit::ssh::unix::{AgentReadyAction, AgentReadyEvent, AgentReadyState, SocketKind, UnixSshAgentManager};
use bgit::ssh::windows::{WindowsAgentAction, WindowsSshAgentManager};
use bgit::ssh::{
    effective_auth_start, effective_auth_step, get_bgit_agent_paths, parse_agent_env, parse_ssh_agent_output,
    ssh_add_list_result, BgitSshAgentState, EffectiveAuthAction, EffectiveAuthEvent,
};

const AGENT_OUTPUT: &str = "SSH_AUTH_SOCK=/tmp/ssh-XYZ/agent.1; export SSH_AUTH_SOCK;\nSSH_AGENT_PID=4242; export SSH_AGENT_PID;\necho Agent pid 4242;\n";

fn lookup<'a>(env: &'a [(String, String)], key: &str) -> Option<&'a str> {
    env.iter().find(|(k, _)| k == key).map(|(_, v)| v.as_str())
}

#[test]
fn agent_output_sets_socket_and_pid() {
    let env = parse_ssh_agent_output(AGENT_OUTPUT);
    assert_eq!(env.len(), 2);
    assert_eq!(lookup(&env, "SSH_AUTH_SOCK"), Some("/tmp/ssh-XYZ/agent.1"));
    assert_eq!(lookup(&env, "SSH_AGENT_PID"), Some("4242"));
}

#[test]
fn agent_output_last_setting_wins() {
    let env = parse_ssh_agent_output("SSH_AGENT_PID=1;\nSSH_AGENT_PID=2;\nFOO=bar;\nno equals SSH_AUTH_SOCK\n");
    assert_eq!(env.len(), 1);
    assert_eq!(lookup(&env, "SSH_AGENT_PID"), Some("2"));
}

#[test]
fn agent_env_parsing_and_errors() {
    let (sock, pid) = parse_agent_env(AGENT_OUTPUT).unwrap();
    assert_eq!(sock, "/tmp/ssh-XYZ/agent.1");
    assert_eq!(pid, "4242");
    assert_eq!(parse_agent_env("nothing here").unwrap_err(), "Failed to parse SSH_AUTH_SOCK");
    assert_eq!(parse_agent_env("SSH_AUTH_SOCK=/s;").unwrap_err(), "Failed to parse SSH_AGENT_PID");
}

#[test]
fn ssh_add_listing() {
    let out = "256 SHA256:abc user@host (ED25519)\n\n3072 SHA256:def other (RSA)\n";
    assert_eq!(ssh_add_list_result(true, out, "").unwrap(), 2);
    assert_eq!(ssh_add_list_result(true, "The agent has no identities.\n", "").unwrap(), 0);
    assert_eq!(
        ssh_add_list_result(false, "", "Could not open a connection to your authentication agent.").unwrap_err(),
        "ssh-agent not reachable"
    );
    assert_eq!(ssh_add_list_result(false, "", "boom").unwrap_err(), "ssh-add -l failed: boom");
}

#[test]
fn agent_paths_and_state() {
    let (sock, pid) = get_bgit_agent_paths(Some("/home/ann"));
    assert_eq!(sock, "/home/ann/.ssh/bgit_ssh_agent.sock");
    assert_eq!(pid, "/home/ann/.ssh/bgit_ssh_agent.sock.pid");
    let (sock, _) = get_bgit_agent_paths(None);
    assert_eq!(sock, ".ssh/bgit_ssh_agent.sock");
    let st = BgitSshAgentState::load("/s", true, true, true, Some(" 42\n")).unwrap();
    assert_eq!(st.socket_path, "/s");
    assert_eq!(st.pid.as_deref(), Some("42"));
    assert!(BgitSshAgentState::load("/s", true, true, true, Some("  ")).is_none());
    assert!(BgitSshAgentState::load("/s", true, false, true, Some("1")).is_none());
    assert!(BgitSshAgentState::load("/s", true, true, false, Some("1")).is_none());
    assert!(BgitSshAgentState::load("/s", true, true, true, None).is_none());
}

#[test]
fn effective_auth_prefers_working_bgit_agent() {
    let (s, a) = effective_auth_start();
    assert!(matches!(a, EffectiveAuthAction::LoadState));
    let state = BgitSshAgentState { socket_path: "/s".to_string(), pid: Some("7".to_string()) };
    let (s, a) = effective_auth_step(s, EffectiveAuthEvent::StateLoaded(Some(state)));
    assert!(matches!(a, EffectiveAuthAction::VerifyAgent(ref p, Some(ref q)) if p == "/s" && q == "7"));
    let (_, a) = effective_auth_step(s, EffectiveAuthEvent::AgentVerified(true));
    assert!(matches!(a, EffectiveAuthAction::Finish(Some(ref p), Some(ref q)) if p == "/s" && q == "7"));
}

#[test]
fn effective_auth_falls_back_to_environment() {
    let (s, _) = effective_auth_start();
    let (s, a) = effective_auth_step(s, EffectiveAuthEvent::StateLoaded(None));
    assert!(matches!(a, EffectiveAuthAction::ReadEnv));
    let (s, a) = effective_auth_step(s, EffectiveAuthEvent::EnvRead(Some("/e".to_string()), None));
    assert!(matches!(a, EffectiveAuthAction::CheckSocket(ref p) if p == "/e"));
    let (s2, a) = effective_auth_step(s.clone(), EffectiveAuthEvent::SocketChecked(false));
    assert!(matches!(a, EffectiveAuthAction::Finish(None, None)));
    let _ = s2;
    let (s, a) = effective_auth_step(s, EffectiveAuthEvent::SocketChecked(true));
    assert!(matches!(a, EffectiveAuthAction::VerifyAgent(ref p, None) if p == "/e"));
    let (_, a) = effective_auth_step(s, EffectiveAuthEvent::AgentVerified(false));
    assert!(matches!(a, EffectiveAuthAction::Finish(None, None)));
}

#[test]
fn unix_agent_ready_keeps_working_environment_agent() {
    let (s, a) = UnixSshAgentManager::start();
    assert!(matches!(a, AgentReadyAction::ProbeEnvAgent));
    let (s, a) = UnixSshAgentManager::ensure_agent_ready(s, AgentReadyEvent::EnvAgent(true));
    assert_eq!(s, AgentReadyState::Done);
    assert!(matches!(a, AgentReadyAction::Finish));
}

#[test]
fn unix_agent_ready_replaces_stale_socket_and_starts_agent() {
    let (s, _) = UnixSshAgentManager::start();
    let (s, a) = UnixSshAgentManager::ensure_agent_ready(s, AgentReadyEvent::EnvAgent(false));
    assert!(matches!(a, AgentReadyAction::InspectSocket));
    let (s, a) = UnixSshAgentManager::ensure_agent_ready(s, AgentReadyEvent::Socket(SocketKind::Socket));
    assert!(matches!(a, AgentReadyAction::ProbeAgent));
    let (s, a) = UnixSshAgentManager::ensure_agent_ready(s, AgentReadyEvent::Probed(false));
    assert!(matches!(a, AgentReadyAction::RemoveSocket));
    let (s, a) = UnixSshAgentManager::ensure_agent_ready(s, AgentReadyEvent::Removed);
    assert!(matches!(a, AgentReadyAction::UseSocket));
    let (s, a) = UnixSshAgentManager::ensure_agent_ready(s, AgentReadyEvent::SocketUsed);
    assert!(matches!(a, AgentReadyAction::InspectSocket));
    let (s, a) = UnixSshAgentManager::ensure_agent_ready(s, AgentReadyEvent::Socket(SocketKind::Missing));
    assert!(matches!(a, AgentReadyAction::StartDetached));
    let (s, a) = UnixSshAgentManager::ensure_agent_ready(s, AgentReadyEvent::Started);
    assert!(matches!(a, AgentReadyAction::InspectSocket));
    assert_eq!(s, AgentReadyState::Polling(0));
    let (s, a) = UnixSshAgentManager::ensure_agent_ready(s, AgentReadyEvent::Socket(SocketKind::Socket));
    assert_eq!(s, AgentReadyState::Done);
    assert!(matches!(a, AgentReadyAction::Finish));
}

#[test]
fn unix_agent_ready_gives_up_waiting_after_twenty_polls() {
    let mut s = AgentReadyState::Polling(0);
    let mut polls = 0;
    loop {
        let (s2, a) = UnixSshAgentManager::ensure_agent_ready(s, AgentReadyEvent::Socket(SocketKind::Missing));
        polls += 1;
        assert!(matches!(a, AgentReadyAction::Sleep));
        let (s3, a) = UnixSshAgentManager::ensure_agent_ready(s2, AgentReadyEvent::Slept);
        s = s3;
        match a {
            AgentReadyAction::InspectSocket => continue,
            AgentReadyAction::SpawnAndParse => break,
            _ => panic!("unexpected action"),
        }
    }
    assert_eq!(polls, 20);
    let (s, a) = UnixSshAgentManager::ensure_agent_ready(
        s,
        AgentReadyEvent::Parsed(Some(("/x".to_string(), "9".to_string()))),
    );
    assert!(matches!(a, AgentReadyAction::SetEnv(ref p, ref q) if p == "/x" && q == "9"));
    let (s, a) = UnixSshAgentManager::ensure_agent_ready(s, AgentReadyEvent::EnvSet);
    assert_eq!(s, AgentReadyState::Done);
    assert!(matches!(a, AgentReadyAction::Finish));
}

#[test]
fn unix_detached_agent_command() {
    assert_eq!(
        UnixSshAgentManager::detached_agent_command(true, true, Some("/s")),
        vec!["setsid", "ssh-agent", "-a", "/s", "-D"]
    );
    assert_eq!(UnixSshAgentManager::detached_agent_command(false, true, None), vec!["nohup", "ssh-agent", "-D"]);
    assert_eq!(UnixSshAgentManager::detached_agent_command(false, false, None), vec!["ssh-agent", "-D"]);
    assert!(UnixSshAgentManager::retry_without_socket(true, true));
    assert!(!UnixSshAgentManager::retry_without_socket(true, false));
}

#[test]
fn windows_and_unsupported_agents() {
    assert_eq!(WindowsSshAgentManager::ensure_agent_ready(true), WindowsAgentAction::Ready);
    assert_eq!(WindowsSshAgentManager::ensure_agent_ready(false), WindowsAgentAction::Spawn);
    assert_eq!(
        WindowsSshAgentManager::spawn_outcome(Err("no such file".to_string())).unwrap_err(),
        "Failed to spawn ssh-agent: no such file"
    );
    let e = bgit::ssh::unsupported::ensure_agent_ready().unwrap_err();
    assert_eq!(e.name, "SSH agent unsupported");
    assert_eq!(e.message, "SSH agent not supported on this platform");
}
