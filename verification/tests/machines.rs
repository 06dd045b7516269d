use bgit::auth::{key_should_be_added, ssh_auth_start, ssh_auth_step, KeysAdded, SshAuthAction, SshAuthEvent, SshAuthState};
use bgit::ssh::{
    effective_auth_start, effective_auth_step, BgitSshAgentState, EffectiveAuthAction, EffectiveAuthEvent,
    EffectiveAuthState,
};

fn finish(a: &EffectiveAuthAction) -> Option<(Option<String>, Option<String>)> {
    match a {
        EffectiveAuthAction::Finish(s, p) => Some((s.clone(), p.clone())),
        _ => None,
    }
}

#[test]
fn own_agent_is_used_when_it_answers() {
    let (s, a) = effective_auth_start();
    assert!(matches!(a, EffectiveAuthAction::LoadState));
    let st = BgitSshAgentState { socket_path: "/h/.ssh/bgit.sock".to_string(), pid: Some("42".to_string()) };
    let (s, a) = effective_auth_step(s, EffectiveAuthEvent::StateLoaded(Some(st)));
    assert!(matches!(&s, EffectiveAuthState::VerifyingState(p, Some(q)) if p == "/h/.ssh/bgit.sock" && q == "42"));
    assert!(matches!(&a, EffectiveAuthAction::VerifyAgent(p, _) if p == "/h/.ssh/bgit.sock"));
    let (s, a) = effective_auth_step(s, EffectiveAuthEvent::AgentVerified(true));
    assert!(matches!(s, EffectiveAuthState::Done));
    assert_eq!(finish(&a), Some((Some("/h/.ssh/bgit.sock".to_string()), Some("42".to_string()))));
}

#[test]
fn dead_own_agent_falls_back_to_environment_socket() {
    let (s, _) = effective_auth_start();
    let st = BgitSshAgentState { socket_path: "/h/b.sock".to_string(), pid: None };
    let (s, _) = effective_auth_step(s, EffectiveAuthEvent::StateLoaded(Some(st)));
    let (s, a) = effective_auth_step(s, EffectiveAuthEvent::AgentVerified(false));
    assert!(matches!(a, EffectiveAuthAction::CleanupState));
    let (s, a) = effective_auth_step(s, EffectiveAuthEvent::CleanedUp);
    assert!(matches!(a, EffectiveAuthAction::ReadEnv));
    let (s, a) = effective_auth_step(s, EffectiveAuthEvent::EnvRead(Some("/tmp/a.sock".to_string()), Some("7".to_string())));
    assert!(matches!(&a, EffectiveAuthAction::CheckSocket(p) if p == "/tmp/a.sock"));
    let (s, a) = effective_auth_step(s, EffectiveAuthEvent::SocketChecked(true));
    assert!(matches!(&a, EffectiveAuthAction::VerifyAgent(p, Some(q)) if p == "/tmp/a.sock" && q == "7"));
    let (_, a) = effective_auth_step(s, EffectiveAuthEvent::AgentVerified(true));
    assert_eq!(finish(&a), Some((Some("/tmp/a.sock".to_string()), Some("7".to_string()))));
}

#[test]
fn environment_path_that_is_no_socket_gives_no_agent() {
    let (s, _) = effective_auth_start();
    let (s, _) = effective_auth_step(s, EffectiveAuthEvent::StateLoaded(None));
    let (s, _) = effective_auth_step(s, EffectiveAuthEvent::EnvRead(Some("/tmp/file".to_string()), None));
    let (s, a) = effective_auth_step(s, EffectiveAuthEvent::SocketChecked(false));
    assert!(matches!(s, EffectiveAuthState::Done));
    assert_eq!(finish(&a), Some((None, None)));
}

fn fail_text(a: &SshAuthAction) -> Option<String> {
    match a {
        SshAuthAction::Fail(m) => Some(m.clone()),
        _ => None,
    }
}

#[test]
fn ssh_auth_refuses_and_fails_early() {
    let (_, a) = ssh_auth_start(4, true, true);
    assert_eq!(fail_text(&a).as_deref(), Some("Too many authentication attempts"));
    let (_, a) = ssh_auth_start(1, false, true);
    assert_eq!(fail_text(&a).as_deref(), Some("Authentication failed - attempt 1"));
    let (_, a) = ssh_auth_start(2, true, false);
    assert_eq!(fail_text(&a).as_deref(), Some("Authentication failed - attempt 2"));
}

#[test]
fn ssh_auth_adds_keys_to_an_empty_agent_and_offers_the_new_key() {
    let (s, a) = ssh_auth_start(1, true, true);
    assert!(matches!(a, SshAuthAction::EnsureAgent));
    let (s, a) = ssh_auth_step(1, s, SshAuthEvent::AgentReady(true));
    assert!(matches!(a, SshAuthAction::CountIdentities));
    let (s, a) = ssh_auth_step(1, s, SshAuthEvent::IdentityCount(0));
    assert!(matches!(a, SshAuthAction::AddKeys));
    let (s, a) = ssh_auth_step(1, s, SshAuthEvent::KeysAdded(Some("/h/.ssh/id_rsa".to_string())));
    assert!(matches!(a, SshAuthAction::TryAgent));
    let (s, a) = ssh_auth_step(1, s, SshAuthEvent::AgentAuth(true));
    assert!(matches!(a, SshAuthAction::ReadKeyFile));
    let (s2, a2) = ssh_auth_step(1, s, SshAuthEvent::KeyFileRead(Some("/h/.ssh//id_rsa".to_string())));
    assert!(matches!(s2, SshAuthState::Done));
    assert!(matches!(a2, SshAuthAction::Succeed(None)));
}

#[test]
fn ssh_auth_offers_key_when_configured_differs_and_fails_when_agent_refuses() {
    let (s, _) = ssh_auth_start(0, true, true);
    let (s, _) = ssh_auth_step(0, s, SshAuthEvent::AgentReady(true));
    let (s, _) = ssh_auth_step(0, s, SshAuthEvent::IdentityCount(0));
    let (s, _) = ssh_auth_step(0, s, SshAuthEvent::KeysAdded(Some("/h/.ssh/id_ed25519".to_string())));
    let (s, _) = ssh_auth_step(0, s, SshAuthEvent::AgentAuth(true));
    let (_, a) = ssh_auth_step(0, s, SshAuthEvent::KeyFileRead(Some("/h/.ssh/id_rsa".to_string())));
    assert!(matches!(&a, SshAuthAction::Succeed(Some(k)) if k == "/h/.ssh/id_ed25519"));

    let (s, _) = ssh_auth_start(3, true, true);
    let (s, a) = ssh_auth_step(3, s, SshAuthEvent::AgentReady(false));
    assert!(matches!(s, SshAuthState::Done));
    assert!(matches!(a, SshAuthAction::Abort));

    let (s, _) = ssh_auth_start(2, true, true);
    let (s, _) = ssh_auth_step(2, s, SshAuthEvent::AgentReady(true));
    let (s, a) = ssh_auth_step(2, s, SshAuthEvent::IdentityCount(3));
    assert!(matches!(a, SshAuthAction::TryAgent));
    let (_, a) = ssh_auth_step(2, s, SshAuthEvent::AgentAuth(false));
    assert_eq!(fail_text(&a).as_deref(), Some("Authentication failed - attempt 2"));
}

#[test]
fn keys_added_counts_and_keeps_the_first() {
    assert!(key_should_be_added("/h/.ssh/id_rsa", true, true));
    assert!(!key_should_be_added("/h/.ssh/id_rsa.pub", true, true));
    assert!(!key_should_be_added("/h/.ssh/id_rsa", false, false));
    assert!(!key_should_be_added("/h/.ssh/id_rsa", true, false));
    let mut k = KeysAdded::new();
    assert_eq!((k.count, k.first.clone()), (0, None));
    k.record("/h/.ssh/id_ed25519");
    k.record("/h/.ssh/id_rsa");
    assert_eq!(k.count, 2);
    assert_eq!(k.first.as_deref(), Some("/h/.ssh/id_ed25519"));
}
