use base64::Engine;
use bgit::error::BGitErrorWorkflowType;
use bgit::global_config::{
    config_file_error, decode_b64_opt, global_config_path, join_path, repo_config_path, BGitGlobalConfig,
    ConfigFileFailure, PreferredAuth,
};

#[test]
fn test_global_google_api_key_decoding() {
    let key_plain = "my-google-api-key-123";
    let key_b64 = base64::engine::general_purpose::STANDARD.encode(key_plain.as_bytes());
    let decoded = decode_b64_opt(Some(key_b64)).unwrap();
    assert_eq!(decoded.as_deref(), Some(key_plain));
    let mut cfg = BGitGlobalConfig::default();
    cfg.integrations.google_api_key = decoded;
    assert_eq!(cfg.get_google_api_key(), Some(key_plain));
}

#[test]
fn test_global_defaults_from_empty() {
    let cfg = BGitGlobalConfig::default();
    assert_eq!(cfg.auth.preferred, PreferredAuth::RepositoryURLBased);
    assert!(cfg.integrations.google_api_key.is_none());
    assert!(cfg.get_google_api_key().is_none());
}

#[test]
fn test_global_google_api_key_invalid_base64() {
    let err = decode_b64_opt(Some("not_base64!".to_string())).unwrap_err();
    assert!(err.contains("Invalid base64"));
}

#[test]
fn test_global_https_pat_decoding() {
    let user = "alice";
    let pat_plain = "tok_123";
    let pat_b64 = base64::engine::general_purpose::STANDARD.encode(pat_plain.as_bytes());
    let mut cfg = BGitGlobalConfig::default();
    cfg.auth.preferred = PreferredAuth::Https;
    cfg.auth.https.username = Some(user.to_string());
    cfg.auth.https.pat = decode_b64_opt(Some(pat_b64)).unwrap();
    let creds = cfg.get_https_credentials().unwrap();
    assert_eq!(creds.0, user);
    assert_eq!(creds.1, pat_plain);
}

#[test]
fn global_empty_or_missing_secret_is_none() {
    assert_eq!(decode_b64_opt(None).unwrap(), None);
    assert_eq!(decode_b64_opt(Some(String::new())).unwrap(), None);
}

#[test]
fn global_non_utf8_secret_is_refused() {
    let b64 = base64::engine::general_purpose::STANDARD.encode([0xffu8, 0xfe]);
    let err = decode_b64_opt(Some(b64)).unwrap_err();
    assert!(err.starts_with("base64 decodes to non-UTF8: "));
}

#[test]
fn global_https_credentials_need_both() {
    let mut cfg = BGitGlobalConfig::default();
    cfg.auth.https.username = Some("bob".to_string());
    assert!(cfg.get_https_credentials().is_none());
    cfg.auth.https.pat = Some(String::new());
    assert!(cfg.get_https_credentials().is_none());
}

#[test]
fn global_ssh_key_file_expands_home() {
    let mut cfg = BGitGlobalConfig::default();
    cfg.auth.ssh.key_file = Some("~/.ssh/id_work".to_string());
    assert_eq!(
        cfg.ssh_key_file_with_home(Some("/home/ann")).as_deref(),
        Some("/home/ann/.ssh/id_work")
    );
    assert_eq!(cfg.ssh_key_file_with_home(None).as_deref(), Some("~/.ssh/id_work"));
    cfg.auth.ssh.key_file = Some("/keys/k".to_string());
    assert_eq!(cfg.ssh_key_file_with_home(Some("/home/ann")).as_deref(), Some("/keys/k"));
}

#[test]
fn global_config_path_prefers_appdata_then_xdg_then_home() {
    assert_eq!(global_config_path(Some("C:/Users/u/AppData"), Some("/x"), Some("/home/u")), "C:/Users/u/AppData/bgit/config.toml");
    assert_eq!(global_config_path(None, Some("/home/u/.cfg"), Some("/home/u")), "/home/u/.cfg/bgit/config.toml");
    assert_eq!(global_config_path(None, None, Some("/home/u")), "/home/u/.config/bgit/config.toml");
    assert_eq!(global_config_path(None, None, None), "./.config/bgit/config.toml");
}

#[test]
fn repo_config_path_is_under_dot_bgit() {
    assert_eq!(repo_config_path("/work/repo"), "/work/repo/.bgit/config.toml");
    assert_eq!(repo_config_path("/work/repo/"), "/work/repo/.bgit/config.toml");
}

#[test]
fn join_path_keeps_absolute_rest_and_single_slash() {
    assert_eq!(join_path("/a", "b"), "/a/b");
    assert_eq!(join_path("/a/", "b"), "/a/b");
    assert_eq!(join_path("/a", "/b"), "/b");
    assert_eq!(join_path("", "b"), "b");
}

#[test]
fn config_file_errors_name_the_failure() {
    let e = config_file_error(ConfigFileFailure::Read, false, "/r/.bgit/config.toml", "denied");
    assert_eq!(e.name, "Failed to read config file");
    assert_eq!(e.message, "Could not read /r/.bgit/config.toml: denied");
    assert_eq!(e.workflow_type, BGitErrorWorkflowType::Config);
    let e = config_file_error(ConfigFileFailure::Parse, true, "/h/config.toml", "bad key");
    assert_eq!(e.name, "Failed to parse global config file");
    assert_eq!(e.message, "Invalid TOML in /h/config.toml: bad key");
    assert!(e.step.is_empty() && e.event.is_empty() && e.rule.is_empty());
}
