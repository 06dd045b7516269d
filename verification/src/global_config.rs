//! The per-user configuration: preferred authentication, HTTPS credentials,
//! the SSH key file and third-party keys.
//!
//! Secrets (the HTTPS token, API keys) are stored base64-encoded and decoded
//! when the configuration is read, by [`decode_b64_opt`].
use vstd::prelude::*;
use vstd::string::*;
use vstd::utf8::{decode_utf8, valid_utf8};

use crate::text::{chars_of, ends_with, skip, starts_with, str_starts_with, string_from_range};

verus! {

/// Which authentication a remote operation should prefer.
#[derive(Debug, Clone, Copy, PartialEq, Eq, Structural)]
pub enum PreferredAuth {
    RepositoryURLBased,
    Ssh,
    Https,
}

impl Default for PreferredAuth {
    fn default() -> (r: Self)
        ensures
            r == PreferredAuth::RepositoryURLBased,
    {
        PreferredAuth::RepositoryURLBased
    }
}

/// HTTPS credentials.
pub struct HttpsAuth {
    /// Username for HTTPS auth
    pub username: Option<String>,
    /// Personal Access Token (base64-encoded in the file, decoded on load)
    pub pat: Option<String>,
}

impl Default for HttpsAuth {
    fn default() -> (r: Self)
        ensures
            r.username is None,
            r.pat is None,
    {
        HttpsAuth { username: None, pat: None }
    }
}

/// SSH settings.
pub struct SshAuth {
    /// Path to the private key file to use for SSH auth
    pub key_file: Option<String>,
}

impl Default for SshAuth {
    fn default() -> (r: Self)
        ensures
            r.key_file is None,
    {
        SshAuth { key_file: None }
    }
}

/// Authentication settings.
pub struct GlobalAuth {
    /// Preferred authentication method when both are possible.
    pub preferred: PreferredAuth,
    pub https: HttpsAuth,
    pub ssh: SshAuth,
}

impl Default for GlobalAuth {
    fn default() -> (r: Self)
        ensures
            r.preferred == PreferredAuth::RepositoryURLBased,
            r.https.username is None,
            r.https.pat is None,
            r.ssh.key_file is None,
    {
        GlobalAuth {
            preferred: PreferredAuth::RepositoryURLBased,
            https: HttpsAuth::default(),
            ssh: SshAuth::default(),
        }
    }
}

/// Third-party integrations and API keys.
pub struct GlobalIntegrations {
    /// Google API key (base64-encoded in the file, decoded on load)
    pub google_api_key: Option<String>,
}

impl Default for GlobalIntegrations {
    fn default() -> (r: Self)
        ensures
            r.google_api_key is None,
    {
        GlobalIntegrations { google_api_key: None }
    }
}

/// The per-user configuration.
pub struct BGitGlobalConfig {
    pub auth: GlobalAuth,
    pub integrations: GlobalIntegrations,
}

impl Default for BGitGlobalConfig {
    fn default() -> (r: Self)
        ensures
            r.auth.preferred == PreferredAuth::RepositoryURLBased,
            r.auth.https.username is None,
            r.auth.https.pat is None,
            r.auth.ssh.key_file is None,
            r.integrations.google_api_key is None,
    {
        BGitGlobalConfig { auth: GlobalAuth::default(), integrations: GlobalIntegrations::default() }
    }
}

/// `base` joined with `rest` as a Unix path: `rest` itself when it is
/// absolute, else `base`, a `/` where needed, and `rest`.
pub open spec fn path_join(base: Seq<char>, rest: Seq<char>) -> Seq<char> {
    if rest.len() > 0 && rest[0] == '/' {
        rest
    } else if base.len() == 0 || ends_with(base, "/"@) {
        base + rest
    } else {
        base + "/"@ + rest
    }
}

/// The configured key file, with a leading `~/` expanded to `home` when
/// `home` is known.
pub open spec fn expand_key_file(key_file: Option<Seq<char>>, home: Option<Seq<char>>) -> Option<Seq<char>> {
    match key_file {
        None => None,
        Some(p) => if starts_with(p, "~/"@) && home is Some {
            Some(path_join(home->0, skip(p, 2)))
        } else {
            Some(p)
        },
    }
}

pub open spec fn opt_view(o: Option<String>) -> Option<Seq<char>> {
    match o {
        Some(s) => Some(s@),
        None => None,
    }
}

/// `base` joined with `rest` as a Unix path.
pub fn join_path(base: &str, rest: &str) -> (r: String)
    ensures
        r@ == path_join(base@, rest@),
{
    let rv = chars_of(rest);
    if rv.len() > 0 && rv[0] == '/' {
        return String::from_str(rest);
    }
    let bv = chars_of(base);
    let mut out = String::from_str(base);
    let slash = chars_of("/");
    if bv.len() == 0 || crate::text::ends_with_exec(&bv, &slash) {
        out.append(rest);
    } else {
        out.append("/");
        out.append(rest);
    }
    out
}

/// The user's home directory as the `home` crate finds it, when it is valid
/// Unicode. What it is depends on the environment, so nothing is claimed of it.
#[verifier::external_body]
pub(crate) fn home_dir_string() -> (r: Option<String>) {
    match home::home_dir() {
        Some(p) => p.into_os_string().into_string().ok(),
        None => None,
    }
}

/// What `base64::engine::general_purpose::STANDARD.decode` gives for the
/// UTF-8 bytes of `input`: the decoded bytes, or the text of its error.
pub uninterp spec fn base64_standard_decode(input: Seq<char>) -> Result<Seq<u8>, Seq<char>>;

/// `base64::Engine::decode` with the standard alphabet and padding, on the
/// bytes of `input`. The result, and the error's text, depend on the input
/// alone.
#[verifier::external_body]
fn base64_decode(input: &str) -> (r: Result<Vec<u8>, String>)
    ensures
        match (r, base64_standard_decode(input@)) {
            (Ok(bytes), Ok(expected)) => bytes@ == expected,
            (Err(msg), Err(expected)) => msg@ == expected,
            _ => false,
        },
{
    match base64::Engine::decode(&base64::engine::general_purpose::STANDARD, input.as_bytes()) {
        Ok(bytes) => Ok(bytes),
        Err(e) => Err(e.to_string()),
    }
}

/// `String::from_utf8`: the string whose UTF-8 encoding is `bytes`, or, when
/// `bytes` is not valid UTF-8, the text of the error. The error's text
/// (position and length of the invalid sequence) is not stated.
#[verifier::external_body]
fn string_from_utf8(bytes: Vec<u8>) -> (r: Result<String, String>)
    ensures
        r is Ok == valid_utf8(bytes@),
        r matches Ok(s) ==> s@ == decode_utf8(bytes@),
{
    match String::from_utf8(bytes) {
        Ok(s) => Ok(s),
        Err(e) => Err(e.to_string()),
    }
}

/// Decodes an optional base64-encoded string, as the configuration stores
/// secrets: a missing or empty value is no value.
pub fn decode_b64_opt(opt: Option<String>) -> (r: Result<Option<String>, String>)
    ensures
        match opt_view(opt) {
            None => r matches Ok(None),
            Some(s) => if s.len() == 0 {
                r matches Ok(None)
            } else {
                match base64_standard_decode(s) {
                    Err(m) => (r matches Err(msg) && msg@ == "Invalid base64: "@ + m),
                    Ok(bytes) => if valid_utf8(bytes) {
                        (r matches Ok(Some(d)) && d@ == decode_utf8(bytes))
                    } else {
                        (r matches Err(msg) && starts_with(msg@, "base64 decodes to non-UTF8: "@))
                    },
                }
            },
        },
{
    proof {
        reveal_strlit("base64 decodes to non-UTF8: ");
        reveal_strlit("Invalid base64: ");
    }
    match opt {
        None => Ok(None),
        Some(s) => {
            if s.as_str().is_empty() {
                return Ok(None);
            }
            match base64_decode(s.as_str()) {
                Err(m) => {
                    let mut msg = String::from_str("Invalid base64: ");
                    msg.append(m.as_str());
                    Err(msg)
                },
                Ok(bytes) => match string_from_utf8(bytes) {
                    Ok(decoded) => Ok(Some(decoded)),
                    Err(e) => {
                        let mut msg = String::from_str("base64 decodes to non-UTF8: ");
                        msg.append(e.as_str());
                        proof {
                            assert(msg@.subrange(0, "base64 decodes to non-UTF8: "@.len() as int)
                                =~= "base64 decodes to non-UTF8: "@);
                        }
                        Err(msg)
                    },
                },
            }
        },
    }
}

impl BGitGlobalConfig {
    /// The Google API key, if configured.
    pub fn get_google_api_key(&self) -> (r: Option<&str>)
        ensures
            match (r, self.integrations.google_api_key) {
                (Some(k), Some(key)) => k@ == key@,
                (None, None) => true,
                _ => false,
            },
    {
        match &self.integrations.google_api_key {
            Some(k) => Some(k.as_str()),
            None => None,
        }
    }

    /// The HTTPS credentials (username, token), when both are configured and
    /// neither is empty.
    pub fn get_https_credentials(&self) -> (r: Option<(&str, &str)>)
        ensures
            match (self.auth.https.username, self.auth.https.pat) {
                (Some(u), Some(t)) => if u@.len() > 0 && t@.len() > 0 {
                    r matches Some((ru, rt)) && ru@ == u@ && rt@ == t@
                } else {
                    r is None
                },
                _ => r is None,
            },
    {
        match (&self.auth.https.username, &self.auth.https.pat) {
            (Some(u), Some(t)) => {
                if !u.as_str().is_empty() && !t.as_str().is_empty() {
                    Some((u.as_str(), t.as_str()))
                } else {
                    None
                }
            },
            _ => None,
        }
    }

    /// The configured SSH key file, with a leading `~/` expanded to `home`.
    pub fn ssh_key_file_with_home(&self, home: Option<&str>) -> (r: Option<String>)
        ensures
            opt_view(r) == expand_key_file(
                opt_view(self.auth.ssh.key_file),
                match home {
                    Some(h) => Some(h@),
                    None => None,
                },
            ),
    {
        match &self.auth.ssh.key_file {
            None => None,
            Some(p) => {
                if str_starts_with(p.as_str(), "~/") {
                    match home {
                        Some(h) => {
                            proof {
                                reveal_strlit("~/");
                            }
                            let pv = chars_of(p.as_str());
                            let rest = string_from_range(&pv, 2, pv.len());
                            Some(join_path(h, rest.as_str()))
                        },
                        None => Some(p.clone()),
                    }
                } else {
                    Some(p.clone())
                }
            },
        }
    }

    /// The configured SSH key file, with a leading `~/` expanded to the
    /// user's home directory (left as it is when the home directory is
    /// unknown). The result is the configured path, or that expansion for
    /// some home directory.
    pub fn get_ssh_key_file(&self) -> (r: Option<String>)
        ensures
            exists|h: Option<Seq<char>>| opt_view(r) == expand_key_file(opt_view(self.auth.ssh.key_file), h),
    {
        let home = home_dir_string();
        let r = match &home {
            Some(h) => self.ssh_key_file_with_home(Some(h.as_str())),
            None => self.ssh_key_file_with_home(None),
        };
        proof {
            let hv = match home {
                Some(h) => Some(h@),
                None => None,
            };
            assert(opt_view(r) == expand_key_file(opt_view(self.auth.ssh.key_file), hv));
        }
        r
    }
}

/// Where the per-user configuration lives: `%APPDATA%/bgit/config.toml` on
/// Windows when `APPDATA` is set (`appdata` is given only there), else
/// `$XDG_CONFIG_HOME/bgit/config.toml`, else `.config/bgit/config.toml` in
/// the home directory (or the current one).
pub open spec fn global_config_path_spec(appdata: Option<Seq<char>>, xdg: Option<Seq<char>>, home: Option<Seq<char>>) -> Seq<char> {
    match appdata {
        Some(a) => path_join(path_join(a, "bgit"@), "config.toml"@),
        None => match xdg {
            Some(x) => path_join(path_join(x, "bgit"@), "config.toml"@),
            None => {
                let h = match home {
                    Some(h) => h,
                    None => "."@,
                };
                path_join(path_join(path_join(h, ".config"@), "bgit"@), "config.toml"@)
            },
        },
    }
}

pub open spec fn opt_str_view(o: Option<&str>) -> Option<Seq<char>> {
    match o {
        Some(s) => Some(s@),
        None => None,
    }
}

/// Where the per-user configuration lives.
pub fn global_config_path(appdata: Option<&str>, xdg: Option<&str>, home: Option<&str>) -> (r: String)
    ensures
        r@ == global_config_path_spec(opt_str_view(appdata), opt_str_view(xdg), opt_str_view(home)),
{
    match appdata {
        Some(a) => {
            let d = join_path(a, "bgit");
            join_path(d.as_str(), "config.toml")
        },
        None => match xdg {
            Some(x) => {
                let d = join_path(x, "bgit");
                join_path(d.as_str(), "config.toml")
            },
            None => {
                let h = match home {
                    Some(h) => h,
                    None => ".",
                };
                let c = join_path(h, ".config");
                let d = join_path(c.as_str(), "bgit");
                join_path(d.as_str(), "config.toml")
            },
        },
    }
}

/// Where a repository's configuration lives: `.bgit/config.toml` under its
/// root (or under the current directory outside a repository).
pub fn repo_config_path(root: &str) -> (r: String)
    ensures
        r@ == path_join(path_join(root@, ".bgit"@), "config.toml"@),
{
    let d = join_path(root, ".bgit");
    join_path(d.as_str(), "config.toml")
}

/// What failed while loading a configuration file.
#[derive(Debug, Clone, Copy, PartialEq, Eq, Structural)]
pub enum ConfigFileFailure {
    /// The file could not be read.
    Read,
    /// The file is not valid TOML for the configuration.
    Parse,
}

/// The error of loading the configuration at `path` (the per-user one when
/// `global`), with the reason `detail`.
pub fn config_file_error(failure: ConfigFileFailure, global: bool, path: &str, detail: &str) -> (e: crate::error::BGitError)
    ensures
        e@ == crate::error::error_view(
            match (failure, global) {
                (ConfigFileFailure::Read, false) => "Failed to read config file"@,
                (ConfigFileFailure::Read, true) => "Failed to read global config file"@,
                (ConfigFileFailure::Parse, false) => "Failed to parse config file"@,
                (ConfigFileFailure::Parse, true) => "Failed to parse global config file"@,
            },
            match failure {
                ConfigFileFailure::Read => "Could not read "@ + path@ + ": "@ + detail@,
                ConfigFileFailure::Parse => "Invalid TOML in "@ + path@ + ": "@ + detail@,
            },
            crate::error::BGitErrorWorkflowType::Config,
            crate::error::NO_STEP@,
            crate::error::NO_EVENT@,
            crate::error::NO_RULE@,
        ),
{
    let name = match (failure, global) {
        (ConfigFileFailure::Read, false) => "Failed to read config file",
        (ConfigFileFailure::Read, true) => "Failed to read global config file",
        (ConfigFileFailure::Parse, false) => "Failed to parse config file",
        (ConfigFileFailure::Parse, true) => "Failed to parse global config file",
    };
    let mut m = match failure {
        ConfigFileFailure::Read => String::from_str("Could not read "),
        ConfigFileFailure::Parse => String::from_str("Invalid TOML in "),
    };
    m.append(path);
    m.append(": ");
    m.append(detail);
    crate::error::BGitError::new(
        name,
        m.as_str(),
        crate::error::BGitErrorWorkflowType::Config,
        crate::error::NO_STEP,
        crate::error::NO_EVENT,
        crate::error::NO_RULE,
    )
}

} // verus!
