//! Rewriting a repository URL so that it matches the preferred authentication
//! method, for the hosts whose URL layouts are known.
use vstd::prelude::*;
use vstd::string::*;

use crate::global_config::PreferredAuth;
use crate::text::{
    append_range, chars_of, find, find_char, find_char_exec, find_from_exec, lemma_find_char_at, lemma_find_from_first, lemma_find_from_spec,
    matches_at,
    skip, starts_with, str_eq, str_starts_with, string_from_range,
};

verus! {

/// The hosts whose SSH and HTTPS URL layouts are known.
pub open spec fn known_host(h: Seq<char>) -> bool {
    h == "github.com"@ || h == "gitlab.com"@ || h == "bitbucket.org"@
}

/// `p` without one leading `/`, if it has one.
pub open spec fn strip_one_slash(p: Seq<char>) -> Seq<char> {
    if p.len() > 0 && p[0] == '/' {
        p.drop_first()
    } else {
        p
    }
}

/// Splits `s` at the first `c`: what comes before it and what comes after it.
pub open spec fn split_at_char(s: Seq<char>, c: char) -> Option<(Seq<char>, Seq<char>)> {
    match find_char(s, c) {
        Some(k) => Some((s.subrange(0, k), skip(s, k + 1))),
        None => None,
    }
}

/// Host and path of `git@host:path` or `ssh://user@host/path`.
pub open spec fn parse_ssh_like_spec(url: Seq<char>) -> Option<(Seq<char>, Seq<char>)> {
    if starts_with(url, "git@"@) {
        match split_at_char(url, '@') {
            None => None,
            Some((_, after_at)) => split_at_char(after_at, ':'),
        }
    } else if starts_with(url, "ssh://"@) {
        match split_at_char(skip(url, 6), '@') {
            None => None,
            Some((_, after_at)) => match split_at_char(after_at, '/') {
                Some(hp) => Some(hp),
                None => Some((after_at, Seq::empty())),
            },
        }
    } else {
        None
    }
}

/// What follows the first `://` of `url`.
pub open spec fn after_scheme(url: Seq<char>) -> Option<Seq<char>> {
    match find(url, "://"@) {
        Some(k) => Some(skip(url, k + 3)),
        None => None,
    }
}

/// Host and path of `scheme://host/path`; the path is empty without a `/`.
pub open spec fn parse_http_spec(url: Seq<char>) -> Option<(Seq<char>, Seq<char>)> {
    match after_scheme(url) {
        Some(rest) => match split_at_char(rest, '/') {
            Some(hp) => Some(hp),
            None => Some((rest, Seq::empty())),
        },
        None => None,
    }
}

/// Host of `scheme://host/path`.
pub open spec fn host_from_http_spec(url: Seq<char>) -> Option<Seq<char>> {
    match parse_http_spec(url) {
        Some((h, _)) => Some(h),
        None => None,
    }
}

/// The HTTPS form of an SSH or plain-HTTP URL of a known host.
pub open spec fn to_https_spec(url: Seq<char>) -> Option<Seq<char>> {
    match parse_ssh_like_spec(url) {
        Some((h, p)) => if known_host(h) {
            Some("https://"@ + h + "/"@ + strip_one_slash(p))
        } else {
            None
        },
        None => if starts_with(url, "http://"@) {
            match host_from_http_spec(url) {
                Some(h) => if known_host(h) {
                    Some("https://"@ + skip(url, 7))
                } else {
                    None
                },
                None => None,
            }
        } else {
            None
        },
    }
}

/// The SSH (scp-like) form of a `scheme://host/path` URL of a known host.
pub open spec fn to_ssh_spec(url: Seq<char>) -> Option<Seq<char>> {
    match parse_http_spec(url) {
        Some((h, p)) => if known_host(h) {
            Some("git@"@ + h + ":"@ + strip_one_slash(p))
        } else {
            None
        },
        None => None,
    }
}

pub open spec fn is_https_url(url: Seq<char>) -> bool {
    starts_with(url, "https://"@)
}

pub open spec fn is_ssh_url(url: Seq<char>) -> bool {
    starts_with(url, "git@"@) || starts_with(url, "ssh://"@)
}

/// The URL rewritten for `preferred`, or `None` when it already matches,
/// the host is unknown, or the preference is to follow the URL.
pub open spec fn transform_spec(url: Seq<char>, preferred: PreferredAuth) -> Option<Seq<char>> {
    match preferred {
        PreferredAuth::RepositoryURLBased => None,
        PreferredAuth::Https => if is_https_url(url) {
            None
        } else {
            to_https_spec(url)
        },
        PreferredAuth::Ssh => if is_ssh_url(url) {
            None
        } else {
            to_ssh_spec(url)
        },
    }
}

pub open spec fn opt_string_view(o: Option<String>) -> Option<Seq<char>> {
    match o {
        Some(s) => Some(s@),
        None => None,
    }
}

pub open spec fn opt_pair_view(o: Option<(String, String)>) -> Option<(Seq<char>, Seq<char>)> {
    match o {
        Some((a, b)) => Some((a@, b@)),
        None => None,
    }
}

/// Splits `v` at the first `c`.
fn split_at_char_exec(v: &Vec<char>, c: char) -> (r: Option<(String, String)>)
    ensures
        opt_pair_view(r) == split_at_char(v@, c),
{
    let r = find_char_exec(v, c);
    proof {
        lemma_find_from_spec(v@, seq![c], 0);
    }
    match r {
        Some(k) => {
            assert(matches_at(v@, seq![c], k as int));
            assert(k + 1 <= v@.len());
            let before = string_from_range(v, 0, k);
            let n = v.len();
            let after = string_from_range(v, k + 1, n);
            Some((before, after))
        },
        None => None,
    }
}

/// Whether `host` is one of the known hosts.
pub fn is_known_host(host: &str) -> (b: bool)
    ensures
        b == known_host(host@),
{
    str_eq(host, "github.com") || str_eq(host, "gitlab.com") || str_eq(host, "bitbucket.org")
}

/// Host and path of an SSH-style URL (`git@host:path` or `ssh://user@host/path`).
pub fn parse_ssh_like(url: &str) -> (r: Option<(String, String)>)
    ensures
        opt_pair_view(r) == parse_ssh_like_spec(url@),
{
    if str_starts_with(url, "git@") {
        let v = chars_of(url);
        match split_at_char_exec(&v, '@') {
            None => None,
            Some((_, after_at)) => {
                let av = chars_of(after_at.as_str());
                split_at_char_exec(&av, ':')
            },
        }
    } else if str_starts_with(url, "ssh://") {
        proof {
            reveal_strlit("ssh://");
        }
        let v = chars_of(url);
        let w = string_from_range(&v, 6, v.len());
        let wv = chars_of(w.as_str());
        match split_at_char_exec(&wv, '@') {
            None => None,
            Some((_, after_at)) => {
                let av = chars_of(after_at.as_str());
                match split_at_char_exec(&av, '/') {
                    Some(hp) => Some(hp),
                    None => Some((after_at, String::new())),
                }
            },
        }
    } else {
        None
    }
}

/// What follows the first `://` of `url`.
fn after_scheme_exec(url: &str) -> (r: Option<String>)
    ensures
        opt_string_view(r) == after_scheme(url@),
{
    let v = chars_of(url);
    let sep = chars_of("://");
    proof {
        reveal_strlit("://");
    }
    let r = find_from_exec(&v, &sep, 0);
    proof {
        lemma_find_from_spec(v@, sep@, 0);
    }
    match r {
        Some(k) => {
            assert(matches_at(v@, sep@, k as int));
            let n = v.len();
            Some(string_from_range(&v, k + 3, n))
        },
        None => None,
    }
}

/// Host and path of `scheme://host/path`.
pub fn parse_http(url: &str) -> (r: Option<(String, String)>)
    ensures
        opt_pair_view(r) == parse_http_spec(url@),
{
    match after_scheme_exec(url) {
        Some(rest) => {
            let rv = chars_of(rest.as_str());
            match split_at_char_exec(&rv, '/') {
                Some(hp) => Some(hp),
                None => Some((rest, String::new())),
            }
        },
        None => None,
    }
}

/// Host of `scheme://host/path`.
pub fn host_from_http(url: &str) -> (r: Option<String>)
    ensures
        opt_string_view(r) == host_from_http_spec(url@),
{
    match parse_http(url) {
        Some((h, _)) => Some(h),
        None => None,
    }
}

/// Appends `p` without one leading `/` to `out`.
fn append_without_leading_slash(out: &mut String, p: &str)
    ensures
        final(out)@ == old(out)@ + strip_one_slash(p@),
{
    let pv = chars_of(p);
    if pv.len() > 0 && pv[0] == '/' {
        append_range(out, &pv, 1, pv.len());
        assert(pv@.subrange(1, pv@.len() as int) =~= pv@.drop_first());
    } else {
        append_range(out, &pv, 0, pv.len());
        assert(pv@.subrange(0, pv@.len() as int) =~= pv@);
    }
}

/// The HTTPS form of an SSH or plain-HTTP URL of a known host.
pub fn to_https(url: &str) -> (r: Option<String>)
    ensures
        opt_string_view(r) == to_https_spec(url@),
{
    match parse_ssh_like(url) {
        Some((host, path)) => {
            if !is_known_host(host.as_str()) {
                return None;
            }
            let mut out = String::from_str("https://");
            out.append(host.as_str());
            out.append("/");
            append_without_leading_slash(&mut out, path.as_str());
            Some(out)
        },
        None => {
            if str_starts_with(url, "http://") {
                match host_from_http(url) {
                    Some(h) => {
                        if is_known_host(h.as_str()) {
                            proof {
                                reveal_strlit("http://");
                            }
                            let v = chars_of(url);
                            let mut out = String::from_str("https://");
                            append_range(&mut out, &v, 7, v.len());
                            Some(out)
                        } else {
                            None
                        }
                    },
                    None => None,
                }
            } else {
                None
            }
        },
    }
}

/// The SSH (scp-like) form of a `scheme://host/path` URL of a known host.
pub fn to_ssh(url: &str) -> (r: Option<String>)
    ensures
        opt_string_view(r) == to_ssh_spec(url@),
{
    match parse_http(url) {
        Some((host, path)) => {
            if !is_known_host(host.as_str()) {
                return None;
            }
            let mut out = String::from_str("git@");
            out.append(host.as_str());
            out.append(":");
            append_without_leading_slash(&mut out, path.as_str());
            Some(out)
        },
        None => None,
    }
}

/// Transform a repository URL to match the preferred auth method for known hosts.
/// Returns `Some(new_url)` when a transformation was applied, or `None` if
/// the URL is left as it is.
pub fn transform_url_for_preference(url: &str, preferred: PreferredAuth) -> (r: Option<String>)
    ensures
        opt_string_view(r) == transform_spec(url@, preferred),
{
    let is_https = str_starts_with(url, "https://");
    let is_ssh_scp = str_starts_with(url, "git@") || str_starts_with(url, "ssh://");
    match preferred {
        PreferredAuth::RepositoryURLBased => None,
        PreferredAuth::Https => {
            if is_https {
                None
            } else {
                to_https(url)
            }
        },
        PreferredAuth::Ssh => {
            if is_ssh_scp {
                None
            } else {
                to_ssh(url)
            }
        },
    }
}

/// The known hosts are made of letters, digits and dots only: in particular
/// no `@`, `:` or `/`.
pub proof fn lemma_known_host_chars(h: Seq<char>)
    requires
        known_host(h),
    ensures
        h.len() >= 10,
        forall|i: int| 0 <= i < h.len() ==> h[i] != '@' && h[i] != ':' && h[i] != '/',
{
    reveal_strlit("github.com");
    reveal_strlit("gitlab.com");
    reveal_strlit("bitbucket.org");
}

/// Rewriting is idempotent: a rewritten URL already matches the preference,
/// so rewriting it again for the same preference changes nothing.
pub proof fn law_transform_idempotent(url: Seq<char>, preferred: PreferredAuth)
    ensures
        transform_spec(url, preferred) matches Some(u) ==> transform_spec(u, preferred) is None,
{
    reveal_strlit("https://");
    reveal_strlit("git@");
    if let Some(u) = transform_spec(url, preferred) {
        match preferred {
            PreferredAuth::Https => {
                assert(u.subrange(0, 8) =~= "https://"@);
            },
            PreferredAuth::Ssh => {
                assert(u.subrange(0, 4) =~= "git@"@);
            },
            PreferredAuth::RepositoryURLBased => {},
        }
    }
}

/// For a known host, the scp-like SSH URL `git@host:path` is rewritten for
/// HTTPS as `https://host/path`.
pub proof fn law_ssh_to_https(host: Seq<char>, path: Seq<char>)
    requires
        known_host(host),
        path.len() == 0 || path[0] != '/',
    ensures
        transform_spec("git@"@ + host + ":"@ + path, PreferredAuth::Https) == Some(
            "https://"@ + host + "/"@ + path,
        ),
{
    reveal_strlit("git@");
    reveal_strlit(":");
    reveal_strlit("https://");
    reveal_strlit("ssh://");
    lemma_known_host_chars(host);
    let url = "git@"@ + host + ":"@ + path;
    assert(url.subrange(0, 4) =~= "git@"@);
    assert(starts_with(url, "git@"@));
    assert(url[0] == 'g');
    assert(!is_https_url(url)) by {
        assert(url.subrange(0, 8)[0] == 'g');
    }
    lemma_find_char_at(url, '@', 3);
    let after_at = skip(url, 4);
    assert(after_at =~= host + ":"@ + path);
    assert(after_at[host.len() as int] == ':');
    lemma_find_char_at(after_at, ':', host.len() as int);
    assert(after_at.subrange(0, host.len() as int) =~= host);
    assert(skip(after_at, host.len() as int + 1) =~= path);
    assert(strip_one_slash(path) == path);
}

/// For a known host, the HTTPS URL `https://host/path` is rewritten for SSH
/// as `git@host:path`.
pub proof fn law_https_to_ssh(host: Seq<char>, path: Seq<char>)
    requires
        known_host(host),
        path.len() == 0 || path[0] != '/',
    ensures
        transform_spec("https://"@ + host + "/"@ + path, PreferredAuth::Ssh) == Some(
            "git@"@ + host + ":"@ + path,
        ),
{
    reveal_strlit("git@");
    reveal_strlit("/");
    reveal_strlit("https://");
    reveal_strlit("ssh://");
    reveal_strlit("://");
    lemma_known_host_chars(host);
    let url = "https://"@ + host + "/"@ + path;
    assert(url[0] == 'h');
    assert(!is_ssh_url(url)) by {
        assert(url.subrange(0, 4)[0] == 'h');
        assert(url.subrange(0, 6)[0] == 'h');
    }
    assert(url.subrange(5, 8) =~= "://"@);
    assert forall|j: int| 0 <= j < 5 implies !matches_at(url, "://"@, j) by {
        if j + 3 <= url.len() {
            assert(url.subrange(j, j + 3)[0] == url[j]);
        }
    }
    lemma_find_from_first(url, "://"@, 0, 5);
    let rest = skip(url, 8);
    assert(rest =~= host + "/"@ + path);
    assert(rest[host.len() as int] == '/');
    lemma_find_char_at(rest, '/', host.len() as int);
    assert(rest.subrange(0, host.len() as int) =~= host);
    assert(skip(rest, host.len() as int + 1) =~= path);
    assert(strip_one_slash(path) == path);
}

/// The HTTPS and SSH forms of a known host's URL undo each other: for a
/// path not starting with `/`, `git@host:path` becomes `https://host/path`
/// for HTTPS, that becomes `git@host:path` again for SSH, a URL already in
/// the preferred form is left alone, and without a preference nothing is
/// rewritten.
pub proof fn law_round_trip(host: Seq<char>, path: Seq<char>)
    requires
        known_host(host),
        path.len() == 0 || path[0] != '/',
    ensures
        transform_spec("git@"@ + host + ":"@ + path, PreferredAuth::Https) == Some("https://"@ + host + "/"@ + path),
        transform_spec("https://"@ + host + "/"@ + path, PreferredAuth::Ssh) == Some("git@"@ + host + ":"@ + path),
        transform_spec("https://"@ + host + "/"@ + path, PreferredAuth::Https) is None,
        transform_spec("git@"@ + host + ":"@ + path, PreferredAuth::Ssh) is None,
        transform_spec("git@"@ + host + ":"@ + path, PreferredAuth::RepositoryURLBased) is None,
        transform_spec("https://"@ + host + "/"@ + path, PreferredAuth::RepositoryURLBased) is None,
{
    let u = "git@"@ + host + ":"@ + path;
    let v = "https://"@ + host + "/"@ + path;
    law_ssh_to_https(host, path);
    law_https_to_ssh(host, path);
    law_transform_idempotent(u, PreferredAuth::Https);
    law_transform_idempotent(v, PreferredAuth::Ssh);
}

} // verus!
