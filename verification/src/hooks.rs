//! Running Git hooks: making a hook executable, falling back to the shell
//! for scripts without an interpreter line, and finding the hooks directory
//! and the standard hooks that bgit does not run.
use vstd::prelude::*;
use vstd::string::*;

use crate::global_config::{join_path, path_join};
use crate::text::{chars_of, decimal, decimal_exec, ends_with, skip, starts_with, str_eq, str_starts_with, string_from_range, views};

verus! {

/// The permission bits a hook gets when no one may execute it: its bits
/// with `rwxr-xr-x` added; none when someone may already execute it.
pub fn hook_permissions(mode: u32) -> (r: Option<u32>)
    ensures
        mode & 0o111 == 0 ==> r == Some(mode | 0o755),
        mode & 0o111 != 0 ==> r is None,
{
    if mode & 0o111 == 0 {
        Some(mode | 0o755)
    } else {
        None
    }
}

/// Whether a hook that could not be started is run with `/bin/sh`: when
/// the system refused it as no executable format (`ENOEXEC`, error 8).
pub fn fallback_to_sh(raw_os_error: Option<i32>) -> (r: bool)
    ensures
        r == (raw_os_error == Some(8i32)),
{
    match raw_os_error {
        Some(code) => code == 8,
        None => false,
    }
}

/// The decimal notation of a signed number.
pub open spec fn signed_decimal(i: int) -> Seq<char> {
    if i < 0 {
        "-"@ + decimal((-i) as nat)
    } else {
        decimal(i as nat)
    }
}

/// The explanation of a hook that exited with `code` (none when a signal
/// ended it, shown as -1).
pub fn hook_exit_detail(code: Option<i32>, path: &str) -> (r: String)
    ensures
        r@ == "Event-hook exited with non-zero status "@ + signed_decimal(match code {
            Some(c) => c as int,
            None => -1,
        }) + "\nFile:"@ + path@,
{
    let c: i64 = match code {
        Some(c) => c as i64,
        None => -1,
    };
    let mut r = String::from_str("Event-hook exited with non-zero status ");
    if c < 0 {
        r.append("-");
        let n = decimal_exec((-c) as u64);
        r.append(n.as_str());
    } else {
        let n = decimal_exec(c as u64);
        r.append(n.as_str());
    }
    r.append("\nFile:");
    r.append(path);
    r
}

/// The explanation when both the hook and `/bin/sh` could not be started.
pub fn fallback_failure_detail(first: &str, second: &str) -> (r: String)
    ensures
        r@ == first@ + " (fallback /bin/sh also failed: "@ + second@ + ")"@,
{
    let mut r = String::from_str(first);
    r.append(" (fallback /bin/sh also failed: ");
    r.append(second);
    r.append(")");
    r
}

/// A configured hooks path with a leading `~/` expanded to `home` (left as
/// it is when `home` is unknown).
pub open spec fn expand_hooks_path_spec(configured: Seq<char>, home: Option<Seq<char>>) -> Seq<char> {
    if starts_with(configured, "~/"@) {
        match home {
            Some(h) => path_join(h, skip(configured, 2)),
            None => configured,
        }
    } else {
        configured
    }
}

/// The hooks directory a configured path names: absolute as it is,
/// relative to the repository root otherwise.
pub open spec fn normalize_hooks_path_spec(configured: Seq<char>, home: Option<Seq<char>>, repo_root: Seq<char>) -> Seq<char> {
    let expanded = expand_hooks_path_spec(configured, home);
    if starts_with(expanded, "/"@) {
        expanded
    } else {
        path_join(repo_root, expanded)
    }
}

pub open spec fn opt_str_view(o: Option<&str>) -> Option<Seq<char>> {
    match o {
        Some(s) => Some(s@),
        None => None,
    }
}

/// The hooks directory a configured path names.
pub fn normalize_hooks_path(configured: &str, home: Option<&str>, repo_root: &str) -> (r: String)
    ensures
        r@ == normalize_hooks_path_spec(configured@, opt_str_view(home), repo_root@),
{
    let expanded = if str_starts_with(configured, "~/") {
        match home {
            Some(h) => {
                proof {
                    reveal_strlit("~/");
                }
                let v = chars_of(configured);
                let rest = string_from_range(&v, 2, v.len());
                join_path(h, rest.as_str())
            },
            None => String::from_str(configured),
        }
    } else {
        String::from_str(configured)
    };
    if str_starts_with(expanded.as_str(), "/") {
        expanded
    } else {
        join_path(repo_root, expanded.as_str())
    }
}

/// The standard hooks directory: `core.hooksPath` of the repository, else
/// of the global configuration, else `hooks` in the Git directory.
pub fn standard_hooks_dir(local: Option<&str>, global: Option<&str>, home: Option<&str>, repo_root: &str, git_dir: &str) -> (r: String)
    ensures
        r@ == match (local, global) {
            (Some(l), _) => normalize_hooks_path_spec(l@, opt_str_view(home), repo_root@),
            (None, Some(g)) => normalize_hooks_path_spec(g@, opt_str_view(home), repo_root@),
            (None, None) => path_join(git_dir@, "hooks"@),
        },
{
    match local {
        Some(l) => normalize_hooks_path(l, home, repo_root),
        None => match global {
            Some(g) => normalize_hooks_path(g, home, repo_root),
            None => join_path(git_dir, "hooks"),
        },
    }
}

/// The hooks bgit runs itself.
pub open spec fn supported_hooks() -> Seq<Seq<char>> {
    seq!["pre-commit"@, "post-commit"@]
}

/// The client-side hooks Git documents.
pub open spec fn client_hooks() -> Seq<Seq<char>> {
    seq![
        "applypatch-msg"@, "commit-msg"@, "fsmonitor-watchman"@, "post-commit"@, "post-merge"@,
        "post-checkout"@, "post-rewrite"@, "post-update"@, "pre-applypatch"@, "pre-commit"@,
        "pre-merge-commit"@, "pre-push"@, "pre-rebase"@,
    ]
}

/// The hook files that count, in order: not the `.sample` ones.
pub open spec fn real_hooks(names: Seq<Seq<char>>) -> Seq<Seq<char>>
    decreases names.len(),
{
    if names.len() == 0 {
        Seq::empty()
    } else if !ends_with(names.last(), ".sample"@) {
        real_hooks(names.drop_last()).push(names.last())
    } else {
        real_hooks(names.drop_last())
    }
}

/// The hooks that Git would run but bgit does not, in order.
pub open spec fn unsupported_hooks(names: Seq<Seq<char>>) -> Seq<Seq<char>>
    decreases names.len(),
{
    if names.len() == 0 {
        Seq::empty()
    } else {
        let n = names.last();
        if !ends_with(n, ".sample"@) && client_hooks().contains(n) && !supported_hooks().contains(n) {
            unsupported_hooks(names.drop_last()).push(n)
        } else {
            unsupported_hooks(names.drop_last())
        }
    }
}

fn in_list(name: &str, list: &Vec<&str>) -> (r: bool)
    ensures
        r == list@.map_values(|s: &str| s@).contains(name@),
{
    let ghost lv = list@.map_values(|s: &str| s@);
    let mut i: usize = 0;
    while i < list.len()
        invariant
            i <= list@.len(),
            lv == list@.map_values(|s: &str| s@),
            forall|j: int| 0 <= j < i ==> lv[j] != name@,
        decreases list.len() - i,
    {
        if str_eq(list[i], name) {
            assert(lv[i as int] == name@);
            return true;
        }
        i = i + 1;
    }
    false
}

/// The hook files found (`.sample` ones left out) and, among them, the
/// standard hooks bgit does not run, each in the order given.
pub fn scan_hooks(names: &Vec<String>) -> (r: (Vec<String>, Vec<String>))
    ensures
        views(r.0@) == real_hooks(views(names@)),
        views(r.1@) == unsupported_hooks(views(names@)),
{
    let supported: Vec<&str> = vec!["pre-commit", "post-commit"];
    let client: Vec<&str> = vec![
        "applypatch-msg", "commit-msg", "fsmonitor-watchman", "post-commit", "post-merge",
        "post-checkout", "post-rewrite", "post-update", "pre-applypatch", "pre-commit",
        "pre-merge-commit", "pre-push", "pre-rebase",
    ];
    assert(supported@.map_values(|s: &str| s@) =~= supported_hooks());
    assert(client@.map_values(|s: &str| s@) =~= client_hooks());
    let ghost nv = views(names@);
    let mut all: Vec<String> = Vec::new();
    let mut unsupported: Vec<String> = Vec::new();
    let mut i: usize = 0;
    assert(nv.subrange(0, 0) =~= Seq::<Seq<char>>::empty());
    while i < names.len()
        invariant
            i <= names@.len(),
            nv == views(names@),
            supported@.map_values(|s: &str| s@) == supported_hooks(),
            client@.map_values(|s: &str| s@) == client_hooks(),
            views(all@) == real_hooks(nv.subrange(0, i as int)),
            views(unsupported@) == unsupported_hooks(nv.subrange(0, i as int)),
        decreases names.len() - i,
    {
        let ghost prev_all = views(all@);
        let ghost prev_un = views(unsupported@);
        let ghost pre = nv.subrange(0, i as int);
        let ghost next = nv.subrange(0, i + 1);
        assert(next.drop_last() =~= pre);
        assert(next.last() == names@[i as int]@);
        let name = names[i].as_str();
        let nvv = chars_of(name);
        let sample = chars_of(".sample");
        if !crate::text::ends_with_exec(&nvv, &sample) {
            all.push(names[i].clone());
            assert(views(all@) =~= prev_all.push(name@));
            assert(real_hooks(next) =~= real_hooks(pre).push(name@));
            if in_list(name, &client) && !in_list(name, &supported) {
                unsupported.push(names[i].clone());
                assert(views(unsupported@) =~= prev_un.push(name@));
                assert(unsupported_hooks(next) =~= unsupported_hooks(pre).push(name@));
            } else {
                assert(unsupported_hooks(next) =~= unsupported_hooks(pre));
            }
        } else {
            assert(real_hooks(next) =~= real_hooks(pre));
            assert(unsupported_hooks(next) =~= unsupported_hooks(pre));
        }
        i = i + 1;
    }
    assert(nv.subrange(0, names@.len() as int) =~= nv);
    (all, unsupported)
}

/// The warning about standard hooks that bgit does not run.
pub fn unsupported_hooks_warning(hooks: &str, dir: &str) -> (r: String)
    ensures
        r@ == "Detected standard Git hooks not executed by bgit: "@ + hooks@ + " (at "@ + dir@
            + "). Only pre-commit and post-commit are supported. Use .bgit/hooks for portable hooks."@,
{
    let mut r = String::from_str("Detected standard Git hooks not executed by bgit: ");
    r.append(hooks);
    r.append(" (at ");
    r.append(dir);
    r.append("). Only pre-commit and post-commit are supported. Use .bgit/hooks for portable hooks.");
    r
}

} // verus!
