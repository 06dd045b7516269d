//! Sending the current branch to its remote.
use vstd::prelude::*;
use vstd::string::*;

use crate::error::BGitError;
use crate::events::{event_error, event_error_view};
use crate::text::{
    chars_of, contains_seq, find_char, find_char_exec, rest_from, skip, starts_with,
    starts_with_exec, str_contains, str_eq, str_starts_with, string_from_range, views,
};

use crate::rules::{PreCheckRules, Rule};

verus! {

pub struct GitPush {
    pub force_with_lease: bool,
    pub set_upstream: bool,
    pub pre_check_rules: PreCheckRules,
}

/// Whether a push may go on, as far as the commits tell.
#[derive(Debug, Clone, Copy, PartialEq, Eq, Structural)]
pub enum PushCheck {
    /// The push may go on.
    Safe,
    /// The merge base of the local and remote commits is needed to decide.
    NeedMergeBase,
}

/// The error text when no remote can be chosen.
pub open spec fn no_remote_message() -> Seq<char> {
    "No suitable remote configured. Add a remote or set an upstream (git branch --set-upstream-to <remote>/<branch>)."@
}

/// The remote named by an upstream reference `refs/remotes/<remote>/<branch>`.
pub open spec fn upstream_remote_spec(name: Seq<char>) -> Option<Seq<char>> {
    let prefix = "refs/remotes/"@;
    if starts_with(name, prefix) {
        match find_char(skip(name, prefix.len() as int), '/') {
            Some(k) => Some(skip(name, prefix.len() as int).subrange(0, k)),
            None => None,
        }
    } else {
        None
    }
}

/// Whether `name` is among the remotes.
pub open spec fn has_remote(remotes: Seq<Option<Seq<char>>>, name: Seq<char>) -> bool {
    exists|i: int| 0 <= i < remotes.len() && #[trigger] remotes[i] == Some(name)
}

/// The remote to push to: the remote of the branch's upstream, else the only
/// remote, else `origin` when it exists. Each remote is given by its name
/// (none where the name is not text); `None` when the remotes could not be
/// listed.
pub open spec fn determine_remote_spec(upstream: Option<Seq<char>>, remotes: Option<Seq<Option<Seq<char>>>>) -> Result<Seq<char>, Seq<char>> {
    let from_upstream = match upstream {
        Some(u) => upstream_remote_spec(u),
        None => None,
    };
    match from_upstream {
        Some(r) => Ok(r),
        None => match remotes {
            Some(rs) => if rs.len() == 1 && rs[0] is Some {
                Ok(rs[0]->0)
            } else if has_remote(rs, "origin"@) {
                Ok("origin"@)
            } else {
                Err(no_remote_message())
            },
            None => Err(no_remote_message()),
        },
    }
}

/// The tracking reference of `branch` on `remote`.
pub open spec fn tracking_ref_spec(remote: Seq<char>, branch: Seq<char>) -> Seq<char> {
    "refs/remotes/"@ + remote + "/"@ + branch
}

/// The transport named in a push error, from the remote's URL.
pub open spec fn transport_hint_spec(url: Option<Seq<char>>) -> Seq<char> {
    match url {
        Some(u) => if starts_with(u, "http://"@) || starts_with(u, "https://"@) {
            "(HTTPS) - check token/credentials"@
        } else if starts_with(u, "ssh://"@) || starts_with(u, "git@"@) || (contains_seq(u, "@"@)
            && contains_seq(u, ":"@)) {
            "(SSH) - check keys/agent"@
        } else {
            ""@
        },
        None => ""@,
    }
}

/// What the lease check decides from the local commit, the remote commit
/// and, once asked for, their merge base: the push is refused when the local
/// branch is behind.
pub open spec fn push_check_spec(local: Seq<char>, remote: Seq<char>, merge_base: Option<Seq<char>>) -> Result<PushCheck, Seq<char>> {
    if local == remote {
        Ok(PushCheck::Safe)
    } else {
        match merge_base {
            None => Ok(PushCheck::NeedMergeBase),
            Some(b) => if b == local {
                Err("Local branch is behind remote. Pull changes first."@)
            } else {
                Ok(PushCheck::Safe)
            },
        }
    }
}

pub open spec fn opt_str_view(o: Option<&str>) -> Option<Seq<char>> {
    match o {
        Some(s) => Some(s@),
        None => None,
    }
}

pub open spec fn opt_strings_view(o: Option<&Vec<Option<String>>>) -> Option<Seq<Option<Seq<char>>>> {
    match o {
        Some(v) => Some(v@.map_values(|x: Option<String>| match x {
            Some(s) => Some(s@),
            None => None,
        })),
        None => None,
    }
}

/// The remote of an upstream reference `refs/remotes/<remote>/<branch>`.
pub fn upstream_remote(name: &str) -> (r: Option<String>)
    ensures
        match upstream_remote_spec(name@) {
            Some(x) => r matches Some(s) && s@ == x,
            None => r is None,
        },
{
    let v = chars_of(name);
    let p = chars_of("refs/remotes/");
    if !starts_with_exec(&v, &p) {
        return None;
    }
    let rest = rest_from(&v, p.len());
    proof {
        crate::text::lemma_find_from_spec(rest@, seq!['/'], 0);
    }
    match find_char_exec(&rest, '/') {
        Some(k) => Some(string_from_range(&rest, 0, k)),
        None => None,
    }
}

/// The tracking reference of `branch` on `remote`.
pub fn tracking_ref(remote: &str, branch: &str) -> (r: String)
    ensures
        r@ == tracking_ref_spec(remote@, branch@),
{
    let mut r = String::from_str("refs/remotes/");
    r.append(remote);
    r.append("/");
    r.append(branch);
    r
}

/// The arguments of `git push` that force the branch only while the remote
/// still holds `expected`, and set the upstream when asked to.
pub fn lease_push_args(remote: &str, branch: &str, expected: &str, set_upstream: bool) -> (r: Vec<String>)
    ensures
        views(r@) == seq!["push"@, "--force-with-lease="@ + branch@ + ":"@ + expected@]
            + (if set_upstream { seq!["--set-upstream"@] } else { Seq::<Seq<char>>::empty() })
            + seq![remote@, "refs/heads/"@ + branch@ + ":refs/heads/"@ + branch@],
{
    let mut r: Vec<String> = Vec::new();
    r.push(String::from_str("push"));
    let mut lease = String::from_str("--force-with-lease=");
    lease.append(branch);
    lease.append(":");
    lease.append(expected);
    r.push(lease);
    if set_upstream {
        r.push(String::from_str("--set-upstream"));
    }
    r.push(String::from_str(remote));
    let mut spec = String::from_str("refs/heads/");
    spec.append(branch);
    spec.append(":refs/heads/");
    spec.append(branch);
    r.push(spec);
    assert(views(r@) =~= seq!["push"@, "--force-with-lease="@ + branch@ + ":"@ + expected@]
        + (if set_upstream { seq!["--set-upstream"@] } else { Seq::<Seq<char>>::empty() })
        + seq![remote@, "refs/heads/"@ + branch@ + ":refs/heads/"@ + branch@]);
    r
}

impl GitPush {
    /// The rules checked before the event runs, in the order they were
    /// added.
    pub open spec fn pre_check_rules_view(&self) -> Seq<Box<dyn Rule>> {
        self.pre_check_rules@
    }

    /// Adds `rule` after the rules already checked before the event runs;
    /// the event is otherwise unchanged.
    pub fn add_pre_check_rule(&mut self, rule: Box<dyn Rule>)
        ensures
            final(self).pre_check_rules_view() == old(self).pre_check_rules_view().push(rule),
            final(self).force_with_lease == old(self).force_with_lease,
            final(self).set_upstream == old(self).set_upstream,
    {
        self.pre_check_rules.push(rule);
    }

    /// The rules checked before the event runs, in the order they were
    /// added.
    pub fn get_pre_check_rule(&self) -> (r: &PreCheckRules)
        ensures
            r@ == self.pre_check_rules_view(),
    {
        &self.pre_check_rules
    }

    /// The event `git_push`: no force, no upstream change asked for.
    pub fn new() -> (r: Self)
        ensures
            r.pre_check_rules_view().len() == 0,
            !r.force_with_lease,
            !r.set_upstream,
    {
        GitPush { force_with_lease: false, set_upstream: false, pre_check_rules: Vec::new() }
    }

    pub fn get_name(&self) -> (r: &'static str)
        ensures
            r@ == "git_push"@,
    {
        "git_push"
    }

    pub fn get_action_description(&self) -> (r: &'static str)
        ensures
            r@ == "Push changes to remote repository"@,
    {
        "Push changes to remote repository"
    }

    /// Asks for a forced push guarded by the remote's current commit.
    pub fn with_force_with_lease(&mut self, force_with_lease: bool) -> (r: &mut Self)
        ensures
            r.pre_check_rules_view() == old(self).pre_check_rules_view(),
            r.force_with_lease == force_with_lease,
            r.set_upstream == old(self).set_upstream,
            *final(self) == *final(r),
    {
        self.force_with_lease = force_with_lease;
        self
    }

    /// Asks for the upstream of the branch to be set by the push.
    pub fn with_upstream_flag(&mut self, set_upstream: bool) -> (r: &mut Self)
        ensures
            r.pre_check_rules_view() == old(self).pre_check_rules_view(),
            r.set_upstream == set_upstream,
            r.force_with_lease == old(self).force_with_lease,
            *final(self) == *final(r),
    {
        self.set_upstream = set_upstream;
        self
    }

    /// Whether a push can start: not from a branch with no commit yet.
    pub fn head_check(&self, head_is_unborn: bool) -> (r: Result<(), BGitError>)
        ensures
            !head_is_unborn ==> r is Ok,
            head_is_unborn ==> (r matches Err(e) && e@ == event_error_view(
                "git_push"@,
                "Cannot push from unborn branch (no commits to push). Create your first commit before pushing."@,
            )),
    {
        if head_is_unborn {
            Err(
                event_error(
                    "git_push",
                    "Cannot push from unborn branch (no commits to push). Create your first commit before pushing.",
                ),
            )
        } else {
            Ok(())
        }
    }

    /// The remote to push to, from the name of the branch's upstream
    /// reference (if it has one) and the configured remotes (if they could be
    /// listed).
    #[verifier::loop_isolation(false)]
    pub fn determine_remote_name(&self, upstream: Option<&str>, remotes: Option<&Vec<Option<String>>>) -> (r: Result<String, String>)
        ensures
            match determine_remote_spec(opt_str_view(upstream), opt_strings_view(remotes)) {
                Ok(x) => r matches Ok(s) && s@ == x,
                Err(m) => r matches Err(s) && s@ == m,
            },
    {
        if let Some(u) = upstream {
            if let Some(name) = upstream_remote(u) {
                return Ok(name);
            }
        }
        if let Some(rs) = remotes {
            let ghost rv = opt_strings_view(remotes)->0;
            if rs.len() == 1 {
                if let Some(r) = &rs[0] {
                    return Ok(r.clone());
                }
            }
            let mut i: usize = 0;
            while i < rs.len()
                invariant
                    i <= rs@.len(),
                    rv == rs@.map_values(|x: Option<String>| match x {
                        Some(s) => Some(s@),
                        None => None,
                    }),
                    forall|j: int| 0 <= j < i ==> rv[j] != Some("origin"@),
                decreases rs.len() - i,
            {
                if let Some(r) = &rs[i] {
                    if str_eq(r.as_str(), "origin") {
                        assert(rv[i as int] == Some("origin"@));
                        return Ok(String::from_str("origin"));
                    }
                }
                assert(rv[i as int] != Some("origin"@));
                i = i + 1;
            }
        }
        Err(String::from_str("No suitable remote configured. Add a remote or set an upstream (git branch --set-upstream-to <remote>/<branch>)."))
    }

    /// The refspec pushed: the branch, mapped to the same name on the remote
    /// when the upstream is to be set.
    pub fn refspec(&self, branch: &str) -> (r: String)
        ensures
            self.set_upstream ==> r@ == "refs/heads/"@ + branch@ + ":refs/heads/"@ + branch@,
            !self.set_upstream ==> r@ == "refs/heads/"@ + branch@,
    {
        let mut r = String::from_str("refs/heads/");
        r.append(branch);
        if self.set_upstream {
            r.append(":refs/heads/");
            r.append(branch);
        }
        r
    }

    /// The commit the remote must still hold for a forced push: the target
    /// of the tracking reference, or an error when there is none.
    pub fn expected_remote_oid(&self, tracking_target: Option<String>) -> (r: Result<String, BGitError>)
        ensures
            match tracking_target {
                Some(t) => r matches Ok(s) && s@ == t@,
                None => (r matches Err(e) && e@ == event_error_view(
                    "git_push"@,
                    "Cannot perform force-with-lease: no remote tracking branch found"@,
                )),
            },
    {
        match tracking_target {
            Some(t) => Ok(t),
            None => Err(event_error("git_push", "Cannot perform force-with-lease: no remote tracking branch found")),
        }
    }

    /// Whether an ordinary push may go on, from the local commit, the
    /// commit of the tracking reference and, once asked for, their merge base.
    pub fn push_check(&self, local: &str, remote: &str, merge_base: Option<&str>) -> (r: Result<PushCheck, BGitError>)
        ensures
            match push_check_spec(local@, remote@, opt_str_view(merge_base)) {
                Ok(c) => r == Ok::<PushCheck, BGitError>(c),
                Err(m) => (r matches Err(e) && e@ == event_error_view("git_push"@, m)),
            },
    {
        if str_eq(local, remote) {
            return Ok(PushCheck::Safe);
        }
        match merge_base {
            None => Ok(PushCheck::NeedMergeBase),
            Some(b) => if str_eq(b, local) {
                Err(event_error("git_push", "Local branch is behind remote. Pull changes first."))
            } else {
                Ok(PushCheck::Safe)
            },
        }
    }

    /// The transport named in a push error, from the remote's URL.
    pub fn transport_hint(&self, url: Option<&str>) -> (r: &'static str)
        ensures
            r@ == transport_hint_spec(opt_str_view(url)),
    {
        match url {
            Some(u) => {
                if str_starts_with(u, "http://") || str_starts_with(u, "https://") {
                    "(HTTPS) - check token/credentials"
                } else if str_starts_with(u, "ssh://") || str_starts_with(u, "git@") || (str_contains(u, "@")
                    && str_contains(u, ":")) {
                    "(SSH) - check keys/agent"
                } else {
                    ""
                }
            },
            None => "",
        }
    }

    /// The error when the push to the remote at `url` failed with `detail`.
    pub fn push_failure_error(&self, url: Option<&str>, detail: &str) -> (e: BGitError)
        ensures
            e@ == event_error_view(
                "git_push"@,
                "Failed to push to remote "@ + transport_hint_spec(opt_str_view(url)) + ": "@ + detail@
                    + ". If authentication is required, ensure your credentials are set up."@,
            ),
    {
        let mut msg = String::from_str("Failed to push to remote ");
        msg.append(self.transport_hint(url));
        msg.append(": ");
        msg.append(detail);
        msg.append(". If authentication is required, ensure your credentials are set up.");
        event_error("git_push", msg.as_str())
    }

    /// Whether the branch has an upstream, from the lookup of the local
    /// branch (or the reason it failed).
    pub fn has_upstream(&self, branch: &str, lookup: Result<bool, String>) -> (r: Result<bool, BGitError>)
        ensures
            match lookup {
                Ok(b) => r == Ok::<bool, BGitError>(b),
                Err(d) => (r matches Err(e) && e@ == event_error_view(
                    "git_push"@,
                    "Failed to find local branch "@ + branch@ + ": "@ + d@,
                )),
            },
    {
        match lookup {
            Ok(b) => Ok(b),
            Err(d) => {
                let mut msg = String::from_str("Failed to find local branch ");
                msg.append(branch);
                msg.append(": ");
                msg.append(d.as_str());
                Err(event_error("git_push", msg.as_str()))
            },
        }
    }

    /// Whether the upstream is set after the push: when asked, or when the
    /// branch has none.
    pub fn should_set_upstream(&self, has_upstream: bool) -> (r: bool)
        ensures
            r == (self.set_upstream || !has_upstream),
    {
        self.set_upstream || !has_upstream
    }

    /// The upstream given to the branch: `<remote>/<branch>`.
    pub fn upstream_name(&self, remote: &str, branch: &str) -> (r: String)
        ensures
            r@ == remote@ + "/"@ + branch@,
    {
        let mut r = String::from_str(remote);
        r.append("/");
        r.append(branch);
        r
    }
}

/// An ordinary push is refused only when the local branch is behind: the
/// commits differ and the merge base is the local commit.
pub proof fn law_push_refused_only_when_behind(local: Seq<char>, remote: Seq<char>, merge_base: Option<Seq<char>>)
    ensures
        push_check_spec(local, remote, merge_base) is Err <==> (local != remote && merge_base == Some(local)),
{
}

} // verus!
