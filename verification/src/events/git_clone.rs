//! Cloning a repository into a directory named after it.
use vstd::prelude::*;
use vstd::string::*;

use crate::error::BGitError;
use crate::events::{event_error, event_error_view};
use crate::global_config::BGitGlobalConfig;
use crate::text::{chars_of, ends_with, ends_with_exec, skip, string_from_range};

use crate::rules::{PreCheckRules, Rule};

verus! {

pub struct GitClone<'a> {
    pub url: String,
    pub _global_config: &'a BGitGlobalConfig,
    pub pre_check_rules: PreCheckRules,
}

/// The position of the last `/` in `s`.
pub open spec fn last_slash(s: Seq<char>) -> Option<int>
    decreases s.len(),
{
    if s.len() == 0 {
        None
    } else if s.last() == '/' {
        Some(s.len() - 1)
    } else {
        last_slash(s.drop_last())
    }
}

/// The last `/`-separated segment of `url`, without a `.git` suffix: the
/// directory a clone goes to.
pub open spec fn repo_name_spec(url: Seq<char>) -> Seq<char> {
    let seg = match last_slash(url) {
        Some(k) => skip(url, k + 1),
        None => url,
    };
    if ends_with(seg, ".git"@) {
        seg.subrange(0, seg.len() - 4)
    } else {
        seg
    }
}

proof fn lemma_last_slash_at(s: Seq<char>, k: int)
    requires
        -1 <= k < s.len(),
        k >= 0 ==> s[k] == '/',
        forall|j: int| k < j < s.len() ==> s[j] != '/',
    ensures
        k >= 0 ==> last_slash(s) == Some(k),
        k < 0 ==> last_slash(s) is None,
    decreases s.len(),
{
    if s.len() > 0 && k < s.len() - 1 {
        lemma_last_slash_at(s.drop_last(), k);
    }
}

/// The directory a clone of `url` goes to.
pub fn repo_name(url: &str) -> (r: String)
    ensures
        r@ == repo_name_spec(url@),
{
    let v = chars_of(url);
    let mut i: usize = v.len();
    while i > 0 && v[i - 1] != '/'
        invariant
            i <= v@.len(),
            forall|j: int| i <= j < v@.len() ==> v@[j] != '/',
        decreases i,
    {
        i = i - 1;
    }
    proof {
        lemma_last_slash_at(v@, i - 1);
    }
    let seg = string_from_range(&v, i, v.len());
    let sv = chars_of(seg.as_str());
    let git = chars_of(".git");
    proof {
        reveal_strlit(".git");
        if i > 0 {
            assert(skip(url@, i as int) =~= v@.subrange(i as int, v@.len() as int));
        } else {
            assert(v@.subrange(0, v@.len() as int) =~= url@);
        }
    }
    if ends_with_exec(&sv, &git) {
        string_from_range(&sv, 0, sv.len() - 4)
    } else {
        seg
    }
}

impl<'a> GitClone<'a> {
    /// The rules checked before the event runs, in the order they were
    /// added.
    pub open spec fn pre_check_rules_view(&self) -> Seq<Box<dyn Rule>> {
        self.pre_check_rules@
    }

    /// Adds `rule` after the rules already checked before the event runs;
    /// the event is otherwise unchanged.
    pub fn add_pre_check_rule(&mut self, rule: Box<dyn Rule>)
        ensures
            final(self).pre_check_rules_view() == old(self).pre_check_rules_view().push(rule),
            final(self).url == old(self).url,
            final(self)._global_config == old(self)._global_config,
    {
        self.pre_check_rules.push(rule);
    }

    /// The rules checked before the event runs, in the order they were
    /// added.
    pub fn get_pre_check_rule(&self) -> (r: &PreCheckRules)
        ensures
            r@ == self.pre_check_rules_view(),
    {
        &self.pre_check_rules
    }

    /// The event with no URL yet.
    pub fn new(_global_config: &'a BGitGlobalConfig) -> (r: Self)
        ensures
            r.pre_check_rules_view().len() == 0,
            r.url@ == Seq::<char>::empty(),
    {
        GitClone { url: String::new(), _global_config, pre_check_rules: Vec::new() }
    }

    pub fn get_name(&self) -> (r: &'static str)
        ensures
            r@ == "git_clone"@,
    {
        "git_clone"
    }

    pub fn get_action_description(&self) -> (r: &'static str)
        ensures
            r@ == "Clone a Git repository"@,
    {
        "Clone a Git repository"
    }

    /// Sets the URL to clone.
    pub fn set_url(&mut self, url: &str) -> (r: &mut Self)
        ensures
            r.pre_check_rules_view() == old(self).pre_check_rules_view(),
            r.url@ == url@,
            *final(self) == *final(r),
    {
        self.url = String::from_str(url);
        self
    }

    /// The directory to clone into; an error when no URL is set.
    pub fn clone_target(&self) -> (r: Result<String, BGitError>)
        ensures
            self.url@.len() == 0 ==> (r matches Err(e) && e@ == event_error_view("git_clone"@, "Repository URL is not set"@)),
            self.url@.len() > 0 ==> (r matches Ok(d) && d@ == repo_name_spec(self.url@)),
    {
        if self.url.as_str().is_empty() {
            return Err(event_error("git_clone", "Repository URL is not set"));
        }
        Ok(repo_name(self.url.as_str()))
    }
}

} // verus!
