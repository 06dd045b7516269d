//! Reading the commit history.
use vstd::prelude::*;
use vstd::string::*;

use crate::error::BGitError;
use crate::events::{event_error, event_error_view};
use crate::text::str_eq;

use crate::rules::{PreCheckRules, Rule};

verus! {

#[derive(Debug, Clone, Copy, PartialEq, Eq, Structural)]
pub enum LogOperation {
    CheckSoleContributor,
}

/// Whether `(name, email)` is the only author of the history: the history
/// has an author, and every author is that one.
pub open spec fn is_sole_author(name: Seq<char>, email: Seq<char>, authors: Seq<(String, String)>) -> bool {
    &&& authors.len() > 0
    &&& forall|i: int| 0 <= i < authors.len() ==> #[trigger] is_author(authors[i], name, email)
}

/// Whether the author `a` is `(name, email)`.
pub open spec fn is_author(a: (String, String), name: Seq<char>, email: Seq<char>) -> bool {
    a.0@ == name && a.1@ == email
}

pub struct GitLog {
    name: String,
    operation: LogOperation,
    pre_check_rules: PreCheckRules,
}

impl GitLog {
    /// The rules checked before the event runs, in the order they were
    /// added.
    pub closed spec fn pre_check_rules_view(&self) -> Seq<Box<dyn Rule>> {
        self.pre_check_rules@
    }

    /// Adds `rule` after the rules already checked before the event runs;
    /// the event is otherwise unchanged.
    pub fn add_pre_check_rule(&mut self, rule: Box<dyn Rule>)
        ensures
            final(self).pre_check_rules_view() == old(self).pre_check_rules_view().push(rule),
            final(self).name_view() == old(self).name_view(),
            final(self).operation_view() == old(self).operation_view(),
    {
        self.pre_check_rules.push(rule);
    }

    /// The rules checked before the event runs, in the order they were
    /// added.
    pub fn get_pre_check_rule(&self) -> (r: &PreCheckRules)
        ensures
            r@ == self.pre_check_rules_view(),
    {
        &self.pre_check_rules
    }

    pub closed spec fn name_view(&self) -> Seq<char> {
        self.name@
    }

    pub closed spec fn operation_view(&self) -> LogOperation {
        self.operation
    }

    /// The event `git_log`, checking whether the current user is the only author.
    pub fn check_sole_contributor() -> (r: Self)
        ensures
            r.pre_check_rules_view().len() == 0,
            r.name_view() == "git_log"@,
            r.operation_view() == LogOperation::CheckSoleContributor,
    {
        GitLog { name: String::from_str("git_log"), operation: LogOperation::CheckSoleContributor, pre_check_rules: Vec::new() }
    }

    /// The event `git_log`; its only operation is the sole-contributor check.
    pub fn new() -> (r: Self)
        ensures
            r.pre_check_rules_view().len() == 0,
            r.name_view() == "git_log"@,
            r.operation_view() == LogOperation::CheckSoleContributor,
    {
        GitLog { name: String::from_str("git_log"), operation: LogOperation::CheckSoleContributor, pre_check_rules: Vec::new() }
    }

    pub fn get_name(&self) -> (r: &str)
        ensures
            r@ == self.name_view(),
    {
        self.name.as_str()
    }

    pub fn get_action_description(&self) -> (r: &'static str)
        ensures
            r@ == "Check if current author is the sole contributor"@,
    {
        match self.operation {
            LogOperation::CheckSoleContributor => "Check if current author is the sole contributor",
        }
    }

    /// Whether the current user is the only author, from the configured
    /// `user.name` and `user.email` (or the reason each could not be read)
    /// and the author of each commit reachable from `HEAD` that names both.
    #[verifier::loop_isolation(false)]
    pub fn sole_contributor_result(
        &self,
        user_name: Result<String, String>,
        user_email: Result<String, String>,
        authors: &Vec<(String, String)>,
    ) -> (r: Result<bool, BGitError>)
        ensures
            match (user_name, user_email) {
                (Err(d), _) => (r matches Err(e) && e@ == event_error_view(
                    self.name_view(),
                    "Failed to get current user name: "@ + d@,
                )),
                (Ok(_), Err(d)) => (r matches Err(e) && e@ == event_error_view(
                    self.name_view(),
                    "Failed to get current user email: "@ + d@,
                )),
                (Ok(n), Ok(m)) => (r matches Ok(b) && b == is_sole_author(n@, m@, authors@)),
            },
    {
        let n = match user_name {
            Ok(n) => n,
            Err(d) => {
                let mut msg = String::from_str("Failed to get current user name: ");
                msg.append(d.as_str());
                return Err(event_error(self.name.as_str(), msg.as_str()));
            },
        };
        let m = match user_email {
            Ok(m) => m,
            Err(d) => {
                let mut msg = String::from_str("Failed to get current user email: ");
                msg.append(d.as_str());
                return Err(event_error(self.name.as_str(), msg.as_str()));
            },
        };
        if authors.len() == 0 {
            return Ok(false);
        }
        let mut i: usize = 0;
        while i < authors.len()
            invariant
                i <= authors@.len(),
                forall|j: int| 0 <= j < i ==> #[trigger] is_author(authors@[j], n@, m@),
            decreases authors.len() - i,
        {
            let a = &authors[i];
            let same_name = str_eq(a.0.as_str(), n.as_str());
            let same_email = str_eq(a.1.as_str(), m.as_str());
            if !(same_name && same_email) {
                assert(!is_author(authors@[i as int], n@, m@));
                return Ok(false);
            }
            assert(is_author(authors@[i as int], n@, m@));
            i = i + 1;
        }
        Ok(true)
    }
}

} // verus!
