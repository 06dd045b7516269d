//! Rules: checks that run before a step, with a level that decides what a
//! failed check does, and the protocol that runs a rule (check, try to fix,
//! verify).
use vstd::prelude::*;
use vstd::string::*;

use crate::config::WorkflowRules;

pub mod git_name_email_setup;
pub mod large_file;
pub mod remote_exists;
pub mod repo_size;
pub mod secret_files;
pub mod secrets;
use crate::error::{
    error_view, BGitError, BGitErrorView, BGitErrorWorkflowType, NO_EVENT, NO_STEP,
};

verus! {

/// What a failed rule check does.
#[derive(Debug, Clone, Copy, PartialEq, Eq, Structural)]
pub enum RuleLevel {
    /// Skip the rule check
    Skip,
    /// Emit a warning if the rule is not satisfied and try to fix it, but continue
    Warning,
    /// Emit an error if the rule is not satisfied and try to fix it, but stop if not fixable
    Error,
}

/// The outcome of a rule check.
#[derive(Debug, Clone)]
pub enum RuleOutput {
    /// If Rule check has failed!
    Exception(String),
    /// If Rule check is passed!
    Success,
}

/// The mathematical content of a [`RuleOutput`].
pub enum RuleOutputView {
    Exception(Seq<char>),
    Success,
}

impl View for RuleOutput {
    type V = RuleOutputView;

    open spec fn view(&self) -> RuleOutputView {
        match self {
            RuleOutput::Exception(m) => RuleOutputView::Exception(m@),
            RuleOutput::Success => RuleOutputView::Success,
        }
    }
}

/// The level a rule runs at: the level configured for its name, else its
/// default.
pub open spec fn configured_level(
    config: Option<&WorkflowRules>,
    name: Seq<char>,
    default_level: RuleLevel,
) -> RuleLevel {
    match config {
        Some(c) => if c.levels().contains_key(name) {
            c.levels()[name]
        } else {
            default_level
        },
        None => default_level,
    }
}

/// The level a rule runs at: the level configured for `name` in
/// `workflow_rule_config`, else `default_level`.
pub fn rule_level_from_config(
    workflow_rule_config: Option<&WorkflowRules>,
    name: &str,
    default_level: RuleLevel,
) -> (r: RuleLevel)
    ensures
        r == configured_level(workflow_rule_config, name@, default_level),
{
    match workflow_rule_config {
        Some(config) => match config.get_rule_level(name) {
            Some(level) => *level,
            None => default_level,
        },
        None => default_level,
    }
}

/// Where a run of a rule stands.
pub enum RuleRunState {
    /// The rule's check is to run.
    Checking,
    /// The check failed with this exception; the fix is to run.
    Fixing { exception: String },
    /// The fix reported success; the check runs again to verify it.
    Verifying { exception: String },
    /// The run is over.
    Done,
}

/// What the run asks for next.
pub enum RuleRunAction {
    RunCheck,
    RunFix,
    RunVerify,
    Finish(Result<bool, BGitError>),
}

/// What came back from the work the run asked for.
pub enum RuleRunEvent {
    Checked(Result<RuleOutput, BGitError>),
    Fixed(Result<bool, BGitError>),
    Verified(Result<RuleOutput, BGitError>),
}

pub enum RuleRunStateView {
    Checking,
    Fixing(Seq<char>),
    Verifying(Seq<char>),
    Done,
}

pub enum RuleRunActionView {
    RunCheck,
    RunFix,
    RunVerify,
    Finish(Result<bool, BGitErrorView>),
}

pub enum RuleRunEventView {
    Checked(Result<RuleOutputView, BGitErrorView>),
    Fixed(Result<bool, BGitErrorView>),
    Verified(Result<RuleOutputView, BGitErrorView>),
}

impl View for RuleRunState {
    type V = RuleRunStateView;

    open spec fn view(&self) -> RuleRunStateView {
        match self {
            RuleRunState::Checking => RuleRunStateView::Checking,
            RuleRunState::Fixing { exception } => RuleRunStateView::Fixing(exception@),
            RuleRunState::Verifying { exception } => RuleRunStateView::Verifying(exception@),
            RuleRunState::Done => RuleRunStateView::Done,
        }
    }
}

impl View for RuleRunAction {
    type V = RuleRunActionView;

    open spec fn view(&self) -> RuleRunActionView {
        match self {
            RuleRunAction::RunCheck => RuleRunActionView::RunCheck,
            RuleRunAction::RunFix => RuleRunActionView::RunFix,
            RuleRunAction::RunVerify => RuleRunActionView::RunVerify,
            RuleRunAction::Finish(Ok(b)) => RuleRunActionView::Finish(Ok(*b)),
            RuleRunAction::Finish(Err(e)) => RuleRunActionView::Finish(Err(e@)),
        }
    }
}

impl View for RuleRunEvent {
    type V = RuleRunEventView;

    open spec fn view(&self) -> RuleRunEventView {
        match self {
            RuleRunEvent::Checked(Ok(o)) => RuleRunEventView::Checked(Ok(o@)),
            RuleRunEvent::Checked(Err(e)) => RuleRunEventView::Checked(Err(e@)),
            RuleRunEvent::Fixed(Ok(b)) => RuleRunEventView::Fixed(Ok(*b)),
            RuleRunEvent::Fixed(Err(e)) => RuleRunEventView::Fixed(Err(e@)),
            RuleRunEvent::Verified(Ok(o)) => RuleRunEventView::Verified(Ok(o@)),
            RuleRunEvent::Verified(Err(e)) => RuleRunEventView::Verified(Err(e@)),
        }
    }
}

/// How a run begins: a skipped rule passes at once, any other rule is checked.
pub open spec fn rule_run_start_spec(level: RuleLevel) -> (RuleRunStateView, RuleRunActionView) {
    if level == RuleLevel::Skip {
        (RuleRunStateView::Done, RuleRunActionView::Finish(Ok(true)))
    } else {
        (RuleRunStateView::Checking, RuleRunActionView::RunCheck)
    }
}

/// The error a run ends with when its fix failed or did not hold up.
pub open spec fn rule_failure(what: Seq<char>, exception: Seq<char>, rule_name: Seq<char>) -> BGitErrorView {
    error_view(what, exception, BGitErrorWorkflowType::Rules, NO_STEP@, NO_EVENT@, rule_name)
}

/// One step of a run: from the state and what came back, the next state and
/// what to do next.
///
/// - A passed check ends the run with `Ok(true)`; a failed one asks for the fix.
/// - After the fix, a warning-level rule ends with `Ok(true)`; otherwise a fix
///   that reports success is verified by checking again, and one that does not
///   ends the run with the error "Failed to fix the rule".
/// - A verification that passes ends with `Ok(true)`; otherwise with the error
///   "Failed to verify the rule".
/// - An error from the check, the fix or the verification ends the run with it.
/// - An event that does not fit the state keeps the state and asks for the
///   same work again; a finished run stays finished.
pub open spec fn rule_run_step_spec(
    level: RuleLevel,
    rule_name: Seq<char>,
    state: RuleRunStateView,
    event: RuleRunEventView,
) -> (RuleRunStateView, RuleRunActionView) {
    match (state, event) {
        (RuleRunStateView::Checking, RuleRunEventView::Checked(Err(e))) => (
            RuleRunStateView::Done,
            RuleRunActionView::Finish(Err(e)),
        ),
        (RuleRunStateView::Checking, RuleRunEventView::Checked(Ok(RuleOutputView::Success))) => (
            RuleRunStateView::Done,
            RuleRunActionView::Finish(Ok(true)),
        ),
        (
            RuleRunStateView::Checking,
            RuleRunEventView::Checked(Ok(RuleOutputView::Exception(m))),
        ) => (RuleRunStateView::Fixing(m), RuleRunActionView::RunFix),
        (RuleRunStateView::Fixing(_), RuleRunEventView::Fixed(Err(e))) => (
            RuleRunStateView::Done,
            RuleRunActionView::Finish(Err(e)),
        ),
        (RuleRunStateView::Fixing(m), RuleRunEventView::Fixed(Ok(fixed))) => if level
            == RuleLevel::Warning {
            (RuleRunStateView::Done, RuleRunActionView::Finish(Ok(true)))
        } else if fixed {
            (RuleRunStateView::Verifying(m), RuleRunActionView::RunVerify)
        } else {
            (
                RuleRunStateView::Done,
                RuleRunActionView::Finish(
                    Err(rule_failure("Failed to fix the rule"@, m, rule_name)),
                ),
            )
        },
        (RuleRunStateView::Verifying(_), RuleRunEventView::Verified(Err(e))) => (
            RuleRunStateView::Done,
            RuleRunActionView::Finish(Err(e)),
        ),
        (RuleRunStateView::Verifying(_), RuleRunEventView::Verified(Ok(RuleOutputView::Success))) => (
            RuleRunStateView::Done,
            RuleRunActionView::Finish(Ok(true)),
        ),
        (
            RuleRunStateView::Verifying(m),
            RuleRunEventView::Verified(Ok(RuleOutputView::Exception(_))),
        ) => (
            RuleRunStateView::Done,
            RuleRunActionView::Finish(Err(rule_failure("Failed to verify the rule"@, m, rule_name))),
        ),
        (RuleRunStateView::Checking, _) => (RuleRunStateView::Checking, RuleRunActionView::RunCheck),
        (RuleRunStateView::Fixing(m), _) => (RuleRunStateView::Fixing(m), RuleRunActionView::RunFix),
        (RuleRunStateView::Verifying(m), _) => (
            RuleRunStateView::Verifying(m),
            RuleRunActionView::RunVerify,
        ),
        (RuleRunStateView::Done, _) => (RuleRunStateView::Done, RuleRunActionView::Finish(Ok(true))),
    }
}

/// How a run of a rule at `level` begins.
pub fn rule_run_start(level: RuleLevel) -> (r: (RuleRunState, RuleRunAction))
    ensures
        (r.0@, r.1@) == rule_run_start_spec(level),
{
    if level == RuleLevel::Skip {
        (RuleRunState::Done, RuleRunAction::Finish(Ok(true)))
    } else {
        (RuleRunState::Checking, RuleRunAction::RunCheck)
    }
}

/// One step of a run of the rule `rule_name` at `level`.
pub fn rule_run_step(level: RuleLevel, rule_name: &str, state: RuleRunState, event: RuleRunEvent) -> (r: (
    RuleRunState,
    RuleRunAction,
))
    ensures
        (r.0@, r.1@) == rule_run_step_spec(level, rule_name@, state@, event@),
{
    match (state, event) {
        (RuleRunState::Checking, RuleRunEvent::Checked(Err(e))) => (
            RuleRunState::Done,
            RuleRunAction::Finish(Err(e)),
        ),
        (RuleRunState::Checking, RuleRunEvent::Checked(Ok(RuleOutput::Success))) => (
            RuleRunState::Done,
            RuleRunAction::Finish(Ok(true)),
        ),
        (RuleRunState::Checking, RuleRunEvent::Checked(Ok(RuleOutput::Exception(m)))) => (
            RuleRunState::Fixing { exception: m },
            RuleRunAction::RunFix,
        ),
        (RuleRunState::Fixing { .. }, RuleRunEvent::Fixed(Err(e))) => (
            RuleRunState::Done,
            RuleRunAction::Finish(Err(e)),
        ),
        (RuleRunState::Fixing { exception }, RuleRunEvent::Fixed(Ok(fixed))) => {
            if level == RuleLevel::Warning {
                (RuleRunState::Done, RuleRunAction::Finish(Ok(true)))
            } else if fixed {
                (RuleRunState::Verifying { exception }, RuleRunAction::RunVerify)
            } else {
                let e = BGitError::new(
                    "Failed to fix the rule",
                    exception.as_str(),
                    BGitErrorWorkflowType::Rules,
                    NO_STEP,
                    NO_EVENT,
                    rule_name,
                );
                (RuleRunState::Done, RuleRunAction::Finish(Err(e)))
            }
        },
        (RuleRunState::Verifying { .. }, RuleRunEvent::Verified(Err(e))) => (
            RuleRunState::Done,
            RuleRunAction::Finish(Err(e)),
        ),
        (RuleRunState::Verifying { .. }, RuleRunEvent::Verified(Ok(RuleOutput::Success))) => (
            RuleRunState::Done,
            RuleRunAction::Finish(Ok(true)),
        ),
        (RuleRunState::Verifying { exception }, RuleRunEvent::Verified(Ok(RuleOutput::Exception(_)))) => {
            let e = BGitError::new(
                "Failed to verify the rule",
                exception.as_str(),
                BGitErrorWorkflowType::Rules,
                NO_STEP,
                NO_EVENT,
                rule_name,
            );
            (RuleRunState::Done, RuleRunAction::Finish(Err(e)))
        },
        (RuleRunState::Checking, _) => (RuleRunState::Checking, RuleRunAction::RunCheck),
        (RuleRunState::Fixing { exception }, _) => (
            RuleRunState::Fixing { exception },
            RuleRunAction::RunFix,
        ),
        (RuleRunState::Verifying { exception }, _) => (
            RuleRunState::Verifying { exception },
            RuleRunAction::RunVerify,
        ),
        (RuleRunState::Done, _) => (RuleRunState::Done, RuleRunAction::Finish(Ok(true))),
    }
}

/// Whether a fix held up: the repeated check passed.
pub fn verify_from_check(check: Result<RuleOutput, BGitError>) -> (r: Result<bool, BGitError>)
    ensures
        result_bool_view(r) == match result_output_view(check) {
            Ok(RuleOutputView::Success) => Ok(true),
            Ok(RuleOutputView::Exception(_)) => Ok(false),
            Err(e) => Err(e),
        },
{
    match check {
        Ok(RuleOutput::Success) => Ok(true),
        Ok(RuleOutput::Exception(_)) => Ok(false),
        Err(e) => Err(e),
    }
}

pub open spec fn result_bool_view(r: Result<bool, BGitError>) -> Result<bool, BGitErrorView> {
    match r {
        Ok(b) => Ok(b),
        Err(e) => Err(e@),
    }
}

pub open spec fn result_output_view(r: Result<RuleOutput, BGitError>) -> Result<RuleOutputView, BGitErrorView> {
    match r {
        Ok(o) => Ok(o@),
        Err(e) => Err(e@),
    }
}

/// A skipped rule passes without being checked.
pub proof fn law_skip_passes_unchecked()
    ensures
        rule_run_start_spec(RuleLevel::Skip) == (
            RuleRunStateView::Done,
            RuleRunActionView::Finish(Ok(true)),
        ),
{
}

/// A rule that is not skipped is checked first, and a passing check ends the
/// run with success.
pub proof fn law_passing_check_passes(level: RuleLevel, name: Seq<char>)
    requires
        level != RuleLevel::Skip,
    ensures
        rule_run_start_spec(level).1 == RuleRunActionView::RunCheck,
        rule_run_step_spec(
            level,
            name,
            rule_run_start_spec(level).0,
            RuleRunEventView::Checked(Ok(RuleOutputView::Success)),
        ) == (RuleRunStateView::Done, RuleRunActionView::Finish(Ok(true))),
{
}

/// A warning never stops the workflow: once a warning-level rule's check has
/// failed and its fix has run without an error, whatever the fix reports,
/// the run ends with success.
pub proof fn law_warning_never_blocks(name: Seq<char>, exception: Seq<char>, fixed: bool)
    ensures
        ({
            let (s1, a1) = rule_run_step_spec(
                RuleLevel::Warning,
                name,
                RuleRunStateView::Checking,
                RuleRunEventView::Checked(Ok(RuleOutputView::Exception(exception))),
            );
            &&& a1 == RuleRunActionView::RunFix
            &&& rule_run_step_spec(RuleLevel::Warning, name, s1, RuleRunEventView::Fixed(Ok(fixed)))
                == (RuleRunStateView::Done, RuleRunActionView::Finish(Ok(true)))
        }),
{
}

/// An error-level rule whose check failed passes only when its fix reports
/// success and the repeated check passes; a fix that reports failure ends
/// the run with "Failed to fix the rule", a repeated check that fails ends it
/// with "Failed to verify the rule", both carrying the first check's
/// exception.
pub proof fn law_error_level_needs_verified_fix(name: Seq<char>, exception: Seq<char>, second: Seq<char>)
    ensures
        ({
            let (s1, a1) = rule_run_step_spec(
                RuleLevel::Error,
                name,
                RuleRunStateView::Checking,
                RuleRunEventView::Checked(Ok(RuleOutputView::Exception(exception))),
            );
            let (s_unfixed, a_unfixed) = rule_run_step_spec(RuleLevel::Error, name, s1, RuleRunEventView::Fixed(Ok(false)));
            let (s2, a2) = rule_run_step_spec(RuleLevel::Error, name, s1, RuleRunEventView::Fixed(Ok(true)));
            &&& a1 == RuleRunActionView::RunFix
            &&& a_unfixed == RuleRunActionView::Finish(Err(rule_failure("Failed to fix the rule"@, exception, name)))
            &&& a2 == RuleRunActionView::RunVerify
            &&& rule_run_step_spec(RuleLevel::Error, name, s2, RuleRunEventView::Verified(Ok(RuleOutputView::Success)))
                == (RuleRunStateView::Done, RuleRunActionView::Finish(Ok(true)))
            &&& rule_run_step_spec(RuleLevel::Error, name, s2, RuleRunEventView::Verified(Ok(RuleOutputView::Exception(second)))).1
                == RuleRunActionView::Finish(Err(rule_failure("Failed to verify the rule"@, exception, name)))
        }),
{
}

/// Every run ends: from any state, a fitting event either finishes the run
/// or moves it forward (check, then fix, then verify), so a run takes at
/// most three events.
pub proof fn law_run_progresses(level: RuleLevel, name: Seq<char>, state: RuleRunStateView, event: RuleRunEventView)
    requires
        match (state, event) {
            (RuleRunStateView::Checking, RuleRunEventView::Checked(_)) => true,
            (RuleRunStateView::Fixing(_), RuleRunEventView::Fixed(_)) => true,
            (RuleRunStateView::Verifying(_), RuleRunEventView::Verified(_)) => true,
            _ => false,
        },
    ensures
        ({
            let (s, a) = rule_run_step_spec(level, name, state, event);
            ||| a is Finish && s == RuleRunStateView::Done
            ||| state is Checking && s is Fixing && a == RuleRunActionView::RunFix
            ||| state is Fixing && s is Verifying && a == RuleRunActionView::RunVerify
        }),
{
}

/// A check of a rule: its name, description and level, what its check finds
/// and what its fix does.
pub trait Rule {
    fn get_name(&self) -> &str;

    fn get_description(&self) -> &str;

    fn get_level(&self) -> RuleLevel;

    /// Implement logic to check the rule
    fn check(&self) -> Result<RuleOutput, BGitError>;

    /// Implement logic to fix the rule if broken
    fn try_fix(&self) -> Result<bool, BGitError>;
}

/// How much work a run still has at most: check, fix, verify.
pub open spec fn run_rank(s: RuleRunStateView) -> nat {
    match s {
        RuleRunStateView::Checking => 3,
        RuleRunStateView::Fixing(_) => 2,
        RuleRunStateView::Verifying(_) => 1,
        RuleRunStateView::Done => 0,
    }
}

/// The action fits the state: each kind of work is asked for only in the
/// state that waits for it.
pub open spec fn action_fits(s: RuleRunStateView, a: RuleRunActionView) -> bool {
    match a {
        RuleRunActionView::RunCheck => s is Checking,
        RuleRunActionView::RunFix => s is Fixing,
        RuleRunActionView::RunVerify => s is Verifying,
        RuleRunActionView::Finish(_) => true,
    }
}

/// Runs `rule`: check it, try to fix it if the check fails, and verify the
/// fix, as [`rule_run_step`] decides; the run ends after at most three
/// pieces of work. It passes with `Ok(true)` or fails with an error: no run
/// ends with `Ok(false)`.
pub fn execute_rule<R: Rule + ?Sized>(rule: &R) -> (r: Result<bool, BGitError>)
    ensures
        r matches Ok(passed) ==> passed,
{
    let level = rule.get_level();
    let (mut state, mut action) = rule_run_start(level);
    loop
        invariant
            action_fits(state@, action@),
            action@ matches RuleRunActionView::Finish(Ok(passed)) ==> passed,
        decreases run_rank(state@),
    {
        match action {
            RuleRunAction::Finish(r) => {
                return r;
            },
            RuleRunAction::RunCheck => {
                let out = rule.check();
                let (s, a) = rule_run_step(level, rule.get_name(), state, RuleRunEvent::Checked(out));
                state = s;
                action = a;
            },
            RuleRunAction::RunFix => {
                let out = rule.try_fix();
                let (s, a) = rule_run_step(level, rule.get_name(), state, RuleRunEvent::Fixed(out));
                state = s;
                action = a;
            },
            RuleRunAction::RunVerify => {
                let out = rule.check();
                let (s, a) = rule_run_step(level, rule.get_name(), state, RuleRunEvent::Verified(out));
                state = s;
                action = a;
            },
        }
    }
}

/// The rules checked before an event runs, in the order they were added.
pub type PreCheckRules = Vec<Box<dyn Rule>>;

/// Runs the rule at `index` of `rules` by itself (check, fix, verify);
/// past the end there is no rule and nothing fails.
pub fn run_pre_check_rule(rules: &PreCheckRules, index: usize) -> (r: Result<bool, BGitError>)
    ensures
        r matches Ok(passed) ==> passed,
        index >= rules@.len() ==> r matches Ok(true),
{
    if index < rules.len() {
        let rule: &dyn Rule = &*rules[index];
        execute_rule(rule)
    } else {
        Ok(true)
    }
}

/// Rule `i` of `rules` was run (by [`run_pre_check_rule`]) and passed.
pub open spec fn ran_and_passed(rules: &PreCheckRules, i: int) -> bool {
    exists|o: Result<bool, BGitError>| #[trigger] call_ensures(run_pre_check_rule, (rules, i as usize), o) && o is Ok
}

/// Runs the rules checked before an event, in order: the first rule whose
/// run fails stops the others and gives its error; when every run passes,
/// the result is `Ok(true)`. A run of rule `i` is a call of
/// [`run_pre_check_rule`] on `i`: a success means every rule was run and
/// passed; an error is the outcome of running some rule, after every rule
/// before it was run and passed.
pub fn run_pre_check_rules(rules: &PreCheckRules) -> (r: Result<bool, BGitError>)
    ensures
        rules@.len() == 0 ==> r matches Ok(true),
        r matches Ok(passed) ==> passed,
        r is Ok ==> forall|i: int| 0 <= i < rules@.len() ==> #[trigger] ran_and_passed(rules, i),
        r is Err ==> exists|k: int| 0 <= k < rules@.len() && #[trigger] call_ensures(run_pre_check_rule, (rules, k as usize), r)
            && forall|i: int| 0 <= i < k ==> #[trigger] ran_and_passed(rules, i),
{
    let run = run_pre_check_rule;
    let ghost mut outcomes: Seq<Result<bool, BGitError>> = Seq::empty();
    let mut i: usize = 0;
    while i < rules.len()
        invariant
            i <= rules@.len(),
            outcomes.len() == i,
            forall|j: int| 0 <= j < i ==> #[trigger] call_ensures(run_pre_check_rule, (rules, j as usize), outcomes[j])
                && outcomes[j] is Ok,
        decreases rules.len() - i,
    {
        let outcome = run(rules, i);
        let ghost out = outcome;
        match outcome {
            Err(e) => {
                proof {
                    assert(out == Err::<bool, BGitError>(e));
                    assert(call_ensures(run_pre_check_rule, (rules, (i as int) as usize), out));
                    assert forall|j: int| 0 <= j < i implies #[trigger] ran_and_passed(rules, j) by {
                        assert(call_ensures(run_pre_check_rule, (rules, j as usize), outcomes[j]));
                    }
                }
                return Err(e);
            },
            Ok(_) => {
                proof {
                    outcomes = outcomes.push(outcome);
                }
            },
        }
        i = i + 1;
    }
    proof {
        assert forall|j: int| 0 <= j < rules@.len() implies #[trigger] ran_and_passed(rules, j) by {
            assert(call_ensures(run_pre_check_rule, (rules, j as usize), outcomes[j]));
        }
    }
    Ok(true)
}

} // verus!
