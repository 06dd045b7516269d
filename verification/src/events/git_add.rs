//! Adding files to the staging area.
use vstd::prelude::*;
use vstd::string::*;

use crate::error::BGitError;
use crate::events::{event_error, event_error_view};
use crate::global_config::BGitGlobalConfig;
use crate::text::views;

use crate::rules::{PreCheckRules, Rule};

verus! {

/// Which files to add.
#[derive(Debug, Clone)]
pub enum AddMode {
    All,
    Selective(Vec<String>),
}

/// What adding does.
pub enum AddPlan {
    /// Add every change under the repository root.
    AddAll,
    /// Add these paths.
    AddFiles(Vec<String>),
}

pub struct GitAdd<'a> {
    name: String,
    add_mode: Option<AddMode>,
    _global_config: &'a BGitGlobalConfig,
    pre_check_rules: PreCheckRules,
}

/// What adding does for a given mode: everything, the selected files, or an
/// error when no mode or no file was given.
pub open spec fn add_plan_spec(mode: Option<AddMode>) -> Result<Seq<Seq<char>>, Seq<char>> {
    match mode {
        Some(AddMode::All) => Ok(Seq::empty()),
        Some(AddMode::Selective(files)) => if files@.len() == 0 {
            Err("No files selected for staging."@)
        } else {
            Ok(views(files@))
        },
        None => Err("No add mode specified. Use 'with_add_mode' to set it."@),
    }
}

impl<'a> GitAdd<'a> {
    /// The rules checked before the event runs, in the order they were
    /// added.
    pub closed spec fn pre_check_rules_view(&self) -> Seq<Box<dyn Rule>> {
        self.pre_check_rules@
    }

    /// Adds `rule` after the rules already checked before the event runs;
    /// the event is otherwise unchanged.
    pub fn add_pre_check_rule(&mut self, rule: Box<dyn Rule>)
        ensures
            final(self).pre_check_rules_view() == old(self).pre_check_rules_view().push(rule),
            final(self).name_view() == old(self).name_view(),
            final(self).mode_view() == old(self).mode_view(),
    {
        self.pre_check_rules.push(rule);
    }

    /// The rules checked before the event runs, in the order they were
    /// added.
    pub fn get_pre_check_rule(&self) -> (r: &PreCheckRules)
        ensures
            r@ == self.pre_check_rules_view(),
    {
        &self.pre_check_rules
    }

    pub closed spec fn name_view(&self) -> Seq<char> {
        self.name@
    }

    pub closed spec fn mode_view(&self) -> Option<AddMode> {
        self.add_mode
    }

    /// The event `git_add`, with no mode yet.
    pub fn new(_global_config: &'a BGitGlobalConfig) -> (r: Self)
        ensures
            r.pre_check_rules_view().len() == 0,
            r.name_view() == "git_add"@,
            r.mode_view() is None,
    {
        GitAdd { name: String::from_str("git_add"), add_mode: None, _global_config, pre_check_rules: Vec::new() }
    }

    pub fn get_name(&self) -> (r: &str)
        ensures
            r@ == self.name_view(),
    {
        self.name.as_str()
    }

    pub fn get_action_description(&self) -> (r: &'static str)
        ensures
            r@ == "Add files to staging area"@,
    {
        "Add files to staging area"
    }

    /// The same event, adding the files `mode` selects.
    pub fn with_add_mode(self, mode: AddMode) -> (r: Self)
        ensures
            r.pre_check_rules_view() == self.pre_check_rules_view(),
            r.name_view() == self.name_view(),
            r.mode_view() == Some(mode),
    {
        GitAdd { add_mode: Some(mode), ..self }
    }

    /// What adding does: add everything, add the selected files, or fail
    /// when no mode or no file was given.
    pub fn plan(&self) -> (r: Result<AddPlan, BGitError>)
        ensures
            match (r, add_plan_spec(self.mode_view())) {
                (Ok(AddPlan::AddAll), Ok(files)) => self.mode_view() == Some(AddMode::All),
                (Ok(AddPlan::AddFiles(v)), Ok(files)) => self.mode_view() != Some(AddMode::All)
                    && views(v@) == files,
                (Err(e), Err(msg)) => e@ == event_error_view(self.name_view(), msg),
                _ => false,
            },
    {
        match &self.add_mode {
            Some(AddMode::All) => Ok(AddPlan::AddAll),
            Some(AddMode::Selective(files)) => {
                if files.len() == 0 {
                    Err(event_error(self.name.as_str(), "No files selected for staging."))
                } else {
                    Ok(AddPlan::AddFiles(clone_strings(files)))
                }
            },
            None => Err(
                event_error(self.name.as_str(), "No add mode specified. Use 'with_add_mode' to set it."),
            ),
        }
    }
}

/// A copy of `v`.
pub fn clone_strings(v: &Vec<String>) -> (r: Vec<String>)
    ensures
        views(r@) == views(v@),
{
    let mut r: Vec<String> = Vec::new();
    let mut i: usize = 0;
    while i < v.len()
        invariant
            i <= v@.len(),
            r@.len() == i,
            views(r@) == views(v@).subrange(0, i as int),
        decreases v.len() - i,
    {
        let s = v[i].clone();
        assert(s@ == v@[i as int]@);
        let ghost old_r = r@;
        r.push(s);
        proof {
            assert forall|j: int| 0 <= j < i + 1 implies views(r@)[j] == views(v@).subrange(0, i + 1)[j] by {
                if j < i {
                    assert(r@[j] == old_r[j]);
                    assert(views(old_r)[j] == views(v@).subrange(0, i as int)[j]);
                }
            }
            assert(views(r@) =~= views(v@).subrange(0, i + 1));
        }
        i = i + 1;
    }
    assert(views(v@).subrange(0, v@.len() as int) =~= views(v@));
    r
}

} // verus!
