//! Reading the status of the working tree and the index.
use vstd::prelude::*;
use vstd::string::*;

use crate::events::StatusFlags;

use crate::rules::{PreCheckRules, Rule};

verus! {

#[derive(Debug, Clone, Copy, PartialEq, Eq, Structural)]
pub enum StatusMode {
    /// Report whether anything is unstaged or new.
    CheckOnly,
    /// List what is unstaged or new.
    ListFiles,
}

/// A path with a change in the working tree, and what the change is.
#[derive(Debug, Clone)]
pub struct FileStatus {
    pub path: String,
    pub status_type: String,
}

impl View for FileStatus {
    type V = (Seq<char>, Seq<char>);

    open spec fn view(&self) -> (Seq<char>, Seq<char>) {
        (self.path@, self.status_type@)
    }
}

/// The path changed in the working tree (modified, deleted, retyped, renamed
/// or untracked).
pub open spec fn is_unstaged(f: StatusFlags) -> bool {
    f.wt_modified || f.wt_deleted || f.wt_typechange || f.wt_renamed || f.wt_new
}

/// The path has a change in the index.
pub open spec fn is_staged(f: StatusFlags) -> bool {
    f.index_new || f.index_modified || f.index_deleted || f.index_renamed || f.index_typechange
}

/// How a working-tree change is described; the first of new, modified,
/// deleted, type changed and renamed that applies.
pub open spec fn status_type_spec(f: StatusFlags) -> Seq<char> {
    if f.wt_new {
        "New file"@
    } else if f.wt_modified {
        "Modified"@
    } else if f.wt_deleted {
        "Deleted"@
    } else if f.wt_typechange {
        "Type changed"@
    } else if f.wt_renamed {
        "Renamed"@
    } else {
        "Unknown"@
    }
}

/// The unstaged entries of `entries`, in order, each with its description.
pub open spec fn unstaged_list(entries: Seq<(String, StatusFlags)>) -> Seq<(Seq<char>, Seq<char>)>
    decreases entries.len(),
{
    if entries.len() == 0 {
        Seq::empty()
    } else {
        let rest = unstaged_list(entries.drop_last());
        let e = entries.last();
        if is_unstaged(e.1) {
            rest.push((e.0@, status_type_spec(e.1)))
        } else {
            rest
        }
    }
}

pub open spec fn file_views(v: Seq<FileStatus>) -> Seq<(Seq<char>, Seq<char>)> {
    v.map_values(|f: FileStatus| f@)
}

/// The description of a working-tree change.
pub fn status_type(f: StatusFlags) -> (r: &'static str)
    ensures
        r@ == status_type_spec(f),
{
    if f.wt_new {
        "New file"
    } else if f.wt_modified {
        "Modified"
    } else if f.wt_deleted {
        "Deleted"
    } else if f.wt_typechange {
        "Type changed"
    } else if f.wt_renamed {
        "Renamed"
    } else {
        "Unknown"
    }
}

/// Whether some entry is unstaged or new.
pub fn has_unstaged_or_new_files(entries: &Vec<(String, StatusFlags)>) -> (r: bool)
    ensures
        r == exists|i: int| 0 <= i < entries@.len() && #[trigger] is_unstaged(entries@[i].1),
{
    let mut i: usize = 0;
    while i < entries.len()
        invariant
            i <= entries@.len(),
            forall|j: int| 0 <= j < i ==> !#[trigger] is_unstaged(entries@[j].1),
        decreases entries.len() - i,
    {
        let f = entries[i].1;
        if f.wt_modified || f.wt_deleted || f.wt_typechange || f.wt_renamed || f.wt_new {
            assert(is_unstaged(entries@[i as int].1));
            return true;
        }
        i = i + 1;
    }
    false
}

/// Whether some entry has a change in the index.
pub fn has_staged_files(entries: &Vec<(String, StatusFlags)>) -> (r: bool)
    ensures
        r == exists|i: int| 0 <= i < entries@.len() && #[trigger] is_staged(entries@[i].1),
{
    let mut i: usize = 0;
    while i < entries.len()
        invariant
            i <= entries@.len(),
            forall|j: int| 0 <= j < i ==> !#[trigger] is_staged(entries@[j].1),
        decreases entries.len() - i,
    {
        let f = entries[i].1;
        if f.index_new || f.index_modified || f.index_deleted || f.index_renamed || f.index_typechange {
            assert(is_staged(entries@[i as int].1));
            return true;
        }
        i = i + 1;
    }
    false
}

/// Whether some entry is untracked.
pub fn has_new_files(entries: &Vec<(String, StatusFlags)>) -> (r: bool)
    ensures
        r == exists|i: int| 0 <= i < entries@.len() && #[trigger] entries@[i].1.wt_new,
{
    let mut i: usize = 0;
    while i < entries.len()
        invariant
            i <= entries@.len(),
            forall|j: int| 0 <= j < i ==> !#[trigger] entries@[j].1.wt_new,
        decreases entries.len() - i,
    {
        if entries[i].1.wt_new {
            assert(entries@[i as int].1.wt_new);
            return true;
        }
        i = i + 1;
    }
    false
}

/// The unstaged and new entries, in order, with what changed in each.
pub fn get_unstaged_files_list(entries: &Vec<(String, StatusFlags)>) -> (r: Vec<FileStatus>)
    ensures
        file_views(r@) == unstaged_list(entries@),
{
    let mut r: Vec<FileStatus> = Vec::new();
    let mut i: usize = 0;
    while i < entries.len()
        invariant
            i <= entries@.len(),
            file_views(r@) == unstaged_list(entries@.subrange(0, i as int)),
        decreases entries.len() - i,
    {
        let ghost prev = r@;
        let f = entries[i].1;
        proof {
            assert(entries@.subrange(0, i + 1).drop_last() =~= entries@.subrange(0, i as int));
        }
        if f.wt_modified || f.wt_deleted || f.wt_typechange || f.wt_renamed || f.wt_new {
            let path = entries[i].0.clone();
            let st = status_type(f);
            r.push(FileStatus { path, status_type: String::from_str(st) });
            proof {
                assert(file_views(r@) =~= file_views(prev).push(r@.last()@));
            }
        } else {
            assert(r@ == prev);
        }
        i = i + 1;
    }
    assert(entries@.subrange(0, entries@.len() as int) =~= entries@);
    r
}

pub struct GitStatus {
    name: String,
    mode: StatusMode,
    pre_check_rules: PreCheckRules,
}

impl GitStatus {
    /// The rules checked before the event runs, in the order they were
    /// added.
    pub closed spec fn pre_check_rules_view(&self) -> Seq<Box<dyn Rule>> {
        self.pre_check_rules@
    }

    /// Adds `rule` after the rules already checked before the event runs;
    /// the event is otherwise unchanged.
    pub fn add_pre_check_rule(&mut self, rule: Box<dyn Rule>)
        ensures
            final(self).pre_check_rules_view() == old(self).pre_check_rules_view().push(rule),
            final(self).name_view() == old(self).name_view(),
            final(self).mode_view() == old(self).mode_view(),
    {
        self.pre_check_rules.push(rule);
    }

    /// The rules checked before the event runs, in the order they were
    /// added.
    pub fn get_pre_check_rule(&self) -> (r: &PreCheckRules)
        ensures
            r@ == self.pre_check_rules_view(),
    {
        &self.pre_check_rules
    }

    pub closed spec fn name_view(&self) -> Seq<char> {
        self.name@
    }

    pub closed spec fn mode_view(&self) -> StatusMode {
        self.mode
    }

    /// The event `git_status`, only checking.
    pub fn new() -> (r: Self)
        ensures
            r.pre_check_rules_view().len() == 0,
            r.name_view() == "git_status"@,
            r.mode_view() == StatusMode::CheckOnly,
    {
        GitStatus { name: String::from_str("git_status"), mode: StatusMode::CheckOnly, pre_check_rules: Vec::new() }
    }

    /// The event `git_status` in `mode`.
    pub fn with_mode(mode: StatusMode) -> (r: Self)
        ensures
            r.pre_check_rules_view().len() == 0,
            r.name_view() == "git_status"@,
            r.mode_view() == mode,
    {
        GitStatus { name: String::from_str("git_status"), mode, pre_check_rules: Vec::new() }
    }

    pub fn get_name(&self) -> (r: &str)
        ensures
            r@ == self.name_view(),
    {
        self.name.as_str()
    }

    pub fn get_action_description(&self) -> (r: &'static str)
        ensures
            r@ == "Show the working tree status"@,
    {
        "Show the working tree status"
    }

    /// The unstaged and new entries of `entries`.
    pub fn get_unstaged_files(&self, entries: &Vec<(String, StatusFlags)>) -> (r: Vec<FileStatus>)
        ensures
            file_views(r@) == unstaged_list(entries@),
    {
        get_unstaged_files_list(entries)
    }

    /// The outcome of the event on `entries`: whether anything is unstaged
    /// or new (in either mode).
    pub fn execute_on(&self, entries: &Vec<(String, StatusFlags)>) -> (r: bool)
        ensures
            r == (exists|i: int| 0 <= i < entries@.len() && #[trigger] is_unstaged(entries@[i].1)),
    {
        match self.mode {
            StatusMode::CheckOnly => has_unstaged_or_new_files(entries),
            StatusMode::ListFiles => {
                let files = get_unstaged_files_list(entries);
                proof {
                    law_list_empty_iff_clean(entries@);
                }
                files.len() > 0
            },
        }
    }
}

/// Listing finds files exactly when checking reports some: the list of
/// unstaged entries is empty exactly when no entry is unstaged.
pub proof fn law_list_empty_iff_clean(entries: Seq<(String, StatusFlags)>)
    ensures
        (unstaged_list(entries).len() > 0) == (exists|i: int| 0 <= i < entries.len() && #[trigger] is_unstaged(entries[i].1)),
    decreases entries.len(),
{
    if entries.len() > 0 {
        law_list_empty_iff_clean(entries.drop_last());
        let d = entries.drop_last();
        if exists|i: int| 0 <= i < d.len() && #[trigger] is_unstaged(d[i].1) {
            let i = choose|i: int| 0 <= i < d.len() && #[trigger] is_unstaged(d[i].1);
            assert(entries[i] == d[i]);
        }
        if exists|i: int| 0 <= i < entries.len() && #[trigger] is_unstaged(entries[i].1) {
            let i = choose|i: int| 0 <= i < entries.len() && #[trigger] is_unstaged(entries[i].1);
            if i < entries.len() - 1 {
                assert(d[i] == entries[i]);
            }
        }
    }
}

/// Every change in the working tree counts as unstaged: an entry that is
/// new, modified, deleted, retyped or renamed in the working tree makes the
/// check report unstaged files.
pub proof fn law_worktree_change_is_unstaged(entries: Seq<(String, StatusFlags)>, i: int)
    requires
        0 <= i < entries.len(),
        entries[i].1.wt_new || entries[i].1.wt_modified || entries[i].1.wt_deleted || entries[i].1.wt_typechange
            || entries[i].1.wt_renamed,
    ensures
        exists|j: int| 0 <= j < entries.len() && #[trigger] is_unstaged(entries[j].1),
{
    assert(is_unstaged(entries[i].1));
}

/// Every change in the working tree is listed with its path and what
/// changed: a file deleted in the working tree (and neither new nor
/// modified there) is listed as `Deleted`, a new one as `New file`, a
/// modified one as `Modified`.
pub proof fn law_worktree_change_listed(entries: Seq<(String, StatusFlags)>, i: int)
    requires
        0 <= i < entries.len(),
        entries[i].1.wt_new || entries[i].1.wt_modified || entries[i].1.wt_deleted || entries[i].1.wt_typechange
            || entries[i].1.wt_renamed,
    ensures
        exists|j: int| 0 <= j < unstaged_list(entries).len() && #[trigger] unstaged_list(entries)[j].0 == entries[i].0@
            && unstaged_list(entries)[j].1 == status_type_spec(entries[i].1),
        entries[i].1.wt_new ==> status_type_spec(entries[i].1) == "New file"@,
        !entries[i].1.wt_new && entries[i].1.wt_modified ==> status_type_spec(entries[i].1) == "Modified"@,
        !entries[i].1.wt_new && !entries[i].1.wt_modified && entries[i].1.wt_deleted ==> status_type_spec(entries[i].1)
            == "Deleted"@,
    decreases entries.len(),
{
    let d = entries.drop_last();
    let rest = unstaged_list(d);
    if i == entries.len() - 1 {
        let j = rest.len() as int;
        assert(unstaged_list(entries)[j] == (entries[i].0@, status_type_spec(entries[i].1)));
        assert(unstaged_list(entries)[j].0 == entries[i].0@);
    } else {
        assert(d[i] == entries[i]);
        law_worktree_change_listed(d, i);
        let j = choose|j: int| 0 <= j < rest.len() && #[trigger] rest[j].0 == entries[i].0@ && rest[j].1 == status_type_spec(entries[i].1);
        assert(unstaged_list(entries)[j] == rest[j]);
        assert(unstaged_list(entries)[j].0 == entries[i].0@);
    }
}

} // verus!
