//! The rule that large files are committed through Git LFS.
use vstd::prelude::*;
use vstd::string::*;

use crate::config::WorkflowRules;
use crate::error::{error_view, BGitError, BGitErrorView, BGitErrorWorkflowType, NO_EVENT, NO_STEP};
use crate::events::StatusFlags;
use crate::paths::{extension, file_name, file_name_or_path, path_extension};
use crate::rules::{configured_level, rule_level_from_config, RuleLevel};
use crate::rules::secret_files::is_added_or_modified;
use crate::text::{contains_seq, first_word, first_word_exec, str_contains, str_eq, trim, trim_exec, views};

verus! {

/// The size above which a file should be in LFS: 5 MiB.
pub const LARGE_FILE_THRESHOLD_BYTES: u64 = 5242880;

/// Whether a line of `.gitattributes` puts `path` in LFS: the line (trimmed)
/// sets `filter=lfs`, and its pattern is the path, its file name, or
/// `*.<extension>` of it.
pub open spec fn lfs_line_covers(line: Seq<char>, path: Seq<char>) -> bool {
    let t = trim(line);
    let pattern = first_word(t);
    contains_seq(t, "filter=lfs"@) && (pattern == path || pattern == file_name_or_path(path) || (path_extension(path) matches Some(e) && pattern == "*."@ + e))
}

/// Whether some line of `.gitattributes` puts `path` in LFS.
pub open spec fn lfs_tracked(lines: Seq<Seq<char>>, path: Seq<char>) -> bool {
    exists|i: int| 0 <= i < lines.len() && #[trigger] lfs_line_covers(lines[i], path)
}

/// The entries (path, flags, size when it could be read) that are added or
/// modified, larger than `threshold` and not in LFS: their paths and sizes,
/// in order.
pub open spec fn large_untracked(entries: Seq<(String, StatusFlags, Option<u64>)>, threshold: u64, lines: Seq<Seq<char>>) -> Seq<(Seq<char>, u64)>
    decreases entries.len(),
{
    if entries.len() == 0 {
        Seq::empty()
    } else {
        let rest = large_untracked(entries.drop_last(), threshold, lines);
        let e = entries.last();
        match e.2 {
            Some(size) => if is_added_or_modified(e.1) && size > threshold && !lfs_tracked(lines, e.0@) {
                rest.push((e.0@, size))
            } else {
                rest
            },
            None => rest,
        }
    }
}

/// The line of `.gitattributes` that puts files with extension `ext` in LFS.
pub open spec fn lfs_line(ext: Seq<char>) -> Seq<char> {
    "*."@ + ext + " filter=lfs diff=lfs merge=lfs -text"@
}

pub struct NoLargeFile {
    name: String,
    description: String,
    level: RuleLevel,
    threshold_bytes: u64,
}

impl NoLargeFile {
    pub closed spec fn name_view(&self) -> Seq<char> {
        self.name@
    }

    pub closed spec fn description_view(&self) -> Seq<char> {
        self.description@
    }

    pub closed spec fn level_view(&self) -> RuleLevel {
        self.level
    }

    pub closed spec fn threshold_view(&self) -> u64 {
        self.threshold_bytes
    }

    /// The rule at the level configured for `NoLargeFile` (a warning by
    /// default), with a threshold of 5 MiB.
    pub fn new(workflow_rule_config: Option<&WorkflowRules>) -> (r: Self)
        ensures
            r.name_view() == "NoLargeFile"@,
            r.description_view() == "Ensure large files are tracked with Git LFS"@,
            r.level_view() == configured_level(workflow_rule_config, "NoLargeFile"@, RuleLevel::Warning),
            r.threshold_view() == LARGE_FILE_THRESHOLD_BYTES,
    {
        let name = "NoLargeFile";
        let level = rule_level_from_config(workflow_rule_config, name, RuleLevel::Warning);
        NoLargeFile {
            name: String::from_str(name),
            description: String::from_str("Ensure large files are tracked with Git LFS"),
            level,
            threshold_bytes: LARGE_FILE_THRESHOLD_BYTES,
        }
    }

    pub fn get_name(&self) -> (r: &str)
        ensures
            r@ == self.name_view(),
    {
        self.name.as_str()
    }

    pub fn get_description(&self) -> (r: &str)
        ensures
            r@ == self.description_view(),
    {
        self.description.as_str()
    }

    pub fn get_level(&self) -> (r: RuleLevel)
        ensures
            r == self.level_view(),
    {
        self.level
    }

    /// Whether one of the lines of `.gitattributes` (none when it is missing
    /// or unreadable) puts `file_path` in LFS.
    pub fn is_lfs_tracked(&self, file_path: &str, attribute_lines: &Vec<String>) -> (r: bool)
        ensures
            r == lfs_tracked(views(attribute_lines@), file_path@),
    {
        let name = match file_name(file_path) {
            Some(n) => n,
            None => String::from_str(file_path),
        };
        let ext = extension(file_path);
        let star = match &ext {
            Some(e) => {
                let mut s = String::from_str("*.");
                s.append(e.as_str());
                Some(s)
            },
            None => None,
        };
        let ghost lv = views(attribute_lines@);
        let mut i: usize = 0;
        while i < attribute_lines.len()
            invariant
                i <= attribute_lines@.len(),
                lv == views(attribute_lines@),
                name@ == file_name_or_path(file_path@),
                match path_extension(file_path@) {
                    Some(e) => star matches Some(s) && s@ == "*."@ + e,
                    None => star is None,
                },
                forall|j: int| 0 <= j < i ==> !#[trigger] lfs_line_covers(lv[j], file_path@),
            decreases attribute_lines.len() - i,
        {
            let t = trim_exec(attribute_lines[i].as_str());
            let covers = if str_contains(t.as_str(), "filter=lfs") {
                let pattern = first_word_exec(t.as_str());
                str_eq(pattern.as_str(), file_path) || str_eq(pattern.as_str(), name.as_str()) || match &star {
                    Some(s) => str_eq(pattern.as_str(), s.as_str()),
                    None => false,
                }
            } else {
                false
            };
            assert(lv[i as int] == attribute_lines@[i as int]@);
            if covers {
                assert(lfs_line_covers(lv[i as int], file_path@));
                return true;
            }
            assert(!lfs_line_covers(lv[i as int], file_path@));
            i = i + 1;
        }
        false
    }

    /// The added or modified entries larger than the threshold and not in
    /// LFS, with their sizes; an entry whose size could not be read is left
    /// out.
    pub fn large_files(&self, entries: &Vec<(String, StatusFlags, Option<u64>)>, attribute_lines: &Vec<String>) -> (r: Vec<(String, u64)>)
        ensures
            r@.map_values(|p: (String, u64)| (p.0@, p.1)) == large_untracked(entries@, self.threshold_view(), views(attribute_lines@)),
    {
        let mut r: Vec<(String, u64)> = Vec::new();
        let mut i: usize = 0;
        assert(r@.map_values(|p: (String, u64)| (p.0@, p.1)) =~= Seq::<(Seq<char>, u64)>::empty());
        while i < entries.len()
            invariant
                i <= entries@.len(),
                r@.map_values(|p: (String, u64)| (p.0@, p.1)) == large_untracked(entries@.subrange(0, i as int), self.threshold_view(), views(attribute_lines@)),
            decreases entries.len() - i,
        {
            let ghost prev = r@;
            assert(entries@.subrange(0, i + 1).drop_last() =~= entries@.subrange(0, i as int));
            let e = &entries[i];
            match e.2 {
                Some(size) => {
                    let f = e.1;
                    if (f.index_new || f.index_modified || f.wt_new || f.wt_modified) && size > self.threshold_bytes
                        && !self.is_lfs_tracked(e.0.as_str(), attribute_lines) {
                        r.push((e.0.clone(), size));
                        assert(r@.map_values(|p: (String, u64)| (p.0@, p.1)) =~= prev.map_values(|p: (String, u64)| (p.0@, p.1)).push((entries@[i as int].0@, size)));
                    }
                },
                None => {},
            }
            i = i + 1;
        }
        assert(entries@.subrange(0, entries@.len() as int) =~= entries@);
        r
    }

    /// The distinct extensions of the files, each once.
    pub fn lfs_extensions(&self, files: &Vec<String>) -> (r: Vec<String>)
        ensures
            forall|i: int, j: int| 0 <= i < j < r@.len() ==> #[trigger] r@[i]@ != #[trigger] r@[j]@,
            forall|e: Seq<char>| views(r@).contains(e) <==> exists|k: int| 0 <= k < files@.len() && path_extension(#[trigger] files@[k]@) == Some(e),
    {
        let mut r: Vec<String> = Vec::new();
        let mut i: usize = 0;
        while i < files.len()
            invariant
                i <= files@.len(),
                forall|a: int, b: int| 0 <= a < b < r@.len() ==> #[trigger] r@[a]@ != #[trigger] r@[b]@,
                forall|e: Seq<char>| views(r@).contains(e) <==> exists|k: int| 0 <= k < i && path_extension(#[trigger] files@[k]@) == Some(e),
            decreases files.len() - i,
        {
            let ghost prev = r@;
            match extension(files[i].as_str()) {
                Some(e) => {
                    let mut seen = false;
                    let mut j: usize = 0;
                    while j < r.len()
                        invariant
                            j <= r@.len(),
                            !seen ==> forall|k: int| 0 <= k < j ==> r@[k]@ != e@,
                            seen ==> views(r@).contains(e@),
                        decreases r.len() - j,
                    {
                        if str_eq(r[j].as_str(), e.as_str()) {
                            assert(views(r@)[j as int] == e@);
                            seen = true;
                        }
                        j = j + 1;
                    }
                    let ghost ev = e@;
                    if !seen {
                        r.push(e);
                        proof {
                            assert(views(r@) =~= views(prev).push(ev));
                            assert forall|a: int, b: int| 0 <= a < b < r@.len() implies #[trigger] r@[a]@ != #[trigger] r@[b]@ by {
                                if b == prev.len() {
                                    assert(views(prev)[a] == prev[a]@);
                                }
                            }
                        }
                    }
                    proof {
                        assert forall|x: Seq<char>| views(r@).contains(x) <==> exists|k: int| 0 <= k < i + 1 && path_extension(#[trigger] files@[k]@) == Some(x) by {
                            if views(r@).contains(x) && x != ev {
                                let t = choose|t: int| 0 <= t < views(r@).len() && views(r@)[t] == x;
                                if !seen {
                                    assert(views(prev).contains(x)) by {
                                        assert(views(prev)[t] == x);
                                    }
                                }
                            }
                            if exists|k: int| 0 <= k < i + 1 && path_extension(#[trigger] files@[k]@) == Some(x) {
                                let k = choose|k: int| 0 <= k < i + 1 && path_extension(#[trigger] files@[k]@) == Some(x);
                                if k == i {
                                    if !seen {
                                        assert(views(r@)[prev.len() as int] == ev);
                                    }
                                } else {
                                    assert(views(prev).contains(x));
                                    let t = choose|t: int| 0 <= t < views(prev).len() && views(prev)[t] == x;
                                    assert(views(r@)[t] == x);
                                }
                            }
                        }
                    }
                },
                None => {
                    assert forall|x: Seq<char>| views(r@).contains(x) <==> exists|k: int| 0 <= k < i + 1 && path_extension(#[trigger] files@[k]@) == Some(x) by {
                        if exists|k: int| 0 <= k < i + 1 && path_extension(#[trigger] files@[k]@) == Some(x) {
                            let k = choose|k: int| 0 <= k < i + 1 && path_extension(#[trigger] files@[k]@) == Some(x);
                            assert(k != i);
                        }
                    }
                },
            }
            i = i + 1;
        }
        r
    }

    /// The lines to append to `.gitattributes` (whose text is `existing`):
    /// for each extension, the LFS line, unless the text has it already.
    pub fn lfs_lines_to_add(&self, existing: &str, extensions: &Vec<String>) -> (r: Vec<String>)
        ensures
            views(r@) == views(extensions@).map_values(|e: Seq<char>| lfs_line(e)).filter(|l: Seq<char>| !contains_seq(existing@, l)),
    {
        let ghost target = views(extensions@).map_values(|e: Seq<char>| lfs_line(e));
        let mut r: Vec<String> = Vec::new();
        let mut i: usize = 0;
        assert(target.subrange(0, 0).filter(|l: Seq<char>| !contains_seq(existing@, l)) =~= Seq::<Seq<char>>::empty());
        while i < extensions.len()
            invariant
                i <= extensions@.len(),
                target == views(extensions@).map_values(|e: Seq<char>| lfs_line(e)),
                views(r@) == target.subrange(0, i as int).filter(|l: Seq<char>| !contains_seq(existing@, l)),
            decreases extensions.len() - i,
        {
            let ghost prev = r@;
            let mut line = String::from_str("*.");
            line.append(extensions[i].as_str());
            line.append(" filter=lfs diff=lfs merge=lfs -text");
            assert(line@ == target[i as int]);
            assert(target.subrange(0, i + 1).drop_last() =~= target.subrange(0, i as int));
            reveal(Seq::filter);
            if !str_contains(existing, line.as_str()) {
                r.push(line);
                assert(views(r@) =~= views(prev).push(target[i as int]));
            } else {
                assert(views(r@) =~= views(prev));
            }
            i = i + 1;
        }
        assert(target.subrange(0, extensions@.len() as int) =~= target);
        r
    }

    /// The error of a failed step of the fix: what failed, and why.
    pub fn fix_error(&self, what: &str, detail: &str) -> (e: BGitError)
        ensures
            e@ == error_view(what@, detail@, BGitErrorWorkflowType::Rules, NO_STEP@, NO_EVENT@, self.name_view()),
    {
        BGitError::new(what, detail, BGitErrorWorkflowType::Rules, NO_STEP, NO_EVENT, self.name.as_str())
    }
}

/// Every file reported is added or modified, larger than the threshold, and
/// not in LFS.
pub proof fn law_reported_files_are_large(entries: Seq<(String, StatusFlags, Option<u64>)>, threshold: u64, lines: Seq<Seq<char>>)
    ensures
        forall|i: int| 0 <= i < large_untracked(entries, threshold, lines).len() ==> {
            let (p, size) = #[trigger] large_untracked(entries, threshold, lines)[i];
            size > threshold && !lfs_tracked(lines, p) && exists|j: int| 0 <= j < entries.len()
                && entries[j].0@ == p && entries[j].2 == Some(size) && is_added_or_modified(entries[j].1)
        },
    decreases entries.len(),
{
    if entries.len() > 0 {
        let d = entries.drop_last();
        law_reported_files_are_large(d, threshold, lines);
        let rest = large_untracked(d, threshold, lines);
        let all = large_untracked(entries, threshold, lines);
        assert forall|i: int| 0 <= i < all.len() implies {
            let (p, size) = #[trigger] all[i];
            size > threshold && !lfs_tracked(lines, p) && exists|j: int| 0 <= j < entries.len()
                && entries[j].0@ == p && entries[j].2 == Some(size) && is_added_or_modified(entries[j].1)
        } by {
            if i < rest.len() {
                assert(all[i] == rest[i]);
                let (p, size) = rest[i];
                let j = choose|j: int| 0 <= j < d.len() && d[j].0@ == p && d[j].2 == Some(size) && is_added_or_modified(d[j].1);
                assert(entries[j] == d[j]);
            } else {
                assert(entries[entries.len() - 1] == entries.last());
            }
        }
    }
}

/// No large file goes unreported: every entry that is new or modified, in
/// the index or the working tree, whose size could be read and is above the
/// threshold, and that no LFS line covers, is reported with its size.
pub proof fn law_large_changed_files_reported(
    entries: Seq<(String, StatusFlags, Option<u64>)>,
    threshold: u64,
    lines: Seq<Seq<char>>,
    i: int,
    size: u64,
)
    requires
        0 <= i < entries.len(),
        entries[i].1.index_new || entries[i].1.index_modified || entries[i].1.wt_new || entries[i].1.wt_modified,
        entries[i].2 == Some(size),
        size > threshold,
        !lfs_tracked(lines, entries[i].0@),
    ensures
        large_untracked(entries, threshold, lines).contains((entries[i].0@, size)),
    decreases entries.len(),
{
    let d = entries.drop_last();
    let rest = large_untracked(d, threshold, lines);
    if i == entries.len() - 1 {
        assert(large_untracked(entries, threshold, lines).last() == (entries[i].0@, size));
    } else {
        assert(d[i] == entries[i]);
        law_large_changed_files_reported(d, threshold, lines, i, size);
        let j = choose|j: int| 0 <= j < rest.len() && rest[j] == (entries[i].0@, size);
        assert(large_untracked(entries, threshold, lines)[j] == (entries[i].0@, size));
    }
}

} // verus!
