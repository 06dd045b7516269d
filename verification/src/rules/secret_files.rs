//! The rule that no file that usually holds secrets (keys, `.env`,
//! credentials) is staged.
use vstd::prelude::*;
use vstd::string::*;

use crate::error::{error_view, BGitError, BGitErrorView, BGitErrorWorkflowType, NO_EVENT, NO_STEP};
use crate::events::StatusFlags;
use crate::paths::{file_name, file_name_or_path};
use crate::pattern::{regex_compiles, regex_finds, Pattern};
use crate::rules::{RuleLevel, RuleOutput, RuleOutputView};
use crate::text::{join, join_exec, str_eq, views};

verus! {

/// The patterns of the names of files that hold secrets.
pub open spec fn secret_file_pattern_texts() -> Seq<Seq<char>> {
    seq![
        r"^\.env$"@, r"^\.env\..*"@, r".*\.pem$"@, r".*\.key$"@, r".*\.p12$"@, r".*\.pfx$"@,
        r"^id_rsa$"@, r"^id_dsa$"@, r"^id_ecdsa$"@, r"^id_ed25519$"@, r".*_rsa$"@, r".*_dsa$"@,
        r".*_ecdsa$"@, r".*_ed25519$"@, r"^\.ssh/.*"@, r"^config/secrets\..*"@, r"^secrets\..*"@,
        r".*secret.*\.json$"@, r".*secret.*\.yaml$"@, r".*secret.*\.yml$"@, r".*credentials.*\.json$"@,
        r".*credentials.*\.yaml$"@, r".*credentials.*\.yml$"@, r"^\.aws/credentials$"@,
        r"^\.aws/config$"@, r"^\.docker/config\.json$"@, r".*\.token$"@, r".*\.password$"@,
    ]
}

/// The patterns of `texts` that compile, in order.
pub open spec fn compiled(texts: Seq<Seq<char>>) -> Seq<Seq<char>>
    decreases texts.len(),
{
    if texts.len() == 0 {
        Seq::empty()
    } else if regex_compiles(texts.last()) {
        compiled(texts.drop_last()).push(texts.last())
    } else {
        compiled(texts.drop_last())
    }
}

pub open spec fn sources(ps: Seq<Pattern>) -> Seq<Seq<char>> {
    ps.map_values(|p: Pattern| p.source())
}

/// Whether `path`, or its file name, matches one of the patterns.
pub open spec fn is_secret_path(path: Seq<char>, patterns: Seq<Seq<char>>) -> bool {
    exists|i: int| 0 <= i < patterns.len() && (regex_finds(#[trigger] patterns[i], path) || regex_finds(patterns[i], file_name_or_path(path)))
}

/// The entry is new or modified, in the index or the working tree.
pub open spec fn is_added_or_modified(f: StatusFlags) -> bool {
    f.index_new || f.index_modified || f.wt_new || f.wt_modified
}

/// The paths of the entries that are added or modified and look like secret
/// files, in order.
pub open spec fn secret_paths(entries: Seq<(String, StatusFlags)>, patterns: Seq<Seq<char>>) -> Seq<Seq<char>>
    decreases entries.len(),
{
    if entries.len() == 0 {
        Seq::empty()
    } else {
        let rest = secret_paths(entries.drop_last(), patterns);
        let e = entries.last();
        if is_added_or_modified(e.1) && is_secret_path(e.0@, patterns) {
            rest.push(e.0@)
        } else {
            rest
        }
    }
}

/// The files not yet in `.gitignore`, in order (each as often as it comes).
pub open spec fn gitignore_additions_spec(existing: Seq<Seq<char>>, files: Seq<Seq<char>>) -> Seq<Seq<char>>
    decreases files.len(),
{
    if files.len() == 0 {
        Seq::empty()
    } else {
        let rest = gitignore_additions_spec(existing, files.drop_last());
        if existing.contains(files.last()) {
            rest
        } else {
            rest.push(files.last())
        }
    }
}

pub struct NoSecretFilesStaged {
    name: String,
    description: String,
    level: RuleLevel,
}

impl NoSecretFilesStaged {
    pub closed spec fn name_view(&self) -> Seq<char> {
        self.name@
    }

    pub closed spec fn description_view(&self) -> Seq<char> {
        self.description@
    }

    pub closed spec fn level_view(&self) -> RuleLevel {
        self.level
    }

    /// The rule, always at the error level.
    pub fn new() -> (r: Self)
        ensures
            r.name_view() == "NoSecretFilesStaged"@,
            r.description_view() == "Prevent staging of files that might contain secrets"@,
            r.level_view() == RuleLevel::Error,
    {
        NoSecretFilesStaged {
            name: String::from_str("NoSecretFilesStaged"),
            description: String::from_str("Prevent staging of files that might contain secrets"),
            level: RuleLevel::Error,
        }
    }

    pub fn get_name(&self) -> (r: &str)
        ensures
            r@ == self.name_view(),
    {
        self.name.as_str()
    }

    pub fn get_description(&self) -> (r: &str)
        ensures
            r@ == self.description_view(),
    {
        self.description.as_str()
    }

    pub fn get_level(&self) -> (r: RuleLevel)
        ensures
            r == self.level_view(),
    {
        self.level
    }

    /// The compiled patterns of secret files (those the `regex` crate
    /// accepts), in order.
    pub fn get_secret_file_patterns(&self) -> (r: Vec<Pattern>)
        ensures
            sources(r@) == compiled(secret_file_pattern_texts()),
    {
        let texts: Vec<&str> = vec![
            r"^\.env$", r"^\.env\..*", r".*\.pem$", r".*\.key$", r".*\.p12$", r".*\.pfx$",
            r"^id_rsa$", r"^id_dsa$", r"^id_ecdsa$", r"^id_ed25519$", r".*_rsa$", r".*_dsa$",
            r".*_ecdsa$", r".*_ed25519$", r"^\.ssh/.*", r"^config/secrets\..*", r"^secrets\..*",
            r".*secret.*\.json$", r".*secret.*\.yaml$", r".*secret.*\.yml$", r".*credentials.*\.json$",
            r".*credentials.*\.yaml$", r".*credentials.*\.yml$", r"^\.aws/credentials$",
            r"^\.aws/config$", r"^\.docker/config\.json$", r".*\.token$", r".*\.password$",
        ];
        let ghost tv = texts@.map_values(|t: &str| t@);
        assert(tv =~= secret_file_pattern_texts());
        let mut r: Vec<Pattern> = Vec::new();
        let mut i: usize = 0;
        assert(tv.subrange(0, 0) =~= Seq::<Seq<char>>::empty());
        assert(sources(r@) =~= Seq::<Seq<char>>::empty());
        while i < texts.len()
            invariant
                i <= texts@.len(),
                tv == texts@.map_values(|t: &str| t@),
                sources(r@) == compiled(tv.subrange(0, i as int)),
            decreases texts.len() - i,
        {
            let ghost prev = r@;
            assert(tv.subrange(0, i + 1).drop_last() =~= tv.subrange(0, i as int));
            assert(tv.subrange(0, i + 1).last() == texts@[i as int]@);
            match Pattern::new(texts[i]) {
                Some(p) => {
                    r.push(p);
                    assert(sources(r@) =~= sources(prev).push(r@.last().source()));
                },
                None => {},
            }
            i = i + 1;
        }
        assert(tv.subrange(0, texts@.len() as int) =~= tv);
        r
    }

    /// Whether `file_path`, or its file name, matches one of `patterns`.
    pub fn is_secret_file(&self, file_path: &str, patterns: &Vec<Pattern>) -> (r: bool)
        ensures
            r == is_secret_path(file_path@, sources(patterns@)),
    {
        let name = match file_name(file_path) {
            Some(n) => n,
            None => String::from_str(file_path),
        };
        let ghost sv = sources(patterns@);
        let mut i: usize = 0;
        while i < patterns.len()
            invariant
                i <= patterns@.len(),
                sv == sources(patterns@),
                name@ == file_name_or_path(file_path@),
                forall|j: int| 0 <= j < i ==> !(regex_finds(#[trigger] sv[j], file_path@) || regex_finds(sv[j], file_name_or_path(file_path@))),
            decreases patterns.len() - i,
        {
            if patterns[i].is_match(file_path) || patterns[i].is_match(name.as_str()) {
                assert(regex_finds(sv[i as int], file_path@) || regex_finds(sv[i as int], file_name_or_path(file_path@)));
                return true;
            }
            i = i + 1;
        }
        false
    }

    /// The added or modified entries that look like secret files.
    pub fn secret_files(&self, entries: &Vec<(String, StatusFlags)>, patterns: &Vec<Pattern>) -> (r: Vec<String>)
        ensures
            views(r@) == secret_paths(entries@, sources(patterns@)),
    {
        let mut r: Vec<String> = Vec::new();
        let mut i: usize = 0;
        assert(views(r@) =~= Seq::<Seq<char>>::empty());
        while i < entries.len()
            invariant
                i <= entries@.len(),
                views(r@) == secret_paths(entries@.subrange(0, i as int), sources(patterns@)),
            decreases entries.len() - i,
        {
            let ghost prev = r@;
            assert(entries@.subrange(0, i + 1).drop_last() =~= entries@.subrange(0, i as int));
            let f = entries[i].1;
            if (f.index_new || f.index_modified || f.wt_new || f.wt_modified) && self.is_secret_file(entries[i].0.as_str(), patterns) {
                r.push(entries[i].0.clone());
                assert(views(r@) =~= views(prev).push(entries@[i as int].0@));
            }
            i = i + 1;
        }
        assert(entries@.subrange(0, entries@.len() as int) =~= entries@);
        r
    }

    /// The check, from the status entries.
    pub fn check_entries(&self, entries: &Vec<(String, StatusFlags)>) -> (r: RuleOutput)
        ensures
            ({
                let found = secret_paths(entries@, compiled(secret_file_pattern_texts()));
                if found.len() == 0 {
                    r@ == RuleOutputView::Success
                } else {
                    r@ == RuleOutputView::Exception("Potential secret files detected: "@ + join(found, ", "@))
                }
            }),
    {
        let patterns = self.get_secret_file_patterns();
        let found = self.secret_files(entries, &patterns);
        if found.len() == 0 {
            RuleOutput::Success
        } else {
            let mut m = String::from_str("Potential secret files detected: ");
            let j = join_exec(&found, ", ");
            m.append(j.as_str());
            RuleOutput::Exception(m)
        }
    }

    /// The files to add to `.gitignore`: those not among its lines yet.
    pub fn gitignore_additions(&self, existing: &Vec<String>, files: &Vec<String>) -> (r: Vec<String>)
        ensures
            views(r@) == gitignore_additions_spec(views(existing@), views(files@)),
    {
        let ghost ev = views(existing@);
        let ghost fv = views(files@);
        let mut r: Vec<String> = Vec::new();
        let mut i: usize = 0;
        assert(views(r@) =~= Seq::<Seq<char>>::empty());
        assert(fv.subrange(0, 0) =~= Seq::<Seq<char>>::empty());
        while i < files.len()
            invariant
                i <= files@.len(),
                ev == views(existing@),
                fv == views(files@),
                views(r@) == gitignore_additions_spec(ev, fv.subrange(0, i as int)),
            decreases files.len() - i,
        {
            let ghost prev = r@;
            assert(fv.subrange(0, i + 1).drop_last() =~= fv.subrange(0, i as int));
            assert(fv.subrange(0, i + 1).last() == files@[i as int]@);
            let mut present = false;
            let mut j: usize = 0;
            while j < existing.len()
                invariant
                    j <= existing@.len(),
                    ev == views(existing@),
                    !present ==> forall|k: int| 0 <= k < j ==> ev[k] != files@[i as int]@,
                    present ==> ev.contains(files@[i as int]@),
                    i < files@.len(),
                decreases existing.len() - j,
            {
                if str_eq(existing[j].as_str(), files[i].as_str()) {
                    assert(ev[j as int] == files@[i as int]@);
                    present = true;
                }
                j = j + 1;
            }
            if !present {
                r.push(files[i].clone());
                assert(views(r@) =~= views(prev).push(files@[i as int]@));
            }
            i = i + 1;
        }
        assert(fv.subrange(0, files@.len() as int) =~= fv);
        r
    }

    /// The error of a failed step of the fix: what failed, and why.
    pub fn fix_error(&self, what: &str, detail: &str) -> (e: BGitError)
        ensures
            e@ == error_view(what@, detail@, BGitErrorWorkflowType::Rules, NO_STEP@, NO_EVENT@, self.name_view()),
    {
        BGitError::new(what, detail, BGitErrorWorkflowType::Rules, NO_STEP, NO_EVENT, self.name.as_str())
    }
}

/// `.gitignore` gets exactly the files it does not list yet: each addition
/// is one of the files and not among the existing lines, and each file not
/// among them is added.
pub proof fn law_gitignore_adds_only_new(existing: Seq<Seq<char>>, files: Seq<Seq<char>>)
    ensures
        forall|x: Seq<char>| gitignore_additions_spec(existing, files).contains(x) <==> (files.contains(x) && !existing.contains(x)),
    decreases files.len(),
{
    if files.len() > 0 {
        law_gitignore_adds_only_new(existing, files.drop_last());
        let rest = gitignore_additions_spec(existing, files.drop_last());
        assert forall|x: Seq<char>| gitignore_additions_spec(existing, files).contains(x) <==> (files.contains(x) && !existing.contains(x)) by {
            if files.contains(x) && x != files.last() {
                let i = choose|i: int| 0 <= i < files.len() && files[i] == x;
                assert(files.drop_last()[i] == x);
            }
            if files.drop_last().contains(x) {
                let i = choose|i: int| 0 <= i < files.drop_last().len() && files.drop_last()[i] == x;
                assert(files[i] == x);
            }
            if !existing.contains(files.last()) {
                assert(rest.push(files.last())[rest.len() as int] == files.last());
                if rest.contains(x) {
                    let i = choose|i: int| 0 <= i < rest.len() && rest[i] == x;
                    assert(rest.push(files.last())[i] == x);
                }
                if rest.push(files.last()).contains(x) && x != files.last() {
                    let i = choose|i: int| 0 <= i < rest.len() + 1 && rest.push(files.last())[i] == x;
                    assert(rest[i] == x);
                }
            }
            assert(files[files.len() - 1] == files.last());
        }
    }
}

/// No staged or changed secret file goes unreported: every entry that is
/// new or modified, in the index or the working tree, and whose path or
/// file name matches one of the patterns, is among the files reported.
pub proof fn law_changed_secret_files_reported(entries: Seq<(String, StatusFlags)>, patterns: Seq<Seq<char>>, i: int)
    requires
        0 <= i < entries.len(),
        entries[i].1.index_new || entries[i].1.index_modified || entries[i].1.wt_new || entries[i].1.wt_modified,
        exists|k: int| 0 <= k < patterns.len() && (regex_finds(#[trigger] patterns[k], entries[i].0@) || regex_finds(
            patterns[k],
            file_name_or_path(entries[i].0@),
        )),
    ensures
        secret_paths(entries, patterns).contains(entries[i].0@),
    decreases entries.len(),
{
    let d = entries.drop_last();
    let rest = secret_paths(d, patterns);
    if i == entries.len() - 1 {
        assert(is_secret_path(entries[i].0@, patterns));
        assert(secret_paths(entries, patterns).last() == entries[i].0@);
    } else {
        assert(d[i] == entries[i]);
        law_changed_secret_files_reported(d, patterns, i);
        let j = choose|j: int| 0 <= j < rest.len() && rest[j] == entries[i].0@;
        assert(secret_paths(entries, patterns)[j] == entries[i].0@);
    }
}

} // verus!
