//! The rule that no secret (token, key, password) is in the staged changes.
//!
//! The staged diff is searched with a list of patterns; a candidate secret
//! must be long enough, random enough (its Shannon entropy, measured in
//! floating point outside this library, reaches the pattern's threshold) and
//! pass the pattern's validator. File names of sensitive files in the diff
//! headers, and high-entropy values assigned to suspicious names, are
//! reported too.
use vstd::prelude::*;
use vstd::string::*;

use crate::config::WorkflowRules;
use crate::pattern::{captured_views, regex_captures, regex_compiles, Captured, Pattern};
use crate::rules::{configured_level, rule_level_from_config, RuleLevel, RuleOutput, RuleOutputView};
use crate::text::{
    byte_prefix, byte_prefix_exec, char_alphanumeric, chars_of, contains_seq, ends_with, is_alphanumeric,
    join, join_exec, lines, lines_exec, lowercase, replace_all, replace_all_exec, starts_with,
    str_contains, str_eq, str_starts_with, strip_all_prefix, strip_all_prefix_exec, to_lowercase, trim,
    trim_exec, utf8_len, utf8_len_exec, views,
};

verus! {

/// A check a candidate secret must pass.
#[derive(Debug, Clone, Copy, PartialEq, Eq, Structural)]
pub enum Validator {
    /// Not a placeholder, a run of one character or of consecutive
    /// characters, or an obvious test value.
    NotCommonWord,
    /// Looks like base64.
    Base64,
}

/// The placeholders that mark a value as no secret.
pub open spec fn common_words() -> Seq<Seq<char>> {
    seq![
        "example"@, "placeholder"@, "dummy"@, "test"@, "sample"@, "default"@, "your_key_here"@,
        "insert_key_here"@, "replace_with_key"@, "changeme"@, "12345678901234567890"@,
        "abcdefghijklmnopqrstuvwxyz"@, "ABCDEFGHIJKLMNOPQRSTUVWXYZ"@, "1234567890abcdef"@, "null"@,
        "none"@, "todo"@, "fixme"@, "temp"@, "temporary"@,
    ]
}

/// The low byte of a character's code (what `c as u8` keeps).
pub open spec fn low_byte(c: char) -> int {
    (c as u32 as int) % 256
}

/// Scans for six characters in a row whose low bytes go up by one, from
/// position `i` with a run of `count` so far. `None` where the next low
/// byte cannot be computed in a `u8` (a low byte of 0xFF before the last
/// character): the scan has no answer there.
pub open spec fn sequential_scan(cs: Seq<char>, i: int, count: int) -> Option<bool>
    decreases cs.len() - i,
{
    if i < 1 || i >= cs.len() {
        Some(false)
    } else if low_byte(cs[i - 1]) == 255 {
        None
    } else if low_byte(cs[i]) == low_byte(cs[i - 1]) + 1 {
        if count + 1 >= 6 {
            Some(true)
        } else {
            sequential_scan(cs, i + 1, count + 1)
        }
    } else {
        sequential_scan(cs, i + 1, 1)
    }
}

/// Whether `s` (of at least six bytes) has six characters in a row whose
/// low bytes go up by one.
pub open spec fn is_sequential_spec(s: Seq<char>) -> Option<bool> {
    if utf8_len(s) < 6 {
        Some(false)
    } else {
        sequential_scan(s, 1, 1)
    }
}

/// Every character of `s` is the same.
pub open spec fn all_same(s: Seq<char>) -> bool {
    forall|i: int| 0 <= i < s.len() ==> #[trigger] s[i] == s[0]
}

/// Whether `s` passes as a real secret: no placeholder in its lowercase
/// form, not one repeated character, no run of six consecutive characters,
/// no `test`/`fake`/`mock` start or `test`/`example` end when 8 bytes or
/// longer. `None` where the consecutive-run scan overflows.
pub open spec fn not_common_word_spec(s: Seq<char>) -> Option<bool> {
    let lower = lowercase(s);
    if exists|i: int| 0 <= i < common_words().len() && contains_seq(lower, #[trigger] common_words()[i]) {
        Some(false)
    } else if utf8_len(s) > 3 && all_same(s) {
        Some(false)
    } else {
        match is_sequential_spec(s) {
            None => None,
            Some(true) => Some(false),
            Some(false) => if utf8_len(s) >= 8 && (starts_with(s, "test"@) || starts_with(s, "fake"@)
                || starts_with(s, "mock"@) || ends_with(s, "test"@) || ends_with(s, "example"@)) {
                Some(false)
            } else {
                Some(true)
            },
        }
    }
}

/// Whether `s` looks like base64: only alphanumerics, `+`, `/` and `=`, and
/// a length in bytes that is a multiple of four.
pub open spec fn base64_like(s: Seq<char>) -> bool {
    (forall|i: int| 0 <= i < s.len() ==> char_alphanumeric(#[trigger] s[i]) || s[i] == '+' || s[i] == '/' || s[i] == '=')
        && utf8_len(s) % 4 == 0
}

/// Whether a candidate passes its validator (`None` where the check
/// overflows).
pub open spec fn validate_spec(v: Option<Validator>, s: Seq<char>) -> Option<bool> {
    match v {
        None => Some(true),
        Some(Validator::Base64) => Some(base64_like(s)),
        Some(Validator::NotCommonWord) => not_common_word_spec(s),
    }
}

/// The first line that contains `secret`.
pub open spec fn first_line_with(ls: Seq<Seq<char>>, secret: Seq<char>) -> Option<Seq<char>>
    decreases ls.len(),
{
    if ls.len() == 0 {
        None
    } else if contains_seq(ls[0], secret) {
        Some(ls[0])
    } else {
        first_line_with(ls.drop_first(), secret)
    }
}

/// The line of `content` where `secret` is, cut to 47 bytes and `...` when
/// longer than 50 bytes, with the secret replaced by `[REDACTED]`; `unknown
/// context` when no line has it. `None` where the cut falls inside a
/// character, where the text cannot be cut.
pub open spec fn line_context_spec(secret: Seq<char>, content: Seq<char>) -> Option<Seq<char>> {
    match first_line_with(lines(content), secret) {
        Some(line) => {
            let ctx = if utf8_len(line) > 50 {
                match byte_prefix(line, 47) {
                    Some(p) => Some(p + "..."@),
                    None => None,
                }
            } else {
                Some(line)
            };
            match ctx {
                Some(c) => Some(replace_all(c, secret, "[REDACTED]"@)),
                None => None,
            }
        },
        None => Some("unknown context"@),
    }
}

/// The names that mark a file in a diff header as sensitive.
pub open spec fn sensitive_names() -> Seq<Seq<char>> {
    seq![".env"@, "config.json"@, "secrets."@, "credentials"@, ".pem"@, ".key"@, ".p12"@, ".pfx"@, "id_rsa"@, "id_dsa"@]
}

/// The finding for a line of the diff: a header (`+++` or `---`) that names
/// a sensitive file.
pub open spec fn sensitive_entry(line: Seq<char>) -> Option<Seq<char>> {
    if (starts_with(line, "+++"@) || starts_with(line, "---"@)) && exists|i: int|
        0 <= i < sensitive_names().len() && contains_seq(line, #[trigger] sensitive_names()[i]) {
        Some("Sensitive file: "@ + trim(strip_all_prefix(strip_all_prefix(line, "+++"@), "---"@)))
    } else {
        None
    }
}

/// The sensitive-file findings of the lines, in order.
pub open spec fn sensitive_findings(ls: Seq<Seq<char>>) -> Seq<Seq<char>>
    decreases ls.len(),
{
    if ls.len() == 0 {
        Seq::empty()
    } else {
        let rest = sensitive_findings(ls.drop_last());
        match sensitive_entry(ls.last()) {
            Some(f) => rest.push(f),
            None => rest,
        }
    }
}

/// The added lines of a diff: those starting with `+`, but not `+++`.
pub open spec fn added_lines(ls: Seq<Seq<char>>) -> Seq<Seq<char>>
    decreases ls.len(),
{
    if ls.len() == 0 {
        Seq::empty()
    } else {
        let rest = added_lines(ls.drop_last());
        if starts_with(ls.last(), "+"@) && !starts_with(ls.last(), "+++"@) {
            rest.push(ls.last())
        } else {
            rest
        }
    }
}

/// The added lines of `diff`, joined by newlines.
pub open spec fn added_content_spec(diff: Seq<char>) -> Seq<char> {
    join(added_lines(lines(diff)), "\n"@)
}

/// Whether the low bytes of `s` contain six consecutive values in a row;
/// `None` where a low byte of 0xFF would have to be followed by its
/// successor in a `u8`, which does not exist.
pub fn is_sequential(s: &str) -> (r: Option<bool>)
    ensures
        r == is_sequential_spec(s@),
{
    if utf8_len_exec(s) < 6 {
        return Some(false);
    }
    let cs = chars_of(s);
    let mut count: u32 = 1;
    let mut i: usize = 1;
    while i < cs.len()
        invariant
            1 <= i,
            cs@ == s@,
            1 <= count <= 5,
            is_sequential_spec(s@) == sequential_scan(cs@, i as int, count as int),
        decreases cs@.len() - i,
    {
        let prev = (cs[i - 1] as u32) % 256;
        let cur = (cs[i] as u32) % 256;
        if prev == 255 {
            return None;
        }
        if cur == prev + 1 {
            count = count + 1;
            if count >= 6 {
                return Some(true);
            }
        } else {
            count = 1;
        }
        i = i + 1;
    }
    Some(false)
}

/// Whether `s` passes as a real secret (see [`not_common_word_spec`]).
pub fn validate_not_common_word(s: &str) -> (r: Option<bool>)
    ensures
        r == not_common_word_spec(s@),
{
    let lower = to_lowercase(s);
    let words: Vec<&str> = vec![
        "example", "placeholder", "dummy", "test", "sample", "default", "your_key_here",
        "insert_key_here", "replace_with_key", "changeme", "12345678901234567890",
        "abcdefghijklmnopqrstuvwxyz", "ABCDEFGHIJKLMNOPQRSTUVWXYZ", "1234567890abcdef", "null",
        "none", "todo", "fixme", "temp", "temporary",
    ];
    let ghost wv = words@.map_values(|w: &str| w@);
    assert(wv =~= common_words());
    let mut i: usize = 0;
    while i < words.len()
        invariant
            i <= words@.len(),
            wv == words@.map_values(|w: &str| w@),
            wv == common_words(),
            lower@ == lowercase(s@),
            forall|j: int| 0 <= j < i ==> !contains_seq(lower@, #[trigger] common_words()[j]),
        decreases words.len() - i,
    {
        if str_contains(lower.as_str(), words[i]) {
            assert(contains_seq(lower@, common_words()[i as int]));
            return Some(false);
        }
        i = i + 1;
    }
    let n = utf8_len_exec(s);
    let cs = chars_of(s);
    if n > 3 {
        let mut same = true;
        let mut j: usize = 0;
        while j < cs.len()
            invariant
                j <= cs@.len(),
                cs@ == s@,
                cs@.len() > 0 || j == 0,
                same == (forall|k: int| 0 <= k < j ==> #[trigger] cs@[k] == cs@[0]),
            decreases cs.len() - j,
        {
            if cs[j] != cs[0] {
                same = false;
            }
            j = j + 1;
        }
        if same {
            return Some(false);
        }
    }
    match is_sequential(s) {
        None => None,
        Some(true) => Some(false),
        Some(false) => {
            if n >= 8 && (str_starts_with(s, "test") || str_starts_with(s, "fake") || str_starts_with(s, "mock")
                || crate::text::ends_with_exec(&cs, &chars_of("test")) || crate::text::ends_with_exec(&cs, &chars_of("example"))) {
                Some(false)
            } else {
                Some(true)
            }
        },
    }
}

/// Whether `s` looks like base64.
pub fn validate_base64(s: &str) -> (r: bool)
    ensures
        r == base64_like(s@),
{
    let cs = chars_of(s);
    let mut i: usize = 0;
    while i < cs.len()
        invariant
            i <= cs@.len(),
            cs@ == s@,
            forall|j: int| 0 <= j < i ==> char_alphanumeric(#[trigger] cs@[j]) || cs@[j] == '+' || cs@[j] == '/' || cs@[j] == '=',
        decreases cs.len() - i,
    {
        let c = cs[i];
        if !(is_alphanumeric(c) || c == '+' || c == '/' || c == '=') {
            return false;
        }
        i = i + 1;
    }
    utf8_len_exec(s) % 4 == 0
}

/// The context of `secret` in `content` (see [`line_context_spec`]).
pub fn get_line_context(secret: &str, content: &str) -> (r: Option<String>)
    ensures
        match line_context_spec(secret@, content@) {
            Some(c) => r matches Some(s) && s@ == c,
            None => r is None,
        },
{
    let ls = lines_exec(content);
    let ghost lv = views(ls@);
    let mut i: usize = 0;
    assert(lv.subrange(0, lv.len() as int) =~= lv);
    while i < ls.len()
        invariant
            i <= ls@.len(),
            lv == views(ls@),
            lv == lines(content@),
            first_line_with(lv, secret@) == first_line_with(lv.subrange(i as int, lv.len() as int), secret@),
        decreases ls.len() - i,
    {
        let ghost rest = lv.subrange(i as int, lv.len() as int);
        assert(rest[0] == ls@[i as int]@);
        assert(rest.drop_first() =~= lv.subrange(i + 1, lv.len() as int));
        let line = ls[i].as_str();
        if str_contains(line, secret) {
            let ctx = if utf8_len_exec(line) > 50 {
                match byte_prefix_exec(line, 47) {
                    Some(p) => {
                        let mut c = p;
                        c.append("...");
                        c
                    },
                    None => {
                        return None;
                    },
                }
            } else {
                String::from_str(line)
            };
            return Some(replace_all_exec(ctx.as_str(), secret, "[REDACTED]"));
        }
        i = i + 1;
    }
    Some(String::from_str("unknown context"))
}

/// The sensitive-file finding for a diff line, if any.
#[verifier::loop_isolation(false)]
pub fn sensitive_entry_exec(line: &str) -> (r: Option<String>)
    ensures
        match sensitive_entry(line@) {
            Some(f) => r matches Some(s) && s@ == f,
            None => r is None,
        },
{
    if !(str_starts_with(line, "+++") || str_starts_with(line, "---")) {
        return None;
    }
    let names: Vec<&str> = vec![".env", "config.json", "secrets.", "credentials", ".pem", ".key", ".p12", ".pfx", "id_rsa", "id_dsa"];
    let ghost nv = names@.map_values(|w: &str| w@);
    assert(nv =~= sensitive_names());
    let mut i: usize = 0;
    while i < names.len()
        invariant
            i <= names@.len(),
            nv == names@.map_values(|w: &str| w@),
            nv == sensitive_names(),
            forall|j: int| 0 <= j < i ==> !contains_seq(line@, #[trigger] sensitive_names()[j]),
        decreases names.len() - i,
    {
        if str_contains(line, names[i]) {
            assert(contains_seq(line@, sensitive_names()[i as int]));
            let a = strip_all_prefix_exec(line, "+++");
            let b = strip_all_prefix_exec(a.as_str(), "---");
            let t = trim_exec(b.as_str());
            let mut m = String::from_str("Sensitive file: ");
            m.append(t.as_str());
            return Some(m);
        }
        i = i + 1;
    }
    None
}

/// Appends to `found` the sensitive files that the diff headers of `content`
/// name, in order.
pub fn check_sensitive_files(content: &str, found: &mut Vec<String>)
    ensures
        views(final(found)@) == views(old(found)@) + sensitive_findings(lines(content@)),
{
    let ls = lines_exec(content);
    let ghost lv = views(ls@);
    let ghost start = views(found@);
    let mut i: usize = 0;
    assert(lv.subrange(0, 0) =~= Seq::<Seq<char>>::empty());
    assert(views(found@) =~= start + Seq::<Seq<char>>::empty());
    while i < ls.len()
        invariant
            i <= ls@.len(),
            lv == views(ls@),
            views(found@) == start + sensitive_findings(lv.subrange(0, i as int)),
        decreases ls.len() - i,
    {
        let ghost prev = found@;
        assert(lv.subrange(0, i + 1).drop_last() =~= lv.subrange(0, i as int));
        assert(lv.subrange(0, i + 1).last() == ls@[i as int]@);
        match sensitive_entry_exec(ls[i].as_str()) {
            Some(f) => {
                found.push(f);
                assert(views(found@) =~= views(prev).push(found@.last()@));
            },
            None => {},
        }
        i = i + 1;
    }
    assert(lv.subrange(0, ls@.len() as int) =~= lv);
}

/// The added lines of a diff, joined by newlines.
pub fn added_content(diff: &str) -> (r: String)
    ensures
        r@ == added_content_spec(diff@),
{
    let ls = lines_exec(diff);
    let ghost lv = views(ls@);
    let mut kept: Vec<String> = Vec::new();
    let mut i: usize = 0;
    assert(lv.subrange(0, 0) =~= Seq::<Seq<char>>::empty());
    assert(views(kept@) =~= Seq::<Seq<char>>::empty());
    while i < ls.len()
        invariant
            i <= ls@.len(),
            lv == views(ls@),
            views(kept@) == added_lines(lv.subrange(0, i as int)),
        decreases ls.len() - i,
    {
        let ghost prev = kept@;
        assert(lv.subrange(0, i + 1).drop_last() =~= lv.subrange(0, i as int));
        assert(lv.subrange(0, i + 1).last() == ls@[i as int]@);
        if str_starts_with(ls[i].as_str(), "+") && !str_starts_with(ls[i].as_str(), "+++") {
            kept.push(ls[i].clone());
            assert(views(kept@) =~= views(prev).push(ls@[i as int]@));
        }
        i = i + 1;
    }
    assert(lv.subrange(0, ls@.len() as int) =~= lv);
    join_exec(&kept, "\n")
}

/// What a secret pattern is made of: its regular expression, its name, the
/// entropy its matches must reach (in tenths of a bit per character), the
/// length in bytes they must reach, and their validator.
pub type SecretPatternDef = (Seq<char>, Seq<char>, Option<u32>, usize, Option<Validator>);

/// The secret patterns, in the order they are tried.
pub open spec fn secret_pattern_defs() -> Seq<SecretPatternDef> {
    seq![
        ("ghp_[a-zA-Z0-9]{36}"@, "GitHub Personal Access Token"@, None, 40usize, None),
        ("gho_[a-zA-Z0-9]{36}"@, "GitHub OAuth Token"@, None, 40usize, None),
        ("ghs_[a-zA-Z0-9]{36}"@, "GitHub Server Token"@, None, 40usize, None),
        ("ghu_[a-zA-Z0-9]{36}"@, "GitHub User Token"@, None, 40usize, None),
        ("ghr_[a-zA-Z0-9]{36}"@, "GitHub Refresh Token"@, None, 40usize, None),
        ("AKIA[0-9A-Z]{16}"@, "AWS Access Key ID (Standard Format)"@, None, 20usize, None),
        (r"eyJ[a-zA-Z0-9_-]*\.eyJ[a-zA-Z0-9_-]*\.[a-zA-Z0-9_-]*"@, "JWT Token"@, Some(40u32), 50usize, None),
        (r"-----BEGIN\s+(RSA\s+)?PRIVATE\s+KEY-----"@, "Private Key Block"@, None, 20usize, None),
        ("xox[baprs]-[0-9a-zA-Z]{10,48}"@, "Slack Token"@, None, 15usize, None),
        ("(?i)aws[_-]?access[_-]?key(?:[_-]?id)?[\\s]*[:=][\\s]*([\"']?)([A-Za-z0-9@#$%^&*!+=/._-]{16,})\\1"@, "AWS Access Key"@, Some(35u32), 16usize, Some(Validator::NotCommonWord)),
        ("(?i)aws[_-]?secret[_-]?access[_-]?key[\\s]*[:=][\\s]*([\"']?)([a-zA-Z0-9/+=]{40})\\1"@, "AWS Secret Access Key"@, Some(45u32), 40usize, Some(Validator::Base64)),
        ("(?i)aws[_-]?(?:access[_-]?key|secret[_-]?(?:access[_-]?)?key|session[_-]?token)[\\s]*[:=][\\s]*([\"']?)([A-Za-z0-9+/=_-]{16,})\\1"@, "AWS Credential"@, Some(30u32), 16usize, Some(Validator::NotCommonWord)),
        ("(?i)api[_-]?key[\\s]*[:=][\\s]*([\"']?)([a-zA-Z0-9]{20,})\\1"@, "API Key"@, Some(42u32), 20usize, Some(Validator::NotCommonWord)),
        ("(?i)secret[_-]?key[\\s]*[:=][\\s]*([\"']?)([a-zA-Z0-9]{20,})\\1"@, "Secret Key"@, Some(42u32), 20usize, Some(Validator::NotCommonWord)),
        ("(?i)access[_-]?token[\\s]*[:=][\\s]*([\"']?)([a-zA-Z0-9]{20,})\\1"@, "Access Token"@, Some(40u32), 20usize, Some(Validator::NotCommonWord)),
        (r"(?i)bearer\s+([a-zA-Z0-9\-_.]{20,})"@, "Bearer Token"@, Some(40u32), 20usize, Some(Validator::NotCommonWord)),
    ]
}

/// The definitions whose expression compiles, in order.
pub open spec fn compiled_defs(defs: Seq<SecretPatternDef>) -> Seq<SecretPatternDef>
    decreases defs.len(),
{
    if defs.len() == 0 {
        Seq::empty()
    } else if regex_compiles(defs.last().0) {
        compiled_defs(defs.drop_last()).push(defs.last())
    } else {
        compiled_defs(defs.drop_last())
    }
}

/// A compiled secret pattern.
pub struct SecretPattern {
    pub pattern: Pattern,
    pub name: String,
    pub entropy_threshold_tenths: Option<u32>,
    pub min_length: usize,
    pub validator: Option<Validator>,
}

impl SecretPattern {
    pub open spec fn def(&self) -> SecretPatternDef {
        (self.pattern.source(), self.name@, self.entropy_threshold_tenths, self.min_length, self.validator)
    }
}

pub open spec fn defs_of(ps: Seq<SecretPattern>) -> Seq<SecretPatternDef> {
    ps.map_values(|p: SecretPattern| p.def())
}

/// A match that may be a secret: the pattern's name, entropy threshold and
/// validator, the whole match, and the value (the second group, else the
/// first, else the whole match).
#[derive(Debug, Clone)]
pub struct SecretCandidate {
    pub name: String,
    pub entropy_threshold_tenths: Option<u32>,
    pub validator: Option<Validator>,
    pub full_match: String,
    pub value: String,
}

pub type CandidateView = (Seq<char>, Option<u32>, Option<Validator>, Seq<char>, Seq<char>);

impl View for SecretCandidate {
    type V = CandidateView;

    open spec fn view(&self) -> CandidateView {
        (self.name@, self.entropy_threshold_tenths, self.validator, self.full_match@, self.value@)
    }
}

pub open spec fn candidate_views(v: Seq<SecretCandidate>) -> Seq<CandidateView> {
    v.map_values(|c: SecretCandidate| c@)
}

/// The value of a match: group 2, else group 1, else the whole match.
pub open spec fn capture_value(c: (Seq<char>, Option<Seq<char>>, Option<Seq<char>>)) -> Seq<char> {
    match c.2 {
        Some(v) => v,
        None => match c.1 {
            Some(v) => v,
            None => c.0,
        },
    }
}

/// The candidates among the matches of one pattern: those whose value is at
/// least the pattern's length in bytes.
pub open spec fn pattern_candidates(d: SecretPatternDef, caps: Seq<(Seq<char>, Option<Seq<char>>, Option<Seq<char>>)>) -> Seq<CandidateView>
    decreases caps.len(),
{
    if caps.len() == 0 {
        Seq::empty()
    } else {
        let rest = pattern_candidates(d, caps.drop_last());
        let c = caps.last();
        if utf8_len(capture_value(c)) >= d.3 {
            rest.push((d.1, d.2, d.4, c.0, capture_value(c)))
        } else {
            rest
        }
    }
}

/// The candidates of all patterns in `text`, pattern by pattern.
pub open spec fn all_candidates(ds: Seq<SecretPatternDef>, text: Seq<char>) -> Seq<CandidateView>
    decreases ds.len(),
{
    if ds.len() == 0 {
        Seq::empty()
    } else {
        all_candidates(ds.drop_last(), text) + pattern_candidates(ds.last(), regex_captures(ds.last().0, text))
    }
}

/// A match of pattern `d` whose value (`v`) is long enough is a candidate,
/// carried with the pattern's name, threshold and validator.
proof fn lemma_pattern_candidate_kept(
    d: SecretPatternDef,
    caps: Seq<(Seq<char>, Option<Seq<char>>, Option<Seq<char>>)>,
    j: int,
    v: Seq<char>,
)
    requires
        0 <= j < caps.len(),
        capture_value(caps[j]) == v,
        utf8_len(v) >= d.3,
    ensures
        pattern_candidates(d, caps).contains((d.1, d.2, d.4, caps[j].0, v)),
    decreases caps.len(),
{
    let rest = pattern_candidates(d, caps.drop_last());
    if j == caps.len() - 1 {
        assert(pattern_candidates(d, caps).last() == (d.1, d.2, d.4, caps[j].0, v));
    } else {
        assert(caps.drop_last()[j] == caps[j]);
        lemma_pattern_candidate_kept(d, caps.drop_last(), j, v);
        let t = choose|t: int| 0 <= t < rest.len() && rest[t] == (d.1, d.2, d.4, caps[j].0, v);
        assert(pattern_candidates(d, caps)[t] == rest[t]);
    }
}

/// The candidates of the patterns before pattern `k` stay among all the
/// candidates, and so do those of pattern `k` itself.
proof fn lemma_candidates_of_pattern_kept(ds: Seq<SecretPatternDef>, text: Seq<char>, k: int, c: CandidateView)
    requires
        0 <= k < ds.len(),
        pattern_candidates(ds[k], regex_captures(ds[k].0, text)).contains(c),
    ensures
        all_candidates(ds, text).contains(c),
    decreases ds.len(),
{
    let d = ds.drop_last();
    let front = all_candidates(d, text);
    let back = pattern_candidates(ds.last(), regex_captures(ds.last().0, text));
    if k == ds.len() - 1 {
        let t = choose|t: int| 0 <= t < back.len() && back[t] == c;
        assert((front + back)[front.len() + t] == c);
    } else {
        assert(d[k] == ds[k]);
        lemma_candidates_of_pattern_kept(d, text, k, c);
        let t = choose|t: int| 0 <= t < front.len() && front[t] == c;
        assert((front + back)[t] == c);
    }
}

/// The value of a secret is the second group of its match when that group
/// took part: a match of pattern `k` whose second group `v` is at least the
/// pattern's length in bytes is a candidate with value `v`, whatever the
/// first group holds.
pub proof fn law_candidate_value_is_second_group(ds: Seq<SecretPatternDef>, text: Seq<char>, k: int, j: int, v: Seq<char>)
    requires
        0 <= k < ds.len(),
        0 <= j < regex_captures(ds[k].0, text).len(),
        regex_captures(ds[k].0, text)[j].2 == Some(v),
        utf8_len(v) >= ds[k].3,
    ensures
        all_candidates(ds, text).contains((ds[k].1, ds[k].2, ds[k].4, regex_captures(ds[k].0, text)[j].0, v)),
{
    let caps = regex_captures(ds[k].0, text);
    lemma_pattern_candidate_kept(ds[k], caps, j, v);
    lemma_candidates_of_pattern_kept(ds, text, k, (ds[k].1, ds[k].2, ds[k].4, caps[j].0, v));
}

/// Without a second group, the value is the first group when it took part:
/// such a match whose first group `v` is long enough is a candidate with
/// value `v`.
pub proof fn law_candidate_value_is_first_group(ds: Seq<SecretPatternDef>, text: Seq<char>, k: int, j: int, v: Seq<char>)
    requires
        0 <= k < ds.len(),
        0 <= j < regex_captures(ds[k].0, text).len(),
        regex_captures(ds[k].0, text)[j].2 is None,
        regex_captures(ds[k].0, text)[j].1 == Some(v),
        utf8_len(v) >= ds[k].3,
    ensures
        all_candidates(ds, text).contains((ds[k].1, ds[k].2, ds[k].4, regex_captures(ds[k].0, text)[j].0, v)),
{
    let caps = regex_captures(ds[k].0, text);
    lemma_pattern_candidate_kept(ds[k], caps, j, v);
    lemma_candidates_of_pattern_kept(ds, text, k, (ds[k].1, ds[k].2, ds[k].4, caps[j].0, v));
}

/// Without any group, the value is the whole match: such a match that is
/// long enough is a candidate with the whole match as its value.
pub proof fn law_candidate_value_is_whole_match(ds: Seq<SecretPatternDef>, text: Seq<char>, k: int, j: int)
    requires
        0 <= k < ds.len(),
        0 <= j < regex_captures(ds[k].0, text).len(),
        regex_captures(ds[k].0, text)[j].2 is None,
        regex_captures(ds[k].0, text)[j].1 is None,
        utf8_len(regex_captures(ds[k].0, text)[j].0) >= ds[k].3,
    ensures
        all_candidates(ds, text).contains(
            (ds[k].1, ds[k].2, ds[k].4, regex_captures(ds[k].0, text)[j].0, regex_captures(ds[k].0, text)[j].0),
        ),
{
    let caps = regex_captures(ds[k].0, text);
    lemma_pattern_candidate_kept(ds[k], caps, j, caps[j].0);
    lemma_candidates_of_pattern_kept(ds, text, k, (ds[k].1, ds[k].2, ds[k].4, caps[j].0, caps[j].0));
}

/// The findings of the first `n` candidates and the names found so far;
/// each candidate counts when its entropy passed, it passes its validator,
/// and no earlier one of its name was found. `None` where a check
/// overflows or a context cannot be cut.
pub open spec fn findings_upto(cands: Seq<(CandidateView, bool)>, text: Seq<char>, n: int) -> Option<(Seq<Seq<char>>, Set<Seq<char>>)>
    decreases n,
{
    if n <= 0 {
        Some((Seq::empty(), Set::empty()))
    } else {
        match findings_upto(cands, text, n - 1) {
            None => None,
            Some((f, d)) => {
                let c = cands[n - 1].0;
                if !cands[n - 1].1 {
                    Some((f, d))
                } else {
                    match validate_spec(c.2, c.4) {
                        None => None,
                        Some(false) => Some((f, d)),
                        Some(true) => if d.contains(c.0) {
                            Some((f, d))
                        } else {
                            match line_context_spec(c.3, text) {
                                None => None,
                                Some(ctx) => Some((f.push(c.0 + " (line context: "@ + ctx + ")"@), d.insert(c.0))),
                            }
                        },
                    }
                }
            },
        }
    }
}

/// Once the findings cannot be made, more candidates do not change that.
pub proof fn lemma_findings_none_stays(cands: Seq<(CandidateView, bool)>, text: Seq<char>, n: int, m: int)
    requires
        0 <= n <= m,
        findings_upto(cands, text, n) is None,
    ensures
        findings_upto(cands, text, m) is None,
    decreases m - n,
{
    if n < m {
        lemma_findings_none_stays(cands, text, n, m - 1);
    }
}

/// The names that count as suspicious for an assigned variable.
pub open spec fn suspicious_names() -> Seq<Seq<char>> {
    seq!["key"@, "secret"@, "token"@, "password"@, "pwd"@, "auth"@, "api"@]
}

/// The expression that finds assignments of quoted values in added lines.
pub open spec fn assignment_pattern() -> Seq<char> {
    r#"(?m)^\+.*?([a-zA-Z_][a-zA-Z0-9_]*)\s*[:=]\s*["']([a-zA-Z0-9+/=_-]{16,})["']"#@
}

/// The assignments found: the variable (lowercased) and the value of each
/// match that has both.
pub open spec fn assignments_of(caps: Seq<(Seq<char>, Option<Seq<char>>, Option<Seq<char>>)>) -> Seq<(Seq<char>, Seq<char>)>
    decreases caps.len(),
{
    if caps.len() == 0 {
        Seq::empty()
    } else {
        let rest = assignments_of(caps.drop_last());
        match (caps.last().1, caps.last().2) {
            (Some(v), Some(x)) => rest.push((lowercase(v), x)),
            _ => rest,
        }
    }
}

/// What the check reports for the findings.
pub open spec fn secrets_report_spec(found: Seq<Seq<char>>) -> RuleOutputView {
    if found.len() == 0 {
        RuleOutputView::Success
    } else {
        RuleOutputView::Exception("Potential secrets detected in staged files: "@ + join(found, ", "@))
    }
}

pub struct NoSecretsStaged {
    name: String,
    description: String,
    level: RuleLevel,
    secret_patterns: Vec<SecretPattern>,
}

impl NoSecretsStaged {
    pub closed spec fn name_view(&self) -> Seq<char> {
        self.name@
    }

    pub closed spec fn description_view(&self) -> Seq<char> {
        self.description@
    }

    pub closed spec fn level_view(&self) -> RuleLevel {
        self.level
    }

    pub closed spec fn patterns_view(&self) -> Seq<SecretPatternDef> {
        defs_of(self.secret_patterns@)
    }

    /// The secret patterns whose expressions compile, in order.
    pub fn initialize_patterns() -> (r: Vec<SecretPattern>)
        ensures
            defs_of(r@) == compiled_defs(secret_pattern_defs()),
    {
        let defs: Vec<(&str, &str, Option<u32>, usize, Option<Validator>)> = vec![
            ("ghp_[a-zA-Z0-9]{36}", "GitHub Personal Access Token", None, 40, None),
            ("gho_[a-zA-Z0-9]{36}", "GitHub OAuth Token", None, 40, None),
            ("ghs_[a-zA-Z0-9]{36}", "GitHub Server Token", None, 40, None),
            ("ghu_[a-zA-Z0-9]{36}", "GitHub User Token", None, 40, None),
            ("ghr_[a-zA-Z0-9]{36}", "GitHub Refresh Token", None, 40, None),
            ("AKIA[0-9A-Z]{16}", "AWS Access Key ID (Standard Format)", None, 20, None),
            (r"eyJ[a-zA-Z0-9_-]*\.eyJ[a-zA-Z0-9_-]*\.[a-zA-Z0-9_-]*", "JWT Token", Some(40), 50, None),
            (r"-----BEGIN\s+(RSA\s+)?PRIVATE\s+KEY-----", "Private Key Block", None, 20, None),
            ("xox[baprs]-[0-9a-zA-Z]{10,48}", "Slack Token", None, 15, None),
            ("(?i)aws[_-]?access[_-]?key(?:[_-]?id)?[\\s]*[:=][\\s]*([\"']?)([A-Za-z0-9@#$%^&*!+=/._-]{16,})\\1", "AWS Access Key", Some(35), 16, Some(Validator::NotCommonWord)),
            ("(?i)aws[_-]?secret[_-]?access[_-]?key[\\s]*[:=][\\s]*([\"']?)([a-zA-Z0-9/+=]{40})\\1", "AWS Secret Access Key", Some(45), 40, Some(Validator::Base64)),
            ("(?i)aws[_-]?(?:access[_-]?key|secret[_-]?(?:access[_-]?)?key|session[_-]?token)[\\s]*[:=][\\s]*([\"']?)([A-Za-z0-9+/=_-]{16,})\\1", "AWS Credential", Some(30), 16, Some(Validator::NotCommonWord)),
            ("(?i)api[_-]?key[\\s]*[:=][\\s]*([\"']?)([a-zA-Z0-9]{20,})\\1", "API Key", Some(42), 20, Some(Validator::NotCommonWord)),
            ("(?i)secret[_-]?key[\\s]*[:=][\\s]*([\"']?)([a-zA-Z0-9]{20,})\\1", "Secret Key", Some(42), 20, Some(Validator::NotCommonWord)),
            ("(?i)access[_-]?token[\\s]*[:=][\\s]*([\"']?)([a-zA-Z0-9]{20,})\\1", "Access Token", Some(40), 20, Some(Validator::NotCommonWord)),
            (r"(?i)bearer\s+([a-zA-Z0-9\-_.]{20,})", "Bearer Token", Some(40), 20, Some(Validator::NotCommonWord)),
        ];
        let ghost dv = defs@.map_values(|d: (&str, &str, Option<u32>, usize, Option<Validator>)| (d.0@, d.1@, d.2, d.3, d.4));
        assert(dv =~= secret_pattern_defs());
        let mut r: Vec<SecretPattern> = Vec::new();
        let mut i: usize = 0;
        assert(dv.subrange(0, 0) =~= Seq::<SecretPatternDef>::empty());
        assert(defs_of(r@) =~= Seq::<SecretPatternDef>::empty());
        while i < defs.len()
            invariant
                i <= defs@.len(),
                dv == defs@.map_values(|d: (&str, &str, Option<u32>, usize, Option<Validator>)| (d.0@, d.1@, d.2, d.3, d.4)),
                defs_of(r@) == compiled_defs(dv.subrange(0, i as int)),
            decreases defs.len() - i,
        {
            let ghost prev = r@;
            assert(dv.subrange(0, i + 1).drop_last() =~= dv.subrange(0, i as int));
            assert(dv.subrange(0, i + 1).last() == dv[i as int]);
            let d = defs[i];
            match Pattern::new(d.0) {
                Some(p) => {
                    r.push(SecretPattern {
                        pattern: p,
                        name: String::from_str(d.1),
                        entropy_threshold_tenths: d.2,
                        min_length: d.3,
                        validator: d.4,
                    });
                    assert(defs_of(r@) =~= defs_of(prev).push(dv[i as int]));
                },
                None => {},
            }
            i = i + 1;
        }
        assert(dv.subrange(0, defs@.len() as int) =~= dv);
        r
    }

    /// The rule at the level configured for `NoSecretsStaged` (an error by
    /// default), with the patterns that compile.
    pub fn new(workflow_rule_config: Option<&WorkflowRules>) -> (r: Self)
        ensures
            r.name_view() == "NoSecretsStaged"@,
            r.description_view() == "Check that no secrets are staged for commit"@,
            r.level_view() == configured_level(workflow_rule_config, "NoSecretsStaged"@, RuleLevel::Error),
            r.patterns_view() == compiled_defs(secret_pattern_defs()),
    {
        let name = "NoSecretsStaged";
        let level = rule_level_from_config(workflow_rule_config, name, RuleLevel::Error);
        NoSecretsStaged {
            name: String::from_str(name),
            description: String::from_str("Check that no secrets are staged for commit"),
            level,
            secret_patterns: Self::initialize_patterns(),
        }
    }

    pub fn get_name(&self) -> (r: &str)
        ensures
            r@ == self.name_view(),
    {
        self.name.as_str()
    }

    pub fn get_description(&self) -> (r: &str)
        ensures
            r@ == self.description_view(),
    {
        self.description.as_str()
    }

    pub fn get_level(&self) -> (r: RuleLevel)
        ensures
            r == self.level_view(),
    {
        self.level
    }

    /// The candidates of the patterns in `text` (the added lines), pattern by
    /// pattern, match by match.
    pub fn candidates(&self, text: &str) -> (r: Vec<SecretCandidate>)
        ensures
            candidate_views(r@) == all_candidates(self.patterns_view(), text@),
    {
        let ghost ds = self.patterns_view();
        let mut r: Vec<SecretCandidate> = Vec::new();
        let mut k: usize = 0;
        assert(ds.subrange(0, 0) =~= Seq::<SecretPatternDef>::empty());
        assert(candidate_views(r@) =~= Seq::<CandidateView>::empty());
        while k < self.secret_patterns.len()
            invariant
                k <= self.secret_patterns@.len(),
                ds == self.patterns_view(),
                ds == defs_of(self.secret_patterns@),
                candidate_views(r@) == all_candidates(ds.subrange(0, k as int), text@),
            decreases self.secret_patterns.len() - k,
        {
            let p = &self.secret_patterns[k];
            let ghost d = p.def();
            assert(ds[k as int] == d);
            assert(ds.subrange(0, k + 1).drop_last() =~= ds.subrange(0, k as int));
            assert(ds.subrange(0, k + 1).last() == d);
            let caps = p.pattern.captures(text);
            let ghost cv = captured_views(caps@);
            let ghost base = candidate_views(r@);
            let mut j: usize = 0;
            assert(cv.subrange(0, 0) =~= Seq::<(Seq<char>, Option<Seq<char>>, Option<Seq<char>>)>::empty());
            assert(candidate_views(r@) =~= base + pattern_candidates(d, cv.subrange(0, 0)));
            while j < caps.len()
                invariant
                    j <= caps@.len(),
                    cv == captured_views(caps@),
                    cv == regex_captures(d.0, text@),
                    d == p.def(),
                    candidate_views(r@) == base + pattern_candidates(d, cv.subrange(0, j as int)),
                decreases caps.len() - j,
            {
                let ghost prev = r@;
                assert(cv.subrange(0, j + 1).drop_last() =~= cv.subrange(0, j as int));
                assert(cv.subrange(0, j + 1).last() == caps@[j as int]@);
                let c = &caps[j];
                let value = match &c.group2 {
                    Some(v) => v.clone(),
                    None => match &c.group1 {
                        Some(v) => v.clone(),
                        None => c.full.clone(),
                    },
                };
                assert(value@ == capture_value(caps@[j as int]@));
                if utf8_len_exec(value.as_str()) >= p.min_length as u128 {
                    r.push(SecretCandidate {
                        name: p.name.clone(),
                        entropy_threshold_tenths: p.entropy_threshold_tenths,
                        validator: p.validator,
                        full_match: c.full.clone(),
                        value,
                    });
                    assert(candidate_views(r@) =~= candidate_views(prev).push(r@.last()@));
                }
                j = j + 1;
            }
            assert(cv.subrange(0, caps@.len() as int) =~= cv);
            k = k + 1;
        }
        assert(ds.subrange(0, self.secret_patterns@.len() as int) =~= ds);
        r
    }

    /// The pattern findings, from the candidates each paired with whether
    /// its entropy reached its threshold, and the text they were found in.
    /// `None` where a finding cannot be made: the consecutive-run check
    /// has no answer (a byte overflow), or a context would be cut inside a
    /// character.
    pub fn pattern_findings(&self, cands: &Vec<(SecretCandidate, bool)>, text: &str) -> (r: Option<Vec<String>>)
        ensures
            match findings_upto(cands@.map_values(|c: (SecretCandidate, bool)| (c.0@, c.1)), text@, cands@.len() as int) {
                Some((f, _)) => r matches Some(v) && views(v@) == f,
                None => r is None,
            },
    {
        let ghost cs = cands@.map_values(|c: (SecretCandidate, bool)| (c.0@, c.1));
        let mut found: Vec<String> = Vec::new();
        let mut names: Vec<String> = Vec::new();
        let mut i: usize = 0;
        assert(views(found@) =~= Seq::<Seq<char>>::empty());
        while i < cands.len()
            invariant
                i <= cands@.len(),
                cs == cands@.map_values(|c: (SecretCandidate, bool)| (c.0@, c.1)),
                findings_upto(cs, text@, i as int) matches Some((f, d)) && views(found@) == f
                    && (forall|x: Seq<char>| d.contains(x) <==> views(names@).contains(x)),
            decreases cands.len() - i,
        {
            let ghost fd = findings_upto(cs, text@, i as int)->0;
            let c = &cands[i].0;
            assert(cs[i as int] == (c@, cands@[i as int].1));
            if cands[i].1 {
                let ok = match c.validator {
                    None => Some(true),
                    Some(Validator::Base64) => Some(validate_base64(c.value.as_str())),
                    Some(Validator::NotCommonWord) => validate_not_common_word(c.value.as_str()),
                };
                match ok {
                    None => {
                        proof {
                            assert(findings_upto(cs, text@, i + 1) is None);
                            lemma_findings_none_stays(cs, text@, i + 1, cands@.len() as int);
                        }
                        return None;
                    },
                    Some(false) => {},
                    Some(true) => {
                        let mut seen = false;
                        let mut j: usize = 0;
                        while j < names.len()
                            invariant
                                j <= names@.len(),
                                !seen ==> forall|t: int| 0 <= t < j ==> names@[t]@ != c.name@,
                                seen ==> views(names@).contains(c.name@),
                            decreases names.len() - j,
                        {
                            if str_eq(names[j].as_str(), c.name.as_str()) {
                                assert(views(names@)[j as int] == c.name@);
                                seen = true;
                            }
                            j = j + 1;
                        }
                        proof {
                            if !seen && views(names@).contains(c.name@) {
                                let t = choose|t: int| 0 <= t < views(names@).len() && views(names@)[t] == c.name@;
                                assert(names@[t]@ == c.name@);
                            }
                        }
                        if !seen {
                            match get_line_context(c.full_match.as_str(), text) {
                                None => {
                                    proof {
                                        assert(!fd.1.contains(c.name@));
                                        assert(findings_upto(cs, text@, i + 1) is None);
                                        lemma_findings_none_stays(cs, text@, i + 1, cands@.len() as int);
                                    }
                                    return None;
                                },
                                Some(ctx) => {
                                    let ghost prev_found = found@;
                                    let ghost prev_names = names@;
                                    let mut m = c.name.clone();
                                    m.append(" (line context: ");
                                    m.append(ctx.as_str());
                                    m.append(")");
                                    found.push(m);
                                    names.push(c.name.clone());
                                    proof {
                                        assert(views(found@) =~= views(prev_found).push(found@.last()@));
                                        assert(views(names@) =~= views(prev_names).push(c.name@));
                                        let d2 = fd.1.insert(c.name@);
                                        assert forall|x: Seq<char>| d2.contains(x) <==> views(names@).contains(x) by {
                                            if views(names@).contains(x) && x != c.name@ {
                                                let t = choose|t: int| 0 <= t < views(names@).len() && views(names@)[t] == x;
                                                assert(views(prev_names)[t] == x);
                                            }
                                            if x == c.name@ {
                                                assert(views(names@)[prev_names.len() as int] == x);
                                            }
                                            if fd.1.contains(x) {
                                                let t = choose|t: int| 0 <= t < views(prev_names).len() && views(prev_names)[t] == x;
                                                assert(views(names@)[t] == x);
                                            }
                                        }
                                    }
                                },
                            }
                        }
                    },
                }
            }
            i = i + 1;
        }
        Some(found)
    }

    /// The assignments of quoted values in `text` (the added lines): each
    /// variable, lowercased, with its value. A match without both groups is
    /// left out (the expression always has both).
    pub fn assignment_candidates(&self, text: &str) -> (r: Vec<(String, String)>)
        ensures
            regex_compiles(assignment_pattern()) ==> r@.map_values(|a: (String, String)| (a.0@, a.1@)) == assignments_of(regex_captures(assignment_pattern(), text@)),
            !regex_compiles(assignment_pattern()) ==> r@.len() == 0,
    {
        let mut r: Vec<(String, String)> = Vec::new();
        let p = match Pattern::new(r#"(?m)^\+.*?([a-zA-Z_][a-zA-Z0-9_]*)\s*[:=]\s*["']([a-zA-Z0-9+/=_-]{16,})["']"#) {
            Some(p) => p,
            None => {
                return r;
            },
        };
        let caps = p.captures(text);
        let ghost cv = captured_views(caps@);
        let mut j: usize = 0;
        assert(cv.subrange(0, 0) =~= Seq::<(Seq<char>, Option<Seq<char>>, Option<Seq<char>>)>::empty());
        assert(r@.map_values(|a: (String, String)| (a.0@, a.1@)) =~= Seq::<(Seq<char>, Seq<char>)>::empty());
        while j < caps.len()
            invariant
                j <= caps@.len(),
                cv == captured_views(caps@),
                r@.map_values(|a: (String, String)| (a.0@, a.1@)) == assignments_of(cv.subrange(0, j as int)),
            decreases caps.len() - j,
        {
            let ghost prev = r@;
            assert(cv.subrange(0, j + 1).drop_last() =~= cv.subrange(0, j as int));
            assert(cv.subrange(0, j + 1).last() == caps@[j as int]@);
            match (&caps[j].group1, &caps[j].group2) {
                (Some(v), Some(x)) => {
                    let lv = to_lowercase(v.as_str());
                    r.push((lv, x.clone()));
                    assert(r@.map_values(|a: (String, String)| (a.0@, a.1@)) =~= prev.map_values(|a: (String, String)| (a.0@, a.1@)).push((lowercase(v@), x@)));
                },
                _ => {},
            }
            j = j + 1;
        }
        assert(cv.subrange(0, caps@.len() as int) =~= cv);
        r
    }

    /// Whether an assignment is worth the entropy check: a suspicious name
    /// and a value of at least 16 bytes.
    pub fn assignment_prefilter(var_name: &str, value: &str) -> (r: bool)
        ensures
            r == ((exists|i: int| 0 <= i < suspicious_names().len() && contains_seq(var_name@, #[trigger] suspicious_names()[i]))
                && utf8_len(value@) >= 16),
    {
        let words: Vec<&str> = vec!["key", "secret", "token", "password", "pwd", "auth", "api"];
        let ghost wv = words@.map_values(|w: &str| w@);
        assert(wv =~= suspicious_names());
        let mut suspicious = false;
        let mut i: usize = 0;
        while i < words.len()
            invariant
                i <= words@.len(),
                wv == words@.map_values(|w: &str| w@),
                wv == suspicious_names(),
                suspicious == exists|j: int| 0 <= j < i && contains_seq(var_name@, #[trigger] suspicious_names()[j]),
            decreases words.len() - i,
        {
            if str_contains(var_name, words[i]) {
                assert(contains_seq(var_name@, suspicious_names()[i as int]));
                suspicious = true;
            }
            i = i + 1;
        }
        suspicious && utf8_len_exec(value) >= 16
    }

    /// The outcome of the check for the findings.
    pub fn secrets_report(found: &Vec<String>) -> (r: RuleOutput)
        ensures
            r@ == secrets_report_spec(views(found@)),
    {
        if found.len() == 0 {
            RuleOutput::Success
        } else {
            let mut m = String::from_str("Potential secrets detected in staged files: ");
            let j = join_exec(found, ", ");
            m.append(j.as_str());
            RuleOutput::Exception(m)
        }
    }

    /// The outcome when `git diff --staged` did not run: it could not be
    /// started (with this reason), or it failed.
    pub fn diff_failure(spawn_error: Option<&str>) -> (r: RuleOutput)
        ensures
            match spawn_error {
                Some(d) => r@ == RuleOutputView::Exception("Failed to execute git diff --staged: "@ + d@),
                None => r@ == RuleOutputView::Exception("Git command failed - ensure you're in a git repository"@),
            },
    {
        match spawn_error {
            Some(d) => {
                let mut m = String::from_str("Failed to execute git diff --staged: ");
                m.append(d);
                RuleOutput::Exception(m)
            },
            None => RuleOutput::Exception(String::from_str("Git command failed - ensure you're in a git repository")),
        }
    }

    /// Secrets cannot be removed automatically: the user is told what to do.
    pub fn try_fix(&self) -> (r: Result<bool, crate::error::BGitError>)
        ensures
            r matches Ok(b) && !b,
    {
        Ok(false)
    }
}

/// Each kind of secret is reported at most once: the pattern findings are
/// as many as the kinds found.
pub proof fn law_one_finding_per_kind(cands: Seq<(CandidateView, bool)>, text: Seq<char>, n: int)
    requires
        0 <= n,
    ensures
        findings_upto(cands, text, n) matches Some((f, d)) ==> d.finite() && f.len() == d.len(),
    decreases n,
{
    if n > 0 {
        law_one_finding_per_kind(cands, text, n - 1);
    }
}

} // verus!
