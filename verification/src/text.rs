//! Character-level string helpers with their mathematical meaning.
//!
//! Strings are handled as `Seq<char>`; executable helpers take `&str` or
//! `Vec<char>` and return `String`s whose view is pinned down exactly.
use vstd::prelude::*;
use vstd::string::*;

verus! {

/// `p` occurs in `s` at position `i`.
pub open spec fn matches_at(s: Seq<char>, p: Seq<char>, i: int) -> bool {
    0 <= i && i + p.len() <= s.len() && s.subrange(i, i + p.len()) == p
}

/// The first position `>= i` at which `p` occurs in `s`.
pub open spec fn find_from(s: Seq<char>, p: Seq<char>, i: int) -> Option<int>
    decreases s.len() - i,
{
    if i < 0 || i + p.len() > s.len() {
        None
    } else if matches_at(s, p, i) {
        Some(i)
    } else if i >= s.len() {
        None
    } else {
        find_from(s, p, i + 1)
    }
}

/// The first position at which `p` occurs in `s`.
pub open spec fn find(s: Seq<char>, p: Seq<char>) -> Option<int> {
    find_from(s, p, 0)
}

/// The first position of the character `c` in `s`.
pub open spec fn find_char(s: Seq<char>, c: char) -> Option<int> {
    find(s, seq![c])
}

pub open spec fn contains_seq(s: Seq<char>, p: Seq<char>) -> bool {
    exists|i: int| matches_at(s, p, i)
}

pub open spec fn starts_with(s: Seq<char>, p: Seq<char>) -> bool {
    p.len() <= s.len() && s.subrange(0, p.len() as int) == p
}

pub open spec fn ends_with(s: Seq<char>, p: Seq<char>) -> bool {
    p.len() <= s.len() && s.subrange(s.len() - p.len(), s.len() as int) == p
}

/// `s` without its first `n` characters.
pub open spec fn skip(s: Seq<char>, n: int) -> Seq<char> {
    s.subrange(n, s.len() as int)
}

pub open spec fn opt_index(o: Option<usize>) -> Option<int> {
    match o {
        Some(k) => Some(k as int),
        None => None,
    }
}

/// The first occurrence found from `i` on is a match, and no earlier one exists;
/// when none is found, there is no match at or after `i`.
pub proof fn lemma_find_from_spec(s: Seq<char>, p: Seq<char>, i: int)
    requires
        0 <= i,
    ensures
        find_from(s, p, i) matches Some(k) ==> {
            &&& i <= k
            &&& matches_at(s, p, k)
            &&& forall|j: int| i <= j < k ==> !matches_at(s, p, j)
        },
        find_from(s, p, i) is None ==> forall|j: int| i <= j ==> !matches_at(s, p, j),
    decreases s.len() - i,
{
    if i + p.len() > s.len() {
    } else if matches_at(s, p, i) {
    } else if i >= s.len() {
        assert forall|j: int| i <= j implies !matches_at(s, p, j) by {
            if j > i {
            }
        }
    } else {
        lemma_find_from_spec(s, p, i + 1);
    }
}

/// A match at `k` with none between `i` and `k` is what `find_from` returns.
pub proof fn lemma_find_from_first(s: Seq<char>, p: Seq<char>, i: int, k: int)
    requires
        0 <= i <= k,
        matches_at(s, p, k),
        forall|j: int| i <= j < k ==> !matches_at(s, p, j),
    ensures
        find_from(s, p, i) == Some(k),
    decreases k - i,
{
    if i < k {
        lemma_find_from_first(s, p, i + 1, k);
    }
}

/// With no match at or after `i`, `find_from` finds nothing.
pub proof fn lemma_find_from_none(s: Seq<char>, p: Seq<char>, i: int)
    requires
        0 <= i,
        forall|j: int| i <= j ==> !matches_at(s, p, j),
    ensures
        find_from(s, p, i) is None,
    decreases s.len() - i,
{
    if i + p.len() > s.len() {
    } else if i >= s.len() {
    } else {
        lemma_find_from_none(s, p, i + 1);
    }
}

/// The first `c` in `s` is at `k`.
pub proof fn lemma_find_char_at(s: Seq<char>, c: char, k: int)
    requires
        0 <= k < s.len(),
        s[k] == c,
        forall|j: int| 0 <= j < k ==> s[j] != c,
    ensures
        find_char(s, c) == Some(k),
{
    assert(s.subrange(k, k + 1) =~= seq![c]);
    assert forall|j: int| 0 <= j < k implies !matches_at(s, seq![c], j) by {
        assert(s.subrange(j, j + 1)[0] == s[j]);
    }
    lemma_find_from_first(s, seq![c], 0, k);
}

/// `String::push`: appends one character.
#[verifier::external_body]
pub fn push_char(s: &mut String, c: char)
    ensures
        final(s)@ == old(s)@.push(c),
{
    s.push(c);
}

/// The characters of `s`, in order.
pub fn chars_of(s: &str) -> (v: Vec<char>)
    ensures
        v@ == s@,
{
    let n = s.unicode_len();
    let mut v: Vec<char> = Vec::new();
    let mut i: usize = 0;
    while i < n
        invariant
            i <= n,
            n == s@.len(),
            v@ == s@.subrange(0, i as int),
        decreases n - i,
    {
        let c = s.get_char(i);
        v.push(c);
        i = i + 1;
    }
    assert(v@ =~= s@);
    v
}

/// The string made of `v[lo..hi]`.
pub fn string_from_range(v: &Vec<char>, lo: usize, hi: usize) -> (r: String)
    requires
        lo <= hi <= v@.len(),
    ensures
        r@ == v@.subrange(lo as int, hi as int),
{
    let mut r = String::new();
    let mut i = lo;
    while i < hi
        invariant
            lo <= i <= hi,
            hi <= v@.len(),
            r@ == v@.subrange(lo as int, i as int),
        decreases hi - i,
    {
        push_char(&mut r, v[i]);
        assert(v@.subrange(lo as int, i + 1) =~= v@.subrange(lo as int, i as int).push(v@[i as int]));
        i = i + 1;
    }
    r
}

/// The string made of all of `v`.
pub fn string_from_chars(v: &Vec<char>) -> (r: String)
    ensures
        r@ == v@,
{
    let r = string_from_range(v, 0, v.len());
    assert(v@.subrange(0, v@.len() as int) =~= v@);
    r
}

/// Appends the characters of `v[lo..hi]` to `r`.
pub fn append_range(r: &mut String, v: &Vec<char>, lo: usize, hi: usize)
    requires
        lo <= hi <= v@.len(),
    ensures
        final(r)@ == old(r)@ + v@.subrange(lo as int, hi as int),
{
    let ghost start = r@;
    let mut i = lo;
    while i < hi
        invariant
            lo <= i <= hi,
            hi <= v@.len(),
            r@ == start + v@.subrange(lo as int, i as int),
        decreases hi - i,
    {
        push_char(r, v[i]);
        assert(v@.subrange(lo as int, i + 1) =~= v@.subrange(lo as int, i as int).push(v@[i as int]));
        assert(start + v@.subrange(lo as int, i + 1) =~= (start + v@.subrange(lo as int, i as int)).push(v@[i as int]));
        i = i + 1;
    }
}

/// Whether `p` occurs in `s` at position `i`.
pub fn matches_at_exec(s: &Vec<char>, p: &Vec<char>, i: usize) -> (b: bool)
    ensures
        b == matches_at(s@, p@, i as int),
{
    if i > s.len() || p.len() > s.len() - i {
        return false;
    }
    let mut j: usize = 0;
    while j < p.len()
        invariant
            j <= p@.len(),
            i + p.len() <= s.len(),
            i + p@.len() <= s@.len(),
            forall|k: int| 0 <= k < j ==> s@[i + k] == p@[k],
        decreases p.len() - j,
    {
        if s[i + j] != p[j] {
            assert(s@.subrange(i as int, i + p@.len())[j as int] != p@[j as int]);
            return false;
        }
        j = j + 1;
    }
    assert(s@.subrange(i as int, i + p@.len()) =~= p@);
    true
}

/// The first position `>= from` at which `p` occurs in `s`.
pub fn find_from_exec(s: &Vec<char>, p: &Vec<char>, from: usize) -> (r: Option<usize>)
    requires
        p@.len() > 0,
    ensures
        opt_index(r) == find_from(s@, p@, from as int),
{
    let mut i = from;
    while i < s.len()
        invariant
            from <= i,
            p@.len() > 0,
            forall|j: int| from <= j < i ==> !matches_at(s@, p@, j),
        decreases s.len() - i,
    {
        if matches_at_exec(s, p, i) {
            proof {
                lemma_find_from_first(s@, p@, from as int, i as int);
            }
            return Some(i);
        }
        i = i + 1;
    }
    proof {
        assert forall|j: int| from <= j implies !matches_at(s@, p@, j) by {
            if j >= i {
                assert(!(j + p@.len() <= s@.len()));
            }
        }
        lemma_find_from_none(s@, p@, from as int);
    }
    None
}

/// The first position of the character `c` in `s`.
pub fn find_char_exec(s: &Vec<char>, c: char) -> (r: Option<usize>)
    ensures
        opt_index(r) == find_char(s@, c),
{
    let mut p: Vec<char> = Vec::new();
    p.push(c);
    assert(p@ =~= seq![c]);
    find_from_exec(s, &p, 0)
}

/// Whether `s` starts with `p`.
pub fn starts_with_exec(s: &Vec<char>, p: &Vec<char>) -> (b: bool)
    ensures
        b == starts_with(s@, p@),
{
    matches_at_exec(s, p, 0)
}

/// Whether `p` occurs anywhere in `s`.
pub fn contains_exec(s: &Vec<char>, p: &Vec<char>) -> (b: bool)
    ensures
        b == contains_seq(s@, p@),
{
    let mut i: usize = 0;
    loop
        invariant
            i <= s.len(),
            forall|j: int| 0 <= j < i ==> !matches_at(s@, p@, j),
        decreases s.len() - i,
    {
        if matches_at_exec(s, p, i) {
            return true;
        }
        if i == s.len() {
            assert forall|j: int| !matches_at(s@, p@, j) by {
                if j > s@.len() {
                }
            }
            return false;
        }
        i = i + 1;
    }
}

/// Whether two character sequences are equal.
pub fn eq_exec(a: &Vec<char>, b: &Vec<char>) -> (r: bool)
    ensures
        r == (a@ == b@),
{
    if a.len() != b.len() {
        return false;
    }
    let r = matches_at_exec(a, b, 0);
    proof {
        if r {
            assert(a@.subrange(0, b@.len() as int) =~= a@);
        } else {
            assert(a@ != b@ ==> true);
            if a@ == b@ {
                assert(a@.subrange(0, b@.len() as int) =~= a@);
            }
        }
    }
    r
}

/// Whether the string `a` equals the string `b`.
pub fn str_eq(a: &str, b: &str) -> (r: bool)
    ensures
        r == (a@ == b@),
{
    let av = chars_of(a);
    let bv = chars_of(b);
    eq_exec(&av, &bv)
}

/// Whether `s` starts with `p`.
pub fn str_starts_with(s: &str, p: &str) -> (r: bool)
    ensures
        r == starts_with(s@, p@),
{
    let sv = chars_of(s);
    let pv = chars_of(p);
    starts_with_exec(&sv, &pv)
}

/// Whether `p` occurs in `s`.
pub fn str_contains(s: &str, p: &str) -> (r: bool)
    ensures
        r == contains_seq(s@, p@),
{
    let sv = chars_of(s);
    let pv = chars_of(p);
    contains_exec(&sv, &pv)
}

/// Whether `s` ends with `p`.
pub fn ends_with_exec(s: &Vec<char>, p: &Vec<char>) -> (b: bool)
    ensures
        b == ends_with(s@, p@),
{
    if p.len() > s.len() {
        return false;
    }
    let b = matches_at_exec(s, p, s.len() - p.len());
    b
}

/// Unicode `White_Space` characters (what `char::is_whitespace` accepts).
pub open spec fn is_whitespace(c: char) -> bool {
    let u = c as u32;
    (0x9 <= u && u <= 0xd) || u == 0x20 || u == 0x85 || u == 0xa0 || u == 0x1680 || (0x2000 <= u
        && u <= 0x200a) || u == 0x2028 || u == 0x2029 || u == 0x202f || u == 0x205f || u == 0x3000
}

/// `s` without leading whitespace.
pub open spec fn trim_start(s: Seq<char>) -> Seq<char>
    decreases s.len(),
{
    if s.len() > 0 && is_whitespace(s[0]) {
        trim_start(s.drop_first())
    } else {
        s
    }
}

/// `s` without trailing whitespace.
pub open spec fn trim_end(s: Seq<char>) -> Seq<char>
    decreases s.len(),
{
    if s.len() > 0 && is_whitespace(s.last()) {
        trim_end(s.drop_last())
    } else {
        s
    }
}

/// `s` without leading and trailing whitespace.
pub open spec fn trim(s: Seq<char>) -> Seq<char> {
    trim_end(trim_start(s))
}

/// A line without the `\r` of a `\r\n` ending.
pub open spec fn strip_cr(l: Seq<char>) -> Seq<char> {
    if l.len() > 0 && l.last() == '\r' {
        l.drop_last()
    } else {
        l
    }
}

/// The lines of `s`, as `str::lines` gives them: split at `\n` or `\r\n`,
/// with no empty line after a final line ending.
pub open spec fn lines(s: Seq<char>) -> Seq<Seq<char>>
    decreases s.len(),
{
    if s.len() == 0 {
        Seq::empty()
    } else {
        match find_char(s, '\n') {
            Some(k) => if 0 <= k < s.len() {
                seq![strip_cr(s.subrange(0, k))] + lines(skip(s, k + 1))
            } else {
                seq![s]
            },
            None => seq![s],
        }
    }
}

/// The first line of `s`, or the empty string when `s` is empty.
pub open spec fn first_line(s: Seq<char>) -> Seq<char> {
    if lines(s).len() > 0 {
        lines(s)[0]
    } else {
        Seq::empty()
    }
}

pub open spec fn views(v: Seq<String>) -> Seq<Seq<char>> {
    v.map_values(|s: String| s@)
}

/// `a` followed by `sep` and `b` (only `a` when `b` is empty, only `b` when
/// `a` is empty).
pub open spec fn join(parts: Seq<Seq<char>>, sep: Seq<char>) -> Seq<char>
    decreases parts.len(),
{
    if parts.len() == 0 {
        Seq::empty()
    } else if parts.len() == 1 {
        parts[0]
    } else {
        join(parts.drop_last(), sep) + sep + parts.last()
    }
}

/// Whether `c` is whitespace.
pub fn is_whitespace_exec(c: char) -> (b: bool)
    ensures
        b == is_whitespace(c),
{
    let u = c as u32;
    (0x9 <= u && u <= 0xd) || u == 0x20 || u == 0x85 || u == 0xa0 || u == 0x1680 || (0x2000 <= u
        && u <= 0x200a) || u == 0x2028 || u == 0x2029 || u == 0x202f || u == 0x205f || u == 0x3000
}

proof fn lemma_trim_start_at(s: Seq<char>, a: int)
    requires
        0 <= a <= s.len(),
        forall|j: int| 0 <= j < a ==> is_whitespace(s[j]),
        a == s.len() || !is_whitespace(s[a]),
    ensures
        trim_start(s) == s.subrange(a, s.len() as int),
    decreases a,
{
    if a == 0 {
        assert(s.subrange(0, s.len() as int) =~= s);
    } else {
        lemma_trim_start_at(s.drop_first(), a - 1);
        assert(s.drop_first().subrange(a - 1, s.len() - 1) =~= s.subrange(a, s.len() as int));
    }
}

proof fn lemma_trim_end_at(s: Seq<char>, b: int)
    requires
        0 <= b <= s.len(),
        forall|j: int| b <= j < s.len() ==> is_whitespace(s[j]),
        b == 0 || !is_whitespace(s[b - 1]),
    ensures
        trim_end(s) == s.subrange(0, b),
    decreases s.len() - b,
{
    if b == s.len() {
        assert(s.subrange(0, b) =~= s);
    } else {
        lemma_trim_end_at(s.drop_last(), b);
        assert(s.drop_last().subrange(0, b) =~= s.subrange(0, b));
    }
}

/// `s` without leading and trailing whitespace.
pub fn trim_exec(s: &str) -> (r: String)
    ensures
        r@ == trim(s@),
{
    let v = chars_of(s);
    let mut a: usize = 0;
    while a < v.len() && is_whitespace_exec(v[a])
        invariant
            a <= v@.len(),
            forall|j: int| 0 <= j < a ==> is_whitespace(v@[j]),
        decreases v.len() - a,
    {
        a = a + 1;
    }
    let mut b: usize = v.len();
    while b > a && is_whitespace_exec(v[b - 1])
        invariant
            a <= b <= v@.len(),
            forall|j: int| b <= j < v@.len() ==> is_whitespace(v@[j]),
        decreases b,
    {
        b = b - 1;
    }
    proof {
        lemma_trim_start_at(v@, a as int);
        let t = v@.subrange(a as int, v@.len() as int);
        lemma_trim_end_at(t, b - a);
        assert(t.subrange(0, b - a) =~= v@.subrange(a as int, b as int));
    }
    string_from_range(&v, a, b)
}

/// The lines of `s`, as `str::lines` gives them.
pub fn lines_exec(s: &str) -> (r: Vec<String>)
    ensures
        views(r@) == lines(s@),
{
    let mut rest = chars_of(s);
    let mut out: Vec<String> = Vec::new();
    while rest.len() > 0
        invariant
            views(out@) + lines(rest@) == lines(s@),
        decreases rest.len(),
    {
        let ghost old_rest = rest@;
        let ghost old_out = views(out@);
        match find_char_exec(&rest, '\n') {
            Some(k) => {
                proof {
                    lemma_find_from_spec(rest@, seq![c_nl()], 0);
                }
                assert(matches_at(rest@, seq!['\n'], k as int));
                let n = rest.len();
                let mut end = k;
                if k > 0 && rest[k - 1] == '\r' {
                    end = k - 1;
                }
                let line = string_from_range(&rest, 0, end);
                proof {
                    assert(line@ == strip_cr(old_rest.subrange(0, k as int)));
                }
                out.push(line);
                let next = rest_from(&rest, k + 1);
                proof {
                    assert(views(out@) =~= old_out.push(strip_cr(old_rest.subrange(0, k as int))));
                    assert(lines(old_rest) == seq![strip_cr(old_rest.subrange(0, k as int))] + lines(
                        skip(old_rest, k + 1),
                    ));
                    assert(views(out@) + lines(next@) =~= old_out + lines(old_rest));
                }
                rest = next;
            },
            None => {
                let line = string_from_chars(&rest);
                out.push(line);
                proof {
                    assert(views(out@) =~= old_out.push(old_rest));
                    assert(lines(old_rest) == seq![old_rest]);
                    assert(views(out@) + lines(Seq::<char>::empty()) =~= old_out + lines(old_rest));
                }
                rest = Vec::new();
            },
        }
    }
    assert(views(out@) + lines(rest@) =~= views(out@));
    out
}

spec fn c_nl() -> char {
    '\n'
}

/// The characters of `v` from position `lo` on.
pub fn rest_from(v: &Vec<char>, lo: usize) -> (r: Vec<char>)
    requires
        lo <= v@.len(),
    ensures
        r@ == skip(v@, lo as int),
{
    let mut r: Vec<char> = Vec::new();
    let mut i = lo;
    while i < v.len()
        invariant
            lo <= i <= v@.len(),
            r@ == v@.subrange(lo as int, i as int),
        decreases v.len() - i,
    {
        r.push(v[i]);
        i = i + 1;
    }
    r
}

/// The first line of `s` (empty when `s` is empty).
pub fn first_line_exec(s: &str) -> (r: String)
    ensures
        r@ == first_line(s@),
{
    let ls = lines_exec(s);
    if ls.len() > 0 {
        let r = ls[0].clone();
        assert(views(ls@)[0] == ls@[0]@);
        r
    } else {
        String::new()
    }
}

/// The strings of `parts` with `sep` between them.
pub fn join_exec(parts: &Vec<String>, sep: &str) -> (r: String)
    ensures
        r@ == join(views(parts@), sep@),
{
    let mut r = String::new();
    let mut i: usize = 0;
    while i < parts.len()
        invariant
            i <= parts@.len(),
            r@ == join(views(parts@).subrange(0, i as int), sep@),
        decreases parts.len() - i,
    {
        let ghost prev = views(parts@).subrange(0, i as int);
        if i > 0 {
            r.append(sep);
        }
        r.append(parts[i].as_str());
        proof {
            let next = views(parts@).subrange(0, i + 1);
            assert(next.drop_last() =~= prev);
            assert(next.last() == parts@[i as int]@);
            if i == 0 {
                assert(join(prev, sep@) =~= Seq::<char>::empty());
                assert(r@ =~= next[0]);
            }
        }
        i = i + 1;
    }
    assert(views(parts@).subrange(0, parts@.len() as int) =~= views(parts@));
    r
}


/// The decimal digit for `d` (taken modulo ten).
pub open spec fn digit(d: nat) -> char {
    let m = d % 10;
    if m == 0 { '0' } else if m == 1 { '1' } else if m == 2 { '2' } else if m == 3 { '3' }
    else if m == 4 { '4' } else if m == 5 { '5' } else if m == 6 { '6' } else if m == 7 { '7' }
    else if m == 8 { '8' } else { '9' }
}

/// The decimal notation of `n`, as `{}` prints an unsigned integer.
pub open spec fn decimal(n: nat) -> Seq<char>
    decreases n,
{
    if n < 10 {
        seq![digit(n)]
    } else {
        decimal(n / 10).push(digit(n % 10))
    }
}

fn digit_exec(d: u64) -> (c: char)
    requires
        d < 10,
    ensures
        c == digit(d as nat),
{
    if d == 0 { '0' } else if d == 1 { '1' } else if d == 2 { '2' } else if d == 3 { '3' }
    else if d == 4 { '4' } else if d == 5 { '5' } else if d == 6 { '6' } else if d == 7 { '7' }
    else if d == 8 { '8' } else { '9' }
}

/// The decimal notation of `n`.
pub fn decimal_exec(n: u64) -> (r: String)
    ensures
        r@ == decimal(n as nat),
    decreases n,
{
    if n < 10 {
        let mut r = String::new();
        push_char(&mut r, digit_exec(n));
        assert(r@ =~= seq![digit(n as nat)]);
        r
    } else {
        let mut r = decimal_exec(n / 10);
        push_char(&mut r, digit_exec(n % 10));
        assert(digit((n % 10) as nat) == digit(n as nat % 10));
        r
    }
}

/// How `{:?}` prints a list of strings.
pub uninterp spec fn debug_list(items: Seq<Seq<char>>) -> Seq<char>;

/// `format!("{:?}", items)`: the `Debug` text of a list of strings. Its
/// result is named, not stated; it depends on the strings alone.
#[verifier::external_body]
pub fn debug_string_list(items: &Vec<String>) -> (r: String)
    ensures
        r@ == debug_list(views(items@)),
{
    format!("{:?}", items)
}

/// The number of bytes `c` takes in UTF-8.
pub open spec fn utf8_width(c: char) -> nat {
    let u = c as u32;
    if u < 0x80 {
        1
    } else if u < 0x800 {
        2
    } else if u < 0x10000 {
        3
    } else {
        4
    }
}

/// The number of bytes `s` takes in UTF-8 (what `str::len` gives).
pub open spec fn utf8_len(s: Seq<char>) -> nat
    decreases s.len(),
{
    if s.len() == 0 {
        0
    } else {
        utf8_len(s.drop_last()) + utf8_width(s.last())
    }
}

/// The number of bytes `c` takes in UTF-8.
pub fn utf8_width_exec(c: char) -> (r: usize)
    ensures
        r == utf8_width(c),
{
    let u = c as u32;
    if u < 0x80 {
        1
    } else if u < 0x800 {
        2
    } else if u < 0x10000 {
        3
    } else {
        4
    }
}

/// The UTF-8 length of the first `i` characters is at most that of all.
pub proof fn lemma_utf8_len_prefix(s: Seq<char>, i: int)
    requires
        0 <= i <= s.len(),
    ensures
        utf8_len(s.subrange(0, i)) <= utf8_len(s),
    decreases s.len() - i,
{
    if i < s.len() {
        lemma_utf8_len_prefix(s, i + 1);
        assert(s.subrange(0, i + 1).drop_last() =~= s.subrange(0, i));
    } else {
        assert(s.subrange(0, i) =~= s);
    }
}

/// The length in bytes of `s`, as `str::len` gives it (in a type wide
/// enough for any count of characters).
pub fn utf8_len_exec(s: &str) -> (r: u128)
    ensures
        r == utf8_len(s@),
{
    let v = chars_of(s);
    let mut n: u128 = 0;
    let mut i: usize = 0;
    while i < v.len()
        invariant
            i <= v@.len(),
            v@ == s@,
            n == utf8_len(v@.subrange(0, i as int)),
            n <= 4 * i,
        decreases v.len() - i,
    {
        assert(v@.subrange(0, i + 1).drop_last() =~= v@.subrange(0, i as int));
        let w = utf8_width_exec(v[i]);
        n = n + w as u128;
        i = i + 1;
    }
    assert(v@.subrange(0, v@.len() as int) =~= v@);
    n
}

/// `s` with each occurrence of the non-empty `pat` from position `i` on,
/// taken left to right without overlap, replaced by `rep`.
pub open spec fn replace_from(s: Seq<char>, pat: Seq<char>, rep: Seq<char>, i: int) -> Seq<char>
    decreases s.len() - i,
    when 0 <= i && pat.len() > 0
{
    match find_from(s, pat, i) {
        Some(k) => {
            proof {
                lemma_find_from_spec(s, pat, i);
            }
            s.subrange(i, k) + rep + replace_from(s, pat, rep, k + pat.len())
        },
        None => if i <= s.len() {
            s.subrange(i, s.len() as int)
        } else {
            Seq::empty()
        },
    }
}

/// `rep` after each character of `s`.
pub open spec fn interleave_after(s: Seq<char>, rep: Seq<char>) -> Seq<char>
    decreases s.len(),
{
    if s.len() == 0 {
        Seq::empty()
    } else {
        seq![s[0]] + rep + interleave_after(s.drop_first(), rep)
    }
}

/// What `str::replace(s, pat, rep)` gives: each occurrence of `pat`, left to
/// right and without overlap, replaced by `rep`; an empty `pat` occurs
/// before each character and at the end.
pub open spec fn replace_all(s: Seq<char>, pat: Seq<char>, rep: Seq<char>) -> Seq<char> {
    if pat.len() == 0 {
        rep + interleave_after(s, rep)
    } else {
        replace_from(s, pat, rep, 0)
    }
}

/// `s` with each occurrence of `pat` replaced by `rep`.
pub fn replace_all_exec(s: &str, pat: &str, rep: &str) -> (r: String)
    ensures
        r@ == replace_all(s@, pat@, rep@),
{
    let sv = chars_of(s);
    let pv = chars_of(pat);
    let mut out = String::new();
    if pv.len() == 0 {
        out.append(rep);
        let mut i: usize = 0;
        assert(sv@.subrange(0, sv@.len() as int) =~= s@);
        while i < sv.len()
            invariant
                i <= sv@.len(),
                sv@ == s@,
                out@ + interleave_after(sv@.subrange(i as int, sv@.len() as int), rep@) == rep@ + interleave_after(s@, rep@),
            decreases sv.len() - i,
        {
            let ghost rest = sv@.subrange(i as int, sv@.len() as int);
            assert(rest.drop_first() =~= sv@.subrange(i + 1, sv@.len() as int));
            assert(rest[0] == sv@[i as int]);
            let ghost before = out@;
            push_char(&mut out, sv[i]);
            out.append(rep);
            assert(out@ =~= before + (seq![sv@[i as int]] + rep@));
            assert(before + interleave_after(rest, rep@) =~= out@ + interleave_after(rest.drop_first(), rep@));
            i = i + 1;
        }
        assert(interleave_after(sv@.subrange(i as int, sv@.len() as int), rep@) =~= Seq::<char>::empty());
        assert(out@ + Seq::<char>::empty() =~= out@);
        return out;
    }
    let mut i: usize = 0;
    assert(out@ + replace_from(s@, pat@, rep@, 0) =~= replace_from(s@, pat@, rep@, 0));
    loop
        invariant
            i <= sv@.len(),
            sv@ == s@,
            pv@ == pat@,
            pv@.len() > 0,
            out@ + replace_from(s@, pat@, rep@, i as int) == replace_all(s@, pat@, rep@),
        decreases sv@.len() - i,
    {
        proof {
            lemma_find_from_spec(s@, pat@, i as int);
        }
        match find_from_exec(&sv, &pv, i) {
            Some(k) => {
                let n = sv.len();
                assert(matches_at(s@, pat@, k as int));
                let ghost before = out@;
                append_range(&mut out, &sv, i, k);
                out.append(rep);
                assert(replace_from(s@, pat@, rep@, i as int) == s@.subrange(i as int, k as int) + rep@ + replace_from(s@, pat@, rep@, k + pat@.len()));
                assert(out@ + replace_from(s@, pat@, rep@, k + pat@.len()) =~= before + replace_from(s@, pat@, rep@, i as int));
                i = k + pv.len();
            },
            None => {
                let n = sv.len();
                append_range(&mut out, &sv, i, n);
                return out;
            },
        }
    }
}

/// The first `n` bytes of `s`, when they end at a character boundary.
pub open spec fn byte_prefix(s: Seq<char>, n: int) -> Option<Seq<char>>
    decreases s.len(),
{
    if n == 0 {
        Some(Seq::empty())
    } else if s.len() == 0 || n < 0 {
        None
    } else if utf8_width(s[0]) > n {
        None
    } else {
        match byte_prefix(s.drop_first(), n - utf8_width(s[0])) {
            Some(p) => Some(seq![s[0]] + p),
            None => None,
        }
    }
}

/// The first `n` bytes of `s`; `None` when byte `n` falls inside a character
/// (where slicing `&s[..n]` panics).
pub fn byte_prefix_exec(s: &str, n: usize) -> (r: Option<String>)
    ensures
        match byte_prefix(s@, n as int) {
            Some(p) => r matches Some(t) && t@ == p,
            None => r is None,
        },
{
    let v = chars_of(s);
    let mut i: usize = 0;
    let mut left: usize = n;
    assert(v@.subrange(0, v@.len() as int) =~= v@);
    proof {
        match byte_prefix(v@, n as int) {
            Some(p) => {
                assert(v@.subrange(0, 0) + p =~= p);
            },
            None => {},
        }
    }
    while left > 0
        invariant
            i <= v@.len(),
            v@ == s@,
            left <= n,
            byte_prefix(s@, n as int) == match byte_prefix(v@.subrange(i as int, v@.len() as int), left as int) {
                Some(p) => Some(v@.subrange(0, i as int) + p),
                None => None::<Seq<char>>,
            },
        decreases left,
    {
        let ghost rest = v@.subrange(i as int, v@.len() as int);
        if i >= v.len() {
            return None;
        }
        let w = utf8_width_exec(v[i]);
        assert(rest[0] == v@[i as int]);
        if w > left {
            return None;
        }
        assert(rest.drop_first() =~= v@.subrange(i + 1, v@.len() as int));
        proof {
            match byte_prefix(rest.drop_first(), left - w) {
                Some(p) => {
                    assert(v@.subrange(0, i as int) + (seq![rest[0]] + p) =~= v@.subrange(0, i + 1) + p);
                },
                None => {},
            }
        }
        left = left - w;
        i = i + 1;
    }
    let r = string_from_range(&v, 0, i);
    assert(v@.subrange(0, i as int) + Seq::<char>::empty() =~= v@.subrange(0, i as int));
    Some(r)
}

/// `s` with every leading repetition of `p` removed (`str::trim_start_matches`).
pub open spec fn strip_all_prefix(s: Seq<char>, p: Seq<char>) -> Seq<char>
    decreases s.len(),
{
    if p.len() > 0 && starts_with(s, p) {
        strip_all_prefix(skip(s, p.len() as int), p)
    } else {
        s
    }
}

/// `s` with every leading repetition of `p` removed.
pub fn strip_all_prefix_exec(s: &str, p: &str) -> (r: String)
    ensures
        r@ == strip_all_prefix(s@, p@),
{
    let v = chars_of(s);
    let pv = chars_of(p);
    let mut i: usize = 0;
    assert(skip(s@, 0) =~= s@);
    if pv.len() == 0 {
        return String::from_str(s);
    }
    while i <= v.len() && matches_at_exec(&v, &pv, i)
        invariant
            i <= v@.len(),
            v@ == s@,
            pv@ == p@,
            pv@.len() > 0,
            strip_all_prefix(s@, p@) == strip_all_prefix(skip(s@, i as int), p@),
        decreases v@.len() - i,
    {
        let ghost rest = skip(s@, i as int);
        assert(rest.subrange(0, p@.len() as int) =~= s@.subrange(i as int, i + p@.len()));
        assert(skip(rest, p@.len() as int) =~= skip(s@, i + p@.len()));
        i = i + pv.len();
    }
    let ghost rest = skip(s@, i as int);
    proof {
        if starts_with(rest, p@) {
            assert(rest.subrange(0, p@.len() as int) =~= s@.subrange(i as int, i + p@.len()));
        }
    }
    rest_string(&v, i)
}

/// The string of `v[lo..]`.
pub fn rest_string(v: &Vec<char>, lo: usize) -> (r: String)
    requires
        lo <= v@.len(),
    ensures
        r@ == skip(v@, lo as int),
{
    let n = v.len();
    string_from_range(v, lo, n)
}

/// What `str::to_lowercase` gives for `s`.
pub uninterp spec fn lowercase(s: Seq<char>) -> Seq<char>;

/// `str::to_lowercase`: the lowercase form of `s` by Unicode's rules. The
/// result is named, not stated; it depends on `s` alone.
#[verifier::external_body]
pub fn to_lowercase(s: &str) -> (r: String)
    ensures
        r@ == lowercase(s@),
{
    s.to_lowercase()
}

/// What `char::is_alphanumeric` says of `c`.
pub uninterp spec fn char_alphanumeric(c: char) -> bool;

/// `char::is_alphanumeric`: whether `c` is alphabetic or numeric by
/// Unicode's tables. The result is named, not stated; it depends on `c`
/// alone.
#[verifier::external_body]
pub fn is_alphanumeric(c: char) -> (r: bool)
    ensures
        r == char_alphanumeric(c),
{
    c.is_alphanumeric()
}

/// The leading run of non-whitespace characters of `t`.
pub open spec fn word_prefix(t: Seq<char>) -> Seq<char>
    decreases t.len(),
{
    if t.len() == 0 || is_whitespace(t[0]) {
        Seq::empty()
    } else {
        seq![t[0]] + word_prefix(t.drop_first())
    }
}

/// The first whitespace-separated word of `s` (empty when there is none).
pub open spec fn first_word(s: Seq<char>) -> Seq<char> {
    word_prefix(trim_start(s))
}

/// The whitespace-separated words of `s`, as `str::split_whitespace` gives
/// them.
pub open spec fn words(s: Seq<char>) -> Seq<Seq<char>>
    decreases s.len(),
{
    let t = trim_start(s);
    if t.len() == 0 {
        Seq::empty()
    } else {
        let w = word_prefix(t);
        proof {
            lemma_word_prefix_len(t);
            lemma_trim_start_len(s);
        }
        seq![w] + words(skip(t, w.len() as int))
    }
}

pub proof fn lemma_word_prefix_len(t: Seq<char>)
    ensures
        word_prefix(t).len() <= t.len(),
        t.len() > 0 && !is_whitespace(t[0]) ==> word_prefix(t).len() > 0,
        forall|i: int| 0 <= i < word_prefix(t).len() ==> word_prefix(t)[i] == t[i] && !is_whitespace(t[i]),
        word_prefix(t).len() < t.len() ==> is_whitespace(t[word_prefix(t).len() as int]),
    decreases t.len(),
{
    if t.len() > 0 && !is_whitespace(t[0]) {
        lemma_word_prefix_len(t.drop_first());
        let w = word_prefix(t);
        assert forall|i: int| 0 <= i < w.len() implies w[i] == t[i] && !is_whitespace(t[i]) by {
            if i > 0 {
                assert(w[i] == word_prefix(t.drop_first())[i - 1]);
                assert(t.drop_first()[i - 1] == t[i]);
            }
        }
    }
}

pub proof fn lemma_trim_start_len(s: Seq<char>)
    ensures
        trim_start(s).len() <= s.len(),
        trim_start(s) == skip(s, s.len() - trim_start(s).len()),
        trim_start(s).len() > 0 ==> !is_whitespace(trim_start(s)[0]),
    decreases s.len(),
{
    if s.len() > 0 && is_whitespace(s[0]) {
        lemma_trim_start_len(s.drop_first());
        assert(skip(s.drop_first(), s.drop_first().len() - trim_start(s.drop_first()).len()) =~= skip(s, s.len() - trim_start(s).len()));
    } else {
        assert(skip(s, 0) =~= s);
    }
}

/// The first word of `s`.
pub fn first_word_exec(s: &str) -> (r: String)
    ensures
        r@ == first_word(s@),
{
    let v = chars_of(s);
    let (a, b) = next_word_bounds(&v, 0);
    assert(skip(s@, 0) =~= s@);
    string_from_range(&v, a, b)
}

/// Where the next word starts and ends, looking from `from`: `v[a..b]` is
/// the first word of `v[from..]`, and `a == b` when there is none.
pub fn next_word_bounds(v: &Vec<char>, from: usize) -> (r: (usize, usize))
    requires
        from <= v@.len(),
    ensures
        from <= r.0 <= r.1 <= v@.len(),
        trim_start(skip(v@, from as int)) == skip(v@, r.0 as int),
        v@.subrange(r.0 as int, r.1 as int) == word_prefix(skip(v@, r.0 as int)),
{
    let n = v.len();
    let mut i: usize = from;
    while i < n && is_whitespace_exec(v[i])
        invariant
            from <= i <= n,
            n == v@.len(),
            trim_start(skip(v@, from as int)) == trim_start(skip(v@, i as int)),
        decreases n - i,
    {
        assert(skip(v@, i as int).drop_first() =~= skip(v@, i + 1));
        i = i + 1;
    }
    assert(trim_start(skip(v@, i as int)) == skip(v@, i as int));
    let mut j: usize = i;
    while j < n && !is_whitespace_exec(v[j])
        invariant
            i <= j <= n,
            n == v@.len(),
            word_prefix(skip(v@, i as int)) == v@.subrange(i as int, j as int) + word_prefix(skip(v@, j as int)),
        decreases n - j,
    {
        assert(skip(v@, j as int).drop_first() =~= skip(v@, j + 1));
        assert(v@.subrange(i as int, j + 1) =~= v@.subrange(i as int, j as int) + seq![v@[j as int]]);
        j = j + 1;
    }
    assert(word_prefix(skip(v@, j as int)) =~= Seq::<char>::empty());
    assert(v@.subrange(i as int, j as int) + Seq::<char>::empty() =~= v@.subrange(i as int, j as int));
    (i, j)
}

/// The whitespace-separated words of `s`.
pub fn split_whitespace_exec(s: &str) -> (r: Vec<String>)
    ensures
        views(r@) == words(s@),
{
    let v = chars_of(s);
    let mut out: Vec<String> = Vec::new();
    let mut pos: usize = 0;
    assert(skip(s@, 0) =~= s@);
    assert(views(out@) + words(skip(v@, 0)) =~= words(s@));
    loop
        invariant
            pos <= v@.len(),
            v@ == s@,
            views(out@) + words(skip(v@, pos as int)) == words(s@),
        decreases v@.len() - pos,
    {
        let (a, b) = next_word_bounds(&v, pos);
        let ghost rest = skip(v@, pos as int);
        if a == b {
            proof {
                lemma_word_prefix_len(skip(v@, a as int));
                lemma_trim_start_len(rest);
                if trim_start(rest).len() > 0 {
                    assert(skip(v@, a as int).len() > 0);
                }
                assert(words(rest) =~= Seq::<Seq<char>>::empty());
                assert(views(out@) + Seq::<Seq<char>>::empty() =~= views(out@));
            }
            return out;
        }
        let ghost prev = out@;
        out.push(string_from_range(&v, a, b));
        proof {
            let t = trim_start(rest);
            assert(t == skip(v@, a as int));
            lemma_word_prefix_len(t);
            assert(word_prefix(t) == v@.subrange(a as int, b as int));
            assert(skip(t, word_prefix(t).len() as int) =~= skip(v@, b as int));
            assert(words(rest) == seq![word_prefix(t)] + words(skip(v@, b as int)));
            assert(views(out@) =~= views(prev).push(v@.subrange(a as int, b as int)));
            assert(views(out@) + words(skip(v@, b as int)) =~= views(prev) + words(rest));
        }
        pos = b;
    }
}

} // verus!
