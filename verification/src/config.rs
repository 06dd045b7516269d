//! The repository configuration (`.bgit/config.toml`): rule levels and step
//! flags per workflow.
//!
//! Each table is held as a list of `(name, value)` entries; a name is looked
//! up by its first entry, so the table reads as the map from each name to the
//! value of its first entry.
use vstd::prelude::*;

use crate::rules::RuleLevel;
use crate::text::chars_of;

verus! {

/// The names of a list of entries, in order.
pub open spec fn keys_of<V>(entries: Seq<(String, V)>) -> Seq<Seq<char>> {
    entries.map_values(|e: (String, V)| e.0@)
}

/// The first index `>= i` whose name is `key`.
pub open spec fn key_index_from(keys: Seq<Seq<char>>, key: Seq<char>, i: int) -> Option<int>
    decreases keys.len() - i,
{
    if i < 0 || i >= keys.len() {
        None
    } else if keys[i] == key {
        Some(i)
    } else {
        key_index_from(keys, key, i + 1)
    }
}

/// The index of the first entry named `key`.
pub open spec fn key_index<V>(entries: Seq<(String, V)>, key: Seq<char>) -> Option<int> {
    key_index_from(keys_of(entries), key, 0)
}

/// The value of the first entry named `key`.
pub open spec fn lookup<V>(entries: Seq<(String, V)>, key: Seq<char>) -> Option<V> {
    match key_index(entries, key) {
        Some(i) => Some(entries[i].1),
        None => None,
    }
}

/// The table as a map: each name to the value of its first entry.
pub open spec fn table_map<V>(entries: Seq<(String, V)>) -> Map<Seq<char>, V> {
    Map::new(|k: Seq<char>| lookup(entries, k) is Some, |k: Seq<char>| lookup(entries, k)->0)
}

pub proof fn lemma_key_index_from(keys: Seq<Seq<char>>, key: Seq<char>, i: int)
    requires
        0 <= i,
    ensures
        key_index_from(keys, key, i) matches Some(k) ==> i <= k < keys.len() && keys[k] == key
            && forall|j: int| i <= j < k ==> keys[j] != key,
        key_index_from(keys, key, i) is None ==> forall|j: int| i <= j < keys.len() ==> keys[j]
            != key,
    decreases keys.len() - i,
{
    if i < keys.len() && keys[i] != key {
        lemma_key_index_from(keys, key, i + 1);
    }
}

proof fn lemma_key_index_first(keys: Seq<Seq<char>>, key: Seq<char>, i: int, k: int)
    requires
        0 <= i <= k < keys.len(),
        keys[k] == key,
        forall|j: int| i <= j < k ==> keys[j] != key,
    ensures
        key_index_from(keys, key, i) == Some(k),
    decreases k - i,
{
    if i < k {
        lemma_key_index_first(keys, key, i + 1, k);
    }
}

proof fn lemma_key_index_none(keys: Seq<Seq<char>>, key: Seq<char>, i: int)
    requires
        0 <= i,
        forall|j: int| i <= j < keys.len() ==> keys[j] != key,
    ensures
        key_index_from(keys, key, i) is None,
    decreases keys.len() - i,
{
    if i < keys.len() {
        lemma_key_index_none(keys, key, i + 1);
    }
}

/// The index of the first entry named `key`.
pub fn find_key<V>(entries: &Vec<(String, V)>, key: &str) -> (r: Option<usize>)
    ensures
        crate::text::opt_index(r) == key_index(entries@, key@),
        r matches Some(i) ==> i < entries@.len(),
{
    let kv = chars_of(key);
    let mut i: usize = 0;
    while i < entries.len()
        invariant
            kv@ == key@,
            i <= entries@.len(),
            forall|j: int| 0 <= j < i ==> keys_of(entries@)[j] != key@,
        decreases entries.len() - i,
    {
        let name = chars_of(entries[i].0.as_str());
        if crate::text::eq_exec(&name, &kv) {
            proof {
                lemma_key_index_first(keys_of(entries@), key@, 0, i as int);
            }
            return Some(i);
        }
        i = i + 1;
    }
    proof {
        lemma_key_index_none(keys_of(entries@), key@, 0);
    }
    None
}

/// No two entries share a name.
pub open spec fn distinct_keys<V>(entries: Seq<(String, V)>) -> bool {
    forall|i: int, j: int| 0 <= i < j < entries.len() ==> #[trigger] entries[i].0@ != #[trigger] entries[j].0@
}

/// In a table without repeated names, each entry gives the value of its name.
pub proof fn lemma_distinct_lookup<V>(entries: Seq<(String, V)>, i: int)
    requires
        distinct_keys(entries),
        0 <= i < entries.len(),
    ensures
        lookup(entries, entries[i].0@) == Some(entries[i].1),
{
    let keys = keys_of(entries);
    assert forall|j: int| 0 <= j < i implies keys[j] != entries[i].0@ by {
        assert(entries[j].0@ != entries[i].0@);
    }
    lemma_key_index_first(keys, entries[i].0@, 0, i);
}

/// A name that no entry has is not in the table.
pub proof fn lemma_absent_lookup<V>(entries: Seq<(String, V)>, key: Seq<char>)
    requires
        forall|j: int| 0 <= j < entries.len() ==> entries[j].0@ != key,
    ensures
        lookup(entries, key) is None,
{
    let keys = keys_of(entries);
    assert forall|j: int| 0 <= j < keys.len() implies keys[j] != key by {
        assert(keys[j] == entries[j].0@);
    }
    lemma_key_index_none(keys, key, 0);
}

/// The table as a map, when no name repeats: the name of each entry to its value.
pub proof fn lemma_distinct_table_map<V>(entries: Seq<(String, V)>, key: Seq<char>)
    requires
        distinct_keys(entries),
    ensures
        table_map(entries).contains_key(key) <==> exists|i: int| 0 <= i < entries.len() && #[trigger] entries[i].0@ == key,
        forall|i: int| 0 <= i < entries.len() && #[trigger] entries[i].0@ == key ==> table_map(entries)[key] == entries[i].1,
{
    if exists|i: int| 0 <= i < entries.len() && #[trigger] entries[i].0@ == key {
        let i = choose|i: int| 0 <= i < entries.len() && #[trigger] entries[i].0@ == key;
        lemma_distinct_lookup(entries, i);
        assert forall|j: int| 0 <= j < entries.len() && #[trigger] entries[j].0@ == key implies table_map(entries)[key] == entries[j].1 by {
            if j != i {
                if j < i {
                    assert(entries[j].0@ != entries[i].0@);
                } else {
                    assert(entries[i].0@ != entries[j].0@);
                }
            }
        }
    } else {
        lemma_absent_lookup(entries, key);
    }
}

/// Sets `key` to `value` in a table without repeated names: the entry named
/// `key` gets the value, or a new entry is added at the end.
pub fn table_set<V>(entries: &mut Vec<(String, V)>, key: String, value: V)
    requires
        distinct_keys(old(entries)@),
    ensures
        distinct_keys(final(entries)@),
        table_map(final(entries)@) == table_map(old(entries)@).insert(key@, value),
{
    let ghost before = entries@;
    let ghost k = key@;
    proof {
        lemma_key_index_from(keys_of(before), k, 0);
    }
    match find_key(entries, key.as_str()) {
        Some(i) => {
            let ghost ki = i as int;
            assert(keys_of(before)[ki] == k);
            entries.set(i, (key, value));
            proof {
                let after = entries@;
                assert(after[ki].0@ == k);
                assert forall|a: int, b: int| 0 <= a < b < after.len() implies #[trigger] after[a].0@ != #[trigger] after[b].0@ by {
                    assert(before[a].0@ != before[b].0@);
                    assert(after[a].0@ == before[a].0@ || a == ki);
                    assert(after[b].0@ == before[b].0@ || b == ki);
                    assert(before[ki].0@ == k);
                }
                let m1 = table_map(after);
                let m2 = table_map(before).insert(k, value);
                assert forall|kk: Seq<char>| #[trigger] m1.dom().contains(kk) == m2.dom().contains(kk) && (m1.dom().contains(kk) ==> m1[kk] == m2[kk]) by {
                    lemma_distinct_table_map(after, kk);
                    lemma_distinct_table_map(before, kk);
                    if kk == k {
                        lemma_distinct_lookup(after, ki);
                    } else {
                        if exists|j: int| 0 <= j < before.len() && #[trigger] before[j].0@ == kk {
                            let j = choose|j: int| 0 <= j < before.len() && #[trigger] before[j].0@ == kk;
                            assert(after[j] == before[j]);
                        }
                        if exists|j: int| 0 <= j < after.len() && #[trigger] after[j].0@ == kk {
                            let j = choose|j: int| 0 <= j < after.len() && #[trigger] after[j].0@ == kk;
                            assert(after[j] == before[j]);
                        }
                    }
                }
                assert(m1.dom() =~= m2.dom());
                assert(m1 =~= m2);
            }
        },
        None => {
            entries.push((key, value));
            proof {
                let after = entries@;
                let n = before.len() as int;
                assert forall|j: int| 0 <= j < n implies before[j].0@ != k by {
                    assert(keys_of(before)[j] == before[j].0@);
                }
                assert forall|a: int, b: int| 0 <= a < b < after.len() implies #[trigger] after[a].0@ != #[trigger] after[b].0@ by {
                    if b < n {
                        assert(before[a].0@ != before[b].0@);
                    } else {
                        assert(after[a] == before[a]);
                    }
                }
                let m1 = table_map(after);
                let m2 = table_map(before).insert(k, value);
                assert forall|kk: Seq<char>| #[trigger] m1.dom().contains(kk) == m2.dom().contains(kk) && (m1.dom().contains(kk) ==> m1[kk] == m2[kk]) by {
                    lemma_distinct_table_map(after, kk);
                    lemma_distinct_table_map(before, kk);
                    if kk == k {
                        lemma_distinct_lookup(after, n);
                    } else {
                        if exists|j: int| 0 <= j < before.len() && #[trigger] before[j].0@ == kk {
                            let j = choose|j: int| 0 <= j < before.len() && #[trigger] before[j].0@ == kk;
                            assert(after[j] == before[j]);
                        }
                        if exists|j: int| 0 <= j < after.len() && #[trigger] after[j].0@ == kk {
                            let j = choose|j: int| 0 <= j < after.len() && #[trigger] after[j].0@ == kk;
                            if j < n {
                                assert(after[j] == before[j]);
                            }
                        }
                    }
                }
                assert(m1.dom() =~= m2.dom());
                assert(m1 =~= m2);
            }
        },
    }
}

/// The names of `keys`, each once, in the order they first come.
pub open spec fn first_names(keys: Seq<Seq<char>>) -> Seq<Seq<char>>
    decreases keys.len(),
{
    if keys.len() == 0 {
        Seq::empty()
    } else {
        let rest = first_names(keys.drop_last());
        if rest.contains(keys.last()) {
            rest
        } else {
            rest.push(keys.last())
        }
    }
}

/// The names listed once each hold no repeat, and are exactly the names
/// that occur.
pub proof fn lemma_first_names(keys: Seq<Seq<char>>)
    ensures
        forall|i: int, j: int| 0 <= i < j < first_names(keys).len() ==> #[trigger] first_names(keys)[i] != #[trigger] first_names(keys)[j],
        forall|k: Seq<char>| first_names(keys).contains(k) <==> keys.contains(k),
    decreases keys.len(),
{
    if keys.len() > 0 {
        let d = keys.drop_last();
        lemma_first_names(d);
        let rest = first_names(d);
        assert forall|k: Seq<char>| first_names(keys).contains(k) <==> keys.contains(k) by {
            if keys.contains(k) && k != keys.last() {
                let j = choose|j: int| 0 <= j < keys.len() && keys[j] == k;
                assert(d[j] == k);
            }
            if d.contains(k) {
                let j = choose|j: int| 0 <= j < d.len() && d[j] == k;
                assert(keys[j] == k);
            }
            if !rest.contains(keys.last()) && first_names(keys).contains(k) && k != keys.last() {
                let j = choose|j: int| 0 <= j < first_names(keys).len() && first_names(keys)[j] == k;
                assert(rest[j] == k);
            }
            if rest.contains(k) && !rest.contains(keys.last()) {
                let j = choose|j: int| 0 <= j < rest.len() && rest[j] == k;
                assert(first_names(keys)[j] == k);
            }
            if k == keys.last() && !rest.contains(keys.last()) {
                assert(first_names(keys)[rest.len() as int] == k);
            }
        }
    }
}

/// A name is in the table exactly when some entry has it.
pub proof fn lemma_table_has<V>(entries: Seq<(String, V)>, k: Seq<char>)
    ensures
        table_map(entries).contains_key(k) <==> keys_of(entries).contains(k),
{
    lemma_key_index_from(keys_of(entries), k, 0);
    if keys_of(entries).contains(k) {
        let j = choose|j: int| 0 <= j < keys_of(entries).len() && keys_of(entries)[j] == k;
        assert(keys_of(entries)[j] == k);
    }
}

/// The names of the entries, each once, in the order they first come: the
/// names of the table.
pub fn entry_names<V>(entries: &Vec<(String, V)>) -> (r: Vec<&String>)
    ensures
        r@.map_values(|s: &String| s@) == first_names(keys_of(entries@)),
        forall|i: int, j: int| 0 <= i < j < r@.len() ==> #[trigger] r@[i]@ != #[trigger] r@[j]@,
        forall|k: Seq<char>| r@.map_values(|s: &String| s@).contains(k) <==> table_map(entries@).contains_key(k),
{
    let ghost keys = keys_of(entries@);
    let mut r: Vec<&String> = Vec::new();
    let mut i: usize = 0;
    assert(keys.subrange(0, 0) =~= Seq::<Seq<char>>::empty());
    assert(r@.map_values(|s: &String| s@) =~= Seq::<Seq<char>>::empty());
    while i < entries.len()
        invariant
            i <= entries@.len(),
            keys == keys_of(entries@),
            r@.map_values(|s: &String| s@) == first_names(keys.subrange(0, i as int)),
        decreases entries.len() - i,
    {
        let ghost rv = r@.map_values(|s: &String| s@);
        let ghost pre = keys.subrange(0, i as int);
        assert(keys.subrange(0, i + 1).drop_last() =~= pre);
        assert(keys.subrange(0, i + 1).last() == entries@[i as int].0@);
        let mut seen = false;
        let mut j: usize = 0;
        while j < r.len()
            invariant
                j <= r@.len(),
                rv == r@.map_values(|s: &String| s@),
                i < entries@.len(),
                !seen ==> forall|t: int| 0 <= t < j ==> rv[t] != entries@[i as int].0@,
                seen ==> rv.contains(entries@[i as int].0@),
            decreases r.len() - j,
        {
            if crate::text::str_eq(r[j].as_str(), entries[i].0.as_str()) {
                assert(rv[j as int] == entries@[i as int].0@);
                seen = true;
            }
            j = j + 1;
        }
        proof {
            if !seen && rv.contains(entries@[i as int].0@) {
                let t = choose|t: int| 0 <= t < rv.len() && rv[t] == entries@[i as int].0@;
                assert(false);
            }
        }
        if !seen {
            r.push(&entries[i].0);
            assert(r@.map_values(|s: &String| s@) =~= rv.push(entries@[i as int].0@));
        }
        i = i + 1;
    }
    assert(keys.subrange(0, entries@.len() as int) =~= keys);
    proof {
        lemma_first_names(keys);
        let rv = r@.map_values(|s: &String| s@);
        assert forall|a: int, b: int| 0 <= a < b < r@.len() implies #[trigger] r@[a]@ != #[trigger] r@[b]@ by {
            assert(rv[a] == r@[a]@);
            assert(rv[b] == r@[b]@);
        }
        assert forall|k: Seq<char>| rv.contains(k) <==> table_map(entries@).contains_key(k) by {
            lemma_table_has(entries@, k);
        }
    }
    r
}

/// Rule levels for one workflow: rule name to level.
pub struct WorkflowRules {
    pub rule_levels: Vec<(String, RuleLevel)>,
}

impl WorkflowRules {
    pub open spec fn levels(&self) -> Map<Seq<char>, RuleLevel> {
        table_map(self.rule_levels@)
    }

    /// Get rule level for a specific rule
    pub fn get_rule_level(&self, rule_name: &str) -> (r: Option<&RuleLevel>)
        ensures
            r matches Some(l) ==> self.levels().contains_key(rule_name@) && *l == self.levels()[rule_name@],
            r is None ==> !self.levels().contains_key(rule_name@),
    {
        match find_key(&self.rule_levels, rule_name) {
            Some(i) => Some(&self.rule_levels[i].1),
            None => None,
        }
    }

    /// Check if a rule is configured
    pub fn has_rule(&self, rule_name: &str) -> (r: bool)
        ensures
            r == self.levels().contains_key(rule_name@),
    {
        find_key(&self.rule_levels, rule_name).is_some()
    }

    /// Get all rule names: each configured rule once, in the order it
    /// first comes.
    pub fn get_rule_names(&self) -> (r: Vec<&String>)
        ensures
            r@.map_values(|s: &String| s@) == first_names(keys_of(self.rule_levels@)),
            forall|i: int, j: int| 0 <= i < j < r@.len() ==> #[trigger] r@[i]@ != #[trigger] r@[j]@,
            forall|k: Seq<char>| r@.map_values(|s: &String| s@).contains(k) <==> self.levels().contains_key(k),
    {
        entry_names(&self.rule_levels)
    }
}

impl Default for WorkflowRules {
    fn default() -> (r: Self)
        ensures
            r.rule_levels@.len() == 0,
    {
        WorkflowRules { rule_levels: Vec::new() }
    }
}

/// Rule levels per workflow: workflow name to its rules.
pub struct RuleConfig {
    pub workflows: Vec<(String, WorkflowRules)>,
}

impl Default for RuleConfig {
    fn default() -> (r: Self)
        ensures
            r.workflows@.len() == 0,
    {
        RuleConfig { workflows: Vec::new() }
    }
}

/// A value a step flag may hold: the JSON value it was given, as far as
/// steps read it.
pub enum FlagValue {
    Null,
    Bool(bool),
    /// An integer that fits in `i64`.
    Int(i64),
    /// An integer above `i64::MAX`.
    UInt(u64),
    /// A number with a fractional part or an exponent.
    Float,
    Str(String),
    Array(Vec<FlagValue>),
    Object,
}

/// Flag overrides for one step: flag name to value.
pub struct StepFlags {
    pub flags: Vec<(String, FlagValue)>,
}

/// The strings of an array whose items are all strings.
pub open spec fn all_strings(items: Seq<FlagValue>) -> bool {
    forall|i: int| 0 <= i < items.len() ==> items[i] is Str
}

impl StepFlags {
    pub open spec fn flag_map(&self) -> Map<Seq<char>, FlagValue> {
        table_map(self.flags@)
    }

    /// The flag as a boolean: `Some` when it is set to a boolean.
    pub fn get_flag_bool(&self, flag_name: &str) -> (r: Option<bool>)
        ensures
            r matches Some(b) ==> self.flag_map().contains_key(flag_name@) && self.flag_map()[flag_name@] == FlagValue::Bool(b),
            r is None ==> !(self.flag_map().contains_key(flag_name@) && self.flag_map()[flag_name@] is Bool),
    {
        match find_key(&self.flags, flag_name) {
            Some(i) => match &self.flags[i].1 {
                FlagValue::Bool(b) => Some(*b),
                _ => None,
            },
            None => None,
        }
    }

    /// The flag as an integer: `Some` when it is set to an integer within `i64`.
    pub fn get_flag_i64(&self, flag_name: &str) -> (r: Option<i64>)
        ensures
            r matches Some(n) ==> self.flag_map().contains_key(flag_name@) && self.flag_map()[flag_name@] == FlagValue::Int(n),
            r is None ==> !(self.flag_map().contains_key(flag_name@) && self.flag_map()[flag_name@] is Int),
    {
        match find_key(&self.flags, flag_name) {
            Some(i) => match &self.flags[i].1 {
                FlagValue::Int(n) => Some(*n),
                _ => None,
            },
            None => None,
        }
    }

    /// The flag as a string: `Some` when it is set to a string.
    pub fn get_flag_string(&self, flag_name: &str) -> (r: Option<String>)
        ensures
            r matches Some(s) ==> self.flag_map().contains_key(flag_name@) && self.flag_map()[flag_name@] is Str
                && self.flag_map()[flag_name@]->Str_0@ == s@,
            r is None ==> !(self.flag_map().contains_key(flag_name@) && self.flag_map()[flag_name@] is Str),
    {
        match find_key(&self.flags, flag_name) {
            Some(i) => match &self.flags[i].1 {
                FlagValue::Str(s) => Some(s.clone()),
                _ => None,
            },
            None => None,
        }
    }

    /// The flag as a list of strings: `Some` when it is set to an array
    /// whose items are all strings.
    pub fn get_flag_strings(&self, flag_name: &str) -> (r: Option<Vec<String>>)
        ensures
            r matches Some(v) ==> self.flag_map().contains_key(flag_name@)
                && self.flag_map()[flag_name@] is Array
                && all_strings(self.flag_map()[flag_name@]->Array_0@)
                && v@.len() == self.flag_map()[flag_name@]->Array_0@.len()
                && forall|i: int| 0 <= i < v@.len() ==> self.flag_map()[flag_name@]->Array_0@[i]->Str_0@ == v@[i]@,
            r is None ==> !(self.flag_map().contains_key(flag_name@)
                && self.flag_map()[flag_name@] is Array && all_strings(self.flag_map()[flag_name@]->Array_0@)),
    {
        match find_key(&self.flags, flag_name) {
            Some(i) => match &self.flags[i].1 {
                FlagValue::Array(items) => {
                    let mut out: Vec<String> = Vec::new();
                    let mut j: usize = 0;
                    while j < items.len()
                        invariant
                            j <= items@.len(),
                            out@.len() == j,
                            i < self.flags@.len(),
                            key_index(self.flags@, flag_name@) == Some(i as int),
                            self.flags@[i as int].1 == FlagValue::Array(*items),
                            forall|k: int| 0 <= k < j ==> items@[k] is Str && items@[k]->Str_0@ == out@[k]@,
                        decreases items.len() - j,
                    {
                        match &items[j] {
                            FlagValue::Str(s) => {
                                out.push(s.clone());
                            },
                            _ => {
                                proof {
                                    assert(self.flag_map().contains_key(flag_name@));
                                    assert(self.flag_map()[flag_name@] == self.flags@[i as int].1);
                                    assert(!(items@[j as int] is Str));
                                    assert(!all_strings(items@));
                                }
                                return None;
                            },
                        }
                        j = j + 1;
                    }
                    Some(out)
                },
                _ => None,
            },
            None => None,
        }
    }

    /// The flag as a boolean, or `default` when it is not set to a boolean.
    pub fn get_flag_or_default_bool(&self, flag_name: &str, default: bool) -> (r: bool)
        ensures
            r == (if self.flag_map().contains_key(flag_name@) && self.flag_map()[flag_name@] is Bool {
                self.flag_map()[flag_name@]->Bool_0
            } else {
                default
            }),
    {
        match self.get_flag_bool(flag_name) {
            Some(b) => b,
            None => default,
        }
    }

    /// Check if a flag exists
    pub fn has_flag(&self, flag_name: &str) -> (r: bool)
        ensures
            r == self.flag_map().contains_key(flag_name@),
    {
        find_key(&self.flags, flag_name).is_some()
    }

    /// Get all flag names: each set flag once, in the order it first
    /// comes.
    pub fn get_flag_names(&self) -> (r: Vec<&String>)
        ensures
            r@.map_values(|s: &String| s@) == first_names(keys_of(self.flags@)),
            forall|i: int, j: int| 0 <= i < j < r@.len() ==> #[trigger] r@[i]@ != #[trigger] r@[j]@,
            forall|k: Seq<char>| r@.map_values(|s: &String| s@).contains(k) <==> self.flag_map().contains_key(k),
    {
        entry_names(&self.flags)
    }
}

impl Default for StepFlags {
    fn default() -> (r: Self)
        ensures
            r.flags@.len() == 0,
    {
        StepFlags { flags: Vec::new() }
    }
}

/// Step configurations for one workflow: step name to its flags.
pub struct WorkflowSteps {
    pub steps: Vec<(String, StepFlags)>,
}

impl WorkflowSteps {
    pub open spec fn step_map(&self) -> Map<Seq<char>, StepFlags> {
        table_map(self.steps@)
    }

    /// Get step flags for a specific step
    pub fn get_step_flags(&self, step_name: &str) -> (r: Option<&StepFlags>)
        ensures
            r matches Some(f) ==> self.step_map().contains_key(step_name@) && *f == self.step_map()[step_name@],
            r is None ==> !self.step_map().contains_key(step_name@),
    {
        match find_key(&self.steps, step_name) {
            Some(i) => Some(&self.steps[i].1),
            None => None,
        }
    }

    /// Check if a step is configured
    pub fn has_step(&self, step_name: &str) -> (r: bool)
        ensures
            r == self.step_map().contains_key(step_name@),
    {
        find_key(&self.steps, step_name).is_some()
    }
}

impl Default for WorkflowSteps {
    fn default() -> (r: Self)
        ensures
            r.steps@.len() == 0,
    {
        WorkflowSteps { steps: Vec::new() }
    }
}

/// Workflow configurations: workflow name to its steps.
pub struct WorkflowConfig {
    pub workflows: Vec<(String, WorkflowSteps)>,
}

impl Default for WorkflowConfig {
    fn default() -> (r: Self)
        ensures
            r.workflows@.len() == 0,
    {
        WorkflowConfig { workflows: Vec::new() }
    }
}

/// The repository configuration.
pub struct BGitConfig {
    pub rules: RuleConfig,
    pub workflow: WorkflowConfig,
}

impl BGitConfig {
    pub open spec fn rules_map(&self) -> Map<Seq<char>, WorkflowRules> {
        table_map(self.rules.workflows@)
    }

    pub open spec fn steps_map(&self) -> Map<Seq<char>, WorkflowSteps> {
        table_map(self.workflow.workflows@)
    }

    /// Get workflow rules for a specific workflow
    pub fn get_workflow_rules(&self, workflow_name: &str) -> (r: Option<&WorkflowRules>)
        ensures
            r matches Some(w) ==> self.rules_map().contains_key(workflow_name@) && *w == self.rules_map()[workflow_name@],
            r is None ==> !self.rules_map().contains_key(workflow_name@),
    {
        match find_key(&self.rules.workflows, workflow_name) {
            Some(i) => Some(&self.rules.workflows[i].1),
            None => None,
        }
    }

    /// Get workflow rules with a fallback to the `default` workflow
    pub fn get_workflow_rules_or_default(&self, workflow_name: &str) -> (r: Option<&WorkflowRules>)
        ensures
            self.rules_map().contains_key(workflow_name@) ==> r is Some && *r->0 == self.rules_map()[workflow_name@],
            !self.rules_map().contains_key(workflow_name@) ==> (
                r matches Some(w) ==> self.rules_map().contains_key("default"@) && *w == self.rules_map()["default"@]),
            !self.rules_map().contains_key(workflow_name@) ==> (
                r is None ==> !self.rules_map().contains_key("default"@)),
    {
        match self.get_workflow_rules(workflow_name) {
            Some(w) => Some(w),
            None => self.get_workflow_rules("default"),
        }
    }

    /// Get workflow steps for a specific workflow
    pub fn get_workflow_steps(&self, workflow_name: &str) -> (r: Option<&WorkflowSteps>)
        ensures
            r matches Some(w) ==> self.steps_map().contains_key(workflow_name@) && *w == self.steps_map()[workflow_name@],
            r is None ==> !self.steps_map().contains_key(workflow_name@),
    {
        match find_key(&self.workflow.workflows, workflow_name) {
            Some(i) => Some(&self.workflow.workflows[i].1),
            None => None,
        }
    }

    /// Get workflow steps with a fallback to the `default` workflow
    pub fn get_workflow_steps_or_default(&self, workflow_name: &str) -> (r: Option<&WorkflowSteps>)
        ensures
            self.steps_map().contains_key(workflow_name@) ==> r is Some && *r->0 == self.steps_map()[workflow_name@],
            !self.steps_map().contains_key(workflow_name@) ==> (
                r matches Some(w) ==> self.steps_map().contains_key("default"@) && *w == self.steps_map()["default"@]),
            !self.steps_map().contains_key(workflow_name@) ==> (
                r is None ==> !self.steps_map().contains_key("default"@)),
    {
        match self.get_workflow_steps(workflow_name) {
            Some(w) => Some(w),
            None => self.get_workflow_steps("default"),
        }
    }
}

impl Default for BGitConfig {
    fn default() -> (r: Self)
        ensures
            r.rules.workflows@.len() == 0,
            r.workflow.workflows@.len() == 0,
    {
        BGitConfig { rules: RuleConfig::default(), workflow: WorkflowConfig::default() }
    }
}

} // verus!
