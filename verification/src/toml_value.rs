//! The configuration data model: TOML values and tables whose keys are kept in order.

use vstd::prelude::*;

use crate::text::{int_text, spec_join, seq_lt, str_less, str_equal, lemma_seq_lt_irreflexive, lemma_seq_lt_transitive,
    lemma_seq_lt_total};

verus! {

/// A configuration value. Floats and datetimes are held as the text they render to.
#[derive(Debug, PartialEq)]
pub enum TomlValue {
    String(String),
    Integer(i64),
    Float(String),
    Boolean(bool),
    Datetime(String),
    Array(Vec<TomlValue>),
    Table(TomlTable),
}

/// One key of a table with its value.
pub type Entry = (String, TomlValue);

/// A table: keys with values, each key at most once, in the order of the keys.
#[derive(Debug, PartialEq)]
pub struct TomlTable {
    pub(crate) entries: Vec<Entry>,
}

/// The keys strictly increase.
pub open spec fn sorted_keys(es: Seq<Entry>) -> bool {
    forall|i: int, j: int| 0 <= i < j < es.len() ==> seq_lt(#[trigger] es[i].0@, #[trigger] es[j].0@)
}

/// The position of `k` among the entries, if it occurs.
pub open spec fn index_of(es: Seq<Entry>, k: Seq<char>) -> Option<int> {
    if exists|i: int| 0 <= i < es.len() && #[trigger] es[i].0@ == k {
        Some(choose|i: int| 0 <= i < es.len() && #[trigger] es[i].0@ == k)
    } else {
        None
    }
}

/// The value of `k` among the entries, if it occurs.
pub open spec fn lookup(es: Seq<Entry>, k: Seq<char>) -> Option<TomlValue> {
    match index_of(es, k) {
        Some(i) => Some(es[i].1),
        None => None,
    }
}

/// In sorted entries a key occurs at one position only.
pub proof fn lemma_sorted_unique(es: Seq<Entry>, i: int, j: int)
    requires
        sorted_keys(es),
        0 <= i < es.len(),
        0 <= j < es.len(),
        es[i].0@ == es[j].0@,
    ensures
        i == j,
{
    if i < j {
        lemma_seq_lt_irreflexive(es[i].0@);
    } else if j < i {
        lemma_seq_lt_irreflexive(es[i].0@);
    }
}

/// In sorted entries, the key at position `i` is found at `i`.
pub proof fn lemma_lookup_at(es: Seq<Entry>, i: int)
    requires
        sorted_keys(es),
        0 <= i < es.len(),
    ensures
        index_of(es, es[i].0@) == Some(i),
        lookup(es, es[i].0@) == Some(es[i].1),
{
    let k = es[i].0@;
    assert(0 <= i < es.len() && es[i].0@ == k);
    assert(exists|j: int| 0 <= j < es.len() && #[trigger] es[j].0@ == k);
    assert(index_of(es, k) is Some);
    let j2 = index_of(es, k)->0;
    assert(0 <= j2 < es.len() && es[j2].0@ == k);
    lemma_sorted_unique(es, i, j2);
}

/// The text of a value: booleans as `true_text` / `false_text`, array items joined by `seq_sep`,
/// tables as `'key=value'` words joined by spaces.
pub open spec fn render_value(v: TomlValue, true_text: Seq<char>, false_text: Seq<char>, seq_sep: Seq<char>) -> Seq<char>
    decreases v,
{
    match v {
        TomlValue::String(s) => s@,
        TomlValue::Integer(i) => int_text(i as int),
        TomlValue::Float(f) => f@,
        TomlValue::Boolean(b) => if b { true_text } else { false_text },
        TomlValue::Datetime(d) => d@,
        TomlValue::Array(a) => spec_join(render_items(a@, true_text, false_text, seq_sep), seq_sep),
        TomlValue::Table(t) => spec_join(render_pairs(t@, true_text, false_text, seq_sep), seq![' ']),
    }
}

/// The texts of array items.
pub open spec fn render_items(a: Seq<TomlValue>, true_text: Seq<char>, false_text: Seq<char>, seq_sep: Seq<char>) -> Seq<Seq<char>>
    decreases a,
{
    if a.len() == 0 {
        Seq::empty()
    } else {
        render_items(a.drop_last(), true_text, false_text, seq_sep).push(
            render_value(a.last(), true_text, false_text, seq_sep),
        )
    }
}

/// The `'key=value'` words of table entries.
pub open spec fn render_pairs(es: Seq<Entry>, true_text: Seq<char>, false_text: Seq<char>, seq_sep: Seq<char>) -> Seq<Seq<char>>
    decreases es,
{
    if es.len() == 0 {
        Seq::empty()
    } else {
        render_pairs(es.drop_last(), true_text, false_text, seq_sep).push(
            seq!['\''] + es.last().0@ + seq!['='] + render_value(es.last().1, true_text, false_text, seq_sep)
                + seq!['\''],
        )
    }
}

/// A table value is larger than the values of its entries.
pub proof fn lemma_entry_decreases(v: TomlValue, i: int)
    requires
        v is Table,
        0 <= i < (v->Table_0)@.len(),
    ensures
        decreases_to!(v => (v->Table_0)@[i].1),
{
    let t = v->Table_0;
    assert(decreases_to!(v => v->Table_0));
    assert(decreases_to!(t => t.entries));
    assert(decreases_to!(t.entries => t.entries@));
    assert(decreases_to!(t.entries@ => t.entries@[i]));
    assert(decreases_to!(t.entries@[i] => t.entries@[i].1));
}

/// An array value is larger than its items.
pub proof fn lemma_item_decreases(v: TomlValue, i: int)
    requires
        v is Array,
        0 <= i < (v->Array_0)@.len(),
    ensures
        decreases_to!(v => (v->Array_0)@[i]),
{
    let a = v->Array_0;
    assert(decreases_to!(v => v->Array_0));
    assert(decreases_to!(a => a@));
    assert(decreases_to!(a@ => a@[i]));
}

/// How deeply tables nest inside the entries: 0 without any table value.
pub open spec fn table_depth(es: Seq<Entry>) -> nat
    decreases es,
{
    if es.len() == 0 {
        0
    } else {
        let rest = table_depth(es.drop_last());
        let here: nat = match es.last().1 {
            TomlValue::Table(t) => 1 + table_depth(t@),
            _ => 0,
        };
        if rest >= here { rest } else { here }
    }
}

/// Whether `k` is a key of the entries.
pub open spec fn has_key(es: Seq<Entry>, k: Seq<char>) -> bool {
    exists|i: int| 0 <= i < es.len() && #[trigger] es[i].0@ == k
}

/// `res` is `base` with `inc` merged in, tables nested at most `fuel` deep: each key of `inc`
/// takes its value from `inc`, but where both hold a table under it those tables are merged in
/// turn; every other key keeps its value from `base`.
pub open spec fn is_merge(base: Seq<Entry>, inc: Seq<Entry>, res: Seq<Entry>, fuel: nat) -> bool
    decreases fuel,
{
    &&& forall|k: Seq<char>| !has_key(inc, k) ==> #[trigger] lookup(res, k) == lookup(base, k)
    &&& forall|k: Seq<char>|
        #[trigger] has_key(inc, k) ==> match (lookup(base, k), lookup(inc, k)) {
            (Some(TomlValue::Table(bt)), Some(TomlValue::Table(it))) => fuel > 0 && (lookup(res, k) matches Some(
                TomlValue::Table(rt),
            ) && is_merge(bt@, it@, rt@, (fuel - 1) as nat)),
            (_, iv) => lookup(res, k) == iv,
        }
}

/// A merge within some nesting is a merge within any deeper one.
pub proof fn lemma_merge_fuel(base: Seq<Entry>, inc: Seq<Entry>, res: Seq<Entry>, f: nat, g: nat)
    requires
        is_merge(base, inc, res, f),
        f <= g,
    ensures
        is_merge(base, inc, res, g),
    decreases f,
{
    assert forall|k: Seq<char>| #[trigger] has_key(inc, k) implies match (lookup(base, k), lookup(inc, k)) {
        (Some(TomlValue::Table(bt)), Some(TomlValue::Table(it))) => g > 0 && (lookup(res, k) matches Some(
            TomlValue::Table(rt),
        ) && is_merge(bt@, it@, rt@, (g - 1) as nat)),
        (_, iv) => lookup(res, k) == iv,
    } by {
        match (lookup(base, k), lookup(inc, k)) {
            (Some(TomlValue::Table(bt)), Some(TomlValue::Table(it))) => {
                let rt = lookup(res, k)->0->Table_0;
                lemma_merge_fuel(bt@, it@, rt@, (f - 1) as nat, (g - 1) as nat);
            },
            _ => {},
        }
    }
}

/// A key of some entries is one that can be looked up in them.
pub proof fn lemma_has_key_lookup(es: Seq<Entry>, k: Seq<char>)
    ensures
        has_key(es, k) <==> lookup(es, k) is Some,
{
}

/// A merge keeps every key of the base, adds the keys of the incoming table, and no other.
pub proof fn lemma_merge_keys(base: Seq<Entry>, inc: Seq<Entry>, res: Seq<Entry>, fuel: nat)
    requires
        is_merge(base, inc, res, fuel),
    ensures
        forall|k: Seq<char>| #[trigger] lookup(res, k) is Some <==> lookup(base, k) is Some || has_key(inc, k),
{
    assert forall|k: Seq<char>| #[trigger] lookup(res, k) is Some <==> lookup(base, k) is Some || has_key(inc, k) by {
        lemma_has_key_lookup(inc, k);
        if has_key(inc, k) {
            assert(lookup(res, k) is Some);
        } else {
            assert(lookup(res, k) == lookup(base, k));
        }
    }
}

/// A table under a key is nested less deeply than the entries that hold it.
pub proof fn lemma_depth_of_entry(es: Seq<Entry>, i: int)
    requires
        0 <= i < es.len(),
        es[i].1 is Table,
    ensures
        table_depth((es[i].1->Table_0)@) + 1 <= table_depth(es),
    decreases es.len(),
{
    if i < es.len() - 1 {
        lemma_depth_of_entry(es.drop_last(), i);
    }
}

/// The entries after the `i`th.
pub proof fn lemma_lookup_take(es: Seq<Entry>, i: int, k: Seq<char>)
    requires
        sorted_keys(es),
        0 <= i < es.len(),
    ensures
        has_key(es.take(i + 1), k) <==> has_key(es.take(i), k) || k == es[i].0@,
        k != es[i].0@ ==> lookup(es.take(i + 1), k) == lookup(es.take(i), k),
        lookup(es.take(i + 1), es[i].0@) == Some(es[i].1),
        !has_key(es.take(i), es[i].0@),
{
    let a = es.take(i);
    let b = es.take(i + 1);
    assert(sorted_keys(b)) by {
        assert forall|x: int, y: int| 0 <= x < y < b.len() implies seq_lt(#[trigger] b[x].0@, #[trigger] b[y].0@) by {
            assert(b[x] == es[x] && b[y] == es[y]);
        }
    }
    assert(sorted_keys(a)) by {
        assert forall|x: int, y: int| 0 <= x < y < a.len() implies seq_lt(#[trigger] a[x].0@, #[trigger] a[y].0@) by {
            assert(a[x] == es[x] && a[y] == es[y]);
        }
    }
    lemma_lookup_at(b, i);
    assert(b[i] == es[i]);
    if has_key(a, es[i].0@) {
        let j = choose|j: int| 0 <= j < a.len() && #[trigger] a[j].0@ == es[i].0@;
        assert(a[j] == es[j]);
        lemma_sorted_unique(es, i, j);
    }
    if has_key(b, k) && k != es[i].0@ {
        let j = choose|j: int| 0 <= j < b.len() && #[trigger] b[j].0@ == k;
        assert(j != i);
        assert(a[j] == b[j]);
        lemma_lookup_at(a, j);
        lemma_lookup_at(b, j);
    }
    if has_key(a, k) {
        let j = choose|j: int| 0 <= j < a.len() && #[trigger] a[j].0@ == k;
        assert(b[j] == a[j]);
    }
    if !has_key(b, k) {
        assert forall|j: int| 0 <= j < a.len() implies #[trigger] a[j].0@ != k by {
            assert(b[j] == a[j]);
        }
    }
}

/// Two values are alike: the same kind holding the same text, number or truth value, arrays
/// alike item by item, tables with the same keys in the same order and alike values.
pub open spec fn value_eq(a: TomlValue, b: TomlValue) -> bool
    decreases a,
{
    match (a, b) {
        (TomlValue::String(x), TomlValue::String(y)) => x@ == y@,
        (TomlValue::Integer(x), TomlValue::Integer(y)) => x == y,
        (TomlValue::Float(x), TomlValue::Float(y)) => x@ == y@,
        (TomlValue::Boolean(x), TomlValue::Boolean(y)) => x == y,
        (TomlValue::Datetime(x), TomlValue::Datetime(y)) => x@ == y@,
        (TomlValue::Array(x), TomlValue::Array(y)) => x@.len() == y@.len() && forall|i: int|
            0 <= i < x@.len() ==> value_eq(#[trigger] x@[i], y@[i]),
        (TomlValue::Table(x), TomlValue::Table(y)) => x@.len() == y@.len() && forall|i: int|
            0 <= i < x@.len() ==> (#[trigger] x@[i]).0@ == y@[i].0@ && value_eq(x@[i].1, y@[i].1),
        _ => false,
    }
}

/// Two tables are alike: the same keys in the same order, with alike values.
pub open spec fn table_eq(a: Seq<Entry>, b: Seq<Entry>) -> bool {
    a.len() == b.len() && forall|i: int| 0 <= i < a.len() ==> (#[trigger] a[i]).0@ == b[i].0@ && value_eq(a[i].1, b[i].1)
}

/// Every value is alike to itself.
pub proof fn lemma_value_eq_reflexive(v: TomlValue)
    ensures
        value_eq(v, v),
    decreases v,
{
    match v {
        TomlValue::Array(x) => {
            assert forall|i: int| 0 <= i < x@.len() implies value_eq(#[trigger] x@[i], x@[i]) by {
                lemma_item_decreases(v, i);
                lemma_value_eq_reflexive(x@[i]);
            }
        },
        TomlValue::Table(x) => {
            assert forall|i: int| 0 <= i < x@.len() implies (#[trigger] x@[i]).0@ == x@[i].0@ && value_eq(
                x@[i].1,
                x@[i].1,
            ) by {
                lemma_entry_decreases(v, i);
                lemma_value_eq_reflexive(x@[i].1);
            }
        },
        _ => {},
    }
}

/// Every table is alike to itself.
pub proof fn lemma_table_eq_reflexive(es: Seq<Entry>)
    ensures
        table_eq(es, es),
{
    assert forall|i: int| 0 <= i < es.len() implies (#[trigger] es[i]).0@ == es[i].0@ && value_eq(es[i].1, es[i].1) by {
        lemma_value_eq_reflexive(es[i].1);
    }
}

impl View for TomlTable {
    type V = Seq<Entry>;

    closed spec fn view(&self) -> Seq<Entry> {
        self.entries@
    }
}

impl TomlTable {
    #[verifier::type_invariant]
    closed spec fn keys_in_order(self) -> bool {
        sorted_keys(self.entries@)
    }

    /// An empty table.
    pub fn new() -> (t: Self)
        ensures
            t@.len() == 0,
    {
        TomlTable { entries: Vec::new() }
    }

    /// The number of keys.
    pub fn len(&self) -> (n: usize)
        ensures
            n == self@.len(),
    {
        self.entries.len()
    }

    /// Whether the table has no key.
    pub fn is_empty(&self) -> (b: bool)
        ensures
            b == (self@.len() == 0),
    {
        self.entries.len() == 0
    }

    /// The entries, in key order.
    pub fn entries(&self) -> (es: &Vec<Entry>)
        ensures
            es@ == self@,
            sorted_keys(es@),
    {
        proof {
            use_type_invariant(self);
        }
        &self.entries
    }

    /// The entries, handed over.
    pub fn into_entries(self) -> (es: Vec<Entry>)
        ensures
            es@ == self@,
            sorted_keys(es@),
    {
        proof {
            use_type_invariant(&self);
        }
        self.entries
    }

    /// Where `key` stands, or where it would be inserted.
    fn position(&self, key: &str) -> (r: (usize, bool))
        ensures
            r.0 <= self@.len(),
            r.1 ==> r.0 < self@.len() && self@[r.0 as int].0@ == key@,
            !r.1 ==> (forall|i: int| 0 <= i < r.0 ==> seq_lt(#[trigger] self@[i].0@, key@)),
            !r.1 ==> (forall|i: int| r.0 <= i < self@.len() ==> seq_lt(key@, #[trigger] self@[i].0@)),
    {
        proof {
            use_type_invariant(self);
        }
        let mut i: usize = 0;
        while i < self.entries.len()
            invariant
                i <= self.entries@.len(),
                sorted_keys(self.entries@),
                forall|j: int| 0 <= j < i ==> seq_lt(#[trigger] self.entries@[j].0@, key@),
            decreases self.entries.len() - i,
        {
            if !str_less(self.entries[i].0.as_str(), key) {
                if str_equal(self.entries[i].0.as_str(), key) {
                    return (i, true);
                }
                proof {
                    lemma_seq_lt_total(self.entries@[i as int].0@, key@);
                    assert forall|j: int| i <= j < self.entries@.len() implies seq_lt(
                        key@,
                        #[trigger] self.entries@[j].0@,
                    ) by {
                        if j > i {
                            lemma_seq_lt_transitive(key@, self.entries@[i as int].0@, self.entries@[j].0@);
                        }
                    }
                }
                return (i, false);
            }
            i = i + 1;
        }
        (i, false)
    }

    /// The value of `key`, if present.
    pub fn get(&self, key: &str) -> (r: Option<&TomlValue>)
        ensures
            r matches Some(v) ==> lookup(self@, key@) == Some(*v),
            r is None ==> lookup(self@, key@) is None,
    {
        proof {
            use_type_invariant(self);
        }
        let (i, found) = self.position(key);
        if found {
            proof {
                lemma_lookup_at(self@, i as int);
            }
            Some(&self.entries[i].1)
        } else {
            proof {
                assert forall|j: int| 0 <= j < self@.len() implies #[trigger] self@[j].0@ != key@ by {
                    if j < i {
                        lemma_seq_lt_irreflexive(key@);
                    } else {
                        lemma_seq_lt_irreflexive(key@);
                    }
                }
            }
            None
        }
    }

    /// Sets `key` to `value`, keeping the keys in order; hands back the value it replaces.
    pub fn insert(&mut self, key: String, value: TomlValue) -> (old_value: Option<TomlValue>)
        ensures
            old_value == lookup(old(self)@, key@),
            lookup(final(self)@, key@) == Some(value),
            forall|k: Seq<char>| k != key@ ==> #[trigger] lookup(final(self)@, k) == lookup(old(self)@, k),
            final(self)@.len() == old(self)@.len() + if old_value is Some { 0int } else { 1int },
    {
        proof {
            use_type_invariant(&*self);
        }
        let (i, found) = self.position(key.as_str());
        let ghost before = self.entries@;
        let mut es: Vec<Entry> = Vec::new();
        std::mem::swap(&mut es, &mut self.entries);
        if found {
            proof {
                lemma_lookup_at(before, i as int);
            }
            let ghost k = key@;
            let old_entry = es.remove(i);
            es.insert(i, (key, value));
            proof {
                let after = es@;
                assert(after =~= before.update(i as int, (after[i as int].0, value)));
                assert(sorted_keys(after)) by {
                    assert forall|a: int, b: int| 0 <= a < b < after.len() implies seq_lt(
                        #[trigger] after[a].0@,
                        #[trigger] after[b].0@,
                    ) by {
                        assert(before[a].0@ == after[a].0@ || a == i);
                        assert(before[b].0@ == after[b].0@ || b == i);
                    }
                }
                lemma_lookup_at(after, i as int);
                assert forall|k2: Seq<char>| k2 != k implies #[trigger] lookup(after, k2) == lookup(before, k2) by {
                    if exists|j: int| 0 <= j < before.len() && #[trigger] before[j].0@ == k2 {
                        let j = choose|j: int| 0 <= j < before.len() && #[trigger] before[j].0@ == k2;
                        assert(j != i);
                        assert(after[j].0@ == k2);
                        lemma_lookup_at(before, j);
                        lemma_lookup_at(after, j);
                    } else {
                        assert forall|j: int| 0 <= j < after.len() implies #[trigger] after[j].0@ != k2 by {
                            if j != i {
                                assert(after[j] == before[j]);
                            }
                        }
                    }
                }
            }
            self.entries = es;
            Some(old_entry.1)
        } else {
            let ghost k = key@;
            es.insert(i, (key, value));
            proof {
                let after = es@;
                assert(after =~= before.insert(i as int, (after[i as int].0, value)));
                assert(sorted_keys(after)) by {
                    assert forall|a: int, b: int| 0 <= a < b < after.len() implies seq_lt(
                        #[trigger] after[a].0@,
                        #[trigger] after[b].0@,
                    ) by {
                        if a < i && b < i {
                            assert(after[a] == before[a] && after[b] == before[b]);
                        } else if a < i && b == i {
                            assert(after[a] == before[a]);
                        } else if a < i && b > i {
                            assert(after[a] == before[a] && after[b] == before[b - 1]);
                        } else if a == i {
                            assert(after[b] == before[b - 1]);
                        } else {
                            assert(after[a] == before[a - 1] && after[b] == before[b - 1]);
                        }
                    }
                }
                lemma_lookup_at(after, i as int);
                assert forall|j: int| 0 <= j < before.len() implies #[trigger] before[j].0@ != k by {
                    lemma_seq_lt_irreflexive(k);
                }
                assert forall|k2: Seq<char>| k2 != k implies #[trigger] lookup(after, k2) == lookup(before, k2) by {
                    if exists|j: int| 0 <= j < before.len() && #[trigger] before[j].0@ == k2 {
                        let j = choose|j: int| 0 <= j < before.len() && #[trigger] before[j].0@ == k2;
                        let j2 = if j < i { j } else { j + 1 };
                        assert(after[j2] == before[j]);
                        lemma_lookup_at(before, j);
                        lemma_lookup_at(after, j2);
                    } else {
                        assert forall|j: int| 0 <= j < after.len() implies #[trigger] after[j].0@ != k2 by {
                            if j < i {
                                assert(after[j] == before[j]);
                            } else if j > i {
                                assert(after[j] == before[j - 1]);
                            }
                        }
                    }
                }
            }
            self.entries = es;
            None
        }
    }
}

/// Merges `incoming` into `base`: each key of `incoming` takes its value from it, except that
/// where both hold a table under the key, those tables are merged in turn.
pub fn merge_tables(base: &mut TomlTable, incoming: TomlTable)
    ensures
        is_merge(old(base)@, incoming@, final(base)@, table_depth(incoming@)),
    decreases table_depth(incoming@),
{
    let ghost inc = incoming@;
    let ghost fuel = table_depth(inc);
    let mut es = incoming.into_entries();
    let ghost all = es@;
    let n: usize = es.len();
    assert(all.len() == n);
    let mut i: usize = 0;
    assert(all.take(0) =~= Seq::<Entry>::empty());
    while es.len() > 0
        invariant
            all == inc,
            inc == incoming@,
            all.len() <= usize::MAX,
            sorted_keys(all),
            fuel == table_depth(inc),
            i + es@.len() == all.len(),
            es@ == all.subrange(i as int, all.len() as int),
            is_merge(old(base)@, all.take(i as int), base@, fuel),
        decreases es.len(),
    {
        let (key, value) = es.remove(0);
        let ghost k = key@;
        let ghost before = base@;
        assert(all[i as int] == (key, value));
        proof {
            assert forall|kk: Seq<char>| true implies (has_key(all.take(i + 1), kk) <==> has_key(all.take(i as int), kk)
                || kk == k) by {
                lemma_lookup_take(all, i as int, kk);
            }
            lemma_lookup_take(all, i as int, k);
        }
        let ghost was = lookup(before, k);
        let ghost orig = lookup(old(base)@, k);
        assert(was == orig);
        match value {
            TomlValue::Table(it) => {
                let ghost itv = it@;
                let placeholder = base.insert(key.clone(), TomlValue::Table(TomlTable::new()));
                match placeholder {
                    Some(TomlValue::Table(mut bt)) => {
                        proof {
                            lemma_depth_of_entry(all, i as int);
                            assert(all[i as int].1->Table_0 == it);
                            assert(table_depth(itv) < table_depth(inc));
                        }
                        merge_tables(&mut bt, it);
                        base.insert(key, TomlValue::Table(bt));
                        proof {
                            lemma_merge_fuel(orig->0->Table_0@, itv, lookup(base@, k)->0->Table_0@, table_depth(itv), (fuel - 1) as nat);
                        }
                    },
                    _ => {
                        base.insert(key, TomlValue::Table(it));
                    },
                }
            },
            other => {
                base.insert(key, other);
            },
        }
        proof {
            let a = all.take(i as int);
            let b = all.take(i + 1);
            assert forall|kk: Seq<char>| !has_key(b, kk) implies #[trigger] lookup(base@, kk) == lookup(old(base)@, kk) by {
                lemma_lookup_take(all, i as int, kk);
            }
            assert forall|kk: Seq<char>| #[trigger] has_key(b, kk) implies match (lookup(old(base)@, kk), lookup(b, kk)) {
                (Some(TomlValue::Table(bt)), Some(TomlValue::Table(it))) => fuel > 0 && (lookup(base@, kk) matches Some(
                    TomlValue::Table(rt),
                ) && is_merge(bt@, it@, rt@, (fuel - 1) as nat)),
                (_, iv) => lookup(base@, kk) == iv,
            } by {
                lemma_lookup_take(all, i as int, kk);
                if kk != k {
                    assert(has_key(a, kk));
                }
            }
        }
        i = i + 1;
        assert(es@ =~= all.subrange(i as int, all.len() as int));
    }
    assert(all.take(i as int) =~= all);
}

/// Whether two values are alike.
pub fn values_equal(a: &TomlValue, b: &TomlValue) -> (r: bool)
    ensures
        r == value_eq(*a, *b),
    decreases *a,
{
    match (a, b) {
        (TomlValue::String(x), TomlValue::String(y)) => str_equal(x.as_str(), y.as_str()),
        (TomlValue::Integer(x), TomlValue::Integer(y)) => *x == *y,
        (TomlValue::Float(x), TomlValue::Float(y)) => str_equal(x.as_str(), y.as_str()),
        (TomlValue::Boolean(x), TomlValue::Boolean(y)) => *x == *y,
        (TomlValue::Datetime(x), TomlValue::Datetime(y)) => str_equal(x.as_str(), y.as_str()),
        (TomlValue::Array(x), TomlValue::Array(y)) => {
            if x.len() != y.len() {
                return false;
            }
            let mut i: usize = 0;
            while i < x.len()
                invariant
                    *a == TomlValue::Array(*x),
                    *b == TomlValue::Array(*y),
                    i <= x@.len(),
                    x@.len() == y@.len(),
                    forall|j: int| 0 <= j < i ==> value_eq(#[trigger] x@[j], y@[j]),
                decreases x.len() - i,
            {
                proof {
                    lemma_item_decreases(*a, i as int);
                }
                if !values_equal(&x[i], &y[i]) {
                    return false;
                }
                i = i + 1;
            }
            true
        },
        (TomlValue::Table(x), TomlValue::Table(y)) => {
            if x.entries.len() != y.entries.len() {
                return false;
            }
            let mut i: usize = 0;
            while i < x.entries.len()
                invariant
                    *a == TomlValue::Table(*x),
                    *b == TomlValue::Table(*y),
                    i <= x@.len(),
                    x@.len() == y@.len(),
                    forall|j: int| 0 <= j < i ==> (#[trigger] x@[j]).0@ == y@[j].0@ && value_eq(x@[j].1, y@[j].1),
                decreases x@.len() - i,
            {
                proof {
                    lemma_entry_decreases(*a, i as int);
                }
                if !str_equal(x.entries[i].0.as_str(), y.entries[i].0.as_str()) {
                    return false;
                }
                if !values_equal(&x.entries[i].1, &y.entries[i].1) {
                    return false;
                }
                i = i + 1;
            }
            true
        },
        _ => false,
    }
}

/// Whether two tables are alike.
pub fn tables_equal(a: &TomlTable, b: &TomlTable) -> (r: bool)
    ensures
        r == table_eq(a@, b@),
{
    if a.entries.len() != b.entries.len() {
        return false;
    }
    let mut i: usize = 0;
    while i < a.entries.len()
        invariant
            i <= a@.len(),
            a@.len() == b@.len(),
            forall|j: int| 0 <= j < i ==> (#[trigger] a@[j]).0@ == b@[j].0@ && value_eq(a@[j].1, b@[j].1),
        decreases a@.len() - i,
    {
        if !str_equal(a.entries[i].0.as_str(), b.entries[i].0.as_str()) {
            return false;
        }
        if !values_equal(&a.entries[i].1, &b.entries[i].1) {
            return false;
        }
        i = i + 1;
    }
    true
}

/// The value of `k` among entries: that of the last entry with that key.
pub open spec fn last_value(es: Seq<Entry>, k: Seq<char>) -> Option<TomlValue>
    decreases es.len(),
{
    if es.len() == 0 {
        None
    } else if es.last().0@ == k {
        Some(es.last().1)
    } else {
        last_value(es.drop_last(), k)
    }
}

/// The table of the given entries, in key order; of entries with the same key the last counts.
pub fn table_of_entries(entries: Vec<Entry>) -> (r: TomlTable)
    ensures
        forall|k: Seq<char>| #[trigger] lookup(r@, k) == last_value(entries@, k),
{
    let ghost all = entries@;
    let mut rest = entries;
    let n: usize = rest.len();
    let mut t = TomlTable::new();
    let mut i: usize = 0;
    assert(all.take(0) =~= Seq::<Entry>::empty());
    while rest.len() > 0
        invariant
            all.len() == n,
            i + rest@.len() == n,
            rest@ == all.subrange(i as int, n as int),
            forall|k: Seq<char>| #[trigger] lookup(t@, k) == last_value(all.take(i as int), k),
        decreases rest.len(),
    {
        let (key, value) = rest.remove(0);
        assert(all[i as int] == (key, value));
        let ghost before = t@;
        t.insert(key, value);
        proof {
            let pre = all.take(i + 1);
            assert(pre.drop_last() =~= all.take(i as int));
            assert(pre.last() == all[i as int]);
            assert forall|k: Seq<char>| #[trigger] lookup(t@, k) == last_value(pre, k) by {
                assert(lookup(before, k) == last_value(all.take(i as int), k));
            }
        }
        i = i + 1;
        assert(rest@ =~= all.subrange(i as int, n as int));
    }
    assert(all.take(i as int) =~= all);
    t
}

/// A value of the `toml` crate.
#[verifier::external_type_specification]
#[verifier::external_body]
pub struct ExTomlValue(toml::Value);

/// The table that `toml::from_str` reads from a document, as entries, or `None` where it
/// refuses the text.
pub uninterp spec fn toml_table_of(text: Seq<char>) -> Option<Seq<Entry>>;

/// Turns a value of the `toml` crate into a configuration value, variant for variant: floats
/// and datetimes as the text they print as, tables through `table_of_entries`.
#[verifier::external_body]
fn value_of_toml(v: toml::Value) -> (r: TomlValue) {
    match v {
        toml::Value::String(s) => TomlValue::String(s),
        toml::Value::Integer(i) => TomlValue::Integer(i),
        toml::Value::Float(f) => TomlValue::Float(f.to_string()),
        toml::Value::Boolean(b) => TomlValue::Boolean(b),
        toml::Value::Datetime(d) => TomlValue::Datetime(d.to_string()),
        toml::Value::Array(a) => TomlValue::Array(a.into_iter().map(value_of_toml).collect()),
        toml::Value::Table(t) => TomlValue::Table(
            table_of_entries(t.into_iter().map(|(k, x)| (k, value_of_toml(x))).collect()),
        ),
    }
}

/// Calls `toml::from_str` to read a TOML document as a table. What it reads, or that it refuses
/// the text, is named by `toml_table_of` and depends on the text alone.
#[verifier::external_body]
pub(crate) fn parse_toml(text: &str) -> (r: Option<TomlTable>)
    ensures
        r is Some <==> toml_table_of(text@) is Some,
        r matches Some(t) ==> toml_table_of(text@) == Some(t@),
{
    match toml::from_str::<toml::Table>(text) {
        Ok(t) => Some(table_of_entries(t.into_iter().map(|(k, x)| (k, value_of_toml(x))).collect())),
        Err(_) => None,
    }
}

} // verus!
