//! TOML values and the merging of two of them.

use vstd::prelude::*;

verus! {

/// A key of a table with its value.
#[derive(Debug)]
pub struct TomlEntry {
    pub key: String,
    pub value: TomlValue,
}

/// A table: values under keys, no key twice.
#[derive(Debug)]
pub struct TomlTable {
    entries: Vec<TomlEntry>,
}

/// A TOML value. A float is held as the bits of its binary form, a date and
/// time as its text.
#[derive(Debug)]
pub enum TomlValue {
    String(String),
    Integer(i64),
    Float(u64),
    Boolean(bool),
    Datetime(String),
    Array(Vec<TomlValue>),
    Table(TomlTable),
}

/// What a `TomlValue` stands for.
pub enum TomlValueView {
    String(Seq<char>),
    Integer(i64),
    Float(u64),
    Boolean(bool),
    Datetime(Seq<char>),
    Array(Seq<TomlValueView>),
    Table(Map<Seq<char>, TomlValueView>),
}

/// The view of a value.
pub open spec fn value_view(v: TomlValue) -> TomlValueView
    decreases v, 0nat,
{
    match v {
        TomlValue::String(s) => TomlValueView::String(s@),
        TomlValue::Integer(i) => TomlValueView::Integer(i),
        TomlValue::Float(f) => TomlValueView::Float(f),
        TomlValue::Boolean(b) => TomlValueView::Boolean(b),
        TomlValue::Datetime(d) => TomlValueView::Datetime(d@),
        TomlValue::Array(a) => TomlValueView::Array(values_view(a@)),
        TomlValue::Table(t) => TomlValueView::Table(table_view(t)),
    }
}

/// The views of a sequence of values, in order.
pub open spec fn values_view(s: Seq<TomlValue>) -> Seq<TomlValueView>
    decreases s, s.len(),
{
    if s.len() == 0 {
        Seq::empty()
    } else {
        values_view(s.drop_last()).push(value_view(s.last()))
    }
}

/// The map that a table stands for.
pub closed spec fn table_view(t: TomlTable) -> Map<Seq<char>, TomlValueView>
    decreases t, 0nat,
{
    entries_map(t.entries@)
}

/// The map that a list of entries stands for; where a key stands twice,
/// the later entry counts.
pub open spec fn entries_map(s: Seq<TomlEntry>) -> Map<Seq<char>, TomlValueView>
    decreases s, s.len(),
{
    if s.len() == 0 {
        Map::empty()
    } else {
        entries_map(s.drop_last()).insert(s.last().key@, value_view(s.last().value))
    }
}

/// Whether no key stands twice in the list.
pub open spec fn has_unique_keys(s: Seq<TomlEntry>) -> bool {
    forall|i: int, j: int|
        0 <= i < s.len() && 0 <= j < s.len() && i != j ==> (#[trigger] s[i]).key@ != (
        #[trigger] s[j]).key@
}

impl View for TomlValue {
    type V = TomlValueView;

    open spec fn view(&self) -> TomlValueView {
        value_view(*self)
    }
}

impl View for TomlTable {
    type V = Map<Seq<char>, TomlValueView>;

    open spec fn view(&self) -> Map<Seq<char>, TomlValueView> {
        table_view(*self)
    }
}

/// Whether two values are of the same kind.
pub open spec fn same_type(a: TomlValueView, b: TomlValueView) -> bool {
    match (a, b) {
        (TomlValueView::String(_), TomlValueView::String(_)) => true,
        (TomlValueView::Integer(_), TomlValueView::Integer(_)) => true,
        (TomlValueView::Float(_), TomlValueView::Float(_)) => true,
        (TomlValueView::Boolean(_), TomlValueView::Boolean(_)) => true,
        (TomlValueView::Datetime(_), TomlValueView::Datetime(_)) => true,
        (TomlValueView::Array(_), TomlValueView::Array(_)) => true,
        (TomlValueView::Table(_), TomlValueView::Table(_)) => true,
        _ => false,
    }
}

/// The two values merged, `b` taking precedence: two arrays give the
/// array of the elements of `a` followed by those of `b`; two tables give
/// the table that holds every key of either, with the two values merged
/// under a key of both and the value that it has under any other; and any
/// other two values give `b`.
pub open spec fn merged(a: TomlValueView, b: TomlValueView) -> TomlValueView
    decreases b,
{
    match (a, b) {
        (TomlValueView::Array(x), TomlValueView::Array(y)) => TomlValueView::Array(x + y),
        (TomlValueView::Table(x), TomlValueView::Table(y)) => TomlValueView::Table(
            Map::new(
                |k: Seq<char>| x.dom().contains(k) || y.dom().contains(k),
                |k: Seq<char>|
                    if y.dom().contains(k) {
                        if x.dom().contains(k) {
                            merged(x[k], y[k])
                        } else {
                            y[k]
                        }
                    } else {
                        x[k]
                    },
            ),
        ),
        _ => b,
    }
}

/// The merged table of two tables.
pub open spec fn merged_tables(
    x: Map<Seq<char>, TomlValueView>,
    y: Map<Seq<char>, TomlValueView>,
) -> Map<Seq<char>, TomlValueView> {
    merged(TomlValueView::Table(x), TomlValueView::Table(y))->Table_0
}

/// The view of a concatenation is the concatenation of the views.
pub proof fn lemma_values_view_concat(a: Seq<TomlValue>, b: Seq<TomlValue>)
    ensures
        values_view(a + b) == values_view(a) + values_view(b),
    decreases b.len(),
{
    if b.len() == 0 {
        assert(a + b =~= a);
        assert(values_view(a) + values_view(b) =~= values_view(a));
    } else {
        lemma_values_view_concat(a, b.drop_last());
        assert((a + b).drop_last() =~= a + b.drop_last());
        assert((a + b).last() == b.last());
        assert(values_view(a + b) =~= values_view(a) + values_view(b));
    }
}

/// What the map of a list of entries holds, where no key stands twice:
/// exactly the keys of the entries, each with the value of its entry.
pub proof fn lemma_entries_map(s: Seq<TomlEntry>)
    requires
        has_unique_keys(s),
    ensures
        forall|k: Seq<char>| #[trigger]
            entries_map(s).dom().contains(k) <==> exists|i: int|
                0 <= i < s.len() && (#[trigger] s[i]).key@ == k,
        forall|i: int|
            0 <= i < s.len() ==> entries_map(s).dom().contains((#[trigger] s[i]).key@)
                && entries_map(s)[s[i].key@] == value_view(s[i].value),
    decreases s.len(),
{
    if s.len() > 0 {
        let head = s.drop_last();
        assert(has_unique_keys(head)) by {
            assert forall|i: int, j: int|
                0 <= i < head.len() && 0 <= j < head.len() && i != j implies (
            #[trigger] head[i]).key@ != (#[trigger] head[j]).key@ by {
                assert(head[i] == s[i]);
                assert(head[j] == s[j]);
            }
        }
        lemma_entries_map(head);
        let last = s.last();
        assert forall|k: Seq<char>| #[trigger]
            entries_map(s).dom().contains(k) implies exists|i: int|
            0 <= i < s.len() && (#[trigger] s[i]).key@ == k by {
            if k == last.key@ {
                assert(s[s.len() - 1].key@ == k);
            } else {
                assert(entries_map(head).dom().contains(k));
                let i = choose|i: int| 0 <= i < head.len() && (#[trigger] head[i]).key@ == k;
                assert(s[i] == head[i]);
            }
        }
        assert forall|i: int| 0 <= i < s.len() implies entries_map(s).dom().contains(
            (#[trigger] s[i]).key@,
        ) && entries_map(s)[s[i].key@] == value_view(s[i].value) by {
            if i < s.len() - 1 {
                assert(s[i] == head[i]);
                assert(s[i].key@ != s[s.len() - 1].key@);
            }
        }
        assert forall|k: Seq<char>|
            (exists|i: int| 0 <= i < s.len() && (#[trigger] s[i]).key@ == k) implies #[trigger]
            entries_map(s).dom().contains(k) by {
            let i = choose|i: int| 0 <= i < s.len() && (#[trigger] s[i]).key@ == k;
            assert(entries_map(s).dom().contains(s[i].key@));
        }
    }
}

fn find_key(entries: &Vec<TomlEntry>, key: &String) -> (r: Option<usize>)
    ensures
        match r {
            Some(i) => i < entries.len() && entries@[i as int].key@ == key@,
            None => forall|i: int| 0 <= i < entries.len() ==> (#[trigger] entries@[i]).key@ != key@,
        },
{
    let mut i: usize = 0;
    while i < entries.len()
        invariant
            i <= entries.len(),
            forall|j: int| 0 <= j < i ==> (#[trigger] entries@[j]).key@ != key@,
        decreases entries.len() - i,
    {
        if entries[i].key == *key {
            return Some(i);
        }
        i = i + 1;
    }
    None
}

impl TomlTable {
    #[verifier::type_invariant]
    closed spec fn keys_are_unique(self) -> bool {
        has_unique_keys(self.entries@)
    }

    /// The empty table.
    pub fn new() -> (r: TomlTable)
        ensures
            r@ == Map::<Seq<char>, TomlValueView>::empty(),
    {
        TomlTable { entries: Vec::new() }
    }

    /// Puts `value` under `key`, in place of the value that was there if
    /// there was one.
    pub fn insert(&mut self, key: String, value: TomlValue)
        ensures
            final(self)@ == old(self)@.insert(key@, value@),
    {
        proof {
            use_type_invariant(&*self);
            lemma_entries_map(self.entries@);
        }
        let ghost before = self.entries@;
        match find_key(&self.entries, &key) {
            Some(i) => {
                let mut entries = Vec::new();
                std::mem::swap(&mut entries, &mut self.entries);
                let _ = entries.remove(i);
                entries.insert(i, TomlEntry { key, value });
                proof {
                    assert(entries@ =~= before.update(i as int, entries@[i as int]));
                    lemma_replaced_entry(before, i as int, entries@[i as int]);
                }
                self.entries = entries;
            },
            None => {
                let mut entries = Vec::new();
                std::mem::swap(&mut entries, &mut self.entries);
                entries.push(TomlEntry { key, value });
                proof {
                    assert(entries@.drop_last() =~= before);
                    assert(has_unique_keys(entries@));
                }
                self.entries = entries;
            },
        }
    }

    /// The value under `key`, if there is one.
    pub fn get(&self, key: &String) -> (r: Option<&TomlValue>)
        ensures
            match r {
                Some(v) => self@.dom().contains(key@) && self@[key@] == v@,
                None => !self@.dom().contains(key@),
            },
    {
        proof {
            use_type_invariant(self);
            lemma_entries_map(self.entries@);
        }
        match find_key(&self.entries, key) {
            Some(i) => Some(&self.entries[i].value),
            None => None,
        }
    }

    /// The entries of the table: each key once, with its value.
    pub fn entries(&self) -> (r: &Vec<TomlEntry>)
        ensures
            has_unique_keys(r@),
            entries_map(r@) == self@,
    {
        proof {
            use_type_invariant(self);
        }
        &self.entries
    }
}

/// Replacing an entry by one with the same key puts the new value under
/// that key and changes nothing else.
pub proof fn lemma_replaced_entry(s: Seq<TomlEntry>, i: int, e: TomlEntry)
    requires
        has_unique_keys(s),
        0 <= i < s.len(),
        e.key@ == s[i].key@,
    ensures
        has_unique_keys(s.update(i, e)),
        entries_map(s.update(i, e)) == entries_map(s).insert(e.key@, value_view(e.value)),
{
    let t = s.update(i, e);
    assert forall|a: int, b: int| 0 <= a < t.len() && 0 <= b < t.len() && a != b implies (
    #[trigger] t[a]).key@ != (#[trigger] t[b]).key@ by {
        assert(t[a].key@ == s[a].key@);
        assert(t[b].key@ == s[b].key@);
    }
    lemma_entries_map(s);
    lemma_entries_map(t);
    let left = entries_map(t);
    let right = entries_map(s).insert(e.key@, value_view(e.value));
    assert forall|k: Seq<char>| left.dom().contains(k) <==> right.dom().contains(k) by {
        if left.dom().contains(k) {
            let a = choose|a: int| 0 <= a < t.len() && (#[trigger] t[a]).key@ == k;
            assert(s[a].key@ == k);
        }
        if right.dom().contains(k) {
            if k != e.key@ {
                let a = choose|a: int| 0 <= a < s.len() && (#[trigger] s[a]).key@ == k;
                assert(t[a].key@ == k);
            } else {
                assert(t[i].key@ == k);
            }
        }
    }
    assert forall|k: Seq<char>| left.dom().contains(k) implies left[k] == right[k] by {
        let a = choose|a: int| 0 <= a < t.len() && (#[trigger] t[a]).key@ == k;
        assert(left[t[a].key@] == value_view(t[a].value));
        if a != i {
            assert(t[a] == s[a]);
            assert(entries_map(s)[s[a].key@] == value_view(s[a].value));
        }
    }
    assert(left =~= right);
}

/// The table that holds `value` under `key` and nothing else.
pub fn toml_table_with_single_item(key: &str, value: TomlValue) -> (r: TomlValue)
    ensures
        r@ == TomlValueView::Table(
            Map::<Seq<char>, TomlValueView>::empty().insert(key@, value@),
        ),
{
    let mut table = TomlTable::new();
    table.insert(String::from_str(key), value);
    TomlValue::Table(table)
}

} // verus!

verus! {

/// Two values of different kinds merge into the second.
pub proof fn lemma_merge_of_different_kinds(a: TomlValueView, b: TomlValueView)
    requires
        !same_type(a, b),
    ensures
        merged(a, b) == b,
{
}

/// What one more entry of the second table does to the merged table.
pub proof fn lemma_merge_step(
    x: Map<Seq<char>, TomlValueView>,
    y: Map<Seq<char>, TomlValueView>,
    key: Seq<char>,
    value: TomlValueView,
)
    requires
        !y.dom().contains(key),
    ensures
        merged_tables(x, y.insert(key, value)) == merged_tables(x, y).insert(
            key,
            if x.dom().contains(key) {
                merged(x[key], value)
            } else {
                value
            },
        ),
        merged_tables(x, y).dom().contains(key) <==> x.dom().contains(key),
        x.dom().contains(key) ==> merged_tables(x, y)[key] == x[key],
{
    let left = merged_tables(x, y.insert(key, value));
    let right = merged_tables(x, y).insert(
        key,
        if x.dom().contains(key) {
            merged(x[key], value)
        } else {
            value
        },
    );
    assert(left =~= right);
}

/// Merging with the empty table changes nothing.
pub proof fn lemma_merge_with_empty(x: Map<Seq<char>, TomlValueView>)
    ensures
        merged_tables(x, Map::empty()) == x,
{
    assert(merged_tables(x, Map::empty()) =~= x);
}

/// The map of the first `done + 1` entries, from that of the first `done`.
pub proof fn lemma_next_seen(y: Seq<TomlEntry>, done: int)
    requires
        has_unique_keys(y),
        0 <= done < y.len(),
    ensures
        entries_map(y.subrange(0, done + 1)) == entries_map(y.subrange(0, done)).insert(
            y[done].key@,
            value_view(y[done].value),
        ),
        !entries_map(y.subrange(0, done)).dom().contains(y[done].key@),
{
    let seen = y.subrange(0, done);
    let next = y.subrange(0, done + 1);
    assert(next.drop_last() =~= seen);
    assert(next.last() == y[done]);
    assert(has_unique_keys(seen)) by {
        assert forall|i: int, j: int|
            0 <= i < seen.len() && 0 <= j < seen.len() && i != j implies (#[trigger] seen[i]).key@
            != (#[trigger] seen[j]).key@ by {
            assert(seen[i] == y[i]);
            assert(seen[j] == y[j]);
        }
    }
    lemma_entries_map(seen);
    if entries_map(seen).dom().contains(y[done].key@) {
        let i = choose|i: int| 0 <= i < seen.len() && (#[trigger] seen[i]).key@ == y[done].key@;
        assert(seen[i] == y[i]);
        assert(y[i].key@ != y[done].key@);
    }
}

/// The step of a merge for a key that the first table holds.
pub proof fn lemma_found_step(
    before: Seq<TomlEntry>,
    i: int,
    x: Map<Seq<char>, TomlValueView>,
    seen: Map<Seq<char>, TomlValueView>,
    value: TomlValueView,
    replaced: TomlEntry,
)
    requires
        has_unique_keys(before),
        0 <= i < before.len(),
        entries_map(before) == merged_tables(x, seen),
        !seen.dom().contains(before[i].key@),
        replaced.key@ == before[i].key@,
        value_view(replaced.value) == merged(value_view(before[i].value), value),
    ensures
        has_unique_keys(before.update(i, replaced)),
        entries_map(before.update(i, replaced)) == merged_tables(
            x,
            seen.insert(replaced.key@, value),
        ),
{
    lemma_entries_map(before);
    lemma_replaced_entry(before, i, replaced);
    lemma_merge_step(x, seen, replaced.key@, value);
    assert(entries_map(before).dom().contains(before[i].key@));
    assert(entries_map(before)[before[i].key@] == value_view(before[i].value));
}

/// The step of a merge for a key that the first table does not hold.
pub proof fn lemma_missing_step(
    before: Seq<TomlEntry>,
    x: Map<Seq<char>, TomlValueView>,
    seen: Map<Seq<char>, TomlValueView>,
    entry: TomlEntry,
)
    requires
        has_unique_keys(before),
        forall|i: int| 0 <= i < before.len() ==> (#[trigger] before[i]).key@ != entry.key@,
        entries_map(before) == merged_tables(x, seen),
        !seen.dom().contains(entry.key@),
    ensures
        has_unique_keys(before.push(entry)),
        entries_map(before.push(entry)) == merged_tables(
            x,
            seen.insert(entry.key@, value_view(entry.value)),
        ),
{
    lemma_entries_map(before);
    lemma_merge_step(x, seen, entry.key@, value_view(entry.value));
    assert(before.push(entry).drop_last() =~= before);
    if x.dom().contains(entry.key@) {
        assert(entries_map(before).dom().contains(entry.key@));
    }
}

/// Merges `a` and `b` recursively. `b` takes precedence over `a`.
pub fn recursive_merge_toml(a: TomlValue, b: TomlValue) -> (r: TomlValue)
    ensures
        r@ == merged(a@, b@),
    decreases b,
{
    let ghost b0 = b;
    match (a, b) {
        (TomlValue::Array(a_array), TomlValue::Array(b_array)) => {
            let mut a_array = a_array;
            let mut b_array = b_array;
            proof {
                lemma_values_view_concat(a_array@, b_array@);
            }
            a_array.append(&mut b_array);
            TomlValue::Array(a_array)
        },
        (TomlValue::Table(a_table), TomlValue::Table(b_table)) => {
            proof {
                use_type_invariant(&a_table);
                use_type_invariant(&b_table);
            }
            let ghost x0 = a_table.entries@;
            let ghost y0 = b_table.entries@;
            let ghost x = entries_map(x0);
            let mut a_entries = a_table.entries;
            let mut b_entries = b_table.entries;
            let ghost mut done: int = 0;
            proof {
                assert(y0.subrange(0, 0) =~= Seq::<TomlEntry>::empty());
                lemma_merge_with_empty(x);
                assert(b_entries@ =~= y0.subrange(0, y0.len() as int));
            }
            while b_entries.len() > 0
                invariant
                    b0 == b,
                    b0 == TomlValue::Table(b_table),
                    y0 == b_table.entries@,
                    has_unique_keys(y0),
                    has_unique_keys(a_entries@),
                    0 <= done <= y0.len(),
                    b_entries@ == y0.subrange(done, y0.len() as int),
                    entries_map(a_entries@) == merged_tables(
                        x,
                        entries_map(y0.subrange(0, done)),
                    ),
                decreases b_entries.len(),
            {
                let ghost before = a_entries@;
                let ghost seen = entries_map(y0.subrange(0, done));
                let entry = b_entries.remove(0);
                proof {
                    assert(entry == y0[done]);
                    lemma_next_seen(y0, done);
                    assert(b_entries@ =~= y0.subrange(done + 1, y0.len() as int));
                }
                match find_key(&a_entries, &entry.key) {
                    Some(i) => {
                        let old_entry = a_entries.remove(i);
                        proof {
                            assert(old_entry == before[i as int]);
                            assert(decreases_to!(b0 => b0->Table_0));
                            assert(decreases_to!(b_table => b_table.entries));
                            assert(decreases_to!(b_table.entries => b_table.entries@));
                            assert(decreases_to!(y0 => y0[done]));
                            assert(decreases_to!(entry => entry.value));
                        }
                        let ghost new_value = value_view(entry.value);
                        let value = recursive_merge_toml(old_entry.value, entry.value);
                        let replaced = TomlEntry { key: entry.key, value };
                        a_entries.insert(i, replaced);
                        proof {
                            assert(a_entries@ =~= before.update(i as int, replaced));
                            lemma_found_step(before, i as int, x, seen, new_value, replaced);
                        }
                    },
                    None => {
                        a_entries.push(entry);
                        proof {
                            lemma_missing_step(before, x, seen, entry);
                        }
                    },
                }
                proof {
                    done = done + 1;
                }
            }
            proof {
                assert(y0.subrange(0, done) =~= y0);
            }
            TomlValue::Table(TomlTable { entries: a_entries })
        },
        (_, b) => b,
    }
}

} // verus!
