//! The tables of a TOML document, kept as plain values.
//!
//! A table maps text keys to items; its keys are held in ascending order
//! (the order of `text_lt`), each key once, which is also the order in which
//! TOML tables list their keys. A table's view is its content: a map from
//! keys to `TomlValue`s, nested tables included.
use vstd::prelude::*;

use crate::text::{
    lemma_text_lt_irreflexive, lemma_text_lt_total, lemma_text_lt_transitive, text_compare,
    text_eq, text_lt, TextOrder,
};
use crate::toml_io::{
    node_value, toml_parse_table, toml_parsed, toml_render, toml_rendered, toml_table_contents,
    toml_table_depth, toml_table_insert, toml_table_new, toml_take_entries, toml_value_clone,
    toml_value_plain, toml_value_text, TomlNode,
};

verus! {

/// A value stored under a key of a table.
pub enum TomlItem {
    /// A text value.
    Str(String),
    /// A nested table.
    Table(TomlTable),
    /// Any other TOML value (a number, a boolean, a date, an array).
    Other(OtherValue),
}

/// A TOML value that is neither text nor a table, as parsed from a
/// document.
pub struct OtherValue {
    value: toml::Value,
}

impl OtherValue {
    #[verifier::type_invariant]
    spec fn plain(self) -> bool {
        toml_value_plain(self.value)
    }

    /// The TOML text of the value.
    pub closed spec fn toml_text(&self) -> Seq<char> {
        toml_value_text(self.value)
    }
}

/// A TOML table.
pub struct TomlTable {
    entries: Vec<(String, TomlItem)>,
}

/// The content of a value of a TOML document.
pub enum TomlValue {
    /// A text value.
    Text(Seq<char>),
    /// A table, by the contents under its keys.
    Table(Map<Seq<char>, TomlValue>),
    /// Any other value, by its TOML text.
    Other(Seq<char>),
}

/// The content of an item.
pub open spec fn item_value(item: TomlItem) -> TomlValue
    decreases item,
{
    match item {
        TomlItem::Str(s) => TomlValue::Text(s@),
        TomlItem::Table(t) => TomlValue::Table(t.contents()),
        TomlItem::Other(v) => TomlValue::Other(v.toml_text()),
    }
}

/// The contents of a list of entries, entry by entry.
pub closed spec fn entries_value(s: Seq<(String, TomlItem)>) -> Seq<(Seq<char>, TomlValue)>
    decreases s,
{
    if s.len() == 0 {
        Seq::empty()
    } else {
        let init = s.subrange(0, s.len() - 1);
        let last = s[s.len() - 1];
        entries_value(init).push((last.0@, item_value(last.1)))
    }
}

/// The position of the content with key `k`.
pub open spec fn entry_index(d: Seq<(Seq<char>, TomlValue)>, k: Seq<char>) -> int {
    choose|i: int| 0 <= i < d.len() && #[trigger] d[i].0 == k
}

/// The map that a list of keyed contents stands for.
pub open spec fn entries_map(d: Seq<(Seq<char>, TomlValue)>) -> Map<Seq<char>, TomlValue> {
    Map::new(
        |k: Seq<char>| exists|i: int| 0 <= i < d.len() && #[trigger] d[i].0 == k,
        |k: Seq<char>| d[entry_index(d, k)].1,
    )
}

/// The keys of `s` ascend strictly.
pub open spec fn keys_sorted(s: Seq<(String, TomlItem)>) -> bool {
    forall|i: int, j: int| 0 <= i < j < s.len() ==> text_lt(#[trigger] s[i].0@, #[trigger] s[j].0@)
}

/// Some entry of `s` has the key `k`.
pub open spec fn has_key(s: Seq<(String, TomlItem)>, k: Seq<char>) -> bool {
    exists|i: int| 0 <= i < s.len() && #[trigger] s[i].0@ == k
}

/// The position of the entry with key `k`.
pub open spec fn key_index(s: Seq<(String, TomlItem)>, k: Seq<char>) -> int {
    choose|i: int| 0 <= i < s.len() && #[trigger] s[i].0@ == k
}

/// The content map of a list of entries.
pub open spec fn entries_view(s: Seq<(String, TomlItem)>) -> Map<Seq<char>, TomlValue> {
    entries_map(entries_value(s))
}

/// The text stored under `k`, if the value there is text.
pub open spec fn text_at(m: Map<Seq<char>, TomlValue>, k: Seq<char>) -> Option<Seq<char>> {
    if m.contains_key(k) {
        match m[k] {
            TomlValue::Text(s) => Some(s),
            _ => None,
        }
    } else {
        None
    }
}

/// The contents of the table stored under `k`, if the value there is a table.
pub open spec fn table_at(m: Map<Seq<char>, TomlValue>, k: Seq<char>) -> Option<
    Map<Seq<char>, TomlValue>,
> {
    if m.contains_key(k) {
        match m[k] {
            TomlValue::Table(t) => Some(t),
            _ => None,
        }
    } else {
        None
    }
}

/// `names` lists the keys of `m` in ascending order, each once.
pub open spec fn lists_keys(names: Seq<String>, m: Map<Seq<char>, TomlValue>) -> bool {
    &&& forall|i: int, j: int|
        0 <= i < j < names.len() ==> text_lt(#[trigger] names[i]@, #[trigger] names[j]@)
    &&& forall|k: Seq<char>|
        m.contains_key(k) <==> exists|i: int| 0 <= i < names.len() && #[trigger] names[i]@ == k
}

impl View for TomlTable {
    type V = Map<Seq<char>, TomlValue>;

    open spec fn view(&self) -> Map<Seq<char>, TomlValue> {
        self.contents()
    }
}

/// The contents of a list of entries follow the entries one by one.
proof fn lemma_entries_value(s: Seq<(String, TomlItem)>)
    ensures
        entries_value(s).len() == s.len(),
        forall|i: int|
            0 <= i < s.len() ==> #[trigger] entries_value(s)[i] == (s[i].0@, item_value(s[i].1)),
    decreases s.len(),
{
    if s.len() > 0 {
        let init = s.subrange(0, s.len() - 1);
        lemma_entries_value(init);
        assert forall|i: int| 0 <= i < s.len() implies #[trigger] entries_value(s)[i] == (
            s[i].0@,
            item_value(s[i].1),
        ) by {
            if i < s.len() - 1 {
                assert(init[i] == s[i]);
            }
        }
    }
}

/// A key is in the map exactly when some entry carries it.
proof fn lemma_view_contains(s: Seq<(String, TomlItem)>, k: Seq<char>)
    ensures
        entries_view(s).contains_key(k) <==> has_key(s, k),
{
    lemma_entries_value(s);
    let d = entries_value(s);
    if has_key(s, k) {
        let i = key_index(s, k);
        assert(d[i].0 == k);
    }
    if exists|i: int| 0 <= i < d.len() && #[trigger] d[i].0 == k {
        let i = choose|i: int| 0 <= i < d.len() && #[trigger] d[i].0 == k;
        assert(s[i].0@ == k);
    }
}

/// In sorted entries, each key occurs at one position only, and the map
/// holds there the content of that entry.
proof fn lemma_entry_in_view(s: Seq<(String, TomlItem)>, i: int)
    requires
        keys_sorted(s),
        0 <= i < s.len(),
    ensures
        has_key(s, s[i].0@),
        key_index(s, s[i].0@) == i,
        entries_view(s).contains_key(s[i].0@),
        entries_view(s)[s[i].0@] == item_value(s[i].1),
{
    let k = s[i].0@;
    assert(has_key(s, k)) by {
        assert(s[i].0@ == k);
    }
    let j = key_index(s, k);
    assert(s[j].0@ == k);
    if j < i {
        assert(text_lt(s[j].0@, s[i].0@));
        lemma_text_lt_irreflexive(k);
    }
    if j > i {
        assert(text_lt(s[i].0@, s[j].0@));
        lemma_text_lt_irreflexive(k);
    }
    lemma_view_contains(s, k);
    lemma_entries_value(s);
    let d = entries_value(s);
    assert(d[i].0 == k);
    assert(entries_map(d).contains_key(k));
    let m = entry_index(d, k);
    assert(d[m].0 == k);
    assert(s[m].0@ == k);
    if m < i {
        assert(text_lt(s[m].0@, s[i].0@));
        lemma_text_lt_irreflexive(k);
    }
    if m > i {
        assert(text_lt(s[i].0@, s[m].0@));
        lemma_text_lt_irreflexive(k);
    }
    assert(m == i);
    assert(entries_view(s)[k] == d[m].1);
}

impl TomlTable {
    /// The content of the table: each key with the content of its item.
    pub closed spec fn contents(&self) -> Map<Seq<char>, TomlValue>
        decreases self,
    {
        entries_map(entries_value(self.entries@))
    }

    #[verifier::type_invariant]
    spec fn sorted(self) -> bool {
        keys_sorted(self.entries@)
    }

    /// An empty table.
    pub fn new() -> (t: Self)
        ensures
            t@ == Map::<Seq<char>, TomlValue>::empty(),
    {
        let t = TomlTable { entries: Vec::new() };
        proof {
            lemma_entries_value(t.entries@);
        }
        assert(t@ =~= Map::<Seq<char>, TomlValue>::empty());
        t
    }

    /// The item stored under `key`.
    pub fn get(&self, key: &str) -> (r: Option<&TomlItem>)
        ensures
            match r {
                Some(item) => self@.contains_key(key@) && item_value(*item) == self@[key@],
                None => !self@.contains_key(key@),
            },
    {
        proof {
            use_type_invariant(self);
        }
        let n = self.entries.len();
        let mut i: usize = 0;
        while i < n
            invariant
                n == self.entries@.len(),
                i <= n,
                keys_sorted(self.entries@),
                forall|j: int| 0 <= j < i ==> self.entries@[j].0@ != key@,
            decreases n - i,
        {
            if text_eq(self.entries[i].0.as_str(), key) {
                proof {
                    lemma_entry_in_view(self.entries@, i as int);
                }
                return Some(&self.entries[i].1);
            }
            i = i + 1;
        }
        proof {
            lemma_view_contains(self.entries@, key@);
        }
        None
    }

    /// Whether the table has an item under `key`.
    pub fn contains_key(&self, key: &str) -> (r: bool)
        ensures
            r == self@.contains_key(key@),
    {
        self.get(key).is_some()
    }

    /// The text stored under `key`, if the item there is text.
    pub fn get_text(&self, key: &str) -> (r: Option<String>)
        ensures
            match r {
                Some(s) => text_at(self@, key@) == Some(s@),
                None => text_at(self@, key@) is None,
            },
    {
        match self.get(key) {
            Some(TomlItem::Str(s)) => Some(s.clone()),
            _ => None,
        }
    }

    /// The table stored under `key`, if the item there is a table.
    pub fn get_table(&self, key: &str) -> (r: Option<&TomlTable>)
        ensures
            match r {
                Some(t) => table_at(self@, key@) == Some(t@),
                None => table_at(self@, key@) is None,
            },
    {
        match self.get(key) {
            Some(TomlItem::Table(t)) => Some(t),
            _ => None,
        }
    }

    /// The keys of the table, in ascending order.
    pub fn keys(&self) -> (r: Vec<String>)
        ensures
            lists_keys(r@, self@),
    {
        proof {
            use_type_invariant(self);
        }
        let n = self.entries.len();
        let mut r: Vec<String> = Vec::new();
        let mut i: usize = 0;
        while i < n
            invariant
                n == self.entries@.len(),
                i <= n,
                r@.len() == i,
                forall|j: int| 0 <= j < i ==> #[trigger] r@[j]@ == self.entries@[j].0@,
            decreases n - i,
        {
            r.push(self.entries[i].0.clone());
            i = i + 1;
        }
        assert forall|a: int, b: int| 0 <= a < b < r@.len() implies text_lt(
            #[trigger] r@[a]@,
            #[trigger] r@[b]@,
        ) by {
            assert(text_lt(self.entries@[a].0@, self.entries@[b].0@));
        }
        assert forall|k: Seq<char>| self@.contains_key(k) implies exists|i: int|
            0 <= i < r@.len() && #[trigger] r@[i]@ == k by {
            lemma_view_contains(self.entries@, k);
            let j = key_index(self.entries@, k);
            assert(r@[j]@ == k);
        }
        assert forall|k: Seq<char>|
            (exists|i: int| 0 <= i < r@.len() && #[trigger] r@[i]@ == k) implies self@.contains_key(
            k,
        ) by {
            let j = choose|i: int| 0 <= i < r@.len() && #[trigger] r@[i]@ == k;
            lemma_entry_in_view(self.entries@, j);
        }
        r
    }

    /// Stores `item` under `key`, in place of any item that was there.
    pub fn insert(&mut self, key: String, item: TomlItem)
        ensures
            final(self)@ == old(self)@.insert(key@, item_value(item)),
    {
        proof {
            use_type_invariant(&*self);
        }
        let mut entries: Vec<(String, TomlItem)> = Vec::new();
        std::mem::swap(&mut entries, &mut self.entries);
        let ghost s = entries@;
        let n = entries.len();
        let mut p: usize = 0;
        let mut found_place = false;
        while p < n && !found_place
            invariant
                n == entries@.len(),
                entries@ == s,
                keys_sorted(s),
                p <= n,
                forall|j: int| 0 <= j < p ==> text_lt(#[trigger] s[j].0@, key@),
                found_place ==> p < n && !text_lt(s[p as int].0@, key@),
            decreases n - p + (if found_place { 0int } else { 1int }),
        {
            if text_compare(entries[p].0.as_str(), key.as_str()) == TextOrder::Less {
                p = p + 1;
            } else {
                found_place = true;
            }
        }
        let replace = p < n && text_eq(entries[p].0.as_str(), key.as_str());
        let ghost k = key@;
        let ghost e = (key, item);
        if replace {
            entries.set(p, (key, item));
            let ghost t = entries@;
            assert(t == s.update(p as int, e));
            assert(keys_sorted(t)) by {
                assert forall|a: int, b: int| 0 <= a < b < t.len() implies text_lt(
                    #[trigger] t[a].0@,
                    #[trigger] t[b].0@,
                ) by {
                    assert(text_lt(s[a].0@, s[b].0@));
                }
            }
            proof {
                lemma_entry_in_view(t, p as int);
                assert forall|x: Seq<char>| #![auto]
                    entries_view(t).contains_key(x) == entries_view(s).insert(k, item_value(e.1)).contains_key(
                        x,
                    ) by {
                    lemma_view_contains(t, x);
                    lemma_view_contains(s, x);
                    if has_key(t, x) {
                        let j = key_index(t, x);
                        if j != p {
                            assert(s[j].0@ == x);
                        }
                    }
                    if has_key(s, x) {
                        let j = key_index(s, x);
                        assert(t[j].0@ == x);
                    }
                }
                assert forall|x: Seq<char>| #[trigger]
                    entries_view(t).contains_key(x) implies entries_view(t)[x] == entries_view(
                    s,
                ).insert(k, item_value(e.1))[x] by {
                    if x != k {
                        lemma_view_contains(t, x);
                        let j = key_index(t, x);
                        lemma_entry_in_view(t, j);
                        lemma_entry_in_view(s, j);
                    }
                }
                assert(entries_view(t) =~= entries_view(s).insert(k, item_value(e.1)));
            }
        } else {
            proof {
                if p < n {
                    lemma_text_lt_total(s[p as int].0@, k);
                    assert forall|j: int| p <= j < n implies text_lt(k, #[trigger] s[j].0@) by {
                        if j > p {
                            assert(text_lt(s[p as int].0@, s[j].0@));
                            lemma_text_lt_transitive(k, s[p as int].0@, s[j].0@);
                        }
                    }
                }
            }
            entries.insert(p, (key, item));
            let ghost t = entries@;
            assert(t == s.insert(p as int, e));
            assert(keys_sorted(t)) by {
                assert forall|a: int, b: int| 0 <= a < b < t.len() implies text_lt(
                    #[trigger] t[a].0@,
                    #[trigger] t[b].0@,
                ) by {
                    if b < p {
                        assert(text_lt(s[a].0@, s[b].0@));
                    } else if b == p {
                        assert(text_lt(s[a].0@, k));
                    } else if a < p {
                        assert(text_lt(s[a].0@, k));
                        assert(text_lt(k, s[b - 1].0@));
                        lemma_text_lt_transitive(s[a].0@, k, s[b - 1].0@);
                    } else if a == p {
                        assert(text_lt(k, s[b - 1].0@));
                    } else {
                        assert(text_lt(s[a - 1].0@, s[b - 1].0@));
                    }
                }
            }
            proof {
                lemma_entry_in_view(t, p as int);
                assert forall|x: Seq<char>| #![auto]
                    entries_view(t).contains_key(x) == entries_view(s).insert(k, item_value(e.1)).contains_key(
                        x,
                    ) by {
                    lemma_view_contains(t, x);
                    lemma_view_contains(s, x);
                    if has_key(t, x) {
                        let j = key_index(t, x);
                        if j < p {
                            assert(s[j].0@ == x);
                        } else if j > p {
                            assert(s[j - 1].0@ == x);
                        }
                    }
                    if has_key(s, x) {
                        let j = key_index(s, x);
                        if j < p {
                            assert(t[j].0@ == x);
                        } else {
                            assert(t[j + 1].0@ == x);
                        }
                    }
                }
                assert forall|x: Seq<char>| #[trigger]
                    entries_view(t).contains_key(x) implies entries_view(t)[x] == entries_view(
                    s,
                ).insert(k, item_value(e.1))[x] by {
                    if x != k {
                        lemma_view_contains(t, x);
                        let j = key_index(t, x);
                        lemma_entry_in_view(t, j);
                        if j < p {
                            lemma_entry_in_view(s, j);
                        } else {
                            lemma_entry_in_view(s, j - 1);
                        }
                    }
                }
                assert(entries_view(t) =~= entries_view(s).insert(k, item_value(e.1)));
            }
        }
        self.entries = entries;
    }

    /// Stores the text `value` under `key`, in place of any item that was there.
    pub fn insert_text(&mut self, key: &str, value: &str)
        ensures
            final(self)@ == old(self)@.insert(key@, TomlValue::Text(value@)),
    {
        self.insert(String::from_str(key), TomlItem::Str(String::from_str(value)));
    }

    /// Stores the table `table` under `key`, in place of any item that was there.
    pub fn insert_table(&mut self, key: &str, table: TomlTable)
        ensures
            final(self)@ == old(self)@.insert(key@, TomlValue::Table(table@)),
    {
        self.insert(String::from_str(key), TomlItem::Table(table));
    }

    /// Takes out the item stored under `key`.
    pub fn remove(&mut self, key: &str) -> (r: Option<TomlItem>)
        ensures
            final(self)@ == old(self)@.remove(key@),
            match r {
                Some(item) => old(self)@.contains_key(key@) && item_value(item) == old(self)@[key@],
                None => !old(self)@.contains_key(key@),
            },
    {
        proof {
            use_type_invariant(&*self);
        }
        let mut entries: Vec<(String, TomlItem)> = Vec::new();
        std::mem::swap(&mut entries, &mut self.entries);
        let ghost s = entries@;
        let n = entries.len();
        let mut i: usize = 0;
        while i < n
            invariant
                n == entries@.len(),
                entries@ == s,
                old(self).entries@ == s,
                keys_sorted(s),
                i <= n,
                forall|j: int| 0 <= j < i ==> s[j].0@ != key@,
            decreases n - i,
        {
            if text_eq(entries[i].0.as_str(), key) {
                let e = entries.remove(i);
                let ghost t = entries@;
                let ghost k = key@;
                assert(keys_sorted(t)) by {
                    assert forall|a: int, b: int| 0 <= a < b < t.len() implies text_lt(
                        #[trigger] t[a].0@,
                        #[trigger] t[b].0@,
                    ) by {
                        if b < i {
                            assert(text_lt(s[a].0@, s[b].0@));
                        } else if a < i {
                            assert(text_lt(s[a].0@, s[b + 1].0@));
                        } else {
                            assert(text_lt(s[a + 1].0@, s[b + 1].0@));
                        }
                    }
                }
                proof {
                    lemma_entry_in_view(s, i as int);
                    assert forall|x: Seq<char>| #![auto]
                        entries_view(t).contains_key(x) == entries_view(s).remove(k).contains_key(
                            x,
                        ) by {
                        lemma_view_contains(t, x);
                        lemma_view_contains(s, x);
                        if has_key(t, x) {
                            let j = key_index(t, x);
                            if j < i {
                                assert(s[j].0@ == x);
                                lemma_entry_in_view(s, j);
                            } else {
                                assert(s[j + 1].0@ == x);
                                lemma_entry_in_view(s, j + 1);
                            }
                        }
                        if has_key(s, x) && x != k {
                            let j = key_index(s, x);
                            if j < i {
                                assert(t[j].0@ == x);
                            } else {
                                assert(j != i);
                                assert(t[j - 1].0@ == x);
                            }
                        }
                    }
                    assert forall|x: Seq<char>| #[trigger]
                        entries_view(t).contains_key(x) implies entries_view(t)[x]
                        == entries_view(s).remove(k)[x] by {
                        lemma_view_contains(t, x);
                        let j = key_index(t, x);
                        lemma_entry_in_view(t, j);
                        if j < i {
                            lemma_entry_in_view(s, j);
                        } else {
                            lemma_entry_in_view(s, j + 1);
                        }
                    }
                    assert(entries_view(t) =~= entries_view(s).remove(k));
                }
                self.entries = entries;
                return Some(e.1);
            }
            i = i + 1;
        }
        proof {
            lemma_view_contains(s, key@);
            assert(entries_view(s) =~= entries_view(s).remove(key@));
        }
        self.entries = entries;
        None
    }
    /// The table of a `toml` table, with the same contents.
    fn import(t: toml::map::Map<String, toml::Value>) -> (r: TomlTable)
        ensures
            r@ == toml_table_contents(t),
        decreases toml_table_depth(t),
    {
        let ghost contents = toml_table_contents(t);
        let ghost depth = toml_table_depth(t);
        let mut nodes = toml_take_entries(t);
        let ghost src = nodes@;
        let n = nodes.len();
        let mut out: Vec<(String, TomlItem)> = Vec::new();
        let mut i: usize = 0;
        while i < n
            invariant
                n == src.len(),
                i <= n,
                nodes@ == src.skip(i as int),
                out@.len() == i,
                contents == toml_table_contents(t),
                depth == toml_table_depth(t),
                forall|j: int| 0 <= j < n ==> (#[trigger] src[j].1 matches TomlNode::Table(u)
                    ==> toml_table_depth(u) < depth),
                forall|j: int| 0 <= j < n ==> (#[trigger] src[j].1 matches TomlNode::Other(v)
                    ==> toml_value_plain(v)),
                forall|j: int|
                    0 <= j < i ==> #[trigger] out@[j].0@ == src[j].0@ && item_value(out@[j].1)
                        == node_value(src[j].1),
            decreases n - i,
        {
            assert(nodes@[0] == src[i as int]);
            let (key, node) = nodes.remove(0);
            assert(nodes@ =~= src.skip(i + 1));
            let item = match node {
                TomlNode::Text(s) => TomlItem::Str(s),
                TomlNode::Table(u) => {
                    assert(src[i as int].1 matches TomlNode::Table(_));
                    TomlItem::Table(TomlTable::import(u))
                },
                TomlNode::Other(v) => {
                    assert(src[i as int].1 matches TomlNode::Other(_));
                    TomlItem::Other(OtherValue { value: v })
                },
            };
            out.push((key, item));
            i = i + 1;
        }
        assert(keys_sorted(out@)) by {
            assert forall|a: int, b: int| 0 <= a < b < out@.len() implies text_lt(
                #[trigger] out@[a].0@,
                #[trigger] out@[b].0@,
            ) by {
                assert(text_lt(src[a].0@, src[b].0@));
            }
        }
        let r = TomlTable { entries: out };
        proof {
            let s = r.entries@;
            assert forall|k: Seq<char>| #![auto]
                entries_view(s).contains_key(k) == contents.contains_key(k) by {
                lemma_view_contains(s, k);
                if has_key(s, k) {
                    let j = key_index(s, k);
                    assert(src[j].0@ == k);
                }
                if contents.contains_key(k) {
                    let j = choose|j: int| 0 <= j < src.len() && #[trigger] src[j].0@ == k;
                    assert(s[j].0@ == k);
                }
            }
            assert forall|k: Seq<char>| #[trigger]
                entries_view(s).contains_key(k) implies entries_view(s)[k] == contents[k] by {
                lemma_view_contains(s, k);
                let j = key_index(s, k);
                lemma_entry_in_view(s, j);
                assert(src[j].0@ == k);
            }
            assert(entries_view(s) =~= contents);
        }
        r
    }

    /// The `toml` table of this table, with the same contents.
    fn export(&self) -> (r: toml::map::Map<String, toml::Value>)
        ensures
            toml_table_contents(r) == self@,
        decreases self,
    {
        proof {
            use_type_invariant(self);
        }
        let ghost s = self.entries@;
        let mut out = toml_table_new();
        let n = self.entries.len();
        let mut i: usize = 0;
        while i < n
            invariant
                n == s.len(),
                s == self.entries@,
                keys_sorted(s),
                i <= n,
                forall|j: int|
                    0 <= j < i ==> toml_table_contents(out).contains_key(#[trigger] s[j].0@)
                        && toml_table_contents(out)[s[j].0@] == item_value(s[j].1),
                forall|k: Seq<char>|
                    #[trigger] toml_table_contents(out).contains_key(k) ==> exists|j: int|
                        0 <= j < i && #[trigger] s[j].0@ == k,
            decreases n - i,
        {
            let node = match &self.entries[i].1 {
                TomlItem::Str(text) => TomlNode::Text(text.clone()),
                TomlItem::Table(u) => {
                    proof {
                        assert(decreases_to!(self.entries => self.entries[i as int]));
                    }
                    TomlNode::Table(u.export())
                },
                TomlItem::Other(v) => {
                    proof {
                        use_type_invariant(v);
                    }
                    TomlNode::Other(toml_value_clone(&v.value))
                },
            };
            let ghost before = toml_table_contents(out);
            let key = self.entries[i].0.clone();
            toml_table_insert(&mut out, key, node);
            proof {
                assert forall|j: int| 0 <= j < i + 1 implies toml_table_contents(
                    out,
                ).contains_key(#[trigger] s[j].0@) && toml_table_contents(out)[s[j].0@]
                    == item_value(s[j].1) by {
                    if j < i {
                        assert(text_lt(s[j].0@, s[i as int].0@));
                        lemma_text_lt_irreflexive(s[j].0@);
                    }
                }
                assert forall|k: Seq<char>| #[trigger]
                    toml_table_contents(out).contains_key(k) implies exists|j: int|
                    0 <= j < i + 1 && #[trigger] s[j].0@ == k by {
                    if k != s[i as int].0@ {
                        assert(before.contains_key(k));
                    }
                }
            }
            i = i + 1;
        }
        proof {
            assert forall|k: Seq<char>| #![auto]
                toml_table_contents(out).contains_key(k) == entries_view(s).contains_key(k) by {
                lemma_view_contains(s, k);
                if has_key(s, k) {
                    let j = key_index(s, k);
                    assert(toml_table_contents(out).contains_key(s[j].0@));
                }
            }
            assert forall|k: Seq<char>| #[trigger]
                toml_table_contents(out).contains_key(k) implies toml_table_contents(out)[k]
                == entries_view(s)[k] by {
                let j = choose|j: int| 0 <= j < n && #[trigger] s[j].0@ == k;
                lemma_entry_in_view(s, j);
            }
            assert(toml_table_contents(out) =~= entries_view(s));
        }
        out
    }

    /// Parses a TOML document: the table of the contents that `toml`
    /// parses from `text`, or `None` where `text` is not a TOML document.
    pub fn parse_config(text: &str) -> (r: Option<TomlTable>)
        ensures
            r is Some <==> toml_parsed(text@) is Some,
            r matches Some(t) ==> t@ == toml_parsed(text@)->0,
    {
        match toml_parse_table(text) {
            Some(t) => Some(TomlTable::import(t)),
            None => None,
        }
    }

    /// Renders the table as a TOML document: the text that `toml` writes
    /// for its contents, or `None` where `toml` cannot write it.
    pub fn render_config(&self) -> (r: Option<String>)
        ensures
            r is Some <==> toml_rendered(self@) is Some,
            r matches Some(text) ==> text@ == toml_rendered(self@)->0,
    {
        let t = self.export();
        toml_render(&t)
    }
}

} // verus!
