//! The calls into the `toml` crate: parsing TOML text into a table,
//! listing and filling a table, and rendering a table as TOML text.
//!
//! What these calls compute is named here; the library's tables are
//! converted to and from `toml` tables in `table`.
use vstd::prelude::*;

use crate::table::TomlValue;
use crate::text::text_lt;

verus! {

#[verifier::external_type_specification]
#[verifier::external_body]
pub struct ExTomlValue(toml::Value);

#[verifier::external_type_specification]
#[verifier::external_body]
#[verifier::reject_recursive_types(K)]
#[verifier::reject_recursive_types(V)]
pub struct ExTomlMap<K, V>(toml::map::Map<K, V>);

/// The TOML text of a value that is neither text nor a table, as `toml`
/// writes it.
pub uninterp spec fn toml_value_text(v: toml::Value) -> Seq<char>;

/// The value is neither a string nor a table.
pub uninterp spec fn toml_value_plain(v: toml::Value) -> bool;

/// What a `toml` table holds: each key with the content of its value.
pub uninterp spec fn toml_table_contents(t: toml::map::Map<String, toml::Value>) -> Map<
    Seq<char>,
    TomlValue,
>;

/// How deeply tables nest in a `toml` table.
pub uninterp spec fn toml_table_depth(t: toml::map::Map<String, toml::Value>) -> nat;

/// The contents of the table that `toml` parses from a TOML text; `None`
/// where the text is not a TOML document.
pub uninterp spec fn toml_parsed(text: Seq<char>) -> Option<Map<Seq<char>, TomlValue>>;

/// The TOML text that `toml` writes for a table of the given contents;
/// `None` where `toml` cannot write it.
pub uninterp spec fn toml_rendered(contents: Map<Seq<char>, TomlValue>) -> Option<Seq<char>>;

/// A value of a `toml` table, told apart by kind.
pub enum TomlNode {
    Text(String),
    Table(toml::map::Map<String, toml::Value>),
    Other(toml::Value),
}

/// The content of a value of a `toml` table.
pub open spec fn node_value(n: TomlNode) -> TomlValue {
    match n {
        TomlNode::Text(s) => TomlValue::Text(s@),
        TomlNode::Table(t) => TomlValue::Table(toml_table_contents(t)),
        TomlNode::Other(v) => TomlValue::Other(toml_value_text(v)),
    }
}

/// `toml::from_str` into a table: the table whose contents `toml_parsed`
/// names, or `None` where the text is not a TOML document.
#[verifier::external_body]
pub(crate) fn toml_parse_table(text: &str) -> (r: Option<toml::map::Map<String, toml::Value>>)
    ensures
        r is Some <==> toml_parsed(text@) is Some,
        r matches Some(t) ==> toml_table_contents(t) == toml_parsed(text@)->0,
{
    toml::from_str::<toml::Table>(text).ok()
}

/// `toml::to_string` of a `toml` table: the text that `toml_rendered`
/// names for its contents, or `None` where `toml` fails to write a value.
#[verifier::external_body]
pub(crate) fn toml_render(t: &toml::map::Map<String, toml::Value>) -> (r: Option<String>)
    ensures
        r is Some <==> toml_rendered(toml_table_contents(*t)) is Some,
        r matches Some(s) ==> s@ == toml_rendered(toml_table_contents(*t))->0,
{
    toml::to_string(t).ok()
}

/// `toml::Table::new`: a table with no keys.
#[verifier::external_body]
pub(crate) fn toml_table_new() -> (r: toml::map::Map<String, toml::Value>)
    ensures
        toml_table_contents(r).dom() == Set::<Seq<char>>::empty(),
{
    toml::Table::new()
}

/// `toml::Table::insert`: stores the value `node` under `key`, in place of
/// any value that was there.
#[verifier::external_body]
pub(crate) fn toml_table_insert(
    t: &mut toml::map::Map<String, toml::Value>,
    key: String,
    node: TomlNode,
)
    requires
        node matches TomlNode::Other(v) ==> toml_value_plain(v),
    ensures
        toml_table_contents(*final(t)) == toml_table_contents(*old(t)).insert(
            key@,
            node_value(node),
        ),
{
    let value = match node {
        TomlNode::Text(s) => toml::Value::String(s),
        TomlNode::Table(u) => toml::Value::Table(u),
        TomlNode::Other(v) => v,
    };
    let _ = t.insert(key, value);
}

/// `Clone::clone` of a `toml` value: a value of the same kind and TOML text.
#[verifier::external_body]
pub(crate) fn toml_value_clone(v: &toml::Value) -> (r: toml::Value)
    ensures
        toml_value_text(r) == toml_value_text(*v),
        toml_value_plain(r) == toml_value_plain(*v),
{
    v.clone()
}

/// `IntoIterator` of a `toml` table: its entries in ascending key order
/// (the table is a `BTreeMap` keyed by `String`), each value told apart by
/// kind. A nested table nests less deeply than the table that holds it.
#[verifier::external_body]
pub(crate) fn toml_take_entries(t: toml::map::Map<String, toml::Value>) -> (r: Vec<
    (String, TomlNode),
>)
    ensures
        forall|i: int, j: int|
            0 <= i < j < r@.len() ==> text_lt(#[trigger] r@[i].0@, #[trigger] r@[j].0@),
        forall|i: int|
            0 <= i < r@.len() ==> toml_table_contents(t).contains_key(#[trigger] r@[i].0@)
                && toml_table_contents(t)[r@[i].0@] == node_value(r@[i].1),
        forall|k: Seq<char>|
            #[trigger] toml_table_contents(t).contains_key(k) ==> exists|i: int|
                0 <= i < r@.len() && #[trigger] r@[i].0@ == k,
        forall|i: int|
            0 <= i < r@.len() ==> (#[trigger] r@[i].1 matches TomlNode::Table(u)
                ==> toml_table_depth(u) < toml_table_depth(t)),
        forall|i: int|
            0 <= i < r@.len() ==> (#[trigger] r@[i].1 matches TomlNode::Other(v)
                ==> toml_value_plain(v)),
{
    let mut r = Vec::new();
    for (key, value) in t {
        let node = match value {
            toml::Value::String(s) => TomlNode::Text(s),
            toml::Value::Table(u) => TomlNode::Table(u),
            other => TomlNode::Other(other),
        };
        r.push((key, node));
    }
    r
}

} // verus!
