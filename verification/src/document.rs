//! Reading TOML text into a tree of values, by way of the `toml` crate.

use vstd::prelude::*;
use crate::value::{TomlValue, TomlValueView};

verus! {

/// `toml::Value`, a node of the tree that `toml` parses a text into. It
/// is only looked into through the functions below.
#[verifier::external_type_specification]
#[verifier::external_body]
pub struct ExTomlValue(toml::Value);

/// What a node of the tree that `toml` builds holds, with all below it.
pub uninterp spec fn toml_tree(node: toml::Value) -> TomlValueView;

/// What `toml` makes of a text: the root of its tree, or nothing where the
/// text is not TOML.
pub uninterp spec fn toml_parsed(text: Seq<char>) -> Option<TomlValueView>;

/// `toml::from_str`, asked for a `toml::Value`: parses a whole document.
/// The result depends on the text alone. Where the text is refused, the
/// words in which `toml` says why are handed back.
#[verifier::external_body]
fn toml_parse(text: &str) -> (r: Result<toml::Value, String>)
    ensures
        match r {
            Ok(root) => toml_parsed(text@) == Some(toml_tree(root)),
            Err(_) => toml_parsed(text@) is None,
        },
{
    toml::from_str::<toml::Value>(text).map_err(|e| e.to_string())
}

/// `toml::Value::as_str`: the text of a string node, `None` of any other.
#[verifier::external_body]
fn toml_as_str(node: &toml::Value) -> (r: Option<&str>)
    ensures
        r.deep_view() == match toml_tree(*node) {
            TomlValueView::String(s) => Some(s),
            _ => None,
        },
{
    node.as_str()
}

/// `toml::Value::as_integer`: the number of an integer node, `None` of
/// any other.
#[verifier::external_body]
fn toml_as_integer(node: &toml::Value) -> (r: Option<i64>)
    ensures
        r == match toml_tree(*node) {
            TomlValueView::Integer(i) => Some(i),
            _ => None,
        },
{
    node.as_integer()
}

/// `toml::Value::as_float`: the float of a float node, as its bits, `None`
/// of any other.
#[verifier::external_body]
fn toml_as_float_bits(node: &toml::Value) -> (r: Option<u64>)
    ensures
        r == match toml_tree(*node) {
            TomlValueView::Float(bits) => Some(bits),
            _ => None,
        },
{
    node.as_float().map(|x| x.to_bits())
}

/// `toml::Value::as_bool`: the truth value of a boolean node, `None` of
/// any other.
#[verifier::external_body]
fn toml_as_bool(node: &toml::Value) -> (r: Option<bool>)
    ensures
        r == match toml_tree(*node) {
            TomlValueView::Boolean(b) => Some(b),
            _ => None,
        },
{
    node.as_bool()
}

/// `toml::Value::as_datetime`: the date and time of such a node, as
/// `toml` writes it, `None` of any other.
#[verifier::external_body]
fn toml_as_datetime_text(node: &toml::Value) -> (r: Option<String>)
    ensures
        r.deep_view() == match toml_tree(*node) {
            TomlValueView::Datetime(text) => Some(text),
            _ => None,
        },
{
    node.as_datetime().map(|d| d.to_string())
}

/// `toml::Value::as_array`: the items of an array node, `None` of any
/// other.
#[verifier::external_body]
fn toml_as_array(node: &toml::Value) -> (r: Option<&Vec<toml::Value>>)
    ensures
        match toml_tree(*node) {
            TomlValueView::Array(items) => r is Some && r->0@.len() == items.len() && forall|i: int|
                0 <= i < items.len() ==> toml_tree(#[trigger] r->0@[i]) == items[i],
            _ => r is None,
        },
{
    node.as_array()
}

/// `toml::Value::as_table`, and `toml::map::Map::iter` on what it gives:
/// the entries of a table node in the order in which the map hands them
/// out, `None` of any other node.
#[verifier::external_body]
fn toml_as_entries(node: &toml::Value) -> (r: Option<Vec<(&String, &toml::Value)>>)
    ensures
        match toml_tree(*node) {
            TomlValueView::Table(entries) => r is Some && r->0@.len() == entries.len() && forall|i: int|
                0 <= i < entries.len() ==> (#[trigger] r->0@[i]).0@ == entries[i].0 && toml_tree(*r->0@[i].1)
                    == entries[i].1,
            _ => r is None,
        },
{
    node.as_table().map(|t| t.iter().collect())
}

/// The library's own copy of the tree below `node`.
fn value_from_toml(node: &toml::Value) -> (r: TomlValue)
    ensures
        r.deep_view() == toml_tree(*node),
    decreases toml_tree(*node),
{
    if let Some(s) = toml_as_str(node) {
        return TomlValue::String(s.to_owned());
    }
    if let Some(i) = toml_as_integer(node) {
        return TomlValue::Integer(i);
    }
    if let Some(bits) = toml_as_float_bits(node) {
        return TomlValue::Float(bits);
    }
    if let Some(b) = toml_as_bool(node) {
        return TomlValue::Boolean(b);
    }
    if let Some(text) = toml_as_datetime_text(node) {
        return TomlValue::Datetime(text);
    }
    if let Some(items) = toml_as_array(node) {
        let ghost views = toml_tree(*node)->Array_0;
        let mut out: Vec<TomlValue> = Vec::new();
        let mut i: usize = 0;
        while i < items.len()
            invariant
                i <= items.len(),
                out.len() == i,
                toml_tree(*node) == TomlValueView::Array(views),
                items@.len() == views.len(),
                forall|j: int| 0 <= j < views.len() ==> toml_tree(#[trigger] items@[j]) == views[j],
                forall|j: int| 0 <= j < i ==> (#[trigger] out@[j]).deep_view() == views[j],
            decreases items.len() - i,
        {
            proof {
                let tree = toml_tree(*node);
                assert(toml_tree(items@[i as int]) == tree->Array_0[i as int]);
                assert(decreases_to!(tree => tree->Array_0));
                assert(decreases_to!(tree->Array_0 => tree->Array_0[i as int]));
            }
            out.push(value_from_toml(&items[i]));
            i = i + 1;
        }
        let r = TomlValue::Array(out);
        assert(r.deep_view()->Array_0 =~= views);
        return r;
    }
    match toml_as_entries(node) {
        Some(entries) => {
            let ghost views = toml_tree(*node)->Table_0;
            let mut out: Vec<(String, TomlValue)> = Vec::new();
            let mut i: usize = 0;
            while i < entries.len()
                invariant
                    i <= entries.len(),
                    out.len() == i,
                    toml_tree(*node) == TomlValueView::Table(views),
                    entries@.len() == views.len(),
                    forall|j: int|
                        0 <= j < views.len() ==> (#[trigger] entries@[j]).0@ == views[j].0 && toml_tree(
                            *entries@[j].1,
                        ) == views[j].1,
                    forall|j: int|
                        0 <= j < i ==> (#[trigger] out@[j]).0@ == views[j].0 && out@[j].1.deep_view()
                            == views[j].1,
                decreases entries.len() - i,
            {
                proof {
                    let tree = toml_tree(*node);
                    assert(toml_tree(*entries@[i as int].1) == tree->Table_0[i as int].1);
                    assert(decreases_to!(tree => tree->Table_0));
                    assert(decreases_to!(tree->Table_0 => tree->Table_0[i as int]));
                    assert(decreases_to!(tree->Table_0[i as int] => tree->Table_0[i as int].1));
                }
                let key = entries[i].0.clone();
                let value = value_from_toml(entries[i].1);
                out.push((key, value));
                i = i + 1;
            }
            let r = TomlValue::Table(out);
            assert(r.deep_view()->Table_0 =~= views);
            r
        },
        None => {
            proof {
                match toml_tree(*node) {
                    TomlValueView::String(_) => {},
                    TomlValueView::Integer(_) => {},
                    TomlValueView::Float(_) => {},
                    TomlValueView::Boolean(_) => {},
                    TomlValueView::Datetime(_) => {},
                    TomlValueView::Array(_) => {},
                    TomlValueView::Table(_) => {},
                }
            }
            vstd::pervasive::unreached()
        },
    }
}

/// `std::str::from_utf8`: the bytes as text, where they are UTF-8.
#[verifier::external_body]
pub(crate) fn utf8_text(bytes: &[u8]) -> (r: Result<&str, std::str::Utf8Error>)
    ensures
        match r {
            Ok(text) => vstd::utf8::valid_utf8(bytes@) && text@ == vstd::utf8::decode_utf8(bytes@),
            Err(_) => !vstd::utf8::valid_utf8(bytes@),
        },
{
    std::str::from_utf8(bytes)
}

/// Reads a TOML text into its tree.
pub fn parse(text: &str) -> (r: Result<TomlValue, String>)
    ensures
        match r {
            Ok(root) => toml_parsed(text@) == Some(root.deep_view()),
            Err(_) => toml_parsed(text@) is None,
        },
{
    match toml_parse(text) {
        Ok(root) => Ok(value_from_toml(&root)),
        Err(e) => Err(e),
    }
}

} // verus!
