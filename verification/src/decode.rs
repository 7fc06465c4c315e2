//! The small steps of decoding: finding a key in a table, and reading a
//! value as text, as a switch, as a number, as a list.
//!
//! Each step is stated twice: as a spec function that says what a value
//! decodes to, and as an executable function that does it. A key that the
//! manifest's format does not know is passed over, and a value of the
//! wrong kind is an error wherever it stands.

use vstd::prelude::*;
use crate::error::{Error, ErrorView};
use crate::text::followed_by;
use crate::value::{lemma_array_view, lemma_table_view, TomlValue, TomlValueView};

verus! {

/// The value under `key` in a table, if the key is there.
pub open spec fn lookup(entries: Seq<(Seq<char>, TomlValueView)>, key: Seq<char>) -> Option<TomlValueView>
    decreases entries.len(),
{
    if entries.len() == 0 {
        None
    } else if entries[0].0 == key {
        Some(entries[0].1)
    } else {
        lookup(entries.drop_first(), key)
    }
}

/// The value of a key that has one spelling.
pub open spec fn at(entries: Seq<(Seq<char>, TomlValueView)>, key: Seq<char>) -> Result<
    Option<TomlValueView>,
    (),
> {
    Ok(lookup(entries, key))
}

/// The value of a key that may be spelled with dashes or with
/// underscores. A table that has both spellings is refused.
pub open spec fn at_either(
    entries: Seq<(Seq<char>, TomlValueView)>,
    key: Seq<char>,
    alias: Seq<char>,
) -> Result<Option<TomlValueView>, ()> {
    match (lookup(entries, key), lookup(entries, alias)) {
        (Some(_), Some(_)) => Err(()),
        (Some(v), None) => Ok(Some(v)),
        (None, found) => Ok(found),
    }
}

/// A key that stands for `default` where it is left out.
pub open spec fn defaulted<T>(value: Result<Option<T>, ()>, default: T) -> Result<T, ()> {
    match value {
        Ok(Some(x)) => Ok(x),
        Ok(None) => Ok(default),
        Err(_) => Err(()),
    }
}

/// A key that must be there.
pub open spec fn demanded<T>(value: Result<Option<T>, ()>) -> Result<T, ()> {
    match value {
        Ok(Some(x)) => Ok(x),
        _ => Err(()),
    }
}

/// A value read as text: only a string is one.
pub open spec fn string_of(v: TomlValueView) -> Result<Seq<char>, ()> {
    match v {
        TomlValueView::String(s) => Ok(s),
        _ => Err(()),
    }
}

/// A value read as a switch: only a boolean is one.
pub open spec fn bool_of(v: TomlValueView) -> Result<bool, ()> {
    match v {
        TomlValueView::Boolean(b) => Ok(b),
        _ => Err(()),
    }
}

/// A value read as a small count: an integer from 0 to 65535.
pub open spec fn u16_of(v: TomlValueView) -> Result<u16, ()> {
    match v {
        TomlValueView::Integer(i) if 0 <= i <= u16::MAX => Ok(i as u16),
        _ => Err(()),
    }
}

/// A value kept as it is.
pub open spec fn any_of(v: TomlValueView) -> Result<TomlValueView, ()> {
    Ok(v)
}

/// A value read as a list: an array each item of which decodes.
pub open spec fn list_of<T>(v: TomlValueView, of: spec_fn(TomlValueView) -> Result<T, ()>) -> Result<
    Seq<T>,
    (),
> {
    match v {
        TomlValueView::Array(items) => if forall|i: int| 0 <= i < items.len() ==> (#[trigger] of(items[i])) is Ok {
            Ok(Seq::new(items.len(), |i: int| of(items[i])->Ok_0))
        } else {
            Err(())
        },
        _ => Err(()),
    }
}

/// A value read as a list of texts.
pub open spec fn strings_of(v: TomlValueView) -> Result<Seq<Seq<char>>, ()> {
    list_of(v, |item: TomlValueView| string_of(item))
}

/// A value read as a table of named things: a table each value of which
/// decodes. The names keep their order.
pub open spec fn table_of<T>(v: TomlValueView, of: spec_fn(TomlValueView) -> Result<T, ()>) -> Result<
    Seq<(Seq<char>, T)>,
    (),
> {
    match v {
        TomlValueView::Table(entries) => if forall|i: int|
            0 <= i < entries.len() ==> (#[trigger] of(entries[i].1)) is Ok {
            Ok(Seq::new(entries.len(), |i: int| (entries[i].0, of(entries[i].1)->Ok_0)))
        } else {
            Err(())
        },
        _ => Err(()),
    }
}

/// Whether what a decoder gave is what the format says: the value, or an
/// error of the kind `Parse`.
pub open spec fn agrees<T: DeepView>(r: Result<T, Error>, expected: Result<T::V, ()>) -> bool {
    match expected {
        Ok(x) => r is Ok && r->Ok_0.deep_view() == x,
        Err(_) => r is Err && r->Err_0 is Parse,
    }
}

/// Whether `s` reads `word`.
pub fn reads(s: &String, word: &str) -> (r: bool)
    ensures
        r == (s@ == word@),
{
    *s == word.to_owned()
}

/// The list without items.
pub fn empty<T: DeepView>() -> (r: Vec<T>)
    ensures
        r.deep_view() == Seq::<T::V>::empty(),
{
    let r: Vec<T> = Vec::new();
    assert(r.deep_view() =~= Seq::<T::V>::empty());
    r
}

/// The error for a key that must be there and is not: it names the key.
pub fn missing(key: &str) -> (r: Error)
    ensures
        r@ == ErrorView::Parse("missing field "@ + key@),
{
    Error::Parse(followed_by("missing field ", key))
}

/// The error for a value of the wrong kind: it says what was expected.
pub fn expected(what: &str) -> (r: Error)
    ensures
        r@ == ErrorView::Parse("invalid type: expected "@ + what@),
{
    Error::Parse(followed_by("invalid type: expected ", what))
}

/// The value under `key` in a table, if the key is there.
pub fn find<'a>(entries: &'a Vec<(String, TomlValue)>, key: &str) -> (r: Option<&'a TomlValue>)
    ensures
        r.deep_view() == lookup(entries.deep_view(), key@),
{
    let wanted = key.to_owned();
    let mut i: usize = 0;
    assert(entries.deep_view().skip(0) =~= entries.deep_view());
    while i < entries.len()
        invariant
            i <= entries.len(),
            wanted@ == key@,
            lookup(entries.deep_view(), key@) == lookup(entries.deep_view().skip(i as int), key@),
        decreases entries.len() - i,
    {
        let ghost rest = entries.deep_view().skip(i as int);
        assert(rest[0] == entries[i as int].deep_view());
        assert(entries[i as int].deep_view() == (entries[i as int].0.deep_view(), entries[i as int].1.deep_view()));
        if entries[i].0 == wanted {
            assert(rest[0].0 == key@);
            assert(lookup(rest, key@) == Some(rest[0].1));
            return Some(&entries[i].1);
        }
        assert(rest[0].0 != key@);
        assert(rest.drop_first() =~= entries.deep_view().skip(i + 1));
        i = i + 1;
    }
    None
}

/// The value of a key that may be spelled in two ways.
pub fn find_either<'a>(entries: &'a Vec<(String, TomlValue)>, key: &str, alias: &str) -> (r: Result<
    Option<&'a TomlValue>,
    Error,
>)
    ensures
        match at_either(entries.deep_view(), key@, alias@) {
            Ok(found) => r is Ok && r->Ok_0.deep_view() == found,
            Err(_) => r is Err && r->Err_0 is Parse,
        },
{
    match (find(entries, key), find(entries, alias)) {
        (Some(_), Some(_)) => Err(Error::Parse(followed_by("duplicate field ", key))),
        (Some(v), None) => Ok(Some(v)),
        (None, found) => Ok(found),
    }
}

/// The entries of a table; any other value is refused.
pub fn decode_entries<'a>(v: &'a TomlValue, what: &str) -> (r: Result<&'a Vec<(String, TomlValue)>, Error>)
    ensures
        match v.deep_view() {
            TomlValueView::Table(entries) => r is Ok && r->Ok_0.deep_view() == entries,
            _ => r is Err && r->Err_0 is Parse,
        },
{
    match v {
        TomlValue::Table(entries) => {
            proof {
                lemma_table_view(*v);
            }
            Ok(entries)
        },
        _ => Err(expected(what)),
    }
}

/// The items of an array; any other value is refused.
pub fn decode_items<'a>(v: &'a TomlValue, what: &str) -> (r: Result<&'a Vec<TomlValue>, Error>)
    ensures
        match v.deep_view() {
            TomlValueView::Array(items) => r is Ok && r->Ok_0.deep_view() == items,
            _ => r is Err && r->Err_0 is Parse,
        },
{
    match v {
        TomlValue::Array(items) => {
            proof {
                lemma_array_view(*v);
            }
            Ok(items)
        },
        _ => Err(expected(what)),
    }
}

/// Reads a value as text.
pub fn decode_string(v: &TomlValue) -> (r: Result<String, Error>)
    ensures
        agrees(r, string_of(v.deep_view())),
{
    match v {
        TomlValue::String(s) => Ok(s.clone()),
        _ => Err(expected("a string")),
    }
}

/// Reads a value as a switch.
pub fn decode_bool(v: &TomlValue) -> (r: Result<bool, Error>)
    ensures
        agrees(r, bool_of(v.deep_view())),
{
    match v {
        TomlValue::Boolean(b) => Ok(*b),
        _ => Err(expected("a boolean")),
    }
}

/// Reads a value as a small count.
pub fn decode_u16(v: &TomlValue) -> (r: Result<u16, Error>)
    ensures
        agrees(r, u16_of(v.deep_view())),
{
    match v {
        TomlValue::Integer(i) => {
            if 0 <= *i && *i <= 65535 {
                Ok(*i as u16)
            } else {
                Err(expected("a number from 0 to 65535"))
            }
        },
        _ => Err(expected("an integer")),
    }
}

/// Keeps a value as it is.
pub fn decode_any(v: &TomlValue) -> (r: Result<TomlValue, Error>)
    ensures
        agrees(r, any_of(v.deep_view())),
{
    Ok(v.clone())
}

/// Reads a value as a list of texts.
pub fn decode_strings(v: &TomlValue) -> (r: Result<Vec<String>, Error>)
    ensures
        agrees(r, strings_of(v.deep_view())),
{
    let items = decode_items(v, "a list of strings")?;
    let ghost of = |item: TomlValueView| string_of(item);
    let mut out: Vec<String> = Vec::new();
    let mut i: usize = 0;
    while i < items.len()
        invariant
            i <= items.len(),
            out.len() == i,
            v.deep_view() == TomlValueView::Array(items.deep_view()),
            of == (|item: TomlValueView| string_of(item)),
            forall|j: int| 0 <= j < i ==> (#[trigger] of(items.deep_view()[j])) == Ok::<Seq<char>, ()>(out@[j]@),
        decreases items.len() - i,
    {
        match decode_string(&items[i]) {
            Ok(s) => out.push(s),
            Err(e) => {
                assert(of(items.deep_view()[i as int]) is Err);
                return Err(e);
            },
        }
        i = i + 1;
    }
    assert(out.deep_view() =~= strings_of(v.deep_view())->Ok_0);
    Ok(out)
}

/// A text, under a key that may be left out.
pub open spec fn opt_string_of(found: Result<Option<TomlValueView>, ()>) -> Result<Option<Seq<char>>, ()> {
    match found {
        Ok(Some(v)) => match string_of(v) {
            Ok(x) => Ok(Some(x)),
            Err(_) => Err(()),
        },
        Ok(None) => Ok(None),
        Err(_) => Err(()),
    }
}

/// Reads a text, if the key was found.
pub fn decode_opt_string(found: Option<&TomlValue>) -> (r: Result<Option<String>, Error>)
    ensures
        agrees(r, opt_string_of(Ok(found.deep_view()))),
{
    match found {
        Some(v) => match decode_string(v) {
            Ok(x) => Ok(Some(x)),
            Err(e) => Err(e),
        },
        None => Ok(None),
    }
}

/// A switch, under a key that may be left out.
pub open spec fn opt_bool_of(found: Result<Option<TomlValueView>, ()>) -> Result<Option<bool>, ()> {
    match found {
        Ok(Some(v)) => match bool_of(v) {
            Ok(x) => Ok(Some(x)),
            Err(_) => Err(()),
        },
        Ok(None) => Ok(None),
        Err(_) => Err(()),
    }
}

/// Reads a switch, if the key was found.
pub fn decode_opt_bool(found: Option<&TomlValue>) -> (r: Result<Option<bool>, Error>)
    ensures
        agrees(r, opt_bool_of(Ok(found.deep_view()))),
{
    match found {
        Some(v) => match decode_bool(v) {
            Ok(x) => Ok(Some(x)),
            Err(e) => Err(e),
        },
        None => Ok(None),
    }
}

/// A small count, under a key that may be left out.
pub open spec fn opt_u16_of(found: Result<Option<TomlValueView>, ()>) -> Result<Option<u16>, ()> {
    match found {
        Ok(Some(v)) => match u16_of(v) {
            Ok(x) => Ok(Some(x)),
            Err(_) => Err(()),
        },
        Ok(None) => Ok(None),
        Err(_) => Err(()),
    }
}

/// Reads a small count, if the key was found.
pub fn decode_opt_u16(found: Option<&TomlValue>) -> (r: Result<Option<u16>, Error>)
    ensures
        agrees(r, opt_u16_of(Ok(found.deep_view()))),
{
    match found {
        Some(v) => match decode_u16(v) {
            Ok(x) => Ok(Some(x)),
            Err(e) => Err(e),
        },
        None => Ok(None),
    }
}

/// A list of texts, under a key that may be left out.
pub open spec fn opt_strings_of(found: Result<Option<TomlValueView>, ()>) -> Result<Option<Seq<Seq<char>>>, ()> {
    match found {
        Ok(Some(v)) => match strings_of(v) {
            Ok(x) => Ok(Some(x)),
            Err(_) => Err(()),
        },
        Ok(None) => Ok(None),
        Err(_) => Err(()),
    }
}

/// Reads a list of texts, if the key was found.
pub fn decode_opt_strings(found: Option<&TomlValue>) -> (r: Result<Option<Vec<String>>, Error>)
    ensures
        agrees(r, opt_strings_of(Ok(found.deep_view()))),
{
    match found {
        Some(v) => match decode_strings(v) {
            Ok(x) => Ok(Some(x)),
            Err(e) => Err(e),
        },
        None => Ok(None),
    }
}

/// Any value, under a key that may be left out.
pub open spec fn opt_any_of(found: Result<Option<TomlValueView>, ()>) -> Result<Option<TomlValueView>, ()> {
    match found {
        Ok(Some(v)) => match any_of(v) {
            Ok(x) => Ok(Some(x)),
            Err(_) => Err(()),
        },
        Ok(None) => Ok(None),
        Err(_) => Err(()),
    }
}

/// Reads any value, if the key was found.
pub fn decode_opt_any(found: Option<&TomlValue>) -> (r: Result<Option<TomlValue>, Error>)
    ensures
        agrees(r, opt_any_of(Ok(found.deep_view()))),
{
    match found {
        Some(v) => match decode_any(v) {
            Ok(x) => Ok(Some(x)),
            Err(e) => Err(e),
        },
        None => Ok(None),
    }
}

} // verus!
