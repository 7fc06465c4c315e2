//! A parsed TOML document: the tree of tables, arrays and scalars from which
//! the manifest is decoded, and in which free-form metadata is kept.

use vstd::prelude::*;

verus! {

/// One node of a TOML document.
#[derive(Debug, PartialEq)]
pub enum TomlValue {
    String(String),
    Integer(i64),
    /// A float, held as the bits of its IEEE 754 double.
    Float(u64),
    Boolean(bool),
    /// A date, a time or both, held as written in RFC 3339.
    Datetime(String),
    Array(Vec<TomlValue>),
    /// The entries of a table.
    Table(Vec<(String, TomlValue)>),
}

/// What a `TomlValue` holds, as plain values.
pub enum TomlValueView {
    String(Seq<char>),
    Integer(i64),
    Float(u64),
    Boolean(bool),
    Datetime(Seq<char>),
    Array(Seq<TomlValueView>),
    Table(Seq<(Seq<char>, TomlValueView)>),
}

impl DeepView for TomlValue {
    type V = TomlValueView;

    open spec fn deep_view(&self) -> TomlValueView
        decreases self,
    {
        match self {
            TomlValue::String(s) => TomlValueView::String(s@),
            TomlValue::Integer(i) => TomlValueView::Integer(*i),
            TomlValue::Float(f) => TomlValueView::Float(*f),
            TomlValue::Boolean(b) => TomlValueView::Boolean(*b),
            TomlValue::Datetime(d) => TomlValueView::Datetime(d@),
            TomlValue::Array(a) => TomlValueView::Array(
                Seq::new(a@.len(), |i: int| if 0 <= i < a@.len() { a@[i].deep_view() } else { TomlValueView::Boolean(false) }),
            ),
            TomlValue::Table(t) => TomlValueView::Table(
                Seq::new(t@.len(), |i: int| if 0 <= i < t@.len() { (t@[i].0@, t@[i].1.deep_view()) } else { (Seq::empty(), TomlValueView::Boolean(false)) }),
            ),
        }
    }
}

/// An array's view holds the views of its items.
pub proof fn lemma_array_view(v: TomlValue)
    requires
        v is Array,
    ensures
        v.deep_view() == TomlValueView::Array(v->Array_0.deep_view()),
{
    let a = v.deep_view()->Array_0;
    let b = v->Array_0.deep_view();
    reveal_with_fuel(<TomlValue as DeepView>::deep_view, 2);
    assert(a.len() == b.len());
    assert forall|i: int| 0 <= i < a.len() implies a[i] == b[i] by {
        assert(b[i] == v->Array_0@[i].deep_view());
    }
    assert(a =~= b);
}

/// A table's view holds the views of its entries.
pub proof fn lemma_table_view(v: TomlValue)
    requires
        v is Table,
    ensures
        v.deep_view() == TomlValueView::Table(v->Table_0.deep_view()),
{
    let a = v.deep_view()->Table_0;
    let b = v->Table_0.deep_view();
    reveal_with_fuel(<TomlValue as DeepView>::deep_view, 2);
    assert(a.len() == b.len());
    assert forall|i: int| 0 <= i < a.len() implies a[i] == b[i] by {
        assert(b[i] == v->Table_0@[i].deep_view());
        assert(v->Table_0@[i].deep_view() == (v->Table_0@[i].0.deep_view(), v->Table_0@[i].1.deep_view()));
    }
    assert(a =~= b);
}

impl TomlValue {
    /// A copy of the whole tree below this node.
    pub fn duplicate(&self) -> (r: TomlValue)
        ensures
            r.deep_view() == self.deep_view(),
        decreases self,
    {
        match self {
            TomlValue::String(s) => TomlValue::String(s.clone()),
            TomlValue::Integer(i) => TomlValue::Integer(*i),
            TomlValue::Float(f) => TomlValue::Float(*f),
            TomlValue::Boolean(b) => TomlValue::Boolean(*b),
            TomlValue::Datetime(d) => TomlValue::Datetime(d.clone()),
            TomlValue::Array(a) => {
                let r = TomlValue::Array(duplicate_items(a));
                assert(r.deep_view()->Array_0 =~= self.deep_view()->Array_0);
                r
            },
            TomlValue::Table(t) => {
                let r = TomlValue::Table(duplicate_entries(t));
                assert(r.deep_view()->Table_0 =~= self.deep_view()->Table_0);
                r
            },
        }
    }
}

fn duplicate_items(items: &Vec<TomlValue>) -> (r: Vec<TomlValue>)
    ensures
        r.len() == items.len(),
        forall|j: int| 0 <= j < items.len() ==> r@[j].deep_view() == items@[j].deep_view(),
    decreases items,
{
    let mut out: Vec<TomlValue> = Vec::new();
    let mut i: usize = 0;
    while i < items.len()
        invariant
            i <= items.len(),
            out.len() == i,
            forall|j: int| 0 <= j < i ==> out@[j].deep_view() == items@[j].deep_view(),
        decreases items.len() - i,
    {
        assert(decreases_to!(*items => items[i as int]));
        out.push(items[i].duplicate());
        i = i + 1;
    }
    out
}

fn duplicate_entries(entries: &Vec<(String, TomlValue)>) -> (r: Vec<(String, TomlValue)>)
    ensures
        r.len() == entries.len(),
        forall|j: int| 0 <= j < entries.len() ==> r@[j].0@ == entries@[j].0@
            && r@[j].1.deep_view() == entries@[j].1.deep_view(),
    decreases entries,
{
    let mut out: Vec<(String, TomlValue)> = Vec::new();
    let mut i: usize = 0;
    while i < entries.len()
        invariant
            i <= entries.len(),
            out.len() == i,
            forall|j: int| 0 <= j < i ==> out@[j].0@ == entries@[j].0@
                && out@[j].1.deep_view() == entries@[j].1.deep_view(),
        decreases entries.len() - i,
    {
        assert(decreases_to!(*entries => entries[i as int]));
        out.push((entries[i].0.clone(), entries[i].1.duplicate()));
        i = i + 1;
    }
    out
}

impl Clone for TomlValue {
    fn clone(&self) -> (r: Self)
        ensures
            r.deep_view() == self.deep_view(),
    {
        self.duplicate()
    }
}

} // verus!
