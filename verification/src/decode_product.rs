//! Decoding the tables of targets: `[lib]`, `[[bin]]`, `[[example]]`,
//! `[[test]]` and `[[bench]]`.

use vstd::prelude::*;
use crate::decode::{agrees, at, at_either, decode_entries, decode_items, decode_opt_bool, decode_opt_string, decode_opt_strings, defaulted, empty, expected, find, find_either, list_of, opt_bool_of, opt_string_of, opt_strings_of, reads};
use crate::edition::Edition;
use crate::error::Error;
use crate::product::{Product, ProductView};
use crate::value::{TomlValue, TomlValueView};

verus! {

/// An edition as a manifest names it: by its year, as text.
pub open spec fn edition_of(v: TomlValueView) -> Result<Edition, ()> {
    match v {
        TomlValueView::String(s) => if s == "2015"@ {
            Ok(Edition::E2015)
        } else if s == "2018"@ {
            Ok(Edition::E2018)
        } else if s == "2021"@ {
            Ok(Edition::E2021)
        } else if s == "2024"@ {
            Ok(Edition::E2024)
        } else {
            Err(())
        },
        _ => Err(()),
    }
}

/// Reads an edition: one of 2015, 2018, 2021, 2024, as a string.
pub fn decode_edition(v: &TomlValue) -> (r: Result<Edition, Error>)
    ensures
        agrees(r, edition_of(v.deep_view())),
{
    match v {
        TomlValue::String(s) => {
            if reads(s, "2015") {
                Ok(Edition::E2015)
            } else if reads(s, "2018") {
                Ok(Edition::E2018)
            } else if reads(s, "2021") {
                Ok(Edition::E2021)
            } else if reads(s, "2024") {
                Ok(Edition::E2024)
            } else {
                Err(expected("an edition: one of 2015, 2018, 2021, 2024, as a string"))
            }
        },
        _ => Err(expected("an edition: one of 2015, 2018, 2021, 2024, as a string")),
    }
}

/// An edition, under a key that may be left out.
pub open spec fn opt_edition_of(found: Result<Option<TomlValueView>, ()>) -> Result<Option<Edition>, ()> {
    match found {
        Ok(Some(v)) => match edition_of(v) {
            Ok(x) => Ok(Some(x)),
            Err(_) => Err(()),
        },
        Ok(None) => Ok(None),
        Err(_) => Err(()),
    }
}

/// Reads an edition, if the key was found.
pub fn decode_opt_edition(found: Option<&TomlValue>) -> (r: Result<Option<Edition>, Error>)
    ensures
        agrees(r, opt_edition_of(Ok(found.deep_view()))),
{
    match found {
        Some(v) => match decode_edition(v) {
            Ok(x) => Ok(Some(x)),
            Err(e) => Err(e),
        },
        None => Ok(None),
    }
}

/// A target: a table in which each key that is there has a value of its
/// kind. The checks are on unless switched off, `plugin` and `proc-macro`
/// off unless switched on.
pub open spec fn product_of(v: TomlValueView) -> Result<ProductView, ()> {
    match v {
        TomlValueView::Table(t) => {
            let path = opt_string_of(at(t, "path"@));
            let name = opt_string_of(at(t, "name"@));
            let test = defaulted(opt_bool_of(at(t, "test"@)), true);
            let doctest = defaulted(opt_bool_of(at(t, "doctest"@)), true);
            let bench = defaulted(opt_bool_of(at(t, "bench"@)), true);
            let doc = defaulted(opt_bool_of(at(t, "doc"@)), true);
            let plugin = defaulted(opt_bool_of(at(t, "plugin"@)), false);
            let proc_macro = defaulted(opt_bool_of(at_either(t, "proc-macro"@, "proc_macro"@)), false);
            let harness = defaulted(opt_bool_of(at(t, "harness"@)), true);
            let edition = opt_edition_of(at(t, "edition"@));
            let required_features = defaulted(opt_strings_of(at_either(t, "required-features"@, "required_features"@)), Seq::empty());
            let crate_type = opt_strings_of(at_either(t, "crate-type"@, "crate_type"@));
            if path is Ok && name is Ok && test is Ok && doctest is Ok && bench is Ok && doc is Ok && plugin is Ok && proc_macro is Ok && harness is Ok && edition is Ok && required_features is Ok && crate_type is Ok {
                Ok(
                    ProductView {
                        path: path->Ok_0,
                        name: name->Ok_0,
                        test: test->Ok_0,
                        doctest: doctest->Ok_0,
                        bench: bench->Ok_0,
                        doc: doc->Ok_0,
                        plugin: plugin->Ok_0,
                        proc_macro: proc_macro->Ok_0,
                        harness: harness->Ok_0,
                        edition: edition->Ok_0,
                        required_features: required_features->Ok_0,
                        crate_type: crate_type->Ok_0,
                    },
                )
            } else {
                Err(())
            }
        },
        _ => Err(()),
    }
}

/// Reads a target.
pub fn decode_product(v: &TomlValue) -> (r: Result<Product, Error>)
    ensures
        agrees(r, product_of(v.deep_view())),
{
    let t = decode_entries(v, "a table for a target")?;
    let path = decode_opt_string(find(t, "path"))?;
    let name = decode_opt_string(find(t, "name"))?;
    let test = match decode_opt_bool(find(t, "test"))? {
        Some(x) => x,
        None => true,
    };
    let doctest = match decode_opt_bool(find(t, "doctest"))? {
        Some(x) => x,
        None => true,
    };
    let bench = match decode_opt_bool(find(t, "bench"))? {
        Some(x) => x,
        None => true,
    };
    let doc = match decode_opt_bool(find(t, "doc"))? {
        Some(x) => x,
        None => true,
    };
    let plugin = match decode_opt_bool(find(t, "plugin"))? {
        Some(x) => x,
        None => false,
    };
    let proc_macro = match decode_opt_bool(find_either(t, "proc-macro", "proc_macro")?)? {
        Some(x) => x,
        None => false,
    };
    let harness = match decode_opt_bool(find(t, "harness"))? {
        Some(x) => x,
        None => true,
    };
    let edition = decode_opt_edition(find(t, "edition"))?;
    let required_features = match decode_opt_strings(find_either(t, "required-features", "required_features")?)? {
        Some(x) => x,
        None => empty(),
    };
    let crate_type = decode_opt_strings(find_either(t, "crate-type", "crate_type")?)?;
    Ok(Product {
        path,
        name,
        test,
        doctest,
        bench,
        doc,
        plugin,
        proc_macro,
        harness,
        edition,
        required_features,
        crate_type,
    })
}

/// A target, under a key that may be left out.
pub open spec fn opt_product_of(found: Result<Option<TomlValueView>, ()>) -> Result<Option<ProductView>, ()> {
    match found {
        Ok(Some(v)) => match product_of(v) {
            Ok(x) => Ok(Some(x)),
            Err(_) => Err(()),
        },
        Ok(None) => Ok(None),
        Err(_) => Err(()),
    }
}

/// Reads a target, if the key was found.
pub fn decode_opt_product(found: Option<&TomlValue>) -> (r: Result<Option<Product>, Error>)
    ensures
        agrees(r, opt_product_of(Ok(found.deep_view()))),
{
    match found {
        Some(v) => match decode_product(v) {
            Ok(x) => Ok(Some(x)),
            Err(e) => Err(e),
        },
        None => Ok(None),
    }
}

/// A list of targets: an array of tables.
pub open spec fn products_of(v: TomlValueView) -> Result<Seq<ProductView>, ()> {
    list_of(v, |item: TomlValueView| product_of(item))
}

/// Reads a list of targets.
pub fn decode_products(v: &TomlValue) -> (r: Result<Vec<Product>, Error>)
    ensures
        agrees(r, products_of(v.deep_view())),
{
    let items = decode_items(v, "an array of targets")?;
    let ghost of = |item: TomlValueView| product_of(item);
    let mut out: Vec<Product> = Vec::new();
    let mut i: usize = 0;
    while i < items.len()
        invariant
            i <= items.len(),
            out.len() == i,
            v.deep_view() == TomlValueView::Array(items.deep_view()),
            of == (|item: TomlValueView| product_of(item)),
            forall|j: int| 0 <= j < i ==> (#[trigger] of(items.deep_view()[j])) == Ok::<ProductView, ()>(out@[j].deep_view()),
        decreases items.len() - i,
    {
        match decode_product(&items[i]) {
            Ok(item) => out.push(item),
            Err(e) => {
                assert(of(items.deep_view()[i as int]) is Err);
                return Err(e);
            },
        }
        i = i + 1;
    }
    assert(out.deep_view() =~= products_of(v.deep_view())->Ok_0);
    Ok(out)
}

/// A list of targets, under a key that may be left out.
pub open spec fn opt_products_of(found: Result<Option<TomlValueView>, ()>) -> Result<Option<Seq<ProductView>>, ()> {
    match found {
        Ok(Some(v)) => match products_of(v) {
            Ok(x) => Ok(Some(x)),
            Err(_) => Err(()),
        },
        Ok(None) => Ok(None),
        Err(_) => Err(()),
    }
}

/// Reads a list of targets, if the key was found.
pub fn decode_opt_products(found: Option<&TomlValue>) -> (r: Result<Option<Vec<Product>>, Error>)
    ensures
        agrees(r, opt_products_of(Ok(found.deep_view()))),
{
    match found {
        Some(v) => match decode_products(v) {
            Ok(x) => Ok(Some(x)),
            Err(e) => Err(e),
        },
        None => Ok(None),
    }
}

} // verus!
