//! One thing that a package builds: its library, a binary, a test, an
//! example or a benchmark.

use vstd::prelude::*;
use crate::edition::Edition;

verus! {

impl View for Edition {
    type V = Edition;

    open spec fn view(&self) -> Edition {
        *self
    }
}

impl DeepView for Edition {
    type V = Edition;

    open spec fn deep_view(&self) -> Edition {
        *self
    }
}

/// A build target. The manifest calls the platform that is built for a
/// target as well, so this one goes by another name.
#[derive(Debug, Clone, PartialEq, Eq)]
pub struct Product {
    /// Where the target's root source file lies, relative to the manifest.
    pub path: Option<String>,
    /// The name of the library or binary that is built.
    pub name: Option<String>,
    /// Whether the target is unit-tested.
    pub test: bool,
    /// Whether the documentation's examples are tested; only a library has them.
    pub doctest: bool,
    /// Whether the target is benchmarked.
    pub bench: bool,
    /// Whether the target is documented.
    pub doc: bool,
    /// Whether the target is a compiler plugin.
    pub plugin: bool,
    /// Whether the target is a procedural macro.
    pub proc_macro: bool,
    /// Whether the test harness is built in.
    pub harness: bool,
    /// The edition the target is written in, where it differs from the package's.
    pub edition: Option<Edition>,
    /// The features without which the target is not built. A library has none.
    pub required_features: Vec<String>,
    /// The kinds of artifact to build.
    pub crate_type: Option<Vec<String>>,
}

/// What a `Product` holds, as plain values.
pub struct ProductView {
    pub path: Option<Seq<char>>,
    pub name: Option<Seq<char>>,
    pub test: bool,
    pub doctest: bool,
    pub bench: bool,
    pub doc: bool,
    pub plugin: bool,
    pub proc_macro: bool,
    pub harness: bool,
    pub edition: Option<Edition>,
    pub required_features: Seq<Seq<char>>,
    pub crate_type: Option<Seq<Seq<char>>>,
}

impl View for Product {
    type V = ProductView;

    open spec fn view(&self) -> ProductView {
        ProductView {
            path: self.path.deep_view(),
            name: self.name.deep_view(),
            test: self.test,
            doctest: self.doctest,
            bench: self.bench,
            doc: self.doc,
            plugin: self.plugin,
            proc_macro: self.proc_macro,
            harness: self.harness,
            edition: self.edition,
            required_features: self.required_features.deep_view(),
            crate_type: self.crate_type.deep_view(),
        }
    }
}

impl DeepView for Product {
    type V = ProductView;

    open spec fn deep_view(&self) -> ProductView {
        self@
    }
}
impl ProductView {
    /// The target of which nothing is known: every check is on, the edition is the first.
    pub open spec fn unnamed() -> Self {
        ProductView {
            path: None,
            name: None,
            test: true,
            doctest: true,
            bench: true,
            doc: true,
            plugin: false,
            proc_macro: false,
            harness: true,
            edition: Some(Edition::E2015),
            required_features: Seq::empty(),
            crate_type: None,
        }
    }
}

impl Default for Product {
    /// The target of which nothing is known: every check is on, the edition is the first.
    fn default() -> (r: Self)
        ensures
            r@ == ProductView::unnamed(),
    {
        let r = Product {
            path: None,
            name: None,
            test: true,
            doctest: true,
            bench: true,
            doc: true,
            plugin: false,
            proc_macro: false,
            harness: true,
            edition: Some(Edition::E2015),
            required_features: Vec::new(),
            crate_type: None,
        };
        assert(r.required_features.deep_view() =~= Seq::empty());
        r
    }
}
} // verus!
