//! The `[package]` table.

use vstd::prelude::*;
use crate::edition::Edition;
use crate::inherit::{MaybeInherited, True};
use crate::value::TomlValue;

verus! {

/// A key that takes either a path or a switch.
#[derive(Clone, Debug, Eq, PartialEq)]
pub enum StringOrBool {
    String(String),
    Bool(bool),
}

/// What a `StringOrBool` holds, as plain values.
pub enum StringOrBoolView {
    String(Seq<char>),
    Bool(bool),
}

impl View for StringOrBool {
    type V = StringOrBoolView;

    open spec fn view(&self) -> StringOrBoolView {
        match self {
            StringOrBool::String(s) => StringOrBoolView::String(s@),
            StringOrBool::Bool(b) => StringOrBoolView::Bool(*b),
        }
    }
}

impl DeepView for StringOrBool {
    type V = StringOrBoolView;

    open spec fn deep_view(&self) -> StringOrBoolView {
        self@
    }
}

/// Where the package may be published: anywhere or nowhere, or to the
/// registries named.
#[derive(Debug, Clone, Eq, PartialEq)]
pub enum Publish {
    Flag(bool),
    Registry(Vec<String>),
}

/// What a `Publish` holds, as plain values.
pub enum PublishView {
    Flag(bool),
    Registry(Seq<Seq<char>>),
}

impl PublishView {
    /// Whether the package may be published at all.
    pub open spec fn allowed(self) -> bool {
        match self {
            PublishView::Flag(flag) => flag,
            PublishView::Registry(registries) => registries.len() > 0,
        }
    }
}

impl View for Publish {
    type V = PublishView;

    open spec fn view(&self) -> PublishView {
        match self {
            Publish::Flag(b) => PublishView::Flag(*b),
            Publish::Registry(r) => PublishView::Registry(r.deep_view()),
        }
    }
}

impl DeepView for Publish {
    type V = PublishView;

    open spec fn deep_view(&self) -> PublishView {
        self@
    }
}

impl Default for Publish {
    /// A package may be published unless it says otherwise.
    fn default() -> (r: Self)
        ensures
            r@ == PublishView::Flag(true),
    {
        Publish::Flag(true)
    }
}

impl Publish {
    /// Whether the package may be published at all.
    pub fn allowed(&self) -> (r: bool)
        ensures
            r == self@.allowed(),
    {
        match self {
            Publish::Flag(flag) => *flag,
            Publish::Registry(registries) => registries.len() > 0,
        }
    }
}

/// The version of the feature resolver.
#[derive(Debug, PartialEq, Eq, Copy, Clone, Hash, Structural)]
pub enum Resolver {
    V1,
    V2,
}

impl Default for Resolver {
    fn default() -> (r: Self)
        ensures
            r == Resolver::V1,
    {
        Resolver::V1
    }
}

impl View for Resolver {
    type V = Resolver;

    open spec fn view(&self) -> Resolver {
        *self
    }
}

impl DeepView for Resolver {
    type V = Resolver;

    open spec fn deep_view(&self) -> Resolver {
        *self
    }
}

/// The `[package]` table. `Metadata` is the type that `[package.metadata]`
/// is kept in.
#[derive(Debug, Clone, PartialEq)]
pub struct Package<Metadata = TomlValue> {
    /// The package's name. Letter case is kept as written.
    pub name: String,
    /// The edition the package is written in; absent means the first.
    pub edition: Option<MaybeInherited<Edition>>,
    /// The version as written; see `version()` for the one in effect.
    pub version: Option<MaybeInherited<String>>,
    /// The build script: its path, or whether to look for one.
    pub build: Option<StringOrBool>,
    /// The path of the workspace that the package belongs to.
    pub workspace: Option<String>,
    pub authors: Option<MaybeInherited<Vec<String>>>,
    /// The native library that the package links.
    pub links: Option<String>,
    pub description: Option<MaybeInherited<String>>,
    pub homepage: Option<MaybeInherited<String>>,
    pub documentation: Option<MaybeInherited<String>>,
    /// The readme: its path, or whether to look for one.
    pub readme: Option<MaybeInherited<StringOrBool>>,
    pub keywords: Option<MaybeInherited<Vec<String>>>,
    pub categories: Option<MaybeInherited<Vec<String>>>,
    pub license: Option<MaybeInherited<String>>,
    pub license_file: Option<MaybeInherited<String>>,
    pub repository: Option<MaybeInherited<String>>,
    /// The free-form table that tools other than cargo read.
    pub metadata: Option<Metadata>,
    /// The oldest toolchain that builds the package.
    pub rust_version: Option<MaybeInherited<String>>,
    pub exclude: Option<MaybeInherited<Vec<String>>>,
    /// The files to package, where not all are: the manifest's key of nearly this name.
    pub includes: Option<MaybeInherited<Vec<String>>>,
    /// The binary that `cargo run` picks.
    pub default_run: Option<String>,
    /// Set to `false`, keeps the library from being discovered.
    pub autolib: Option<bool>,
    /// Whether binaries are discovered; see `Manifest::autobins()`.
    pub autobins: Option<bool>,
    /// Whether examples are discovered; see `Manifest::autoexamples()`.
    pub autoexamples: Option<bool>,
    /// Whether tests are discovered; see `Manifest::autotests()`.
    pub autotests: Option<bool>,
    /// Whether benchmarks are discovered; see `Manifest::autobenches()`.
    pub autobenches: Option<bool>,
    pub publish: Option<MaybeInherited<Publish>>,
    pub resolver: Option<Resolver>,
}

/// What a `Package` holds, as plain values.
pub struct PackageView<MetadataView> {
    pub name: Seq<char>,
    pub edition: Option<MaybeInherited<Edition>>,
    pub version: Option<MaybeInherited<Seq<char>>>,
    pub build: Option<StringOrBoolView>,
    pub workspace: Option<Seq<char>>,
    pub authors: Option<MaybeInherited<Seq<Seq<char>>>>,
    pub links: Option<Seq<char>>,
    pub description: Option<MaybeInherited<Seq<char>>>,
    pub homepage: Option<MaybeInherited<Seq<char>>>,
    pub documentation: Option<MaybeInherited<Seq<char>>>,
    pub readme: Option<MaybeInherited<StringOrBoolView>>,
    pub keywords: Option<MaybeInherited<Seq<Seq<char>>>>,
    pub categories: Option<MaybeInherited<Seq<Seq<char>>>>,
    pub license: Option<MaybeInherited<Seq<char>>>,
    pub license_file: Option<MaybeInherited<Seq<char>>>,
    pub repository: Option<MaybeInherited<Seq<char>>>,
    pub metadata: Option<MetadataView>,
    pub rust_version: Option<MaybeInherited<Seq<char>>>,
    pub exclude: Option<MaybeInherited<Seq<Seq<char>>>>,
    pub includes: Option<MaybeInherited<Seq<Seq<char>>>>,
    pub default_run: Option<Seq<char>>,
    pub autolib: Option<bool>,
    pub autobins: Option<bool>,
    pub autoexamples: Option<bool>,
    pub autotests: Option<bool>,
    pub autobenches: Option<bool>,
    pub publish: Option<MaybeInherited<PublishView>>,
    pub resolver: Option<Resolver>,
}

impl<Metadata: DeepView> View for Package<Metadata> {
    type V = PackageView<Metadata::V>;

    open spec fn view(&self) -> PackageView<Metadata::V> {
        PackageView {
            name: self.name.deep_view(),
            edition: self.edition,
            version: self.version.deep_view(),
            build: self.build.deep_view(),
            workspace: self.workspace.deep_view(),
            authors: self.authors.deep_view(),
            links: self.links.deep_view(),
            description: self.description.deep_view(),
            homepage: self.homepage.deep_view(),
            documentation: self.documentation.deep_view(),
            readme: self.readme.deep_view(),
            keywords: self.keywords.deep_view(),
            categories: self.categories.deep_view(),
            license: self.license.deep_view(),
            license_file: self.license_file.deep_view(),
            repository: self.repository.deep_view(),
            metadata: self.metadata.deep_view(),
            rust_version: self.rust_version.deep_view(),
            exclude: self.exclude.deep_view(),
            includes: self.includes.deep_view(),
            default_run: self.default_run.deep_view(),
            autolib: self.autolib,
            autobins: self.autobins,
            autoexamples: self.autoexamples,
            autotests: self.autotests,
            autobenches: self.autobenches,
            publish: self.publish.deep_view(),
            resolver: self.resolver,
        }
    }
}

impl<Metadata: DeepView> DeepView for Package<Metadata> {
    type V = PackageView<Metadata::V>;

    open spec fn deep_view(&self) -> PackageView<Metadata::V> {
        self@
    }
}
impl<MetadataView> PackageView<MetadataView> {
    /// The package of that name and version, with nothing else set.
    pub open spec fn named(name: Seq<char>, version: Seq<char>) -> Self {
        PackageView {
            name,
            edition: None,
            version: Some(MaybeInherited::Local(version)),
            build: None,
            workspace: None,
            authors: None,
            links: None,
            description: None,
            homepage: None,
            documentation: None,
            readme: None,
            keywords: None,
            categories: None,
            license: None,
            license_file: None,
            repository: None,
            metadata: None,
            rust_version: None,
            exclude: None,
            includes: None,
            default_run: None,
            autolib: None,
            autobins: None,
            autoexamples: None,
            autotests: None,
            autobenches: None,
            publish: None,
            resolver: None,
        }
    }

    /// The version in effect: `0.0.0` where the manifest gives none.
    pub open spec fn effective_version(self) -> MaybeInherited<Seq<char>> {
        match self.version {
            Some(v) => v,
            None => MaybeInherited::Local("0.0.0"@),
        }
    }

    /// Whether targets are discovered by the rules from before 2018: so it
    /// is where the edition is absent or 2015. An inherited edition counts
    /// as a later one, as inheriting is itself a later invention.
    pub open spec fn uses_legacy_auto_discovery(self) -> bool {
        match self.edition {
            None => true,
            Some(MaybeInherited::Local(edition)) => edition.is_legacy(),
            Some(MaybeInherited::Inherited { .. }) => false,
        }
    }

    /// The edition, where the package states one itself.
    pub open spec fn local_edition(self) -> Option<Edition> {
        match self.edition {
            Some(MaybeInherited::Local(edition)) => Some(edition),
            _ => None,
        }
    }
}

impl<Metadata: DeepView> Package<Metadata> {
    /// The package of that name and version, with nothing else set.
    pub fn new(name: String, version: String) -> (r: Self)
        ensures
            r@ == PackageView::<Metadata::V>::named(name@, version@),
    {
        Package {
            name,
            edition: None,
            version: Some(MaybeInherited::Local(version)),
            build: None,
            workspace: None,
            authors: None,
            links: None,
            description: None,
            homepage: None,
            documentation: None,
            readme: None,
            keywords: None,
            categories: None,
            license: None,
            license_file: None,
            repository: None,
            metadata: None,
            rust_version: None,
            exclude: None,
            includes: None,
            default_run: None,
            autolib: None,
            autobins: None,
            autoexamples: None,
            autotests: None,
            autobenches: None,
            publish: None,
            resolver: None,
        }
    }

    /// The version in effect: `0.0.0` where the manifest gives none.
    pub fn version(&self) -> (r: MaybeInherited<&str>)
        ensures
            r.deep_view() == self@.effective_version(),
    {
        match &self.version {
            Some(MaybeInherited::Local(v)) => MaybeInherited::Local(v.as_str()),
            Some(MaybeInherited::Inherited { .. }) => MaybeInherited::Inherited { workspace: True },
            None => MaybeInherited::Local("0.0.0"),
        }
    }

    /// Whether targets are discovered by the rules from before 2018.
    pub fn uses_legacy_auto_discovery(&self) -> (r: bool)
        ensures
            r == self@.uses_legacy_auto_discovery(),
    {
        match self.edition {
            None => true,
            Some(MaybeInherited::Local(edition)) => edition == Edition::E2015,
            Some(MaybeInherited::Inherited { .. }) => false,
        }
    }

    /// The edition, where the package states one itself.
    pub fn local_edition(&self) -> (r: Option<Edition>)
        ensures
            r == self@.local_edition(),
    {
        match self.edition {
            Some(MaybeInherited::Local(edition)) => Some(edition),
            _ => None,
        }
    }
}

} // verus!
