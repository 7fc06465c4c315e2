//! The three shapes in which a manifest declares a dependency, and the
//! questions a reader asks of one whatever its shape.

use vstd::prelude::*;
use crate::inherit::True;

verus! {

/// A dependency written as a table of its own.
#[derive(Debug, Clone, PartialEq, Eq)]
pub struct DependencyDetail {
    pub version: Option<String>,
    pub registry: Option<String>,
    pub registry_index: Option<String>,
    pub path: Option<String>,
    pub git: Option<String>,
    pub branch: Option<String>,
    pub tag: Option<String>,
    pub rev: Option<String>,
    pub features: Option<Vec<String>>,
    pub optional: Option<bool>,
    pub default_features: Option<bool>,
    pub package: Option<String>,
}

/// What a `DependencyDetail` holds, as plain values.
pub struct DependencyDetailView {
    pub version: Option<Seq<char>>,
    pub registry: Option<Seq<char>>,
    pub registry_index: Option<Seq<char>>,
    pub path: Option<Seq<char>>,
    pub git: Option<Seq<char>>,
    pub branch: Option<Seq<char>>,
    pub tag: Option<Seq<char>>,
    pub rev: Option<Seq<char>>,
    pub features: Option<Seq<Seq<char>>>,
    pub optional: Option<bool>,
    pub default_features: Option<bool>,
    pub package: Option<Seq<char>>,
}

impl DependencyDetailView {
    /// The table in which no key is set.
    pub open spec fn empty() -> Self {
        DependencyDetailView {
            version: None,
            registry: None,
            registry_index: None,
            path: None,
            git: None,
            branch: None,
            tag: None,
            rev: None,
            features: None,
            optional: None,
            default_features: None,
            package: None,
        }
    }

    /// Whether the table says where the package comes from, if not from the
    /// default registry.
    pub open spec fn names_a_source(self) -> bool {
        ||| self.path is Some
        ||| self.registry is Some
        ||| self.registry_index is Some
        ||| self.git is Some
        ||| self.tag is Some
        ||| self.branch is Some
        ||| self.rev is Some
    }

    /// Whether the table sets anything besides `version`.
    pub open spec fn says_more_than_version(self) -> bool {
        ||| self.names_a_source()
        ||| self.features is Some
        ||| self.optional is Some
        ||| self.default_features is Some
        ||| self.package is Some
    }

    /// The bare version requirement where the table holds nothing else,
    /// the table itself otherwise.
    pub open spec fn simplified(self) -> DependencyView {
        match self.version {
            Some(version) if !self.says_more_than_version() => DependencyView::Simple(version),
            _ => DependencyView::Detailed(self),
        }
    }
}

impl View for DependencyDetail {
    type V = DependencyDetailView;

    open spec fn view(&self) -> DependencyDetailView {
        DependencyDetailView {
            version: self.version.deep_view(),
            registry: self.registry.deep_view(),
            registry_index: self.registry_index.deep_view(),
            path: self.path.deep_view(),
            git: self.git.deep_view(),
            branch: self.branch.deep_view(),
            tag: self.tag.deep_view(),
            rev: self.rev.deep_view(),
            features: self.features.deep_view(),
            optional: self.optional,
            default_features: self.default_features,
            package: self.package.deep_view(),
        }
    }
}

impl DeepView for DependencyDetail {
    type V = DependencyDetailView;

    open spec fn deep_view(&self) -> DependencyDetailView {
        self@
    }
}

impl Default for DependencyDetail {
    /// The table in which no key is set.
    fn default() -> (r: Self)
        ensures
            r@ == DependencyDetailView::empty(),
    {
        DependencyDetail {
            version: None,
            registry: None,
            registry_index: None,
            path: None,
            git: None,
            branch: None,
            tag: None,
            rev: None,
            features: None,
            optional: None,
            default_features: None,
            package: None,
        }
    }
}

impl DependencyDetail {
    /// Collapses the table to its version requirement where that is all it
    /// holds.
    pub fn simplify(self) -> (r: Dependency)
        ensures
            r@ == self@.simplified(),
    {
        if self.registry.is_some() || self.registry_index.is_some() || self.path.is_some()
            || self.git.is_some() || self.branch.is_some() || self.tag.is_some()
            || self.rev.is_some() || self.features.is_some() || self.optional.is_some()
            || self.default_features.is_some() || self.package.is_some() {
            return Dependency::Detailed(self);
        }
        if self.version.is_none() {
            return Dependency::Detailed(self);
        }
        let DependencyDetail { version, .. } = self;
        match version {
            Some(version) => Dependency::Simple(version),
            None => Dependency::Detailed(DependencyDetail::default()),
        }
    }
}

/// A dependency that defers to the workspace's declaration of it, with what
/// the package adds of its own.
#[derive(Debug, Clone, PartialEq, Eq)]
pub struct InheritedDependencyDetail {
    pub workspace: True,
    pub features: Option<Vec<String>>,
    pub optional: Option<bool>,
}

/// What an `InheritedDependencyDetail` holds, as plain values.
pub struct InheritedDependencyDetailView {
    pub features: Option<Seq<Seq<char>>>,
    pub optional: Option<bool>,
}

impl View for InheritedDependencyDetail {
    type V = InheritedDependencyDetailView;

    open spec fn view(&self) -> InheritedDependencyDetailView {
        InheritedDependencyDetailView {
            features: self.features.deep_view(),
            optional: self.optional,
        }
    }
}

impl DeepView for InheritedDependencyDetail {
    type V = InheritedDependencyDetailView;

    open spec fn deep_view(&self) -> InheritedDependencyDetailView {
        self@
    }
}

impl Default for InheritedDependencyDetail {
    /// The bare `{ workspace = true }`.
    fn default() -> (r: Self)
        ensures
            r@ == (InheritedDependencyDetailView { features: None, optional: None }),
    {
        InheritedDependencyDetail { workspace: True, features: None, optional: None }
    }
}

/// One entry of a dependency table.
#[derive(Debug, Clone, PartialEq, Eq)]
pub enum Dependency {
    /// A bare version requirement.
    Simple(String),
    /// `{ workspace = true }`, not yet resolved against the workspace.
    Inherited(InheritedDependencyDetail),
    /// A table of the dependency's own.
    Detailed(DependencyDetail),
}

/// What a `Dependency` holds, as plain values.
pub enum DependencyView {
    Simple(Seq<char>),
    Inherited(InheritedDependencyDetailView),
    Detailed(DependencyDetailView),
}

impl DependencyView {
    /// A detailed dependency that holds nothing but a version becomes a
    /// simple one; every other dependency stays as it is.
    pub open spec fn simplified(self) -> DependencyView {
        match self {
            DependencyView::Detailed(d) => d.simplified(),
            other => other,
        }
    }

    /// The version requirement in effect: any version where none is given
    /// or the workspace has yet to give it.
    pub open spec fn req(self) -> Seq<char> {
        match self {
            DependencyView::Simple(v) => v,
            DependencyView::Detailed(d) => match d.version {
                Some(v) => v,
                None => "*"@,
            },
            DependencyView::Inherited(_) => "*"@,
        }
    }

    /// The features asked of the dependency.
    pub open spec fn req_features(self) -> Seq<Seq<char>> {
        match self {
            DependencyView::Simple(_) => Seq::empty(),
            DependencyView::Detailed(d) => match d.features {
                Some(f) => f,
                None => Seq::empty(),
            },
            DependencyView::Inherited(i) => match i.features {
                Some(f) => f,
                None => Seq::empty(),
            },
        }
    }

    /// Whether the dependency is only built on request.
    pub open spec fn optional(self) -> bool {
        match self {
            DependencyView::Simple(_) => false,
            DependencyView::Detailed(d) => d.optional == Some(true),
            DependencyView::Inherited(i) => i.optional == Some(true),
        }
    }

    /// The package's real name where the dependency is declared under
    /// another.
    pub open spec fn package(self) -> Option<Seq<char>> {
        match self {
            DependencyView::Detailed(d) => d.package,
            _ => None,
        }
    }

    /// The repository that the dependency is fetched from, if it is.
    pub open spec fn git(self) -> Option<Seq<char>> {
        match self {
            DependencyView::Detailed(d) => d.git,
            _ => None,
        }
    }

    /// Whether the dependency comes from the default registry. Of an
    /// inherited one this is not known, and the answer is no.
    pub open spec fn is_crates_io(self) -> bool {
        match self {
            DependencyView::Simple(_) => true,
            DependencyView::Detailed(d) => !d.names_a_source(),
            DependencyView::Inherited(_) => false,
        }
    }
}

impl View for Dependency {
    type V = DependencyView;

    open spec fn view(&self) -> DependencyView {
        match self {
            Dependency::Simple(v) => DependencyView::Simple(v@),
            Dependency::Inherited(i) => DependencyView::Inherited(i@),
            Dependency::Detailed(d) => DependencyView::Detailed(d@),
        }
    }
}

impl DeepView for Dependency {
    type V = DependencyView;

    open spec fn deep_view(&self) -> DependencyView {
        self@
    }
}

impl Dependency {
    /// The table of a detailed dependency.
    pub fn detail(&self) -> (r: Option<&DependencyDetail>)
        ensures
            r == match *self {
                Dependency::Detailed(d) => Some(&d),
                _ => None,
            },
    {
        match self {
            Dependency::Detailed(d) => Some(d),
            _ => None,
        }
    }

    /// Collapses a detailed dependency to a simple one where only its
    /// version is set.
    pub fn simplify(self) -> (r: Self)
        ensures
            r@ == self@.simplified(),
    {
        match self {
            Dependency::Detailed(details) => details.simplify(),
            dep => dep,
        }
    }

    /// The version requirement in effect.
    pub fn req(&self) -> (r: &str)
        ensures
            r@ == self@.req(),
    {
        match self {
            Dependency::Simple(v) => v.as_str(),
            Dependency::Detailed(d) => match &d.version {
                Some(v) => v.as_str(),
                None => "*",
            },
            Dependency::Inherited(_) => "*",
        }
    }

    /// The features asked of the dependency.
    pub fn req_features(&self) -> (r: &[String])
        ensures
            r.deep_view() == self@.req_features(),
    {
        match self {
            Dependency::Simple(_) => &[],
            Dependency::Detailed(d) => match &d.features {
                Some(f) => f.as_slice(),
                None => &[],
            },
            Dependency::Inherited(i) => match &i.features {
                Some(f) => f.as_slice(),
                None => &[],
            },
        }
    }

    /// Whether the dependency is only built on request.
    pub fn optional(&self) -> (r: bool)
        ensures
            r == self@.optional(),
    {
        match self {
            Dependency::Simple(_) => false,
            Dependency::Detailed(d) => match d.optional {
                Some(b) => b,
                None => false,
            },
            Dependency::Inherited(i) => match i.optional {
                Some(b) => b,
                None => false,
            },
        }
    }

    /// The package's real name where the dependency is declared under
    /// another; `None` where the two are the same.
    pub fn package(&self) -> (r: Option<&str>)
        ensures
            r.deep_view() == self@.package(),
    {
        match self {
            Dependency::Detailed(d) => match &d.package {
                Some(p) => Some(p.as_str()),
                None => None,
            },
            _ => None,
        }
    }

    /// The repository that the dependency is fetched from, if it is.
    pub fn git(&self) -> (r: Option<&str>)
        ensures
            r.deep_view() == self@.git(),
    {
        match self {
            Dependency::Detailed(d) => match &d.git {
                Some(g) => Some(g.as_str()),
                None => None,
            },
            _ => None,
        }
    }

    /// Whether the dependency comes from the default registry.
    pub fn is_crates_io(&self) -> (r: bool)
        ensures
            r == self@.is_crates_io(),
    {
        match self {
            Dependency::Simple(_) => true,
            Dependency::Detailed(d) => d.path.is_none() && d.registry.is_none()
                && d.registry_index.is_none() && d.git.is_none() && d.tag.is_none()
                && d.branch.is_none() && d.rev.is_none(),
            Dependency::Inherited(_) => false,
        }
    }
}

} // verus!
