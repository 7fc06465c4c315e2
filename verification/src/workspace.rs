//! The `[workspace]` table.

use vstd::prelude::*;
use crate::dependency::{Dependency, DependencyView};
use crate::edition::Edition;
use crate::value::TomlValue;
use crate::package::{Publish, PublishView, Resolver, StringOrBool, StringOrBoolView};

verus! {

/// A table of dependencies: each name with what is declared of it, in the
/// order of the names.
pub type DepsSet = Vec<(String, Dependency)>;

/// The `[workspace.package]` table: the values that a member takes over
/// when it writes `workspace = true` under the same key.
#[derive(Debug, Clone, PartialEq, Eq)]
pub struct WorkspacePackage {
    pub edition: Option<Edition>,
    pub version: Option<String>,
    pub authors: Option<Vec<String>>,
    pub description: Option<String>,
    pub homepage: Option<String>,
    pub documentation: Option<String>,
    pub readme: Option<StringOrBool>,
    pub keywords: Option<Vec<String>>,
    pub categories: Option<Vec<String>>,
    pub license: Option<String>,
    pub license_file: Option<String>,
    pub publish: Option<Publish>,
    pub exclude: Option<Vec<String>>,
    /// The files to package, where not all are: the manifest's key of nearly this name.
    pub includes: Option<Vec<String>>,
    pub repository: Option<String>,
    pub rust_version: Option<String>,
}

/// What a `WorkspacePackage` holds, as plain values.
pub struct WorkspacePackageView {
    pub edition: Option<Edition>,
    pub version: Option<Seq<char>>,
    pub authors: Option<Seq<Seq<char>>>,
    pub description: Option<Seq<char>>,
    pub homepage: Option<Seq<char>>,
    pub documentation: Option<Seq<char>>,
    pub readme: Option<StringOrBoolView>,
    pub keywords: Option<Seq<Seq<char>>>,
    pub categories: Option<Seq<Seq<char>>>,
    pub license: Option<Seq<char>>,
    pub license_file: Option<Seq<char>>,
    pub publish: Option<PublishView>,
    pub exclude: Option<Seq<Seq<char>>>,
    pub includes: Option<Seq<Seq<char>>>,
    pub repository: Option<Seq<char>>,
    pub rust_version: Option<Seq<char>>,
}

impl View for WorkspacePackage {
    type V = WorkspacePackageView;

    open spec fn view(&self) -> WorkspacePackageView {
        WorkspacePackageView {
            edition: self.edition,
            version: self.version.deep_view(),
            authors: self.authors.deep_view(),
            description: self.description.deep_view(),
            homepage: self.homepage.deep_view(),
            documentation: self.documentation.deep_view(),
            readme: self.readme.deep_view(),
            keywords: self.keywords.deep_view(),
            categories: self.categories.deep_view(),
            license: self.license.deep_view(),
            license_file: self.license_file.deep_view(),
            publish: self.publish.deep_view(),
            exclude: self.exclude.deep_view(),
            includes: self.includes.deep_view(),
            repository: self.repository.deep_view(),
            rust_version: self.rust_version.deep_view(),
        }
    }
}

impl DeepView for WorkspacePackage {
    type V = WorkspacePackageView;

    open spec fn deep_view(&self) -> WorkspacePackageView {
        self@
    }
}
impl WorkspacePackageView {
    /// The table in which no key is set.
    pub open spec fn empty() -> Self {
        WorkspacePackageView {
            edition: None,
            version: None,
            authors: None,
            description: None,
            homepage: None,
            documentation: None,
            readme: None,
            keywords: None,
            categories: None,
            license: None,
            license_file: None,
            publish: None,
            exclude: None,
            includes: None,
            repository: None,
            rust_version: None,
        }
    }
}

impl Default for WorkspacePackage {
    /// The table in which no key is set.
    fn default() -> (r: Self)
        ensures
            r@ == WorkspacePackageView::empty(),
    {
        WorkspacePackage {
            edition: None,
            version: None,
            authors: None,
            description: None,
            homepage: None,
            documentation: None,
            readme: None,
            keywords: None,
            categories: None,
            license: None,
            license_file: None,
            publish: None,
            exclude: None,
            includes: None,
            repository: None,
            rust_version: None,
        }
    }
}
/// The `[workspace]` table. `Metadata` is the type that
/// `[workspace.metadata]` is kept in.
#[derive(Debug, Clone, PartialEq, Eq)]
pub struct Workspace<Metadata = TomlValue> {
    /// The packages that belong to the workspace.
    pub members: Vec<String>,
    /// The members that a command works on when none is named.
    pub default_members: Option<Vec<String>>,
    /// Paths that the workspace leaves out.
    pub exclude: Option<Vec<String>>,
    pub resolver: Option<Resolver>,
    /// The dependencies that members may inherit.
    pub dependencies: Option<DepsSet>,
    /// The package keys that members may inherit.
    pub package: Option<WorkspacePackage>,
    /// The free-form table that tools other than cargo read.
    pub metadata: Option<Metadata>,
}

/// What a `Workspace` holds, as plain values.
pub struct WorkspaceView<MetadataView> {
    pub members: Seq<Seq<char>>,
    pub default_members: Option<Seq<Seq<char>>>,
    pub exclude: Option<Seq<Seq<char>>>,
    pub resolver: Option<Resolver>,
    pub dependencies: Option<Seq<(Seq<char>, DependencyView)>>,
    pub package: Option<WorkspacePackageView>,
    pub metadata: Option<MetadataView>,
}

impl<Metadata: DeepView> View for Workspace<Metadata> {
    type V = WorkspaceView<Metadata::V>;

    open spec fn view(&self) -> WorkspaceView<Metadata::V> {
        WorkspaceView {
            members: self.members.deep_view(),
            default_members: self.default_members.deep_view(),
            exclude: self.exclude.deep_view(),
            resolver: self.resolver,
            dependencies: self.dependencies.deep_view(),
            package: self.package.deep_view(),
            metadata: self.metadata.deep_view(),
        }
    }
}

impl<Metadata: DeepView> DeepView for Workspace<Metadata> {
    type V = WorkspaceView<Metadata::V>;

    open spec fn deep_view(&self) -> WorkspaceView<Metadata::V> {
        self@
    }
}
impl<MetadataView> WorkspaceView<MetadataView> {
    /// The workspace without members.
    pub open spec fn empty() -> Self {
        WorkspaceView {
            members: Seq::empty(),
            default_members: None,
            exclude: None,
            resolver: None,
            dependencies: None,
            package: None,
            metadata: None,
        }
    }
}

impl<Metadata: DeepView> Default for Workspace<Metadata> {
    /// The workspace without members.
    fn default() -> (r: Self)
        ensures
            r@ == WorkspaceView::<Metadata::V>::empty(),
    {
        let r = Workspace {
            members: Vec::new(),
            default_members: None,
            exclude: None,
            resolver: None,
            dependencies: None,
            package: None,
            metadata: None,
        };
        assert(r.members.deep_view() =~= Seq::empty());
        r
    }
}
} // verus!
