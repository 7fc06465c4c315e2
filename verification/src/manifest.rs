//! The manifest as a whole.

use vstd::prelude::*;
use crate::badges::{Badges, BadgesView};
use crate::dependency::DependencyView;
use crate::package::{Package, PackageView};
use crate::product::{Product, ProductView};
use crate::profile::{Profiles, ProfilesView};
use crate::value::TomlValue;
use crate::workspace::{DepsSet, Workspace, WorkspaceView};

verus! {

/// The dependencies of each platform that has some of its own.
pub type TargetDepsSet = Vec<(String, Target)>;

/// Each feature with the features and dependencies that it switches on.
pub type FeatureSet = Vec<(String, Vec<String>)>;

/// Each patched registry with the dependencies that replace its own.
pub type PatchSet = Vec<(String, DepsSet)>;

/// The dependencies that one platform adds.
#[derive(Debug, Clone, PartialEq, Eq)]
pub struct Target {
    pub dependencies: DepsSet,
    pub dev_dependencies: DepsSet,
    pub build_dependencies: DepsSet,
}

/// What a `Target` holds, as plain values.
pub struct TargetView {
    pub dependencies: Seq<(Seq<char>, DependencyView)>,
    pub dev_dependencies: Seq<(Seq<char>, DependencyView)>,
    pub build_dependencies: Seq<(Seq<char>, DependencyView)>,
}

impl View for Target {
    type V = TargetView;

    open spec fn view(&self) -> TargetView {
        TargetView {
            dependencies: self.dependencies.deep_view(),
            dev_dependencies: self.dev_dependencies.deep_view(),
            build_dependencies: self.build_dependencies.deep_view(),
        }
    }
}

impl DeepView for Target {
    type V = TargetView;

    open spec fn deep_view(&self) -> TargetView {
        self@
    }
}
/// A `Cargo.toml`. `PackageMetadata` and `WorkspaceMetadata` are the types that
/// the two free-form `metadata` tables are kept in.
#[derive(Debug, Clone, PartialEq)]
pub struct Manifest<PackageMetadata = TomlValue, WorkspaceMetadata = TomlValue> {
    pub package: Option<Package<PackageMetadata>>,
    /// The unstable features of cargo that the manifest asks for.
    pub cargo_features: Option<Vec<String>>,
    pub workspace: Option<Workspace<WorkspaceMetadata>>,
    pub dependencies: Option<DepsSet>,
    pub dev_dependencies: Option<DepsSet>,
    pub build_dependencies: Option<DepsSet>,
    /// The dependencies that only some platforms need, by platform.
    pub target: Option<TargetDepsSet>,
    pub features: Option<FeatureSet>,
    /// The binaries. Before completion these are only the declared ones.
    pub bin: Vec<Product>,
    /// The benchmarks. Before completion these are only the declared ones.
    pub bench: Vec<Product>,
    /// The tests. Before completion these are only the declared ones.
    pub test: Vec<Product>,
    /// The examples. Before completion these are only the declared ones.
    pub example: Vec<Product>,
    /// Replacements for dependencies, by the registry they come from.
    pub patch: Option<PatchSet>,
    /// The library. Before completion it is present only where declared.
    pub lib: Option<Product>,
    pub profile: Option<Profiles>,
    pub badges: Option<Badges>,
}

/// What a `Manifest` holds, as plain values.
pub struct ManifestView<PackageMetadataView, WorkspaceMetadataView> {
    pub package: Option<PackageView<PackageMetadataView>>,
    pub cargo_features: Option<Seq<Seq<char>>>,
    pub workspace: Option<WorkspaceView<WorkspaceMetadataView>>,
    pub dependencies: Option<Seq<(Seq<char>, DependencyView)>>,
    pub dev_dependencies: Option<Seq<(Seq<char>, DependencyView)>>,
    pub build_dependencies: Option<Seq<(Seq<char>, DependencyView)>>,
    pub target: Option<Seq<(Seq<char>, TargetView)>>,
    pub features: Option<Seq<(Seq<char>, Seq<Seq<char>>)>>,
    pub bin: Seq<ProductView>,
    pub bench: Seq<ProductView>,
    pub test: Seq<ProductView>,
    pub example: Seq<ProductView>,
    pub patch: Option<Seq<(Seq<char>, Seq<(Seq<char>, DependencyView)>)>>,
    pub lib: Option<ProductView>,
    pub profile: Option<ProfilesView>,
    pub badges: Option<BadgesView>,
}

impl<PackageMetadata: DeepView, WorkspaceMetadata: DeepView> View for Manifest<PackageMetadata, WorkspaceMetadata> {
    type V = ManifestView<PackageMetadata::V, WorkspaceMetadata::V>;

    open spec fn view(&self) -> ManifestView<PackageMetadata::V, WorkspaceMetadata::V> {
        ManifestView {
            package: self.package.deep_view(),
            cargo_features: self.cargo_features.deep_view(),
            workspace: self.workspace.deep_view(),
            dependencies: self.dependencies.deep_view(),
            dev_dependencies: self.dev_dependencies.deep_view(),
            build_dependencies: self.build_dependencies.deep_view(),
            target: self.target.deep_view(),
            features: self.features.deep_view(),
            bin: self.bin.deep_view(),
            bench: self.bench.deep_view(),
            test: self.test.deep_view(),
            example: self.example.deep_view(),
            patch: self.patch.deep_view(),
            lib: self.lib.deep_view(),
            profile: self.profile.deep_view(),
            badges: self.badges.deep_view(),
        }
    }
}

impl<PackageMetadata: DeepView, WorkspaceMetadata: DeepView> DeepView for Manifest<PackageMetadata, WorkspaceMetadata> {
    type V = ManifestView<PackageMetadata::V, WorkspaceMetadata::V>;

    open spec fn deep_view(&self) -> ManifestView<PackageMetadata::V, WorkspaceMetadata::V> {
        self@
    }
}
impl<PackageMetadataView, WorkspaceMetadataView> ManifestView<PackageMetadataView, WorkspaceMetadataView> {
    /// The manifest that declares nothing.
    pub open spec fn empty() -> Self {
        ManifestView {
            package: None,
            cargo_features: None,
            workspace: None,
            dependencies: None,
            dev_dependencies: None,
            build_dependencies: None,
            target: None,
            features: None,
            bin: Seq::empty(),
            bench: Seq::empty(),
            test: Seq::empty(),
            example: Seq::empty(),
            patch: None,
            lib: None,
            profile: None,
            badges: None,
        }
    }
}

impl<PackageMetadata: DeepView, WorkspaceMetadata: DeepView> Default for Manifest<PackageMetadata, WorkspaceMetadata> {
    /// The manifest that declares nothing.
    fn default() -> (r: Self)
        ensures
            r@ == ManifestView::<PackageMetadata::V, WorkspaceMetadata::V>::empty(),
    {
        let r = Manifest {
            package: None,
            cargo_features: None,
            workspace: None,
            dependencies: None,
            dev_dependencies: None,
            build_dependencies: None,
            target: None,
            features: None,
            bin: Vec::new(),
            bench: Vec::new(),
            test: Vec::new(),
            example: Vec::new(),
            patch: None,
            lib: None,
            profile: None,
            badges: None,
        };
        assert(r.bin.deep_view() =~= Seq::empty());
        assert(r.bench.deep_view() =~= Seq::empty());
        assert(r.test.deep_view() =~= Seq::empty());
        assert(r.example.deep_view() =~= Seq::empty());
        r
    }
}
} // verus!
