//! The `[profile]` tables: how the compiler is run.

use vstd::prelude::*;
use crate::value::{TomlValue, TomlValueView};

verus! {

/// What is stripped from a binary.
#[derive(Debug, Clone, Copy, PartialEq, Eq, PartialOrd, Ord, Structural)]
pub enum StripSetting {
    /// Written `none` or `false`.
    Nothing,
    Debuginfo,
    /// Debug information and symbols; also written `true`.
    Symbols,
}

impl View for StripSetting {
    type V = StripSetting;

    open spec fn view(&self) -> StripSetting {
        *self
    }
}

impl DeepView for StripSetting {
    type V = StripSetting;

    open spec fn deep_view(&self) -> StripSetting {
        *self
    }
}

/// One profile.
#[derive(Debug, Clone, PartialEq)]
pub struct Profile {
    pub opt_level: Option<TomlValue>,
    pub debug: Option<TomlValue>,
    pub rpath: Option<bool>,
    /// The profile that this one starts from.
    pub inherits: Option<String>,
    pub lto: Option<TomlValue>,
    pub debug_assertions: Option<bool>,
    pub codegen_units: Option<u16>,
    pub panic: Option<String>,
    pub incremental: Option<bool>,
    pub overflow_checks: Option<bool>,
    pub strip: Option<StripSetting>,
    /// Settings for single packages, by package.
    pub package: Vec<(String, TomlValue)>,
    pub split_debuginfo: Option<String>,
    /// Settings for build scripts and procedural macros.
    pub build_override: Option<TomlValue>,
}

/// What a `Profile` holds, as plain values.
pub struct ProfileView {
    pub opt_level: Option<TomlValueView>,
    pub debug: Option<TomlValueView>,
    pub rpath: Option<bool>,
    pub inherits: Option<Seq<char>>,
    pub lto: Option<TomlValueView>,
    pub debug_assertions: Option<bool>,
    pub codegen_units: Option<u16>,
    pub panic: Option<Seq<char>>,
    pub incremental: Option<bool>,
    pub overflow_checks: Option<bool>,
    pub strip: Option<StripSetting>,
    pub package: Seq<(Seq<char>, TomlValueView)>,
    pub split_debuginfo: Option<Seq<char>>,
    pub build_override: Option<TomlValueView>,
}

impl View for Profile {
    type V = ProfileView;

    open spec fn view(&self) -> ProfileView {
        ProfileView {
            opt_level: self.opt_level.deep_view(),
            debug: self.debug.deep_view(),
            rpath: self.rpath,
            inherits: self.inherits.deep_view(),
            lto: self.lto.deep_view(),
            debug_assertions: self.debug_assertions,
            codegen_units: self.codegen_units,
            panic: self.panic.deep_view(),
            incremental: self.incremental,
            overflow_checks: self.overflow_checks,
            strip: self.strip,
            package: self.package.deep_view(),
            split_debuginfo: self.split_debuginfo.deep_view(),
            build_override: self.build_override.deep_view(),
        }
    }
}

impl DeepView for Profile {
    type V = ProfileView;

    open spec fn deep_view(&self) -> ProfileView {
        self@
    }
}
/// The `[profile]` table: the five profiles that cargo knows, and any others.
#[derive(Debug, Clone, PartialEq)]
pub struct Profiles {
    pub release: Option<Profile>,
    pub dev: Option<Profile>,
    pub test: Option<Profile>,
    pub bench: Option<Profile>,
    pub doc: Option<Profile>,
    /// The profiles of other names, by name.
    pub custom: Vec<(String, Profile)>,
}

/// What a `Profiles` holds, as plain values.
pub struct ProfilesView {
    pub release: Option<ProfileView>,
    pub dev: Option<ProfileView>,
    pub test: Option<ProfileView>,
    pub bench: Option<ProfileView>,
    pub doc: Option<ProfileView>,
    pub custom: Seq<(Seq<char>, ProfileView)>,
}

impl View for Profiles {
    type V = ProfilesView;

    open spec fn view(&self) -> ProfilesView {
        ProfilesView {
            release: self.release.deep_view(),
            dev: self.dev.deep_view(),
            test: self.test.deep_view(),
            bench: self.bench.deep_view(),
            doc: self.doc.deep_view(),
            custom: self.custom.deep_view(),
        }
    }
}

impl DeepView for Profiles {
    type V = ProfilesView;

    open spec fn deep_view(&self) -> ProfilesView {
        self@
    }
}
impl ProfilesView {
    /// No profile at all.
    pub open spec fn empty() -> Self {
        ProfilesView {
            release: None,
            dev: None,
            test: None,
            bench: None,
            doc: None,
            custom: Seq::empty(),
        }
    }
}

impl Default for Profiles {
    /// No profile at all.
    fn default() -> (r: Self)
        ensures
            r@ == ProfilesView::empty(),
    {
        let r = Profiles {
            release: None,
            dev: None,
            test: None,
            bench: None,
            doc: None,
            custom: Vec::new(),
        };
        assert(r.custom.deep_view() =~= Seq::empty());
        r
    }
}
} // verus!
