//! Typed model of a `Cargo.toml` manifest, with completion of the targets
//! that the manifest leaves implicit from a listing of the project's files.
//!
//! A manifest is read in two steps. `Manifest::from_str` and its kin parse
//! the text and decode the tree into the model, whatever of the format's
//! historical shapes the text has. `Manifest::complete_from_abstract_filesystem`
//! then finds the library, binaries, examples, tests and benchmarks that
//! lie where convention puts them. The file system is whatever implements
//! `AbstractFilesystem`; this crate never opens a file.

pub mod afs;
pub mod badges;
pub mod complete;
pub mod decode;
pub mod decode_badges;
pub mod decode_dependency;
pub mod decode_manifest;
pub mod decode_package;
pub mod decode_product;
pub mod decode_profile;
pub mod dependency;
pub mod discover;
pub mod document;
pub mod edition;
pub mod error;
pub mod inherit;
pub mod laws;
pub mod manifest;
pub mod merge;
pub mod package;
pub mod product;
pub mod profile;
pub mod text;
pub mod value;
pub mod workspace;

pub use crate::afs::{AbstractFilesystem, IoError, IoErrorKind};
pub use crate::badges::{Badge, Badges, Maintenance, MaintenanceStatus};
pub use crate::dependency::{Dependency, DependencyDetail, InheritedDependencyDetail};
pub use crate::discover::{DirectoryEntry, DiscoveredTarget};
pub use crate::edition::Edition;
pub use crate::error::Error;
pub use crate::inherit::{MaybeInherited, True};
pub use crate::manifest::{FeatureSet, Manifest, PatchSet, Target, TargetDepsSet};
pub use crate::package::{Package, Publish, Resolver, StringOrBool};
pub use crate::product::Product;
pub use crate::profile::{Profile, Profiles, StripSetting};
pub use crate::value::TomlValue;
pub use crate::workspace::{DepsSet, Workspace, WorkspacePackage};
