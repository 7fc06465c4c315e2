//! Decoding a whole manifest, from a tree, from text and from bytes.
//!
//! Old manifests come in two shapes that the format no longer has: with
//! the package under `[project]`, and with the package's keys at the top
//! level, under no header at all. A document that has neither a package
//! nor a workspace is taken to be one of these.

use vstd::prelude::*;
use vstd::utf8::{decode_utf8, valid_utf8};
use crate::decode::{agrees, at, at_either, decode_entries, decode_opt_strings, defaulted, empty, find, find_either, lookup, opt_strings_of};
use crate::decode_badges::{decode_opt_badges, opt_badges_of};
use crate::decode_dependency::{decode_opt_deps, decode_opt_features, decode_opt_patches, decode_opt_targets, opt_deps_of, opt_features_of, opt_patches_of, opt_targets_of};
use crate::decode_package::{decode_opt_package, decode_opt_workspace, decode_package, opt_package_of, opt_workspace_of, package_of};
use crate::decode_product::{decode_opt_product, decode_opt_products, opt_product_of, opt_products_of};
use crate::decode_profile::{decode_opt_profiles, opt_profiles_of};
use crate::document::{parse, toml_parsed, utf8_text};
use crate::error::Error;
use crate::manifest::{Manifest, ManifestView};
use crate::value::{TomlValue, TomlValueView};

verus! {

/// A manifest in the shape that the format has today: a table in which
/// each key that is there holds what belongs under it.
pub open spec fn manifest_of(v: TomlValueView) -> Result<ManifestView<TomlValueView, TomlValueView>, ()> {
    match v {
        TomlValueView::Table(t) => {
            let package = opt_package_of(at(t, "package"@));
            let cargo_features = opt_strings_of(at(t, "cargo-features"@));
            let workspace = opt_workspace_of(at(t, "workspace"@));
            let dependencies = opt_deps_of(at(t, "dependencies"@));
            let dev_dependencies = opt_deps_of(at_either(t, "dev-dependencies"@, "dev_dependencies"@));
            let build_dependencies = opt_deps_of(at_either(t, "build-dependencies"@, "build_dependencies"@));
            let target = opt_targets_of(at(t, "target"@));
            let features = opt_features_of(at(t, "features"@));
            let bin = defaulted(opt_products_of(at(t, "bin"@)), Seq::empty());
            let bench = defaulted(opt_products_of(at(t, "bench"@)), Seq::empty());
            let test = defaulted(opt_products_of(at(t, "test"@)), Seq::empty());
            let example = defaulted(opt_products_of(at(t, "example"@)), Seq::empty());
            let patch = opt_patches_of(at(t, "patch"@));
            let lib = opt_product_of(at(t, "lib"@));
            let profile = opt_profiles_of(at(t, "profile"@));
            let badges = opt_badges_of(at(t, "badges"@));
            if package is Ok && cargo_features is Ok && workspace is Ok && dependencies is Ok && dev_dependencies is Ok && build_dependencies is Ok && target is Ok && features is Ok && bin is Ok && bench is Ok && test is Ok && example is Ok && patch is Ok && lib is Ok && profile is Ok && badges is Ok {
                Ok(
                    ManifestView {
                        package: package->Ok_0,
                        cargo_features: cargo_features->Ok_0,
                        workspace: workspace->Ok_0,
                        dependencies: dependencies->Ok_0,
                        dev_dependencies: dev_dependencies->Ok_0,
                        build_dependencies: build_dependencies->Ok_0,
                        target: target->Ok_0,
                        features: features->Ok_0,
                        bin: bin->Ok_0,
                        bench: bench->Ok_0,
                        test: test->Ok_0,
                        example: example->Ok_0,
                        patch: patch->Ok_0,
                        lib: lib->Ok_0,
                        profile: profile->Ok_0,
                        badges: badges->Ok_0,
                    },
                )
            } else {
                Err(())
            }
        },
        _ => Err(()),
    }
}

/// Reads a manifest in the shape that the format has today.
pub fn decode_manifest(v: &TomlValue) -> (r: Result<Manifest<TomlValue, TomlValue>, Error>)
    ensures
        agrees(r, manifest_of(v.deep_view())),
{
    let t = decode_entries(v, "a table for a manifest")?;
    let package = decode_opt_package(find(t, "package"))?;
    let cargo_features = decode_opt_strings(find(t, "cargo-features"))?;
    let workspace = decode_opt_workspace(find(t, "workspace"))?;
    let dependencies = decode_opt_deps(find(t, "dependencies"))?;
    let dev_dependencies = decode_opt_deps(find_either(t, "dev-dependencies", "dev_dependencies")?)?;
    let build_dependencies = decode_opt_deps(find_either(t, "build-dependencies", "build_dependencies")?)?;
    let target = decode_opt_targets(find(t, "target"))?;
    let features = decode_opt_features(find(t, "features"))?;
    let bin = match decode_opt_products(find(t, "bin"))? {
        Some(x) => x,
        None => empty(),
    };
    let bench = match decode_opt_products(find(t, "bench"))? {
        Some(x) => x,
        None => empty(),
    };
    let test = match decode_opt_products(find(t, "test"))? {
        Some(x) => x,
        None => empty(),
    };
    let example = match decode_opt_products(find(t, "example"))? {
        Some(x) => x,
        None => empty(),
    };
    let patch = decode_opt_patches(find(t, "patch"))?;
    let lib = decode_opt_product(find(t, "lib"))?;
    let profile = decode_opt_profiles(find(t, "profile"))?;
    let badges = decode_opt_badges(find(t, "badges"))?;
    Ok(Manifest {
        package,
        cargo_features,
        workspace,
        dependencies,
        dev_dependencies,
        build_dependencies,
        target,
        features,
        bin,
        bench,
        test,
        example,
        patch,
        lib,
        profile,
        badges,
    })
}

/// Where an old manifest keeps its package: under `project`, or at the
/// top level.
pub open spec fn legacy_package_source(root: TomlValueView) -> TomlValueView {
    match root {
        TomlValueView::Table(t) => match lookup(t, "project"@) {
            Some(project) => project,
            None => root,
        },
        _ => root,
    }
}

/// The manifest that a document holds, in today's shape or an old one. A
/// document with neither a package nor a workspace is read once more for
/// its package: from `project` if it has that key, else from the top
/// level; the rest of the manifest stays as first read.
pub open spec fn document_of(root: TomlValueView) -> Result<ManifestView<TomlValueView, TomlValueView>, ()> {
    match manifest_of(root) {
        Ok(manifest) => if manifest.package is None && manifest.workspace is None {
            match package_of(legacy_package_source(root)) {
                Ok(package) => Ok(ManifestView { package: Some(package), ..manifest }),
                Err(_) => Err(()),
            }
        } else {
            Ok(manifest)
        },
        Err(_) => Err(()),
    }
}

/// What reading a text as a manifest gives: a `Parse` error for a text
/// that is no TOML, else what its document holds.
pub open spec fn read_as_text(r: Result<Manifest<TomlValue, TomlValue>, Error>, text: Seq<char>) -> bool {
    match toml_parsed(text) {
        Some(root) => agrees(r, document_of(root)),
        None => r is Err && r->Err_0 is Parse,
    }
}

impl Manifest<TomlValue, TomlValue> {
    /// Reads a manifest from a parsed document. Completion is left to the
    /// caller, so the targets are the declared ones only.
    pub fn from_value(root: &TomlValue) -> (r: Result<Self, Error>)
        ensures
            agrees(r, document_of(root.deep_view())),
    {
        let mut manifest = decode_manifest(root)?;
        if manifest.package.is_none() && manifest.workspace.is_none() {
            let source = match root {
                TomlValue::Table(entries) => {
                    proof {
                        crate::value::lemma_table_view(*root);
                    }
                    match find(entries, "project") {
                        Some(project) => project,
                        None => root,
                    }
                },
                _ => root,
            };
            manifest.package = Some(decode_package(source)?);
        }
        Ok(manifest)
    }

    /// Reads a manifest from the text of a `Cargo.toml`: the file's
    /// content, not its name. Completion is left to the caller.
    pub fn from_str(cargo_toml_content: &str) -> (r: Result<Self, Error>)
        ensures
            read_as_text(r, cargo_toml_content@),
    {
        match parse(cargo_toml_content) {
            Ok(root) => Manifest::from_value(&root),
            Err(words) => Err(Error::Parse(words)),
        }
    }

    /// Reads a manifest from the bytes of a `Cargo.toml`. Bytes that are
    /// no UTF-8 give a `Utf8` error; all else is as for text.
    pub fn from_slice(cargo_toml_content: &[u8]) -> (r: Result<Self, Error>)
        ensures
            if valid_utf8(cargo_toml_content@) {
                read_as_text(r, decode_utf8(cargo_toml_content@))
            } else {
                r is Err && r->Err_0 is Utf8
            },
    {
        match utf8_text(cargo_toml_content) {
            Ok(text) => Manifest::from_str(text),
            Err(e) => Err(Error::Utf8(e)),
        }
    }

    /// Reads a manifest from bytes, keeping both `metadata` tables as the
    /// trees they are.
    pub fn from_slice_with_metadata(cargo_toml_content: &[u8]) -> (r: Result<Self, Error>)
        ensures
            if valid_utf8(cargo_toml_content@) {
                read_as_text(r, decode_utf8(cargo_toml_content@))
            } else {
                r is Err && r->Err_0 is Utf8
            },
    {
        Manifest::from_slice(cargo_toml_content)
    }
}

impl std::str::FromStr for Manifest<TomlValue, TomlValue> {
    type Err = Error;

    /// Reads a manifest from the text of a `Cargo.toml`, as the method of
    /// the same name does.
    fn from_str(cargo_toml_content: &str) -> (r: Result<Self, Error>)
        ensures
            read_as_text(r, cargo_toml_content@),
    {
        Manifest::from_str(cargo_toml_content)
    }
}

} // verus!
