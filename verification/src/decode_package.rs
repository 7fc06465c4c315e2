//! Decoding the `[package]` and `[workspace]` tables. Most keys of a
//! package may defer to the workspace: written `key.workspace = true`,
//! such a key stays unresolved.

use vstd::prelude::*;
use crate::decode::{agrees, at, at_either, decode_entries, decode_opt_any, decode_opt_bool, decode_opt_string, decode_opt_strings, decode_strings, decode_string, defaulted, demanded, empty, expected, find, find_either, missing, opt_any_of, opt_bool_of, opt_string_of, opt_strings_of, reads, string_of, strings_of};
use crate::decode_dependency::{decode_opt_deps, defers_to_workspace, opt_deps_of, says_workspace};
use crate::decode_product::{decode_edition, decode_opt_edition, edition_of, opt_edition_of};
use crate::edition::Edition;
use crate::error::Error;
use crate::inherit::{MaybeInherited, True};
use crate::package::{Package, PackageView, Publish, PublishView, Resolver, StringOrBool, StringOrBoolView};
use crate::value::{TomlValue, TomlValueView};
use crate::workspace::{Workspace, WorkspacePackage, WorkspacePackageView, WorkspaceView};

verus! {

/// The version of the resolver: `"1"` or `"2"`, as text.
pub open spec fn resolver_of(v: TomlValueView) -> Result<Resolver, ()> {
    match v {
        TomlValueView::String(s) => if s == "1"@ {
            Ok(Resolver::V1)
        } else if s == "2"@ {
            Ok(Resolver::V2)
        } else {
            Err(())
        },
        _ => Err(()),
    }
}

/// Reads a resolver version: 1 or 2, as a string.
pub fn decode_resolver(v: &TomlValue) -> (r: Result<Resolver, Error>)
    ensures
        agrees(r, resolver_of(v.deep_view())),
{
    match v {
        TomlValue::String(s) => {
            if reads(s, "1") {
                Ok(Resolver::V1)
            } else if reads(s, "2") {
                Ok(Resolver::V2)
            } else {
                Err(expected("a resolver version: 1 or 2, as a string"))
            }
        },
        _ => Err(expected("a resolver version: 1 or 2, as a string")),
    }
}

/// A resolver version, under a key that may be left out.
pub open spec fn opt_resolver_of(found: Result<Option<TomlValueView>, ()>) -> Result<Option<Resolver>, ()> {
    match found {
        Ok(Some(v)) => match resolver_of(v) {
            Ok(x) => Ok(Some(x)),
            Err(_) => Err(()),
        },
        Ok(None) => Ok(None),
        Err(_) => Err(()),
    }
}

/// Reads a resolver version, if the key was found.
pub fn decode_opt_resolver(found: Option<&TomlValue>) -> (r: Result<Option<Resolver>, Error>)
    ensures
        agrees(r, opt_resolver_of(Ok(found.deep_view()))),
{
    match found {
        Some(v) => match decode_resolver(v) {
            Ok(x) => Ok(Some(x)),
            Err(e) => Err(e),
        },
        None => Ok(None),
    }
}

/// A path or a switch: a text or a boolean.
pub open spec fn string_or_bool_of(v: TomlValueView) -> Result<StringOrBoolView, ()> {
    match v {
        TomlValueView::String(s) => Ok(StringOrBoolView::String(s)),
        TomlValueView::Boolean(b) => Ok(StringOrBoolView::Bool(b)),
        _ => Err(()),
    }
}

/// Reads a path or a switch.
pub fn decode_string_or_bool(v: &TomlValue) -> (r: Result<StringOrBool, Error>)
    ensures
        agrees(r, string_or_bool_of(v.deep_view())),
{
    match v {
        TomlValue::String(s) => Ok(StringOrBool::String(s.clone())),
        TomlValue::Boolean(b) => Ok(StringOrBool::Bool(*b)),
        _ => Err(expected("a string or a boolean")),
    }
}

/// A path or a switch, under a key that may be left out.
pub open spec fn opt_string_or_bool_of(found: Result<Option<TomlValueView>, ()>) -> Result<Option<StringOrBoolView>, ()> {
    match found {
        Ok(Some(v)) => match string_or_bool_of(v) {
            Ok(x) => Ok(Some(x)),
            Err(_) => Err(()),
        },
        Ok(None) => Ok(None),
        Err(_) => Err(()),
    }
}

/// Reads a path or a switch, if the key was found.
pub fn decode_opt_string_or_bool(found: Option<&TomlValue>) -> (r: Result<Option<StringOrBool>, Error>)
    ensures
        agrees(r, opt_string_or_bool_of(Ok(found.deep_view()))),
{
    match found {
        Some(v) => match decode_string_or_bool(v) {
            Ok(x) => Ok(Some(x)),
            Err(e) => Err(e),
        },
        None => Ok(None),
    }
}

/// Where a package may be published: a boolean, or a list of registries.
pub open spec fn publish_of(v: TomlValueView) -> Result<PublishView, ()> {
    match v {
        TomlValueView::Boolean(b) => Ok(PublishView::Flag(b)),
        _ => match strings_of(v) {
            Ok(registries) => Ok(PublishView::Registry(registries)),
            Err(_) => Err(()),
        },
    }
}

/// Reads where a package may be published.
pub fn decode_publish(v: &TomlValue) -> (r: Result<Publish, Error>)
    ensures
        agrees(r, publish_of(v.deep_view())),
{
    match v {
        TomlValue::Boolean(b) => Ok(Publish::Flag(*b)),
        _ => match decode_strings(v) {
            Ok(registries) => Ok(Publish::Registry(registries)),
            Err(_) => Err(expected("a boolean or a list of registries")),
        },
    }
}

/// Where a package may be published, under a key that may be left out.
pub open spec fn opt_publish_of(found: Result<Option<TomlValueView>, ()>) -> Result<Option<PublishView>, ()> {
    match found {
        Ok(Some(v)) => match publish_of(v) {
            Ok(x) => Ok(Some(x)),
            Err(_) => Err(()),
        },
        Ok(None) => Ok(None),
        Err(_) => Err(()),
    }
}

/// Reads where a package may be published, if the key was found.
pub fn decode_opt_publish(found: Option<&TomlValue>) -> (r: Result<Option<Publish>, Error>)
    ensures
        agrees(r, opt_publish_of(Ok(found.deep_view()))),
{
    match found {
        Some(v) => match decode_publish(v) {
            Ok(x) => Ok(Some(x)),
            Err(e) => Err(e),
        },
        None => Ok(None),
    }
}

/// A value that may defer to the workspace: the deferral where it says
/// `workspace = true`, else what it decodes to by itself.
pub open spec fn inherited_or<T>(v: TomlValueView, local: Result<T, ()>) -> Result<MaybeInherited<T>, ()> {
    if says_workspace(v) {
        Ok(MaybeInherited::Inherited { workspace: True })
    } else {
        match local {
            Ok(x) => Ok(MaybeInherited::Local(x)),
            Err(_) => Err(()),
        }
    }
}

/// A text, or the deferral to the workspace.
pub open spec fn inheritable_string_of(v: TomlValueView) -> Result<MaybeInherited<Seq<char>>, ()> {
    inherited_or(v, string_of(v))
}

/// Reads a text, or the deferral to the workspace.
pub fn decode_inheritable_string(v: &TomlValue) -> (r: Result<MaybeInherited<String>, Error>)
    ensures
        agrees(r, inheritable_string_of(v.deep_view())),
{
    if defers_to_workspace(v) {
        Ok(MaybeInherited::Inherited { workspace: True })
    } else {
        match decode_string(v) {
            Ok(x) => Ok(MaybeInherited::Local(x)),
            Err(e) => Err(e),
        }
    }
}

/// A text that may be inherited, under a key that may be left out.
pub open spec fn opt_inheritable_string_of(found: Result<Option<TomlValueView>, ()>) -> Result<Option<MaybeInherited<Seq<char>>>, ()> {
    match found {
        Ok(Some(v)) => match inheritable_string_of(v) {
            Ok(x) => Ok(Some(x)),
            Err(_) => Err(()),
        },
        Ok(None) => Ok(None),
        Err(_) => Err(()),
    }
}

/// Reads a text that may be inherited, if the key was found.
pub fn decode_opt_inheritable_string(found: Option<&TomlValue>) -> (r: Result<Option<MaybeInherited<String>>, Error>)
    ensures
        agrees(r, opt_inheritable_string_of(Ok(found.deep_view()))),
{
    match found {
        Some(v) => match decode_inheritable_string(v) {
            Ok(x) => Ok(Some(x)),
            Err(e) => Err(e),
        },
        None => Ok(None),
    }
}

/// A list of texts, or the deferral to the workspace.
pub open spec fn inheritable_strings_of(v: TomlValueView) -> Result<MaybeInherited<Seq<Seq<char>>>, ()> {
    inherited_or(v, strings_of(v))
}

/// Reads a list of texts, or the deferral to the workspace.
pub fn decode_inheritable_strings(v: &TomlValue) -> (r: Result<MaybeInherited<Vec<String>>, Error>)
    ensures
        agrees(r, inheritable_strings_of(v.deep_view())),
{
    if defers_to_workspace(v) {
        Ok(MaybeInherited::Inherited { workspace: True })
    } else {
        match decode_strings(v) {
            Ok(x) => Ok(MaybeInherited::Local(x)),
            Err(e) => Err(e),
        }
    }
}

/// A list of texts that may be inherited, under a key that may be left out.
pub open spec fn opt_inheritable_strings_of(found: Result<Option<TomlValueView>, ()>) -> Result<Option<MaybeInherited<Seq<Seq<char>>>>, ()> {
    match found {
        Ok(Some(v)) => match inheritable_strings_of(v) {
            Ok(x) => Ok(Some(x)),
            Err(_) => Err(()),
        },
        Ok(None) => Ok(None),
        Err(_) => Err(()),
    }
}

/// Reads a list of texts that may be inherited, if the key was found.
pub fn decode_opt_inheritable_strings(found: Option<&TomlValue>) -> (r: Result<Option<MaybeInherited<Vec<String>>>, Error>)
    ensures
        agrees(r, opt_inheritable_strings_of(Ok(found.deep_view()))),
{
    match found {
        Some(v) => match decode_inheritable_strings(v) {
            Ok(x) => Ok(Some(x)),
            Err(e) => Err(e),
        },
        None => Ok(None),
    }
}

/// An edition, or the deferral to the workspace.
pub open spec fn inheritable_edition_of(v: TomlValueView) -> Result<MaybeInherited<Edition>, ()> {
    inherited_or(v, edition_of(v))
}

/// Reads an edition, or the deferral to the workspace.
pub fn decode_inheritable_edition(v: &TomlValue) -> (r: Result<MaybeInherited<Edition>, Error>)
    ensures
        agrees(r, inheritable_edition_of(v.deep_view())),
{
    if defers_to_workspace(v) {
        Ok(MaybeInherited::Inherited { workspace: True })
    } else {
        match decode_edition(v) {
            Ok(x) => Ok(MaybeInherited::Local(x)),
            Err(e) => Err(e),
        }
    }
}

/// An edition that may be inherited, under a key that may be left out.
pub open spec fn opt_inheritable_edition_of(found: Result<Option<TomlValueView>, ()>) -> Result<Option<MaybeInherited<Edition>>, ()> {
    match found {
        Ok(Some(v)) => match inheritable_edition_of(v) {
            Ok(x) => Ok(Some(x)),
            Err(_) => Err(()),
        },
        Ok(None) => Ok(None),
        Err(_) => Err(()),
    }
}

/// Reads an edition that may be inherited, if the key was found.
pub fn decode_opt_inheritable_edition(found: Option<&TomlValue>) -> (r: Result<Option<MaybeInherited<Edition>>, Error>)
    ensures
        agrees(r, opt_inheritable_edition_of(Ok(found.deep_view()))),
{
    match found {
        Some(v) => match decode_inheritable_edition(v) {
            Ok(x) => Ok(Some(x)),
            Err(e) => Err(e),
        },
        None => Ok(None),
    }
}

/// A path or a switch, or the deferral to the workspace.
pub open spec fn inheritable_string_or_bool_of(v: TomlValueView) -> Result<MaybeInherited<StringOrBoolView>, ()> {
    inherited_or(v, string_or_bool_of(v))
}

/// Reads a path or a switch, or the deferral to the workspace.
pub fn decode_inheritable_string_or_bool(v: &TomlValue) -> (r: Result<MaybeInherited<StringOrBool>, Error>)
    ensures
        agrees(r, inheritable_string_or_bool_of(v.deep_view())),
{
    if defers_to_workspace(v) {
        Ok(MaybeInherited::Inherited { workspace: True })
    } else {
        match decode_string_or_bool(v) {
            Ok(x) => Ok(MaybeInherited::Local(x)),
            Err(e) => Err(e),
        }
    }
}

/// A path or a switch that may be inherited, under a key that may be left out.
pub open spec fn opt_inheritable_string_or_bool_of(found: Result<Option<TomlValueView>, ()>) -> Result<Option<MaybeInherited<StringOrBoolView>>, ()> {
    match found {
        Ok(Some(v)) => match inheritable_string_or_bool_of(v) {
            Ok(x) => Ok(Some(x)),
            Err(_) => Err(()),
        },
        Ok(None) => Ok(None),
        Err(_) => Err(()),
    }
}

/// Reads a path or a switch that may be inherited, if the key was found.
pub fn decode_opt_inheritable_string_or_bool(found: Option<&TomlValue>) -> (r: Result<Option<MaybeInherited<StringOrBool>>, Error>)
    ensures
        agrees(r, opt_inheritable_string_or_bool_of(Ok(found.deep_view()))),
{
    match found {
        Some(v) => match decode_inheritable_string_or_bool(v) {
            Ok(x) => Ok(Some(x)),
            Err(e) => Err(e),
        },
        None => Ok(None),
    }
}

/// Where a package may be published, or the deferral to the workspace.
pub open spec fn inheritable_publish_of(v: TomlValueView) -> Result<MaybeInherited<PublishView>, ()> {
    inherited_or(v, publish_of(v))
}

/// Reads where a package may be published, or the deferral to the workspace.
pub fn decode_inheritable_publish(v: &TomlValue) -> (r: Result<MaybeInherited<Publish>, Error>)
    ensures
        agrees(r, inheritable_publish_of(v.deep_view())),
{
    if defers_to_workspace(v) {
        Ok(MaybeInherited::Inherited { workspace: True })
    } else {
        match decode_publish(v) {
            Ok(x) => Ok(MaybeInherited::Local(x)),
            Err(e) => Err(e),
        }
    }
}

/// Where a package may be published that may be inherited, under a key that may be left out.
pub open spec fn opt_inheritable_publish_of(found: Result<Option<TomlValueView>, ()>) -> Result<Option<MaybeInherited<PublishView>>, ()> {
    match found {
        Ok(Some(v)) => match inheritable_publish_of(v) {
            Ok(x) => Ok(Some(x)),
            Err(_) => Err(()),
        },
        Ok(None) => Ok(None),
        Err(_) => Err(()),
    }
}

/// Reads where a package may be published that may be inherited, if the key was found.
pub fn decode_opt_inheritable_publish(found: Option<&TomlValue>) -> (r: Result<Option<MaybeInherited<Publish>>, Error>)
    ensures
        agrees(r, opt_inheritable_publish_of(Ok(found.deep_view()))),
{
    match found {
        Some(v) => match decode_inheritable_publish(v) {
            Ok(x) => Ok(Some(x)),
            Err(e) => Err(e),
        },
        None => Ok(None),
    }
}

/// The `[package]` table. Only the name must be there.
pub open spec fn package_of(v: TomlValueView) -> Result<PackageView<TomlValueView>, ()> {
    match v {
        TomlValueView::Table(t) => {
            let name = demanded(opt_string_of(at(t, "name"@)));
            let edition = opt_inheritable_edition_of(at(t, "edition"@));
            let version = opt_inheritable_string_of(at(t, "version"@));
            let build = opt_string_or_bool_of(at(t, "build"@));
            let workspace = opt_string_of(at(t, "workspace"@));
            let authors = opt_inheritable_strings_of(at(t, "authors"@));
            let links = opt_string_of(at(t, "links"@));
            let description = opt_inheritable_string_of(at(t, "description"@));
            let homepage = opt_inheritable_string_of(at(t, "homepage"@));
            let documentation = opt_inheritable_string_of(at(t, "documentation"@));
            let readme = opt_inheritable_string_or_bool_of(at(t, "readme"@));
            let keywords = opt_inheritable_strings_of(at(t, "keywords"@));
            let categories = opt_inheritable_strings_of(at(t, "categories"@));
            let license = opt_inheritable_string_of(at(t, "license"@));
            let license_file = opt_inheritable_string_of(at(t, "license-file"@));
            let repository = opt_inheritable_string_of(at(t, "repository"@));
            let metadata = opt_any_of(at(t, "metadata"@));
            let rust_version = opt_inheritable_string_of(at(t, "rust-version"@));
            let exclude = opt_inheritable_strings_of(at(t, "exclude"@));
            let includes = opt_inheritable_strings_of(at(t, "include"@));
            let default_run = opt_string_of(at(t, "default-run"@));
            let autolib = opt_bool_of(at(t, "autolib"@));
            let autobins = opt_bool_of(at(t, "autobins"@));
            let autoexamples = opt_bool_of(at(t, "autoexamples"@));
            let autotests = opt_bool_of(at(t, "autotests"@));
            let autobenches = opt_bool_of(at(t, "autobenches"@));
            let publish = opt_inheritable_publish_of(at(t, "publish"@));
            let resolver = opt_resolver_of(at(t, "resolver"@));
            if name is Ok && edition is Ok && version is Ok && build is Ok && workspace is Ok && authors is Ok && links is Ok && description is Ok && homepage is Ok && documentation is Ok && readme is Ok && keywords is Ok && categories is Ok && license is Ok && license_file is Ok && repository is Ok && metadata is Ok && rust_version is Ok && exclude is Ok && includes is Ok && default_run is Ok && autolib is Ok && autobins is Ok && autoexamples is Ok && autotests is Ok && autobenches is Ok && publish is Ok && resolver is Ok {
                Ok(
                    PackageView {
                        name: name->Ok_0,
                        edition: edition->Ok_0,
                        version: version->Ok_0,
                        build: build->Ok_0,
                        workspace: workspace->Ok_0,
                        authors: authors->Ok_0,
                        links: links->Ok_0,
                        description: description->Ok_0,
                        homepage: homepage->Ok_0,
                        documentation: documentation->Ok_0,
                        readme: readme->Ok_0,
                        keywords: keywords->Ok_0,
                        categories: categories->Ok_0,
                        license: license->Ok_0,
                        license_file: license_file->Ok_0,
                        repository: repository->Ok_0,
                        metadata: metadata->Ok_0,
                        rust_version: rust_version->Ok_0,
                        exclude: exclude->Ok_0,
                        includes: includes->Ok_0,
                        default_run: default_run->Ok_0,
                        autolib: autolib->Ok_0,
                        autobins: autobins->Ok_0,
                        autoexamples: autoexamples->Ok_0,
                        autotests: autotests->Ok_0,
                        autobenches: autobenches->Ok_0,
                        publish: publish->Ok_0,
                        resolver: resolver->Ok_0,
                    },
                )
            } else {
                Err(())
            }
        },
        _ => Err(()),
    }
}

/// Reads the `[package]` table.
pub fn decode_package(v: &TomlValue) -> (r: Result<Package<TomlValue>, Error>)
    ensures
        agrees(r, package_of(v.deep_view())),
{
    let t = decode_entries(v, "a table for a package")?;
    let name = match decode_opt_string(find(t, "name"))? {
        Some(x) => x,
        None => return Err(missing("name")),
    };
    let edition = decode_opt_inheritable_edition(find(t, "edition"))?;
    let version = decode_opt_inheritable_string(find(t, "version"))?;
    let build = decode_opt_string_or_bool(find(t, "build"))?;
    let workspace = decode_opt_string(find(t, "workspace"))?;
    let authors = decode_opt_inheritable_strings(find(t, "authors"))?;
    let links = decode_opt_string(find(t, "links"))?;
    let description = decode_opt_inheritable_string(find(t, "description"))?;
    let homepage = decode_opt_inheritable_string(find(t, "homepage"))?;
    let documentation = decode_opt_inheritable_string(find(t, "documentation"))?;
    let readme = decode_opt_inheritable_string_or_bool(find(t, "readme"))?;
    let keywords = decode_opt_inheritable_strings(find(t, "keywords"))?;
    let categories = decode_opt_inheritable_strings(find(t, "categories"))?;
    let license = decode_opt_inheritable_string(find(t, "license"))?;
    let license_file = decode_opt_inheritable_string(find(t, "license-file"))?;
    let repository = decode_opt_inheritable_string(find(t, "repository"))?;
    let metadata = decode_opt_any(find(t, "metadata"))?;
    let rust_version = decode_opt_inheritable_string(find(t, "rust-version"))?;
    let exclude = decode_opt_inheritable_strings(find(t, "exclude"))?;
    let includes = decode_opt_inheritable_strings(find(t, "include"))?;
    let default_run = decode_opt_string(find(t, "default-run"))?;
    let autolib = decode_opt_bool(find(t, "autolib"))?;
    let autobins = decode_opt_bool(find(t, "autobins"))?;
    let autoexamples = decode_opt_bool(find(t, "autoexamples"))?;
    let autotests = decode_opt_bool(find(t, "autotests"))?;
    let autobenches = decode_opt_bool(find(t, "autobenches"))?;
    let publish = decode_opt_inheritable_publish(find(t, "publish"))?;
    let resolver = decode_opt_resolver(find(t, "resolver"))?;
    Ok(Package {
        name,
        edition,
        version,
        build,
        workspace,
        authors,
        links,
        description,
        homepage,
        documentation,
        readme,
        keywords,
        categories,
        license,
        license_file,
        repository,
        metadata,
        rust_version,
        exclude,
        includes,
        default_run,
        autolib,
        autobins,
        autoexamples,
        autotests,
        autobenches,
        publish,
        resolver,
    })
}

/// The `[package]` table, under a key that may be left out.
pub open spec fn opt_package_of(found: Result<Option<TomlValueView>, ()>) -> Result<Option<PackageView<TomlValueView>>, ()> {
    match found {
        Ok(Some(v)) => match package_of(v) {
            Ok(x) => Ok(Some(x)),
            Err(_) => Err(()),
        },
        Ok(None) => Ok(None),
        Err(_) => Err(()),
    }
}

/// Reads the `[package]` table, if the key was found.
pub fn decode_opt_package(found: Option<&TomlValue>) -> (r: Result<Option<Package<TomlValue>>, Error>)
    ensures
        agrees(r, opt_package_of(Ok(found.deep_view()))),
{
    match found {
        Some(v) => match decode_package(v) {
            Ok(x) => Ok(Some(x)),
            Err(e) => Err(e),
        },
        None => Ok(None),
    }
}

/// The `[workspace.package]` table.
pub open spec fn workspace_package_of(v: TomlValueView) -> Result<WorkspacePackageView, ()> {
    match v {
        TomlValueView::Table(t) => {
            let edition = opt_edition_of(at(t, "edition"@));
            let version = opt_string_of(at(t, "version"@));
            let authors = opt_strings_of(at(t, "authors"@));
            let description = opt_string_of(at(t, "description"@));
            let homepage = opt_string_of(at(t, "homepage"@));
            let documentation = opt_string_of(at(t, "documentation"@));
            let readme = opt_string_or_bool_of(at(t, "readme"@));
            let keywords = opt_strings_of(at(t, "keywords"@));
            let categories = opt_strings_of(at(t, "categories"@));
            let license = opt_string_of(at(t, "license"@));
            let license_file = opt_string_of(at(t, "license-file"@));
            let publish = opt_publish_of(at(t, "publish"@));
            let exclude = opt_strings_of(at(t, "exclude"@));
            let includes = opt_strings_of(at(t, "include"@));
            let repository = opt_string_of(at(t, "repository"@));
            let rust_version = opt_string_of(at(t, "rust-version"@));
            if edition is Ok && version is Ok && authors is Ok && description is Ok && homepage is Ok && documentation is Ok && readme is Ok && keywords is Ok && categories is Ok && license is Ok && license_file is Ok && publish is Ok && exclude is Ok && includes is Ok && repository is Ok && rust_version is Ok {
                Ok(
                    WorkspacePackageView {
                        edition: edition->Ok_0,
                        version: version->Ok_0,
                        authors: authors->Ok_0,
                        description: description->Ok_0,
                        homepage: homepage->Ok_0,
                        documentation: documentation->Ok_0,
                        readme: readme->Ok_0,
                        keywords: keywords->Ok_0,
                        categories: categories->Ok_0,
                        license: license->Ok_0,
                        license_file: license_file->Ok_0,
                        publish: publish->Ok_0,
                        exclude: exclude->Ok_0,
                        includes: includes->Ok_0,
                        repository: repository->Ok_0,
                        rust_version: rust_version->Ok_0,
                    },
                )
            } else {
                Err(())
            }
        },
        _ => Err(()),
    }
}

/// Reads the `[workspace.package]` table.
pub fn decode_workspace_package(v: &TomlValue) -> (r: Result<WorkspacePackage, Error>)
    ensures
        agrees(r, workspace_package_of(v.deep_view())),
{
    let t = decode_entries(v, "a table of package keys")?;
    let edition = decode_opt_edition(find(t, "edition"))?;
    let version = decode_opt_string(find(t, "version"))?;
    let authors = decode_opt_strings(find(t, "authors"))?;
    let description = decode_opt_string(find(t, "description"))?;
    let homepage = decode_opt_string(find(t, "homepage"))?;
    let documentation = decode_opt_string(find(t, "documentation"))?;
    let readme = decode_opt_string_or_bool(find(t, "readme"))?;
    let keywords = decode_opt_strings(find(t, "keywords"))?;
    let categories = decode_opt_strings(find(t, "categories"))?;
    let license = decode_opt_string(find(t, "license"))?;
    let license_file = decode_opt_string(find(t, "license-file"))?;
    let publish = decode_opt_publish(find(t, "publish"))?;
    let exclude = decode_opt_strings(find(t, "exclude"))?;
    let includes = decode_opt_strings(find(t, "include"))?;
    let repository = decode_opt_string(find(t, "repository"))?;
    let rust_version = decode_opt_string(find(t, "rust-version"))?;
    Ok(WorkspacePackage {
        edition,
        version,
        authors,
        description,
        homepage,
        documentation,
        readme,
        keywords,
        categories,
        license,
        license_file,
        publish,
        exclude,
        includes,
        repository,
        rust_version,
    })
}

/// The `[workspace.package]` table, under a key that may be left out.
pub open spec fn opt_workspace_package_of(found: Result<Option<TomlValueView>, ()>) -> Result<Option<WorkspacePackageView>, ()> {
    match found {
        Ok(Some(v)) => match workspace_package_of(v) {
            Ok(x) => Ok(Some(x)),
            Err(_) => Err(()),
        },
        Ok(None) => Ok(None),
        Err(_) => Err(()),
    }
}

/// Reads the `[workspace.package]` table, if the key was found.
pub fn decode_opt_workspace_package(found: Option<&TomlValue>) -> (r: Result<Option<WorkspacePackage>, Error>)
    ensures
        agrees(r, opt_workspace_package_of(Ok(found.deep_view()))),
{
    match found {
        Some(v) => match decode_workspace_package(v) {
            Ok(x) => Ok(Some(x)),
            Err(e) => Err(e),
        },
        None => Ok(None),
    }
}

/// The `[workspace]` table.
pub open spec fn workspace_of(v: TomlValueView) -> Result<WorkspaceView<TomlValueView>, ()> {
    match v {
        TomlValueView::Table(t) => {
            let members = defaulted(opt_strings_of(at(t, "members"@)), Seq::empty());
            let default_members = opt_strings_of(at_either(t, "default-members"@, "default_members"@));
            let exclude = opt_strings_of(at(t, "exclude"@));
            let resolver = opt_resolver_of(at(t, "resolver"@));
            let dependencies = opt_deps_of(at(t, "dependencies"@));
            let package = opt_workspace_package_of(at(t, "package"@));
            let metadata = opt_any_of(at(t, "metadata"@));
            if members is Ok && default_members is Ok && exclude is Ok && resolver is Ok && dependencies is Ok && package is Ok && metadata is Ok {
                Ok(
                    WorkspaceView {
                        members: members->Ok_0,
                        default_members: default_members->Ok_0,
                        exclude: exclude->Ok_0,
                        resolver: resolver->Ok_0,
                        dependencies: dependencies->Ok_0,
                        package: package->Ok_0,
                        metadata: metadata->Ok_0,
                    },
                )
            } else {
                Err(())
            }
        },
        _ => Err(()),
    }
}

/// Reads the `[workspace]` table.
pub fn decode_workspace(v: &TomlValue) -> (r: Result<Workspace<TomlValue>, Error>)
    ensures
        agrees(r, workspace_of(v.deep_view())),
{
    let t = decode_entries(v, "a table for a workspace")?;
    let members = match decode_opt_strings(find(t, "members"))? {
        Some(x) => x,
        None => empty(),
    };
    let default_members = decode_opt_strings(find_either(t, "default-members", "default_members")?)?;
    let exclude = decode_opt_strings(find(t, "exclude"))?;
    let resolver = decode_opt_resolver(find(t, "resolver"))?;
    let dependencies = decode_opt_deps(find(t, "dependencies"))?;
    let package = decode_opt_workspace_package(find(t, "package"))?;
    let metadata = decode_opt_any(find(t, "metadata"))?;
    Ok(Workspace {
        members,
        default_members,
        exclude,
        resolver,
        dependencies,
        package,
        metadata,
    })
}

/// The `[workspace]` table, under a key that may be left out.
pub open spec fn opt_workspace_of(found: Result<Option<TomlValueView>, ()>) -> Result<Option<WorkspaceView<TomlValueView>>, ()> {
    match found {
        Ok(Some(v)) => match workspace_of(v) {
            Ok(x) => Ok(Some(x)),
            Err(_) => Err(()),
        },
        Ok(None) => Ok(None),
        Err(_) => Err(()),
    }
}

/// Reads the `[workspace]` table, if the key was found.
pub fn decode_opt_workspace(found: Option<&TomlValue>) -> (r: Result<Option<Workspace<TomlValue>>, Error>)
    ensures
        agrees(r, opt_workspace_of(Ok(found.deep_view()))),
{
    match found {
        Some(v) => match decode_workspace(v) {
            Ok(x) => Ok(Some(x)),
            Err(e) => Err(e),
        },
        None => Ok(None),
    }
}

} // verus!
