//! Decoding dependencies. One is written in one of three shapes, which
//! are tried in this order: a bare version, a table that defers to the
//! workspace, a table of its own. The order matters: a table that says
//! `workspace = true` would pass for a table of its own that happens to
//! set nothing.

use vstd::prelude::*;
use crate::decode::{agrees, at, at_either, decode_entries, decode_opt_bool, decode_opt_string, decode_opt_strings, decode_strings, defaulted, demanded, empty, expected, find, find_either, lookup, missing, opt_bool_of, opt_string_of, opt_strings_of, strings_of, table_of};
use crate::dependency::{Dependency, DependencyDetail, DependencyDetailView, DependencyView, InheritedDependencyDetail, InheritedDependencyDetailView};
use crate::error::Error;
use crate::inherit::True;
use crate::manifest::{Target, TargetView};
use crate::value::{TomlValue, TomlValueView};

verus! {

/// The one value that the key `workspace` takes: `true`.
pub open spec fn truth_of(v: TomlValueView) -> Result<True, ()> {
    match v {
        TomlValueView::Boolean(true) => Ok(True),
        _ => Err(()),
    }
}

/// Reads the value of the key `workspace`.
pub fn decode_truth(v: &TomlValue) -> (r: Result<True, Error>)
    ensures
        agrees(r, truth_of(v.deep_view())),
{
    match v {
        TomlValue::Boolean(true) => Ok(True),
        _ => Err(expected("the boolean `true`")),
    }
}

/// Whether a value defers to the workspace: it is a table in which
/// `workspace` is `true`, whatever else the table holds.
pub open spec fn says_workspace(v: TomlValueView) -> bool {
    match v {
        TomlValueView::Table(t) => lookup(t, "workspace"@) == Some(TomlValueView::Boolean(true)),
        _ => false,
    }
}

/// Whether a value defers to the workspace.
pub fn defers_to_workspace(v: &TomlValue) -> (r: bool)
    ensures
        r == says_workspace(v.deep_view()),
{
    match v {
        TomlValue::Table(entries) => {
            proof {
                crate::value::lemma_table_view(*v);
            }
            match find(entries, "workspace") {
                Some(TomlValue::Boolean(flag)) => *flag,
                _ => false,
            }
        },
        _ => false,
    }
}

/// The value `true`, under a key that may be left out.
pub open spec fn opt_truth_of(found: Result<Option<TomlValueView>, ()>) -> Result<Option<True>, ()> {
    match found {
        Ok(Some(v)) => match truth_of(v) {
            Ok(x) => Ok(Some(x)),
            Err(_) => Err(()),
        },
        Ok(None) => Ok(None),
        Err(_) => Err(()),
    }
}

/// Reads the value `true`, if the key was found.
pub fn decode_opt_truth(found: Option<&TomlValue>) -> (r: Result<Option<True>, Error>)
    ensures
        agrees(r, opt_truth_of(Ok(found.deep_view()))),
{
    match found {
        Some(v) => match decode_truth(v) {
            Ok(x) => Ok(Some(x)),
            Err(e) => Err(e),
        },
        None => Ok(None),
    }
}

/// A dependency that defers to the workspace: a table in which `workspace`
/// is `true`, with the features and the `optional` switch that the
/// package adds. Other keys are passed over.
pub open spec fn inherited_dependency_of(v: TomlValueView) -> Result<InheritedDependencyDetailView, ()> {
    match v {
        TomlValueView::Table(t) => {
            let workspace = demanded(opt_truth_of(at(t, "workspace"@)));
            let features = opt_strings_of(at(t, "features"@));
            let optional = opt_bool_of(at(t, "optional"@));
            if workspace is Ok && features is Ok && optional is Ok {
                Ok(
                    InheritedDependencyDetailView {
                        features: features->Ok_0,
                        optional: optional->Ok_0,
                    },
                )
            } else {
                Err(())
            }
        },
        _ => Err(()),
    }
}

/// Reads a dependency that defers to the workspace.
pub fn decode_inherited_dependency(v: &TomlValue) -> (r: Result<InheritedDependencyDetail, Error>)
    ensures
        agrees(r, inherited_dependency_of(v.deep_view())),
{
    let t = decode_entries(v, "a table for a dependency")?;
    let workspace = match decode_opt_truth(find(t, "workspace"))? {
        Some(x) => x,
        None => return Err(missing("workspace")),
    };
    let features = decode_opt_strings(find(t, "features"))?;
    let optional = decode_opt_bool(find(t, "optional"))?;
    Ok(InheritedDependencyDetail {
        workspace,
        features,
        optional,
    })
}

/// A dependency with a table of its own.
pub open spec fn dependency_detail_of(v: TomlValueView) -> Result<DependencyDetailView, ()> {
    match v {
        TomlValueView::Table(t) => {
            let version = opt_string_of(at(t, "version"@));
            let registry = opt_string_of(at(t, "registry"@));
            let registry_index = opt_string_of(at_either(t, "registry-index"@, "registry_index"@));
            let path = opt_string_of(at(t, "path"@));
            let git = opt_string_of(at(t, "git"@));
            let branch = opt_string_of(at(t, "branch"@));
            let tag = opt_string_of(at(t, "tag"@));
            let rev = opt_string_of(at(t, "rev"@));
            let features = opt_strings_of(at(t, "features"@));
            let optional = opt_bool_of(at(t, "optional"@));
            let default_features = opt_bool_of(at_either(t, "default-features"@, "default_features"@));
            let package = opt_string_of(at(t, "package"@));
            if version is Ok && registry is Ok && registry_index is Ok && path is Ok && git is Ok && branch is Ok && tag is Ok && rev is Ok && features is Ok && optional is Ok && default_features is Ok && package is Ok {
                Ok(
                    DependencyDetailView {
                        version: version->Ok_0,
                        registry: registry->Ok_0,
                        registry_index: registry_index->Ok_0,
                        path: path->Ok_0,
                        git: git->Ok_0,
                        branch: branch->Ok_0,
                        tag: tag->Ok_0,
                        rev: rev->Ok_0,
                        features: features->Ok_0,
                        optional: optional->Ok_0,
                        default_features: default_features->Ok_0,
                        package: package->Ok_0,
                    },
                )
            } else {
                Err(())
            }
        },
        _ => Err(()),
    }
}

/// Reads a dependency with a table of its own.
pub fn decode_dependency_detail(v: &TomlValue) -> (r: Result<DependencyDetail, Error>)
    ensures
        agrees(r, dependency_detail_of(v.deep_view())),
{
    let t = decode_entries(v, "a table for a dependency")?;
    let version = decode_opt_string(find(t, "version"))?;
    let registry = decode_opt_string(find(t, "registry"))?;
    let registry_index = decode_opt_string(find_either(t, "registry-index", "registry_index")?)?;
    let path = decode_opt_string(find(t, "path"))?;
    let git = decode_opt_string(find(t, "git"))?;
    let branch = decode_opt_string(find(t, "branch"))?;
    let tag = decode_opt_string(find(t, "tag"))?;
    let rev = decode_opt_string(find(t, "rev"))?;
    let features = decode_opt_strings(find(t, "features"))?;
    let optional = decode_opt_bool(find(t, "optional"))?;
    let default_features = decode_opt_bool(find_either(t, "default-features", "default_features")?)?;
    let package = decode_opt_string(find(t, "package"))?;
    Ok(DependencyDetail {
        version,
        registry,
        registry_index,
        path,
        git,
        branch,
        tag,
        rev,
        features,
        optional,
        default_features,
        package,
    })
}

/// A dependency in whichever shape it is written.
pub open spec fn dependency_of(v: TomlValueView) -> Result<DependencyView, ()> {
    match v {
        TomlValueView::String(version) => Ok(DependencyView::Simple(version)),
        _ => match inherited_dependency_of(v) {
            Ok(inherited) => Ok(DependencyView::Inherited(inherited)),
            Err(_) => match dependency_detail_of(v) {
                Ok(detail) => Ok(DependencyView::Detailed(detail)),
                Err(_) => Err(()),
            },
        },
    }
}

/// Reads a dependency.
pub fn decode_dependency(v: &TomlValue) -> (r: Result<Dependency, Error>)
    ensures
        agrees(r, dependency_of(v.deep_view())),
{
    match v {
        TomlValue::String(version) => Ok(Dependency::Simple(version.clone())),
        _ => match decode_inherited_dependency(v) {
            Ok(inherited) => Ok(Dependency::Inherited(inherited)),
            Err(_) => match decode_dependency_detail(v) {
                Ok(detail) => Ok(Dependency::Detailed(detail)),
                Err(_) => Err(expected("a version, or a table that describes a dependency")),
            },
        },
    }
}

/// A table of dependencies.
pub open spec fn deps_of(v: TomlValueView) -> Result<Seq<(Seq<char>, DependencyView)>, ()> {
    table_of(v, |item: TomlValueView| dependency_of(item))
}

/// Reads a table of dependencies.
pub fn decode_deps(v: &TomlValue) -> (r: Result<Vec<(String, Dependency)>, Error>)
    ensures
        agrees(r, deps_of(v.deep_view())),
{
    let entries = decode_entries(v, "a table of dependencies")?;
    let ghost of = |item: TomlValueView| dependency_of(item);
    let mut out: Vec<(String, Dependency)> = Vec::new();
    let mut i: usize = 0;
    while i < entries.len()
        invariant
            i <= entries.len(),
            out.len() == i,
            v.deep_view() == TomlValueView::Table(entries.deep_view()),
            of == (|item: TomlValueView| dependency_of(item)),
            forall|j: int|
                0 <= j < i ==> (#[trigger] of(entries.deep_view()[j].1)) == Ok::<DependencyView, ()>(out@[j].1.deep_view())
                    && out@[j].0@ == entries.deep_view()[j].0,
        decreases entries.len() - i,
    {
        assert(entries.deep_view()[i as int] == (entries@[i as int].0.deep_view(), entries@[i as int].1.deep_view()));
        match decode_dependency(&entries[i].1) {
            Ok(item) => out.push((entries[i].0.clone(), item)),
            Err(e) => {
                assert(of(entries.deep_view()[i as int].1) is Err);
                return Err(e);
            },
        }
        i = i + 1;
    }
    proof {
        let expected = deps_of(v.deep_view())->Ok_0;
        assert(out.deep_view().len() == expected.len());
        assert forall|j: int| 0 <= j < expected.len() implies out.deep_view()[j] == expected[j] by {
            assert(out.deep_view()[j] == (out@[j].0.deep_view(), out@[j].1.deep_view()));
            assert(of(entries.deep_view()[j].1) is Ok);
        }
        assert(out.deep_view() =~= expected);
    }
    Ok(out)
}

/// A table of dependencies, under a key that may be left out.
pub open spec fn opt_deps_of(found: Result<Option<TomlValueView>, ()>) -> Result<Option<Seq<(Seq<char>, DependencyView)>>, ()> {
    match found {
        Ok(Some(v)) => match deps_of(v) {
            Ok(x) => Ok(Some(x)),
            Err(_) => Err(()),
        },
        Ok(None) => Ok(None),
        Err(_) => Err(()),
    }
}

/// Reads a table of dependencies, if the key was found.
pub fn decode_opt_deps(found: Option<&TomlValue>) -> (r: Result<Option<Vec<(String, Dependency)>>, Error>)
    ensures
        agrees(r, opt_deps_of(Ok(found.deep_view()))),
{
    match found {
        Some(v) => match decode_deps(v) {
            Ok(x) => Ok(Some(x)),
            Err(e) => Err(e),
        },
        None => Ok(None),
    }
}

/// The dependencies of one platform; each of the three tables is empty
/// where it is left out.
pub open spec fn target_of(v: TomlValueView) -> Result<TargetView, ()> {
    match v {
        TomlValueView::Table(t) => {
            let dependencies = defaulted(opt_deps_of(at(t, "dependencies"@)), Seq::empty());
            let dev_dependencies = defaulted(opt_deps_of(at_either(t, "dev-dependencies"@, "dev_dependencies"@)), Seq::empty());
            let build_dependencies = defaulted(opt_deps_of(at_either(t, "build-dependencies"@, "build_dependencies"@)), Seq::empty());
            if dependencies is Ok && dev_dependencies is Ok && build_dependencies is Ok {
                Ok(
                    TargetView {
                        dependencies: dependencies->Ok_0,
                        dev_dependencies: dev_dependencies->Ok_0,
                        build_dependencies: build_dependencies->Ok_0,
                    },
                )
            } else {
                Err(())
            }
        },
        _ => Err(()),
    }
}

/// Reads the dependencies of one platform.
pub fn decode_target(v: &TomlValue) -> (r: Result<Target, Error>)
    ensures
        agrees(r, target_of(v.deep_view())),
{
    let t = decode_entries(v, "a table for a platform")?;
    let dependencies = match decode_opt_deps(find(t, "dependencies"))? {
        Some(x) => x,
        None => empty(),
    };
    let dev_dependencies = match decode_opt_deps(find_either(t, "dev-dependencies", "dev_dependencies")?)? {
        Some(x) => x,
        None => empty(),
    };
    let build_dependencies = match decode_opt_deps(find_either(t, "build-dependencies", "build_dependencies")?)? {
        Some(x) => x,
        None => empty(),
    };
    Ok(Target {
        dependencies,
        dev_dependencies,
        build_dependencies,
    })
}

/// The dependencies by platform.
pub open spec fn targets_of(v: TomlValueView) -> Result<Seq<(Seq<char>, TargetView)>, ()> {
    table_of(v, |item: TomlValueView| target_of(item))
}

/// Reads the dependencies by platform.
pub fn decode_targets(v: &TomlValue) -> (r: Result<Vec<(String, Target)>, Error>)
    ensures
        agrees(r, targets_of(v.deep_view())),
{
    let entries = decode_entries(v, "a table of platforms")?;
    let ghost of = |item: TomlValueView| target_of(item);
    let mut out: Vec<(String, Target)> = Vec::new();
    let mut i: usize = 0;
    while i < entries.len()
        invariant
            i <= entries.len(),
            out.len() == i,
            v.deep_view() == TomlValueView::Table(entries.deep_view()),
            of == (|item: TomlValueView| target_of(item)),
            forall|j: int|
                0 <= j < i ==> (#[trigger] of(entries.deep_view()[j].1)) == Ok::<TargetView, ()>(out@[j].1.deep_view())
                    && out@[j].0@ == entries.deep_view()[j].0,
        decreases entries.len() - i,
    {
        assert(entries.deep_view()[i as int] == (entries@[i as int].0.deep_view(), entries@[i as int].1.deep_view()));
        match decode_target(&entries[i].1) {
            Ok(item) => out.push((entries[i].0.clone(), item)),
            Err(e) => {
                assert(of(entries.deep_view()[i as int].1) is Err);
                return Err(e);
            },
        }
        i = i + 1;
    }
    proof {
        let expected = targets_of(v.deep_view())->Ok_0;
        assert(out.deep_view().len() == expected.len());
        assert forall|j: int| 0 <= j < expected.len() implies out.deep_view()[j] == expected[j] by {
            assert(out.deep_view()[j] == (out@[j].0.deep_view(), out@[j].1.deep_view()));
            assert(of(entries.deep_view()[j].1) is Ok);
        }
        assert(out.deep_view() =~= expected);
    }
    Ok(out)
}

/// The dependencies by platform, under a key that may be left out.
pub open spec fn opt_targets_of(found: Result<Option<TomlValueView>, ()>) -> Result<Option<Seq<(Seq<char>, TargetView)>>, ()> {
    match found {
        Ok(Some(v)) => match targets_of(v) {
            Ok(x) => Ok(Some(x)),
            Err(_) => Err(()),
        },
        Ok(None) => Ok(None),
        Err(_) => Err(()),
    }
}

/// Reads the dependencies by platform, if the key was found.
pub fn decode_opt_targets(found: Option<&TomlValue>) -> (r: Result<Option<Vec<(String, Target)>>, Error>)
    ensures
        agrees(r, opt_targets_of(Ok(found.deep_view()))),
{
    match found {
        Some(v) => match decode_targets(v) {
            Ok(x) => Ok(Some(x)),
            Err(e) => Err(e),
        },
        None => Ok(None),
    }
}

/// The features: each with the list of what it switches on.
pub open spec fn features_of(v: TomlValueView) -> Result<Seq<(Seq<char>, Seq<Seq<char>>)>, ()> {
    table_of(v, |item: TomlValueView| strings_of(item))
}

/// Reads the table of features.
pub fn decode_features(v: &TomlValue) -> (r: Result<Vec<(String, Vec<String>)>, Error>)
    ensures
        agrees(r, features_of(v.deep_view())),
{
    let entries = decode_entries(v, "a table of features")?;
    let ghost of = |item: TomlValueView| strings_of(item);
    let mut out: Vec<(String, Vec<String>)> = Vec::new();
    let mut i: usize = 0;
    while i < entries.len()
        invariant
            i <= entries.len(),
            out.len() == i,
            v.deep_view() == TomlValueView::Table(entries.deep_view()),
            of == (|item: TomlValueView| strings_of(item)),
            forall|j: int|
                0 <= j < i ==> (#[trigger] of(entries.deep_view()[j].1)) == Ok::<Seq<Seq<char>>, ()>(out@[j].1.deep_view())
                    && out@[j].0@ == entries.deep_view()[j].0,
        decreases entries.len() - i,
    {
        assert(entries.deep_view()[i as int] == (entries@[i as int].0.deep_view(), entries@[i as int].1.deep_view()));
        match decode_strings(&entries[i].1) {
            Ok(item) => out.push((entries[i].0.clone(), item)),
            Err(e) => {
                assert(of(entries.deep_view()[i as int].1) is Err);
                return Err(e);
            },
        }
        i = i + 1;
    }
    proof {
        let expected = features_of(v.deep_view())->Ok_0;
        assert(out.deep_view().len() == expected.len());
        assert forall|j: int| 0 <= j < expected.len() implies out.deep_view()[j] == expected[j] by {
            assert(out.deep_view()[j] == (out@[j].0.deep_view(), out@[j].1.deep_view()));
            assert(of(entries.deep_view()[j].1) is Ok);
        }
        assert(out.deep_view() =~= expected);
    }
    Ok(out)
}

/// The table of features, under a key that may be left out.
pub open spec fn opt_features_of(found: Result<Option<TomlValueView>, ()>) -> Result<Option<Seq<(Seq<char>, Seq<Seq<char>>)>>, ()> {
    match found {
        Ok(Some(v)) => match features_of(v) {
            Ok(x) => Ok(Some(x)),
            Err(_) => Err(()),
        },
        Ok(None) => Ok(None),
        Err(_) => Err(()),
    }
}

/// Reads the table of features, if the key was found.
pub fn decode_opt_features(found: Option<&TomlValue>) -> (r: Result<Option<Vec<(String, Vec<String>)>>, Error>)
    ensures
        agrees(r, opt_features_of(Ok(found.deep_view()))),
{
    match found {
        Some(v) => match decode_features(v) {
            Ok(x) => Ok(Some(x)),
            Err(e) => Err(e),
        },
        None => Ok(None),
    }
}

/// The patches: for each registry a table of dependencies.
pub open spec fn patches_of(v: TomlValueView) -> Result<Seq<(Seq<char>, Seq<(Seq<char>, DependencyView)>)>, ()> {
    table_of(v, |item: TomlValueView| deps_of(item))
}

/// Reads the table of patches.
pub fn decode_patches(v: &TomlValue) -> (r: Result<Vec<(String, Vec<(String, Dependency)>)>, Error>)
    ensures
        agrees(r, patches_of(v.deep_view())),
{
    let entries = decode_entries(v, "a table of patches")?;
    let ghost of = |item: TomlValueView| deps_of(item);
    let mut out: Vec<(String, Vec<(String, Dependency)>)> = Vec::new();
    let mut i: usize = 0;
    while i < entries.len()
        invariant
            i <= entries.len(),
            out.len() == i,
            v.deep_view() == TomlValueView::Table(entries.deep_view()),
            of == (|item: TomlValueView| deps_of(item)),
            forall|j: int|
                0 <= j < i ==> (#[trigger] of(entries.deep_view()[j].1)) == Ok::<Seq<(Seq<char>, DependencyView)>, ()>(out@[j].1.deep_view())
                    && out@[j].0@ == entries.deep_view()[j].0,
        decreases entries.len() - i,
    {
        assert(entries.deep_view()[i as int] == (entries@[i as int].0.deep_view(), entries@[i as int].1.deep_view()));
        match decode_deps(&entries[i].1) {
            Ok(item) => out.push((entries[i].0.clone(), item)),
            Err(e) => {
                assert(of(entries.deep_view()[i as int].1) is Err);
                return Err(e);
            },
        }
        i = i + 1;
    }
    proof {
        let expected = patches_of(v.deep_view())->Ok_0;
        assert(out.deep_view().len() == expected.len());
        assert forall|j: int| 0 <= j < expected.len() implies out.deep_view()[j] == expected[j] by {
            assert(out.deep_view()[j] == (out@[j].0.deep_view(), out@[j].1.deep_view()));
            assert(of(entries.deep_view()[j].1) is Ok);
        }
        assert(out.deep_view() =~= expected);
    }
    Ok(out)
}

/// The table of patches, under a key that may be left out.
pub open spec fn opt_patches_of(found: Result<Option<TomlValueView>, ()>) -> Result<Option<Seq<(Seq<char>, Seq<(Seq<char>, DependencyView)>)>>, ()> {
    match found {
        Ok(Some(v)) => match patches_of(v) {
            Ok(x) => Ok(Some(x)),
            Err(_) => Err(()),
        },
        Ok(None) => Ok(None),
        Err(_) => Err(()),
    }
}

/// Reads the table of patches, if the key was found.
pub fn decode_opt_patches(found: Option<&TomlValue>) -> (r: Result<Option<Vec<(String, Vec<(String, Dependency)>)>>, Error>)
    ensures
        agrees(r, opt_patches_of(Ok(found.deep_view()))),
{
    match found {
        Some(v) => match decode_patches(v) {
            Ok(x) => Ok(Some(x)),
            Err(e) => Err(e),
        },
        None => Ok(None),
    }
}

} // verus!
