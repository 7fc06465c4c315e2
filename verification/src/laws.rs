//! What holds of completion and of dependencies as a whole: completing a
//! second time changes nothing, the order in which a directory is listed
//! does not matter, and a dependency that gives only a version can be
//! written as that version.

use vstd::prelude::*;
use crate::complete::{completed_binaries, completed_build, completed_lib, completed_targets, binaries_found, discovery_enabled, names_if_present, Layout};
use crate::decode::lookup;
use crate::decode_dependency::{dependency_of, inherited_dependency_of};
use crate::decode_manifest::document_of;
use crate::dependency::{DependencyDetailView, DependencyView};
use crate::value::TomlValueView;
use crate::discover::{discovered, entry_names, is_scan, DirectoryEntryView, DiscoveredTargetView};
use crate::edition::Edition;
use crate::manifest::ManifestView;
use crate::merge::{all_matched, all_or_defaults, all_or_path, merged, uses_path, with_found_added};
use crate::product::ProductView;
use crate::text::{lemma_increasing_order_unique, lemma_precedes_irreflexive};

verus! {

/// A detailed dependency of which only the version is given is, once
/// simplified, the simple dependency on that version.
pub proof fn lemma_version_only_simplifies(version: Seq<char>)
    ensures
        DependencyView::Detailed(
            DependencyDetailView { version: Some(version), ..DependencyDetailView::empty() },
        ).simplified() == DependencyView::Simple(version),
{
}

/// A dependency written as a table with only a `version` is read as a
/// detailed one, and simplifying it gives the simple dependency on that
/// version: `{ version = "1.0" }` and `"1.0"` say the same.
pub proof fn lemma_version_table_simplifies(version: Seq<char>)
    ensures
        dependency_of(TomlValueView::Table(seq![("version"@, TomlValueView::String(version))])) == Ok::<
            DependencyView,
            (),
        >(
            DependencyView::Detailed(
                DependencyDetailView { version: Some(version), ..DependencyDetailView::empty() },
            ),
        ),
        dependency_of(
            TomlValueView::Table(seq![("version"@, TomlValueView::String(version))]),
        )->Ok_0.simplified() == DependencyView::Simple(version),
{
    reveal_strlit("version");
    reveal_strlit("workspace");
    reveal_strlit("registry");
    reveal_strlit("registry-index");
    reveal_strlit("registry_index");
    reveal_strlit("path");
    reveal_strlit("git");
    reveal_strlit("branch");
    reveal_strlit("tag");
    reveal_strlit("rev");
    reveal_strlit("features");
    reveal_strlit("optional");
    reveal_strlit("default-features");
    reveal_strlit("default_features");
    reveal_strlit("package");
    reveal_with_fuel(lookup, 3);
    let t = seq![("version"@, TomlValueView::String(version))];
    assert(t.drop_first() =~= Seq::empty());
    assert("package"@[0] != "version"@[0]);
    assert(lookup(t, "version"@) == Some(TomlValueView::String(version)));
    assert(lookup(t, "workspace"@) is None);
    assert(lookup(t, "registry"@) is None);
    assert(lookup(t, "registry-index"@) is None);
    assert(lookup(t, "registry_index"@) is None);
    assert(lookup(t, "path"@) is None);
    assert(lookup(t, "git"@) is None);
    assert(lookup(t, "branch"@) is None);
    assert(lookup(t, "tag"@) is None);
    assert(lookup(t, "rev"@) is None);
    assert(lookup(t, "features"@) is None);
    assert(lookup(t, "optional"@) is None);
    assert(lookup(t, "default-features"@) is None);
    assert(lookup(t, "default_features"@) is None);
    assert(lookup(t, "package"@) is None);
}

/// Simplifying changes none of the answers that a dependency gives.
pub proof fn lemma_simplify_keeps_answers(d: DependencyView)
    ensures
        d.simplified().req() == d.req(),
        d.simplified().req_features() == d.req_features(),
        d.simplified().optional() == d.optional(),
        d.simplified().package() == d.package(),
        d.simplified().git() == d.git(),
        d.simplified().is_crates_io() == d.is_crates_io(),
        d.simplified().simplified() == d.simplified(),
{
}

/// A directory has one scan only: two scans that hold the same entries
/// hold them in the same order, so the targets found do not depend on the
/// order in which the file system lists the directory.
pub proof fn lemma_discovery_ignores_listing_order(
    dir: Seq<char>,
    first: Seq<DirectoryEntryView>,
    second: Seq<DirectoryEntryView>,
)
    requires
        is_scan(first),
        is_scan(second),
        first.to_set() == second.to_set(),
    ensures
        first == second,
        discovered(dir, first) == discovered(dir, second),
{
    let a = entry_names(first);
    let b = entry_names(second);
    assert forall|n: Seq<char>| a.to_set().contains(n) <==> b.to_set().contains(n) by {
        if a.contains(n) {
            let i = choose|i: int| 0 <= i < a.len() && a[i] == n;
            assert(first.to_set().contains(first[i]));
            assert(second.contains(first[i]));
            let j = choose|j: int| 0 <= j < second.len() && second[j] == first[i];
            assert(b[j] == n);
        }
        if b.contains(n) {
            let i = choose|i: int| 0 <= i < b.len() && b[i] == n;
            assert(second.to_set().contains(second[i]));
            assert(first.contains(second[i]));
            let j = choose|j: int| 0 <= j < first.len() && first[j] == second[i];
            assert(a[j] == n);
        }
    }
    assert(a.to_set() =~= b.to_set());
    lemma_increasing_order_unique(a, b);
    assert(a.len() == first.len());
    assert(b.len() == second.len());
    assert forall|i: int| 0 <= i < first.len() implies first[i] == second[i] by {
        assert(first.to_set().contains(first[i]));
        assert(second.contains(first[i]));
        let j = choose|j: int| 0 <= j < second.len() && second[j] == first[i];
        assert(b[j] == a[i]);
        assert(b[i] == a[i]);
        lemma_precedes_irreflexive(a[i]);
        if j < i {
            assert(crate::text::precedes(b[j], b[i]));
        } else if i < j {
            assert(crate::text::precedes(b[i], b[j]));
        }
    }
    assert(first =~= second);
}

/// Adding the discovered targets keeps the targets that were there, in
/// their places, and what it adds has a path.
proof fn lemma_added_behind(targets: Seq<ProductView>, found: Seq<DiscoveredTargetView>)
    ensures
        with_found_added(targets, found).len() >= targets.len(),
        forall|i: int| 0 <= i < targets.len() ==> with_found_added(targets, found)[i] == targets[i],
        forall|i: int|
            targets.len() <= i < with_found_added(targets, found).len() ==> (#[trigger] with_found_added(
                targets,
                found,
            )[i]).path is Some,
    decreases found.len(),
{
    if found.len() > 0 {
        lemma_added_behind(targets, found.drop_last());
    }
}

/// After the discovered targets are added, the path of each is in use.
proof fn lemma_found_paths_in_use(targets: Seq<ProductView>, found: Seq<DiscoveredTargetView>, k: int)
    requires
        0 <= k < found.len(),
    ensures
        uses_path(with_found_added(targets, found), found[k].path),
    decreases found.len(),
{
    let before = with_found_added(targets, found.drop_last());
    let all = with_found_added(targets, found);
    if k == found.len() - 1 {
        if !uses_path(before, found.last().path) {
            assert(all[before.len() as int].path == Some(found[k].path));
        }
    } else {
        lemma_found_paths_in_use(targets, found.drop_last(), k);
        let i = choose|i: int| 0 <= i < before.len() && (#[trigger] before[i]).path == Some(found[k].path);
        assert(all[i] == before[i]);
    }
}

/// Where the path of each discovered target is in use, adding them adds
/// nothing.
proof fn lemma_nothing_to_add(targets: Seq<ProductView>, found: Seq<DiscoveredTargetView>)
    requires
        forall|k: int| 0 <= k < found.len() ==> uses_path(targets, (#[trigger] found[k]).path),
    ensures
        with_found_added(targets, found) == targets,
    decreases found.len(),
{
    if found.len() > 0 {
        assert forall|k: int| 0 <= k < found.drop_last().len() implies uses_path(
            targets,
            (#[trigger] found.drop_last()[k]).path,
        ) by {
            assert(found.drop_last()[k] == found[k]);
        }
        lemma_nothing_to_add(targets, found.drop_last());
        assert(uses_path(targets, found[found.len() - 1].path));
    }
}

/// The targets of one kind when completion is done with them: merged,
/// given the defaults and, where a path stands in for a missing one,
/// given that.
pub open spec fn finished(
    declared: Seq<ProductView>,
    found: Seq<DiscoveredTargetView>,
    add: bool,
    edition: Option<Edition>,
    stand_in: Option<Seq<char>>,
) -> Seq<ProductView> {
    let all = all_or_defaults(merged(declared, found, add), edition, "bin"@);
    match stand_in {
        Some(path) => all_or_path(all, path),
        None => all,
    }
}

/// Finishing the targets of one kind a second time, against the same
/// discoveries, changes nothing. Whether the second time adds what it
/// finds does not matter, so long as it adds only where the first did.
pub proof fn lemma_finished_twice(
    declared: Seq<ProductView>,
    found: Seq<DiscoveredTargetView>,
    add: bool,
    add_again: bool,
    edition: Option<Edition>,
    stand_in: Option<Seq<char>>,
)
    requires
        add_again ==> add,
    ensures
        finished(finished(declared, found, add, edition, stand_in), found, add_again, edition, stand_in)
            == finished(declared, found, add, edition, stand_in),
        finished(declared, found, add, edition, stand_in).len() >= declared.len(),
{
    let matched = all_matched(declared, found);
    let all = merged(declared, found, add);
    let once = finished(declared, found, add, edition, stand_in);
    lemma_added_behind(matched, found);
    assert(once.len() == all.len());
    // Each target at rest is matched already.
    assert forall|i: int| 0 <= i < once.len() implies (#[trigger] once[i]).matched(found) == once[i] by {
        if i < declared.len() {
            assert(matched[i] == declared[i].matched(found));
            assert(all[i] == matched[i]);
        } else {
            assert(all[i].path is Some);
        }
    }
    assert(all_matched(once, found) =~= once);
    if add_again {
        assert forall|k: int| 0 <= k < found.len() implies uses_path(once, (#[trigger] found[k]).path) by {
            lemma_found_paths_in_use(matched, found, k);
            let i = choose|i: int| 0 <= i < all.len() && (#[trigger] all[i]).path == Some(found[k].path);
            assert(once[i].path == Some(found[k].path));
        }
        lemma_nothing_to_add(once, found);
    }
    assert(merged(once, found, add_again) == once);
    let again = all_or_defaults(once, edition, "bin"@);
    assert(again =~= once);
    match stand_in {
        Some(path) => {
            assert(all_or_path(again, path) =~= once);
        },
        None => {},
    }
}

/// Completing the binaries a second time changes nothing.
pub proof fn lemma_binaries_completed_twice(
    declared: Seq<ProductView>,
    package_name: Seq<char>,
    legacy: bool,
    edition: Option<Edition>,
    choice: Option<bool>,
    src: Seq<Seq<char>>,
    bin: Seq<DirectoryEntryView>,
)
    ensures
        ({
            let once = completed_binaries(
                declared,
                package_name,
                legacy,
                edition,
                discovery_enabled(choice, legacy, declared.len()),
                src,
                bin,
            );
            completed_binaries(
                once,
                package_name,
                legacy,
                edition,
                discovery_enabled(choice, legacy, once.len()),
                src,
                bin,
            ) == once
        }),
{
    let stand_in = if legacy && src.contains("main.rs"@) {
        Some("src/main.rs"@)
    } else {
        None
    };
    let found = binaries_found(package_name, src, bin);
    let add = discovery_enabled(choice, legacy, declared.len());
    let once = finished(declared, found, add, edition, stand_in);
    assert(once == completed_binaries(declared, package_name, legacy, edition, add, src, bin));
    lemma_finished_twice(declared, found, add, false, edition, stand_in);
    let add_again = discovery_enabled(choice, legacy, once.len());
    lemma_finished_twice(declared, found, add, add_again, edition, stand_in);
    assert(finished(once, found, add_again, edition, stand_in) == completed_binaries(
        once,
        package_name,
        legacy,
        edition,
        add_again,
        src,
        bin,
    ));
}

/// Completing the examples, tests or benchmarks a second time changes
/// nothing.
pub proof fn lemma_targets_completed_twice(
    declared: Seq<ProductView>,
    legacy: bool,
    edition: Option<Edition>,
    choice: Option<bool>,
    dir: Seq<char>,
    entries: Seq<DirectoryEntryView>,
)
    ensures
        ({
            let once = completed_targets(
                declared,
                edition,
                discovery_enabled(choice, legacy, declared.len()),
                dir,
                entries,
            );
            completed_targets(once, edition, discovery_enabled(choice, legacy, once.len()), dir, entries)
                == once
        }),
{
    let found = discovered(dir, entries);
    let add = discovery_enabled(choice, legacy, declared.len());
    let once = finished(declared, found, add, edition, None);
    assert(once == completed_targets(declared, edition, add, dir, entries));
    lemma_finished_twice(declared, found, add, false, edition, None);
    let add_again = discovery_enabled(choice, legacy, once.len());
    lemma_finished_twice(declared, found, add, add_again, edition, None);
    assert(finished(once, found, add_again, edition, None) == completed_targets(
        once,
        edition,
        add_again,
        dir,
        entries,
    ));
}

/// Completing a completed library changes nothing.
pub proof fn lemma_library_completed_twice(
    lib: Option<ProductView>,
    package_name: Seq<char>,
    legacy: bool,
    edition: Option<Edition>,
    autolib: Option<bool>,
    src: Seq<Seq<char>>,
)
    requires
        completed_lib(lib, package_name, legacy, edition, autolib, src) is Ok,
    ensures
        completed_lib(
            completed_lib(lib, package_name, legacy, edition, autolib, src)->Ok_0,
            package_name,
            legacy,
            edition,
            autolib,
            src,
        ) == completed_lib(lib, package_name, legacy, edition, autolib, src),
{
    let once = completed_lib(lib, package_name, legacy, edition, autolib, src)->Ok_0;
    match once {
        Some(l) => {
            assert(l.required_features =~= Seq::<Seq<char>>::empty());
        },
        None => {},
    }
}

/// Looking for the build script a second time changes nothing.
pub proof fn lemma_build_completed_twice(
    build: Option<crate::package::StringOrBoolView>,
    root: Result<Seq<Seq<char>>, crate::afs::IoErrorView>,
)
    requires
        completed_build(build, root) is Ok,
    ensures
        completed_build(completed_build(build, root)->Ok_0, root) == completed_build(build, root),
{
}

/// Completing a completed manifest against the same files changes
/// nothing: what the first completion set, the second finds set.
pub proof fn lemma_completion_idempotent<PackageMetadataView, WorkspaceMetadataView>(
    manifest: ManifestView<PackageMetadataView, WorkspaceMetadataView>,
    layout: Layout,
)
    requires
        manifest.completed(layout).outcome is Ok,
    ensures
        manifest.completed(layout).manifest.completed(layout) == manifest.completed(layout),
{
    match manifest.package {
        None => {},
        Some(package) => {
            let src = names_if_present(layout.src)->Ok_0;
            let legacy = package.uses_legacy_auto_discovery();
            let edition = package.local_edition();
            lemma_library_completed_twice(manifest.lib, package.name, legacy, edition, package.autolib, src);
            lemma_build_completed_twice(package.build, layout.root);
            lemma_binaries_completed_twice(
                manifest.bin,
                package.name,
                legacy,
                edition,
                package.autobins,
                src,
                layout.bin,
            );
            lemma_targets_completed_twice(
                manifest.example,
                legacy,
                edition,
                package.autoexamples,
                "examples"@,
                layout.examples,
            );
            lemma_targets_completed_twice(manifest.test, legacy, edition, package.autotests, "tests"@, layout.tests);
            lemma_targets_completed_twice(
                manifest.bench,
                legacy,
                edition,
                package.autobenches,
                "benches"@,
                layout.benches,
            );
        },
    }
}

/// A manifest that was read has a package or a workspace: a document
/// with neither is read as an old manifest, all package.
pub proof fn lemma_read_manifest_has_package_or_workspace(root: TomlValueView)
    requires
        document_of(root) is Ok,
    ensures
        document_of(root)->Ok_0.package is Some || document_of(root)->Ok_0.workspace is Some,
{
}

/// A table that defers to the workspace is never read as a dependency
/// with a table of its own, whatever else it holds that such a table
/// could hold.
pub proof fn lemma_deferring_table_is_inherited(v: TomlValueView)
    requires
        inherited_dependency_of(v) is Ok,
    ensures
        dependency_of(v) == Ok::<DependencyView, ()>(DependencyView::Inherited(inherited_dependency_of(v)->Ok_0)),
{
}

} // verus!
