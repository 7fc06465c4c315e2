//! Completing a manifest from the files of its package: the library, the
//! binaries, examples, tests and benchmarks that lie where convention puts
//! them, and the build script.

use vstd::prelude::*;
use crate::afs::{AbstractFilesystem, IoError, IoErrorKind, IoErrorView};
use crate::discover::{discovered, discovered_targets, is_scan, scan_directory, DirectoryEntryView, DiscoveredTarget, DiscoveredTargetView};
use crate::edition::Edition;
use crate::error::{Error, ErrorView};
use crate::manifest::{Manifest, ManifestView};
use crate::merge::{all_or_defaults, all_or_path, fill_missing_paths, fill_target_defaults, merged, process_discovered_targets};
use crate::package::{PackageView, StringOrBool, StringOrBoolView};
use crate::product::{Product, ProductView};
use crate::text::{contains_name, followed_by, join, joined, underscored, with_underscores};

verus! {

/// What is said when a declared library has no path and none is found.
pub const LIBRARY_NOT_FOUND: &'static str =
    "can't find library, rename file to `src/lib.rs` or specify lib.path";

/// What completion learns from the file system: the listing of `src`, the
/// entries of the four directories of targets, and the listing of the
/// package's own directory.
pub struct Layout {
    pub src: Result<Seq<Seq<char>>, IoErrorView>,
    pub bin: Seq<DirectoryEntryView>,
    pub examples: Seq<DirectoryEntryView>,
    pub tests: Seq<DirectoryEntryView>,
    pub benches: Seq<DirectoryEntryView>,
    pub root: Result<Seq<Seq<char>>, IoErrorView>,
}

impl Layout {
    /// Whether the entries of each directory stand in increasing order.
    pub open spec fn is_scanned(self) -> bool {
        is_scan(self.bin) && is_scan(self.examples) && is_scan(self.tests) && is_scan(self.benches)
    }
}

/// A manifest after completion was tried, and how that ended.
pub struct Completion<PackageMetadataView, WorkspaceMetadataView> {
    pub manifest: ManifestView<PackageMetadataView, WorkspaceMetadataView>,
    pub outcome: Result<(), ErrorView>,
}

/// A listing, as plain values.
pub open spec fn listing_view(listing: Result<Vec<String>, IoError>) -> Result<Seq<Seq<char>>, IoErrorView> {
    match listing {
        Ok(names) => Ok(names.deep_view()),
        Err(e) => Err(e@),
    }
}

/// How completion ended, as plain values.
pub open spec fn outcome_view(outcome: Result<(), Error>) -> Result<(), ErrorView> {
    match outcome {
        Ok(_) => Ok(()),
        Err(e) => Err(e@),
    }
}

/// The names in a directory that need not be there: one that is not found
/// is empty, and any other failure is passed on.
pub open spec fn names_if_present(listing: Result<Seq<Seq<char>>, IoErrorView>) -> Result<Seq<Seq<char>>, IoErrorView> {
    match listing {
        Ok(names) => Ok(names),
        Err(e) => if e.kind == IoErrorKind::NotFound {
            Ok(Seq::empty())
        } else {
            Err(e)
        },
    }
}

/// Whether discovery of one kind of target adds what it finds: as the
/// package says; where it says nothing, always under the modern rules, and
/// under the legacy ones only where no target of the kind is declared.
pub open spec fn discovery_enabled(choice: Option<bool>, legacy: bool, declared: nat) -> bool {
    match choice {
        Some(enabled) => enabled,
        None => !legacy || declared == 0,
    }
}

/// Where a declared library lies: where it says; else at `src/lib.rs` if
/// that exists; else, under the legacy rules, at the file in `src` that is
/// named after it, or after the package if it has no name.
pub open spec fn library_path(
    lib: ProductView,
    package_name: Seq<char>,
    legacy: bool,
    src: Seq<Seq<char>>,
) -> Option<Seq<char>> {
    let file = match lib.name {
        Some(name) => name + ".rs"@,
        None => package_name + ".rs"@,
    };
    match lib.path {
        Some(path) => Some(path),
        None => if src.contains("lib.rs"@) {
            Some("src/lib.rs"@)
        } else if legacy && src.contains(file) {
            Some(joined("src"@, file))
        } else {
            None
        },
    }
}

/// The library after completion, or `Err` where one is declared and
/// cannot be found. A declared library keeps what it states and gets the
/// rest: its path, the package's name with underscores for dashes, the
/// package's edition, the kind `lib`; it loses its required features,
/// which a library cannot have. Where none is declared, `src/lib.rs` is
/// the library if it exists, unless the package says `autolib = false`.
pub open spec fn completed_lib(
    lib: Option<ProductView>,
    package_name: Seq<char>,
    legacy: bool,
    edition: Option<Edition>,
    autolib: Option<bool>,
    src: Seq<Seq<char>>,
) -> Result<Option<ProductView>, ()> {
    match lib {
        Some(lib) => match library_path(lib, package_name, legacy, src) {
            Some(path) => Ok(
                Some(
                    ProductView {
                        path: Some(path),
                        name: match lib.name {
                            Some(name) => Some(name),
                            None => Some(underscored(package_name)),
                        },
                        required_features: Seq::empty(),
                        ..lib.or_defaults(edition, "lib"@)
                    },
                ),
            ),
            None => Err(()),
        },
        None => if autolib != Some(false) && src.contains("lib.rs"@) {
            Ok(
                Some(
                    ProductView {
                        name: Some(underscored(package_name)),
                        path: Some("src/lib.rs"@),
                        edition,
                        crate_type: Some(seq!["lib"@]),
                        ..ProductView::unnamed()
                    },
                ),
            )
        } else {
            Ok(None)
        },
    }
}

/// The binaries found: those of `src/bin`, and behind them `src/main.rs`
/// under the package's name, if it exists.
pub open spec fn binaries_found(
    package_name: Seq<char>,
    src: Seq<Seq<char>>,
    bin: Seq<DirectoryEntryView>,
) -> Seq<DiscoveredTargetView> {
    let in_bin = discovered("src/bin"@, bin);
    if src.contains("main.rs"@) {
        in_bin.push(DiscoveredTargetView { name: package_name, path: "src/main.rs"@ })
    } else {
        in_bin
    }
}

/// The binaries after completion: merged with those found and given the
/// defaults; then, under the legacy rules, each that still has no path
/// gets `src/main.rs`, if that exists.
pub open spec fn completed_binaries(
    declared: Seq<ProductView>,
    package_name: Seq<char>,
    legacy: bool,
    edition: Option<Edition>,
    autobins: bool,
    src: Seq<Seq<char>>,
    bin: Seq<DirectoryEntryView>,
) -> Seq<ProductView> {
    let found = binaries_found(package_name, src, bin);
    let all = all_or_defaults(merged(declared, found, autobins), edition, "bin"@);
    if legacy && src.contains("main.rs"@) {
        all_or_path(all, "src/main.rs"@)
    } else {
        all
    }
}

/// The examples, tests or benchmarks after completion: merged with those
/// found in their directory `dir` and given the defaults.
pub open spec fn completed_targets(
    declared: Seq<ProductView>,
    edition: Option<Edition>,
    add: bool,
    dir: Seq<char>,
    entries: Seq<DirectoryEntryView>,
) -> Seq<ProductView> {
    all_or_defaults(merged(declared, discovered(dir, entries), add), edition, "bin"@)
}

/// Whether the package leaves it to completion to find a build script: it
/// says nothing of one, or says `true`.
pub open spec fn wants_build_script(build: Option<StringOrBoolView>) -> bool {
    build is None || build == Some(StringOrBoolView::Bool(true))
}

/// The `build` key after completion: `build.rs` where the package leaves
/// it open and the file exists beside the manifest. A path that the
/// package gives, and `false`, are kept.
pub open spec fn completed_build(
    build: Option<StringOrBoolView>,
    root: Result<Seq<Seq<char>>, IoErrorView>,
) -> Result<Option<StringOrBoolView>, IoErrorView> {
    if wants_build_script(build) {
        match root {
            Ok(names) => if names.contains("build.rs"@) {
                Ok(Some(StringOrBoolView::String("build.rs"@)))
            } else {
                Ok(build)
            },
            Err(e) => Err(e),
        }
    } else {
        Ok(build)
    }
}

impl<PackageMetadataView, WorkspaceMetadataView> ManifestView<PackageMetadataView, WorkspaceMetadataView> {
    /// Whether completion adds the binaries that it finds.
    pub open spec fn autobins(self) -> bool {
        match self.package {
            Some(p) => discovery_enabled(p.autobins, p.uses_legacy_auto_discovery(), self.bin.len()),
            None => false,
        }
    }

    /// Whether completion adds the examples that it finds.
    pub open spec fn autoexamples(self) -> bool {
        match self.package {
            Some(p) => discovery_enabled(p.autoexamples, p.uses_legacy_auto_discovery(), self.example.len()),
            None => false,
        }
    }

    /// Whether completion adds the tests that it finds.
    pub open spec fn autotests(self) -> bool {
        match self.package {
            Some(p) => discovery_enabled(p.autotests, p.uses_legacy_auto_discovery(), self.test.len()),
            None => false,
        }
    }

    /// Whether completion adds the benchmarks that it finds.
    pub open spec fn autobenches(self) -> bool {
        match self.package {
            Some(p) => discovery_enabled(p.autobenches, p.uses_legacy_auto_discovery(), self.bench.len()),
            None => false,
        }
    }

    /// The manifest with its targets completed, whatever the root
    /// directory holds.
    pub open spec fn with_targets(
        self,
        package: PackageView<PackageMetadataView>,
        lib: Option<ProductView>,
        src: Seq<Seq<char>>,
        layout: Layout,
    ) -> Self {
        let legacy = package.uses_legacy_auto_discovery();
        let edition = package.local_edition();
        ManifestView {
            lib,
            bin: completed_binaries(self.bin, package.name, legacy, edition, self.autobins(), src, layout.bin),
            example: completed_targets(self.example, edition, self.autoexamples(), "examples"@, layout.examples),
            test: completed_targets(self.test, edition, self.autotests(), "tests"@, layout.tests),
            bench: completed_targets(self.bench, edition, self.autobenches(), "benches"@, layout.benches),
            ..self
        }
    }

    /// The manifest after completion against `layout`, and how completion
    /// ends.
    ///
    /// A manifest without a package is left as it is. A `src` that cannot
    /// be listed, unless it is just not there, and a declared library that
    /// cannot be found end completion before anything is changed. A
    /// package directory that cannot be listed, where the build script is
    /// looked for, ends it when the targets are already complete.
    pub open spec fn completed(self, layout: Layout) -> Completion<PackageMetadataView, WorkspaceMetadataView> {
        match self.package {
            None => Completion { manifest: self, outcome: Ok(()) },
            Some(package) => match names_if_present(layout.src) {
                Err(e) => Completion { manifest: self, outcome: Err(ErrorView::Io(e)) },
                Ok(src) => match completed_lib(
                    self.lib,
                    package.name,
                    package.uses_legacy_auto_discovery(),
                    package.local_edition(),
                    package.autolib,
                    src,
                ) {
                    Err(_) => Completion { manifest: self, outcome: Err(ErrorView::Other(LIBRARY_NOT_FOUND@)) },
                    Ok(lib) => {
                        let with_targets = self.with_targets(package, lib, src, layout);
                        match completed_build(package.build, layout.root) {
                            Err(e) => Completion { manifest: with_targets, outcome: Err(ErrorView::Io(e)) },
                            Ok(build) => Completion {
                                manifest: ManifestView {
                                    package: Some(PackageView { build, ..package }),
                                    ..with_targets
                                },
                                outcome: Ok(()),
                            },
                        }
                    },
                },
            },
        }
    }
}

/// The names in a directory that need not be there.
pub fn listing_if_present(listing: Result<Vec<String>, IoError>) -> (r: Result<Vec<String>, Error>)
    ensures
        match names_if_present(listing_view(listing)) {
            Ok(names) => r is Ok && r->Ok_0.deep_view() == names,
            Err(e) => r is Err && r->Err_0@ == ErrorView::Io(e),
        },
{
    match listing {
        Ok(names) => Ok(names),
        Err(e) => match e.kind {
            IoErrorKind::NotFound => {
                let names: Vec<String> = Vec::new();
                assert(names.deep_view() =~= Seq::empty());
                Ok(names)
            },
            IoErrorKind::Other => Err(Error::Io(e)),
        },
    }
}

/// Completes the library of a package from the names in its `src`. Where
/// a library is declared and cannot be found, it is left as it is.
pub fn complete_library(
    lib: &mut Option<Product>,
    package_name: &str,
    legacy: bool,
    edition: Option<Edition>,
    autolib: Option<bool>,
    src: &Vec<String>,
) -> (r: Result<(), Error>)
    ensures
        match completed_lib(old(lib).deep_view(), package_name@, legacy, edition, autolib, src.deep_view()) {
            Ok(completed) => r is Ok && final(lib).deep_view() == completed,
            Err(_) => r is Err && r->Err_0@ == ErrorView::Other(LIBRARY_NOT_FOUND@) && *final(lib) == *old(lib),
        },
{
    let lib_rs = "lib.rs".to_owned();
    let has_lib_rs = contains_name(src, &lib_rs);
    match lib {
        Some(declared) => {
            let ghost before = declared@;
            if declared.path.is_none() {
                if has_lib_rs {
                    declared.path = Some("src/lib.rs".to_owned());
                } else {
                    let file = match &declared.name {
                        Some(name) => followed_by(name.as_str(), ".rs"),
                        None => followed_by(package_name, ".rs"),
                    };
                    if legacy && contains_name(src, &file) {
                        declared.path = Some(join("src", file.as_str()));
                    } else {
                        return Err(Error::Other(LIBRARY_NOT_FOUND.to_owned()));
                    }
                }
            }
            if declared.name.is_none() {
                declared.name = Some(with_underscores(package_name));
            }
            if declared.edition.is_none() {
                declared.edition = edition;
            }
            if declared.crate_type.is_none() {
                let mut kinds: Vec<String> = Vec::new();
                kinds.push("lib".to_owned());
                assert(kinds.deep_view() =~= seq!["lib"@]);
                declared.crate_type = Some(kinds);
            }
            declared.required_features.clear();
            assert(declared.required_features.deep_view() =~= Seq::empty());
            Ok(())
        },
        None => {
            let disabled = match autolib {
                Some(enabled) => !enabled,
                None => false,
            };
            if !disabled && has_lib_rs {
                let mut kinds: Vec<String> = Vec::new();
                kinds.push("lib".to_owned());
                assert(kinds.deep_view() =~= seq!["lib"@]);
                let found = Product {
                    path: Some("src/lib.rs".to_owned()),
                    name: Some(with_underscores(package_name)),
                    test: true,
                    doctest: true,
                    bench: true,
                    doc: true,
                    plugin: false,
                    proc_macro: false,
                    harness: true,
                    edition,
                    required_features: Vec::new(),
                    crate_type: Some(kinds),
                };
                assert(found.required_features.deep_view() =~= Seq::empty());
                *lib = Some(found);
            }
            Ok(())
        },
    }
}

/// The binaries found: those among the entries of `src/bin`, and behind
/// them `src/main.rs` under the package's name, if `src` holds it.
pub fn found_binaries(
    package_name: &str,
    src: &Vec<String>,
    in_bin: Vec<DiscoveredTarget>,
) -> (r: Vec<DiscoveredTarget>)
    ensures
        r.deep_view() == if src.deep_view().contains("main.rs"@) {
            in_bin.deep_view().push(DiscoveredTargetView { name: package_name@, path: "src/main.rs"@ })
        } else {
            in_bin.deep_view()
        },
{
    let mut found = in_bin;
    let main_rs = "main.rs".to_owned();
    if contains_name(src, &main_rs) {
        let ghost before = found.deep_view();
        found.push(DiscoveredTarget { name: package_name.to_owned(), path: "src/main.rs".to_owned() });
        assert(found.deep_view() =~= before.push(
            DiscoveredTargetView { name: package_name@, path: "src/main.rs"@ },
        ));
    }
    found
}

/// Sets the `build` key to `build.rs` where the package leaves it open
/// and `root`, the listing of the package's directory, holds that file.
pub fn complete_build_script(build: &mut Option<StringOrBool>, root: &Vec<String>)
    ensures
        Ok::<Option<StringOrBoolView>, IoErrorView>(final(build).deep_view()) == completed_build(
            old(build).deep_view(),
            Ok(root.deep_view()),
        ),
{
    let wanted = match build {
        None => true,
        Some(StringOrBool::Bool(flag)) => *flag,
        Some(StringOrBool::String(_)) => false,
    };
    let build_rs = "build.rs".to_owned();
    if wanted && contains_name(root, &build_rs) {
        *build = Some(StringOrBool::String(build_rs));
    }
}

impl<PackageMetadata: DeepView, WorkspaceMetadata: DeepView> Manifest<PackageMetadata, WorkspaceMetadata> {
    /// Whether completion adds the binaries that it finds.
    pub fn autobins(&self) -> (r: bool)
        ensures
            r == self@.autobins(),
    {
        match &self.package {
            Some(pkg) => match pkg.autobins {
                Some(enabled) => enabled,
                None => !pkg.uses_legacy_auto_discovery() || self.bin.len() == 0,
            },
            None => false,
        }
    }

    /// Whether completion adds the examples that it finds.
    pub fn autoexamples(&self) -> (r: bool)
        ensures
            r == self@.autoexamples(),
    {
        match &self.package {
            Some(pkg) => match pkg.autoexamples {
                Some(enabled) => enabled,
                None => !pkg.uses_legacy_auto_discovery() || self.example.len() == 0,
            },
            None => false,
        }
    }

    /// Whether completion adds the tests that it finds.
    pub fn autotests(&self) -> (r: bool)
        ensures
            r == self@.autotests(),
    {
        match &self.package {
            Some(pkg) => match pkg.autotests {
                Some(enabled) => enabled,
                None => !pkg.uses_legacy_auto_discovery() || self.test.len() == 0,
            },
            None => false,
        }
    }

    /// Whether completion adds the benchmarks that it finds.
    pub fn autobenches(&self) -> (r: bool)
        ensures
            r == self@.autobenches(),
    {
        match &self.package {
            Some(pkg) => match pkg.autobenches {
                Some(enabled) => enabled,
                None => !pkg.uses_legacy_auto_discovery() || self.bench.len() == 0,
            },
            None => false,
        }
    }

    /// Completes the manifest from the files that `fs` shows: the library,
    /// the binaries, examples, tests and benchmarks, and the build script.
    /// Nothing that the manifest states is changed, but for a library's
    /// required features.
    ///
    /// The file system is asked for `src`, for each of `src/bin`,
    /// `examples`, `tests` and `benches` with the entries in it that are
    /// no source files, and, where the package leaves its build script
    /// open, for the package's own directory. What comes of the answers is
    /// what `completed` says of them.
    pub fn complete_from_abstract_filesystem<FS: AbstractFilesystem>(&mut self, fs: &FS) -> (r: Result<(), Error>)
        ensures
            exists|layout: Layout|
                layout.is_scanned() && #[trigger] old(self)@.completed(layout) == (Completion {
                    manifest: final(self)@,
                    outcome: outcome_view(r),
                }),
    {
        let ghost before = self@;
        let ghost mut layout = Layout {
            src: Ok(Seq::empty()),
            bin: Seq::empty(),
            examples: Seq::empty(),
            tests: Seq::empty(),
            benches: Seq::empty(),
            root: Ok(Seq::empty()),
        };
        let autobins = self.autobins();
        let autotests = self.autotests();
        let autoexamples = self.autoexamples();
        let autobenches = self.autobenches();
        let (name, legacy, edition, autolib, wants_build) = match &self.package {
            Some(package) => (
                package.name.clone(),
                package.uses_legacy_auto_discovery(),
                package.local_edition(),
                package.autolib,
                match &package.build {
                    None => true,
                    Some(StringOrBool::Bool(flag)) => *flag,
                    Some(StringOrBool::String(_)) => false,
                },
            ),
            None => {
                assert(layout.is_scanned() && before.completed(layout) == (Completion {
                    manifest: self@,
                    outcome: Ok(()),
                }));
                return Ok(());
            },
        };
        let listing = fs.file_names_in("src");
        proof {
            layout = Layout { src: listing_view(listing), ..layout };
        }
        let src = match listing_if_present(listing) {
            Ok(names) => names,
            Err(e) => {
                assert(layout.is_scanned() && before.completed(layout) == (Completion {
                    manifest: self@,
                    outcome: Err(e@),
                }));
                return Err(e);
            },
        };
        match complete_library(&mut self.lib, name.as_str(), legacy, edition, autolib, &src) {
            Ok(_) => {},
            Err(e) => {
                assert(layout.is_scanned() && before.completed(layout) == (Completion {
                    manifest: self@,
                    outcome: Err(e@),
                }));
                return Err(e);
            },
        }

        let entries = scan_directory(fs, "src/bin");
        let found = found_binaries(name.as_str(), &src, discovered_targets("src/bin", &entries));
        let _ = process_discovered_targets(&mut self.bin, found, autobins);
        fill_target_defaults(&mut self.bin, edition, "bin");
        let main_rs = "main.rs".to_owned();
        if legacy && contains_name(&src, &main_rs) {
            fill_missing_paths(&mut self.bin, "src/main.rs");
        }
        proof {
            layout = Layout { bin: entries.deep_view(), ..layout };
        }

        let entries = scan_directory(fs, "examples");
        let _ = process_discovered_targets(&mut self.example, discovered_targets("examples", &entries), autoexamples);
        fill_target_defaults(&mut self.example, edition, "bin");
        proof {
            layout = Layout { examples: entries.deep_view(), ..layout };
        }

        let entries = scan_directory(fs, "tests");
        let _ = process_discovered_targets(&mut self.test, discovered_targets("tests", &entries), autotests);
        fill_target_defaults(&mut self.test, edition, "bin");
        proof {
            layout = Layout { tests: entries.deep_view(), ..layout };
        }

        let entries = scan_directory(fs, "benches");
        let _ = process_discovered_targets(&mut self.bench, discovered_targets("benches", &entries), autobenches);
        fill_target_defaults(&mut self.bench, edition, "bin");
        proof {
            layout = Layout { benches: entries.deep_view(), ..layout };
        }

        let ghost package = before.package->0;
        let ghost src_view = names_if_present(layout.src)->Ok_0;
        assert(self@ == before.with_targets(package, self@.lib, src_view, layout));

        if wants_build {
            let listing = fs.file_names_in(".");
            proof {
                layout = Layout { root: listing_view(listing), ..layout };
            }
            assert(self@ == before.with_targets(package, self@.lib, src_view, layout));
            match listing {
                Ok(root) => {
                    if let Some(package) = &mut self.package {
                        complete_build_script(&mut package.build, &root);
                    }
                },
                Err(e) => {
                    assert(layout.is_scanned() && before.completed(layout) == (Completion {
                        manifest: self@,
                        outcome: Err(ErrorView::Io(e@)),
                    }));
                    return Err(Error::Io(e));
                },
            }
        }
        assert(layout.is_scanned() && before.completed(layout) == (Completion {
            manifest: self@,
            outcome: Ok(()),
        }));
        Ok(())
    }
}

} // verus!
