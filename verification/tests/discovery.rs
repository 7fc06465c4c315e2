use cargo_manifest::afs::{AbstractFilesystem, IoError, IoErrorKind};
use cargo_manifest::complete::{complete_build_script, complete_library, found_binaries, listing_if_present};
use cargo_manifest::discover::{discover_targets, discovered_targets, scan_directory};
use cargo_manifest::merge::{fill_missing_paths, fill_target_defaults, process_discovered_targets};
use cargo_manifest::text::{contains_name, join, sorted_names, strip_suffix, with_underscores};
use cargo_manifest::{DirectoryEntry, DiscoveredTarget, Edition, Error, Product, StringOrBool};

struct Listing(Vec<(&'static str, Vec<&'static str>)>);

impl AbstractFilesystem for Listing {
    fn file_names_in(&self, rel_path: &str) -> Result<Vec<String>, IoError> {
        for (dir, names) in &self.0 {
            if *dir == rel_path {
                return Ok(names.iter().map(|n| n.to_string()).collect());
            }
        }
        Err(IoError {
            kind: IoErrorKind::NotFound,
            message: "not found".to_string(),
        })
    }
}

fn strings(names: &[&str]) -> Vec<String> {
    names.iter().map(|n| n.to_string()).collect()
}

fn target(name: &str, path: &str) -> DiscoveredTarget {
    DiscoveredTarget {
        name: name.to_string(),
        path: path.to_string(),
    }
}

fn declared(name: Option<&str>, path: Option<&str>) -> Product {
    Product {
        name: name.map(|n| n.to_string()),
        path: path.map(|p| p.to_string()),
        edition: None,
        ..Product::default()
    }
}

#[test]
fn names_are_sorted_as_strings_compare() {
    let listing = strings(&["b", "a.rs", "a", "B", "", "ab", "a-b", "\u{e9}", "z", "a"]);
    let sorted = sorted_names(&listing);
    assert_eq!(sorted, strings(&["", "B", "a", "a-b", "a.rs", "ab", "b", "z", "\u{e9}"]));
    let mut expected = listing.clone();
    expected.sort();
    expected.dedup();
    assert_eq!(sorted, expected);
    assert!(sorted_names(&vec![]).is_empty());
}

#[test]
fn sorting_forgets_the_listing_order() {
    let a = strings(&["x", "y", "z", "x"]);
    let b = strings(&["z", "y", "x"]);
    assert_eq!(sorted_names(&a), sorted_names(&b));
}

#[test]
fn text_helpers() {
    assert_eq!(strip_suffix("main.rs", ".rs"), Some("main".to_string()));
    assert_eq!(strip_suffix(".rs", ".rs"), Some("".to_string()));
    assert_eq!(strip_suffix("rs", ".rs"), None);
    assert_eq!(strip_suffix("main.rs.bak", ".rs"), None);
    assert_eq!(strip_suffix("h\u{e9}.rs", ".rs"), Some("h\u{e9}".to_string()));
    assert_eq!(join("src/bin", "a.rs"), "src/bin/a.rs");
    assert_eq!(with_underscores("a-b--c_d"), "a_b__c_d");
    assert_eq!(with_underscores(""), "");
    assert!(contains_name(&strings(&["a", "b"]), &"b".to_string()));
    assert!(!contains_name(&strings(&["a", "b"]), &"c".to_string()));
}

#[test]
fn targets_among_entries() {
    let entries = vec![
        DirectoryEntry { name: "a".to_string(), has_main: true },
        DirectoryEntry { name: "a.rs".to_string(), has_main: false },
        DirectoryEntry { name: "b".to_string(), has_main: false },
        DirectoryEntry { name: "c.rs".to_string(), has_main: true },
        DirectoryEntry { name: "notes.txt".to_string(), has_main: false },
    ];
    assert_eq!(
        discovered_targets("examples", &entries),
        vec![
            target("a", "examples/a/main.rs"),
            target("a", "examples/a.rs"),
            target("c", "examples/c.rs"),
        ]
    );
    assert!(discovered_targets("examples", &vec![]).is_empty());
}

#[test]
fn scanning_a_directory() {
    let fs = Listing(vec![
        ("tests", vec!["z.rs", "dir", "empty", "a.rs", "dir"]),
        ("tests/dir", vec!["helper.rs", "main.rs"]),
        ("tests/empty", vec![]),
        ("tests/a.rs", vec!["main.rs"]),
    ]);
    assert_eq!(
        scan_directory(&fs, "tests"),
        vec![
            DirectoryEntry { name: "a.rs".to_string(), has_main: false },
            DirectoryEntry { name: "dir".to_string(), has_main: true },
            DirectoryEntry { name: "empty".to_string(), has_main: false },
            DirectoryEntry { name: "z.rs".to_string(), has_main: false },
        ]
    );
    assert!(scan_directory(&fs, "benches").is_empty());
    assert_eq!(
        discover_targets(&fs, "tests"),
        vec![
            target("a", "tests/a.rs"),
            target("dir", "tests/dir/main.rs"),
            target("z", "tests/z.rs"),
        ]
    );
}

#[test]
fn merging_fills_and_adds() {
    let found = vec![
        target("a", "examples/a/main.rs"),
        target("a", "examples/a.rs"),
        target("b", "examples/b.rs"),
    ];
    let mut targets = vec![
        declared(Some("a"), None),
        declared(None, None),
        declared(Some("c"), None),
        declared(Some("b"), Some("elsewhere.rs")),
        declared(Some("x"), Some("examples/b.rs")),
    ];
    process_discovered_targets(&mut targets, found.clone(), true).unwrap();
    assert_eq!(
        targets,
        vec![
            declared(Some("a"), Some("examples/a/main.rs")),
            declared(None, None),
            declared(Some("c"), None),
            declared(Some("b"), Some("elsewhere.rs")),
            declared(Some("x"), Some("examples/b.rs")),
            declared(Some("a"), Some("examples/a.rs")),
        ]
    );
    let once = targets.clone();
    process_discovered_targets(&mut targets, found.clone(), true).unwrap();
    assert_eq!(targets, once);

    let mut targets = vec![declared(Some("b"), None)];
    process_discovered_targets(&mut targets, found, false).unwrap();
    assert_eq!(targets, vec![declared(Some("b"), Some("examples/b.rs"))]);
}

#[test]
fn defaults_and_missing_paths() {
    let mut targets = vec![
        declared(Some("a"), None),
        Product {
            crate_type: Some(strings(&["cdylib"])),
            edition: Some(Edition::E2015),
            ..declared(Some("b"), Some("b.rs"))
        },
    ];
    fill_target_defaults(&mut targets, Some(Edition::E2021), "bin");
    assert_eq!(targets[0].edition, Some(Edition::E2021));
    assert_eq!(targets[0].crate_type, Some(strings(&["bin"])));
    assert_eq!(targets[1].edition, Some(Edition::E2015));
    assert_eq!(targets[1].crate_type, Some(strings(&["cdylib"])));
    fill_target_defaults(&mut targets, None, "bin");
    fill_missing_paths(&mut targets, "src/main.rs");
    assert_eq!(targets[0].path.as_deref(), Some("src/main.rs"));
    assert_eq!(targets[1].path.as_deref(), Some("b.rs"));
    let mut open = vec![declared(None, None)];
    fill_target_defaults(&mut open, None, "bin");
    assert_eq!(open[0].edition, None);
}

#[test]
fn listing_that_need_not_be_there() {
    assert_eq!(listing_if_present(Ok(strings(&["a"]))).unwrap(), strings(&["a"]));
    let gone = IoError { kind: IoErrorKind::NotFound, message: "gone".to_string() };
    assert!(listing_if_present(Err(gone)).unwrap().is_empty());
    let denied = IoError { kind: IoErrorKind::Other, message: "denied".to_string() };
    let error = listing_if_present(Err(denied.clone())).unwrap_err();
    assert!(matches!(&error, Error::Io(e) if *e == denied));
    assert_eq!(error.to_string(), "denied");
}

#[test]
fn library_completion_step() {
    let mut lib = None;
    complete_library(&mut lib, "my-lib", false, Some(Edition::E2021), None, &strings(&["lib.rs"])).unwrap();
    let found = lib.clone().unwrap();
    assert_eq!(found.name.as_deref(), Some("my_lib"));
    assert_eq!(found.path.as_deref(), Some("src/lib.rs"));
    assert_eq!(found.edition, Some(Edition::E2021));
    complete_library(&mut lib, "my-lib", false, Some(Edition::E2021), None, &strings(&["lib.rs"])).unwrap();
    assert_eq!(lib, Some(found));

    let mut lib = None;
    complete_library(&mut lib, "my-lib", false, None, Some(false), &strings(&["lib.rs"])).unwrap();
    assert_eq!(lib, None);
    complete_library(&mut lib, "my-lib", true, None, Some(true), &strings(&["my-lib.rs"])).unwrap();
    assert_eq!(lib, None);

    let mut lib = Some(declared(None, None));
    let error = complete_library(&mut lib, "my-lib", false, None, None, &strings(&["my-lib.rs"])).unwrap_err();
    assert_eq!(
        error.to_string(),
        "can't find library, rename file to `src/lib.rs` or specify lib.path"
    );
    assert_eq!(lib, Some(declared(None, None)));
    complete_library(&mut lib, "my-lib", true, None, None, &strings(&["my-lib.rs"])).unwrap();
    assert_eq!(lib.unwrap().path.as_deref(), Some("src/my-lib.rs"));
}

#[test]
fn binaries_with_main() {
    let in_bin = vec![target("a", "src/bin/a.rs")];
    assert_eq!(
        found_binaries("pkg", &strings(&["lib.rs", "main.rs"]), in_bin.clone()),
        vec![target("a", "src/bin/a.rs"), target("pkg", "src/main.rs")]
    );
    assert_eq!(found_binaries("pkg", &strings(&["lib.rs"]), in_bin.clone()), in_bin);
}

#[test]
fn build_script_step() {
    let mut build = None;
    complete_build_script(&mut build, &strings(&["Cargo.toml"]));
    assert_eq!(build, None);
    complete_build_script(&mut build, &strings(&["Cargo.toml", "build.rs"]));
    assert_eq!(build, Some(StringOrBool::String("build.rs".to_string())));
    let mut build = Some(StringOrBool::Bool(false));
    complete_build_script(&mut build, &strings(&["build.rs"]));
    assert_eq!(build, Some(StringOrBool::Bool(false)));
    let mut build = Some(StringOrBool::String("other.rs".to_string()));
    complete_build_script(&mut build, &strings(&["build.rs"]));
    assert_eq!(build, Some(StringOrBool::String("other.rs".to_string())));
}
