use cargo_manifest::afs::{AbstractFilesystem, IoError, IoErrorKind};
use cargo_manifest::{Edition, Error, Manifest, Product, StringOrBool};

/// A tree of files that exists only as the list of their paths. It lists
/// a directory in the reverse of the order in which the files are given.
struct Tree(Vec<&'static str>);

impl AbstractFilesystem for Tree {
    fn file_names_in(&self, rel_path: &str) -> Result<Vec<String>, IoError> {
        let prefix = if rel_path == "." {
            String::new()
        } else {
            format!("{}/", rel_path)
        };
        let mut names = Vec::new();
        for file in self.0.iter().rev() {
            if let Some(rest) = file.strip_prefix(prefix.as_str()) {
                names.push(rest.split('/').next().unwrap().to_string());
            }
        }
        if names.is_empty() && rel_path != "." {
            return Err(IoError {
                kind: IoErrorKind::NotFound,
                message: format!("{}: not found", rel_path),
            });
        }
        Ok(names)
    }
}

/// A file system on which nothing can be read.
struct Broken;

impl AbstractFilesystem for Broken {
    fn file_names_in(&self, rel_path: &str) -> Result<Vec<String>, IoError> {
        Err(IoError {
            kind: IoErrorKind::Other,
            message: format!("{}: permission denied", rel_path),
        })
    }
}

/// A file system on which only the package's own directory cannot be read.
struct NoRoot(Tree);

impl AbstractFilesystem for NoRoot {
    fn file_names_in(&self, rel_path: &str) -> Result<Vec<String>, IoError> {
        if rel_path == "." {
            Err(IoError {
                kind: IoErrorKind::NotFound,
                message: "gone".to_string(),
            })
        } else {
            self.0.file_names_in(rel_path)
        }
    }
}

fn complete_with(manifest: &str, extra_files: Vec<&'static str>) -> Result<Manifest, Error> {
    let mut files = vec!["Cargo.toml"];
    files.extend(extra_files);
    let mut m = Manifest::from_str(manifest)?;
    m.complete_from_abstract_filesystem(&Tree(files))?;
    Ok(m)
}

const BASIC_MANIFEST: &str = r#"
[package]
name = "test-package"
version = "0.1.0"
"#;

fn full_example_extra_files() -> Vec<&'static str> {
    vec![
        "benches/large-input.rs",
        "benches/multi-file-bench/bench_module.rs",
        "benches/multi-file-bench/main.rs",
        "examples/multi-file-example/ex_module.rs",
        "examples/multi-file-example/main.rs",
        "examples/simple.rs",
        "src/bin/another-executable.rs",
        "src/bin/multi-file-executable/main.rs",
        "src/bin/multi-file-executable/some_module.rs",
        "src/bin/named-executable.rs",
        "src/lib.rs",
        "src/main.rs",
        "tests/multi-file-test/main.rs",
        "tests/multi-file-test/test_module.rs",
        "tests/some-integration-tests.rs",
    ]
}

fn format_products(products: &[Product]) -> String {
    products
        .iter()
        .map(format_product)
        .collect::<Vec<_>>()
        .join("\n")
}

fn format_product(product: &Product) -> String {
    let name = product.name.as_deref().unwrap_or("<None>");
    let path = product.path.as_deref().unwrap_or("<None>");
    format!("{name}  →  {path}")
}

fn lines(text: &str) -> String {
    text.trim()
        .lines()
        .map(|l| l.trim())
        .collect::<Vec<_>>()
        .join("\n")
}

#[test]
fn test_full_example() {
    let m = complete_with(BASIC_MANIFEST, full_example_extra_files()).unwrap();
    assert_eq!(format_product(&m.lib.unwrap()), "test_package  →  src/lib.rs");

    assert_eq!(
        format_products(&m.bin),
        lines(
            r###"
    another-executable  →  src/bin/another-executable.rs
    multi-file-executable  →  src/bin/multi-file-executable/main.rs
    named-executable  →  src/bin/named-executable.rs
    test-package  →  src/main.rs
    "###
        )
    );

    assert_eq!(
        format_products(&m.example),
        lines(
            r###"
    multi-file-example  →  examples/multi-file-example/main.rs
    simple  →  examples/simple.rs
    "###
        )
    );

    assert_eq!(
        format_products(&m.test),
        lines(
            r###"
    multi-file-test  →  tests/multi-file-test/main.rs
    some-integration-tests  →  tests/some-integration-tests.rs
    "###
        )
    );

    assert_eq!(
        format_products(&m.bench),
        lines(
            r###"
    large-input  →  benches/large-input.rs
    multi-file-bench  →  benches/multi-file-bench/main.rs
    "###
        )
    );
}

#[test]
fn test_full_example_with_declarations_2021() {
    let manifest = r#"
    [package]
    name = "test-package"
    version = "0.1.0"
    edition = "2021"

    [[bin]]
    name = "named-executable"

    [[example]]
    name = "simple"

    [[test]]
    name = "some-integration-tests"

    [[bench]]
    name = "large-input"
    "#;
    let m = complete_with(manifest, full_example_extra_files()).unwrap();
    assert_eq!(format_product(m.lib.as_ref().unwrap()), "test_package  →  src/lib.rs");
    assert_eq!(m.bin[0].name.as_deref(), Some("named-executable"));
    assert_eq!(m.bin[0].path.as_deref(), Some("src/bin/named-executable.rs"));
    assert_eq!(m.example[0].path.as_deref(), Some("examples/simple.rs"));
    assert_eq!(m.test[0].path.as_deref(), Some("tests/some-integration-tests.rs"));
    assert_eq!(m.bench[0].path.as_deref(), Some("benches/large-input.rs"));
    assert_eq!(m.bin.len(), 4);
    assert_eq!(m.example.len(), 2);
    assert_eq!(m.test.len(), 2);
    assert_eq!(m.bench.len(), 2);
    assert!(m.bin.iter().all(|t| t.edition == Some(Edition::E2021)));
}

#[test]
fn test_full_example_with_declarations_2015() {
    let manifest = r#"
    [package]
    name = "test-package"
    version = "0.1.0"

    [[bin]]
    name = "named-executable"

    [[example]]
    name = "simple"

    [[test]]
    name = "some-integration-tests"

    [[bench]]
    name = "large-input"
    "#;
    let m = complete_with(manifest, full_example_extra_files()).unwrap();
    assert_eq!(format_product(&m.lib.unwrap()), "test_package  →  src/lib.rs");
    assert_eq!(
        format_products(&m.bin),
        "named-executable  →  src/bin/named-executable.rs"
    );
    assert_eq!(format_products(&m.example), "simple  →  examples/simple.rs");
    assert_eq!(
        format_products(&m.test),
        "some-integration-tests  →  tests/some-integration-tests.rs"
    );
    assert_eq!(format_products(&m.bench), "large-input  →  benches/large-input.rs");
}

#[test]
fn test_full_example_without_discovery() {
    let manifest = r#"
    [package]
    name = "test-package"
    version = "0.1.0"
    edition = "2021"
    autobins = false
    autoexamples = false
    autotests = false
    autobenches = false
    "#;
    let m = complete_with(manifest, full_example_extra_files()).unwrap();
    assert_eq!(format_products(&m.bin), "");
    assert_eq!(format_products(&m.example), "");
    assert_eq!(format_products(&m.test), "");
    assert_eq!(format_products(&m.bench), "");
}

/// Check that broken paths are handled without errors. It is up to the
/// user to potentially turn this into a warning or error.
#[test]
fn test_declarations_with_broken_paths() {
    let manifest = r#"
    [package]
    name = "test-package"
    version = "0.1.0"

    [[bin]]
    name = "named-executable"
    path = "named-executable.rs"

    [[example]]
    name = "simple"
    path = "simple.rs"

    [[test]]
    name = "some-integration-tests"
    path = "some-integration-tests.rs"

    [[bench]]
    name = "large-input"
    path = "large-input.rs"
    "#;
    let m = complete_with(manifest, vec![]).unwrap();
    assert_eq!(format_products(&m.bin), "named-executable  →  named-executable.rs");
    assert_eq!(format_products(&m.example), "simple  →  simple.rs");
    assert_eq!(
        format_products(&m.test),
        "some-integration-tests  →  some-integration-tests.rs"
    );
    assert_eq!(format_products(&m.bench), "large-input  →  large-input.rs");
}

/// Check that missing and broken paths are handled without errors. It is up
/// to the user to potentially turn this into a warning or error.
#[test]
fn test_declarations_with_missing_and_broken_paths() {
    let manifest = r#"
    [package]
    name = "test-package"
    version = "0.1.0"

    [[bin]]
    name = "named-executable"

    [[example]]
    name = "simple"

    [[test]]
    name = "some-integration-tests"

    [[bench]]
    name = "large-input"
    "#;
    let m = complete_with(manifest, vec![]).unwrap();
    assert_eq!(format_products(&m.bin), "named-executable  →  <None>");
    assert_eq!(format_products(&m.example), "simple  →  <None>");
    assert_eq!(format_products(&m.test), "some-integration-tests  →  <None>");
    assert_eq!(format_products(&m.bench), "large-input  →  <None>");
}

/// Check that duplicate names are handled without errors. It is up to the
/// user to potentially turn this into a warning or error.
#[test]
fn test_duplicate_names() {
    let m = complete_with(
        BASIC_MANIFEST,
        vec![
            "benches/large-input.rs",
            "benches/large-input/main.rs",
            "examples/simple.rs",
            "examples/simple/main.rs",
            "src/bin/test-package.rs",
            "src/bin/test-package/main.rs",
            "src/main.rs",
            "tests/some-tests.rs",
            "tests/some-tests/main.rs",
        ],
    )
    .unwrap();

    assert_eq!(
        format_products(&m.bin),
        lines(
            r###"
    test-package  →  src/bin/test-package/main.rs
    test-package  →  src/bin/test-package.rs
    test-package  →  src/main.rs
    "###
        )
    );

    assert_eq!(
        format_products(&m.example),
        lines(
            r###"
    simple  →  examples/simple/main.rs
    simple  →  examples/simple.rs
    "###
        )
    );

    assert_eq!(
        format_products(&m.test),
        lines(
            r###"
    some-tests  →  tests/some-tests/main.rs
    some-tests  →  tests/some-tests.rs
    "###
        )
    );

    assert_eq!(
        format_products(&m.bench),
        lines(
            r###"
    large-input  →  benches/large-input/main.rs
    large-input  →  benches/large-input.rs
    "###
        )
    );
}

/// Check that missing names are handled without errors. It is up to the
/// user to potentially turn this into a warning or error.
#[test]
fn test_missing_names() {
    let manifest = r#"
    [package]
    name = "test-package"
    version = "0.1.0"

    [[bin]]
    path = "named-executable.rs"

    [[example]]
    path = "simple.rs"

    [[test]]
    path = "some-integration-tests.rs"

    [[bench]]
    path = "large-input.rs"
    "#;
    let m = complete_with(manifest, vec![]).unwrap();
    assert_eq!(format_products(&m.bin), "<None>  →  named-executable.rs");
    assert_eq!(format_products(&m.example), "<None>  →  simple.rs");
    assert_eq!(format_products(&m.test), "<None>  →  some-integration-tests.rs");
    assert_eq!(format_products(&m.bench), "<None>  →  large-input.rs");
}

#[test]
fn test_bin_module_example() {
    let manifest = r#"
    [package]
    name = "test-package"
    version = "0.1.0"
    autobins = false
    "#;
    let m = complete_with(manifest, vec!["src/lib.rs", "src/bin/mod.rs"]).unwrap();
    assert_eq!(format_product(&m.lib.unwrap()), "test_package  →  src/lib.rs");
    assert_eq!(format_products(&m.bin), "");
    assert_eq!(format_products(&m.example), "");
    assert_eq!(format_products(&m.test), "");
    assert_eq!(format_products(&m.bench), "");
}

#[test]
fn modern_package_without_declarations() {
    let manifest = r#"
    [package]
    name = "demo"
    version = "0.1.0"
    edition = "2021"
    "#;
    let m = complete_with(manifest, vec!["src/lib.rs", "src/main.rs", "examples/simple.rs"]).unwrap();
    assert_eq!(format_product(m.lib.as_ref().unwrap()), "demo  →  src/lib.rs");
    assert_eq!(format_products(&m.bin), "demo  →  src/main.rs");
    assert_eq!(format_products(&m.example), "simple  →  examples/simple.rs");
    assert!(m.test.is_empty());
    assert!(m.bench.is_empty());
    assert_eq!(m.bin[0].crate_type, Some(vec!["bin".to_string()]));
    assert_eq!(m.bin[0].edition, Some(Edition::E2021));
    assert_eq!(m.lib.unwrap().crate_type, Some(vec!["lib".to_string()]));
}

#[test]
fn declared_binary_gets_its_path_though_discovery_is_off() {
    let manifest = r#"
    [package]
    name = "demo"
    version = "0.1.0"
    edition = "2021"
    autobins = false

    [[bin]]
    name = "only"
    "#;
    let m = complete_with(manifest, vec!["src/bin/only.rs", "src/bin/other.rs"]).unwrap();
    assert_eq!(format_products(&m.bin), "only  →  src/bin/only.rs");
}

#[test]
fn legacy_binary_without_path_falls_back_to_main() {
    let manifest = r#"
    [package]
    name = "demo"
    version = "0.1.0"

    [[bin]]
    name = "tool"

    [[bin]]
    "#;
    let m = complete_with(manifest, vec!["src/main.rs", "src/bin/other.rs"]).unwrap();
    assert_eq!(
        format_products(&m.bin),
        "tool  →  src/main.rs\n<None>  →  src/main.rs"
    );
}

#[test]
fn modern_binary_without_path_stays_without() {
    let manifest = r#"
    [package]
    name = "demo"
    version = "0.1.0"
    edition = "2018"
    autobins = false

    [[bin]]
    name = "tool"
    "#;
    let m = complete_with(manifest, vec!["src/main.rs"]).unwrap();
    assert_eq!(format_products(&m.bin), "tool  →  <None>");
}

#[test]
fn first_discovered_of_a_name_gives_the_path() {
    let manifest = r#"
    [package]
    name = "demo"
    version = "0.1.0"
    edition = "2021"

    [[example]]
    name = "simple"
    "#;
    let m = complete_with(manifest, vec!["examples/simple.rs", "examples/simple/main.rs"]).unwrap();
    assert_eq!(
        format_products(&m.example),
        "simple  →  examples/simple/main.rs\nsimple  →  examples/simple.rs"
    );
}

#[test]
fn completion_twice_is_completion_once() {
    let manifest = r#"
    [package]
    name = "test-package"
    version = "0.1.0"

    [[example]]
    name = "simple"

    [[bin]]
    "#;
    let mut files = vec!["Cargo.toml", "build.rs"];
    files.extend(full_example_extra_files());
    let tree = Tree(files);
    let mut m = Manifest::from_str(manifest).unwrap();
    m.complete_from_abstract_filesystem(&tree).unwrap();
    let once = m.clone();
    m.complete_from_abstract_filesystem(&tree).unwrap();
    assert_eq!(m, once);
}

#[test]
fn listing_order_does_not_matter() {
    let mut forward = full_example_extra_files();
    let a = complete_with(BASIC_MANIFEST, forward.clone()).unwrap();
    forward.reverse();
    forward.push("src/bin/named-executable.rs");
    let b = complete_with(BASIC_MANIFEST, forward).unwrap();
    assert_eq!(a, b);
}

#[test]
fn build_script_is_detected() {
    let m = complete_with(BASIC_MANIFEST, vec!["build.rs"]).unwrap();
    assert_eq!(
        m.package.unwrap().build,
        Some(StringOrBool::String("build.rs".to_string()))
    );
}

#[test]
fn build_script_is_not_overwritten() {
    let with_path = r#"
    [package]
    name = "demo"
    version = "0.1.0"
    build = "foobar.rs"
    "#;
    let m = complete_with(with_path, vec!["build.rs"]).unwrap();
    assert_eq!(
        m.package.unwrap().build,
        Some(StringOrBool::String("foobar.rs".to_string()))
    );
    let switched_off = r#"
    [package]
    name = "demo"
    version = "0.1.0"
    build = false
    "#;
    let m = complete_with(switched_off, vec!["build.rs"]).unwrap();
    assert_eq!(m.package.unwrap().build, Some(StringOrBool::Bool(false)));
    let switched_on = r#"
    [package]
    name = "demo"
    version = "0.1.0"
    build = true
    "#;
    let m = complete_with(switched_on, vec!["build.rs"]).unwrap();
    assert_eq!(
        m.package.unwrap().build,
        Some(StringOrBool::String("build.rs".to_string()))
    );
    let m = complete_with(switched_on, vec![]).unwrap();
    assert_eq!(m.package.unwrap().build, Some(StringOrBool::Bool(true)));
}

#[test]
fn unreadable_src_is_an_io_error() {
    let mut m = Manifest::from_str(BASIC_MANIFEST).unwrap();
    let before = m.clone();
    let error = m.complete_from_abstract_filesystem(&Broken).unwrap_err();
    assert!(matches!(error, Error::Io(_)));
    assert_eq!(error.to_string(), "src: permission denied");
    assert_eq!(m, before);
}

#[test]
fn unreadable_root_matters_only_for_the_build_script() {
    let tree = || NoRoot(Tree(vec!["src/main.rs"]));
    let mut m = Manifest::from_str(BASIC_MANIFEST).unwrap();
    let error = m.complete_from_abstract_filesystem(&tree()).unwrap_err();
    assert!(matches!(error, Error::Io(_)));
    assert_eq!(format_products(&m.bin), "test-package  →  src/main.rs");

    let with_build = r#"
    [package]
    name = "demo"
    version = "0.1.0"
    build = "b.rs"
    "#;
    let mut m = Manifest::from_str(with_build).unwrap();
    assert!(m.complete_from_abstract_filesystem(&tree()).is_ok());
}

#[test]
fn workspace_without_package_is_left_alone() {
    let manifest = r#"
    [workspace]
    members = ["a"]
    "#;
    let mut m = Manifest::from_str(manifest).unwrap();
    let before = m.clone();
    m.complete_from_abstract_filesystem(&Broken).unwrap();
    assert_eq!(m, before);
}

#[test]
fn source_file_is_not_asked_for_a_main() {
    let m = complete_with(
        BASIC_MANIFEST,
        vec!["examples/odd.rs/main.rs", "examples/plain/main.rs"],
    )
    .unwrap();
    assert_eq!(
        format_products(&m.example),
        "odd  →  examples/odd.rs\nplain  →  examples/plain/main.rs"
    );
}
