use cargo_manifest::afs::{AbstractFilesystem, IoError, IoErrorKind};
use cargo_manifest::{Error, Manifest};

/// A tree of files that exists only as the list of their paths.
struct Files(Vec<&'static str>);

impl AbstractFilesystem for Files {
    fn file_names_in(&self, rel_path: &str) -> Result<Vec<String>, IoError> {
        let prefix = if rel_path == "." {
            String::new()
        } else {
            format!("{}/", rel_path)
        };
        let mut names = Vec::new();
        for file in self.0.iter().rev() {
            if let Some(rest) = file.strip_prefix(prefix.as_str()) {
                let name = rest.split('/').next().unwrap().to_string();
                if !names.contains(&name) {
                    names.push(name);
                }
            }
        }
        if names.is_empty() && rel_path != "." {
            return Err(IoError {
                kind: IoErrorKind::NotFound,
                message: format!("{}: not found", rel_path),
            });
        }
        Ok(names)
    }
}

fn complete(manifest: &str, extra_files: Vec<&'static str>) -> Result<Manifest, Error> {
    let mut files = vec!["Cargo.toml"];
    files.extend(extra_files);
    let mut m = Manifest::from_str(manifest)?;
    m.complete_from_abstract_filesystem(&Files(files))?;
    Ok(m)
}

const BASIC_MANIFEST: &str = r#"
[package]
name = "auto-lib"
version = "0.1.0"
"#;

#[test]
fn test_bin() {
    let m = complete(BASIC_MANIFEST, vec!["src/main.rs"]).unwrap();
    assert!(m.lib.is_none());
}

#[test]
fn test_lib_rs() {
    let m = complete(BASIC_MANIFEST, vec!["src/lib.rs"]).unwrap();

    let lib = m.lib.unwrap();
    assert_eq!(lib.path.as_deref(), Some("src/lib.rs"));
    assert_eq!(lib.name.as_deref(), Some("auto_lib"));
    assert_eq!(lib.edition, None);
    assert_eq!(lib.crate_type, Some(vec!["lib".to_string()]));
    assert!(lib.test && lib.doctest && lib.bench && lib.doc && lib.harness);
    assert!(!lib.plugin && !lib.proc_macro);
    assert!(lib.required_features.is_empty());
}

#[test]
fn test_name_override() {
    let manifest = r#"
    [package]
    name = "auto-lib"
    version = "0.1.0"

    [lib]
    name = "foo"
    "#;
    let m = complete(manifest, vec!["src/lib.rs"]).unwrap();

    let lib = m.lib.unwrap();
    assert_eq!(lib.path.as_deref(), Some("src/lib.rs"));
    assert_eq!(lib.name.as_deref(), Some("foo"));
    assert_eq!(lib.crate_type, Some(vec!["lib".to_string()]));
}

#[test]
fn test_path_override() {
    let manifest = r#"
    [package]
    name = "auto-lib"
    version = "0.1.0"

    [lib]
    path = "src/foo.rs"
    "#;
    let m = complete(manifest, vec!["src/foo.rs", "src/lib.rs"]).unwrap();

    let lib = m.lib.unwrap();
    assert_eq!(lib.path.as_deref(), Some("src/foo.rs"));
    assert_eq!(lib.name.as_deref(), Some("auto_lib"));
}

#[test]
fn test_other_override() {
    let manifest = r#"
    [package]
    name = "auto-lib"
    version = "0.1.0"
    edition = "2018"

    [lib]
    proc-macro = true
    test = false
    "#;
    let m = complete(manifest, vec!["src/lib.rs"]).unwrap();

    let lib = m.lib.unwrap();
    assert!(!lib.test);
    assert!(lib.proc_macro);
    assert_eq!(lib.edition, Some(cargo_manifest::Edition::E2018));
}

#[test]
fn test_legacy_lib_with_name() {
    let manifest = r#"
    [package]
    name = "auto-lib"
    version = "0.1.0"

    [lib]
    name = "foo"
    "#;
    let m = complete(manifest, vec!["src/foo.rs"]).unwrap();

    let lib = m.lib.unwrap();
    assert_eq!(lib.path.as_deref(), Some("src/foo.rs"));
    assert_eq!(lib.name.as_deref(), Some("foo"));
}

#[test]
fn test_legacy_lib_without_name() {
    let manifest = r#"
    [package]
    name = "auto-lib"
    version = "0.1.0"

    [lib]
    "#;
    let m = complete(manifest, vec!["src/auto-lib.rs"]).unwrap();

    let lib = m.lib.unwrap();
    assert_eq!(lib.path.as_deref(), Some("src/auto-lib.rs"));
    assert_eq!(lib.name.as_deref(), Some("auto_lib"));
}

#[test]
fn test_legacy_lib_with_new_edition() {
    let manifest = r#"
    [package]
    name = "auto-lib"
    version = "0.1.0"
    edition = "2018"

    [lib]
    name = "foo"
    "#;
    let error = complete(manifest, vec!["src/foo.rs"]).unwrap_err();
    assert_eq!(
        error.to_string(),
        "can't find library, rename file to `src/lib.rs` or specify lib.path"
    );
    assert!(matches!(error, Error::Other(_)));
}

#[test]
fn test_disabled_autolib() {
    let manifest = r#"
    [package]
    name = "auto-lib"
    version = "0.1.0"
    edition = "2021"
    autolib = false
    "#;
    let m = complete(manifest, vec!["src/lib.rs"]).unwrap();

    assert!(m.lib.is_none());
}

#[test]
fn legacy_library_named_after_the_package() {
    let manifest = r#"
    [package]
    name = "foo"
    version = "0.1.0"

    [lib]
    "#;
    let m = complete(manifest, vec!["src/foo.rs"]).unwrap();
    let lib = m.lib.unwrap();
    assert_eq!(lib.name.as_deref(), Some("foo"));
    assert_eq!(lib.path.as_deref(), Some("src/foo.rs"));
}

#[test]
fn legacy_library_of_another_name_is_not_found() {
    let manifest = r#"
    [package]
    name = "demo"
    version = "0.1.0"

    [lib]
    "#;
    let error = complete(manifest, vec!["src/foo.rs"]).unwrap_err();
    assert_eq!(
        error.to_string(),
        "can't find library, rename file to `src/lib.rs` or specify lib.path"
    );
}

#[test]
fn declared_library_loses_required_features() {
    let manifest = r#"
    [package]
    name = "demo"
    version = "0.1.0"

    [lib]
    required-features = ["a", "b"]
    "#;
    let m = complete(manifest, vec!["src/lib.rs"]).unwrap();
    assert!(m.lib.unwrap().required_features.is_empty());
}

#[test]
fn failed_completion_changes_nothing() {
    let manifest = r#"
    [package]
    name = "demo"
    version = "0.1.0"
    edition = "2021"

    [lib]
    "#;
    let before = Manifest::from_str(manifest).unwrap();
    let mut m = Manifest::from_str(manifest).unwrap();
    let files = Files(vec!["Cargo.toml", "src/main.rs", "examples/a.rs"]);
    assert!(m.complete_from_abstract_filesystem(&files).is_err());
    assert_eq!(m, before);
}
