use cargo_manifest::afs::{AbstractFilesystem, IoError, IoErrorKind};
use cargo_manifest::{
    Dependency, Edition, Error, MaintenanceStatus, Manifest, MaybeInherited, Publish, Resolver,
    StringOrBool, StripSetting, TomlValue,
};

/// A package directory that holds the files named, all directly in it.
struct Flat(Vec<&'static str>);

impl AbstractFilesystem for Flat {
    fn file_names_in(&self, rel_path: &str) -> Result<Vec<String>, IoError> {
        if rel_path == "." {
            Ok(self.0.iter().map(|f| f.to_string()).collect())
        } else {
            Err(IoError {
                kind: IoErrorKind::NotFound,
                message: format!("{}: not found", rel_path),
            })
        }
    }
}

#[test]
fn autobuild() {
    let manifest = r#"
    [package]
    name = "buildrstest"
    version = "0.2.0"
    "#;
    let mut m = Manifest::from_str(manifest).unwrap();
    m.complete_from_abstract_filesystem(&Flat(vec!["build.rs", "Cargo.toml"]))
        .unwrap();
    let package = m.package.unwrap();
    assert_eq!(package.name, "buildrstest");
    assert_eq!(package.build, Some(StringOrBool::String("build.rs".to_string())));
    assert!(m.lib.is_none());
    assert!(m.bin.is_empty());
}

/// Checks that explicit `build` key in Cargo.toml has precedence over auto-detected build.rs file.
#[test]
fn metadata() {
    let manifest = r#"
    [package]
    name = "metadata"
    version = "0.1.0"
    build = "foobar.rs"

    [lib]
    path = "lib.rs"
    "#;
    let mut m = Manifest::from_str(manifest).unwrap();
    m.complete_from_abstract_filesystem(&Flat(vec!["build.rs", "lib.rs", "Cargo.toml"]))
        .unwrap();
    assert_eq!(
        m.package.as_ref().unwrap().build,
        Some(StringOrBool::String("foobar.rs".to_string()))
    );
    let lib = m.lib.unwrap();
    assert_eq!(lib.path.as_deref(), Some("lib.rs"));
    assert_eq!(lib.name.as_deref(), Some("metadata"));
}

#[test]
fn readme() {
    let base = "[package]\nname = \"foo\"\nversion = \"1\"";

    let m = Manifest::from_str(&format!("{}\nreadme = \"hello.md\"", base)).unwrap();
    let readme = m.package.unwrap().readme.unwrap();
    assert_eq!(
        MaybeInherited::Local(StringOrBool::String("hello.md".to_string())),
        readme
    );

    let m = Manifest::from_str(&format!("{}\nreadme = true", base)).unwrap();
    let readme = m.package.unwrap().readme.unwrap();
    assert_eq!(MaybeInherited::Local(StringOrBool::Bool(true)), readme);

    let m = Manifest::from_str(&format!("{}\nreadme = 1", base));
    assert!(m.is_err());
}

#[test]
fn legacy() {
    let m = Manifest::from_slice(
        br#"[project]
                name = "foo"
                version = "1"
                "#,
    )
    .expect("parse old");
    let package = m.package.unwrap();
    assert_eq!(package.name, "foo");
    assert_eq!(package.version, Some(MaybeInherited::Local("1".to_string())));
    assert!(m.workspace.is_none());

    let m = Manifest::from_str("name = \"foo\"\nversion=\"1\"").expect("parse bare");
    let package = m.package.unwrap();
    assert_eq!(package.name, "foo");
    assert_eq!(package.version, Some(MaybeInherited::Local("1".to_string())));
}

/// This test ensures that the snake_case variant is handled correctly for `default-features`
#[test]
fn default_features_casing() {
    let m = Manifest::from_str(
        r#"
[package]
name = "foo"
version = "1"

[dependencies]
rusoto_core = { version = "0.45.0", default_features=false, features=["rustls"] }
"#,
    )
    .unwrap();
    let deps = m.dependencies.unwrap();
    assert_eq!(deps.len(), 1);
    assert_eq!(deps[0].0, "rusoto_core");
    let detail = deps[0].1.detail().unwrap();
    assert_eq!(detail.version.as_deref(), Some("0.45.0"));
    assert_eq!(detail.default_features, Some(false));
    assert_eq!(detail.features, Some(vec!["rustls".to_string()]));
}

/// This test ensures that the snake_case variant is handled correctly for `build-dependencies`
#[test]
fn build_dependencies_casing() {
    let m = Manifest::from_str(
        r#"
[package]
name = "foo"
version = "1"

[build_dependencies]
lazy_static = "1.4.0"
"#,
    )
    .unwrap();
    assert_eq!(
        m.build_dependencies,
        Some(vec![(
            "lazy_static".to_string(),
            Dependency::Simple("1.4.0".to_string())
        )])
    );
    assert!(m.dependencies.is_none());
}

/// This test ensures that the snake_case variant is handled correctly for `dev-dependencies`
#[test]
fn dev_dependencies_casing() {
    let m = Manifest::from_str(
        r#"
[package]
name = "foo"
version = "1"

[dev_dependencies]
lazy_static = "1.4.0"
"#,
    )
    .unwrap();
    assert_eq!(
        m.dev_dependencies,
        Some(vec![(
            "lazy_static".to_string(),
            Dependency::Simple("1.4.0".to_string())
        )])
    );
}

/// This test ensures that both the kebap-case and the snake_case variant is handled correctly for `proc-macro`
#[test]
fn proc_macro_casing() {
    let m = Manifest::from_str(
        r#"
[package]
name = "foo"
version = "1"

[lib]
proc-macro = true
"#,
    )
    .unwrap();
    assert!(m.lib.unwrap().proc_macro);

    let m = Manifest::from_str(
        r#"
[package]
name = "foo"
version = "1"

[lib]
proc_macro = true
"#,
    )
    .unwrap();
    assert!(m.lib.unwrap().proc_macro);
}

/// We can work with package keys inherited from the workspace manifest.
#[test]
fn package_inheritance() {
    let m = Manifest::from_str(
        r#"
[package]
name = "bar"
version.workspace = true
authors.workspace = true
description.workspace = true
documentation.workspace = true
"#,
    )
    .unwrap();
    let package = m.package.unwrap();
    assert_eq!(package.name, "bar");
    assert_eq!(package.version, Some(MaybeInherited::inherited()));
    assert_eq!(package.authors, Some(MaybeInherited::inherited()));
    assert_eq!(package.description, Some(MaybeInherited::inherited()));
    assert_eq!(package.documentation, Some(MaybeInherited::inherited()));
    assert_eq!(package.homepage, None);
    assert_eq!(package.version(), MaybeInherited::inherited());
}

/// We can work with lints inherited from the workspace manifest.
#[test]
fn workspace_lints_inheritance() {
    let m = Manifest::from_str(
        r#"
[package]
name = "bar"
version.workspace = true

[lints]
workspace = true
"#,
    )
    .unwrap();
    assert_eq!(m.package.unwrap().name, "bar");
}

#[test]
fn workspace_lints_override_inherited() {
    let m = Manifest::from_str(
        r#"
[package]
name = "bar"
version.workspace = true

[lints]
workspace = true
rust.unused = "forbid"
clippy.complexity = { level = "deny" }
"#,
    )
    .unwrap();
    assert_eq!(m.package.unwrap().name, "bar");

    let m = Manifest::from_str(
        r#"
[package]
name = "bar"
version.workspace = true

[lints]
workspace = true

[lints.rust]
unused = "forbid"

[lints.clippy]
complexity = { level = "deny" }
"#,
    )
    .unwrap();
    assert_eq!(m.package.unwrap().name, "bar");
}

#[test]
fn workspace_lints() {
    let m = Manifest::from_str(
        r#"
[workspace]
members = ["core"]
[workspace.lints]
rust.unused = { level = "deny", priority = -1 }
clippy.complexity = { level = "warn", priority = 1 }
"#,
    )
    .unwrap();
    assert_eq!(m.workspace.unwrap().members, vec!["core".to_string()]);

    let m = Manifest::from_str(
        r#"
[workspace]
members = ["core"]

[workspace.lints.rust]
unused = { level = "deny", priority = -1 }

[workspace.lints]
clippy = { complexity = { level = "warn", priority = 1 }, pedantic = "allow" }
"#,
    )
    .unwrap();
    assert!(m.package.is_none());
    assert_eq!(m.workspace.unwrap().members, vec!["core".to_string()]);
}

/// This test ensures that we correctly handle crate dependencies that are deferred to the top-level workspace.
#[test]
fn workspace_dependency() {
    let m = Manifest::from_str(
        r#"
[workspace]
members = ["core"]
[workspace.dependencies]
chrono = "0.4"
serde = { version = "1.0", features = [ "derive" ] }
"#,
    )
    .unwrap();
    let deps = m.workspace.unwrap().dependencies.unwrap();
    assert_eq!(deps[0], ("chrono".to_string(), Dependency::Simple("0.4".to_string())));
    assert_eq!(deps[1].0, "serde");
    assert_eq!(deps[1].1.req(), "1.0");
    assert_eq!(deps[1].1.req_features(), ["derive".to_string()]);

    let m = Manifest::from_str(
        r#"
[package]
name = "core"
version = "0.1.0"
[dependencies]
chrono.workspace = true
config = "0.13"
tokio = { workspace = true, features = [ "rt-multi-thread" ] }
"#,
    )
    .unwrap();
    let deps = m.dependencies.unwrap();
    assert_eq!(deps.len(), 3);
    assert!(matches!(deps[0].1, Dependency::Inherited(_)));
    assert_eq!(deps[1], ("config".to_string(), Dependency::Simple("0.13".to_string())));
    match &deps[2].1 {
        Dependency::Inherited(i) => {
            assert_eq!(i.features, Some(vec!["rt-multi-thread".to_string()]));
            assert_eq!(i.optional, None);
        }
        other => panic!("not inherited: {:?}", other),
    }
}

#[test]
fn version_defaults_to_zero() {
    let m = Manifest::from_str("[package]\nname = \"foo\"\n").unwrap();
    let package = m.package.unwrap();
    assert_eq!(package.version, None);
    assert_eq!(package.version(), MaybeInherited::Local("0.0.0"));
    assert_eq!(package.edition, None);
}

#[test]
fn text_that_is_no_toml_is_a_parse_error() {
    let error = Manifest::from_str("[package\nname = ").unwrap_err();
    assert!(matches!(error, Error::Parse(_)));
    assert!(!error.to_string().is_empty());
}

#[test]
fn bytes_that_are_no_text_are_a_utf8_error() {
    let error = Manifest::from_slice(&[b'[', 0xff, 0xfe]).unwrap_err();
    assert!(matches!(error, Error::Utf8(_)));
    assert!(!error.to_string().is_empty());
    let error = Manifest::from_slice_with_metadata(&[0xc3]).unwrap_err();
    assert!(matches!(error, Error::Utf8(_)));
}

#[test]
fn bytes_and_text_read_alike() {
    let text = "[package]\nname = \"f\u{f6}\u{f6}\"\nedition = \"2021\"\n";
    let from_text = Manifest::from_str(text).unwrap();
    let from_bytes = Manifest::from_slice(text.as_bytes()).unwrap();
    assert_eq!(from_text, from_bytes);
    assert_eq!(from_text.package.unwrap().name, "f\u{f6}\u{f6}");
}

#[test]
fn package_without_name_is_refused() {
    let error = Manifest::from_str("[package]\nversion = \"1\"\n").unwrap_err();
    assert!(matches!(error, Error::Parse(_)));
    assert!(Manifest::from_str("version = \"1\"\n").is_err());
    assert!(Manifest::from_str("[project]\nversion = \"1\"\n").is_err());
    assert!(Manifest::from_str("").is_err());
}

#[test]
fn both_spellings_of_a_key_are_refused() {
    let text = r#"
[package]
name = "foo"

[dev-dependencies]
a = "1"

[dev_dependencies]
b = "1"
"#;
    assert!(matches!(Manifest::from_str(text), Err(Error::Parse(_))));
}

#[test]
fn unknown_keys_are_passed_over() {
    let text = r#"
[package]
name = "foo"
no-such-key = 7

[no-such-table]
x = 1
"#;
    let m = Manifest::from_str(text).unwrap();
    assert_eq!(m.package.unwrap().name, "foo");
}

#[test]
fn dependency_shapes() {
    let text = r#"
[package]
name = "foo"

[dependencies]
a = "1.0"
b = { version = "1.0" }
c = { workspace = true, features = ["x"] }
d = { workspace = false, version = "2" }
e = { git = "https://example.com/e", package = "real-e", optional = true }
f = { workspace = true, version = 3 }
g = {}
"#;
    let m = Manifest::from_str(text).unwrap();
    let deps = m.dependencies.unwrap();
    let names: Vec<&str> = deps.iter().map(|d| d.0.as_str()).collect();
    assert_eq!(names, ["a", "b", "c", "d", "e", "f", "g"]);
    assert_eq!(deps[0].1, Dependency::Simple("1.0".to_string()));
    assert!(matches!(deps[1].1, Dependency::Detailed(_)));
    assert_eq!(deps[1].1.clone().simplify(), Dependency::Simple("1.0".to_string()));
    assert!(matches!(deps[2].1, Dependency::Inherited(_)));
    assert_eq!(deps[2].1.req(), "*");
    assert_eq!(deps[2].1.req_features(), ["x".to_string()]);
    assert!(!deps[2].1.is_crates_io());
    assert!(matches!(deps[3].1, Dependency::Detailed(_)));
    assert_eq!(deps[3].1.req(), "2");
    assert_eq!(deps[4].1.git(), Some("https://example.com/e"));
    assert_eq!(deps[4].1.package(), Some("real-e"));
    assert!(deps[4].1.optional());
    assert!(!deps[4].1.is_crates_io());
    assert_eq!(deps[4].1.req(), "*");
    assert!(matches!(deps[5].1, Dependency::Inherited(_)));
    assert!(matches!(deps[6].1, Dependency::Detailed(_)));
    assert!(deps[6].1.is_crates_io());
}

#[test]
fn dependency_of_no_shape_is_refused() {
    let text = "[package]\nname = \"foo\"\n[dependencies]\na = 1\n";
    assert!(matches!(Manifest::from_str(text), Err(Error::Parse(_))));
    let text = "[package]\nname = \"foo\"\n[dependencies]\na = { version = 1 }\n";
    assert!(Manifest::from_str(text).is_err());
    let text = "[package]\nname = \"foo\"\n[dependencies]\na = { workspace = true, features = \"x\" }\n";
    assert!(Manifest::from_str(text).is_err());
}

#[test]
fn package_keys() {
    let text = r#"
[package]
name = "foo"
version = "1.2.3"
edition = "2024"
authors = ["a", "b"]
license-file = "LICENSE"
rust-version = "1.70"
default-run = "foo"
include = ["src/**"]
exclude = { workspace = true }
publish = ["internal"]
resolver = "2"
autobins = false
autolib = true
keywords.workspace = true

[package.metadata]
answer = 42
ratio = 0.5
when = 1979-05-27T07:32:00Z
nested = { list = [1, "two", false] }
"#;
    let m = Manifest::from_str(text).unwrap();
    let p = m.package.unwrap();
    assert_eq!(p.edition, Some(MaybeInherited::Local(Edition::E2024)));
    assert_eq!(p.authors, Some(MaybeInherited::Local(vec!["a".to_string(), "b".to_string()])));
    assert_eq!(p.license_file, Some(MaybeInherited::Local("LICENSE".to_string())));
    assert_eq!(p.rust_version, Some(MaybeInherited::Local("1.70".to_string())));
    assert_eq!(p.default_run.as_deref(), Some("foo"));
    assert_eq!(p.includes, Some(MaybeInherited::Local(vec!["src/**".to_string()])));
    assert_eq!(p.exclude, Some(MaybeInherited::inherited()));
    assert_eq!(
        p.publish,
        Some(MaybeInherited::Local(Publish::Registry(vec!["internal".to_string()])))
    );
    assert_eq!(p.resolver, Some(Resolver::V2));
    assert_eq!(p.autobins, Some(false));
    assert_eq!(p.autolib, Some(true));
    assert_eq!(p.keywords, Some(MaybeInherited::inherited()));
    assert_eq!(
        p.metadata,
        Some(TomlValue::Table(vec![
            ("answer".to_string(), TomlValue::Integer(42)),
            (
                "nested".to_string(),
                TomlValue::Table(vec![(
                    "list".to_string(),
                    TomlValue::Array(vec![
                        TomlValue::Integer(1),
                        TomlValue::String("two".to_string()),
                        TomlValue::Boolean(false),
                    ])
                )])
            ),
            ("ratio".to_string(), TomlValue::Float(0.5f64.to_bits())),
            (
                "when".to_string(),
                TomlValue::Datetime("1979-05-27T07:32:00Z".to_string())
            ),
        ]))
    );
}

#[test]
fn edition_must_be_one_of_four() {
    assert!(Manifest::from_str("[package]\nname = \"foo\"\nedition = \"2019\"\n").is_err());
    assert!(Manifest::from_str("[package]\nname = \"foo\"\nedition = 2021\n").is_err());
    for (text, edition) in [
        ("2015", Edition::E2015),
        ("2018", Edition::E2018),
        ("2021", Edition::E2021),
        ("2024", Edition::E2024),
    ] {
        let m = Manifest::from_str(&format!("[package]\nname = \"foo\"\nedition = \"{}\"\n", text)).unwrap();
        assert_eq!(m.package.unwrap().edition, Some(MaybeInherited::Local(edition)));
        assert_eq!(edition.as_str(), text);
    }
    assert_eq!(Edition::default(), Edition::E2015);
}

#[test]
fn profiles() {
    let text = r#"
[package]
name = "foo"

[profile.release]
opt-level = 3
lto = "fat"
strip = true
codegen_units = 1
debug-assertions = false

[profile.release.package.foo]
opt-level = 1

[profile.dev]
strip = "debuginfo"
panic = "abort"

[profile.fast]
inherits = "release"
strip = "none"
"#;
    let m = Manifest::from_str(text).unwrap();
    let profiles = m.profile.unwrap();
    let release = profiles.release.unwrap();
    assert_eq!(release.opt_level, Some(TomlValue::Integer(3)));
    assert_eq!(release.lto, Some(TomlValue::String("fat".to_string())));
    assert_eq!(release.strip, Some(StripSetting::Symbols));
    assert_eq!(release.codegen_units, Some(1));
    assert_eq!(release.debug_assertions, Some(false));
    assert_eq!(release.package.len(), 1);
    assert_eq!(release.package[0].0, "foo");
    let dev = profiles.dev.unwrap();
    assert_eq!(dev.strip, Some(StripSetting::Debuginfo));
    assert_eq!(dev.panic.as_deref(), Some("abort"));
    assert!(profiles.test.is_none());
    assert_eq!(profiles.custom.len(), 1);
    assert_eq!(profiles.custom[0].0, "fast");
    assert_eq!(profiles.custom[0].1.inherits.as_deref(), Some("release"));
    assert_eq!(profiles.custom[0].1.strip, Some(StripSetting::Nothing));
}

#[test]
fn profile_that_is_not_one_is_refused() {
    assert!(Manifest::from_str("[package]\nname = \"foo\"\n[profile]\nfast = 1\n").is_err());
    assert!(Manifest::from_str("[package]\nname = \"foo\"\n[profile.dev]\nstrip = \"all\"\n").is_err());
    assert!(Manifest::from_str("[package]\nname = \"foo\"\n[profile.dev]\ncodegen-units = 70000\n").is_err());
    assert!(Manifest::from_str("[package]\nname = \"foo\"\n[profile.dev]\ncodegen-units = -1\n").is_err());
    let m = Manifest::from_str("[package]\nname = \"foo\"\n[profile.dev]\ncodegen-units = 65535\n").unwrap();
    assert_eq!(m.profile.unwrap().dev.unwrap().codegen_units, Some(65535));
}

#[test]
fn strip_setting_from_a_value() {
    assert_eq!(
        StripSetting::try_from(TomlValue::Boolean(true)).unwrap(),
        StripSetting::Symbols
    );
    assert_eq!(
        StripSetting::try_from(TomlValue::Boolean(false)).unwrap(),
        StripSetting::Nothing
    );
    for (word, setting) in [
        ("none", StripSetting::Nothing),
        ("debuginfo", StripSetting::Debuginfo),
        ("symbols", StripSetting::Symbols),
    ] {
        assert_eq!(
            StripSetting::try_from(TomlValue::String(word.to_string())).unwrap(),
            setting
        );
    }
    let error = StripSetting::try_from(TomlValue::String("all".to_string())).unwrap_err();
    assert!(matches!(error, Error::Other(_)));
    assert_eq!(error.to_string(), "'all' is not a valid value for 'strip'");
    let error = StripSetting::try_from(TomlValue::Integer(1)).unwrap_err();
    assert_eq!(error.to_string(), "wrong data type for strip setting");
}

#[test]
fn badges_are_read_leniently() {
    let text = r#"
[package]
name = "foo"

[badges]
travis-ci = { repository = "a/b" }
appveyor = { repository = "a/b", branch = "main", project_name = "p" }
gitlab = { branch = "no-repository" }
codecov = 7
maintenance = { status = "actively-developed" }
"#;
    let m = Manifest::from_str(text).unwrap();
    let badges = m.badges.unwrap();
    let travis = badges.travis_ci.unwrap();
    assert_eq!(travis.repository, "a/b");
    assert_eq!(travis.branch, "master");
    let appveyor = badges.appveyor.unwrap();
    assert_eq!(appveyor.branch, "main");
    assert_eq!(appveyor.project_name.as_deref(), Some("p"));
    assert!(badges.gitlab.is_none());
    assert!(badges.codecov.is_none());
    assert!(badges.coveralls.is_none());
    assert_eq!(badges.maintenance.status, MaintenanceStatus::ActivelyDeveloped);

    let m = Manifest::from_str("[package]\nname = \"foo\"\n[badges]\nmaintenance = { status = \"asleep\" }\n").unwrap();
    assert_eq!(m.badges.unwrap().maintenance.status, MaintenanceStatus::NoBadge);
    assert!(Manifest::from_str("badges = 1\n[package]\nname = \"foo\"\n").is_err());
}

#[test]
fn targets_features_and_patches() {
    let text = r#"
cargo-features = ["edition2024"]

[package]
name = "foo"

[features]
default = ["a"]
a = []

[target.'cfg(unix)'.dependencies]
libc = "0.2"

[target.'cfg(windows)'.dev_dependencies]
winapi = { version = "0.3", features = ["winuser"] }

[patch.crates-io]
foo = { path = "../foo" }

[[bin]]
name = "tool"
required_features = ["a"]
crate_type = ["bin"]
edition = "2018"
harness = false
"#;
    let m = Manifest::from_str(text).unwrap();
    assert_eq!(m.cargo_features, Some(vec!["edition2024".to_string()]));
    let features = m.features.unwrap();
    assert_eq!(features[0], ("a".to_string(), vec![]));
    assert_eq!(features[1], ("default".to_string(), vec!["a".to_string()]));
    let target = m.target.unwrap();
    assert_eq!(target.len(), 2);
    assert_eq!(target[0].0, "cfg(unix)");
    assert_eq!(target[0].1.dependencies[0].0, "libc");
    assert!(target[0].1.dev_dependencies.is_empty());
    assert_eq!(target[1].1.dev_dependencies[0].1.req_features(), ["winuser".to_string()]);
    let patch = m.patch.unwrap();
    assert_eq!(patch[0].0, "crates-io");
    assert_eq!(patch[0].1[0].1.detail().unwrap().path.as_deref(), Some("../foo"));
    assert_eq!(m.bin.len(), 1);
    assert_eq!(m.bin[0].required_features, vec!["a".to_string()]);
    assert_eq!(m.bin[0].crate_type, Some(vec!["bin".to_string()]));
    assert_eq!(m.bin[0].edition, Some(Edition::E2018));
    assert!(!m.bin[0].harness);
    assert!(m.bin[0].test);
}

#[test]
fn from_value_reads_a_tree() {
    let root = TomlValue::Table(vec![(
        "project".to_string(),
        TomlValue::Table(vec![("name".to_string(), TomlValue::String("old".to_string()))]),
    )]);
    let m = Manifest::from_value(&root).unwrap();
    assert_eq!(m.package.unwrap().name, "old");
    assert!(Manifest::from_value(&TomlValue::Integer(1)).is_err());
    assert_eq!(root.clone(), root);
}

#[test]
fn text_parses_into_a_manifest() {
    let text = "[package]\nname = \"foo\"\n";
    let parsed: Manifest = text.parse().unwrap();
    assert_eq!(parsed, Manifest::from_str(text).unwrap());
    assert!("name = 1".parse::<Manifest>().is_err());
}

#[test]
fn a_manifest_has_a_package_or_a_workspace() {
    for text in [
        "[package]\nname = \"a\"\n",
        "[workspace]\n",
        "[project]\nname = \"a\"\n",
        "name = \"a\"\n[dependencies]\nb = \"1\"\n",
        "[package]\nname = \"a\"\n[workspace]\nmembers = []\n",
    ] {
        let m = Manifest::from_str(text).unwrap();
        assert!(m.package.is_some() || m.workspace.is_some());
    }
    let m = Manifest::from_str("name = \"a\"\n[dependencies]\nb = \"1\"\n").unwrap();
    assert_eq!(m.dependencies.unwrap().len(), 1);
    let m = Manifest::from_str("[workspace]\n[project]\nname = \"a\"\n").unwrap();
    assert!(m.package.is_none());
}

#[test]
fn a_table_with_only_a_version_is_that_version() {
    let m = Manifest::from_str("[package]\nname = \"a\"\n[dependencies]\nb = { version = \"1.0\" }\n").unwrap();
    let dep = m.dependencies.unwrap().remove(0).1;
    assert_eq!(dep.req(), "1.0");
    assert_eq!(dep.simplify(), Dependency::Simple("1.0".to_string()));
}

#[test]
fn parsing_text_into_a_tree() {
    let root = cargo_manifest::document::parse("b = [1, 2]\na = \"x\"\n[t]\nflag = true\n").unwrap();
    assert_eq!(
        root,
        TomlValue::Table(vec![
            ("a".to_string(), TomlValue::String("x".to_string())),
            (
                "b".to_string(),
                TomlValue::Array(vec![TomlValue::Integer(1), TomlValue::Integer(2)])
            ),
            (
                "t".to_string(),
                TomlValue::Table(vec![("flag".to_string(), TomlValue::Boolean(true))])
            ),
        ])
    );
    assert_eq!(root.duplicate(), root);
    assert!(cargo_manifest::document::parse("a = ").is_err());
}

#[test]
fn decode_errors_say_what_is_wrong() {
    assert_eq!(cargo_manifest::decode::missing("name").to_string(), "missing field name");
    assert_eq!(
        cargo_manifest::decode::expected("a string").to_string(),
        "invalid type: expected a string"
    );
    let error = Manifest::from_str("[package]\nversion = \"1\"\n").unwrap_err();
    assert_eq!(error.to_string(), "missing field name");
    let error = Manifest::from_str("[package]\nname = \"foo\"\nreadme = 1\n").unwrap_err();
    assert_eq!(error.to_string(), "invalid type: expected a string or a boolean");
    assert!(cargo_manifest::decode::empty::<String>().is_empty());
}
