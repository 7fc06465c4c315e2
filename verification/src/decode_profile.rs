//! Decoding the `[profile]` tables.

use vstd::prelude::*;
use crate::decode::{agrees, any_of, at, at_either, decode_any, decode_entries, decode_opt_any, decode_opt_bool, decode_opt_string, decode_opt_u16, defaulted, empty, expected, find, find_either, opt_any_of, opt_bool_of, opt_string_of, opt_u16_of, reads, table_of};
use crate::error::{Error, ErrorView};
use crate::profile::{Profile, ProfileView, Profiles, ProfilesView, StripSetting};
use crate::text::followed_by;
use crate::value::{TomlValue, TomlValueView};

verus! {

/// What is said of a `strip` that is neither a boolean nor a string.
pub const STRIP_OF_WRONG_KIND: &'static str = "wrong data type for strip setting";

/// What is said of a `strip` that is a string, but none of the three.
pub open spec fn strip_unknown(word: Seq<char>) -> Seq<char> {
    "'"@ + word + "' is not a valid value for 'strip'"@
}

/// What a value says is to be stripped: `true` means symbols and `false`
/// nothing; `"none"`, `"debuginfo"` and `"symbols"` mean what they say.
/// Any other value is refused, in words.
pub open spec fn strip_setting_of(v: TomlValueView) -> Result<StripSetting, Seq<char>> {
    match v {
        TomlValueView::Boolean(b) => Ok(if b { StripSetting::Symbols } else { StripSetting::Nothing }),
        TomlValueView::String(s) => if s == "none"@ {
            Ok(StripSetting::Nothing)
        } else if s == "debuginfo"@ {
            Ok(StripSetting::Debuginfo)
        } else if s == "symbols"@ {
            Ok(StripSetting::Symbols)
        } else {
            Err(strip_unknown(s))
        },
        _ => Err(STRIP_OF_WRONG_KIND@),
    }
}

impl StripSetting {
    /// Reads what is to be stripped.
    pub fn try_from(v: TomlValue) -> (r: Result<StripSetting, Error>)
        ensures
            match strip_setting_of(v.deep_view()) {
                Ok(setting) => r == Ok::<StripSetting, Error>(setting),
                Err(words) => r is Err && r->Err_0@ == ErrorView::Other(words),
            },
    {
        match v {
            TomlValue::Boolean(b) => Ok(if b { StripSetting::Symbols } else { StripSetting::Nothing }),
            TomlValue::String(s) => {
                if reads(&s, "none") {
                    Ok(StripSetting::Nothing)
                } else if reads(&s, "debuginfo") {
                    Ok(StripSetting::Debuginfo)
                } else if reads(&s, "symbols") {
                    Ok(StripSetting::Symbols)
                } else {
                    let mut words = followed_by("'", s.as_str());
                    words.append("' is not a valid value for 'strip'");
                    Err(Error::Other(words))
                }
            },
            _ => Err(Error::Other(STRIP_OF_WRONG_KIND.to_owned())),
        }
    }
}

/// The `strip` key of a profile.
pub open spec fn strip_of(v: TomlValueView) -> Result<StripSetting, ()> {
    match strip_setting_of(v) {
        Ok(setting) => Ok(setting),
        Err(_) => Err(()),
    }
}

/// Reads the `strip` key of a profile.
pub fn decode_strip(v: &TomlValue) -> (r: Result<StripSetting, Error>)
    ensures
        agrees(r, strip_of(v.deep_view())),
{
    match StripSetting::try_from(v.clone()) {
        Ok(setting) => Ok(setting),
        Err(e) => Err(Error::Parse(e.to_string())),
    }
}

/// What is to be stripped, under a key that may be left out.
pub open spec fn opt_strip_of(found: Result<Option<TomlValueView>, ()>) -> Result<Option<StripSetting>, ()> {
    match found {
        Ok(Some(v)) => match strip_of(v) {
            Ok(x) => Ok(Some(x)),
            Err(_) => Err(()),
        },
        Ok(None) => Ok(None),
        Err(_) => Err(()),
    }
}

/// Reads what is to be stripped, if the key was found.
pub fn decode_opt_strip(found: Option<&TomlValue>) -> (r: Result<Option<StripSetting>, Error>)
    ensures
        agrees(r, opt_strip_of(Ok(found.deep_view()))),
{
    match found {
        Some(v) => match decode_strip(v) {
            Ok(x) => Ok(Some(x)),
            Err(e) => Err(e),
        },
        None => Ok(None),
    }
}

/// A table whose values are kept as they are.
pub open spec fn values_of(v: TomlValueView) -> Result<Seq<(Seq<char>, TomlValueView)>, ()> {
    table_of(v, |item: TomlValueView| any_of(item))
}

/// Reads a table whose values are kept as they are.
pub fn decode_values(v: &TomlValue) -> (r: Result<Vec<(String, TomlValue)>, Error>)
    ensures
        agrees(r, values_of(v.deep_view())),
{
    let entries = decode_entries(v, "a table")?;
    let ghost of = |item: TomlValueView| any_of(item);
    let mut out: Vec<(String, TomlValue)> = Vec::new();
    let mut i: usize = 0;
    while i < entries.len()
        invariant
            i <= entries.len(),
            out.len() == i,
            v.deep_view() == TomlValueView::Table(entries.deep_view()),
            of == (|item: TomlValueView| any_of(item)),
            forall|j: int|
                0 <= j < i ==> (#[trigger] of(entries.deep_view()[j].1)) == Ok::<TomlValueView, ()>(out@[j].1.deep_view())
                    && out@[j].0@ == entries.deep_view()[j].0,
        decreases entries.len() - i,
    {
        assert(entries.deep_view()[i as int] == (entries@[i as int].0.deep_view(), entries@[i as int].1.deep_view()));
        match decode_any(&entries[i].1) {
            Ok(item) => out.push((entries[i].0.clone(), item)),
            Err(e) => {
                assert(of(entries.deep_view()[i as int].1) is Err);
                return Err(e);
            },
        }
        i = i + 1;
    }
    proof {
        let expected = values_of(v.deep_view())->Ok_0;
        assert(out.deep_view().len() == expected.len());
        assert forall|j: int| 0 <= j < expected.len() implies out.deep_view()[j] == expected[j] by {
            assert(out.deep_view()[j] == (out@[j].0.deep_view(), out@[j].1.deep_view()));
            assert(of(entries.deep_view()[j].1) is Ok);
        }
        assert(out.deep_view() =~= expected);
    }
    Ok(out)
}

/// A table of values, under a key that may be left out.
pub open spec fn opt_values_of(found: Result<Option<TomlValueView>, ()>) -> Result<Option<Seq<(Seq<char>, TomlValueView)>>, ()> {
    match found {
        Ok(Some(v)) => match values_of(v) {
            Ok(x) => Ok(Some(x)),
            Err(_) => Err(()),
        },
        Ok(None) => Ok(None),
        Err(_) => Err(()),
    }
}

/// Reads a table of values, if the key was found.
pub fn decode_opt_values(found: Option<&TomlValue>) -> (r: Result<Option<Vec<(String, TomlValue)>>, Error>)
    ensures
        agrees(r, opt_values_of(Ok(found.deep_view()))),
{
    match found {
        Some(v) => match decode_values(v) {
            Ok(x) => Ok(Some(x)),
            Err(e) => Err(e),
        },
        None => Ok(None),
    }
}

/// One profile.
pub open spec fn profile_of(v: TomlValueView) -> Result<ProfileView, ()> {
    match v {
        TomlValueView::Table(t) => {
            let opt_level = opt_any_of(at_either(t, "opt-level"@, "opt_level"@));
            let debug = opt_any_of(at(t, "debug"@));
            let rpath = opt_bool_of(at(t, "rpath"@));
            let inherits = opt_string_of(at(t, "inherits"@));
            let lto = opt_any_of(at(t, "lto"@));
            let debug_assertions = opt_bool_of(at_either(t, "debug-assertions"@, "debug_assertions"@));
            let codegen_units = opt_u16_of(at_either(t, "codegen-units"@, "codegen_units"@));
            let panic = opt_string_of(at(t, "panic"@));
            let incremental = opt_bool_of(at(t, "incremental"@));
            let overflow_checks = opt_bool_of(at_either(t, "overflow-checks"@, "overflow_checks"@));
            let strip = opt_strip_of(at(t, "strip"@));
            let package = defaulted(opt_values_of(at(t, "package"@)), Seq::empty());
            let split_debuginfo = opt_string_of(at(t, "split-debuginfo"@));
            let build_override = opt_any_of(at(t, "build-override"@));
            if opt_level is Ok && debug is Ok && rpath is Ok && inherits is Ok && lto is Ok && debug_assertions is Ok && codegen_units is Ok && panic is Ok && incremental is Ok && overflow_checks is Ok && strip is Ok && package is Ok && split_debuginfo is Ok && build_override is Ok {
                Ok(
                    ProfileView {
                        opt_level: opt_level->Ok_0,
                        debug: debug->Ok_0,
                        rpath: rpath->Ok_0,
                        inherits: inherits->Ok_0,
                        lto: lto->Ok_0,
                        debug_assertions: debug_assertions->Ok_0,
                        codegen_units: codegen_units->Ok_0,
                        panic: panic->Ok_0,
                        incremental: incremental->Ok_0,
                        overflow_checks: overflow_checks->Ok_0,
                        strip: strip->Ok_0,
                        package: package->Ok_0,
                        split_debuginfo: split_debuginfo->Ok_0,
                        build_override: build_override->Ok_0,
                    },
                )
            } else {
                Err(())
            }
        },
        _ => Err(()),
    }
}

/// Reads one profile.
pub fn decode_profile(v: &TomlValue) -> (r: Result<Profile, Error>)
    ensures
        agrees(r, profile_of(v.deep_view())),
{
    let t = decode_entries(v, "a table for a profile")?;
    let opt_level = decode_opt_any(find_either(t, "opt-level", "opt_level")?)?;
    let debug = decode_opt_any(find(t, "debug"))?;
    let rpath = decode_opt_bool(find(t, "rpath"))?;
    let inherits = decode_opt_string(find(t, "inherits"))?;
    let lto = decode_opt_any(find(t, "lto"))?;
    let debug_assertions = decode_opt_bool(find_either(t, "debug-assertions", "debug_assertions")?)?;
    let codegen_units = decode_opt_u16(find_either(t, "codegen-units", "codegen_units")?)?;
    let panic = decode_opt_string(find(t, "panic"))?;
    let incremental = decode_opt_bool(find(t, "incremental"))?;
    let overflow_checks = decode_opt_bool(find_either(t, "overflow-checks", "overflow_checks")?)?;
    let strip = decode_opt_strip(find(t, "strip"))?;
    let package = match decode_opt_values(find(t, "package"))? {
        Some(x) => x,
        None => empty(),
    };
    let split_debuginfo = decode_opt_string(find(t, "split-debuginfo"))?;
    let build_override = decode_opt_any(find(t, "build-override"))?;
    Ok(Profile {
        opt_level,
        debug,
        rpath,
        inherits,
        lto,
        debug_assertions,
        codegen_units,
        panic,
        incremental,
        overflow_checks,
        strip,
        package,
        split_debuginfo,
        build_override,
    })
}

/// A profile, under a key that may be left out.
pub open spec fn opt_profile_of(found: Result<Option<TomlValueView>, ()>) -> Result<Option<ProfileView>, ()> {
    match found {
        Ok(Some(v)) => match profile_of(v) {
            Ok(x) => Ok(Some(x)),
            Err(_) => Err(()),
        },
        Ok(None) => Ok(None),
        Err(_) => Err(()),
    }
}

/// Reads a profile, if the key was found.
pub fn decode_opt_profile(found: Option<&TomlValue>) -> (r: Result<Option<Profile>, Error>)
    ensures
        agrees(r, opt_profile_of(Ok(found.deep_view()))),
{
    match found {
        Some(v) => match decode_profile(v) {
            Ok(x) => Ok(Some(x)),
            Err(e) => Err(e),
        },
        None => Ok(None),
    }
}

/// Whether a profile of this name has a field of its own in `Profiles`.
pub open spec fn is_builtin_profile(name: Seq<char>) -> bool {
    name == "release"@ || name == "dev"@ || name == "test"@ || name == "bench"@ || name == "doc"@
}

/// The profiles of other names than the five: each must decode.
pub open spec fn custom_profiles_of(entries: Seq<(Seq<char>, TomlValueView)>) -> Result<
    Seq<(Seq<char>, ProfileView)>,
    (),
>
    decreases entries.len(),
{
    if entries.len() == 0 {
        Ok(Seq::empty())
    } else {
        let before = custom_profiles_of(entries.drop_last());
        let (name, v) = entries.last();
        if is_builtin_profile(name) {
            before
        } else {
            match (before, profile_of(v)) {
                (Ok(profiles), Ok(profile)) => Ok(profiles.push((name, profile))),
                _ => Err(()),
            }
        }
    }
}

/// Reads the profiles of other names than the five.
pub fn decode_custom_profiles(entries: &Vec<(String, TomlValue)>) -> (r: Result<Vec<(String, Profile)>, Error>)
    ensures
        agrees(r, custom_profiles_of(entries.deep_view())),
{
    let mut out: Vec<(String, Profile)> = Vec::new();
    let mut failure: Option<Error> = None;
    let mut i: usize = 0;
    assert(entries.deep_view().take(0) =~= Seq::empty());
    assert(out.deep_view() =~= Seq::empty());
    while i < entries.len()
        invariant
            i <= entries.len(),
            match custom_profiles_of(entries.deep_view().take(i as int)) {
                Ok(profiles) => failure is None && out.deep_view() == profiles,
                Err(_) => failure is Some && failure->0 is Parse,
            },
        decreases entries.len() - i,
    {
        proof {
            let upto = entries.deep_view().take(i + 1);
            assert(upto.drop_last() =~= entries.deep_view().take(i as int));
            assert(upto.last() == entries.deep_view()[i as int]);
            assert(entries.deep_view()[i as int] == (entries@[i as int].0.deep_view(), entries@[i as int].1.deep_view()));
        }
        let name = &entries[i].0;
        let builtin = reads(name, "release") || reads(name, "dev") || reads(name, "test") || reads(
            name,
            "bench",
        ) || reads(name, "doc");
        if !builtin {
            match decode_profile(&entries[i].1) {
                Ok(profile) => {
                    if failure.is_none() {
                        let ghost before = out.deep_view();
                        out.push((name.clone(), profile));
                        assert(out.deep_view() =~= before.push((name@, profile@)));
                    }
                },
                Err(e) => {
                    if failure.is_none() {
                        failure = Some(e);
                    }
                },
            }
        }
        i = i + 1;
    }
    assert(entries.deep_view().take(entries.len() as int) =~= entries.deep_view());
    match failure {
        Some(e) => Err(e),
        None => Ok(out),
    }
}

/// The `[profile]` table: the five profiles that cargo knows under their
/// names, every other key a profile of that name.
pub open spec fn profiles_of(v: TomlValueView) -> Result<ProfilesView, ()> {
    match v {
        TomlValueView::Table(t) => {
            let release = opt_profile_of(at(t, "release"@));
            let dev = opt_profile_of(at(t, "dev"@));
            let test = opt_profile_of(at(t, "test"@));
            let bench = opt_profile_of(at(t, "bench"@));
            let doc = opt_profile_of(at(t, "doc"@));
            let custom = custom_profiles_of(t);
            if release is Ok && dev is Ok && test is Ok && bench is Ok && doc is Ok && custom is Ok {
                Ok(
                    ProfilesView {
                        release: release->Ok_0,
                        dev: dev->Ok_0,
                        test: test->Ok_0,
                        bench: bench->Ok_0,
                        doc: doc->Ok_0,
                        custom: custom->Ok_0,
                    },
                )
            } else {
                Err(())
            }
        },
        _ => Err(()),
    }
}

/// Reads the `[profile]` table.
pub fn decode_profiles(v: &TomlValue) -> (r: Result<Profiles, Error>)
    ensures
        agrees(r, profiles_of(v.deep_view())),
{
    let t = decode_entries(v, "a table of profiles")?;
    let release = decode_opt_profile(find(t, "release"))?;
    let dev = decode_opt_profile(find(t, "dev"))?;
    let test = decode_opt_profile(find(t, "test"))?;
    let bench = decode_opt_profile(find(t, "bench"))?;
    let doc = decode_opt_profile(find(t, "doc"))?;
    let custom = decode_custom_profiles(t)?;
    Ok(Profiles {
        release,
        dev,
        test,
        bench,
        doc,
        custom,
    })
}

/// The `[profile]` table, under a key that may be left out.
pub open spec fn opt_profiles_of(found: Result<Option<TomlValueView>, ()>) -> Result<Option<ProfilesView>, ()> {
    match found {
        Ok(Some(v)) => match profiles_of(v) {
            Ok(x) => Ok(Some(x)),
            Err(_) => Err(()),
        },
        Ok(None) => Ok(None),
        Err(_) => Err(()),
    }
}

/// Reads the `[profile]` table, if the key was found.
pub fn decode_opt_profiles(found: Option<&TomlValue>) -> (r: Result<Option<Profiles>, Error>)
    ensures
        agrees(r, opt_profiles_of(Ok(found.deep_view()))),
{
    match found {
        Some(v) => match decode_profiles(v) {
            Ok(x) => Ok(Some(x)),
            Err(e) => Err(e),
        },
        None => Ok(None),
    }
}

} // verus!
