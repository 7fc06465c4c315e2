//! Finding the targets that a directory holds by convention: each source
//! file is one, and so is each subdirectory with a `main.rs`.

use vstd::prelude::*;
use crate::afs::{AbstractFilesystem, IoError};
use crate::text::{contains_name, ends_with, is_sorted_listing, join, joined, sorted_names, strictly_increasing, strip_suffix, stripped_suffix};

verus! {

/// A target found in a directory: its name and where its root file lies.
#[derive(Debug, Clone, PartialEq, Eq)]
pub struct DiscoveredTarget {
    pub name: String,
    pub path: String,
}

/// What a `DiscoveredTarget` holds, as plain values.
pub struct DiscoveredTargetView {
    pub name: Seq<char>,
    pub path: Seq<char>,
}

impl View for DiscoveredTarget {
    type V = DiscoveredTargetView;

    open spec fn view(&self) -> DiscoveredTargetView {
        DiscoveredTargetView { name: self.name@, path: self.path@ }
    }
}

impl DeepView for DiscoveredTarget {
    type V = DiscoveredTargetView;

    open spec fn deep_view(&self) -> DiscoveredTargetView {
        self@
    }
}

/// One entry of a directory that was looked through.
#[derive(Debug, Clone, PartialEq, Eq)]
pub struct DirectoryEntry {
    pub name: String,
    /// Whether the entry is a directory with a `main.rs` directly in it.
    /// A source file is never asked, and has `false`.
    pub has_main: bool,
}

/// What a `DirectoryEntry` holds, as plain values.
pub struct DirectoryEntryView {
    pub name: Seq<char>,
    pub has_main: bool,
}

impl View for DirectoryEntry {
    type V = DirectoryEntryView;

    open spec fn view(&self) -> DirectoryEntryView {
        DirectoryEntryView { name: self.name@, has_main: self.has_main }
    }
}

impl DeepView for DirectoryEntry {
    type V = DirectoryEntryView;

    open spec fn deep_view(&self) -> DirectoryEntryView {
        self@
    }
}

/// The names of `entries`, in their order.
pub open spec fn entry_names(entries: Seq<DirectoryEntryView>) -> Seq<Seq<char>> {
    Seq::new(entries.len(), |i: int| entries[i].name)
}

/// Whether `entries` can be what looking through a directory gave: the
/// names stand in increasing order, so none occurs twice.
pub open spec fn is_scan(entries: Seq<DirectoryEntryView>) -> bool {
    strictly_increasing(entry_names(entries))
}

/// The target that one entry of the directory `dir` stands for, if any: a
/// file `<name>.rs` is the target `<name>`, and a directory `<name>` with a
/// `main.rs` is the target `<name>` with that file as its root.
pub open spec fn entry_target(dir: Seq<char>, entry: DirectoryEntryView) -> Option<DiscoveredTargetView> {
    match stripped_suffix(entry.name, ".rs"@) {
        Some(stem) => Some(DiscoveredTargetView { name: stem, path: joined(dir, entry.name) }),
        None => if entry.has_main {
            Some(
                DiscoveredTargetView {
                    name: entry.name,
                    path: joined(joined(dir, entry.name), "main.rs"@),
                },
            )
        } else {
            None
        },
    }
}

/// The targets that the entries of the directory `dir` stand for, in the
/// order of the entries.
pub open spec fn discovered(dir: Seq<char>, entries: Seq<DirectoryEntryView>) -> Seq<DiscoveredTargetView>
    decreases entries.len(),
{
    if entries.len() == 0 {
        Seq::empty()
    } else {
        let before = discovered(dir, entries.drop_last());
        match entry_target(dir, entries.last()) {
            Some(target) => before.push(target),
            None => before,
        }
    }
}

/// The targets among the `entries` of the directory `dir`.
pub fn discovered_targets(dir: &str, entries: &Vec<DirectoryEntry>) -> (r: Vec<DiscoveredTarget>)
    ensures
        r.deep_view() == discovered(dir@, entries.deep_view()),
{
    let mut out: Vec<DiscoveredTarget> = Vec::new();
    let mut i: usize = 0;
    assert(entries.deep_view().take(0) =~= Seq::empty());
    assert(out.deep_view() =~= Seq::empty());
    while i < entries.len()
        invariant
            i <= entries.len(),
            out.deep_view() == discovered(dir@, entries.deep_view().take(i as int)),
        decreases entries.len() - i,
    {
        let entry = &entries[i];
        let ghost before = out.deep_view();
        proof {
            let upto = entries.deep_view().take(i + 1);
            assert(upto.drop_last() =~= entries.deep_view().take(i as int));
            assert(upto.last() == entry@);
        }
        match strip_suffix(entry.name.as_str(), ".rs") {
            Some(stem) => {
                let path = join(dir, entry.name.as_str());
                out.push(DiscoveredTarget { name: stem, path });
                assert(out.deep_view() =~= before.push(entry_target(dir@, entry@).unwrap()));
            },
            None => {
                if entry.has_main {
                    let sub = join(dir, entry.name.as_str());
                    let path = join(sub.as_str(), "main.rs");
                    out.push(DiscoveredTarget { name: entry.name.clone(), path });
                    assert(out.deep_view() =~= before.push(entry_target(dir@, entry@).unwrap()));
                }
            },
        }
        i = i + 1;
    }
    assert(entries.deep_view().take(entries.len() as int) =~= entries.deep_view());
    out
}

/// The names to look through, given what listing the directory gave: the
/// names listed, each once, in increasing order. A directory that could
/// not be listed counts as empty.
pub fn names_to_scan(listing: Result<Vec<String>, IoError>) -> (r: Vec<String>)
    ensures
        is_sorted_listing(
            r.deep_view(),
            match listing {
                Ok(names) => names.deep_view(),
                Err(_) => Seq::empty(),
            },
        ),
{
    match listing {
        Ok(names) => sorted_names(&names),
        Err(_) => {
            let none: Vec<String> = Vec::new();
            assert(none.deep_view() =~= Seq::<Seq<char>>::empty());
            sorted_names(&none)
        },
    }
}

/// Whether an entry is a directory with a `main.rs`, given what listing
/// the entry gave. An entry that could not be listed is none.
pub fn shows_main(inside: Result<Vec<String>, IoError>) -> (r: bool)
    ensures
        r == match inside {
            Ok(names) => names.deep_view().contains("main.rs"@),
            Err(_) => false,
        },
{
    match inside {
        Ok(names) => {
            let main_rs = "main.rs".to_owned();
            contains_name(&names, &main_rs)
        },
        Err(_) => false,
    }
}

/// Looks through the directory `dir` of `fs`: lists it, puts the names in
/// order, and asks of each that is no source file whether it is a
/// directory with a `main.rs`.
pub fn scan_directory<FS: AbstractFilesystem>(fs: &FS, dir: &str) -> (r: Vec<DirectoryEntry>)
    ensures
        is_scan(r.deep_view()),
        forall|i: int|
            0 <= i < r.len() && ends_with(r.deep_view()[i].name, ".rs"@) ==> !(#[trigger] r.deep_view()[i]).has_main,
{
    let names = names_to_scan(fs.file_names_in(dir));
    let mut out: Vec<DirectoryEntry> = Vec::new();
    let mut i: usize = 0;
    assert(entry_names(out.deep_view()) =~= names.deep_view().take(0));
    while i < names.len()
        invariant
            i <= names.len(),
            out.len() == i,
            strictly_increasing(names.deep_view()),
            entry_names(out.deep_view()) == names.deep_view().take(i as int),
            forall|j: int|
                0 <= j < i && ends_with(out.deep_view()[j].name, ".rs"@) ==> !(#[trigger] out.deep_view()[j]).has_main,
        decreases names.len() - i,
    {
        let name = &names[i];
        let has_main = match strip_suffix(name.as_str(), ".rs") {
            Some(_) => false,
            None => {
                let sub = join(dir, name.as_str());
                shows_main(fs.file_names_in(sub.as_str()))
            },
        };
        let ghost before = out.deep_view();
        out.push(DirectoryEntry { name: name.clone(), has_main });
        assert(out.deep_view() =~= before.push(DirectoryEntryView { name: name@, has_main }));
        assert(entry_names(out.deep_view()) =~= names.deep_view().take(i + 1)) by {
            assert(entry_names(out.deep_view()).len() == i + 1);
            assert forall|j: int| 0 <= j < i + 1 implies entry_names(out.deep_view())[j]
                == names.deep_view()[j] by {
                if j < i {
                    assert(entry_names(before)[j] == names.deep_view().take(i as int)[j]);
                    assert(out.deep_view()[j] == before[j]);
                }
            }
        }
        i = i + 1;
    }
    assert(names.deep_view().take(names.len() as int) =~= names.deep_view());
    out
}

/// The targets in the directory `path` of `fs`, in the order of the entries
/// that they come from.
pub fn discover_targets<FS: AbstractFilesystem>(fs: &FS, path: &str) -> (r: Vec<DiscoveredTarget>)
    ensures
        exists|entries: Seq<DirectoryEntryView>| is_scan(entries) && r.deep_view() == discovered(path@, entries),
{
    let entries = scan_directory(fs, path);
    discovered_targets(path, &entries)
}

} // verus!
