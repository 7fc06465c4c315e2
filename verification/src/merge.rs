//! Bringing the targets that a manifest declares together with those found
//! on disk. A declared target is never changed where it speaks for itself:
//! discovery only fills what is missing and adds what is new.

use vstd::prelude::*;
use crate::discover::{DiscoveredTarget, DiscoveredTargetView};
use crate::edition::Edition;
use crate::error::Error;
use crate::product::{Product, ProductView};

verus! {

impl ProductView {
    /// The target that a discovery stands for: its name and path, and
    /// apart from them and the edition, which is left open, the target of
    /// which nothing is known.
    pub open spec fn found(d: DiscoveredTargetView) -> ProductView {
        ProductView { name: Some(d.name), path: Some(d.path), edition: None, ..ProductView::unnamed() }
    }

    /// The target with `path`, unless it has a path already.
    pub open spec fn or_path(self, path: Option<Seq<char>>) -> ProductView {
        match self.path {
            Some(_) => self,
            None => ProductView { path, ..self },
        }
    }

    /// The target with `edition` and `crate_type`, each unless the target
    /// has its own.
    pub open spec fn or_defaults(self, edition: Option<Edition>, crate_type: Seq<char>) -> ProductView {
        ProductView {
            edition: match self.edition {
                Some(e) => Some(e),
                None => edition,
            },
            crate_type: match self.crate_type {
                Some(kinds) => Some(kinds),
                None => Some(seq![crate_type]),
            },
            ..self
        }
    }

    /// The declared target with its path looked up among the discovered
    /// ones. A target without a name is not looked up, nor is one that has
    /// a path; a name that was not discovered leaves the path open.
    pub open spec fn matched(self, discovered: Seq<DiscoveredTargetView>) -> ProductView {
        match self.name {
            Some(name) => self.or_path(first_path_named(discovered, name)),
            None => self,
        }
    }
}

/// The path of the first of `discovered` that is called `name`.
pub open spec fn first_path_named(discovered: Seq<DiscoveredTargetView>, name: Seq<char>) -> Option<Seq<char>>
    decreases discovered.len(),
{
    if discovered.len() == 0 {
        None
    } else if discovered[0].name == name {
        Some(discovered[0].path)
    } else {
        first_path_named(discovered.drop_first(), name)
    }
}

/// Whether one of `targets` lies at `path`.
pub open spec fn uses_path(targets: Seq<ProductView>, path: Seq<char>) -> bool {
    exists|i: int| 0 <= i < targets.len() && (#[trigger] targets[i]).path == Some(path)
}

/// Each of `targets` matched against `discovered`.
pub open spec fn all_matched(targets: Seq<ProductView>, discovered: Seq<DiscoveredTargetView>) -> Seq<ProductView> {
    Seq::new(targets.len(), |i: int| targets[i].matched(discovered))
}

/// `targets`, and behind them each of `discovered`, in order, whose path
/// no target before it has. Two targets of one name may come to stand
/// side by side; two of one path never come from here.
pub open spec fn with_found_added(targets: Seq<ProductView>, discovered: Seq<DiscoveredTargetView>) -> Seq<ProductView>
    decreases discovered.len(),
{
    if discovered.len() == 0 {
        targets
    } else {
        let before = with_found_added(targets, discovered.drop_last());
        if uses_path(before, discovered.last().path) {
            before
        } else {
            before.push(ProductView::found(discovered.last()))
        }
    }
}

/// The declared `targets` after discovery: each matched, and where `add`
/// is set the discovered ones added.
pub open spec fn merged(targets: Seq<ProductView>, discovered: Seq<DiscoveredTargetView>, add: bool) -> Seq<ProductView> {
    let matched = all_matched(targets, discovered);
    if add {
        with_found_added(matched, discovered)
    } else {
        matched
    }
}

/// Each of `targets` with the defaults filled in.
pub open spec fn all_or_defaults(targets: Seq<ProductView>, edition: Option<Edition>, crate_type: Seq<char>) -> Seq<ProductView> {
    Seq::new(targets.len(), |i: int| targets[i].or_defaults(edition, crate_type))
}

/// Each of `targets` with `path`, unless it has one.
pub open spec fn all_or_path(targets: Seq<ProductView>, path: Seq<char>) -> Seq<ProductView> {
    Seq::new(targets.len(), |i: int| targets[i].or_path(Some(path)))
}

/// The path of the first of `discovered` that is called `name`.
pub fn find_path<'a>(discovered: &'a Vec<DiscoveredTarget>, name: &String) -> (r: Option<&'a String>)
    ensures
        r.deep_view() == first_path_named(discovered.deep_view(), name@),
{
    let mut i: usize = 0;
    assert(discovered.deep_view().skip(0) =~= discovered.deep_view());
    while i < discovered.len()
        invariant
            i <= discovered.len(),
            first_path_named(discovered.deep_view(), name@) == first_path_named(
                discovered.deep_view().skip(i as int),
                name@,
            ),
        decreases discovered.len() - i,
    {
        let ghost rest = discovered.deep_view().skip(i as int);
        assert(rest[0] == discovered[i as int]@);
        if discovered[i].name == *name {
            return Some(&discovered[i].path);
        }
        assert(rest.drop_first() =~= discovered.deep_view().skip(i + 1));
        i = i + 1;
    }
    None
}

/// Whether one of `targets` lies at `path`.
pub fn path_in_use(targets: &Vec<Product>, path: &String) -> (r: bool)
    ensures
        r == uses_path(targets.deep_view(), path@),
{
    let mut i: usize = 0;
    while i < targets.len()
        invariant
            i <= targets.len(),
            forall|j: int| 0 <= j < i ==> (#[trigger] targets.deep_view()[j]).path != Some(path@),
        decreases targets.len() - i,
    {
        let found = match &targets[i].path {
            Some(p) => *p == *path,
            None => false,
        };
        if found {
            assert(targets.deep_view()[i as int].path == Some(path@));
            return true;
        }
        i = i + 1;
    }
    false
}

/// Fills in the paths that the declared `targets` lack from the
/// discovered ones of the same name and, where `add_discovered_targets`
/// is set, adds the discovered targets that are not yet among them.
/// Nothing is refused: not a target without a name, not a name that was
/// not found, not a name that occurs twice.
pub fn process_discovered_targets(
    targets: &mut Vec<Product>,
    discovered_targets: Vec<DiscoveredTarget>,
    add_discovered_targets: bool,
) -> (r: Result<(), Error>)
    ensures
        r is Ok,
        final(targets).deep_view() == merged(
            old(targets).deep_view(),
            discovered_targets.deep_view(),
            add_discovered_targets,
        ),
{
    let ghost declared = targets.deep_view();
    let ghost discovered = discovered_targets.deep_view();
    let mut i: usize = 0;
    while i < targets.len()
        invariant
            i <= targets.len(),
            discovered == discovered_targets.deep_view(),
            targets.len() == declared.len(),
            forall|j: int| 0 <= j < i ==> (#[trigger] targets.deep_view()[j]) == declared[j].matched(discovered),
            forall|j: int| i <= j < targets.len() ==> (#[trigger] targets.deep_view()[j]) == declared[j],
        decreases targets.len() - i,
    {
        let ghost before = targets.deep_view();
        let ghost before_exec = targets@;
        let path: Option<String> = match (&targets[i].name, &targets[i].path) {
            (Some(name), None) => match find_path(&discovered_targets, name) {
                Some(found) => Some(found.clone()),
                None => None,
            },
            _ => None,
        };
        if path.is_some() {
            targets[i].path = path;
        }
        proof {
            let after = targets.deep_view();
            assert(before[i as int] == before_exec[i as int]@);
            assert(after[i as int] == targets@[i as int]@);
            assert(after[i as int] == declared[i as int].matched(discovered));
            assert forall|j: int| 0 <= j < targets.len() && j != i implies #[trigger] after[j] == before[j] by {}
        }
        i = i + 1;
    }
    assert(targets.deep_view() =~= all_matched(declared, discovered));
    if add_discovered_targets {
        let ghost matched = targets.deep_view();
        let mut k: usize = 0;
        assert(discovered.take(0) =~= Seq::empty());
        while k < discovered_targets.len()
            invariant
                k <= discovered_targets.len(),
                discovered == discovered_targets.deep_view(),
                targets.deep_view() == with_found_added(matched, discovered.take(k as int)),
            decreases discovered_targets.len() - k,
        {
            let d = &discovered_targets[k];
            let ghost before = targets.deep_view();
            proof {
                let upto = discovered.take(k + 1);
                assert(upto.drop_last() =~= discovered.take(k as int));
                assert(upto.last() == d@);
            }
            if !path_in_use(targets, &d.path) {
                let found = Product {
                    path: Some(d.path.clone()),
                    name: Some(d.name.clone()),
                    test: true,
                    doctest: true,
                    bench: true,
                    doc: true,
                    plugin: false,
                    proc_macro: false,
                    harness: true,
                    edition: None,
                    required_features: Vec::new(),
                    crate_type: None,
                };
                assert(found.required_features.deep_view() =~= Seq::empty());
                assert(found@ == ProductView::found(d@));
                targets.push(found);
                assert(targets.deep_view() =~= before.push(ProductView::found(d@)));
            }
            k = k + 1;
        }
        assert(discovered.take(discovered.len() as int) =~= discovered);
    }
    Ok(())
}

/// Gives each of `targets` that names no edition the package's, and each
/// that names no kind of artifact the kind `crate_type`.
pub fn fill_target_defaults(targets: &mut Vec<Product>, edition: Option<Edition>, crate_type: &str)
    ensures
        final(targets).deep_view() == all_or_defaults(old(targets).deep_view(), edition, crate_type@),
{
    let ghost declared = targets.deep_view();
    let mut i: usize = 0;
    while i < targets.len()
        invariant
            i <= targets.len(),
            targets.len() == declared.len(),
            forall|j: int| 0 <= j < i ==> (#[trigger] targets.deep_view()[j]) == declared[j].or_defaults(edition, crate_type@),
            forall|j: int| i <= j < targets.len() ==> (#[trigger] targets.deep_view()[j]) == declared[j],
        decreases targets.len() - i,
    {
        let ghost before = targets.deep_view();
        let ghost before_exec = targets@;
        if targets[i].edition.is_none() {
            targets[i].edition = edition;
        }
        if targets[i].crate_type.is_none() {
            let mut kinds: Vec<String> = Vec::new();
            kinds.push(crate_type.to_owned());
            assert(kinds.deep_view() =~= seq![crate_type@]);
            targets[i].crate_type = Some(kinds);
        }
        proof {
            let after = targets.deep_view();
            assert(before[i as int] == before_exec[i as int]@);
            assert(after[i as int] == targets@[i as int]@);
            assert(after[i as int] == declared[i as int].or_defaults(edition, crate_type@));
            assert forall|j: int| 0 <= j < targets.len() && j != i implies #[trigger] after[j] == before[j] by {}
        }
        i = i + 1;
    }
    assert(targets.deep_view() =~= all_or_defaults(declared, edition, crate_type@));
}

/// Gives each of `targets` that has no path the path `path`.
pub fn fill_missing_paths(targets: &mut Vec<Product>, path: &str)
    ensures
        final(targets).deep_view() == all_or_path(old(targets).deep_view(), path@),
{
    let ghost declared = targets.deep_view();
    let mut i: usize = 0;
    while i < targets.len()
        invariant
            i <= targets.len(),
            targets.len() == declared.len(),
            forall|j: int| 0 <= j < i ==> (#[trigger] targets.deep_view()[j]) == declared[j].or_path(Some(path@)),
            forall|j: int| i <= j < targets.len() ==> (#[trigger] targets.deep_view()[j]) == declared[j],
        decreases targets.len() - i,
    {
        let ghost before = targets.deep_view();
        let ghost before_exec = targets@;
        if targets[i].path.is_none() {
            targets[i].path = Some(path.to_owned());
        }
        proof {
            let after = targets.deep_view();
            assert(before[i as int] == before_exec[i as int]@);
            assert(after[i as int] == targets@[i as int]@);
            assert(after[i as int] == declared[i as int].or_path(Some(path@)));
            assert forall|j: int| 0 <= j < targets.len() && j != i implies #[trigger] after[j] == before[j] by {}
        }
        i = i + 1;
    }
    assert(targets.deep_view() =~= all_or_path(declared, path@));
}

} // verus!
