//! Operations on names and relative paths, stated over sequences of characters.

use vstd::prelude::*;
use vstd::string::*;

verus! {

/// Whether `s` ends with `suffix`.
pub open spec fn ends_with(s: Seq<char>, suffix: Seq<char>) -> bool {
    suffix.len() <= s.len() && s.subrange(s.len() - suffix.len(), s.len() as int) == suffix
}

/// `s` without its last `n` characters.
pub open spec fn without_last(s: Seq<char>, n: nat) -> Seq<char>
    recommends
        n <= s.len(),
{
    s.subrange(0, s.len() - n)
}

/// The part of `s` before `suffix`, where `s` ends with it.
pub open spec fn stripped_suffix(s: Seq<char>, suffix: Seq<char>) -> Option<Seq<char>> {
    if ends_with(s, suffix) {
        Some(without_last(s, suffix.len()))
    } else {
        None
    }
}

/// Removes `suffix` from the end of `s`; `None` where `s` does not end with it.
pub fn strip_suffix(s: &str, suffix: &str) -> (r: Option<String>)
    ensures
        r.deep_view() == stripped_suffix(s@, suffix@),
{
    let n: usize = s.unicode_len();
    let m: usize = suffix.unicode_len();
    if m > n {
        return None;
    }
    let start: usize = n - m;
    let mut i: usize = 0;
    while i < m
        invariant
            i <= m,
            m <= n,
            start == n - m,
            n == s@.len(),
            m == suffix@.len(),
            forall|j: int| 0 <= j < i ==> s@[start + j] == suffix@[j],
        decreases m - i,
    {
        if s.get_char(start + i) != suffix.get_char(i) {
            assert(s@.subrange(s@.len() - suffix@.len(), s@.len() as int)[i as int] != suffix@[i as int]);
            return None;
        }
        i = i + 1;
    }
    assert(s@.subrange(s@.len() - suffix@.len(), s@.len() as int) =~= suffix@);
    let head = s.substring_char(0, start);
    Some(head.to_owned())
}

/// `dir` and `name` with a slash between them.
pub open spec fn joined(dir: Seq<char>, name: Seq<char>) -> Seq<char> {
    dir + seq!['/'] + name
}

/// The path of `name` under `dir`.
pub fn join(dir: &str, name: &str) -> (r: String)
    ensures
        r@ == joined(dir@, name@),
{
    proof {
        reveal_strlit("/");
    }
    let mut path = dir.to_owned();
    path.append("/");
    path.append(name);
    assert("/"@ =~= seq!['/']);
    path
}

/// `s` followed by `tail`.
pub fn followed_by(s: &str, tail: &str) -> (r: String)
    ensures
        r@ == s@ + tail@,
{
    let mut out = s.to_owned();
    out.append(tail);
    out
}

/// `s` with an underscore in place of each dash.
pub open spec fn underscored(s: Seq<char>) -> Seq<char> {
    Seq::new(s.len(), |i: int| if s[i] == '-' { '_' } else { s[i] })
}

/// Replaces each dash of `s` by an underscore.
pub fn with_underscores(s: &str) -> (r: String)
    ensures
        r@ == underscored(s@),
{
    proof {
        reveal_strlit("_");
    }
    let n: usize = s.unicode_len();
    let mut out = String::new();
    let mut i: usize = 0;
    while i < n
        invariant
            i <= n,
            n == s@.len(),
            "_"@ == seq!['_'],
            out@ == underscored(s@).subrange(0, i as int),
        decreases n - i,
    {
        let ghost before = out@;
        if s.get_char(i) == '-' {
            out.append("_");
        } else {
            out.append(s.substring_char(i, i + 1));
        }
        assert(out@ =~= underscored(s@).subrange(0, i + 1)) by {
            assert(out@.len() == i + 1);
            assert(out@[i as int] == underscored(s@)[i as int]);
            assert(forall|j: int| 0 <= j < i ==> out@[j] == before[j]);
        }
        i = i + 1;
    }
    assert(out@ =~= underscored(s@));
    out
}

/// Whether `name` is one of `names`.
pub fn contains_name(names: &Vec<String>, name: &String) -> (r: bool)
    ensures
        r == names.deep_view().contains(name@),
{
    let mut i: usize = 0;
    while i < names.len()
        invariant
            i <= names.len(),
            forall|j: int| 0 <= j < i ==> names.deep_view()[j] != name@,
        decreases names.len() - i,
    {
        if names[i] == *name {
            assert(names.deep_view()[i as int] == name@);
            return true;
        }
        i = i + 1;
    }
    false
}

/// Whether `a` stands before `b` in a dictionary whose alphabet is the code
/// points in their order: the order in which strings compare.
pub open spec fn precedes(a: Seq<char>, b: Seq<char>) -> bool
    decreases a.len(),
{
    if b.len() == 0 {
        false
    } else if a.len() == 0 {
        true
    } else if a[0] == b[0] {
        precedes(a.drop_first(), b.drop_first())
    } else {
        (a[0] as u32) < (b[0] as u32)
    }
}

/// Nothing stands before itself.
pub proof fn lemma_precedes_irreflexive(a: Seq<char>)
    ensures
        !precedes(a, a),
    decreases a.len(),
{
    if a.len() > 0 {
        lemma_precedes_irreflexive(a.drop_first());
    }
}

/// What stands before something that stands before a third stands before
/// the third.
pub proof fn lemma_precedes_transitive(a: Seq<char>, b: Seq<char>, c: Seq<char>)
    requires
        precedes(a, b),
        precedes(b, c),
    ensures
        precedes(a, c),
    decreases a.len(),
{
    if a.len() > 0 && a[0] == b[0] && b[0] == c[0] {
        lemma_precedes_transitive(a.drop_first(), b.drop_first(), c.drop_first());
    }
}

/// Of two different names one stands before the other.
pub proof fn lemma_precedes_total(a: Seq<char>, b: Seq<char>)
    ensures
        a == b || precedes(a, b) || precedes(b, a),
    decreases a.len(),
{
    if a.len() > 0 && b.len() > 0 && a[0] == b[0] {
        lemma_precedes_total(a.drop_first(), b.drop_first());
        if a.drop_first() == b.drop_first() {
            assert(a =~= seq![a[0]] + a.drop_first());
            assert(b =~= seq![b[0]] + b.drop_first());
        }
    } else if a.len() == 0 && b.len() == 0 {
        assert(a =~= b);
    } else if a.len() > 0 && b.len() > 0 {
        vstd::utf8::char_u32_cast(a[0], a[0] as u32);
        vstd::utf8::char_u32_cast(b[0], b[0] as u32);
    }
}

/// Whether each name of `names` stands before all that follow it.
pub open spec fn strictly_increasing(names: Seq<Seq<char>>) -> bool {
    forall|i: int, j: int| 0 <= i < j < names.len() ==> precedes(#[trigger] names[i], #[trigger] names[j])
}

/// Whether `sorted` holds the names of `listing`, each once, in increasing
/// order.
pub open spec fn is_sorted_listing(sorted: Seq<Seq<char>>, listing: Seq<Seq<char>>) -> bool {
    strictly_increasing(sorted) && sorted.to_set() == listing.to_set()
}

/// A set of names can be put in increasing order in one way only.
pub proof fn lemma_increasing_order_unique(a: Seq<Seq<char>>, b: Seq<Seq<char>>)
    requires
        strictly_increasing(a),
        strictly_increasing(b),
        a.to_set() == b.to_set(),
    ensures
        a == b,
    decreases a.len(),
{
    if a.len() == 0 {
        if b.len() > 0 {
            assert(b.to_set().contains(b[0]));
            assert(a.contains(b[0]));
        }
        assert(a =~= b);
    } else {
        let x = a.last();
        assert(a.to_set().contains(x));
        assert(b.contains(x));
        let k = choose|k: int| 0 <= k < b.len() && b[k] == x;
        let y = b.last();
        assert(b.to_set().contains(y));
        assert(a.contains(y));
        let j = choose|j: int| 0 <= j < a.len() && a[j] == y;
        if k < b.len() - 1 {
            assert(precedes(b[k], b[b.len() - 1]));
            if j < a.len() - 1 {
                assert(precedes(a[j], a[a.len() - 1]));
                lemma_precedes_transitive(x, y, x);
            }
            lemma_precedes_irreflexive(x);
            assert(false);
        }
        assert(x == y);
        let a0 = a.drop_last();
        let b0 = b.drop_last();
        assert forall|n: Seq<char>| a0.to_set().contains(n) <==> b0.to_set().contains(n) by {
            lemma_precedes_irreflexive(x);
            if a0.contains(n) {
                let i = choose|i: int| 0 <= i < a0.len() && a0[i] == n;
                assert(a[i] == n);
                assert(precedes(a[i], a[a.len() - 1]));
                assert(a.to_set().contains(n));
                assert(b.contains(n));
                let m = choose|m: int| 0 <= m < b.len() && b[m] == n;
                assert(b0[m] == n);
            }
            if b0.contains(n) {
                let i = choose|i: int| 0 <= i < b0.len() && b0[i] == n;
                assert(b[i] == n);
                assert(precedes(b[i], b[b.len() - 1]));
                assert(b.to_set().contains(n));
                assert(a.contains(n));
                let m = choose|m: int| 0 <= m < a.len() && a[m] == n;
                assert(a0[m] == n);
            }
        }
        assert(a0.to_set() =~= b0.to_set());
        assert(strictly_increasing(a0)) by {
            assert forall|i: int, j: int| 0 <= i < j < a0.len() implies precedes(#[trigger] a0[i], #[trigger] a0[j]) by {
                assert(precedes(a[i], a[j]));
            }
        }
        assert(strictly_increasing(b0)) by {
            assert forall|i: int, j: int| 0 <= i < j < b0.len() implies precedes(#[trigger] b0[i], #[trigger] b0[j]) by {
                assert(precedes(b[i], b[j]));
            }
        }
        lemma_increasing_order_unique(a0, b0);
        assert(a =~= a0.push(x));
        assert(b =~= b0.push(y));
    }
}

/// The order in which a directory's entries are listed, and how often each
/// is, has no effect on the order they are processed in: two listings of
/// the same names are sorted to the same sequence.
pub proof fn lemma_sorting_ignores_listing_order(
    first: Seq<Seq<char>>,
    second: Seq<Seq<char>>,
    first_sorted: Seq<Seq<char>>,
    second_sorted: Seq<Seq<char>>,
)
    requires
        first.to_set() == second.to_set(),
        is_sorted_listing(first_sorted, first),
        is_sorted_listing(second_sorted, second),
    ensures
        first_sorted == second_sorted,
{
    lemma_increasing_order_unique(first_sorted, second_sorted);
}

/// Compares two strings as `str` orders them: byte by byte, which for
/// UTF-8 is code point by code point, a proper prefix coming first.
#[verifier::external_body]
fn str_lt(a: &str, b: &str) -> (r: bool)
    ensures
        r == precedes(a@, b@),
{
    a < b
}

/// The names of `listing` in increasing order, each once.
pub fn sorted_names(listing: &Vec<String>) -> (r: Vec<String>)
    ensures
        is_sorted_listing(r.deep_view(), listing.deep_view()),
{
    let mut out: Vec<String> = Vec::new();
    let mut i: usize = 0;
    assert(out.deep_view().to_set() =~= listing.deep_view().take(0).to_set());
    while i < listing.len()
        invariant
            i <= listing.len(),
            strictly_increasing(out.deep_view()),
            out.deep_view().to_set() == listing.deep_view().take(i as int).to_set(),
        decreases listing.len() - i,
    {
        let name = &listing[i];
        let ghost before = out.deep_view();
        let mut p: usize = 0;
        while p < out.len() && str_lt(out[p].as_str(), name.as_str())
            invariant
                p <= out.len(),
                out.deep_view() == before,
                forall|j: int| 0 <= j < p ==> precedes(#[trigger] before[j], name@),
            decreases out.len() - p,
        {
            p = p + 1;
        }
        let present = p < out.len() && out[p] == *name;
        if !present {
            out.insert(p, name.clone());
        }
        proof {
            let x = name@;
            let after = out.deep_view();
            let seen = listing.deep_view().take(i as int);
            let seen_next = listing.deep_view().take(i + 1);
            assert(seen_next =~= seen.push(x));
            if present {
                assert(before[p as int] == x);
                assert(after == before);
                assert(before.to_set().contains(x));
                assert(seen_next.to_set() =~= seen.to_set());
            } else {
                assert(after =~= before.insert(p as int, x));
                assert forall|a: int, b: int| 0 <= a < b < after.len() implies precedes(
                    #[trigger] after[a],
                    #[trigger] after[b],
                ) by {
                    if b == p {
                        assert(after[a] == before[a]);
                    } else if a == p {
                        assert(after[b] == before[b - 1]);
                        lemma_precedes_total(before[p as int], x);
                        if b - 1 > p {
                            assert(precedes(before[p as int], before[b - 1]));
                            lemma_precedes_transitive(x, before[p as int], before[b - 1]);
                        }
                    } else if a < p && b < p {
                        assert(after[a] == before[a] && after[b] == before[b]);
                    } else if a < p && b > p {
                        assert(after[a] == before[a] && after[b] == before[b - 1]);
                        assert(a < b - 1);
                    } else {
                        assert(after[a] == before[a - 1] && after[b] == before[b - 1]);
                    }
                }
                assert forall|n: Seq<char>| after.to_set().contains(n) <==> seen_next.to_set().contains(n) by {
                    if after.contains(n) {
                        let k = choose|k: int| 0 <= k < after.len() && after[k] == n;
                        if k < p {
                            assert(before[k] == n);
                            assert(before.to_set().contains(n));
                        } else if k > p {
                            assert(before[k - 1] == n);
                            assert(before.to_set().contains(n));
                        }
                        if n != x {
                            assert(seen.to_set().contains(n));
                            let m = choose|m: int| 0 <= m < seen.len() && seen[m] == n;
                            assert(seen_next[m] == n);
                        } else {
                            assert(seen_next[i as int] == n);
                        }
                    }
                    if seen_next.contains(n) {
                        let m = choose|m: int| 0 <= m < seen_next.len() && seen_next[m] == n;
                        if m < i {
                            assert(seen[m] == n);
                            assert(seen.to_set().contains(n));
                            assert(before.contains(n));
                            let k = choose|k: int| 0 <= k < before.len() && before[k] == n;
                            if k < p {
                                assert(after[k] == n);
                            } else {
                                assert(after[k + 1] == n);
                            }
                        } else {
                            assert(after[p as int] == n);
                        }
                    }
                }
                assert(after.to_set() =~= seen_next.to_set());
            }
        }
        i = i + 1;
    }
    assert(listing.deep_view().take(listing.len() as int) =~= listing.deep_view());
    out
}

} // verus!
