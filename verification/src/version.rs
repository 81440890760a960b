//! Release version strings, for telling whether a newer release is out.
use vstd::prelude::*;
use crate::text::{chars_of, find_char, find_from, lemma_find_from_props, parse_u64, parse_u64_range};

verus! {

/// The number a version component is read as: its value, or 0 when it is not one.
pub open spec fn component(s: Seq<char>) -> u64 {
    match parse_u64(s) {
        Some(n) => n,
        None => 0,
    }
}

/// The version `(major, minor, patch)` that `v` is read as: `v` is cut at its first two
/// dots into at most three parts (the third keeps any further dots), each part is read as
/// a number, and a part that is missing or not a number counts as 0.
pub open spec fn version_of(v: Seq<char>) -> (u64, u64, u64) {
    match find_from(v, 0, seq!['.']) {
        None => (component(v), 0, 0),
        Some(d1) => {
            let rest = v.skip(d1 + 1);
            match find_from(rest, 0, seq!['.']) {
                None => (component(v.take(d1)), component(rest), 0),
                Some(d2) => (
                    component(v.take(d1)),
                    component(rest.take(d2)),
                    component(rest.skip(d2 + 1)),
                ),
            }
        },
    }
}

/// `a` comes after `b` in the lexicographic order of triples.
pub open spec fn triple_gt(a: (u64, u64, u64), b: (u64, u64, u64)) -> bool {
    a.0 > b.0 || (a.0 == b.0 && (a.1 > b.1 || (a.1 == b.1 && a.2 > b.2)))
}

/// The `(major, minor, patch)` numbers of a version string such as `"0.3.10"`.
pub fn parse_ver(v: &str) -> (r: (u64, u64, u64))
    ensures
        r == version_of(v@),
{
    let s = chars_of(v);
    let n = s.len();
    proof {
        lemma_find_from_props(s@, 0, seq!['.']);
    }
    match find_char(&s, 0, '.') {
        None => {
            assert(s@.subrange(0, n as int) =~= s@);
            (component_exec(&s, 0, n), 0, 0)
        },
        Some(d1) => {
            let ghost rest = s@.skip(d1 + 1);
            proof {
                lemma_find_from_props(s@, (d1 + 1) as int, seq!['.']);
                lemma_find_shift(s@, d1 + 1, seq!['.']);
            }
            assert(s@.subrange(0, d1 as int) =~= s@.take(d1 as int));
            let major = component_exec(&s, 0, d1);
            match find_char(&s, d1 + 1, '.') {
                None => {
                    assert(s@.subrange(d1 + 1, n as int) =~= rest);
                    (major, component_exec(&s, d1 + 1, n), 0)
                },
                Some(d2) => {
                    assert(s@.subrange(d1 + 1, d2 as int) =~= rest.take(d2 - d1 - 1));
                    assert(s@.subrange(d2 + 1, n as int) =~= rest.skip(d2 - d1 - 1 + 1));
                    (major, component_exec(&s, d1 + 1, d2), component_exec(&s, d2 + 1, n))
                },
            }
        },
    }
}

/// Searching `s` from `off` finds what searching `s.skip(off)` from the start finds,
/// shifted by `off`.
proof fn lemma_find_shift(s: Seq<char>, off: int, pat: Seq<char>)
    requires
        0 <= off <= s.len(),
    ensures
        match find_from(s.skip(off), 0, pat) {
            Some(i) => find_from(s, off, pat) == Some(i + off),
            None => find_from(s, off, pat) is None,
        },
{
    lemma_find_shift_from(s, off, 0, pat);
}

proof fn lemma_find_shift_from(s: Seq<char>, off: int, j: int, pat: Seq<char>)
    requires
        0 <= off <= s.len(),
        0 <= j,
    ensures
        match find_from(s.skip(off), j, pat) {
            Some(i) => find_from(s, off + j, pat) == Some(i + off),
            None => find_from(s, off + j, pat) is None,
        },
    decreases s.len() + 1 - off - j,
{
    let t = s.skip(off);
    if j + pat.len() > t.len() {
    } else {
        assert(t.subrange(j, j + pat.len()) =~= s.subrange(off + j, off + j + pat.len()));
        if !crate::text::matches_at(t, j, pat) {
            lemma_find_shift_from(s, off, j + 1, pat);
        }
    }
}

/// The number written in `v[lo..hi]`, or 0.
fn component_exec(v: &Vec<char>, lo: usize, hi: usize) -> (r: u64)
    requires
        lo <= hi <= v@.len(),
    ensures
        r == component(v@.subrange(lo as int, hi as int)),
{
    match parse_u64_range(v, lo, hi) {
        Some(x) => x,
        None => 0,
    }
}

/// Whether version `a` is newer than version `b`.
pub fn semver_gt(a: &str, b: &str) -> (r: bool)
    ensures
        r == triple_gt(version_of(a@), version_of(b@)),
{
    let x = parse_ver(a);
    let y = parse_ver(b);
    x.0 > y.0 || (x.0 == y.0 && (x.1 > y.1 || (x.1 == y.1 && x.2 > y.2)))
}

/// "Newer than" is a strict order on version strings: no version is newer than itself,
/// of two versions at most one is newer than the other, and a version newer than one that
/// is newer than a third is newer than the third.
pub proof fn law_newer_is_strict_order(a: Seq<char>, b: Seq<char>, c: Seq<char>)
    ensures
        !triple_gt(version_of(a), version_of(a)),
        triple_gt(version_of(a), version_of(b)) ==> !triple_gt(version_of(b), version_of(a)),
        triple_gt(version_of(a), version_of(b)) && triple_gt(version_of(b), version_of(c))
            ==> triple_gt(version_of(a), version_of(c)),
{
}

/// Versions compare by major number first, then minor, then patch: a higher major wins
/// whatever follows; with equal majors a higher minor wins whatever the patches; with
/// equal majors and minors the higher patch wins.
pub proof fn law_newer_compares_major_minor_patch(a: Seq<char>, b: Seq<char>)
    ensures
        version_of(a).0 > version_of(b).0 ==> triple_gt(version_of(a), version_of(b)),
        version_of(a).0 < version_of(b).0 ==> !triple_gt(version_of(a), version_of(b)),
        version_of(a).0 == version_of(b).0 && version_of(a).1 > version_of(b).1 ==> triple_gt(
            version_of(a),
            version_of(b),
        ),
        version_of(a).0 == version_of(b).0 && version_of(a).1 < version_of(b).1 ==> !triple_gt(
            version_of(a),
            version_of(b),
        ),
        version_of(a).0 == version_of(b).0 && version_of(a).1 == version_of(b).1 ==> (triple_gt(
            version_of(a),
            version_of(b),
        ) <==> version_of(a).2 > version_of(b).2),
{
}

} // verus!
