//! The stories already read: the ids are kept as a sorted JSON list between runs.
use vstd::prelude::*;
use std::collections::HashSet;
use crate::text::{chars_of, decimal};

verus! {

broadcast use vstd::std_specs::hash::group_hash_axioms;

/// `v` is in ascending order.
pub open spec fn sorted(v: Seq<u64>) -> bool {
    forall|i: int, j: int| 0 <= i <= j < v.len() ==> v[i] <= v[j]
}

/// The elements of a JSON array as `serde_json` lays one out pretty: each on a line of
/// its own, indented by two spaces, separated by commas.
pub open spec fn json_items(v: Seq<u64>) -> Seq<char>
    decreases v.len(),
{
    if v.len() == 0 {
        Seq::empty()
    } else {
        json_items(v.drop_last()) + (if v.len() == 1 {
            seq!['\n']
        } else {
            seq![',', '\n']
        }) + seq![' ', ' '] + decimal(v.last() as nat)
    }
}

/// A list of ids as pretty JSON: `[]` when empty, else the items and a closing bracket
/// on a line of its own.
pub open spec fn json_pretty_ids(v: Seq<u64>) -> Seq<char> {
    if v.len() == 0 {
        seq!['[', ']']
    } else {
        seq!['['] + json_items(v) + seq!['\n', ']']
    }
}

/// The list of ids that `serde_json` reads from the JSON text `s`, or `None` when `s` is
/// not a JSON array of unsigned 64-bit integers.
pub uninterp spec fn json_u64_list(s: Seq<char>) -> Option<Seq<u64>>;

/// Calls `serde_json::to_string_pretty` on a list of ids. Claims that it succeeds (it
/// fails only for a `Serialize` impl that fails or a map with non-string keys, neither of
/// which a list of `u64` has, and writing to memory does not fail), the layout of the
/// pretty printer (two-space indent, `[]` when empty), and that `serde_json` reads the
/// text back as the same list.
#[verifier::external_body]
fn ids_to_json(v: &Vec<u64>) -> (r: Option<String>)
    ensures
        r is Some,
        r matches Some(s) ==> s@ == json_pretty_ids(v@) && json_u64_list(s@) == Some(v@),
{
    serde_json::to_string_pretty(v).ok()
}

/// Calls `serde_json::from_str::<Vec<u64>>`; the result is the named `json_u64_list`.
#[verifier::external_body]
fn json_to_ids(s: &str) -> (r: Option<Vec<u64>>)
    ensures
        match r {
            Some(v) => json_u64_list(s@) == Some(v@),
            None => json_u64_list(s@) is None,
        },
{
    serde_json::from_str::<Vec<u64>>(s).ok()
}

/// Sorts with `slice::sort_unstable`: the result is in ascending order and holds the
/// same ids, each as often.
#[verifier::external_body]
fn sort_ids(v: &mut Vec<u64>)
    ensures
        sorted(final(v)@),
        final(v)@.to_multiset() == old(v)@.to_multiset(),
{
    v.sort_unstable();
}

/// The ids that the kept text `content` lists; none when it is not a JSON list of ids.
pub open spec fn seen_of_text(content: Seq<char>) -> Set<u64> {
    match json_u64_list(content) {
        Some(v) => v.to_set(),
        None => Set::empty(),
    }
}

/// The set of ids that the kept text `content` lists (empty when it does not parse).
pub fn seen_from_text(content: &str) -> (r: HashSet<u64>)
    ensures
        r@ == seen_of_text(content@),
{
    let mut set: HashSet<u64> = HashSet::new();
    match json_to_ids(content) {
        None => set,
        Some(v) => {
            let mut i: usize = 0;
            while i < v.len()
                invariant
                    i <= v@.len(),
                    set@ == v@.take(i as int).to_set(),
                decreases v@.len() - i,
            {
                set.insert(v[i]);
                proof {
                    assert(v@.take(i + 1) =~= v@.take(i as int).push(v@[i as int]));
                    v@.take(i as int).lemma_push_to_set_commute(v@[i as int]);
                }
                i = i + 1;
            }
            assert(v@.take(v@.len() as int) =~= v@);
            set
        },
    }
}

/// The text the ids are kept as: sorted ascending, as a pretty JSON list.
pub fn seen_to_text(ids: Vec<u64>) -> (r: Option<String>)
    ensures
        r is Some,
        r matches Some(s) ==> exists|w: Seq<u64>|
            {
                &&& sorted(w)
                &&& w.to_multiset() == ids@.to_multiset()
                &&& s@ == json_pretty_ids(w)
                &&& json_u64_list(s@) == Some(w)
            },
{
    let mut v = ids;
    sort_ids(&mut v);
    ids_to_json(&v)
}

/// Keeping a list of ids and reading the text back gives the same set of ids.
pub proof fn law_seen_round_trip(ids: Seq<u64>, w: Seq<u64>, text: Seq<char>)
    requires
        w.to_multiset() == ids.to_multiset(),
        json_u64_list(text) == Some(w),
    ensures
        seen_of_text(text) == ids.to_set(),
{
    assert forall|x: u64| w.to_set().contains(x) <==> ids.to_set().contains(x) by {
        w.to_multiset_ensures();
        ids.to_multiset_ensures();
        assert(w.contains(x) <==> w.to_multiset().count(x) > 0);
        assert(ids.contains(x) <==> ids.to_multiset().count(x) > 0);
    }
    assert(w.to_set() =~= ids.to_set());
}

} // verus!
