//! Small string helpers shared across the crate: string equality with a
//! specification, the `section.name` key join, lexicographic ordering of
//! character sequences, and the map view of a key/value pair list.

use vstd::prelude::*;
use vstd::string::*;

verus! {

/// Equality of two string slices, stated over their character views.
pub fn str_eq(a: &str, b: &str) -> (r: bool)
    ensures
        r == (a@ == b@),
{
    let x = a.to_owned();
    let y = b.to_owned();
    x == y
}

/// The flattened key of a setting: its section and name joined by a dot.
pub open spec fn spec_join_key(section: Seq<char>, name: Seq<char>) -> Seq<char> {
    section + seq!['.'] + name
}

/// Builds the flattened `section.name` key of a setting.
pub fn join_key(section: &str, name: &str) -> (r: String)
    ensures
        r@ == spec_join_key(section@, name@),
{
    let mut r = section.to_owned();
    r.append(".");
    r.append(name);
    proof {
        reveal_strlit(".");
        assert(r@ =~= spec_join_key(section@, name@));
    }
    r
}

/// Lexicographic order on character sequences, by code point. This is the
/// order in which UTF-8 encoded text compares byte by byte.
pub open spec fn seq_char_le(a: Seq<char>, b: Seq<char>) -> bool
    decreases a.len(),
{
    if a.len() == 0 {
        true
    } else if b.len() == 0 {
        false
    } else if a[0] != b[0] {
        (a[0] as int) < (b[0] as int)
    } else {
        seq_char_le(a.drop_first(), b.drop_first())
    }
}

/// The mapping described by a key/value pair list; a later pair with the
/// same key overrides an earlier one.
pub open spec fn pairs_to_map(s: Seq<(Seq<char>, Seq<char>)>) -> Map<Seq<char>, Seq<char>>
    decreases s.len(),
{
    if s.len() == 0 {
        Map::empty()
    } else {
        pairs_to_map(s.drop_last()).insert(s.last().0, s.last().1)
    }
}

/// No two pairs of the list share a key.
pub open spec fn distinct_keys(s: Seq<(Seq<char>, Seq<char>)>) -> bool {
    forall|i: int, j: int| 0 <= i < j < s.len() ==> s[i].0 !== s[j].0
}

/// A key is in the map of a pair list exactly when some pair holds it.
pub proof fn lemma_pairs_to_map_dom(s: Seq<(Seq<char>, Seq<char>)>, k: Seq<char>)
    ensures
        pairs_to_map(s).dom().contains(k) <==> exists|i: int| 0 <= i < s.len() && s[i].0 == k,
    decreases s.len(),
{
    if s.len() > 0 {
        lemma_pairs_to_map_dom(s.drop_last(), k);
        if s.last().0 == k {
            assert(s[s.len() - 1].0 == k);
        } else {
            assert(forall|i: int| 0 <= i < s.len() - 1 ==> s.drop_last()[i] == s[i]);
        }
    }
}

/// With distinct keys, each pair of the list is in the map as given.
pub proof fn lemma_pairs_to_map_index(s: Seq<(Seq<char>, Seq<char>)>, i: int)
    requires
        distinct_keys(s),
        0 <= i < s.len(),
    ensures
        pairs_to_map(s).dom().contains(s[i].0),
        pairs_to_map(s)[s[i].0] == s[i].1,
    decreases s.len(),
{
    if i == s.len() - 1 {
        lemma_pairs_to_map_dom(s, s[i].0);
    } else {
        assert(forall|j: int| 0 <= j < s.len() - 1 ==> s.drop_last()[j] == s[j]);
        lemma_pairs_to_map_index(s.drop_last(), i);
        assert(s[i].0 !== s.last().0);
    }
}

/// Looks a key up in a pair list whose keys are distinct.
pub fn lookup_pair<'a>(pairs: &'a Vec<(String, String)>, key: &str) -> (r: Option<&'a String>)
    requires
        distinct_keys(pairs.deep_view()),
    ensures
        match r {
            Some(v) => pairs_to_map(pairs.deep_view()).dom().contains(key@) && pairs_to_map(
                pairs.deep_view(),
            )[key@] == v@,
            None => !pairs_to_map(pairs.deep_view()).dom().contains(key@),
        },
{
    let n = pairs.len();
    let mut i: usize = 0;
    while i < n
        invariant
            0 <= i <= n,
            n == pairs.len(),
            distinct_keys(pairs.deep_view()),
            forall|j: int| 0 <= j < i ==> pairs.deep_view()[j].0 !== key@,
        decreases n - i,
    {
        if str_eq(pairs[i].0.as_str(), key) {
            proof {
                lemma_pairs_to_map_index(pairs.deep_view(), i as int);
            }
            return Some(&pairs[i].1);
        }
        i += 1;
    }
    proof {
        lemma_pairs_to_map_dom(pairs.deep_view(), key@);
    }
    None
}

/// Inserts or replaces a key in a pair list, keeping keys distinct.
pub fn upsert_pair(pairs: &mut Vec<(String, String)>, key: String, value: String)
    requires
        distinct_keys(old(pairs).deep_view()),
    ensures
        distinct_keys(final(pairs).deep_view()),
        pairs_to_map(final(pairs).deep_view()) == pairs_to_map(old(pairs).deep_view()).insert(
            key@,
            value@,
        ),
{
    let ghost m0 = pairs_to_map(old(pairs).deep_view());
    let n = pairs.len();
    let mut i: usize = 0;
    while i < n
        invariant
            0 <= i <= n,
            n == pairs.len(),
            *pairs == *old(pairs),
            distinct_keys(pairs.deep_view()),
            forall|j: int| 0 <= j < i ==> pairs.deep_view()[j].0 !== key@,
        decreases n - i,
    {
        if str_eq(pairs[i].0.as_str(), key.as_str()) {
            let ghost before = pairs.deep_view();
            let ghost kv = (key@, value@);
            pairs.set(i, (key, value));
            proof {
                assert(pairs.deep_view() =~= before.update(i as int, kv));
                lemma_pairs_to_map_update(before, i as int, key@, value@);
            }
            return ;
        }
        i += 1;
    }
    let ghost before = pairs.deep_view();
    pairs.push((key, value));
    proof {
        let after = pairs.deep_view();
        assert(after =~= before.push((key@, value@)));
        assert(after.drop_last() =~= before);
        assert(after.last() == (key@, value@));
        assert forall|a: int, b: int| 0 <= a < b < after.len() implies after[a].0 !== after[b].0 by {
            if b < after.len() - 1 {
                assert(before[a].0 !== before[b].0);
            } else {
                assert(before[a].0 !== key@);
            }
        }
    }
}

/// Replacing the pair that holds a key rewrites exactly that entry of the map.
pub proof fn lemma_pairs_to_map_update(
    s: Seq<(Seq<char>, Seq<char>)>,
    i: int,
    k: Seq<char>,
    v: Seq<char>,
)
    requires
        distinct_keys(s),
        0 <= i < s.len(),
        s[i].0 == k,
    ensures
        distinct_keys(s.update(i, (k, v))),
        pairs_to_map(s.update(i, (k, v))) == pairs_to_map(s).insert(k, v),
    decreases s.len(),
{
    let t = s.update(i, (k, v));
    assert(distinct_keys(t));
    if i == s.len() - 1 {
        assert(t.drop_last() =~= s.drop_last());
        assert(t.last() == (k, v));
    } else {
        lemma_pairs_to_map_update(s.drop_last(), i, k, v);
        assert(t.drop_last() =~= s.drop_last().update(i, (k, v)));
        assert(t.last() == s.last());
        assert(s.last().0 !== k);
        assert(pairs_to_map(t) =~= pairs_to_map(s).insert(k, v));
    }
}


/// Clones a key/value pair list.
pub fn clone_pairs(pairs: &Vec<(String, String)>) -> (r: Vec<(String, String)>)
    ensures
        r.deep_view() == pairs.deep_view(),
{
    let mut r: Vec<(String, String)> = Vec::new();
    let n = pairs.len();
    let mut i: usize = 0;
    while i < n
        invariant
            0 <= i <= n,
            n == pairs.len(),
            r@.len() == i,
            forall|t: int| 0 <= t < i ==> r.deep_view()[t] == pairs.deep_view()[t],
        decreases n - i,
    {
        r.push((pairs[i].0.clone(), pairs[i].1.clone()));
        i += 1;
    }
    proof {
        assert(r.deep_view() =~= pairs.deep_view());
    }
    r
}

} // verus!
