//! Association lists keyed by strings, where a later entry shadows an
//! earlier one with the same key.
use vstd::prelude::*;

verus! {

/// The value of the last entry whose key is `k`, if any.
pub open spec fn entry_lookup<V>(s: Seq<(String, V)>, k: Seq<char>) -> Option<V>
    decreases s.len(),
{
    if s.len() == 0 {
        None
    } else if s.last().0@ == k {
        Some(s.last().1)
    } else {
        entry_lookup(s.drop_last(), k)
    }
}

/// The map an association list stands for.
pub open spec fn entry_map<V>(s: Seq<(String, V)>) -> Map<Seq<char>, V> {
    Map::new(|k: Seq<char>| entry_lookup(s, k) is Some, |k: Seq<char>| entry_lookup(s, k)->0)
}

/// No two entries share a key.
pub open spec fn keys_distinct<V>(s: Seq<(String, V)>) -> bool {
    forall|i: int, j: int| 0 <= i < j < s.len() ==> s[i].0@ != s[j].0@
}

pub proof fn lemma_lookup_push<V>(s: Seq<(String, V)>, e: (String, V), k: Seq<char>)
    ensures
        entry_lookup(s.push(e), k) == if e.0@ == k {
            Some(e.1)
        } else {
            entry_lookup(s, k)
        },
{
    assert(s.push(e).drop_last() =~= s);
}

pub proof fn lemma_map_push<V>(s: Seq<(String, V)>, e: (String, V))
    ensures
        entry_map(s.push(e)) == entry_map(s).insert(e.0@, e.1),
{
    assert forall|k: Seq<char>| #![auto] entry_lookup(s.push(e), k) == if e.0@ == k {
        Some(e.1)
    } else {
        entry_lookup(s, k)
    } by {
        lemma_lookup_push(s, e, k);
    }
    assert(entry_map(s.push(e)) =~= entry_map(s).insert(e.0@, e.1));
}

/// Lookup is unaffected by entries after position `i` whose keys differ from `k`.
proof fn lemma_lookup_prefix<V>(s: Seq<(String, V)>, i: int, k: Seq<char>)
    requires
        0 <= i <= s.len(),
        forall|j: int| i <= j < s.len() ==> s[j].0@ != k,
    ensures
        entry_lookup(s, k) == entry_lookup(s.subrange(0, i), k),
    decreases s.len() - i,
{
    if i < s.len() {
        lemma_lookup_prefix(s, i + 1, k);
        assert(s.subrange(0, i + 1).drop_last() =~= s.subrange(0, i));
    } else {
        assert(s.subrange(0, i) =~= s);
    }
}

/// In a list with distinct keys, each entry is the one that lookup finds.
pub proof fn lemma_lookup_distinct<V>(s: Seq<(String, V)>, i: int)
    requires
        keys_distinct(s),
        0 <= i < s.len(),
    ensures
        entry_lookup(s, s[i].0@) == Some(s[i].1),
{
    lemma_lookup_prefix(s, i + 1, s[i].0@);
    assert(s.subrange(0, i + 1).last() == s[i]);
}

/// Lookup finds a key exactly when some entry has it.
pub proof fn lemma_lookup_some<V>(s: Seq<(String, V)>, k: Seq<char>)
    ensures
        entry_lookup(s, k) is Some <==> exists|i: int| 0 <= i < s.len() && s[i].0@ == k,
    decreases s.len(),
{
    if s.len() > 0 {
        lemma_lookup_some(s.drop_last(), k);
        if entry_lookup(s, k) is Some {
            if s.last().0@ != k {
                let i = choose|i: int| 0 <= i < s.drop_last().len() && s.drop_last()[i].0@ == k;
                assert(s[i].0@ == k);
            }
        } else {
            assert forall|i: int| 0 <= i < s.len() implies s[i].0@ != k by {
                if i < s.len() - 1 {
                    assert(s.drop_last()[i] == s[i]);
                }
            }
        }
    }
}

/// Lookup of `k` only reads the keys and the values stored under `k`.
proof fn lemma_lookup_agree<V>(s: Seq<(String, V)>, t: Seq<(String, V)>, k: Seq<char>)
    requires
        s.len() == t.len(),
        forall|j: int| 0 <= j < s.len() ==> s[j].0@ == t[j].0@,
        forall|j: int| 0 <= j < s.len() && s[j].0@ == k ==> s[j].1 == t[j].1,
    ensures
        entry_lookup(s, k) == entry_lookup(t, k),
    decreases s.len(),
{
    if s.len() > 0 {
        let (a, b) = (s.drop_last(), t.drop_last());
        assert forall|j: int| 0 <= j < a.len() implies a[j].0@ == b[j].0@ by {
            assert(a[j] == s[j] && b[j] == t[j]);
        }
        assert forall|j: int| 0 <= j < a.len() && a[j].0@ == k implies a[j].1 == b[j].1 by {
            assert(a[j] == s[j] && b[j] == t[j]);
        }
        lemma_lookup_agree(a, b, k);
    }
}

/// Replacing the value of an entry in a list with distinct keys changes only that key.
pub proof fn lemma_lookup_update<V>(s: Seq<(String, V)>, i: int, v: V, k: Seq<char>)
    requires
        0 <= i < s.len(),
        keys_distinct(s),
    ensures
        entry_lookup(s.update(i, (s[i].0, v)), k) == if k == s[i].0@ {
            Some(v)
        } else {
            entry_lookup(s, k)
        },
{
    let t = s.update(i, (s[i].0, v));
    assert(keys_distinct(t));
    if k == s[i].0@ {
        lemma_lookup_distinct(t, i);
    } else {
        lemma_lookup_agree(s, t, k);
    }
}

/// The position of the last entry whose key is `k`.
pub fn find_entry<V>(s: &Vec<(String, V)>, k: &str) -> (r: Option<usize>)
    ensures
        match r {
            Some(i) => i < s.len() && s@[i as int].0@ == k@ && entry_lookup(s@, k@) == Some(
                s@[i as int].1,
            ),
            None => entry_lookup(s@, k@) is None,
        },
{
    let key = k.to_owned();
    let mut i: usize = s.len();
    while i > 0
        invariant
            i <= s.len(),
            key@ == k@,
            forall|j: int| i <= j < s.len() ==> s@[j].0@ != k@,
        decreases i,
    {
        i = i - 1;
        if s[i].0 == key {
            proof {
                lemma_lookup_prefix(s@, i + 1, k@);
                assert(s@.subrange(0, i + 1).last() == s@[i as int]);
            }
            return Some(i);
        }
    }
    proof {
        lemma_lookup_prefix(s@, 0, k@);
    }
    None
}

/// The contents of a list of names.
pub open spec fn name_set(s: Seq<String>) -> Set<Seq<char>> {
    Set::new(|k: Seq<char>| exists|i: int| 0 <= i < s.len() && s[i]@ == k)
}

/// No name occurs twice.
pub open spec fn names_distinct(s: Seq<String>) -> bool {
    forall|i: int, j: int| 0 <= i < j < s.len() ==> s[i]@ != s[j]@
}

/// Whether `name` occurs in `names`.
pub fn contains_name(names: &Vec<String>, name: &String) -> (r: bool)
    ensures
        r == name_set(names@).contains(name@),
{
    let mut i: usize = 0;
    while i < names.len()
        invariant
            i <= names.len(),
            forall|j: int| 0 <= j < i ==> names@[j]@ != name@,
        decreases names.len() - i,
    {
        if names[i] == *name {
            return true;
        }
        i = i + 1;
    }
    false
}

/// Appends to `out` each name of `add` that it does not hold yet.
pub fn merge_names(out: &mut Vec<String>, add: &Vec<String>)
    requires
        names_distinct(old(out)@),
    ensures
        names_distinct(final(out)@),
        name_set(final(out)@) == name_set(old(out)@).union(name_set(add@)),
{
    let ghost start = out@;
    let mut i: usize = 0;
    while i < add.len()
        invariant
            i <= add.len(),
            names_distinct(out@),
            name_set(out@) == name_set(start).union(name_set(add@.subrange(0, i as int))),
        decreases add.len() - i,
    {
        let ghost before = out@;
        let name = &add[i];
        if !contains_name(out, name) {
            out.push(name.clone());
            proof {
                assert(out@ == before.push(add@[i as int]));
                assert forall|k: Seq<char>| name_set(out@).contains(k) == (name_set(before).contains(k) || k == add@[i as int]@) by {
                    if name_set(out@).contains(k) {
                        let j = choose|j: int| 0 <= j < out@.len() && out@[j]@ == k;
                        if j < before.len() {
                            assert(before[j] == out@[j]);
                        }
                    }
                    if name_set(before).contains(k) {
                        let j = choose|j: int| 0 <= j < before.len() && before[j]@ == k;
                        assert(out@[j] == before[j]);
                    }
                    if k == add@[i as int]@ {
                        assert(out@[before.len() as int] == add@[i as int]);
                    }
                }
            }
        }
        assert(forall|k: Seq<char>| name_set(out@).contains(k) == (name_set(before).contains(k) || k == add@[i as int]@));
        proof {
            let s1 = add@.subrange(0, i as int);
            let s2 = add@.subrange(0, i + 1);
            assert forall|k: Seq<char>| name_set(s2).contains(k) == (name_set(s1).contains(k) || k == add@[i as int]@) by {
                if name_set(s2).contains(k) {
                    let j = choose|j: int| 0 <= j < s2.len() && s2[j]@ == k;
                    if j < i {
                        assert(s1[j] == s2[j]);
                    }
                }
                if name_set(s1).contains(k) {
                    let j = choose|j: int| 0 <= j < s1.len() && s1[j]@ == k;
                    assert(s2[j] == s1[j]);
                }
                if k == add@[i as int]@ {
                    assert(s2[i as int] == add@[i as int]);
                }
            }
            assert forall|k: Seq<char>| name_set(out@).contains(k) == name_set(start).union(name_set(s2)).contains(k) by {
                assert(name_set(before).contains(k) == name_set(start).union(name_set(s1)).contains(k));
            }
            assert(name_set(out@) =~= name_set(start).union(name_set(s2)));
        }
        i = i + 1;
    }
    assert(add@.subrange(0, i as int) =~= add@);
}

} // verus!
