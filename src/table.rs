//! Lists of entries keyed by integers, in insertion order. A lookup finds
//! the first entry of a key; kept as a map, a list has one entry per key.
use vstd::prelude::*;

verus! {

pub open spec fn has_entry<V>(m: Seq<(u64, V)>, k: u64) -> bool {
    exists|i: int| 0 <= i < m.len() && m[i].0 == k
}

/// Whether `i` is the first position of `m` with key `k`.
pub open spec fn is_first_entry<V>(m: Seq<(u64, V)>, k: u64, i: int) -> bool {
    &&& 0 <= i < m.len()
    &&& m[i].0 == k
    &&& forall|j: int| 0 <= j < i ==> m[j].0 != k
}

pub open spec fn entry_index<V>(m: Seq<(u64, V)>, k: u64) -> int {
    choose|i: int| is_first_entry(m, k, i)
}

/// The value stored under `k`.
pub open spec fn lookup<V>(m: Seq<(u64, V)>, k: u64) -> Option<V> {
    if has_entry(m, k) {
        Some(m[entry_index(m, k)].1)
    } else {
        None
    }
}

/// `m` with `v` stored under `k`, replacing what was there.
pub open spec fn upserted<V>(m: Seq<(u64, V)>, k: u64, v: V) -> Seq<(u64, V)> {
    if has_entry(m, k) {
        m.update(entry_index(m, k), (k, v))
    } else {
        m.push((k, v))
    }
}

/// No two entries share a key.
pub open spec fn unique_entry_keys<V>(m: Seq<(u64, V)>) -> bool {
    forall|i: int, j: int| 0 <= i < m.len() && 0 <= j < m.len() && i != j ==> m[i].0 != m[j].0
}

/// Storing under a key keeps one entry per key.
pub proof fn lemma_upserted_unique<V>(m: Seq<(u64, V)>, k: u64, v: V)
    requires
        unique_entry_keys(m),
    ensures
        unique_entry_keys(upserted(m, k, v)),
{
    let u = upserted(m, k, v);
    if has_entry(m, k) {
        let w = choose|w: int| 0 <= w < m.len() && m[w].0 == k;
        assert(is_first_entry(m, k, w)) by {
            assert forall|j: int| 0 <= j < w implies m[j].0 != k by {
                if m[j].0 == k {
                    assert(j == w);
                }
            }
        }
        let i = entry_index(m, k);
        assert(is_first_entry(m, k, i));
        assert forall|a: int, b: int|
            0 <= a < u.len() && 0 <= b < u.len() && a != b implies u[a].0 != u[b].0 by {
            assert(u[a].0 == m[a].0);
            assert(u[b].0 == m[b].0);
        }
    } else {
        assert forall|a: int, b: int|
            0 <= a < u.len() && 0 <= b < u.len() && a != b implies u[a].0 != u[b].0 by {
            if a < m.len() && b < m.len() {
                assert(u[a] == m[a] && u[b] == m[b]);
            } else if a < m.len() {
                assert(u[a] == m[a]);
            } else {
                assert(u[b] == m[b]);
            }
        }
    }
}

/// The first position of `m` with key `k`.
pub fn find_entry<V>(m: &Vec<(u64, V)>, k: u64) -> (r: Option<usize>)
    ensures
        r is Some <==> has_entry(m@, k),
        r matches Some(i) ==> i == entry_index(m@, k) && is_first_entry(m@, k, i as int),
{
    let len = m.len();
    let mut i: usize = 0;
    while i < len
        invariant
            i <= len,
            len == m@.len(),
            forall|j: int| 0 <= j < i ==> m@[j].0 != k,
        decreases len - i,
    {
        if m[i].0 == k {
            proof {
                assert(is_first_entry(m@, k, i as int));
                let c = entry_index(m@, k);
                assert(is_first_entry(m@, k, c));
                assert(c == i);
            }
            return Some(i);
        }
        i = i + 1;
    }
    None
}

/// Stores `v` under `k`.
pub fn upsert<V>(m: &mut Vec<(u64, V)>, k: u64, v: V)
    ensures
        final(m)@ == upserted(old(m)@, k, v),
{
    match find_entry(m, k) {
        Some(i) => {
            m.set(i, (k, v));
        },
        None => {
            m.push((k, v));
        },
    }
}

} // verus!
