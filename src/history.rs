//! A bounded history of in-flight frames, newest first, keyed by target
//! timestamp.
use vstd::prelude::*;

verus! {

/// A history entry, identified by the target timestamp of its frame.
pub trait Keyed {
    spec fn key_of(&self) -> u64;

    fn key(&self) -> (r: u64)
        ensures
            r == self.key_of(),
    ;
}

pub open spec fn has_key<T: Keyed>(h: Seq<T>, k: u64) -> bool {
    exists|i: int| 0 <= i < h.len() && h[i].key_of() == k
}

/// Whether `i` is the first position of `h` whose key is `k`.
pub open spec fn is_first_key<T: Keyed>(h: Seq<T>, k: u64, i: int) -> bool {
    &&& 0 <= i < h.len()
    &&& h[i].key_of() == k
    &&& forall|j: int| 0 <= j < i ==> h[j].key_of() != k
}

/// The first position of `h` whose key is `k`, when there is one.
pub open spec fn key_index<T: Keyed>(h: Seq<T>, k: u64) -> int {
    choose|i: int| is_first_key(h, k, i)
}

/// No two entries share a key.
pub open spec fn unique_keys<T: Keyed>(h: Seq<T>) -> bool {
    forall|i: int, j: int|
        0 <= i < h.len() && 0 <= j < h.len() && i != j ==> h[i].key_of() != h[j].key_of()
}

/// A well-formed history: within capacity, one entry per key.
pub open spec fn history_wf<T: Keyed>(h: Seq<T>, capacity: nat) -> bool {
    h.len() <= capacity && unique_keys(h)
}

/// The history after `x` is offered as a new entry: it goes in front unless
/// its key is already there, and the oldest entry goes once over capacity.
pub open spec fn with_created<T: Keyed>(h: Seq<T>, x: T, capacity: nat) -> Seq<T> {
    let p = if has_key(h, x.key_of()) {
        h
    } else {
        seq![x] + h
    };
    if p.len() > capacity {
        p.drop_last()
    } else {
        p
    }
}

/// Offering an entry keeps a history within capacity with one entry per
/// key, and offering one whose key is already there changes nothing.
pub proof fn lemma_created_bounded_and_idempotent<T: Keyed>(h: Seq<T>, x: T, capacity: nat)
    requires
        history_wf(h, capacity),
    ensures
        with_created(h, x, capacity).len() <= capacity,
        has_key(h, x.key_of()) ==> with_created(h, x, capacity) == h,
{
}

/// The first position of `h` whose key is `k`.
pub fn find_key<T: Keyed>(h: &Vec<T>, k: u64) -> (r: Option<usize>)
    ensures
        r is Some <==> has_key(h@, k),
        r matches Some(i) ==> i == key_index(h@, k) && is_first_key(h@, k, i as int),
{
    let len = h.len();
    let mut i: usize = 0;
    while i < len
        invariant
            i <= len,
            len == h@.len(),
            forall|j: int| 0 <= j < i ==> h@[j].key_of() != k,
        decreases len - i,
    {
        if h[i].key() == k {
            proof {
                assert(is_first_key(h@, k, i as int));
                let c = key_index(h@, k);
                assert(is_first_key(h@, k, c));
                assert(c == i);
            }
            return Some(i);
        }
        i = i + 1;
    }
    None
}

/// Offers `x` as a new entry of a history of `capacity` entries.
pub fn create_entry<T: Keyed>(h: &mut Vec<T>, x: T, capacity: usize)
    requires
        history_wf(old(h)@, capacity as nat),
    ensures
        history_wf(final(h)@, capacity as nat),
        final(h)@ == with_created(old(h)@, x, capacity as nat),
{
    let k = x.key();
    let found = find_key(h, k);
    let ghost h0 = h@;
    if found.is_none() {
        h.insert(0, x);
        proof {
            assert(h@ =~= seq![x] + h0);
        }
    }
    let ghost p = h@;
    if h.len() > capacity {
        h.pop();
        proof {
            assert(h@ =~= p.drop_last());
        }
    }
    proof {
        if found.is_none() {
            assert forall|i: int, j: int|
                0 <= i < h@.len() && 0 <= j < h@.len() && i != j implies h@[i].key_of()
                != h@[j].key_of() by {
                if i == 0 {
                    assert(h@[j] == h0[j - 1]);
                } else if j == 0 {
                    assert(h@[i] == h0[i - 1]);
                } else {
                    assert(h@[i] == h0[i - 1] && h@[j] == h0[j - 1]);
                }
            }
        }
    }
}

/// Replacing an entry by one with the same key keeps the history
/// well-formed.
pub proof fn lemma_replace_same_key<T: Keyed>(h: Seq<T>, capacity: nat, i: int, x: T)
    requires
        history_wf(h, capacity),
        0 <= i < h.len(),
        h[i].key_of() == x.key_of(),
    ensures
        history_wf(h.update(i, x), capacity),
{
    let u = h.update(i, x);
    assert forall|a: int, b: int|
        0 <= a < u.len() && 0 <= b < u.len() && a != b implies u[a].key_of() != u[b].key_of() by {
        assert(u[a].key_of() == h[a].key_of());
        assert(u[b].key_of() == h[b].key_of());
    }
}

} // verus!
