//! Walking an ordered map by ascending key.

use std::collections::BTreeMap;
use vstd::prelude::*;
use vstd::std_specs::btree::axiom_increasing_seq_meaning;
use vstd::std_specs::btree::axiom_spec_keys_iter;
use vstd::std_specs::cmp::OrdSpec;
use vstd::std_specs::iter::IteratorSpec;

verus! {

/// Each element is smaller than every later one.
pub open spec fn ascending(s: Seq<usize>) -> bool {
    forall|i: int, j: int| 0 <= i < j < s.len() ==> s[i] < s[j]
}

/// Each element is smaller than every later one.
pub open spec fn ascending_codes(s: Seq<u16>) -> bool {
    forall|i: int, j: int| 0 <= i < j < s.len() ==> s[i] < s[j]
}

/// The keys of a histogram, smallest first.
pub fn sorted_keys(m: &BTreeMap<usize, usize>) -> (v: Vec<usize>)
    ensures
        ascending(v@),
        forall|k: usize| v@.contains(k) <==> m@.contains_key(k),
{
    let mut v: Vec<usize> = Vec::new();
    proof {
        axiom_spec_keys_iter(m);
    }
    for k in it: m.keys()
        invariant
            it.seq() == m.keys().remaining(),
            0 <= it.index() <= it.seq().len(),
            v@ == it.seq().unref().take(it.index()),
    {
        v.push(*k);
        assert(v@ == it.seq().unref().take(it.index() + 1));
    }
    proof {
        let r = m.keys().remaining();
        assert(v@ == r.unref());
        axiom_increasing_seq_meaning(r);
        assert forall|i: int, j: int| 0 <= i < j < v@.len() implies v@[i] < v@[j] by {
            assert(OrdSpec::cmp_spec(&r[i], &r[j]) is Less);
        }
        assert(v@.to_set() == m@.dom());
        assert forall|k: usize| v@.contains(k) <==> m@.contains_key(k) by {
            assert(v@.to_set().contains(k) <==> m@.dom().contains(k));
        }
    }
    v
}

/// The keys of a map of status codes, smallest first.
pub fn sorted_codes(m: &BTreeMap<u16, usize>) -> (v: Vec<u16>)
    ensures
        ascending_codes(v@),
        forall|k: u16| v@.contains(k) <==> m@.contains_key(k),
{
    let mut v: Vec<u16> = Vec::new();
    proof {
        axiom_spec_keys_iter(m);
    }
    for k in it: m.keys()
        invariant
            it.seq() == m.keys().remaining(),
            0 <= it.index() <= it.seq().len(),
            v@ == it.seq().unref().take(it.index()),
    {
        v.push(*k);
        assert(v@ == it.seq().unref().take(it.index() + 1));
    }
    proof {
        let r = m.keys().remaining();
        assert(v@ == r.unref());
        axiom_increasing_seq_meaning(r);
        assert forall|i: int, j: int| 0 <= i < j < v@.len() implies v@[i] < v@[j] by {
            assert(OrdSpec::cmp_spec(&r[i], &r[j]) is Less);
        }
        assert(v@.to_set() == m@.dom());
        assert forall|k: u16| v@.contains(k) <==> m@.contains_key(k) by {
            assert(v@.to_set().contains(k) <==> m@.dom().contains(k));
        }
    }
    v
}

} // verus!
