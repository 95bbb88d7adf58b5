//! Pairing and flattening of vertex lists.
//!
//! A line-list mesh stores its geometry as a flat vertex buffer, two vertices
//! per segment. Reading the buffer back as segments groups it into disjoint
//! consecutive pairs; the editor's explode operation instead walks all
//! overlapping windows. Both groupings come from the itertools crate and are
//! pinned down exactly here.

use vstd::prelude::*;

use itertools::Itertools;

verus! {

/// Disjoint consecutive pairs of a sequence; a trailing odd element is
/// dropped.
pub open spec fn pair_spec<T>(s: Seq<T>) -> Seq<(T, T)> {
    Seq::new(s.len() / 2, |i: int| (s[2 * i], s[2 * i + 1]))
}

/// All overlapping adjacent pairs of a sequence; empty when the sequence has
/// fewer than two elements.
pub open spec fn window_spec<T>(s: Seq<T>) -> Seq<(T, T)> {
    if s.len() < 2 {
        Seq::empty()
    } else {
        Seq::new((s.len() - 1) as nat, |i: int| (s[i], s[i + 1]))
    }
}

/// The flat vertex buffer of a list of segments: both endpoints of each
/// segment, in order.
pub open spec fn flatten_pairs_spec<T>(s: Seq<(T, T)>) -> Seq<T> {
    Seq::new(s.len() * 2, |i: int| if i % 2 == 0 { s[i / 2].0 } else { s[i / 2].1 })
}

/// Relies on itertools' `Itertools::tuples` over the vector's elements:
/// consecutive disjoint pairs, with a trailing odd element dropped.
#[verifier::external_body]
pub fn pairs_of<T: Copy>(v: &Vec<T>) -> (r: Vec<(T, T)>)
    ensures
        r@ == pair_spec(v@),
{
    v.iter().copied().tuples().collect()
}

/// Relies on itertools' `Itertools::tuple_windows` over the vector's
/// elements: every overlapping adjacent pair, in order.
#[verifier::external_body]
pub fn windows_of<T: Copy>(v: &Vec<T>) -> (r: Vec<(T, T)>)
    ensures
        r@ == window_spec(v@),
{
    v.iter().copied().tuple_windows().collect()
}

/// Flattens a list of segments into the vertex buffer that `pairs_of` groups
/// back into the same segments.
pub fn flatten_pairs<T: Copy>(v: &Vec<(T, T)>) -> (r: Vec<T>)
    requires
        v@.len() * 2 <= usize::MAX,
    ensures
        r@ == flatten_pairs_spec(v@),
{
    let mut r: Vec<T> = Vec::new();
    let mut i: usize = 0;
    while i < v.len()
        invariant
            i <= v@.len(),
            v@.len() * 2 <= usize::MAX,
            r@ == flatten_pairs_spec(v@.take(i as int)),
        decreases v@.len() - i,
    {
        let pair = v[i];
        r.push(pair.0);
        r.push(pair.1);
        i = i + 1;
        proof {
            assert(r@ =~= flatten_pairs_spec(v@.take(i as int)));
        }
    }
    proof {
        assert(v@.take(v@.len() as int) =~= v@);
    }
    r
}

/// Flattening segments into a vertex buffer and pairing that buffer back up
/// yields the original segments.
pub proof fn lemma_pair_flatten_roundtrip<T>(s: Seq<(T, T)>)
    ensures
        pair_spec(flatten_pairs_spec(s)) == s,
{
    assert forall|i: int| 0 <= i < s.len() implies pair_spec(flatten_pairs_spec(s))[i] == s[i] by {
        assert((s[i].0, s[i].1) == s[i]);
    }
    assert(pair_spec(flatten_pairs_spec(s)) =~= s);
}

/// Pairing an even-length vertex buffer up and flattening the pairs again
/// yields the original buffer.
pub proof fn lemma_flatten_pair_roundtrip<T>(s: Seq<T>)
    requires
        s.len() % 2 == 0,
    ensures
        flatten_pairs_spec(pair_spec(s)) == s,
{
    assert(flatten_pairs_spec(pair_spec(s)) =~= s);
}

} // verus!
