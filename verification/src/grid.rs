//! Positions in parameter grids that are walked as nested loops.
use vstd::prelude::*;

verus! {

/// The position `k` of a grid walked as two nested loops whose inner axis has `inner`
/// points: the outer index `k / inner` and the inner index `k % inner`.
pub open spec fn nested_position(k: int, inner: int) -> (int, int) {
    (k / inner, k % inner)
}

/// The position that two nested loops reach at outer step `i` and inner step `j`
/// is `i * inner + j`, and it decodes back to `(i, j)`.
pub proof fn lemma_nested_position(i: int, j: int, inner: int)
    requires
        0 <= i,
        0 <= j < inner,
    ensures
        nested_position(i * inner + j, inner) == (i, j),
        0 <= i * inner + j,
{
    vstd::arithmetic::div_mod::lemma_fundamental_div_mod_converse(i * inner + j, inner, i, j);
    vstd::arithmetic::mul::lemma_mul_nonnegative(i, inner);
}

/// The index pairs of a grid with `outer` points on the outer axis and `inner` on the
/// inner one, walked as nested loops: position `k` holds `nested_position(k, inner)`.
pub fn index_pairs(outer: usize, inner: usize) -> (pairs: Vec<(usize, usize)>)
    requires
        outer * inner <= usize::MAX,
    ensures
        pairs@.len() == outer * inner,
        forall|k: int|
            0 <= k < pairs@.len() ==> {
                let (i, j) = nested_position(k, inner as int);
                &&& (#[trigger] pairs@[k]) == (i as usize, j as usize)
                &&& 0 <= i < outer
                &&& 0 <= j < inner
            },
{
    let mut pairs: Vec<(usize, usize)> = Vec::new();
    let mut i: usize = 0;
    while i < outer
        invariant
            i <= outer,
            outer * inner <= usize::MAX,
            pairs@.len() == i * inner,
            forall|k: int|
                0 <= k < pairs@.len() ==> {
                    let (a, b) = nested_position(k, inner as int);
                    &&& (#[trigger] pairs@[k]) == (a as usize, b as usize)
                    &&& 0 <= a < outer
                    &&& 0 <= b < inner
                },
        decreases outer - i,
    {
        let mut j: usize = 0;
        while j < inner
            invariant
                i < outer,
                j <= inner,
                outer * inner <= usize::MAX,
                pairs@.len() == i * inner + j,
                forall|k: int|
                    0 <= k < pairs@.len() ==> {
                        let (a, b) = nested_position(k, inner as int);
                        &&& (#[trigger] pairs@[k]) == (a as usize, b as usize)
                        &&& 0 <= a < outer
                        &&& 0 <= b < inner
                    },
            decreases inner - j,
        {
            proof {
                lemma_nested_position(i as int, j as int, inner as int);
                vstd::arithmetic::mul::lemma_mul_is_distributive_add_other_way(inner as int, i as int, 1);
                vstd::arithmetic::mul::lemma_mul_inequality(i as int + 1, outer as int, inner as int);
            }
            pairs.push((i, j));
            j = j + 1;
        }
        proof {
            vstd::arithmetic::mul::lemma_mul_is_distributive_add_other_way(inner as int, i as int, 1);
        }
        i = i + 1;
    }
    pairs
}

} // verus!
