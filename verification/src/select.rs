//! The unseen-question selector: draws a question index uniformly at random
//! from the bank indices not yet answered, by sampling the explicit
//! complement of the answered set. This keeps one draw bounded even when a
//! single unseen question remains, where resampling the full range would not
//! be.

use vstd::prelude::*;
use vstd::assert_by_contradiction;
use vstd::set_lib::lemma_len_subset;
use vstd::set_lib::lemma_int_range;
use vstd::set_lib::set_int_range;

verus! {

broadcast use vstd::seq_lib::group_seq_properties;

/// Relies on rand::Rng::gen_range on rand::thread_rng: returns a value drawn
/// uniformly from `0..n`, and panics only when that range is empty.
#[verifier::external_body]
pub(crate) fn random_below(n: usize) -> (r: usize)
    requires
        n > 0,
    ensures
        r < n,
{
    rand::Rng::gen_range(&mut rand::thread_rng(), 0..n)
}

/// Whether `v` holds `x`.
fn holds_index(v: &Vec<usize>, x: usize) -> (r: bool)
    ensures
        r == v@.contains(x),
{
    let mut k: usize = 0;
    while k < v.len()
        invariant
            k <= v@.len(),
            forall|j: int| 0 <= j < k ==> v@[j] != x,
        decreases v@.len() - k,
    {
        if v[k] == x {
            return true;
        }
        k = k + 1;
    }
    false
}

/// Pigeonhole: fewer distinct indices below `n` than `n` itself leaves some
/// index below `n` uncovered.
pub proof fn lemma_unseen_exists(answered: Seq<usize>, n: int)
    requires
        answered.no_duplicates(),
        forall|k: int| 0 <= k < answered.len() ==> (#[trigger] answered[k] as int) < n,
        answered.len() < n,
        n <= usize::MAX,
    ensures
        exists|q: usize| (q as int) < n && !answered.contains(q),
{
    let ints = answered.map_values(|x: usize| x as int);
    assert(ints.no_duplicates()) by {
        assert forall|i: int, j: int|
            0 <= i < ints.len() && 0 <= j < ints.len() && i != j implies ints[i] != ints[j] by {
            assert(answered[i] != answered[j]);
        }
    }
    ints.unique_seq_to_set();
    lemma_int_range(0, n);
    assert_by_contradiction!(exists|q: usize| (q as int) < n && !answered.contains(q), {
        assert forall|v: int| set_int_range(0, n).contains(v) implies ints.to_set().contains(v) by {
            let q = v as usize;
            assert(0 <= v < n);
            assert(q as int == v);
            assert(answered.contains(q));
            let w = choose|w: int| 0 <= w < answered.len() && answered[w] == q;
            assert(ints[w] == (answered[w] as int));
            assert(ints[w] == v);
            assert(ints.contains(v));
        }
        lemma_len_subset(set_int_range(0, n), ints.to_set());
    });
}

/// With exactly one unseen index left, anything the selector's contract
/// allows is that index: an index below `n`, not yet answered, while every
/// other index below `n` is answered, can only be the one unseen index.
pub proof fn lemma_last_unseen_forced(answered: Seq<usize>, n: int, picked: usize, only: usize)
    requires
        (picked as int) < n,
        !answered.contains(picked),
        (only as int) < n,
        forall|j: usize| (j as int) < n && j != only ==> answered.contains(j),
    ensures
        picked == only,
{
}

/// Returns a question index below `bank_len` that is not in `answered`,
/// drawn uniformly at random from those indices. When a single unseen index
/// remains, it is the only candidate and is returned with certainty.
pub fn pick_unseen(bank_len: usize, answered: &Vec<usize>) -> (r: usize)
    requires
        answered@.no_duplicates(),
        forall|k: int| 0 <= k < answered@.len() ==> (#[trigger] answered@[k] as int) < bank_len,
        answered@.len() < bank_len,
    ensures
        r < bank_len,
        !answered@.contains(r),
{
    let mut unseen: Vec<usize> = Vec::new();
    let mut i: usize = 0;
    while i < bank_len
        invariant
            i <= bank_len,
            forall|j: usize| (j as int) < i ==> answered@.contains(j) || unseen@.contains(j),
            forall|k: int|
                0 <= k < unseen@.len() ==> (#[trigger] unseen@[k] as int) < i
                    && !answered@.contains(unseen@[k]),
        decreases bank_len - i,
    {
        if !holds_index(answered, i) {
            unseen.push(i);
        }
        i = i + 1;
    }
    proof {
        lemma_unseen_exists(answered@, bank_len as int);
        let q = choose|q: usize| (q as int) < bank_len && !answered@.contains(q);
        assert(unseen@.contains(q));
    }
    let pick = random_below(unseen.len());
    unseen[pick]
}

} // verus!
