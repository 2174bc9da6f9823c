//! Drawing the items of a list in random order.
use crate::value::Value;
use vstd::prelude::*;

verus! {

/// The next value of the random sequence that items are drawn by.
pub open spec fn next_seed(seed: u64) -> u64 {
    seed.wrapping_mul(6364136223846793005).wrapping_add(1442695040888963407)
}

/// The next value of the random sequence that items are drawn by.
pub fn advance_seed(seed: u64) -> (result: u64)
    ensures
        result == next_seed(seed),
{
    seed.wrapping_mul(6364136223846793005).wrapping_add(1442695040888963407)
}

/// A list in shuffled order: its items are drawn one after the other.
pub open spec fn shuffled<V>(list: Seq<V>, seed: u64) -> Seq<V>
    decreases list.len(),
{
    if list.len() == 0 {
        Seq::empty()
    } else {
        let next = next_seed(seed);
        let at = (next as int / 65536) % (list.len() as int);
        seq![list[at]] + shuffled(list.remove(at), next)
    }
}

/// A list in shuffled order.
pub fn shuffle_items<T: Value>(list: &Vec<T>, seed: u64) -> (result: Vec<T>)
    ensures
        result.deep_view() == shuffled(list.deep_view(), seed),
        result@.len() == list@.len(),
{
    let ghost expected = shuffled(list.deep_view(), seed);
    let mut rest: Vec<T> = list.copy();
    assert(rest.deep_view().len() == rest@.len());
    assert(list.deep_view().len() == list@.len());
    let mut result: Vec<T> = Vec::new();
    let mut seed: u64 = seed;
    assert(result.deep_view() + expected =~= expected);
    while rest.len() > 0
        invariant
            result.deep_view() + shuffled(rest.deep_view(), seed) == expected,
            result@.len() + rest@.len() == list@.len(),
        decreases rest.len(),
    {
        let ghost before = rest.deep_view();
        let ghost taken = result.deep_view();
        seed = advance_seed(seed);
        let at: usize = ((seed / 65536) % (rest.len() as u64)) as usize;
        let item: T = rest.remove(at);
        result.push(item);
        assert(rest.deep_view() =~= before.remove(at as int));
        assert(result.deep_view() =~= taken.push(before[at as int]));
        assert(taken + (seq![before[at as int]] + shuffled(rest.deep_view(), seed))
            =~= result.deep_view() + shuffled(rest.deep_view(), seed));
    }
    assert(result.deep_view() + Seq::<T::V>::empty() =~= result.deep_view());
    result
}

/// Shuffling keeps every item, and as often as it was there.
pub proof fn shuffling_keeps_all<V>(list: Seq<V>, seed: u64)
    ensures
        shuffled(list, seed).len() == list.len(),
        shuffled(list, seed).to_multiset() == list.to_multiset(),
    decreases list.len(),
{
    broadcast use vstd::seq_lib::group_to_multiset_ensures;

    if list.len() > 0 {
        let next = next_seed(seed);
        let at = (next as int / 65536) % (list.len() as int);
        let rest = shuffled(list.remove(at), next);
        shuffling_keeps_all(list.remove(at), next);
        assert(seq![list[at]] + rest =~= rest.insert(0, list[at]));
        assert(list =~= list.remove(at).insert(at, list[at]));
        assert(list.to_multiset() =~= list.remove(at).to_multiset().insert(list[at]));
        assert(rest.insert(0, list[at]).to_multiset() =~= rest.to_multiset().insert(list[at]));
    } else {
        assert(shuffled(list, seed) =~= list);
    }
}

} // verus!
