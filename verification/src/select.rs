//! Picking and changing the items of a list.
use crate::value::Value;
use vstd::prelude::*;

verus! {

/// The items that pass a test, in their order.
pub open spec fn chosen<V>(items: Seq<V>, test: spec_fn(V) -> bool) -> Seq<V>
    decreases items.len(),
{
    if items.len() == 0 {
        Seq::empty()
    } else if test(items.last()) {
        chosen(items.drop_last(), test).push(items.last())
    } else {
        chosen(items.drop_last(), test)
    }
}

/// A test of items.
pub trait Choice<T: Value> {
    spec fn test(&self) -> spec_fn(T::V) -> bool;

    fn takes(&self, item: &T) -> (result: bool)
        ensures
            result == (self.test())(item.deep_view()),
    ;
}

/// The items that pass a test, in their order.
pub fn choose_items<T: Value, C: Choice<T>>(items: &Vec<T>, choice: &C) -> (result: Vec<T>)
    ensures
        result.deep_view() == chosen(items.deep_view(), choice.test()),
{
    let ghost all = items.deep_view();
    let mut result: Vec<T> = Vec::new();
    let mut i: usize = 0;
    assert(all.take(0) =~= Seq::empty());
    assert(result.deep_view() =~= Seq::empty());
    while i < items.len()
        invariant
            i <= items@.len(),
            all == items.deep_view(),
            result.deep_view() == chosen(all.take(i as int), choice.test()),
        decreases items.len() - i,
    {
        let ghost before = result.deep_view();
        assert(all.take(i + 1).drop_last() =~= all.take(i as int));
        assert(all.take(i + 1).last() == items@[i as int].deep_view());
        if choice.takes(&items[i]) {
            result.push(items[i].copy());
            assert(result.deep_view() =~= before.push(items@[i as int].deep_view()));
        }
        i += 1;
    }
    assert(all.take(i as int) =~= all);
    result
}

/// Whether every item that was picked passes the test, and every one that passes was picked.
pub proof fn chosen_are_those_that_pass<V>(items: Seq<V>, test: spec_fn(V) -> bool, item: V)
    ensures
        chosen(items, test).contains(item) <==> items.contains(item) && test(item),
    decreases items.len(),
{
    if items.len() > 0 {
        let front = items.drop_last();
        chosen_are_those_that_pass(front, test, item);
        let picked = chosen(front, test);
        assert(items =~= front.push(items.last()));
        lemma_push_contains(front, items.last(), item);
        lemma_push_contains(picked, items.last(), item);
    }
}

proof fn lemma_push_contains<V>(items: Seq<V>, added: V, item: V)
    ensures
        items.push(added).contains(item) <==> items.contains(item) || item == added,
{
    let longer = items.push(added);
    if items.contains(item) {
        let i = choose|i: int| 0 <= i < items.len() && items[i] == item;
        assert(longer[i] == item);
    }
    if item == added {
        assert(longer[items.len() as int] == item);
    }
}

/// A change of items.
pub trait Change<T: Value> {
    spec fn effect(&self) -> spec_fn(T::V) -> T::V;

    fn apply(&self, item: &mut T)
        ensures
            final(item).deep_view() == (self.effect())(old(item).deep_view()),
    ;
}

/// Changes every item.
pub fn change_items<T: Value, C: Change<T>>(items: &mut Vec<T>, change: &C)
    ensures
        final(items).deep_view() == old(items).deep_view().map_values(change.effect()),
        final(items)@.len() == old(items)@.len(),
{
    let ghost before = items.deep_view();
    let ghost expected = before.map_values(change.effect());
    let mut i: usize = 0;
    while i < items.len()
        invariant
            i <= items@.len(),
            items@.len() == before.len(),
            expected == before.map_values(change.effect()),
            forall|j: int| 0 <= j < i ==> (#[trigger] items@[j]).deep_view() == expected[j],
            forall|j: int|
                i <= j < items@.len() ==> (#[trigger] items@[j]).deep_view() == before[j],
        decreases items.len() - i,
    {
        let mut item: T = items[i].copy();
        change.apply(&mut item);
        items.set(i, item);
        i += 1;
    }
    assert(items.deep_view() =~= expected);
}

/// The items that pass a test stand in their order, none of them left out or twice.
pub proof fn chosen_keeps_the_order<V>(items: Seq<V>, test: spec_fn(V) -> bool)
    ensures
        chosen(items, test) == items.filter(test),
    decreases items.len(),
{
    reveal(Seq::filter);
    if items.len() > 0 {
        chosen_keeps_the_order(items.drop_last(), test);
    } else {
        assert(items =~= Seq::empty());
    }
}

} // verus!
