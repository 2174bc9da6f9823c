//! Lists of rows that are told apart by a key.
use crate::text;
use crate::value::Value;
use vstd::prelude::*;

verus! {

/// A row with a key.
pub trait Keyed: Value {
    /// The key of a row.
    spec fn key(row: <Self as DeepView>::V) -> Seq<char>;

    fn key_text(&self) -> (result: &str)
        ensures
            result@ == Self::key(self.deep_view()),
    ;
}

/// The first row with a key, or the length where there is none.
pub open spec fn row_place<T: Keyed>(rows: Seq<T::V>, key: Seq<char>) -> int
    decreases rows.len(),
{
    if rows.len() == 0 || T::key(rows[0]) == key {
        0
    } else {
        1 + row_place::<T>(rows.drop_first(), key)
    }
}

/// The first row with a key.
pub open spec fn row<T: Keyed>(rows: Seq<T::V>, key: Seq<char>) -> Option<T::V> {
    if row_place::<T>(rows, key) < rows.len() {
        Some(rows[row_place::<T>(rows, key)])
    } else {
        None
    }
}

/// The rows with one more in the place of the one with its key, or at the end.
pub open spec fn put_row<T: Keyed>(rows: Seq<T::V>, added: T::V) -> Seq<T::V> {
    let at = row_place::<T>(rows, T::key(added));
    if at < rows.len() {
        rows.update(at, added)
    } else {
        rows.push(added)
    }
}

/// The rows with more of them put in, one after the other.
pub open spec fn put_rows<T: Keyed>(rows: Seq<T::V>, added: Seq<T::V>) -> Seq<T::V>
    decreases added.len(),
{
    if added.len() == 0 {
        rows
    } else {
        put_row::<T>(put_rows::<T>(rows, added.drop_last()), added.last())
    }
}

/// The rows without the first one with a key.
pub open spec fn without_row<T: Keyed>(rows: Seq<T::V>, key: Seq<char>) -> Seq<T::V> {
    let at = row_place::<T>(rows, key);
    if at < rows.len() {
        rows.remove(at)
    } else {
        rows
    }
}

/// The rows whose keys are in a list.
pub open spec fn rows_with_keys<T: Keyed>(rows: Seq<T::V>, keys: Seq<Seq<char>>) -> Seq<T::V>
    decreases rows.len(),
{
    if rows.len() == 0 {
        Seq::empty()
    } else if keys.contains(T::key(rows.last())) {
        rows_with_keys::<T>(rows.drop_last(), keys).push(rows.last())
    } else {
        rows_with_keys::<T>(rows.drop_last(), keys)
    }
}

/// A part of a list: the items from an offset on, at most so many.
pub open spec fn page_of<V>(items: Seq<V>, offset: nat, limit: nat) -> Seq<V> {
    if offset >= items.len() {
        Seq::empty()
    } else if offset + limit >= items.len() {
        items.skip(offset as int)
    } else {
        items.subrange(offset as int, (offset + limit) as int)
    }
}

/// The first row with a key, or the length where there is none.
pub fn find_row<T: Keyed>(rows: &Vec<T>, key: &str) -> (result: usize)
    ensures
        result == row_place::<T>(rows.deep_view(), key@),
        result <= rows@.len(),
{
    let wanted: String = text::owned(key);
    let ghost all = rows.deep_view();
    let mut i: usize = 0;
    while i < rows.len()
        invariant
            i <= rows@.len(),
            all == rows.deep_view(),
            wanted@ == key@,
            forall|j: int| 0 <= j < i ==> T::key(#[trigger] all[j]) != key@,
        decreases rows.len() - i,
    {
        assert(all[i as int] == rows@[i as int].deep_view());
        let same: bool = text::owned(rows[i].key_text()).same(&wanted);
        if same {
            proof {
                lemma_row_place_is::<T>(all, key@, i as int);
            }
            return i;
        }
        i += 1;
    }
    proof {
        lemma_row_place_is::<T>(all, key@, i as int);
    }
    i
}

/// The first row with a key.
pub fn get_row<T: Keyed>(rows: &Vec<T>, key: &str) -> (result: Option<T>)
    ensures
        result.deep_view() == row::<T>(rows.deep_view(), key@),
{
    let at: usize = find_row(rows, key);
    assert(rows.deep_view().len() == rows@.len());
    if at < rows.len() {
        Some(rows[at].copy())
    } else {
        None
    }
}

/// Puts a row in the place of the one with its key, or at the end.
pub fn insert_row<T: Keyed>(rows: &mut Vec<T>, added: T)
    ensures
        final(rows).deep_view() == put_row::<T>(old(rows).deep_view(), added.deep_view()),
{
    let ghost before = rows.deep_view();
    let ghost new = added.deep_view();
    let at: usize = find_row(rows, added.key_text());
    assert(before.len() == rows@.len());
    if at < rows.len() {
        rows.set(at, added);
        assert(rows.deep_view() =~= before.update(at as int, new));
    } else {
        rows.push(added);
        assert(rows.deep_view() =~= before.push(new));
    }
}

/// Puts rows in, one after the other.
pub fn insert_rows<T: Keyed>(rows: &mut Vec<T>, added: &Vec<T>)
    ensures
        final(rows).deep_view() == put_rows::<T>(old(rows).deep_view(), added.deep_view()),
{
    let ghost before = rows.deep_view();
    let ghost all = added.deep_view();
    let mut i: usize = 0;
    assert(all.take(0) =~= Seq::empty());
    while i < added.len()
        invariant
            i <= added@.len(),
            all == added.deep_view(),
            rows.deep_view() == put_rows::<T>(before, all.take(i as int)),
        decreases added.len() - i,
    {
        assert(all.take(i + 1).drop_last() =~= all.take(i as int));
        assert(all.take(i + 1).last() == added@[i as int].deep_view());
        insert_row(rows, added[i].copy());
        i += 1;
    }
    assert(all.take(i as int) =~= all);
}

/// Takes the first row with a key out; tells whether there was one.
pub fn remove_row<T: Keyed>(rows: &mut Vec<T>, key: &str) -> (result: bool)
    ensures
        final(rows).deep_view() == without_row::<T>(old(rows).deep_view(), key@),
        result == row::<T>(old(rows).deep_view(), key@) is Some,
{
    let ghost before = rows.deep_view();
    let at: usize = find_row(rows, key);
    assert(before.len() == rows@.len());
    if at < rows.len() {
        let _gone: T = rows.remove(at);
        assert(rows.deep_view() =~= before.remove(at as int));
        true
    } else {
        false
    }
}

/// Keeps only the rows whose keys are in a list.
pub fn keep_rows<T: Keyed>(rows: &Vec<T>, keys: &Vec<String>) -> (result: Vec<T>)
    ensures
        result.deep_view() == rows_with_keys::<T>(rows.deep_view(), keys.deep_view()),
{
    let ghost all = rows.deep_view();
    let mut result: Vec<T> = Vec::new();
    let mut i: usize = 0;
    assert(all.take(0) =~= Seq::empty());
    assert(result.deep_view() =~= Seq::empty());
    while i < rows.len()
        invariant
            i <= rows@.len(),
            all == rows.deep_view(),
            result.deep_view() == rows_with_keys::<T>(all.take(i as int), keys.deep_view()),
        decreases rows.len() - i,
    {
        let ghost before = result.deep_view();
        assert(all.take(i + 1).drop_last() =~= all.take(i as int));
        assert(all.take(i + 1).last() == rows@[i as int].deep_view());
        let key: String = text::owned(rows[i].key_text());
        if crate::value::holds(keys, &key) {
            result.push(rows[i].copy());
            assert(result.deep_view() =~= before.push(rows@[i as int].deep_view()));
        }
        i += 1;
    }
    assert(all.take(i as int) =~= all);
    result
}

/// A part of a list: the items from an offset on, at most so many.
pub fn take_page<T: Value>(items: &Vec<T>, offset: usize, limit: usize) -> (result: Vec<T>)
    ensures
        result.deep_view() == page_of(items.deep_view(), offset as nat, limit as nat),
{
    let ghost all = items.deep_view();
    let ghost expected = page_of(all, offset as nat, limit as nat);
    assert(all.len() == items@.len());
    let mut result: Vec<T> = Vec::new();
    let mut i: usize = offset;
    assert(result.deep_view() =~= expected.take(0));
    while i < items.len() && i - offset < limit
        invariant
            offset <= i,
            all == items.deep_view(),
            all.len() == items@.len(),
            expected == page_of(all, offset as nat, limit as nat),
            i - offset <= expected.len(),
            offset >= items@.len() ==> i == offset,
            offset < items@.len() ==> i <= items@.len(),
            result.deep_view() == expected.take(i - offset),
        decreases items@.len() - i,
    {
        let ghost before = result.deep_view();
        result.push(items[i].copy());
        assert(result.deep_view() =~= before.push(items@[i as int].deep_view()));
        assert(expected[i - offset] == all[i as int]);
        assert(expected.take(i + 1 - offset) =~= before.push(expected[i - offset]));
        i += 1;
    }
    assert(expected.take(i - offset) =~= expected);
    result
}

pub proof fn lemma_row_place<T: Keyed>(rows: Seq<T::V>, key: Seq<char>)
    ensures
        0 <= row_place::<T>(rows, key) <= rows.len(),
        row_place::<T>(rows, key) < rows.len() ==> T::key(rows[row_place::<T>(rows, key)]) == key,
        forall|j: int|
            0 <= j < row_place::<T>(rows, key) ==> T::key(#[trigger] rows[j]) != key,
    decreases rows.len(),
{
    if rows.len() > 0 && T::key(rows[0]) != key {
        let rest = rows.drop_first();
        lemma_row_place::<T>(rest, key);
        assert forall|j: int| 0 <= j < row_place::<T>(rows, key) implies T::key(
            #[trigger] rows[j],
        ) != key by {
            if j > 0 {
                assert(rest[j - 1] == rows[j]);
            }
        }
    }
}

pub proof fn lemma_row_place_is<T: Keyed>(rows: Seq<T::V>, key: Seq<char>, at: int)
    requires
        0 <= at <= rows.len(),
        at < rows.len() ==> T::key(rows[at]) == key,
        forall|j: int| 0 <= j < at ==> T::key(#[trigger] rows[j]) != key,
    ensures
        row_place::<T>(rows, key) == at,
    decreases rows.len(),
{
    if at > 0 {
        assert(T::key(rows[0]) != key);
        let rest = rows.drop_first();
        assert forall|j: int| 0 <= j < at - 1 implies T::key(#[trigger] rest[j]) != key by {
            assert(rest[j] == rows[j + 1]);
        }
        lemma_row_place_is::<T>(rest, key, at - 1);
    }
}

/// What was put in is what is found.
pub proof fn put_row_is_found<T: Keyed>(rows: Seq<T::V>, added: T::V)
    ensures
        row::<T>(put_row::<T>(rows, added), T::key(added)) == Some(added),
{
    let key = T::key(added);
    lemma_row_place::<T>(rows, key);
    let at = row_place::<T>(rows, key);
    let after = put_row::<T>(rows, added);
    assert forall|j: int| 0 <= j < at implies T::key(#[trigger] after[j]) != key by {
        assert(after[j] == rows[j]);
    }
    lemma_row_place_is::<T>(after, key, at);
}

/// What is under another key stays as it was.
pub proof fn put_row_keeps_the_others<T: Keyed>(rows: Seq<T::V>, added: T::V, key: Seq<char>)
    requires
        key != T::key(added),
    ensures
        row::<T>(put_row::<T>(rows, added), key) == row::<T>(rows, key),
{
    lemma_row_place::<T>(rows, key);
    lemma_row_place::<T>(rows, T::key(added));
    let at = row_place::<T>(rows, key);
    let after = put_row::<T>(rows, added);
    let changed = row_place::<T>(rows, T::key(added));
    let found = if at < rows.len() {
        at
    } else {
        after.len() as int
    };
    assert forall|j: int| 0 <= j < found implies T::key(#[trigger] after[j]) != key by {
        if j < rows.len() && j != changed {
            assert(after[j] == rows[j]);
        }
    }
    lemma_row_place_is::<T>(after, key, found);
}

/// Whether no two rows have the same key.
#[verifier::opaque]
pub open spec fn distinct<T: Keyed>(rows: Seq<T::V>) -> bool {
    forall|i: int, j: int|
        #![trigger rows[i], rows[j]]
        0 <= i < j < rows.len() ==> T::key(rows[i]) != T::key(rows[j])
}

/// No rows have distinct keys.
pub broadcast proof fn empty_keys_are_distinct<T: Keyed>()
    ensures
        #[trigger] distinct::<T>(Seq::<T::V>::empty()),
{
    reveal(distinct);
}

/// Keys stay distinct where a row is put in.
pub broadcast proof fn put_row_keeps_keys_distinct<T: Keyed>(rows: Seq<T::V>, added: T::V)
    requires
        distinct::<T>(rows),
    ensures
        #[trigger] distinct::<T>(put_row::<T>(rows, added)),
{
    reveal(distinct);
    lemma_row_place::<T>(rows, T::key(added));
    let after = put_row::<T>(rows, added);
    let at = row_place::<T>(rows, T::key(added));
    assert forall|i: int, j: int|
        #![trigger after[i], after[j]]
        0 <= i < j < after.len() implies T::key(after[i]) != T::key(after[j]) by {
        if i != at {
            assert(after[i] == rows[i]);
        }
        if j != at {
            assert(after[j] == rows[j]);
        }
        if i == at && at < rows.len() {
            assert(T::key(rows[i]) != T::key(rows[j]));
        }
        if j == at && at < rows.len() {
            assert(T::key(rows[i]) != T::key(rows[j]));
        }
    }
}

/// Keys stay distinct where rows are put in.
pub broadcast proof fn put_rows_keep_keys_distinct<T: Keyed>(rows: Seq<T::V>, added: Seq<T::V>)
    requires
        distinct::<T>(rows),
    ensures
        #[trigger] distinct::<T>(put_rows::<T>(rows, added)),
    decreases added.len(),
{
    if added.len() > 0 {
        put_rows_keep_keys_distinct::<T>(rows, added.drop_last());
        put_row_keeps_keys_distinct::<T>(
            put_rows::<T>(rows, added.drop_last()),
            added.last(),
        );
    }
}

/// Keys stay distinct where a row is taken out.
pub broadcast proof fn without_row_keeps_keys_distinct<T: Keyed>(rows: Seq<T::V>, key: Seq<char>)
    requires
        distinct::<T>(rows),
    ensures
        #[trigger] distinct::<T>(without_row::<T>(rows, key)),
{
    reveal(distinct);
    lemma_row_place::<T>(rows, key);
    let after = without_row::<T>(rows, key);
    let at = row_place::<T>(rows, key);
    assert forall|i: int, j: int|
        #![trigger after[i], after[j]]
        0 <= i < j < after.len() implies T::key(after[i]) != T::key(after[j]) by {
        let first = if i < at {
            i
        } else {
            i + 1
        };
        let second = if j < at {
            j
        } else {
            j + 1
        };
        if at < rows.len() {
            assert(after[i] == rows[first]);
            assert(after[j] == rows[second]);
        }
    }
}

/// A row that was taken out is gone, where keys are distinct, and the others stay.
pub proof fn removed_row_is_gone<T: Keyed>(rows: Seq<T::V>, key: Seq<char>, other: Seq<char>)
    requires
        distinct::<T>(rows),
    ensures
        row::<T>(without_row::<T>(rows, key), key) is None,
        other != key ==> row::<T>(without_row::<T>(rows, key), other) == row::<T>(rows, other),
{
    reveal(distinct);
    lemma_row_place::<T>(rows, key);
    let at = row_place::<T>(rows, key);
    let after = without_row::<T>(rows, key);
    assert forall|j: int| 0 <= j < after.len() implies T::key(#[trigger] after[j]) != key by {
        if at < rows.len() {
            assert(T::key(rows[at]) == key);
            if j < at {
                assert(after[j] == rows[j]);
            } else {
                assert(after[j] == rows[j + 1]);
            }
        }
    }
    lemma_row_place_is::<T>(after, key, after.len() as int);
    if other != key && at < rows.len() {
        lemma_row_place::<T>(rows, other);
        let found = row_place::<T>(rows, other);
        let place = if found < at {
            found
        } else {
            found - 1
        };
        assert forall|j: int| 0 <= j < place implies T::key(#[trigger] after[j]) != other by {
            if j < at {
                assert(after[j] == rows[j]);
            } else {
                assert(after[j] == rows[j + 1]);
            }
        }
        if place < after.len() {
            assert(after[place] == rows[found]);
        }
        lemma_row_place_is::<T>(after, other, place);
    }
}

proof fn lemma_kept_key_was_there<T: Keyed>(rows: Seq<T::V>, keys: Seq<Seq<char>>, i: int)
    requires
        0 <= i < rows_with_keys::<T>(rows, keys).len(),
    ensures
        exists|j: int| 0 <= j < rows.len() && rows[j] == rows_with_keys::<T>(rows, keys)[i],
    decreases rows.len(),
{
    let earlier = rows_with_keys::<T>(rows.drop_last(), keys);
    if i < earlier.len() {
        lemma_kept_key_was_there::<T>(rows.drop_last(), keys, i);
        let j = choose|j: int| 0 <= j < rows.drop_last().len() && rows.drop_last()[j] == earlier[i];
        assert(rows[j] == rows_with_keys::<T>(rows, keys)[i]);
    } else {
        assert(rows[rows.len() - 1] == rows_with_keys::<T>(rows, keys)[i]);
    }
}

/// Keys stay distinct where only rows with some keys are kept.
pub broadcast proof fn rows_with_keys_keep_keys_distinct<T: Keyed>(
    rows: Seq<T::V>,
    keys: Seq<Seq<char>>,
)
    requires
        distinct::<T>(rows),
    ensures
        #[trigger] distinct::<T>(rows_with_keys::<T>(rows, keys)),
    decreases rows.len(),
{
    reveal(distinct);
    if rows.len() > 0 {
        let before = rows.drop_last();
        assert forall|i: int, j: int|
            #![trigger before[i], before[j]]
            0 <= i < j < before.len() implies T::key(before[i]) != T::key(before[j]) by {
            assert(rows[i] == before[i] && rows[j] == before[j]);
        }
        rows_with_keys_keep_keys_distinct::<T>(before, keys);
        let some = rows_with_keys::<T>(before, keys);
        let after = rows_with_keys::<T>(rows, keys);
        assert forall|i: int, j: int|
            #![trigger after[i], after[j]]
            0 <= i < j < after.len() implies T::key(after[i]) != T::key(after[j]) by {
            assert(after[i] == some[i]);
            if j < some.len() {
                assert(after[j] == some[j]);
            } else {
                lemma_kept_key_was_there::<T>(before, keys, i);
                let k = choose|k: int| 0 <= k < before.len() && before[k] == some[i];
                assert(rows[k] == some[i]);
                assert(after[j] == rows[rows.len() - 1]);
            }
        }
    }
}

/// Keys stay distinct where rows are changed and their keys are not.
pub broadcast proof fn changed_rows_keep_keys_distinct<T: Keyed>(
    rows: Seq<T::V>,
    change: spec_fn(T::V) -> T::V,
)
    requires
        distinct::<T>(rows),
        forall|row: T::V| T::key(#[trigger] change(row)) == T::key(row),
    ensures
        #[trigger] distinct::<T>(rows.map_values(change)),
{
    reveal(distinct);
    let after = rows.map_values(change);
    assert forall|i: int, j: int|
        #![trigger after[i], after[j]]
        0 <= i < j < after.len() implies T::key(after[i]) != T::key(after[j]) by {
        assert(after[i] == change(rows[i]));
        assert(after[j] == change(rows[j]));
    }
}

pub broadcast group group_distinct_keys {
    empty_keys_are_distinct,
    put_row_keeps_keys_distinct,
    put_rows_keep_keys_distinct,
    without_row_keeps_keys_distinct,
    rows_with_keys_keep_keys_distinct,
    changed_rows_keep_keys_distinct,
}

/// Tells whether no two rows have the same key.
pub fn keys_are_distinct<T: Keyed>(rows: &Vec<T>) -> (result: bool)
    ensures
        result == distinct::<T>(rows.deep_view()),
{
    reveal(distinct);
    let ghost all = rows.deep_view();
    let mut i: usize = 0;
    while i < rows.len()
        invariant
            i <= rows@.len(),
            all == rows.deep_view(),
            all.len() == rows@.len(),
            forall|k: int, j: int|
                #![trigger all[k], all[j]]
                0 <= k < j < all.len() && k < i ==> T::key(all[k]) != T::key(all[j]),
        decreases rows.len() - i,
    {
        let mut j: usize = i + 1;
        let key: String = text::owned(rows[i].key_text());
        assert(all[i as int] == rows@[i as int].deep_view());
        while j < rows.len()
            invariant
                i < rows@.len(),
                i + 1 <= j <= rows@.len(),
                all == rows.deep_view(),
                all.len() == rows@.len(),
                key@ == T::key(all[i as int]),
                forall|k: int| i < k < j ==> T::key(#[trigger] all[k]) != key@,
            decreases rows.len() - j,
        {
            assert(all[j as int] == rows@[j as int].deep_view());
            if text::owned(rows[j].key_text()).same(&key) {
                assert(!distinct::<T>(all)) by {
                    reveal(distinct);
                    assert(T::key(all[i as int]) == T::key(all[j as int]));
                }
                return false;
            }
            j += 1;
        }
        i += 1;
    }
    true
}

/// The rows that were kept by their keys have one of these keys.
pub proof fn lemma_rows_have_keys<T: Keyed>(rows: Seq<T::V>, keys: Seq<Seq<char>>, i: int)
    requires
        0 <= i < rows_with_keys::<T>(rows, keys).len(),
    ensures
        keys.contains(T::key(rows_with_keys::<T>(rows, keys)[i])),
    decreases rows.len(),
{
    if i < rows_with_keys::<T>(rows.drop_last(), keys).len() {
        lemma_rows_have_keys::<T>(rows.drop_last(), keys, i);
    }
}

/// A page holds the items from its place on, in their order, as many as it may, and the next
/// page goes on where it ends.
pub proof fn pages_follow_one_another<V>(items: Seq<V>, offset: nat, limit: nat)
    ensures
        page_of(items, offset, limit).len() == (if offset >= items.len() {
            0
        } else if items.len() - offset < limit {
            items.len() - offset
        } else {
            limit as int
        }),
        forall|i: int|
            0 <= i < page_of(items, offset, limit).len() ==> #[trigger] page_of(
                items,
                offset,
                limit,
            )[i] == items[offset + i],
        page_of(items, offset, limit) + page_of(items, offset + limit, limit) == page_of(
            items,
            offset,
            limit + limit,
        ),
{
    assert(page_of(items, offset, limit) + page_of(items, offset + limit, limit) =~= page_of(
        items,
        offset,
        limit + limit,
    ));
}

/// The rows with some keys are exactly those whose key is among them, in their order.
pub proof fn wanted_rows_stand_in_their_order<T: Keyed>(rows: Seq<T::V>, keys: Seq<Seq<char>>)
    ensures
        rows_with_keys::<T>(rows, keys) == rows.filter(|row: T::V| keys.contains(T::key(row))),
    decreases rows.len(),
{
    reveal(Seq::filter);
    if rows.len() > 0 {
        wanted_rows_stand_in_their_order::<T>(rows.drop_last(), keys);
    } else {
        assert(rows =~= Seq::empty());
    }
}

} // verus!
