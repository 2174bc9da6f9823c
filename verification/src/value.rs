//! Duplication and comparison of plain values, stated over what they stand for.
use vstd::prelude::*;

verus! {

/// A plain value: it can be duplicated, and compared with another of its type,
/// by its mathematical contents alone.
pub trait Value: DeepView + Sized {
    fn copy(&self) -> (result: Self)
        ensures
            result.deep_view() == self.deep_view(),
    ;

    fn same(&self, other: &Self) -> (result: bool)
        ensures
            result == (self.deep_view() == other.deep_view()),
    ;
}

/// The contents of a sequence of values.
pub open spec fn deep<T: DeepView>(values: Seq<T>) -> Seq<T::V> {
    Seq::new(values.len(), |i: int| values[i].deep_view())
}

/// The first position whose value passes the test, or the length where none does.
pub open spec fn first_where<T>(values: Seq<T>, test: spec_fn(T) -> bool) -> int
    decreases values.len(),
{
    if values.len() == 0 || test(values[0]) {
        0
    } else {
        1 + first_where(values.drop_first(), test)
    }
}

/// A position is the first that passes the test where it passes and none before it does.
pub proof fn lemma_first_where<T>(values: Seq<T>, test: spec_fn(T) -> bool, at: int)
    requires
        0 <= at <= values.len(),
        forall|j: int| 0 <= j < at ==> !test(values[j]),
        at < values.len() ==> test(values[at]),
    ensures
        first_where(values, test) == at,
    decreases values.len(),
{
    if values.len() > 0 && !test(values[0]) {
        assert(forall|j: int| 0 <= j < at - 1 ==> values.drop_first()[j] == values[j + 1]);
        lemma_first_where(values.drop_first(), test, at - 1);
    }
}

/// The first position that passes the test is within the length, passes where it is less,
/// and has none before it that passes.
pub proof fn lemma_first_where_bounds<T>(values: Seq<T>, test: spec_fn(T) -> bool)
    ensures
        0 <= first_where(values, test) <= values.len(),
        first_where(values, test) < values.len() ==> test(values[first_where(values, test)]),
        forall|j: int| 0 <= j < first_where(values, test) ==> !test(#[trigger] values[j]),
    decreases values.len(),
{
    if values.len() > 0 && !test(values[0]) {
        let rest = values.drop_first();
        lemma_first_where_bounds(rest, test);
        assert forall|j: int| 0 <= j < first_where(values, test) implies !test(
            #[trigger] values[j],
        ) by {
            if j > 0 {
                assert(rest[j - 1] == values[j]);
            }
        }
    }
}

impl Value for String {
    fn copy(&self) -> (result: String) {
        self.clone()
    }

    fn same(&self, other: &String) -> (result: bool) {
        *self == *other
    }
}

impl Value for bool {
    fn copy(&self) -> (result: bool) {
        *self
    }

    fn same(&self, other: &bool) -> (result: bool) {
        *self == *other
    }
}

impl Value for u8 {
    fn copy(&self) -> (result: u8) {
        *self
    }

    fn same(&self, other: &u8) -> (result: bool) {
        *self == *other
    }
}

impl Value for u16 {
    fn copy(&self) -> (result: u16) {
        *self
    }

    fn same(&self, other: &u16) -> (result: bool) {
        *self == *other
    }
}

impl Value for u32 {
    fn copy(&self) -> (result: u32) {
        *self
    }

    fn same(&self, other: &u32) -> (result: bool) {
        *self == *other
    }
}

impl Value for u64 {
    fn copy(&self) -> (result: u64) {
        *self
    }

    fn same(&self, other: &u64) -> (result: bool) {
        *self == *other
    }
}

impl Value for usize {
    fn copy(&self) -> (result: usize) {
        *self
    }

    fn same(&self, other: &usize) -> (result: bool) {
        *self == *other
    }
}

impl<T: Value> Value for Option<T> {
    fn copy(&self) -> (result: Option<T>) {
        match self {
            Some(value) => Some(value.copy()),
            None => None,
        }
    }

    fn same(&self, other: &Option<T>) -> (result: bool) {
        match (self, other) {
            (Some(left), Some(right)) => left.same(right),
            (None, None) => true,
            _ => false,
        }
    }
}

impl<T: Value> Value for Vec<T> {
    fn copy(&self) -> (result: Vec<T>) {
        copy_slice(self.as_slice())
    }

    fn same(&self, other: &Vec<T>) -> (result: bool) {
        if self.len() != other.len() {
            assert(self.deep_view().len() != other.deep_view().len());
            return false;
        }
        let mut i: usize = 0;
        while i < self.len()
            invariant
                i <= self.len(),
                self.len() == other.len(),
                forall|j: int| 0 <= j < i ==> self[j].deep_view() == other[j].deep_view(),
            decreases self.len() - i,
        {
            if !self[i].same(&other[i]) {
                assert(self.deep_view()[i as int] != other.deep_view()[i as int]);
                return false;
            }
            i += 1;
        }
        assert(self.deep_view() =~= other.deep_view());
        true
    }
}

/// A new vector with the contents of `values`.
pub fn copy_slice<T: Value>(values: &[T]) -> (result: Vec<T>)
    ensures
        result.deep_view() == deep(values@),
        result@.len() == values@.len(),
{
    let mut result: Vec<T> = Vec::new();
    let mut i: usize = 0;
    while i < values.len()
        invariant
            i <= values.len(),
            result@.len() == i,
            forall|j: int| 0 <= j < i ==> result@[j].deep_view() == values@[j].deep_view(),
        decreases values.len() - i,
    {
        result.push(values[i].copy());
        i += 1;
    }
    assert(result.deep_view() =~= deep(values@));
    result
}

/// Whether some element of `values` has the contents of `wanted`.
pub fn holds<T: Value>(values: &Vec<T>, wanted: &T) -> (result: bool)
    ensures
        result == values.deep_view().contains(wanted.deep_view()),
{
    let mut i: usize = 0;
    while i < values.len()
        invariant
            i <= values.len(),
            forall|j: int| 0 <= j < i ==> values@[j].deep_view() != wanted.deep_view(),
        decreases values.len() - i,
    {
        if values[i].same(wanted) {
            assert(values.deep_view()[i as int] == wanted.deep_view());
            return true;
        }
        i += 1;
    }
    assert(forall|j: int|
        0 <= j < values.deep_view().len() ==> values.deep_view()[j] != wanted.deep_view());
    false
}

} // verus!
