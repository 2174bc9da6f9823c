//! Sets of keys for work that is under way.
use crate::text;
use crate::value::{holds, Value};
use vstd::prelude::*;

verus! {

/// A set of texts.
#[derive(Clone, Debug, PartialEq, Eq)]
pub struct KeySet {
    keys: Vec<String>,
}

impl DeepView for KeySet {
    type V = Set<Seq<char>>;

    closed spec fn deep_view(&self) -> Set<Seq<char>> {
        self.keys.deep_view().to_set()
    }
}

impl KeySet {
    pub fn new() -> (result: KeySet)
        ensures
            result.deep_view() == Set::<Seq<char>>::empty(),
    {
        let keys: Vec<String> = Vec::new();
        assert(keys.deep_view().to_set() =~= Set::<Seq<char>>::empty());
        KeySet { keys }
    }

    pub fn contains(&self, key: &str) -> (result: bool)
        ensures
            result == self.deep_view().contains(key@),
    {
        holds(&self.keys, &text::owned(key))
    }

    /// Adds a key; tells whether it was new.
    pub fn insert(&mut self, key: &str) -> (result: bool)
        ensures
            result == !old(self).deep_view().contains(key@),
            final(self).deep_view() == old(self).deep_view().insert(key@),
    {
        if self.contains(key) {
            assert(self.deep_view().insert(key@) =~= self.deep_view());
            return false;
        }
        let ghost before = self.keys.deep_view();
        self.keys.push(text::owned(key));
        proof {
            let after = self.keys.deep_view();
            assert(after =~= before.push(key@));
            assert(after.to_set() =~= before.to_set().insert(key@)) by {
                assert(after[before.len() as int] == key@);
                assert forall|other: Seq<char>| before.contains(other) implies after.contains(
                    other,
                ) by {
                    let i = choose|i: int| 0 <= i < before.len() && before[i] == other;
                    assert(after[i] == other);
                }
            }
        }
        true
    }

    /// Removes a key; tells whether it was there.
    pub fn remove(&mut self, key: &str) -> (result: bool)
        ensures
            result == old(self).deep_view().contains(key@),
            final(self).deep_view() == old(self).deep_view().remove(key@),
    {
        let found: bool = self.contains(key);
        let wanted: String = text::owned(key);
        let ghost before = self.keys.deep_view();
        let mut kept: Vec<String> = Vec::new();
        let mut i: usize = 0;
        while i < self.keys.len()
            invariant
                i <= self.keys@.len(),
                before == self.keys.deep_view(),
                wanted@ == key@,
                forall|other: Seq<char>|
                    #[trigger] kept.deep_view().contains(other) <==> before.take(
                        i as int,
                    ).contains(other) && other != key@,
            decreases self.keys.len() - i,
        {
            let ghost word = self.keys@[i as int]@;
            let ghost kept_before = kept.deep_view();
            assert(before[i as int] == word);
            assert(before.take(i + 1) =~= before.take(i as int).push(word));
            if !self.keys[i].same(&wanted) {
                kept.push(self.keys[i].copy());
                assert(kept.deep_view() =~= kept_before.push(word));
            }
            assert forall|other: Seq<char>|
                #[trigger] kept.deep_view().contains(other) <==> before.take(i + 1).contains(other)
                    && other != key@ by {
                lemma_contains_push(kept_before, word, other);
                lemma_contains_push(before.take(i as int), word, other);
            }
            i += 1;
        }
        assert(before.take(i as int) =~= before);
        assert(kept.deep_view().to_set() =~= before.to_set().remove(key@));
        self.keys = kept;
        found
    }
}

proof fn lemma_contains_push(values: Seq<Seq<char>>, added: Seq<char>, wanted: Seq<char>)
    ensures
        values.push(added).contains(wanted) <==> values.contains(wanted) || wanted == added,
{
    let longer = values.push(added);
    if values.contains(wanted) {
        let i = choose|i: int| 0 <= i < values.len() && values[i] == wanted;
        assert(longer[i] == wanted);
    }
    if wanted == added {
        assert(longer[values.len() as int] == wanted);
    }
}

/// What is under way for which source, so that nothing is begun twice.
#[derive(Clone, Debug, PartialEq, Eq)]
pub struct InFlightGuards {
    pub label: String,
    pub running: KeySet,
    pub blocked: bool,
}

/// The contents of [`InFlightGuards`].
pub struct InFlightGuardsView {
    pub label: Seq<char>,
    pub running: Set<Seq<char>>,
    pub blocked: bool,
}

impl DeepView for InFlightGuards {
    type V = InFlightGuardsView;

    open spec fn deep_view(&self) -> InFlightGuardsView {
        InFlightGuardsView {
            label: self.label@,
            running: self.running.deep_view(),
            blocked: self.blocked,
        }
    }
}

impl InFlightGuardsView {
    /// What is said where the guards are unusable.
    pub open spec fn fault(self) -> Seq<char> {
        self.label + " guard lock was poisoned."@
    }

    /// Whether nothing may be begun for a source.
    pub open spec fn holds_back(self, key: Seq<char>) -> bool {
        self.blocked || self.running.contains(key)
    }

    /// The guards once something was begun for a source.
    pub open spec fn with(self, key: Seq<char>) -> InFlightGuardsView {
        InFlightGuardsView { running: self.running.insert(key), ..self }
    }

    /// The guards once nothing is under way for a source any more.
    pub open spec fn without(self, key: Seq<char>) -> InFlightGuardsView {
        InFlightGuardsView { running: self.running.remove(key), ..self }
    }
}

impl InFlightGuards {
    pub fn new(label: &str) -> (result: InFlightGuards)
        ensures
            result.deep_view() == (InFlightGuardsView {
                label: label@,
                running: Set::empty(),
                blocked: false,
            }),
    {
        InFlightGuards { label: text::owned(label), running: KeySet::new(), blocked: false }
    }

    pub fn contains_or_blocked(&self, key: &str) -> (result: bool)
        ensures
            result == self.deep_view().holds_back(key@),
    {
        self.blocked || self.running.contains(key)
    }

    /// Tries to begin something for a source: whether it may be begun, or why that cannot be
    /// told.
    pub fn acquire(&mut self, key: &str) -> (result: Result<bool, String>)
        ensures
            match result {
                Err(error) => {
                    &&& old(self).blocked
                    &&& error@ == old(self).deep_view().fault()
                    &&& final(self).deep_view() == old(self).deep_view()
                },
                Ok(begun) => {
                    &&& !old(self).blocked
                    &&& begun == !old(self).deep_view().running.contains(key@)
                    &&& final(self).deep_view() == old(self).deep_view().with(key@)
                },
            },
    {
        if self.blocked {
            return Err(text::concat(self.label.as_str(), " guard lock was poisoned."));
        }
        Ok(self.running.insert(key))
    }

    /// Ends what was under way for a source; tells whether anything was.
    pub fn release(&mut self, key: &str) -> (result: bool)
        ensures
            result == old(self).deep_view().running.contains(key@),
            final(self).deep_view() == old(self).deep_view().without(key@),
    {
        self.running.remove(key)
    }
}

/// Something is begun at most once for a source until it has ended, and can be begun again
/// once it has.
pub proof fn begun_at_most_once(guards: InFlightGuardsView, key: Seq<char>)
    requires
        !guards.blocked,
        !guards.running.contains(key),
    ensures
        guards.with(key).holds_back(key),
        !guards.with(key).without(key).holds_back(key),
        guards.with(key).without(key).running =~= guards.running,
{
}

} // verus!
