//! What is asked to be played, and what that becomes.
use crate::model::ids::{TrackId};
use crate::model::library::{Track, TrackView};
use crate::model::queue::{PlaySourceKey, PlaySourceKeyView, QueueReplacement, QueueReplacementView};
use crate::value::Value;
use vstd::prelude::*;

verus! {

/// What is to happen with the chosen tracks.
#[derive(Clone, Copy, Debug, PartialEq, Eq, Structural)]
pub enum PlayAction {
    ReplaceNow,
    InsertNext,
    AppendLast,
    ActivateQueueEntry,
    MoveQueueEntryAfterCurrent,
}

impl DeepView for PlayAction {
    type V = PlayAction;

    open spec fn deep_view(&self) -> PlayAction {
        *self
    }
}

impl Value for PlayAction {
    fn copy(&self) -> (result: PlayAction) {
        *self
    }

    fn same(&self, other: &PlayAction) -> (result: bool) {
        *self == *other
    }
}

/// How much of a source was loaded.
#[derive(Clone, Debug, PartialEq, Eq)]
pub enum LoadedCompleteness {
    Complete,
    Window { start: usize, total: Option<usize> },
    Snippet,
}

/// The contents of a [`LoadedCompleteness`].
#[verifier::ext_equal]
pub enum LoadedCompletenessView {
    Complete,
    Window { start: usize, total: Option<usize> },
    Snippet,
}

impl DeepView for LoadedCompleteness {
    type V = LoadedCompletenessView;

    open spec fn deep_view(&self) -> LoadedCompletenessView {
        match self {
            LoadedCompleteness::Complete => LoadedCompletenessView::Complete,
            LoadedCompleteness::Window { start, total } => LoadedCompletenessView::Window {
                start: start.deep_view(),
                total: total.deep_view(),
            },
            LoadedCompleteness::Snippet => LoadedCompletenessView::Snippet,
        }
    }
}

impl Value for LoadedCompleteness {
    fn copy(&self) -> (result: LoadedCompleteness) {
        match self {
            LoadedCompleteness::Complete => LoadedCompleteness::Complete,
            LoadedCompleteness::Window { start, total } => LoadedCompleteness::Window {
                start: start.copy(),
                total: total.copy(),
            },
            LoadedCompleteness::Snippet => LoadedCompleteness::Snippet,
        }
    }

    fn same(&self, other: &LoadedCompleteness) -> (result: bool) {
        match (self, other) {
            (LoadedCompleteness::Complete, LoadedCompleteness::Complete) => true,
            (
                LoadedCompleteness::Window { start: left_start, total: left_total },
                LoadedCompleteness::Window { start: right_start, total: right_total },
            ) => left_start.same(right_start) && left_total.same(right_total),
            (LoadedCompleteness::Snippet, LoadedCompleteness::Snippet) => true,
            _ => false,
        }
    }
}

/// A loaded track with its place in the source.
#[derive(Clone, Debug, PartialEq, Eq)]
pub struct PlaySourceItem {
    pub track: Track,
    pub source_index: usize,
    pub source_item_id: Option<String>,
}

/// The contents of a [`PlaySourceItem`].
#[verifier::ext_equal]
pub struct PlaySourceItemView {
    pub track: TrackView,
    pub source_index: usize,
    pub source_item_id: Option<Seq<char>>,
}

impl DeepView for PlaySourceItem {
    type V = PlaySourceItemView;

    open spec fn deep_view(&self) -> PlaySourceItemView {
        PlaySourceItemView {
            track: self.track.deep_view(),
            source_index: self.source_index.deep_view(),
            source_item_id: self.source_item_id.deep_view(),
        }
    }
}

impl Value for PlaySourceItem {
    fn copy(&self) -> (result: PlaySourceItem) {
        PlaySourceItem {
            track: self.track.copy(),
            source_index: self.source_index.copy(),
            source_item_id: self.source_item_id.copy(),
        }
    }

    fn same(&self, other: &PlaySourceItem) -> (result: bool) {
        self.track.same(&other.track)
            && self.source_index.same(&other.source_index)
            && self.source_item_id.same(&other.source_item_id)
    }
}

/// The occurrence that was chosen.
#[derive(Clone, Debug, PartialEq, Eq)]
pub struct PlayAnchor {
    pub track_id: TrackId,
    pub source_index: usize,
    pub source_item_id: Option<String>,
}

/// The contents of a [`PlayAnchor`].
#[verifier::ext_equal]
pub struct PlayAnchorView {
    pub track_id: Seq<char>,
    pub source_index: usize,
    pub source_item_id: Option<Seq<char>>,
}

impl DeepView for PlayAnchor {
    type V = PlayAnchorView;

    open spec fn deep_view(&self) -> PlayAnchorView {
        PlayAnchorView {
            track_id: self.track_id.deep_view(),
            source_index: self.source_index.deep_view(),
            source_item_id: self.source_item_id.deep_view(),
        }
    }
}

impl Value for PlayAnchor {
    fn copy(&self) -> (result: PlayAnchor) {
        PlayAnchor {
            track_id: self.track_id.copy(),
            source_index: self.source_index.copy(),
            source_item_id: self.source_item_id.copy(),
        }
    }

    fn same(&self, other: &PlayAnchor) -> (result: bool) {
        self.track_id.same(&other.track_id)
            && self.source_index.same(&other.source_index)
            && self.source_item_id.same(&other.source_item_id)
    }
}

/// What was chosen to be played.
#[derive(Clone, Debug, PartialEq, Eq)]
pub enum PlayTarget {
    TrackOnly(Track),
    LoadedSource {
        source_key: PlaySourceKey,
        completeness: LoadedCompleteness,
        items: Vec<PlaySourceItem>,
        anchor: PlayAnchor,
    },
    StoreBackedSource { source_key: PlaySourceKey, anchor: PlayAnchor },
}

/// The contents of a [`PlayTarget`].
#[verifier::ext_equal]
pub enum PlayTargetView {
    TrackOnly(TrackView),
    LoadedSource {
        source_key: PlaySourceKeyView,
        completeness: LoadedCompletenessView,
        items: Seq<PlaySourceItemView>,
        anchor: PlayAnchorView,
    },
    StoreBackedSource { source_key: PlaySourceKeyView, anchor: PlayAnchorView },
}

impl DeepView for PlayTarget {
    type V = PlayTargetView;

    open spec fn deep_view(&self) -> PlayTargetView {
        match self {
            PlayTarget::TrackOnly(value) => PlayTargetView::TrackOnly(value.deep_view()),
            PlayTarget::LoadedSource { source_key, completeness, items, anchor } =>
                PlayTargetView::LoadedSource {
                source_key: source_key.deep_view(),
                completeness: completeness.deep_view(),
                items: items.deep_view(),
                anchor: anchor.deep_view(),
            },
            PlayTarget::StoreBackedSource { source_key, anchor } =>
                PlayTargetView::StoreBackedSource {
                source_key: source_key.deep_view(),
                anchor: anchor.deep_view(),
            },
        }
    }
}

impl Value for PlayTarget {
    fn copy(&self) -> (result: PlayTarget) {
        match self {
            PlayTarget::TrackOnly(value) => PlayTarget::TrackOnly(value.copy()),
            PlayTarget::LoadedSource { source_key, completeness, items, anchor } =>
                PlayTarget::LoadedSource {
                source_key: source_key.copy(),
                completeness: completeness.copy(),
                items: items.copy(),
                anchor: anchor.copy(),
            },
            PlayTarget::StoreBackedSource { source_key, anchor } => PlayTarget::StoreBackedSource {
                source_key: source_key.copy(),
                anchor: anchor.copy(),
            },
        }
    }

    fn same(&self, other: &PlayTarget) -> (result: bool) {
        match (self, other) {
            (
                PlayTarget::TrackOnly(left_value),
                PlayTarget::TrackOnly(right_value),
            ) => left_value.same(right_value),
            (
                PlayTarget::LoadedSource {
                    source_key: left_source_key,
                    completeness: left_completeness,
                    items: left_items,
                    anchor: left_anchor,
                },
                PlayTarget::LoadedSource {
                    source_key: right_source_key,
                    completeness: right_completeness,
                    items: right_items,
                    anchor: right_anchor,
                },
            ) => left_source_key.same(right_source_key)
                && left_completeness.same(right_completeness)
                && left_items.same(right_items)
                && left_anchor.same(right_anchor),
            (
                PlayTarget::StoreBackedSource { source_key: left_source_key, anchor: left_anchor },
                PlayTarget::StoreBackedSource {
                    source_key: right_source_key,
                    anchor: right_anchor,
                },
            ) => left_source_key.same(right_source_key) && left_anchor.same(right_anchor),
            _ => false,
        }
    }
}

/// A request to play something.
#[derive(Clone, Debug, PartialEq, Eq)]
pub struct PlayActivation {
    pub action: PlayAction,
    pub target: PlayTarget,
}

/// The contents of a [`PlayActivation`].
#[verifier::ext_equal]
pub struct PlayActivationView {
    pub action: PlayAction,
    pub target: PlayTargetView,
}

impl DeepView for PlayActivation {
    type V = PlayActivationView;

    open spec fn deep_view(&self) -> PlayActivationView {
        PlayActivationView {
            action: self.action.deep_view(),
            target: self.target.deep_view(),
        }
    }
}

impl Value for PlayActivation {
    fn copy(&self) -> (result: PlayActivation) {
        PlayActivation {
            action: self.action.copy(),
            target: self.target.copy(),
        }
    }

    fn same(&self, other: &PlayActivation) -> (result: bool) {
        self.action.same(&other.action)
            && self.target.same(&other.target)
    }
}

/// What is to be queued.
#[derive(Clone, Debug, PartialEq, Eq)]
pub enum NormalizedPlayTarget {
    TrackOnly(Track),
    Replacement(QueueReplacement),
}

/// The contents of a [`NormalizedPlayTarget`].
#[verifier::ext_equal]
pub enum NormalizedPlayTargetView {
    TrackOnly(TrackView),
    Replacement(QueueReplacementView),
}

impl DeepView for NormalizedPlayTarget {
    type V = NormalizedPlayTargetView;

    open spec fn deep_view(&self) -> NormalizedPlayTargetView {
        match self {
            NormalizedPlayTarget::TrackOnly(value) => NormalizedPlayTargetView::TrackOnly(
                value.deep_view(),
            ),
            NormalizedPlayTarget::Replacement(value) => NormalizedPlayTargetView::Replacement(
                value.deep_view(),
            ),
        }
    }
}

impl Value for NormalizedPlayTarget {
    fn copy(&self) -> (result: NormalizedPlayTarget) {
        match self {
            NormalizedPlayTarget::TrackOnly(value) => NormalizedPlayTarget::TrackOnly(value.copy()),
            NormalizedPlayTarget::Replacement(value) => NormalizedPlayTarget::Replacement(
                value.copy(),
            ),
        }
    }

    fn same(&self, other: &NormalizedPlayTarget) -> (result: bool) {
        match (self, other) {
            (
                NormalizedPlayTarget::TrackOnly(left_value),
                NormalizedPlayTarget::TrackOnly(right_value),
            ) => left_value.same(right_value),
            (
                NormalizedPlayTarget::Replacement(left_value),
                NormalizedPlayTarget::Replacement(right_value),
            ) => left_value.same(right_value),
            _ => false,
        }
    }
}

/// A request to play something, checked and cut to size.
#[derive(Clone, Debug, PartialEq, Eq)]
pub struct NormalizedPlayActivation {
    pub action: PlayAction,
    pub target: NormalizedPlayTarget,
}

/// The contents of a [`NormalizedPlayActivation`].
#[verifier::ext_equal]
pub struct NormalizedPlayActivationView {
    pub action: PlayAction,
    pub target: NormalizedPlayTargetView,
}

impl DeepView for NormalizedPlayActivation {
    type V = NormalizedPlayActivationView;

    open spec fn deep_view(&self) -> NormalizedPlayActivationView {
        NormalizedPlayActivationView {
            action: self.action.deep_view(),
            target: self.target.deep_view(),
        }
    }
}

impl Value for NormalizedPlayActivation {
    fn copy(&self) -> (result: NormalizedPlayActivation) {
        NormalizedPlayActivation {
            action: self.action.copy(),
            target: self.target.copy(),
        }
    }

    fn same(&self, other: &NormalizedPlayActivation) -> (result: bool) {
        self.action.same(&other.action)
            && self.target.same(&other.target)
    }
}

} // verus!
