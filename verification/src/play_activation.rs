//! Checks a request to play from a loaded source and cuts it to a window that is quick to
//! queue.
use crate::model::activation::{
    LoadedCompleteness, LoadedCompletenessView, NormalizedPlayActivation,
    NormalizedPlayActivationView, NormalizedPlayTarget, NormalizedPlayTargetView, PlayAction,
    PlayActivation, PlayActivationView, PlayAnchor, PlayAnchorView, PlaySourceItem,
    PlaySourceItemView, PlayTarget, PlayTargetView,
};
use crate::model::library::TrackView;
use crate::model::queue::{
    PlaySourceKey, PlaySourceKeyView, QueueAnchor, QueueAnchorView, QueueItemInput,
    QueueItemInputView, QueueReplacement, QueueReplacementView, QueueSourceInput,
    QueueSourceInputView,
};
use crate::text;
use crate::value::{first_where, lemma_first_where, lemma_first_where_bounds, Value};
use vstd::prelude::*;

verus! {

pub const FULL_LOADED_LIMIT: usize = 100;

pub const MATERIALIZED_WINDOW_LIMIT: usize = 100;

pub const MATERIALIZED_WINDOW_BEFORE_ANCHOR: usize = 20;

pub const NOTHING_TO_PLAY: &'static str = "No tracks are available to play.";

pub const NO_LONGER_AVAILABLE: &'static str = "The selected track is no longer available.";

pub const NOT_RESOLVED: &'static str = "The selected source could not be resolved.";

/// Whether the loaded items are what their completeness says: they begin where it says, end
/// before the total where that is known, and follow each other without a gap.
pub open spec fn items_fit(
    completeness: LoadedCompletenessView,
    items: Seq<PlaySourceItemView>,
) -> bool {
    &&& items.len() > 0
    &&& match completeness {
        LoadedCompletenessView::Complete => items[0].source_index == 0,
        LoadedCompletenessView::Window { start, total } => {
            &&& items[0].source_index == start
            &&& match total {
                Some(total) => start < total && items.last().source_index < total,
                None => true,
            }
        },
        LoadedCompletenessView::Snippet => true,
    }
    &&& forall|i: int|
        #![trigger items[i]]
        0 <= i < items.len() - 1 ==> items[i + 1].source_index == items[i].source_index + 1
}

fn validate_loaded_items(completeness: &LoadedCompleteness, items: &Vec<PlaySourceItem>) -> (result:
    Result<(), String>)
    ensures
        match result {
            Ok(_) => items_fit(completeness.deep_view(), items.deep_view()),
            Err(error) => {
                &&& !items_fit(completeness.deep_view(), items.deep_view())
                &&& error@ == (if items.deep_view().len() == 0 {
                    NOTHING_TO_PLAY@
                } else {
                    NO_LONGER_AVAILABLE@
                })
            },
        },
{
    let ghost views = items.deep_view();
    if items.len() == 0 {
        return Err(text::owned(NOTHING_TO_PLAY));
    }
    let first: usize = items[0].source_index;
    let last: usize = items[items.len() - 1].source_index;
    assert(views[0].source_index == first && views.last().source_index == last);
    let begins_and_ends: bool = match completeness {
        LoadedCompleteness::Complete => first == 0,
        LoadedCompleteness::Window { start, total } => first == *start && match total {
            Some(total) => *start < *total && last < *total,
            None => true,
        },
        LoadedCompleteness::Snippet => true,
    };
    if !begins_and_ends {
        return Err(text::owned(NO_LONGER_AVAILABLE));
    }
    let mut i: usize = 0;
    while i < items.len() - 1
        invariant
            0 <= i <= items.len() - 1,
            views == items.deep_view(),
            items.len() > 0,
            forall|j: int|
                #![trigger views[j]]
                0 <= j < i ==> views[j + 1].source_index == views[j].source_index + 1,
        decreases items.len() - i,
    {
        assert(views[i as int].source_index == items@[i as int].source_index);
        assert(views[i + 1].source_index == items@[i + 1].source_index);
        if items[i].source_index == usize::MAX || items[i + 1].source_index
            != items[i].source_index + 1 {
            return Err(text::owned(NO_LONGER_AVAILABLE));
        }
        i += 1;
    }
    Ok(())
}

/// Whether an item is the chosen occurrence.
pub open spec fn is_anchor(item: PlaySourceItemView, anchor: PlayAnchorView) -> bool {
    &&& item.track.id == anchor.track_id
    &&& item.source_index == anchor.source_index
    &&& item.source_item_id == anchor.source_item_id
}

/// The position of the chosen occurrence among the items, or their number where it is not
/// among them.
pub open spec fn anchor_position(items: Seq<PlaySourceItemView>, anchor: PlayAnchorView) -> int {
    first_where(items, |item: PlaySourceItemView| is_anchor(item, anchor))
}

fn matching_anchor_position(items: &Vec<PlaySourceItem>, anchor: &PlayAnchor) -> (result: Result<
    usize,
    String,
>)
    ensures
        match result {
            Ok(position) => {
                &&& position < items@.len()
                &&& position == anchor_position(items.deep_view(), anchor.deep_view())
            },
            Err(error) => {
                &&& anchor_position(items.deep_view(), anchor.deep_view()) == items@.len()
                &&& error@ == NO_LONGER_AVAILABLE@
            },
        },
{
    let ghost test = |item: PlaySourceItemView| is_anchor(item, anchor.deep_view());
    let ghost views = items.deep_view();
    let mut i: usize = 0;
    while i < items.len()
        invariant
            i <= items@.len(),
            views == items.deep_view(),
            test == (|item: PlaySourceItemView| is_anchor(item, anchor.deep_view())),
            forall|j: int| 0 <= j < i ==> !test(views[j]),
        decreases items.len() - i,
    {
        let item: &PlaySourceItem = &items[i];
        assert(views[i as int] == item.deep_view());
        if item.track.id.same(&anchor.track_id) && item.source_index == anchor.source_index
            && item.source_item_id.same(&anchor.source_item_id) {
            proof {
                lemma_first_where(views, test, i as int);
            }
            return Ok(i);
        }
        i += 1;
    }
    proof {
        lemma_first_where(views, test, i as int);
    }
    Err(text::owned(NO_LONGER_AVAILABLE))
}

/// The part of the items that is queued: all of them, or a window that begins a little
/// before the chosen one.
pub open spec fn window(item_count: int, position: int) -> (int, int) {
    if item_count <= FULL_LOADED_LIMIT {
        (0, item_count)
    } else {
        let preferred = if position < MATERIALIZED_WINDOW_BEFORE_ANCHOR {
            0
        } else {
            position - MATERIALIZED_WINDOW_BEFORE_ANCHOR
        };
        let last = item_count - MATERIALIZED_WINDOW_LIMIT;
        let start = if preferred < last {
            preferred
        } else {
            last
        };
        (start, start + MATERIALIZED_WINDOW_LIMIT)
    }
}

pub fn materialized_range(item_count: usize, anchor_position: usize) -> (result: (usize, usize))
    ensures
        (result.0 as int, result.1 as int) == window(item_count as int, anchor_position as int),
{
    if item_count <= FULL_LOADED_LIMIT {
        return (0, item_count);
    }
    let last_window_start: usize = item_count - MATERIALIZED_WINDOW_LIMIT;
    let preferred_start: usize = if anchor_position < MATERIALIZED_WINDOW_BEFORE_ANCHOR {
        0
    } else {
        anchor_position - MATERIALIZED_WINDOW_BEFORE_ANCHOR
    };
    let start: usize = if preferred_start < last_window_start {
        preferred_start
    } else {
        last_window_start
    };
    (start, start + MATERIALIZED_WINDOW_LIMIT)
}

/// The queued part lies within the items, holds the chosen one, and is never longer than
/// the limit.
pub proof fn window_holds_the_anchor(item_count: int, position: int)
    requires
        0 <= position < item_count,
    ensures
        ({
            let (start, end) = window(item_count, position);
            &&& 0 <= start <= position < end <= item_count
            &&& end - start <= MATERIALIZED_WINDOW_LIMIT
            &&& item_count <= FULL_LOADED_LIMIT ==> end - start == item_count
        }),
{
}

/// The size of the whole source, as far as it is known.
pub open spec fn source_total(
    completeness: LoadedCompletenessView,
    loaded: usize,
) -> Option<usize> {
    match completeness {
        LoadedCompletenessView::Complete => Some(loaded),
        LoadedCompletenessView::Window { total, .. } => total,
        LoadedCompletenessView::Snippet => None,
    }
}

fn total_source_items(completeness: &LoadedCompleteness, loaded_len: usize) -> (result: Option<
    usize,
>)
    ensures
        result == source_total(completeness.deep_view(), loaded_len),
{
    match completeness {
        LoadedCompleteness::Complete => Some(loaded_len),
        LoadedCompleteness::Window { total, .. } => *total,
        LoadedCompleteness::Snippet => None,
    }
}

/// A loaded item as it is queued.
pub open spec fn queue_item(item: PlaySourceItemView) -> QueueItemInputView {
    QueueItemInputView {
        track: item.track,
        source_index: item.source_index,
        source_item_id: item.source_item_id,
    }
}

/// What a loaded source becomes: an error, one track, or the window to queue.
pub open spec fn loaded_target(
    action: PlayAction,
    source_key: PlaySourceKeyView,
    completeness: LoadedCompletenessView,
    items: Seq<PlaySourceItemView>,
    anchor: PlayAnchorView,
) -> Result<NormalizedPlayTargetView, Seq<char>> {
    let position = anchor_position(items, anchor);
    if items.len() == 0 {
        Err(NOTHING_TO_PLAY@)
    } else if !items_fit(completeness, items) || position == items.len() {
        Err(NO_LONGER_AVAILABLE@)
    } else if action == PlayAction::ReplaceNow && completeness is Snippet {
        Ok(NormalizedPlayTargetView::TrackOnly(items[position].track))
    } else {
        let (start, end) = window(items.len() as int, position);
        Ok(
            NormalizedPlayTargetView::Replacement(
                QueueReplacementView {
                    source: QueueSourceInputView {
                        source_key,
                        total_source_items: source_total(completeness, items.len() as usize),
                        materialized_start: items[start].source_index,
                        materialized_len: (end - start) as usize,
                        capped: end - start < items.len(),
                    },
                    items: items.subrange(start, end).map_values(
                        |item: PlaySourceItemView| queue_item(item),
                    ),
                    anchor: QueueAnchorView {
                        track_id: anchor.track_id,
                        source_index: anchor.source_index,
                        source_item_id: anchor.source_item_id,
                    },
                },
            ),
        )
    }
}

/// An outcome taken by its contents.
pub open spec fn target_outcome(result: Result<NormalizedPlayTarget, String>) -> Result<
    NormalizedPlayTargetView,
    Seq<char>,
> {
    match result {
        Ok(target) => Ok(target.deep_view()),
        Err(error) => Err(error@),
    }
}

fn normalize_loaded_source_target(
    action: PlayAction,
    source_key: PlaySourceKey,
    completeness: LoadedCompleteness,
    items: Vec<PlaySourceItem>,
    anchor: PlayAnchor,
) -> (result: Result<NormalizedPlayTarget, String>)
    ensures
        target_outcome(result) == loaded_target(
            action,
            source_key.deep_view(),
            completeness.deep_view(),
            items.deep_view(),
            anchor.deep_view(),
        ),
{
    let ghost views = items.deep_view();
    if let Err(error) = validate_loaded_items(&completeness, &items) {
        return Err(error);
    }
    let position: usize = match matching_anchor_position(&items, &anchor) {
        Ok(position) => position,
        Err(error) => return Err(error),
    };
    let snippet: bool = match completeness {
        LoadedCompleteness::Snippet => true,
        _ => false,
    };
    if action == PlayAction::ReplaceNow && snippet {
        return Ok(NormalizedPlayTarget::TrackOnly(items[position].track.copy()));
    }
    let (start, end): (usize, usize) = materialized_range(items.len(), position);
    proof {
        window_holds_the_anchor(items@.len() as int, position as int);
    }
    let mut queued: Vec<QueueItemInput> = Vec::new();
    let mut i: usize = start;
    while i < end
        invariant
            start <= i <= end <= items@.len(),
            views == items.deep_view(),
            queued@.len() == i - start,
            forall|j: int|
                0 <= j < i - start ==> (#[trigger] queued@[j]).deep_view() == queue_item(
                    views[start + j],
                ),
        decreases end - i,
    {
        let item: &PlaySourceItem = &items[i];
        assert(views[i as int] == item.deep_view());
        queued.push(
            QueueItemInput {
                track: item.track.copy(),
                source_index: item.source_index,
                source_item_id: item.source_item_id.copy(),
            },
        );
        i += 1;
    }
    assert(queued.deep_view() =~= views.subrange(start as int, end as int).map_values(
        |item: PlaySourceItemView| queue_item(item),
    ));
    let queued_len: usize = queued.len();
    let source: QueueSourceInput = QueueSourceInput {
        source_key,
        total_source_items: total_source_items(&completeness, items.len()),
        materialized_start: items[start].source_index,
        materialized_len: queued_len,
        capped: queued_len < items.len(),
    };
    assert(views[start as int].source_index == items@[start as int].source_index);
    Ok(
        NormalizedPlayTarget::Replacement(
            QueueReplacement {
                source,
                items: queued,
                anchor: QueueAnchor {
                    track_id: anchor.track_id,
                    source_index: anchor.source_index,
                    source_item_id: anchor.source_item_id,
                },
            },
        ),
    )
}

/// What a request to play becomes.
pub open spec fn normalized_target(activation: PlayActivationView) -> Result<
    NormalizedPlayTargetView,
    Seq<char>,
> {
    match activation.target {
        PlayTargetView::TrackOnly(track) => Ok(NormalizedPlayTargetView::TrackOnly(track)),
        PlayTargetView::LoadedSource { source_key, completeness, items, anchor } => loaded_target(
            activation.action,
            source_key,
            completeness,
            items,
            anchor,
        ),
        PlayTargetView::StoreBackedSource { .. } => Err(NOT_RESOLVED@),
    }
}

/// Checks a request to play and cuts it to what is to be queued.
pub fn normalize_loaded_source_activation(activation: PlayActivation) -> (result: Result<
    NormalizedPlayActivation,
    String,
>)
    ensures
        match normalized_target(activation.deep_view()) {
            Ok(target) => result matches Ok(normalized) && normalized.deep_view() == (
            NormalizedPlayActivationView { action: activation.action, target }),
            Err(message) => result matches Err(error) && error@ == message,
        },
{
    let action: PlayAction = activation.action;
    let target: NormalizedPlayTarget = match activation.target {
        PlayTarget::TrackOnly(track) => NormalizedPlayTarget::TrackOnly(track),
        PlayTarget::LoadedSource { source_key, completeness, items, anchor } => {
            match normalize_loaded_source_target(action, source_key, completeness, items, anchor) {
                Ok(target) => target,
                Err(error) => return Err(error),
            }
        },
        PlayTarget::StoreBackedSource { .. } => return Err(text::owned(NOT_RESOLVED)),
    };
    Ok(NormalizedPlayActivation { action, target })
}

/// A queued window always holds the chosen occurrence, and never more than the limit.
pub proof fn replacement_holds_the_anchor(activation: PlayActivationView)
    requires
        normalized_target(activation) matches Ok(NormalizedPlayTargetView::Replacement(_)),
    ensures
        normalized_target(activation) matches Ok(NormalizedPlayTargetView::Replacement(queued))
            && {
            &&& 0 < queued.items.len() <= MATERIALIZED_WINDOW_LIMIT
            &&& queued.source.materialized_len == queued.items.len()
            &&& exists|i: int|
                0 <= i < queued.items.len() && (#[trigger] queued.items[i]).track.id
                    == queued.anchor.track_id && queued.items[i].source_index
                    == queued.anchor.source_index
        },
{
    if let PlayTargetView::LoadedSource { source_key, completeness, items, anchor } =
        activation.target {
        let test = |item: PlaySourceItemView| is_anchor(item, anchor);
        lemma_first_where_bounds(items, test);
        let position = anchor_position(items, anchor);
        window_holds_the_anchor(items.len() as int, position);
        let (start, end) = window(items.len() as int, position);
        let queued = items.subrange(start, end).map_values(
            |item: PlaySourceItemView| queue_item(item),
        );
        assert(queued[position - start] == queue_item(items[position]));
    }
}

/// A whole source of up to a hundred items is queued as it is: all its items in their order,
/// from the chosen one on. Of a longer one a hundred items in a row are, and of a snippet the
/// chosen track alone.
pub proof fn chosen_sources_are_queued_in_their_order(
    source_key: PlaySourceKeyView,
    completeness: LoadedCompletenessView,
    items: Seq<PlaySourceItemView>,
    at: int,
)
    requires
        0 <= at < items.len(),
        items_fit(completeness, items),
        forall|i: int| 0 <= i < at ==> (#[trigger] items[i]).source_index < items[at].source_index,
    ensures
        ({
            let anchor = PlayAnchorView {
                track_id: items[at].track.id,
                source_index: items[at].source_index,
                source_item_id: items[at].source_item_id,
            };
            let outcome = loaded_target(
                PlayAction::ReplaceNow,
                source_key,
                completeness,
                items,
                anchor,
            );
            &&& completeness is Snippet ==> outcome == Ok::<NormalizedPlayTargetView, Seq<char>>(
                NormalizedPlayTargetView::TrackOnly(items[at].track),
            )
            &&& !(completeness is Snippet) ==> (outcome matches Ok(
                NormalizedPlayTargetView::Replacement(queued),
            ) && {
                &&& queued.anchor.track_id == items[at].track.id
                &&& queued.anchor.source_index == items[at].source_index
                &&& queued.source.source_key == source_key
                &&& items.len() <= 100 ==> queued.items.len() == items.len()
                    && !queued.source.capped && (forall|i: int|
                    0 <= i < items.len() ==> (#[trigger] queued.items[i]).track == items[i].track
                        && queued.items[i].source_index == items[i].source_index)
                &&& items.len() > 100 ==> queued.items.len() == 100 && queued.source.capped
                &&& forall|i: int|
                    0 <= i < queued.items.len() - 1 ==> queued.items[i + 1].source_index == (
                    #[trigger] queued.items[i]).source_index + 1
                &&& queued.items[0].source_index == queued.source.materialized_start
            })
        }),
{
    let anchor = PlayAnchorView {
        track_id: items[at].track.id,
        source_index: items[at].source_index,
        source_item_id: items[at].source_item_id,
    };
    let test = |item: PlaySourceItemView| is_anchor(item, anchor);
    assert forall|i: int| 0 <= i < at implies !test(items[i]) by {
        assert(items[i].source_index < items[at].source_index);
    }
    lemma_first_where(items, test, at);
    if !(completeness is Snippet) {
        let (start, end) = window(items.len() as int, at);
        window_holds_the_anchor(items.len() as int, at);
        let queued = items.subrange(start, end).map_values(
            |item: PlaySourceItemView| queue_item(item),
        );
        assert forall|i: int| 0 <= i < queued.len() - 1 implies queued[i + 1].source_index == (
        #[trigger] queued[i]).source_index + 1 by {
            assert(items[start + i + 1].source_index == items[start + i].source_index + 1);
        }
    }
}

/// A single track is queued alone, and a source with a gap in it is refused.
pub proof fn gaps_in_sources_are_refused(
    track: TrackView,
    action: PlayAction,
    source_key: PlaySourceKeyView,
    completeness: LoadedCompletenessView,
    items: Seq<PlaySourceItemView>,
    anchor: PlayAnchorView,
    at: int,
)
    requires
        0 <= at < items.len() - 1,
        items[at + 1].source_index != items[at].source_index + 1,
    ensures
        normalized_target(
            (PlayActivationView { action, target: PlayTargetView::TrackOnly(track) }),
        ) == Ok::<NormalizedPlayTargetView, Seq<char>>(NormalizedPlayTargetView::TrackOnly(track)),
        loaded_target(action, source_key, completeness, items, anchor) is Err,
{
    assert(items[at].source_index == items[at].source_index);
}

/// Of a source of more than a hundred items, a hundred are queued: twenty stand before the chosen
/// one and the rest after it, unless it is near the beginning or the end, where the hundred begin
/// or end with the source.
pub proof fn windows_begin_twenty_before_the_chosen_item(item_count: int, at: int)
    requires
        0 <= at < item_count,
    ensures
        item_count <= 100 ==> window(item_count, at) == (0int, item_count),
        item_count > 100 ==> {
            let (start, end) = window(item_count, at);
            &&& end - start == 100
            &&& 20 <= at <= item_count - 80 ==> at - start == 20
            &&& at < 20 ==> start == 0
            &&& at > item_count - 80 ==> end == item_count
        },
{
}

} // verus!
