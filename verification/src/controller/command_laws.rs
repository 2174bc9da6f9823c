//! What the commands of the queue and of the player do, in terms of what is in the queue, what
//! is played and what is asked for before and after them.

use crate::controller::laws::queues_are_read_back;
use crate::controller::ControllerView;
use crate::model::events::{ControllerEventView, CurrentStreamRequestView, EffectView};
use crate::model::library::TrackView;
use crate::model::playback::{
    PlaybackCommandView, PlaybackEventView, PlaybackReportKind, PlaybackState, PlaybackTrackView,
    StreamDescriptorView,
};
use crate::model::queue::{QueueReplacementView, RepeatMode};
use crate::model::settings::{AppSettingsView, PlaybackSettingsView, VolumeView};
use crate::queue::{
    adding_last_keeps_what_is_there, filled_queues_hold_the_items, ids, lemma_place,
    moved_entries_are_played_next, place, queues_in_order, removed_entries_are_gone,
    replaced_queues_hold_the_tracks, shuffling_changes_the_order_alone,
    tracks_are_added_in_their_order, tracks_are_added_next_in_their_order,
    what_is_added_next_is_played_next, QueueView,
};
use vstd::prelude::*;

verus! {

/// A queue that changed is told, and the player's state with it, which is that of the queue's
/// current entry; it is kept at once, or asked to be kept where that is put off.
pub proof fn changed_queues_are_told_and_kept(before: ControllerView, prepare: bool)
    ensures
        ({
            let after = before.show_queue(prepare);
            let told = after.events.len() as int;
            &&& after.queue == before.queue
            &&& told >= before.events.len() + 2
            &&& after.events[told - 2] == ControllerEventView::Queue(before.queue_snapshot())
            &&& after.events[told - 1] == ControllerEventView::Playback(after.playback_snapshot)
            &&& after.playback_snapshot.current == before.current()
            &&& before.queue matches Some(queue) ==> {
                &&& after.playback_snapshot.position_seconds == queue.progress_seconds
                &&& after.playback_snapshot.position_millis == queue.progress_seconds * 1000
                &&& after.playback_snapshot.repeat_mode == queue.repeat_mode
                &&& after.playback_snapshot.shuffle_enabled == queue.shuffle.enabled
                &&& !before.deferred_queue_writes && before.store.fault is None
                    ==> after.store.library(queue.server_id).queue == Some(queue.snapshot())
                &&& before.deferred_queue_writes ==> after.effects[before.effects.len() as int] == (
                EffectView::PersistQueue {
                    generation: after.queue_persist_generation,
                    snapshot: queue.snapshot(),
                })
            }
            &&& before.current() matches Some(entry) ==> after.playback_snapshot.duration_seconds
                == entry.duration_seconds && after.playback_snapshot.state
                == before.playback_snapshot.state
            &&& before.current() is None ==> after.playback_snapshot.state
                == PlaybackState::Stopped
            &&& after.playback_snapshot.volume == before.playback_snapshot.volume
            &&& after.playback_snapshot.muted == before.playback_snapshot.muted
            &&& after.auto_dj_enabled == before.auto_dj_enabled
            &&& after.playback_request_generation == before.playback_request_generation
            &&& after.store.fault == before.store.fault
            &&& after.store.settings == before.store.settings
            &&& after.store.servers == before.store.servers
            &&& after.store.active == before.store.active
        }),
{
    reveal(ControllerView::show_queue);
    reveal(ControllerView::prepare_next);
    if let Some(queue) = before.queue {
        queues_are_read_back(before.store, queue.snapshot());
    }
}

/// What follows the current entry is prepared for the player: the stream of exactly that entry
/// is asked for, or the player is told that nothing follows.
pub proof fn what_follows_is_prepared(before: ControllerView)
    requires
        before.queue is Some,
    ensures
        ({
            let after = before.prepare_next();
            let queue = before.queue->0;
            &&& after.queue == before.queue
            &&& after.store == before.store
            &&& after.playback_snapshot == before.playback_snapshot
            &&& after.effects.drop_last() == before.effects
            &&& queue.following() is None ==> after.effects.last() == EffectView::Playback(
                PlaybackCommandView::PrepareNext(None),
            )
            &&& queue.following() matches Some(id) ==> (after.effects.last() matches
                EffectView::ResolveNext(request) && request.next_entry == queue.entry(id)
                && request.server_id == queue.server_id && Some(request.current_entry_id)
                == queue.current)
        }),
{
    reveal(ControllerView::prepare_next);
    assert(before.prepare_next().effects.drop_last() =~= before.effects);
}

/// To start the queue is to play its current entry, from where it was left: the player waits
/// for it, its stream is asked for under a new number, and what is kept stays.
pub proof fn starting_plays_the_current_entry(before: ControllerView)
    requires
        before.current() is Some,
    ensures
        ({
            let after = before.start_current();
            let queue = before.queue->0;
            let entry = before.current()->0;
            &&& after.queue == before.queue
            &&& after.store == before.store
            &&& after.playback_snapshot.current == Some(entry)
            &&& after.playback_snapshot.state == PlaybackState::Buffering
            &&& after.playback_snapshot.position_seconds == queue.progress_seconds
            &&& after.playback_snapshot.position_millis == queue.progress_seconds * 1000
            &&& after.playback_snapshot.duration_seconds == entry.duration_seconds
            &&& after.playback_snapshot.last_error is None
            &&& after.playback_request_generation
                == before.playback_request_generation.wrapping_add(1)
            &&& after.effects.last() matches EffectView::ResolveCurrent(request) && request.entry
                == entry && request.server_id == queue.server_id && request.generation
                == after.playback_request_generation && request.position_seconds
                == queue.progress_seconds && request.has_next == (queue.following() is Some)
                && request.settings == before.settings().playback
            &&& after.events.last() == ControllerEventView::Playback(after.playback_snapshot)
            &&& after.events.drop_last() == before.events
            &&& after.effects.contains(
                (EffectView::ActivityStarted {
                    server_id: queue.server_id,
                    entry,
                    position_seconds: queue.progress_seconds,
                }),
            )
        }),
{
    reveal(ControllerView::start_current);
    reveal(ControllerView::report);
    let after = before.start_current();
    let started = EffectView::ActivityStarted {
        server_id: before.queue->0.server_id,
        entry: before.current()->0,
        position_seconds: before.queue->0.progress_seconds,
    };
    let at = before.effects.len() as int;
    assert(after.effects[at] == started || after.effects[at + 1] == started);
    assert(after.events.drop_last() =~= before.events);
}

/// Where there is nothing to play, that is told and nothing else happens.
pub proof fn nothing_is_started_without_an_entry(before: ControllerView)
    requires
        before.current() is None,
    ensures
        before.start_current() == before.fail("Queue is empty."@),
{
    reveal(ControllerView::start_current);
}

/// Tracks that the automatic filling adds come after everything that is there; what is current
/// and what is kept stays.
pub proof fn filling_adds_at_the_end(before: ControllerView)
    requires
        before.queue matches Some(queue) ==> queue.wf(),
    ensures
        ({
            let after = before.top_up();
            &&& after.store == before.store
            &&& after.playback_snapshot == before.playback_snapshot
            &&& after.effects == before.effects
            &&& after.auto_dj_enabled == before.auto_dj_enabled
            &&& after.current() == before.current()
            &&& !before.auto_dj_enabled ==> after == before
            &&& before.queue is None ==> after.queue is None
            &&& before.queue matches Some(queue) ==> (after.queue matches Some(filled) && {
                &&& filled.entries.len() >= queue.entries.len()
                &&& filled.entries.take(queue.entries.len() as int) == queue.entries
                &&& filled.order.len() >= queue.order.len()
                &&& filled.order.take(queue.order.len() as int) == queue.order
                &&& filled.current == queue.current
                &&& filled.current_turn() == queue.current_turn()
                &&& filled.progress_seconds == queue.progress_seconds
                &&& filled.server_id == queue.server_id
                &&& filled.repeat_mode == queue.repeat_mode
                &&& filled.shuffle == queue.shuffle
            })
        }),
{
    reveal(ControllerView::top_up);
    reveal(ControllerView::wants_tracks);
    if let Some(queue) = before.queue {
        queues_in_order(queue);
        adding_last_keeps_what_is_there(queue, before.added_tracks());
        assert(queue.entries.take(queue.entries.len() as int) =~= queue.entries);
        assert(queue.order.take(queue.order.len() as int) =~= queue.order);
    }
}

/// After a track was added next, the entry that follows the current one in the play order is
/// the added track, and what is current, what is played and every other entry stays as it was.
pub proof fn play_next_adds_after_the_current_entry(before: ControllerView, track: TrackView)
    requires
        before.queue matches Some(queue) && queue.wf() && queue.has_numbers()
            && queue.current is Some,
    ensures
        ({
            let queue = before.queue->0;
            let after = before.play_next(track);
            let turn = queue.current_turn();
            let at = queue.current_index();
            &&& after.queue matches Some(longer) && {
                &&& queue.order[turn] == queue.current->0
                &&& queue.entries[at].id == queue.current->0
                &&& longer.current == queue.current
                &&& longer.order.remove(turn + 1) == queue.order
                &&& longer.entries.remove(at + 1) == queue.entries
                &&& longer.order[turn + 1] == longer.entries[at + 1].id
                &&& !queue.order.contains(longer.order[turn + 1])
                &&& longer.entries[at + 1].track_id == track.id
                &&& longer.following() == Some(longer.order[turn + 1])
                &&& longer.progress_seconds == queue.progress_seconds
            }
            &&& after.playback_snapshot.current == before.current()
            &&& after.playback_snapshot.state == before.playback_snapshot.state
            &&& after.playback_request_generation == before.playback_request_generation
        }),
{
    reveal(ControllerView::play_next);
    let queue = before.queue->0;
    what_is_added_next_is_played_next(queue, track);
    queues_in_order(queue);
    let longer = before.with_queue(queue.with_next(track));
    changed_queues_are_told_and_kept(longer, true);
    lemma_current_stays(queue, queue.with_next(track), queue.current_index() + 1);
}

proof fn lemma_current_stays(queue: QueueView, longer: QueueView, at: int)
    requires
        queue.wf(),
        queue.current is Some,
        longer.current == queue.current,
        queue.current_index() < at < longer.entries.len(),
        longer.entries.remove(at) == queue.entries,
    ensures
        longer.current_entry() == queue.current_entry(),
        longer.current_index() == queue.current_index(),
{
    queues_in_order(queue);
    let id = queue.current->0;
    let list = ids(queue.entries);
    let longer_list = ids(longer.entries);
    lemma_place(list, id);
    lemma_place(longer_list, id);
    let home = queue.current_index();
    assert forall|i: int| 0 <= i < at implies longer.entries[i] == queue.entries[i] by {
        assert(longer.entries.remove(at)[i] == longer.entries[i]);
    }
    assert(longer_list[home] == list[home]);
    assert(longer_list.contains(id));
    let found = place(longer_list, id);
    if found < home {
        assert(list[found] == longer_list[found]);
    }
}

/// Without a queue, commands for it tell an error and do nothing else.
pub proof fn commands_need_a_queue(
    before: ControllerView,
    track: TrackView,
    tracks: Seq<TrackView>,
    id: Seq<char>,
    replacement: QueueReplacementView,
)
    requires
        before.queue is None,
        tracks.len() > 0,
    ensures
        ({
            let refused = before.emit(
                ControllerEventView::Error(crate::controller::playback_commands::NO_QUEUE@),
            );
            &&& before.play_next(track) == refused
            &&& before.play_last(tracks) == refused
            &&& before.play_all_next(tracks) == refused
            &&& before.play_tracks_now(tracks) == refused
            &&& before.replace_queue(replacement) == refused
            &&& before.remove_entry(id) == refused
            &&& before.activate_entry(id) == refused
            &&& before.move_entry(id) == refused
            &&& before.clear_queue() == refused
            &&& before.toggle_shuffle() == refused
            &&& before.cycle_repeat() == refused
        }),
{
    reveal(ControllerView::play_next);
    reveal(ControllerView::play_last);
    reveal(ControllerView::play_all_next);
    reveal(ControllerView::play_tracks_now);
    reveal(ControllerView::replace_queue);
    reveal(ControllerView::remove_entry);
    reveal(ControllerView::activate_entry);
    reveal(ControllerView::move_entry);
    reveal(ControllerView::clear_queue);
    reveal(ControllerView::toggle_shuffle);
    reveal(ControllerView::cycle_repeat);
}

/// Tracks that are added last come at the end of the queue and of the play order, in their own
/// order; everything that is there stays, and what is played.
pub proof fn play_last_adds_at_the_end(before: ControllerView, tracks: Seq<TrackView>)
    requires
        before.queue matches Some(queue) && queue.wf() && queue.next_number + tracks.len()
            <= u64::MAX,
        tracks.len() > 0,
    ensures
        ({
            let queue = before.queue->0;
            let count = queue.entries.len() as int;
            let after = before.play_last(tracks);
            &&& after.queue matches Some(longer) && {
                &&& longer.entries.len() == count + tracks.len()
                &&& longer.entries.take(count) == queue.entries
                &&& longer.order.take(count) == queue.order
                &&& forall|i: int|
                    0 <= i < tracks.len() ==> (#[trigger] longer.entries[count + i]).track_id
                        == tracks[i].id && longer.order[count + i] == longer.entries[count + i].id
                &&& queue.current is Some ==> longer.current == queue.current
                &&& longer.progress_seconds == queue.progress_seconds
            }
            &&& after.playback_request_generation == before.playback_request_generation
        }),
{
    reveal(ControllerView::play_last);
    let queue = before.queue->0;
    tracks_are_added_in_their_order(queue, tracks);
    changed_queues_are_told_and_kept(before.with_queue(queue.appended_all(tracks)), true);
}

/// Tracks that are added next come right after the current entry, in their own order; what is
/// current stays, and what followed it comes after them.
pub proof fn play_all_next_adds_after_the_current_entry(
    before: ControllerView,
    tracks: Seq<TrackView>,
)
    requires
        before.queue matches Some(queue) && queue.wf() && queue.current is Some
            && queue.next_number + tracks.len() <= u64::MAX,
    ensures
        ({
            let queue = before.queue->0;
            let at = queue.current_index();
            let turn = queue.current_turn();
            let count = tracks.len() as int;
            let after = before.play_all_next(tracks);
            &&& after.queue matches Some(longer) && {
                &&& longer.current == queue.current
                &&& longer.entries.len() == queue.entries.len() + count
                &&& longer.entries.take(at + 1) == queue.entries.take(at + 1)
                &&& longer.order.take(turn + 1) == queue.order.take(turn + 1)
                &&& forall|i: int|
                    0 <= i < count ==> (#[trigger] longer.entries[at + 1 + i]).track_id
                        == tracks[i].id && longer.order[turn + 1 + i]
                        == longer.entries[at + 1 + i].id
                &&& longer.entries.skip(at + 1 + count) == queue.entries.skip(at + 1)
                &&& longer.order.skip(turn + 1 + count) == queue.order.skip(turn + 1)
            }
            &&& after.playback_request_generation == before.playback_request_generation
        }),
{
    reveal(ControllerView::play_all_next);
    let queue = before.queue->0;
    tracks_are_added_next_in_their_order(queue, tracks);
    changed_queues_are_told_and_kept(before.with_queue(queue.with_next_all(tracks)), true);
}

/// Tracks that are played now take the place of the queue, in their order, before anything that
/// is filled in; the first of them is current and played from its beginning.
pub proof fn play_now_replaces_the_queue(before: ControllerView, tracks: Seq<TrackView>)
    requires
        before.queue matches Some(queue) && queue.wf() && queue.next_number + tracks.len()
            <= u64::MAX,
        tracks.len() > 0,
    ensures
        ({
            let after = before.play_tracks_now(tracks);
            &&& after.queue matches Some(filled) && {
                &&& filled.entries.len() >= tracks.len()
                &&& !before.auto_dj_enabled ==> filled.entries.len() == tracks.len()
                &&& forall|i: int|
                    0 <= i < tracks.len() ==> (#[trigger] filled.entries[i]).track_id
                        == tracks[i].id
                &&& filled.current == Some(filled.entries[0].id)
                &&& filled.progress_seconds == 0
            }
            &&& after.playback_snapshot.current matches Some(entry) && entry.track_id
                == tracks[0].id
            &&& after.playback_snapshot.state == PlaybackState::Buffering
            &&& after.playback_snapshot.position_seconds == 0
            &&& after.playback_request_generation
                == before.playback_request_generation.wrapping_add(1)
        }),
{
    reveal(ControllerView::play_tracks_now);
    let queue = before.queue->0;
    let only = queue.with_only(tracks);
    replaced_queues_hold_the_tracks(queue, tracks);
    lemma_start_queue(before.with_queue(only));
    let filled = before.play_tracks_now(tracks).queue->0;
    let count = tracks.len() as int;
    assert forall|i: int| 0 <= i < count implies #[trigger] filled.entries[i]
        == only.entries[i] by {
        assert(filled.entries.take(count)[i] == filled.entries[i]);
    }
    assert forall|i: int| 0 <= i < count implies (#[trigger] filled.entries[i]).track_id
        == tracks[i].id by {
        assert(only.entries[i].track_id == tracks[i].id);
    }
}

proof fn lemma_start_queue(before: ControllerView)
    requires
        before.queue matches Some(queue) && queue.wf() && queue.current is Some,
    ensures
        ({
            let after = before.start_queue();
            let queue = before.queue->0;
            let count = queue.entries.len() as int;
            &&& after.queue matches Some(filled) && {
                &&& filled.entries.len() >= count
                &&& !before.auto_dj_enabled ==> filled.entries.len() == count
                &&& filled.entries.take(count) == queue.entries
                &&& filled.order.take(queue.order.len() as int) == queue.order
                &&& filled.current == queue.current
                &&& filled.progress_seconds == queue.progress_seconds
                &&& filled.server_id == queue.server_id
            }
            &&& after.playback_snapshot.current == before.current()
            &&& after.playback_snapshot.state == PlaybackState::Buffering
            &&& after.playback_snapshot.position_seconds == queue.progress_seconds
            &&& after.playback_request_generation
                == before.playback_request_generation.wrapping_add(1)
            &&& after.effects.last() matches EffectView::ResolveCurrent(request) && Some(
                request.entry,
            ) == before.current() && request.server_id == queue.server_id
        }),
{
    reveal(ControllerView::top_up);
    queues_in_order(before.queue->0);
    filling_adds_at_the_end(before);
    let filled = before.top_up();
    changed_queues_are_told_and_kept(filled, true);
    let shown = filled.show_queue(true);
    assert(shown.queue == filled.queue);
    assert(shown.current() == before.current());
    starting_plays_the_current_entry(shown);
}

/// What was chosen to be played takes the place of the queue: its tracks in their order, from
/// the occurrence that was chosen on, which is played from its beginning.
pub proof fn chosen_sources_replace_the_queue(
    before: ControllerView,
    replacement: QueueReplacementView,
)
    requires
        before.queue matches Some(queue) && queue.wf() && queue.next_number
            + replacement.items.len() <= u64::MAX && queue.filled(replacement) is Some,
    ensures
        ({
            let after = before.replace_queue(replacement);
            let count = replacement.items.len() as int;
            &&& after.queue matches Some(filled) && {
                &&& filled.entries.len() >= count
                &&& forall|i: int|
                    0 <= i < count ==> (#[trigger] filled.entries[i]).track_id
                        == replacement.items[i].track.id
                &&& filled.progress_seconds == 0
            }
            &&& after.playback_snapshot.current matches Some(entry) && entry.track_id
                == replacement.anchor.track_id
            &&& after.playback_snapshot.position_seconds == 0
        }),
{
    reveal(ControllerView::replace_queue);
    let queue = before.queue->0;
    let only = queue.filled(replacement)->0;
    filled_queues_hold_the_items(queue, replacement);
    crate::queue::filled_queues_are_in_order(queue, replacement);
    lemma_start_queue(before.with_queue(only));
    let filled = before.replace_queue(replacement).queue->0;
    let count = replacement.items.len() as int;
    assert forall|i: int| 0 <= i < count implies (#[trigger] filled.entries[i]).track_id
        == replacement.items[i].track.id by {
        assert(filled.entries.take(count)[i] == filled.entries[i]);
        assert(only.entries[i].track_id == replacement.items[i].track.id);
    }
}

/// An entry that is taken out of the queue is gone and nothing else is. Where it was not
/// current, what is played goes on; where it was, what followed it is played from its
/// beginning, or the player is stopped where nothing is left.
pub proof fn removing_plays_what_follows(before: ControllerView, at: int)
    requires
        before.queue matches Some(queue) && queue.wf() && 0 <= at < queue.entries.len(),
    ensures
        ({
            let queue = before.queue->0;
            let id = queue.entries[at].id;
            let turn = place(queue.order, id);
            let after = before.remove_entry(id);
            &&& after.queue matches Some(shorter) && {
                &&& shorter.entries == queue.entries.remove(at)
                &&& queue.order[turn] == id
                &&& shorter.order == queue.order.remove(turn)
                &&& queue.current != Some(id) ==> shorter.current == queue.current
                    && shorter.progress_seconds == queue.progress_seconds
                &&& queue.current == Some(id) && turn + 1 < queue.order.len() ==> shorter.current
                    == Some(queue.order[turn + 1])
            }
            &&& queue.current != Some(id) ==> after.playback_request_generation
                == before.playback_request_generation && after.playback_snapshot.state
                == before.playback_snapshot.state
            &&& queue.current == Some(id) && queue.entries.len() > 1 ==> {
                &&& after.playback_snapshot.current == after.current()
                &&& after.playback_snapshot.state == PlaybackState::Buffering
                &&& after.playback_snapshot.position_seconds == 0
                &&& after.effects.last() matches EffectView::ResolveCurrent(request) && Some(
                    request.entry,
                ) == after.current()
            }
            &&& queue.current == Some(id) && queue.entries.len() == 1 ==> {
                &&& after.effects.contains(EffectView::StopPlayer)
                &&& after.playback_snapshot.current is None
                &&& after.playback_snapshot.state == PlaybackState::Stopped
                &&& after.playback_request_generation != before.playback_request_generation
            }
        }),
{
    reveal(ControllerView::remove_entry);
    let queue = before.queue->0;
    let id = queue.entries[at].id;
    removed_entries_are_gone(queue, at);
    queues_in_order(queue);
    let shorter = queue.without(id);
    let removed = before.with_queue(shorter);
    crate::queue::removing_keeps_order(queue, at);
    queues_in_order(shorter);
    if queue.current != Some(id) {
        changed_queues_are_told_and_kept(removed, true);
    } else if shorter.current is Some {
        let skipped = removed.ask(EffectView::ActivitySkipped);
        changed_queues_are_told_and_kept(skipped, true);
        starting_plays_the_current_entry(skipped.show_queue(true));
    } else {
        let stopping = removed.ask(EffectView::ActivitySkipped).forget_requests().ask(
            EffectView::StopPlayer,
        ).ask(EffectView::ActivityCleared);
        changed_queues_are_told_and_kept(stopping, true);
        lemma_effects_stay(stopping, true);
        let wanted = before.effects.len() as int + 1;
        assert(stopping.effects[wanted] == EffectView::StopPlayer);
        assert(stopping.show_queue(true).effects[wanted] == EffectView::StopPlayer);
    }
}

proof fn lemma_effects_stay(before: ControllerView, prepare: bool)
    ensures
        before.show_queue(prepare).effects.len() >= before.effects.len(),
        forall|i: int|
            0 <= i < before.effects.len() ==> #[trigger] before.show_queue(prepare).effects[i]
                == before.effects[i],
{
    reveal(ControllerView::show_queue);
    reveal(ControllerView::prepare_next);
}

/// An entry that is chosen becomes current and is played from its beginning; the queue keeps
/// all its entries in their order.
pub proof fn activating_plays_the_entry(before: ControllerView, at: int)
    requires
        before.queue matches Some(queue) && queue.wf() && 0 <= at < queue.entries.len(),
    ensures
        ({
            let queue = before.queue->0;
            let entry = queue.entries[at];
            let after = before.activate_entry(entry.id);
            &&& after.queue matches Some(filled) && {
                &&& filled.current == Some(entry.id)
                &&& filled.progress_seconds == 0
                &&& filled.entries.take(queue.entries.len() as int) == queue.entries
                &&& filled.order.take(queue.order.len() as int) == queue.order
            }
            &&& after.playback_snapshot.current == Some(entry)
            &&& after.playback_snapshot.state == PlaybackState::Buffering
            &&& after.playback_snapshot.position_seconds == 0
            &&& after.effects.last() matches EffectView::ResolveCurrent(request) && request.entry
                == entry
        }),
{
    reveal(ControllerView::activate_entry);
    let queue = before.queue->0;
    let entry = queue.entries[at];
    queues_in_order(queue);
    assert(ids(queue.entries)[at] == entry.id);
    assert(ids(queue.entries).contains(entry.id));
    crate::queue::lemma_place_of(ids(queue.entries), at);
    crate::queue::choosing_keeps_order(queue, at);
    let activated = before.with_queue(queue.at(entry.id));
    lemma_start_queue(activated);
    lemma_start_queue(activated.ask(EffectView::ActivitySkipped));
}

/// An entry that is not there is neither played nor moved, and that is told.
pub proof fn unknown_entries_are_told(before: ControllerView, id: Seq<char>)
    requires
        before.queue matches Some(queue) && forall|i: int|
            0 <= i < queue.entries.len() ==> (#[trigger] queue.entries[i]).id != id,
    ensures
        before.activate_entry(id) == before.fail(crate::controller::queue_commands::NO_ENTRY@),
        before.move_entry(id) == before.fail(crate::controller::queue_commands::NO_ENTRY@),
{
    reveal(ControllerView::activate_entry);
    reveal(ControllerView::move_entry);
    assert(!ids(before.queue->0.entries).contains(id));
}

/// An entry that is moved follows the current one in the play order; what is current and what
/// is played stays, and the other entries keep their order.
pub proof fn moving_puts_the_entry_next(before: ControllerView, at: int)
    requires
        before.queue matches Some(queue) && queue.wf() && 0 <= at < queue.entries.len()
            && queue.current != Some(queue.entries[at].id),
    ensures
        ({
            let queue = before.queue->0;
            let entry = queue.entries[at];
            let after = before.move_entry(entry.id);
            &&& after.queue matches Some(moved) && {
                &&& moved.current == queue.current
                &&& moved.following() == Some(entry.id)
                &&& moved.entries.len() == queue.entries.len()
                &&& moved.progress_seconds == queue.progress_seconds
                &&& moved.entries[moved.current_index() + 1] == entry
                &&& moved.entries.remove(moved.current_index() + 1) == queue.entries.remove(at)
                &&& moved.order[moved.current_turn() + 1] == entry.id
                &&& moved.order.remove(moved.current_turn() + 1) == queue.order.remove(
                    place(queue.order, entry.id),
                )
            }
            &&& after.playback_request_generation == before.playback_request_generation
        }),
{
    reveal(ControllerView::move_entry);
    let queue = before.queue->0;
    let entry = queue.entries[at];
    assert(ids(queue.entries)[at] == entry.id);
    assert(ids(queue.entries).contains(entry.id));
    moved_entries_are_played_next(queue, at);
    changed_queues_are_told_and_kept(before.with_queue(queue.with_moved(entry.id)), true);
}

/// Clearing leaves nothing in the queue and nothing playing: the player is asked to stop, and
/// what was asked for before is late.
pub proof fn clearing_empties_the_queue(before: ControllerView)
    requires
        before.queue is Some,
    ensures
        ({
            let queue = before.queue->0;
            let after = before.clear_queue();
            &&& after.queue matches Some(cleared) && {
                &&& cleared.entries.len() == 0
                &&& cleared.order.len() == 0
                &&& cleared.current is None
                &&& cleared.progress_seconds == 0
                &&& cleared.server_id == queue.server_id
                &&& cleared.repeat_mode == queue.repeat_mode
                &&& cleared.shuffle == queue.shuffle
            }
            &&& after.playback_snapshot.current is None
            &&& after.playback_snapshot.state == PlaybackState::Stopped
            &&& after.effects.contains(EffectView::StopPlayer)
            &&& queue.current is Some ==> after.playback_request_generation
                != before.playback_request_generation
        }),
{
    reveal(ControllerView::clear_queue);
    let queue = before.queue->0;
    let cleared = before.with_queue(queue.cleared());
    let stopping = (if queue.current is Some {
        cleared.forget_requests().ask(EffectView::ActivitySkipped).ask(
            EffectView::ActivityCleared,
        )
    } else {
        cleared
    }).ask(EffectView::StopPlayer);
    changed_queues_are_told_and_kept(stopping, true);
    lemma_effects_stay(stopping, true);
    let last = stopping.effects.len() - 1;
    assert(stopping.effects[last] == EffectView::StopPlayer);
    assert(stopping.show_queue(true).effects[last] == EffectView::StopPlayer);
}

/// The shuffle switch turns shuffling on where it is off and off where it is on. What is in the
/// queue and what is current stays; every entry keeps one turn, the current one comes first
/// where it is shuffled, and the queue's own order is played where it is not.
pub proof fn the_shuffle_switch_changes_the_order_alone(before: ControllerView)
    requires
        before.queue matches Some(queue) && queue.wf(),
    ensures
        ({
            let queue = before.queue->0;
            let after = before.toggle_shuffle();
            &&& after.queue matches Some(toggled) && {
                &&& toggled.shuffle.enabled == !queue.shuffle.enabled
                &&& toggled.entries == queue.entries
                &&& toggled.current == queue.current
                &&& toggled.progress_seconds == queue.progress_seconds
                &&& toggled.repeat_mode == queue.repeat_mode
                &&& toggled.order.len() == queue.entries.len()
                &&& toggled.order.no_duplicates()
                &&& forall|i: int|
                    0 <= i < queue.entries.len() ==> toggled.order.contains(
                        (#[trigger] queue.entries[i]).id,
                    )
                &&& toggled.shuffle.enabled && queue.current is Some ==> toggled.order[0]
                    == queue.current->0
                &&& !toggled.shuffle.enabled ==> forall|i: int|
                    0 <= i < queue.entries.len() ==> toggled.order[i] == (
                    #[trigger] queue.entries[i]).id
            }
            &&& after.playback_snapshot.shuffle_enabled == !queue.shuffle.enabled
            &&& !queue.shuffle.enabled ==> after.random_seed == crate::shuffle::next_seed(
                before.random_seed,
            )
        }),
{
    reveal(ControllerView::toggle_shuffle);
    reveal(ControllerView::show_queue);
    reveal(ControllerView::prepare_next);
    let queue = before.queue->0;
    queues_in_order(queue);
    let drawn = if queue.shuffle.enabled {
        before
    } else {
        before.drawn()
    };
    let toggled = queue.with_toggled_shuffle(drawn.random_seed);
    shuffling_changes_the_order_alone(queue, toggled.shuffle);
    changed_queues_are_told_and_kept(drawn.with_queue(toggled), true);
}

/// The repeat switch goes from off to all, from all to one and from one to off, and changes
/// nothing else in the queue.
pub proof fn the_repeat_switch_goes_round(before: ControllerView)
    requires
        before.queue is Some,
    ensures
        ({
            let queue = before.queue->0;
            let after = before.cycle_repeat();
            let mode = after.queue->0.repeat_mode;
            &&& after.queue is Some
            &&& queue.repeat_mode == RepeatMode::Off ==> mode == RepeatMode::All
            &&& queue.repeat_mode == RepeatMode::All ==> mode == RepeatMode::One
            &&& queue.repeat_mode == RepeatMode::One ==> mode == RepeatMode::Off
            &&& after.queue == Some(QueueView { repeat_mode: mode, ..queue })
            &&& after.playback_snapshot.repeat_mode == mode
        }),
{
    reveal(ControllerView::cycle_repeat);
    let queue = before.queue->0;
    let next = QueueView {
        repeat_mode: crate::controller::queue_commands::next_repeat_mode(queue.repeat_mode),
        ..queue
    };
    changed_queues_are_told_and_kept(before.with_queue(next), true);
}

/// Going on plays the entry of the next turn from its beginning, where there is one.
pub proof fn next_plays_the_following_entry(before: ControllerView)
    requires
        before.queue matches Some(queue) && queue.wf() && queue.current is Some
            && queue.current_turn() + 1 < queue.order.len(),
    ensures
        ({
            let queue = before.queue->0;
            let after = before.next_track();
            let id = queue.order[queue.current_turn() + 1];
            &&& queue.order[queue.current_turn()] == queue.current->0
            &&& after.queue matches Some(moved) && {
                &&& moved.current == Some(id)
                &&& moved.progress_seconds == 0
                &&& moved.entries.take(queue.entries.len() as int) == queue.entries
                &&& moved.order.take(queue.order.len() as int) == queue.order
            }
            &&& after.playback_snapshot.current matches Some(entry) && entry.id == id
            &&& after.playback_snapshot.state == PlaybackState::Buffering
            &&& after.playback_snapshot.position_seconds == 0
            &&& after.effects.last() matches EffectView::ResolveCurrent(request)
                && request.entry.id == id
        }),
{
    reveal(ControllerView::next_track);
    reveal(ControllerView::following);
    reveal(ControllerView::with_moved_queue);
    let queue = before.queue->0;
    let turn = queue.current_turn();
    queues_in_order(queue);
    filling_adds_at_the_end(before);
    let filled = before.top_up();
    let longer = filled.queue->0;
    let count = queue.order.len() as int;
    assert(longer.order[turn + 1] == longer.order.take(count)[turn + 1]);
    assert(longer.following() == Some(queue.order[turn + 1]));
    let moved = filled.with_moved_queue(filled.following());
    lemma_step_to(queue, longer, turn + 1);
    changed_queues_are_told_and_kept(moved, true);
    starting_plays_the_current_entry(moved.show_queue(true));
}

proof fn lemma_step_to(queue: QueueView, longer: QueueView, turn: int)
    requires
        queue.wf(),
        0 <= turn < queue.order.len(),
        longer.entries.len() >= queue.entries.len(),
        longer.entries.take(queue.entries.len() as int) == queue.entries,
        longer.order.len() >= queue.order.len(),
        longer.order.take(queue.order.len() as int) == queue.order,
    ensures
        longer.at(queue.order[turn]).current_entry() matches Some(entry) && entry.id
            == queue.order[turn],
{
    queues_in_order(queue);
    let id = queue.order[turn];
    assert(queue.order.contains(id));
    let list = ids(queue.entries);
    lemma_place(list, id);
    let at = place(list, id);
    assert(longer.entries.take(queue.entries.len() as int)[at] == longer.entries[at]);
    assert(ids(longer.entries)[at] == id);
    assert(ids(longer.entries).contains(id));
    lemma_place(ids(longer.entries), id);
    let found = place(ids(longer.entries), id);
    assert(ids(longer.entries)[found] == longer.entries[found].id);
}

/// Going back plays the entry of the turn before from its beginning; more than ten seconds into
/// an entry, or at the first turn, it leads to the beginning of the current one instead.
pub proof fn previous_plays_the_preceding_entry(before: ControllerView)
    requires
        before.queue matches Some(queue) && queue.wf() && queue.current is Some,
    ensures
        ({
            let queue = before.queue->0;
            let turn = queue.current_turn();
            let after = before.previous_track();
            &&& queue.order[turn] == queue.current->0
            &&& before.playback_snapshot.position_seconds > 10 || turn == 0 ==> {
                &&& after.queue == Some(QueueView { progress_seconds: 0, ..queue })
                &&& after.effects == before.effects.push(
                    EffectView::Playback(PlaybackCommandView::SeekMillis(0)),
                )
            }
            &&& before.playback_snapshot.position_seconds <= 10 && turn > 0 ==> {
                &&& after.queue matches Some(moved) && moved.current == Some(
                    queue.order[turn - 1],
                ) && moved.progress_seconds == 0
                &&& after.playback_snapshot.current matches Some(entry) && entry.id
                    == queue.order[turn - 1]
                &&& after.playback_snapshot.position_seconds == 0
            }
        }),
{
    reveal(ControllerView::previous_track);
    reveal(ControllerView::preceding);
    reveal(ControllerView::seek_millis);
    reveal(ControllerView::with_progress);
    reveal(ControllerView::with_moved_queue);
    let queue = before.queue->0;
    let turn = queue.current_turn();
    queues_in_order(queue);
    if before.playback_snapshot.position_seconds <= 10 && turn > 0 {
        let id = queue.order[turn - 1];
        assert(queue.preceding() == Some(id));
        let moved = before.with_moved_queue(before.preceding());
        assert(queue.entries.take(queue.entries.len() as int) =~= queue.entries);
        assert(queue.order.take(queue.order.len() as int) =~= queue.order);
        lemma_step_to(queue, queue, turn - 1);
        crate::queue::turning_keeps_order(queue, turn - 1);
        filling_adds_at_the_end(moved);
        let filled = moved.top_up();
        changed_queues_are_told_and_kept(filled, true);
        starting_plays_the_current_entry(filled.show_queue(true));
    }
}

/// Once an entry has ended, the next turn is played, or the same entry again where one is
/// repeated, or the first turn after the last where all is; each from its beginning.
pub proof fn ended_entries_are_followed(before: ControllerView)
    requires
        before.queue matches Some(queue) && queue.wf() && queue.current is Some,
    ensures
        ({
            let queue = before.queue->0;
            let turn = queue.current_turn();
            let after = before.end_of_stream();
            let next = if queue.repeat_mode == RepeatMode::One {
                Some(queue.order[turn])
            } else if turn + 1 < queue.order.len() {
                Some(queue.order[turn + 1])
            } else if queue.repeat_mode == RepeatMode::All {
                Some(queue.order[0])
            } else {
                None
            };
            &&& queue.order[turn] == queue.current->0
            &&& next matches Some(id) ==> {
                &&& after.queue matches Some(moved) && moved == (QueueView {
                    current: Some(id),
                    progress_seconds: 0,
                    ..queue
                })
                &&& after.playback_snapshot.current matches Some(entry) && entry.id == id
                &&& after.playback_snapshot.state == PlaybackState::Buffering
                &&& after.playback_snapshot.position_seconds == 0
            }
            &&& next is None && !before.auto_dj_enabled ==> {
                &&& after.queue == Some(QueueView { progress_seconds: 0, ..queue })
                &&& after.effects.last() == EffectView::Playback(PlaybackCommandView::Stop)
            }
        }),
{
    reveal(ControllerView::end_of_stream);
    reveal(ControllerView::after_end);
    reveal(ControllerView::report);
    reveal(ControllerView::with_moved_queue);
    reveal(ControllerView::stop);
    reveal(ControllerView::with_progress);
    reveal(ControllerView::top_up);
    reveal(ControllerView::tops_up);
    let queue = before.queue->0;
    let turn = queue.current_turn();
    queues_in_order(queue);
    let ended = before.report(PlaybackReportKind::Stopped, false).ask(EffectView::ActivityEnded);
    assert(ended.queue == before.queue);
    if queue.after_end() is Some {
        let next_turn = if queue.repeat_mode == RepeatMode::One {
            turn
        } else if turn + 1 < queue.order.len() {
            turn + 1
        } else {
            0
        };
        assert(queue.after_end() == Some(queue.order[next_turn]));
        assert(queue.entries.take(queue.entries.len() as int) =~= queue.entries);
        assert(queue.order.take(queue.order.len() as int) =~= queue.order);
        lemma_step_to(queue, queue, next_turn);
        let moved = ended.with_moved_queue(ended.after_end());
        changed_queues_are_told_and_kept(moved, false);
        starting_plays_the_current_entry(moved.show_queue(false));
    }
}

/// The play switch pauses what plays, resumes what is paused and starts what is stopped.
pub proof fn the_play_switch_pauses_and_resumes(before: ControllerView)
    ensures
        before.playback_snapshot.state == PlaybackState::Playing || before.playback_snapshot.state
            == PlaybackState::Buffering ==> before.play_pause() == before.ask(
            EffectView::Playback(PlaybackCommandView::Pause),
        ),
        before.playback_snapshot.state == PlaybackState::Paused ==> before.play_pause()
            == before.ask(EffectView::Playback(PlaybackCommandView::Resume)),
        before.playback_snapshot.state == PlaybackState::Stopped && before.current() is Some
            ==> before.play_pause().playback_snapshot.current == before.current()
            && before.play_pause().playback_snapshot.state == PlaybackState::Buffering,
{
    if before.playback_snapshot.state == PlaybackState::Stopped && before.current() is Some {
        starting_plays_the_current_entry(before);
    }
}

/// To stop asks the player to stop and sets the queue back to the beginning of its entry; to
/// seek asks for the wanted time and keeps it in whole seconds.
pub proof fn stopping_and_seeking_ask_the_player(before: ControllerView, millis: u64)
    requires
        before.queue is Some,
        millis / 1000 <= u32::MAX,
    ensures
        before.stop().effects.last() == EffectView::Playback(PlaybackCommandView::Stop),
        before.stop().queue == Some(QueueView { progress_seconds: 0, ..before.queue->0 }),
        before.seek_millis(millis).effects == before.effects.push(
            EffectView::Playback(PlaybackCommandView::SeekMillis(millis)),
        ),
        before.seek_millis(millis).queue == Some(
            QueueView { progress_seconds: (millis / 1000) as u32, ..before.queue->0 },
        ),
{
    reveal(ControllerView::stop);
    reveal(ControllerView::report);
    reveal(ControllerView::with_progress);
    reveal(ControllerView::seek_millis);
}

/// What the player has done is known: that it paused, went on, stopped or moved to a time. A
/// stop also ends at the beginning of the entry.
pub proof fn answers_of_the_player_are_known(before: ControllerView, millis: u64)
    requires
        before.queue matches Some(queue) && queue.wf() && queue.current is Some,
        millis / 1000 <= u32::MAX,
    ensures
        before.command_accepted(PlaybackCommandView::Pause).playback_snapshot.state
            == PlaybackState::Paused,
        before.command_accepted(PlaybackCommandView::Resume).playback_snapshot.state
            == PlaybackState::Playing,
        before.command_accepted(PlaybackCommandView::Stop).playback_snapshot.state
            == PlaybackState::Stopped,
        ({
            let moved = before.command_accepted(PlaybackCommandView::SeekMillis(millis));
            &&& moved.playback_snapshot.position_millis == millis
            &&& moved.playback_snapshot.position_seconds == millis / 1000
            &&& moved.playback_snapshot.state == before.playback_snapshot.state
            &&& moved.playback_snapshot.current == before.current()
            &&& moved.queue == before.queue
        }),
        before.command_accepted(PlaybackCommandView::Pause).queue == before.queue,
        before.command_accepted(PlaybackCommandView::Pause).playback_snapshot.position_millis
            == before.playback_snapshot.position_millis,
        before.command_accepted(PlaybackCommandView::Resume).queue == before.queue,
        before.command_accepted(PlaybackCommandView::Resume).store == before.store,
        before.command_accepted(PlaybackCommandView::Stop).queue == before.queue,
{
    reveal(ControllerView::paused);
    reveal(ControllerView::resumed);
    reveal(ControllerView::stopped);
    reveal(ControllerView::moved_to);
    reveal(ControllerView::in_state);
    reveal(ControllerView::at_position);
    reveal(ControllerView::report);
    queues_in_order(before.queue->0);
    let halted = before.in_state(PlaybackState::Stopped).at_position(0, 0);
    changed_queues_are_told_and_kept(halted, true);
}

/// A volume that the player took is shown and kept as it was set, and so is muting; neither
/// changes the other, nor any other setting.
pub proof fn volumes_are_kept_as_they_were_set(
    before: ControllerView,
    volume: VolumeView,
    muted: bool,
)
    requires
        before.store.fault is None,
    ensures
        ({
            let louder = before.command_accepted(PlaybackCommandView::SetVolume(volume));
            let quiet = before.command_accepted(PlaybackCommandView::SetMuted(muted));
            let settings = before.store.settings;
            &&& louder.playback_snapshot.volume == volume
            &&& louder.playback_snapshot.muted == before.playback_snapshot.muted
            &&& louder.store.settings == (AppSettingsView {
                playback: PlaybackSettingsView { volume, ..settings.playback },
                ..settings
            })
            &&& quiet.playback_snapshot.muted == muted
            &&& quiet.playback_snapshot.volume == before.playback_snapshot.volume
            &&& quiet.store.settings == (AppSettingsView {
                playback: PlaybackSettingsView { muted, ..settings.playback },
                ..settings
            })
            &&& louder.queue == before.queue && quiet.queue == before.queue
            &&& louder.store.libraries == before.store.libraries
            &&& quiet.store.libraries == before.store.libraries
        }),
{
    reveal(ControllerView::volume_set);
    reveal(ControllerView::muted_set);
    reveal(ControllerView::save_or_fail);
    reveal(ControllerView::sounding);
    reveal(crate::controller::playback_commands::with_volume);
    reveal(crate::controller::playback_commands::with_muted);
}

/// Changed settings of the player are kept as given and handed to it, and nothing else changes.
pub proof fn player_settings_are_kept_and_handed_on(
    before: ControllerView,
    playback: PlaybackSettingsView,
)
    requires
        before.store.fault is None,
    ensures
        ({
            let after = before.update_playback_settings(playback);
            &&& after.store.settings == (AppSettingsView { playback, ..before.store.settings })
            &&& after.store.libraries == before.store.libraries
            &&& after.store.servers == before.store.servers
            &&& after.effects == before.effects.push(
                EffectView::Playback(PlaybackCommandView::UpdateSettings(playback)),
            )
            &&& after.queue == before.queue
            &&& after.events == before.events
        }),
{
    reveal(ControllerView::update_playback_settings);
    assert(before.store.settings == AppSettingsView {
        playback: before.store.settings.playback,
        ..before.store.settings
    });
}

/// A stream that came in time is handed to the player, for the entry that it was asked for and
/// from where that was left; one that cannot be had leaves the player stopped and is told.
pub proof fn streams_in_time_are_played(
    before: ControllerView,
    request: CurrentStreamRequestView,
    stream: StreamDescriptorView,
    error: Seq<char>,
)
    requires
        before.playback_request_generation == request.generation,
        before.queue matches Some(queue) && queue.server_id == request.server_id,
        before.current() == Some(request.entry),
    ensures
        before.play_stream(request, stream).effects.drop_last() == before.effects,
        before.play_stream(request, stream).effects.last() matches EffectView::PlayStream {
            request: asked,
            stream: played,
            command,
        } && asked == request && played == stream && (command matches
            PlaybackCommandView::PlayPrepared { item, start_position_seconds, settings, .. }
            && item.track.id == request.entry.track_id && item.stream == stream
            && start_position_seconds == request.position_seconds && settings == request.settings),
        before.play_stream(request, stream).playback_snapshot == before.playback_snapshot,
        before.stream_failed(request, error).playback_snapshot.state == PlaybackState::Stopped,
        before.stream_failed(request, error).playback_snapshot.last_error == Some(error),
        before.stream_failed(request, error).events == before.events.push(
            ControllerEventView::Error(error),
        ),
        before.stream_failed(request, error).queue == before.queue,
{
    reveal(ControllerView::play_stream);
    assert(before.play_stream(request, stream).effects.drop_last() =~= before.effects);
}

/// What the player tells is taken over: its state, how long the entry is, how much is buffered,
/// how loud it is and why it failed; the place that it reached is kept in the queue, unless it
/// tells it of another track.
pub proof fn events_of_the_player_are_taken_over(
    before: ControllerView,
    state: PlaybackState,
    track_id: Option<Seq<char>>,
    seconds: u32,
    millis: u64,
    percent: u8,
    volume: VolumeView,
    muted: bool,
    error: Seq<char>,
)
    requires
        before.queue is Some,
        before.playback_snapshot.last_error is None,
        before.playback_snapshot.current is Some,
    ensures
        before.after_event(
            PlaybackEventView::StateChanged(state),
            false,
        ).playback_snapshot.state == state,
        before.after_event(
            PlaybackEventView::Buffering(percent),
            false,
        ).playback_snapshot.buffering_percent == Some(percent),
        before.after_event(
            PlaybackEventView::VolumeChanged { volume, muted },
            false,
        ).playback_snapshot.volume == volume,
        before.after_event(
            PlaybackEventView::VolumeChanged { volume, muted },
            false,
        ).playback_snapshot.muted == muted,
        before.after_event(
            PlaybackEventView::Error(error),
            false,
        ).playback_snapshot.last_error == Some(error),
        before.after_event(
            PlaybackEventView::Error(error),
            false,
        ).playback_snapshot.state == PlaybackState::Stopped,
        ({
            let known = before.playback_snapshot.current->0.track_id;
            let moved = before.after_event(
                PlaybackEventView::PositionChanged { track_id, seconds, millis },
                false,
            );
            let timed = before.after_event(
                PlaybackEventView::DurationChanged { track_id, seconds },
                false,
            );
            &&& track_id is None || track_id == Some(known) ==> {
                &&& moved.playback_snapshot.position_seconds == seconds
                &&& moved.playback_snapshot.position_millis == millis
                &&& moved.queue == Some(
                    QueueView { progress_seconds: seconds, ..before.queue->0 },
                )
                &&& timed.playback_snapshot.duration_seconds == seconds
            }
            &&& track_id is Some && track_id != Some(known) ==> moved == before && timed == before
        }),
        before.after_event(PlaybackEventView::EndOfStream, false) == before.end_of_stream(),
{
    reveal(ControllerView::in_state);
    reveal(ControllerView::sounding);
    reveal(ControllerView::player_failed);
    reveal(ControllerView::report);
    reveal(ControllerView::reached);
    reveal(ControllerView::with_progress);
    reveal(ControllerView::at_position);
}

/// The place that was reached is kept and reported at most once in ten seconds.
pub proof fn progress_is_kept_every_ten_seconds(before: ControllerView, first: u32, second: u32)
    requires
        before.queue is Some,
        before.store.fault is None,
    ensures
        ({
            let queue = before.queue->0;
            let once = before.persist_progress(first);
            let known = before.last_progress_snapshot matches Some(mark) && mark.server_id
                == queue.server_id && mark.bucket == first / 10;
            &&& !known ==> once.store.library(queue.server_id).queue == Some(queue.snapshot())
            &&& known ==> once == before
            &&& first / 10 == second / 10 ==> once.persist_progress(second) == once
            &&& first / 10 != second / 10 ==> once.persist_progress(second).last_progress_snapshot
                != once.last_progress_snapshot
        }),
{
    queues_are_read_back(before.store, before.queue->0.snapshot());
}

/// A track that the player went on to by itself becomes current, from its beginning, where it
/// is the one that follows; another one is not taken over.
pub proof fn prepared_tracks_become_current(before: ControllerView, track: PlaybackTrackView)
    requires
        before.queue matches Some(queue) && queue.wf() && queue.current is Some
            && queue.repeat_mode != RepeatMode::One && queue.current_turn() + 1
            < queue.order.len(),
    ensures
        ({
            let queue = before.queue->0;
            let id = queue.order[queue.current_turn() + 1];
            let after = before.prepared_started(track);
            &&& queue.entry(id).track_id != track.id ==> after == before
            &&& queue.entry(id).track_id == track.id ==> {
                &&& after.queue == Some(
                    QueueView { current: Some(id), progress_seconds: 0, ..queue },
                )
                &&& after.playback_snapshot.current matches Some(entry) && entry.id == id
                &&& after.playback_snapshot.state == PlaybackState::Playing
                &&& after.playback_snapshot.position_seconds == 0
                &&& after.playback_snapshot.duration_seconds == track.duration_seconds
            }
        }),
{
    reveal(ControllerView::prepared_started);
    reveal(ControllerView::is_next);
    reveal(ControllerView::after_end);
    reveal(ControllerView::report);
    reveal(ControllerView::with_moved_queue);
    reveal(ControllerView::playing);
    reveal(ControllerView::begin_activity);
    reveal(ControllerView::top_up_later);
    reveal(ControllerView::prepare_next);
    reveal(ControllerView::request_waveform);
    let queue = before.queue->0;
    let turn = queue.current_turn();
    queues_in_order(queue);
    if before.is_next(track.id) {
        let ended = before.report(PlaybackReportKind::Stopped, false).ask(
            EffectView::ActivityEnded,
        );
        let moved = ended.with_moved_queue(ended.after_end());
        assert(queue.entries.take(queue.entries.len() as int) =~= queue.entries);
        assert(queue.order.take(queue.order.len() as int) =~= queue.order);
        lemma_step_to(queue, queue, turn + 1);
        changed_queues_are_told_and_kept(moved, false);
    }
}

/// What is played is told to the server it comes from, with its place and the player's state,
/// unless that is private or the source has nobody to tell.
pub proof fn reports_tell_what_is_played(
    before: ControllerView,
    kind: PlaybackReportKind,
    failed: bool,
)
    requires
        before.store.fault is None,
        !before.store.settings.private_mode,
        before.current() is Some,
        before.playback_snapshot.current is Some,
        before.store.active_server() matches Some(saved) && saved.server.id
            == before.queue->0.server_id && saved.server.provider != "fake"@
            && saved.server.provider != "local"@,
    ensures
        ({
            let after = before.report(kind, failed);
            let player = before.playback_snapshot;
            &&& after.effects.last() matches EffectView::Report { server_id, report } && {
                &&& server_id == before.queue->0.server_id
                &&& report.kind == kind
                &&& report.track_id == player.current->0.track_id
                &&& report.position_seconds == player.position_seconds
                &&& report.paused == (player.state == PlaybackState::Paused)
                &&& report.muted == player.muted
                &&& report.volume == player.volume
                &&& report.shuffle == player.shuffle_enabled
                &&& report.repeat_one == (player.repeat_mode == RepeatMode::One)
                &&& report.repeat_all == (player.repeat_mode == RepeatMode::All)
                &&& report.failed == failed
            }
            &&& after.effects.len() == before.effects.len() + 2
            &&& after.queue == before.queue
            &&& after.store == before.store
            &&& after.events == before.events
        }),
{
    reveal(ControllerView::report);
}

/// What was chosen is played as it was chosen: a single track alone, and an album of up to a
/// hundred tracks with all its tracks in their order, from the first one on.
pub proof fn chosen_albums_are_played_from_their_first_track(
    before: ControllerView,
    album_id: Seq<char>,
    tracks: Seq<TrackView>,
    folder_id: Option<Seq<char>>,
)
    requires
        before.queue matches Some(queue) && queue.wf() && queue.next_number + tracks.len()
            <= u64::MAX,
        0 < tracks.len() <= 100,
    ensures
        ({
            let after = before.play_activation(
                crate::controller::queue_commands::album_activation(album_id, tracks, folder_id),
            );
            &&& after.queue matches Some(filled) && {
                &&& filled.entries.len() >= tracks.len()
                &&& forall|i: int|
                    0 <= i < tracks.len() ==> (#[trigger] filled.entries[i]).track_id
                        == tracks[i].id
                &&& filled.progress_seconds == 0
            }
            &&& after.playback_snapshot.current matches Some(entry) && entry.track_id
                == tracks[0].id
            &&& after.playback_snapshot.position_seconds == 0
        }),
        ({
            let after = before.play_activation(
                (crate::model::activation::PlayActivationView {
                    action: crate::model::activation::PlayAction::ReplaceNow,
                    target: crate::model::activation::PlayTargetView::TrackOnly(tracks[0]),
                }),
            );
            after == before.play_tracks_now(seq![tracks[0]])
        }),
{
    reveal(ControllerView::play_activation);
    let activation = crate::controller::queue_commands::album_activation(
        album_id,
        tracks,
        folder_id,
    );
    let items = activation.target->LoadedSource_items;
    let source_key = activation.target->LoadedSource_source_key;
    let completeness = activation.target->LoadedSource_completeness;
    crate::play_activation::chosen_sources_are_queued_in_their_order(
        source_key,
        completeness,
        items,
        0,
    );
    let target = crate::play_activation::normalized_target(activation);
    let replacement = target->Ok_0->Replacement_0;
    let queue = before.queue->0;
    assert(replacement.items.len() == tracks.len());
    assert forall|i: int| 0 <= i < tracks.len() implies (
    #[trigger] replacement.items[i]).track == tracks[i] by {
        assert(items[i].track == tracks[i]);
    }
    filled_queues_hold_the_items(queue, replacement);
    assert(replacement.items[0].track.id == replacement.anchor.track_id);
    assert(replacement.items[0].source_index == replacement.anchor.source_index);
    assert(replacement.items[0].source_item_id == replacement.anchor.source_item_id);
    assert(queue.filled(replacement) is Some);
    chosen_sources_replace_the_queue(before, replacement);
}

/// Tracks that are drawn at random are different places of the library of the shown source, as
/// many as were asked for where there are.
pub proof fn drawn_tracks_are_from_the_shown_library(before: ControllerView, count: usize, at: int)
    requires
        before.store.active_server() is Some,
        0 <= at < before.random_tracks(count).len(),
    ensures
        ({
            let library = before.store.library(before.store.active_server()->0.server.id);
            &&& library.tracks.contains(before.random_tracks(count)[at])
            &&& before.random_tracks(count).len() == (if library.tracks.len() < count {
                library.tracks.len() as int
            } else {
                count as int
            })
        }),
{
    reveal(ControllerView::random_tracks);
    let library = before.store.library(before.store.active_server()->0.server.id);
    let seed = crate::shuffle::next_seed(before.random_seed);
    let drawn = crate::shuffle::shuffled(library.tracks, seed);
    crate::shuffle::shuffling_keeps_all(library.tracks, seed);
    let track = before.random_tracks(count)[at];
    assert(track == drawn[at]);
    assert(drawn.contains(drawn[at]));
    drawn.to_multiset_ensures();
    library.tracks.to_multiset_ensures();
    assert(drawn.to_multiset().count(track) > 0);
    assert(library.tracks.to_multiset().count(track) > 0);
}

/// Once the player took a stream, what follows is prepared where anything does, and the
/// waveform of the entry is looked for where waveforms are shown.
pub proof fn accepted_streams_prepare_what_follows(
    before: ControllerView,
    request: CurrentStreamRequestView,
    stream: StreamDescriptorView,
)
    ensures
        ({
            let after = before.stream_accepted(request, stream);
            &&& request.waveform_enabled ==> (after.effects.last() matches
                EffectView::FindWaveform(search) && search.request.track_id
                == request.entry.track_id && search.request.server_id == request.server_id
                && search.stream == Some(stream))
            &&& !request.waveform_enabled && request.has_next ==> after == before.prepare_next()
            &&& !request.waveform_enabled && !request.has_next ==> after == before
            &&& after.queue == before.queue
            &&& after.store == before.store
        }),
{
    reveal(ControllerView::stream_accepted);
    reveal(ControllerView::prepare_next);
}

/// The automatic filling adds tracks only where fewer entries than wanted are left after the
/// current one, and only tracks that are not in the queue, ten at most.
pub proof fn filling_adds_new_tracks_where_few_are_left(before: ControllerView, at: int)
    requires
        before.queue matches Some(queue) && queue.wf() && queue.current is Some
            && queue.next_number + before.added_tracks().len() <= u64::MAX,
        before.store.fault is None,
    ensures
        ({
            let queue = before.queue->0;
            let left = queue.order.len() - 1 - queue.current_turn();
            let wanted = crate::cached_reads::active_settings(
                before.store,
            ).auto_dj_refill_threshold;
            let filled = before.top_up().queue->0;
            let count = queue.entries.len() as int;
            &&& before.auto_dj_enabled && left < wanted ==> filled.entries.len() == count
                + before.added_tracks().len()
            &&& !before.auto_dj_enabled || left >= wanted ==> filled == queue
            &&& filled.entries.len() <= count + 10
            &&& count <= at < filled.entries.len() ==> forall|i: int|
                0 <= i < count ==> (#[trigger] queue.entries[i]).track_id
                    != filled.entries[at].track_id
        }),
{
    reveal(ControllerView::top_up);
    reveal(ControllerView::wants_tracks);
    reveal(ControllerView::added_tracks);
    let queue = before.queue->0;
    let count = queue.entries.len() as int;
    queues_in_order(queue);
    let added = before.added_tracks();
    tracks_are_added_in_their_order(queue, added);
    let filled = before.top_up().queue->0;
    let queued = queue.entries.map_values(
        crate::controller::auto_dj_commands::track_of_entry(),
    );
    let library = before.store.library(queue.server_id);
    let source = crate::cover_art_policy::bound_tracks(
        crate::table::page_of(library.tracks, 0, 5000),
        crate::cached_reads::active_settings(before.store),
    );
    let seed = crate::shuffle::next_seed(before.random_seed);
    let current = queue.current_entry()->0;
    let drawn = crate::auto_dj::candidates(source, current, queued, seed);
    crate::auto_dj::ten_tracks_are_added_where_there_are(source, current, queued, seed);
    assert(added.len() == drawn.len());
    if count <= at < filled.entries.len() {
        let place = at - count;
        assert(filled.entries[count + place].track_id == added[place].id);
        assert(added[place].id == drawn[place].id);
        crate::auto_dj::added_tracks_are_new(source, current, queued, seed, place);
        assert forall|i: int| 0 <= i < count implies (#[trigger] queue.entries[i]).track_id
            != filled.entries[at].track_id by {
            assert(queued[i] == queue.entries[i].track_id);
            assert(queued.contains(queued[i]));
        }
    }
}

/// Tracks drawn at random are played at once, next or last, as was asked.
pub proof fn drawn_tracks_are_played_as_asked(
    before: ControllerView,
    request: crate::model::events::RandomPlayRequestView,
)
    requires
        before.store.fault is None,
    ensures
        ({
            let tracks = before.random_tracks(request.count);
            let after = before.play_random(request);
            let drawn = before.drawn();
            &&& tracks.len() == 0 ==> after.queue == before.queue && after.effects
                == before.effects
            &&& tracks.len() > 0 && request.action
                == crate::model::events::RandomPlayAction::PlayNow ==> after
                == drawn.play_tracks_now(tracks)
            &&& tracks.len() > 0 && request.action
                == crate::model::events::RandomPlayAction::PlayNext ==> after
                == drawn.play_all_next(tracks)
            &&& tracks.len() > 0 && request.action
                == crate::model::events::RandomPlayAction::AddLast ==> after == drawn.play_last(
                tracks,
            )
        }),
{
    reveal(ControllerView::play_random);
}

/// That the player stopped is not taken over once the entry has ended, for by then the next one
/// is started; and what was told is answered by its state once.
pub proof fn stops_after_the_end_are_ignored(
    before: ControllerView,
    events: Seq<PlaybackEventView>,
)
    ensures
        before.after_event(PlaybackEventView::StateChanged(PlaybackState::Stopped), true) == before,
        before.poll(Seq::empty()) == before,
        events.len() > 0 ==> before.poll(events).events.last() == ControllerEventView::Playback(
            before.poll(events).playback_snapshot,
        ),
{
}

/// The waveform that belongs to the player's state is that of the current entry of the queue.
pub proof fn the_waveform_follows_the_queue(before: ControllerView, prepare: bool)
    requires
        before.current() is Some,
    ensures
        before.show_queue(prepare).playback_snapshot.waveform_cache_key == Some(
            crate::waveforms::waveform_key(
                before.queue->0.server_id,
                before.current()->0.track_id,
                before.current()->0.duration_seconds,
            ),
        ),
{
    reveal(ControllerView::show_queue);
    reveal(ControllerView::prepare_next);
}

} // verus!
