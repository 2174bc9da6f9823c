//! Commands that change the queue.

use crate::controller::playback_commands::NO_QUEUE;
use crate::controller::{AppController, ControllerView};
use crate::library_details::album_detail;
use crate::model::activation::{
    LoadedCompleteness, LoadedCompletenessView, NormalizedPlayActivation, NormalizedPlayTarget,
    NormalizedPlayTargetView, PlayAction, PlayActivation, PlayActivationView, PlayAnchor,
    PlayAnchorView, PlaySourceItem, PlaySourceItemView, PlayTarget, PlayTargetView,
};
use crate::model::events::{
    Effect, EffectView, RandomPlayAction, RandomPlayRequest, RandomPlayRequestView,
};
use crate::model::ids::{AlbumId, MusicFolderId, QueueEntryId};
use crate::model::library::{Track, TrackView};
use crate::model::queue::{
    PlaySourceDescriptor, PlaySourceDescriptorView, PlaySourceKey, PlaySourceKeyView,
    QueueReplacement, QueueReplacementView, RepeatMode, ShuffleStateView, SourceOrder,
    SourceOrderView,
};
use crate::model::source::SavedServer;
use crate::play_activation::{normalize_loaded_source_activation, normalized_target};
use crate::queue::{ids, QueueEngine, QueueView};
use crate::shuffle::{next_seed, shuffle_items, shuffled};
use crate::table::{page_of, take_page};
use crate::text;
use crate::value::Value;
use vstd::prelude::*;

verus! {

/// What is told where a queue entry is not there.
pub const NO_ENTRY: &'static str = "The selected queue entry was not found.";

/// What is told where there is nothing to play.
pub const NO_TRACKS: &'static str = "No tracks are available to play.";

/// What comes after a repeat mode.
pub open spec fn next_repeat_mode(mode: RepeatMode) -> RepeatMode {
    match mode {
        RepeatMode::Off => RepeatMode::All,
        RepeatMode::All => RepeatMode::One,
        RepeatMode::One => RepeatMode::Off,
    }
}

/// Three steps through the repeat modes lead back to where they began.
pub proof fn repeat_modes_come_round(mode: RepeatMode)
    ensures
        next_repeat_mode(next_repeat_mode(next_repeat_mode(mode))) == mode,
        next_repeat_mode(mode) != mode,
{
}

/// What is told where an album is not kept.
pub const NO_ALBUM: &'static str = "The selected cached album was not found.";

/// A whole album chosen to be played, from its first track on.
pub open spec fn album_activation(
    album_id: Seq<char>,
    tracks: Seq<TrackView>,
    selected_music_folder_id: Option<Seq<char>>,
) -> PlayActivationView {
    PlayActivationView {
        action: PlayAction::ReplaceNow,
        target: PlayTargetView::LoadedSource {
            source_key: PlaySourceKeyView {
                descriptor: PlaySourceDescriptorView::Album { album_id, selected_music_folder_id },
                order: SourceOrderView::Canonical,
            },
            completeness: LoadedCompletenessView::Complete,
            items: Seq::new(
                tracks.len(),
                |i: int|
                    PlaySourceItemView {
                        track: tracks[i],
                        source_index: i as usize,
                        source_item_id: None,
                    },
            ),
            anchor: PlayAnchorView {
                track_id: tracks[0].id,
                source_index: 0,
                source_item_id: None,
            },
        },
    }
}

/// A whole album chosen to be played, from its first track on.
pub fn album_play_activation(
    album_id: AlbumId,
    tracks: Vec<Track>,
    selected_music_folder_id: Option<MusicFolderId>,
) -> (result: PlayActivation)
    requires
        tracks@.len() > 0,
    ensures
        result.deep_view() == album_activation(
            album_id.deep_view(),
            tracks.deep_view(),
            selected_music_folder_id.deep_view(),
        ),
{
    let ghost expected = album_activation(
        album_id.deep_view(),
        tracks.deep_view(),
        selected_music_folder_id.deep_view(),
    ).target->LoadedSource_items;
    let mut items: Vec<PlaySourceItem> = Vec::new();
    let mut i: usize = 0;
    assert(items.deep_view() =~= expected.take(0));
    while i < tracks.len()
        invariant
            i <= tracks@.len(),
            expected == album_activation(
                album_id.deep_view(),
                tracks.deep_view(),
                selected_music_folder_id.deep_view(),
            ).target->LoadedSource_items,
            items.deep_view() == expected.take(i as int),
        decreases tracks.len() - i,
    {
        let ghost before = items.deep_view();
        let item: PlaySourceItem = PlaySourceItem {
            track: tracks[i].copy(),
            source_index: i,
            source_item_id: None,
        };
        assert(item.deep_view() == expected[i as int]);
        items.push(item);
        assert(items.deep_view() =~= before.push(expected[i as int]));
        assert(expected.take(i + 1) =~= before.push(expected[i as int]));
        i += 1;
    }
    assert(expected.take(i as int) =~= expected);
    assert(tracks.deep_view()[0] == tracks@[0].deep_view());
    PlayActivation {
        action: PlayAction::ReplaceNow,
        target: PlayTarget::LoadedSource {
            source_key: PlaySourceKey {
                descriptor: PlaySourceDescriptor::Album { album_id, selected_music_folder_id },
                order: SourceOrder::Canonical,
            },
            completeness: LoadedCompleteness::Complete,
            items,
            anchor: PlayAnchor {
                track_id: tracks[0].id.copy(),
                source_index: 0,
                source_item_id: None,
            },
        },
    }
}

impl QueueView {
    /// The queue filled with tracks alone, the first of which is current.
    pub open spec fn with_only(self, tracks: Seq<TrackView>) -> QueueView {
        self.cleared().playing_now(tracks[0]).appended_all(tracks.drop_first())
    }

    /// The queue with tracks next after the current one, in their order.
    pub open spec fn with_next_all(self, tracks: Seq<TrackView>) -> QueueView
        decreases tracks.len(),
    {
        if tracks.len() == 0 {
            self
        } else {
            self.with_next(tracks.last()).with_next_all(tracks.drop_last())
        }
    }

    /// The queue shuffled from a seed where it is not, and back in its own order where it is.
    pub open spec fn with_toggled_shuffle(self, seed: u64) -> QueueView {
        self.with_shuffle(
            ShuffleStateView {
                enabled: !self.shuffle.enabled,
                seed: if self.shuffle.enabled {
                    self.shuffle.seed
                } else {
                    seed
                },
            },
        )
    }
}

fn fill_with(queue: &mut QueueEngine, tracks: &Vec<Track>)
    requires
        old(queue).deep_view().wf(),
        tracks@.len() > 0,
    ensures
        final(queue).deep_view() == old(queue).deep_view().with_only(tracks.deep_view()),
        final(queue).deep_view().wf(),
{
    let ghost all = tracks.deep_view();
    queue.clear();
    let _id: QueueEntryId = queue.play_now(&tracks[0]);
    let rest: Vec<Track> = take_page(tracks, 1, tracks.len());
    assert(rest.deep_view() =~= all.drop_first());
    queue.append_all(&rest);
}

fn insert_next(queue: &mut QueueEngine, tracks: &Vec<Track>)
    requires
        old(queue).deep_view().wf(),
    ensures
        final(queue).deep_view() == old(queue).deep_view().with_next_all(tracks.deep_view()),
        final(queue).deep_view().wf(),
{
    let ghost all = tracks.deep_view();
    let ghost expected = queue.deep_view().with_next_all(all);
    let mut left: usize = tracks.len();
    assert(all.take(left as int) =~= all);
    while left > 0
        invariant
            left <= tracks@.len(),
            all == tracks.deep_view(),
            queue.deep_view().wf(),
            queue.deep_view().with_next_all(all.take(left as int)) == expected,
        decreases left,
    {
        let ghost head = all.take(left as int);
        left -= 1;
        assert(head.drop_last() =~= all.take(left as int));
        assert(head.last() == tracks@[left as int].deep_view());
        let _id: QueueEntryId = queue.play_next(&tracks[left]);
    }
}

impl ControllerView {
    /// With a changed queue being started.
    pub open spec fn start_queue(self) -> ControllerView {
        self.top_up().show_queue(true).start_current()
    }

    /// With tracks played now, in place of the queue.
    #[verifier::opaque]
    pub open spec fn play_tracks_now(self, tracks: Seq<TrackView>) -> ControllerView {
        if tracks.len() == 0 {
            self.fail(NO_TRACKS@)
        } else if let Some(queue) = self.queue {
            self.with_queue(queue.with_only(tracks)).start_queue()
        } else {
            self.fail(NO_QUEUE@)
        }
    }

    /// With the queue filled anew and started.
    #[verifier::opaque]
    pub open spec fn replace_queue(self, replacement: QueueReplacementView) -> ControllerView {
        match self.queue {
            None => self.fail(NO_QUEUE@),
            Some(queue) => match queue.filled(replacement) {
                Some(filled) => self.with_queue(filled).start_queue(),
                None => self.fail("The selected source could not be queued."@),
            },
        }
    }

    /// With what was chosen played now.
    #[verifier::opaque]
    pub open spec fn play_activation(self, activation: PlayActivationView) -> ControllerView {
        match normalized_target(activation) {
            Err(error) => self.fail(error),
            Ok(target) => if activation.action != PlayAction::ReplaceNow {
                self.fail("This play action is not available for the selected source."@)
            } else {
                match target {
                    NormalizedPlayTargetView::TrackOnly(track) => self.play_tracks_now(
                        seq![track],
                    ),
                    NormalizedPlayTargetView::Replacement(replacement) => self.replace_queue(
                        replacement,
                    ),
                }
            },
        }
    }

    /// With a kept album played now, from its first track on.
    #[verifier::opaque]
    pub open spec fn play_album(self, album_id: Seq<char>) -> ControllerView {
        if let Some(fault) = self.store.fault {
            self.fail(fault)
        } else {
            match self.store.active_server() {
                None => self.fail(NO_ALBUM@),
                Some(saved) => {
                    let library = self.store.library(saved.server.id);
                    match album_detail(library, album_id, saved, self.store.settings) {
                        None => self.fail(NO_ALBUM@),
                        Some((album, tracks)) => if tracks.len() == 0 {
                            self.fail(NO_TRACKS@)
                        } else {
                            self.play_activation(
                                album_activation(
                                    album.id,
                                    tracks,
                                    library.selected_music_folder_id,
                                ),
                            )
                        },
                    }
                },
            }
        }
    }

    /// With a track next after the current one.
    #[verifier::opaque]
    pub open spec fn play_next(self, track: TrackView) -> ControllerView {
        match self.queue {
            None => self.fail(NO_QUEUE@),
            Some(queue) => self.with_queue(queue.with_next(track)).show_queue(true),
        }
    }

    /// With tracks at the end of the queue.
    #[verifier::opaque]
    pub open spec fn play_last(self, tracks: Seq<TrackView>) -> ControllerView {
        if tracks.len() == 0 {
            self.fail("No tracks are available to add to the queue."@)
        } else if let Some(queue) = self.queue {
            self.with_queue(queue.appended_all(tracks)).show_queue(true)
        } else {
            self.fail(NO_QUEUE@)
        }
    }

    /// With tracks next after the current one, in their order.
    #[verifier::opaque]
    pub open spec fn play_all_next(self, tracks: Seq<TrackView>) -> ControllerView {
        match self.queue {
            None => self.fail(NO_QUEUE@),
            Some(queue) => self.with_queue(queue.with_next_all(tracks)).show_queue(true),
        }
    }

    /// Tracks of the source that is shown, drawn by the random sequence.
    #[verifier::opaque]
    pub open spec fn random_tracks(self, count: usize) -> Seq<TrackView> {
        match self.store.active_server() {
            Some(saved) => page_of(
                shuffled(
                    self.store.library(saved.server.id).tracks,
                    next_seed(self.random_seed),
                ),
                0,
                count as nat,
            ),
            None => Seq::empty(),
        }
    }

    /// With random tracks played or queued.
    #[verifier::opaque]
    pub open spec fn play_random(self, request: RandomPlayRequestView) -> ControllerView {
        let tracks = self.random_tracks(request.count);
        if let Some(fault) = self.store.fault {
            self.fail(fault)
        } else if tracks.len() == 0 {
            self.drawn().fail(NO_TRACKS@)
        } else {
            match request.action {
                RandomPlayAction::PlayNow => self.drawn().play_tracks_now(tracks),
                RandomPlayAction::PlayNext => self.drawn().play_all_next(tracks),
                RandomPlayAction::AddLast => self.drawn().play_last(tracks),
            }
        }
    }

    /// With requests for streams given up.
    pub open spec fn forget_requests(self) -> ControllerView {
        ControllerView {
            playback_request_generation: self.playback_request_generation.wrapping_add(1),
            ..self
        }
    }

    /// With an entry taken out of the queue. Where it was the current one, what is current
    /// now is started, or the player is stopped where nothing is.
    #[verifier::opaque]
    pub open spec fn remove_entry(self, id: Seq<char>) -> ControllerView {
        match self.queue {
            None => self.fail(NO_QUEUE@),
            Some(queue) => {
                let removed = self.with_queue(queue.without(id));
                if queue.current != Some(id) {
                    removed.show_queue(true)
                } else if queue.without(id).current is Some {
                    removed.ask(EffectView::ActivitySkipped).show_queue(true).start_current()
                } else {
                    removed.ask(EffectView::ActivitySkipped).forget_requests().ask(
                        EffectView::StopPlayer,
                    ).ask(EffectView::ActivityCleared).show_queue(true)
                }
            },
        }
    }

    /// With an entry of the queue played now.
    #[verifier::opaque]
    pub open spec fn activate_entry(self, id: Seq<char>) -> ControllerView {
        match self.queue {
            None => self.fail(NO_QUEUE@),
            Some(queue) => if !ids(queue.entries).contains(id) {
                self.fail(NO_ENTRY@)
            } else {
                let activated = self.with_queue(queue.at(id));
                (if queue.current is Some && queue.current != Some(id) {
                    activated.ask(EffectView::ActivitySkipped)
                } else {
                    activated
                }).start_queue()
            },
        }
    }

    /// With an entry moved next after the current one.
    #[verifier::opaque]
    pub open spec fn move_entry(self, id: Seq<char>) -> ControllerView {
        match self.queue {
            None => self.fail(NO_QUEUE@),
            Some(queue) => if ids(queue.entries).contains(id) {
                self.with_queue(queue.with_moved(id)).show_queue(true)
            } else {
                self.fail(NO_ENTRY@)
            },
        }
    }

    /// With nothing in the queue and the player stopped.
    #[verifier::opaque]
    pub open spec fn clear_queue(self) -> ControllerView {
        match self.queue {
            None => self.fail(NO_QUEUE@),
            Some(queue) => {
                let cleared = self.with_queue(queue.cleared());
                (if queue.current is Some {
                    cleared.forget_requests().ask(EffectView::ActivitySkipped).ask(
                        EffectView::ActivityCleared,
                    )
                } else {
                    cleared
                }).ask(EffectView::StopPlayer).show_queue(true)
            },
        }
    }

    /// With the queue shuffled where it is not, and back in its own order where it is.
    #[verifier::opaque]
    pub open spec fn toggle_shuffle(self) -> ControllerView {
        match self.queue {
            None => self.fail(NO_QUEUE@),
            Some(queue) => {
                let drawn = if queue.shuffle.enabled {
                    self
                } else {
                    self.drawn()
                };
                drawn.with_queue(queue.with_toggled_shuffle(drawn.random_seed)).show_queue(true)
            },
        }
    }

    /// With the next repeat mode.
    #[verifier::opaque]
    pub open spec fn cycle_repeat(self) -> ControllerView {
        match self.queue {
            None => self.fail(NO_QUEUE@),
            Some(queue) => self.with_queue(
                QueueView { repeat_mode: next_repeat_mode(queue.repeat_mode), ..queue },
            ).show_queue(true),
        }
    }
}

impl AppController {
    fn start_queue(&mut self)
        requires
            old(self).deep_view().wf(),
        ensures
            final(self).deep_view() == old(self).deep_view().start_queue(),
            final(self).deep_view().wf(),
    {
        let _filled: bool = self.auto_dj_top_up_or_emit_error();
        self.persist_and_emit_queue_with_next_preload(true);
        self.start_current_track();
    }

    /// Plays what was chosen.
    pub fn play_activation(&mut self, activation: PlayActivation)
        requires
            old(self).deep_view().wf(),
        ensures
            final(self).deep_view() == old(self).deep_view().play_activation(
                activation.deep_view(),
            ),
            final(self).deep_view().wf(),
    {
        reveal(ControllerView::play_activation);
        let activation: NormalizedPlayActivation = match normalize_loaded_source_activation(
            activation,
        ) {
            Ok(activation) => activation,
            Err(error) => {
                self.fail(error);
                return;
            },
        };
        if activation.action != PlayAction::ReplaceNow {
            self.fail(
                text::owned("This play action is not available for the selected source."),
            );
            return;
        }
        match activation.target {
            NormalizedPlayTarget::TrackOnly(track) => self.play_now(track),
            NormalizedPlayTarget::Replacement(replacement) => self.replace_queue_from_activation(
                replacement,
            ),
        }
    }

    fn replace_queue_from_activation(&mut self, replacement: QueueReplacement)
        requires
            old(self).deep_view().wf(),
        ensures
            final(self).deep_view() == old(self).deep_view().replace_queue(
                replacement.deep_view(),
            ),
            final(self).deep_view().wf(),
    {
        reveal(ControllerView::replace_queue);
        let replaced: bool = match &mut self.queue {
            Some(queue) => queue.replace_all(replacement),
            None => {
                self.fail(text::owned(NO_QUEUE));
                return;
            },
        };
        if replaced {
            self.start_queue();
        } else {
            self.fail(text::owned("The selected source could not be queued."));
        }
    }

    /// Plays tracks now, in place of the queue.
    pub fn play_tracks_now(&mut self, tracks: Vec<Track>)
        requires
            old(self).deep_view().wf(),
        ensures
            final(self).deep_view() == old(self).deep_view().play_tracks_now(tracks.deep_view()),
            final(self).deep_view().wf(),
    {
        reveal(ControllerView::play_tracks_now);
        if tracks.len() == 0 {
            self.fail(text::owned(NO_TRACKS));
            return;
        }
        match &mut self.queue {
            Some(queue) => fill_with(queue, &tracks),
            None => {
                self.fail(text::owned(NO_QUEUE));
                return;
            },
        }
        self.start_queue();
    }

    /// Plays a track now, in place of the queue.
    pub fn play_now(&mut self, track: Track)
        requires
            old(self).deep_view().wf(),
        ensures
            final(self).deep_view() == old(self).deep_view().play_tracks_now(
                seq![track.deep_view()],
            ),
            final(self).deep_view().wf(),
    {
        let ghost only = track.deep_view();
        let mut tracks: Vec<Track> = Vec::new();
        tracks.push(track);
        assert(tracks.deep_view() =~= seq![only]);
        self.play_tracks_now(tracks);
    }

    fn selected_music_folder_id_for_active_server(&self) -> (result: Option<MusicFolderId>)
        ensures
            result.deep_view() == (match self.deep_view().store.shown() {
                Some(saved) => self.deep_view().store.library(
                    saved.server.id,
                ).selected_music_folder_id,
                None => None,
            }),
    {
        match self.store.shown() {
            Some(saved) => self.store.library(&saved.server.id).selected_music_folder_id,
            None => None,
        }
    }

    /// Plays a kept album now, from its first track on.
    pub fn play_album_now(&mut self, album_id: &AlbumId)
        requires
            old(self).deep_view().wf(),
        ensures
            final(self).deep_view() == old(self).deep_view().play_album(album_id.deep_view()),
            final(self).deep_view().wf(),
    {
        reveal(ControllerView::play_album);
        match self.cached_album_detail(album_id) {
            Err(error) => self.fail(error),
            Ok(None) => self.fail(text::owned(NO_ALBUM)),
            Ok(Some((album, tracks))) => {
                assert(tracks.deep_view().len() == tracks@.len());
                if tracks.len() == 0 {
                    self.fail(text::owned(NO_TRACKS));
                } else {
                    let folder_id: Option<MusicFolderId>
                        = self.selected_music_folder_id_for_active_server();
                    self.play_activation(album_play_activation(album.id, tracks, folder_id));
                }
            },
        }
    }

    /// Puts a track next after the current one.
    pub fn play_next(&mut self, track: Track)
        requires
            old(self).deep_view().wf(),
        ensures
            final(self).deep_view() == old(self).deep_view().play_next(track.deep_view()),
            final(self).deep_view().wf(),
    {
        reveal(ControllerView::play_next);
        match &mut self.queue {
            Some(queue) => {
                let _id: QueueEntryId = queue.play_next(&track);
            },
            None => {
                self.fail(text::owned(NO_QUEUE));
                return;
            },
        }
        self.persist_and_emit_queue_with_next_preload(true);
    }

    /// Puts tracks at the end of the queue.
    pub fn play_last(&mut self, tracks: Vec<Track>)
        requires
            old(self).deep_view().wf(),
        ensures
            final(self).deep_view() == old(self).deep_view().play_last(tracks.deep_view()),
            final(self).deep_view().wf(),
    {
        reveal(ControllerView::play_last);
        if tracks.len() == 0 {
            self.fail(text::owned("No tracks are available to add to the queue."));
            return;
        }
        match &mut self.queue {
            Some(queue) => queue.append_all(&tracks),
            None => {
                self.fail(text::owned(NO_QUEUE));
                return;
            },
        }
        self.persist_and_emit_queue_with_next_preload(true);
    }

    fn play_all_next(&mut self, tracks: Vec<Track>)
        requires
            old(self).deep_view().wf(),
        ensures
            final(self).deep_view() == old(self).deep_view().play_all_next(tracks.deep_view()),
            final(self).deep_view().wf(),
    {
        reveal(ControllerView::play_all_next);
        match &mut self.queue {
            Some(queue) => insert_next(queue, &tracks),
            None => {
                self.fail(text::owned(NO_QUEUE));
                return;
            },
        }
        self.persist_and_emit_queue_with_next_preload(true);
    }

    fn draw_tracks(&mut self, count: usize) -> (result: Vec<Track>)
        requires
            old(self).deep_view().wf(),
            old(self).deep_view().store.fault is None,
        ensures
            final(self).deep_view() == old(self).deep_view().drawn(),
            final(self).deep_view().wf(),
            result.deep_view() == old(self).deep_view().random_tracks(count),
    {
        reveal(ControllerView::random_tracks);
        let seed: u64 = self.draw_seed();
        let shown: Option<SavedServer> = self.store.shown();
        match shown {
            Some(saved) => {
                let tracks: Vec<Track> = self.store.library(&saved.server.id).tracks;
                take_page(&shuffle_items(&tracks, seed), 0, count)
            },
            None => {
                let result: Vec<Track> = Vec::new();
                assert(result.deep_view() =~= Seq::empty());
                result
            },
        }
    }

    /// Plays or queues random tracks.
    pub fn play_random_tracks(&mut self, request: RandomPlayRequest)
        requires
            old(self).deep_view().wf(),
        ensures
            final(self).deep_view() == old(self).deep_view().play_random(request.deep_view()),
            final(self).deep_view().wf(),
    {
        reveal(ControllerView::play_random);
        if let Err(error) = self.store.check() {
            self.fail(error);
            return;
        }
        let tracks: Vec<Track> = self.draw_tracks(request.count);
        if tracks.len() == 0 {
            self.fail(text::owned(NO_TRACKS));
            return;
        }
        match request.action {
            RandomPlayAction::PlayNow => self.play_tracks_now(tracks),
            RandomPlayAction::PlayNext => self.play_all_next(tracks),
            RandomPlayAction::AddLast => self.play_last(tracks),
        }
    }

    pub fn invalidate_playback_requests(&mut self)
        requires
            old(self).deep_view().wf(),
        ensures
            final(self).deep_view() == old(self).deep_view().forget_requests(),
            final(self).deep_view().wf(),
    {
        self.playback_request_generation = self.playback_request_generation.wrapping_add(1);
    }

    /// Takes an entry out of the queue.
    pub fn remove_from_queue(&mut self, entry_id: &QueueEntryId)
        requires
            old(self).deep_view().wf(),
        ensures
            final(self).deep_view() == old(self).deep_view().remove_entry(entry_id.deep_view()),
            final(self).deep_view().wf(),
    {
        reveal(ControllerView::remove_entry);
        let was_current: bool;
        let has_current: bool;
        match &mut self.queue {
            Some(queue) => {
                was_current = match queue.current() {
                    Some(current) => current.id.same(entry_id),
                    None => false,
                };
                let _removed: bool = queue.remove(entry_id);
                has_current = queue.current().is_some();
            },
            None => {
                self.fail(text::owned(NO_QUEUE));
                return;
            },
        }
        if was_current {
            self.ask(Effect::ActivitySkipped);
            if !has_current {
                self.invalidate_playback_requests();
                self.ask(Effect::StopPlayer);
                self.ask(Effect::ActivityCleared);
            }
        }
        self.persist_and_emit_queue_with_next_preload(true);
        if was_current && has_current {
            self.start_current_track();
        }
    }

    /// Plays an entry of the queue now.
    pub fn activate_queue_entry(&mut self, entry_id: &QueueEntryId)
        requires
            old(self).deep_view().wf(),
        ensures
            final(self).deep_view() == old(self).deep_view().activate_entry(entry_id.deep_view()),
            final(self).deep_view().wf(),
    {
        reveal(ControllerView::activate_entry);
        let skipped: bool;
        let found: bool;
        match &mut self.queue {
            Some(queue) => {
                skipped = match queue.current() {
                    Some(current) => !current.id.same(entry_id),
                    None => false,
                };
                found = queue.activate(entry_id);
            },
            None => {
                self.fail(text::owned(NO_QUEUE));
                return;
            },
        }
        if !found {
            self.fail(text::owned(NO_ENTRY));
            return;
        }
        if skipped {
            self.ask(Effect::ActivitySkipped);
        }
        self.start_queue();
    }

    /// Moves an entry next after the current one.
    pub fn move_queue_entry_after_current(&mut self, entry_id: &QueueEntryId)
        requires
            old(self).deep_view().wf(),
        ensures
            final(self).deep_view() == old(self).deep_view().move_entry(entry_id.deep_view()),
            final(self).deep_view().wf(),
    {
        reveal(ControllerView::move_entry);
        let found: bool = match &mut self.queue {
            Some(queue) => queue.move_after_current(entry_id),
            None => {
                self.fail(text::owned(NO_QUEUE));
                return;
            },
        };
        if found {
            self.persist_and_emit_queue_with_next_preload(true);
        } else {
            self.fail(text::owned(NO_ENTRY));
        }
    }

    /// Takes all entries out of the queue and stops the player.
    pub fn clear_queue(&mut self)
        requires
            old(self).deep_view().wf(),
        ensures
            final(self).deep_view() == old(self).deep_view().clear_queue(),
            final(self).deep_view().wf(),
    {
        reveal(ControllerView::clear_queue);
        let had_current: bool;
        match &mut self.queue {
            Some(queue) => {
                had_current = queue.current().is_some();
                queue.clear();
            },
            None => {
                self.fail(text::owned(NO_QUEUE));
                return;
            },
        }
        if had_current {
            self.invalidate_playback_requests();
            self.ask(Effect::ActivitySkipped);
            self.ask(Effect::ActivityCleared);
        }
        self.ask(Effect::StopPlayer);
        self.persist_and_emit_queue_with_next_preload(true);
    }

    /// Shuffles the queue where it is not, and puts it back in its own order where it is.
    pub fn toggle_shuffle(&mut self)
        requires
            old(self).deep_view().wf(),
        ensures
            final(self).deep_view() == old(self).deep_view().toggle_shuffle(),
            final(self).deep_view().wf(),
    {
        reveal(ControllerView::toggle_shuffle);
        let (enabled, seed): (bool, u64) = match &self.queue {
            Some(queue) => (queue.shuffle().enabled, queue.shuffle().seed),
            None => {
                self.fail(text::owned(NO_QUEUE));
                return;
            },
        };
        let seed: u64 = if enabled {
            seed
        } else {
            self.draw_seed()
        };
        if let Some(queue) = &mut self.queue {
            queue.set_shuffle(!enabled, seed);
        }
        self.persist_and_emit_queue_with_next_preload(true);
    }

    /// Goes on to the next repeat mode.
    pub fn cycle_repeat(&mut self)
        requires
            old(self).deep_view().wf(),
        ensures
            final(self).deep_view() == old(self).deep_view().cycle_repeat(),
            final(self).deep_view().wf(),
    {
        reveal(ControllerView::cycle_repeat);
        match &mut self.queue {
            Some(queue) => {
                let next: RepeatMode = match queue.repeat_mode() {
                    RepeatMode::Off => RepeatMode::All,
                    RepeatMode::All => RepeatMode::One,
                    RepeatMode::One => RepeatMode::Off,
                };
                queue.set_repeat_mode(next);
            },
            None => {
                self.fail(text::owned(NO_QUEUE));
                return;
            },
        }
        self.persist_and_emit_queue_with_next_preload(true);
    }
}

} // verus!
