//! Keeping the queue filled.

use crate::auto_dj::{auto_dj_candidates, candidates, AUTO_DJ_LIBRARY_LIMIT};
use crate::cached_reads::{
    active_settings, is_local, load_settings_for_active_server, local_source, local_source_saved,
    source_is_local, with_album_image, AlbumImages, LOCAL_SOURCE_SERVER_ID,
};
use crate::controller::{AppController, ControllerView};
use crate::cover_art_policy::{bind_tracks, bound_tracks};
use crate::model::events::{ControllerEvent, ControllerEventView, Effect, EffectView};
use crate::model::library::{Track, TrackView};
use crate::model::playback::PlaybackSnapshotView;
use crate::model::queue::{QueueEntry, QueueEntryView};
use crate::model::settings::{AppSettings, AppSettingsView};
use crate::model::source::{SavedServer, SavedServerView};
use crate::model::store::{ServerLibrary, StoreView};
use crate::queue::QueueEngine;
use crate::select::change_items;
use crate::shuffle::{advance_seed, next_seed};
use crate::table::{page_of, take_page};
use crate::text;
use crate::value::Value;
use vstd::prelude::*;

verus! {

/// The track of a queue entry.
pub open spec fn track_of_entry() -> spec_fn(QueueEntryView) -> Seq<char> {
    |entry: QueueEntryView| entry.track_id
}

/// The tracks of a queue.
pub fn queued_tracks(entries: &Vec<QueueEntry>) -> (result: Vec<String>)
    ensures
        result.deep_view() == entries.deep_view().map_values(track_of_entry()),
{
    let ghost all = entries.deep_view();
    let ghost expected = all.map_values(track_of_entry());
    let mut result: Vec<String> = Vec::new();
    let mut i: usize = 0;
    assert(result.deep_view() =~= expected.take(0));
    while i < entries.len()
        invariant
            i <= entries@.len(),
            all == entries.deep_view(),
            expected == all.map_values(track_of_entry()),
            result.deep_view() == expected.take(i as int),
        decreases entries.len() - i,
    {
        let ghost before = result.deep_view();
        result.push(entries[i].track_id.value.copy());
        assert(result.deep_view() =~= before.push(all[i as int].track_id));
        assert(expected.take(i + 1) =~= before.push(expected[i as int]));
        i += 1;
    }
    assert(expected.take(i as int) =~= expected);
    result
}

/// The source that a queue belongs to, where it is known.
pub open spec fn source_of(store: StoreView, server_id: Seq<char>) -> Option<SavedServerView> {
    match store.server(server_id) {
        Some(saved) => Some(saved),
        None => if server_id == LOCAL_SOURCE_SERVER_ID@ {
            Some(local_source())
        } else {
            None
        },
    }
}

/// Settings with the filling of the queue turned on or off.
#[verifier::opaque]
pub open spec fn settings_with_auto_dj(settings: AppSettingsView, enabled: bool)
    -> AppSettingsView {
    AppSettingsView { auto_dj_enabled: enabled, ..settings }
}

fn change_auto_dj(settings: &mut AppSettings, enabled: bool)
    ensures
        final(settings).deep_view() == settings_with_auto_dj(old(settings).deep_view(), enabled),
{
    reveal(settings_with_auto_dj);
    settings.auto_dj_enabled = enabled;
}

impl ControllerView {
    /// Whether the queue is to be filled: little is left of it.
    pub open spec fn wants_tracks(self) -> bool {
        self.auto_dj_enabled && self.current() is Some && self.queue->0.remaining()
            < active_settings(self.store).auto_dj_refill_threshold
    }

    /// The tracks that the queue is filled with.
    #[verifier::opaque]
    pub open spec fn added_tracks(self) -> Seq<TrackView> {
        let queue = self.queue->0;
        let library = self.store.library(queue.server_id);
        let added = candidates(
            bound_tracks(
                page_of(library.tracks, 0, AUTO_DJ_LIBRARY_LIMIT as nat),
                active_settings(self.store),
            ),
            queue.current_entry()->0,
            queue.entries.map_values(track_of_entry()),
            next_seed(self.random_seed),
        );
        match source_of(self.store, queue.server_id) {
            Some(saved) => added.map_values(with_album_image(library.albums, is_local(saved))),
            None => added,
        }
    }

    /// Whether tracks are added to the queue by filling it.
    #[verifier::opaque]
    pub open spec fn tops_up(self) -> bool {
        self.wants_tracks() && self.store.fault is None && self.added_tracks().len() > 0
    }

    /// With the queue filled where little is left of it, or an error told where that cannot
    /// be.
    #[verifier::opaque]
    pub open spec fn top_up(self) -> ControllerView {
        if !self.wants_tracks() {
            self
        } else if let Some(fault) = self.store.fault {
            self.fail(fault)
        } else {
            self.drawn().with_queue(self.queue->0.appended_all(self.added_tracks()))
        }
    }

    /// With the queue to be filled later.
    pub open spec fn top_up_later(self) -> ControllerView {
        if self.auto_dj_enabled {
            self.ask(EffectView::TopUpQueue)
        } else {
            self
        }
    }

    /// With the queue filled and, where tracks were added, saved and told.
    #[verifier::opaque]
    pub open spec fn top_up_now(self) -> ControllerView {
        if self.tops_up() {
            let filled = self.top_up();
            let snapshot = filled.queue_snapshot()->0;
            filled.persist_deferred(snapshot).emit(
                ControllerEventView::Queue(Some(snapshot)),
            ).prepare_next()
        } else {
            self.top_up()
        }
    }

    /// With the queue filled and, where tracks were added, shown.
    #[verifier::opaque]
    pub open spec fn refill(self) -> ControllerView {
        if self.tops_up() {
            self.top_up().show_queue(true)
        } else {
            self.top_up()
        }
    }

    /// With it noted whether the queue is filled.
    #[verifier::opaque]
    pub open spec fn marked_auto_dj(self, enabled: bool) -> ControllerView {
        (ControllerView { auto_dj_enabled: enabled, ..self }).with_player(
            PlaybackSnapshotView { auto_dj_enabled: enabled, ..self.playback_snapshot },
        )
    }

    /// With the filling of the queue turned on or off, without filling it.
    #[verifier::opaque]
    pub open spec fn with_auto_dj(self, enabled: bool) -> ControllerView {
        self.save_or_fail(settings_with_auto_dj(self.settings(), enabled)).marked_auto_dj(enabled)
    }

    /// With the filling of the queue turned on or off.
    pub open spec fn toggle_auto_dj(self) -> ControllerView {
        let toggled = self.with_auto_dj(!self.auto_dj_enabled);
        if self.auto_dj_enabled {
            toggled.emit_player()
        } else if toggled.tops_up() {
            toggled.refill()
        } else {
            toggled.refill().emit_player()
        }
    }
}

impl AppController {
    fn pick_tracks(&self, seed: u64) -> (result: Vec<Track>)
        requires
            self.deep_view().wf(),
            self.deep_view().current() is Some,
            self.deep_view().store.fault is None,
            seed == next_seed(self.deep_view().random_seed),
        ensures
            result.deep_view() == self.deep_view().added_tracks(),
    {
        reveal(ControllerView::added_tracks);
        let queue: &QueueEngine = match &self.queue {
            Some(queue) => queue,
            None => {
                return Vec::new();
            },
        };
        let current: QueueEntry = match queue.current() {
            Some(current) => current,
            None => {
                return Vec::new();
            },
        };
        let library: ServerLibrary = self.store.library(queue.server_id());
        let settings: AppSettings = load_settings_for_active_server(&self.store);
        let mut tracks: Vec<Track> = take_page(&library.tracks, 0, AUTO_DJ_LIBRARY_LIMIT);
        bind_tracks(&mut tracks, &settings);
        let queued: Vec<String> = queued_tracks(queue.entries());
        let mut added: Vec<Track> = auto_dj_candidates(&tracks, &current, &queued, seed);
        let saved: Option<SavedServer> = match self.store.saved_server(queue.server_id()) {
            Ok(Some(saved)) => Some(saved),
            Ok(None) => if queue.server_id().value.same(&text::owned(LOCAL_SOURCE_SERVER_ID)) {
                Some(local_source_saved())
            } else {
                None
            },
            Err(_) => None,
        };
        assert(saved.deep_view() == source_of(
            self.deep_view().store,
            self.deep_view().queue->0.server_id,
        ));
        if let Some(saved) = saved {
            let local: bool = source_is_local(&saved);
            change_items(&mut added, &AlbumImages { albums: &library.albums, local });
        }
        added
    }

    /// Fills the queue where little is left of it; tells whether tracks were added.
    pub fn auto_dj_top_up_or_emit_error(&mut self) -> (result: bool)
        requires
            old(self).deep_view().wf(),
        ensures
            result == old(self).deep_view().tops_up(),
            final(self).deep_view() == old(self).deep_view().top_up(),
            final(self).deep_view().wf(),
    {
        reveal(ControllerView::top_up);
        reveal(ControllerView::tops_up);
        if !self.auto_dj_enabled {
            return false;
        }
        let threshold: u16 = load_settings_for_active_server(&self.store).auto_dj_refill_threshold;
        let wanted: bool = match &self.queue {
            Some(queue) => queue.current().is_some() && queue.remaining_after_current()
                < threshold as usize,
            None => false,
        };
        if !wanted {
            return false;
        }
        if let Err(error) = self.store.check() {
            self.fail(error);
            return false;
        }
        let seed: u64 = advance_seed(self.random_seed);
        let added: Vec<Track> = self.pick_tracks(seed);
        self.random_seed = seed;
        if let Some(queue) = &mut self.queue {
            queue.append_all(&added);
        }
        added.len() > 0
    }

    /// Fills the queue, saves it and tells it, where it was to be filled later.
    pub fn top_up_queue(&mut self)
        requires
            old(self).deep_view().wf(),
        ensures
            final(self).deep_view() == old(self).deep_view().top_up_now(),
            final(self).deep_view().wf(),
    {
        reveal(ControllerView::top_up_now);
        let ghost before = self.deep_view();
        if self.auto_dj_top_up_or_emit_error() {
            assert(self.deep_view().queue is Some) by {
                reveal(ControllerView::top_up);
                reveal(ControllerView::tops_up);
            }
            if let Some(snapshot) = self.queue_snapshot() {
                self.persist_queue_snapshot_deferred(snapshot.copy());
                self.emit(ControllerEvent::Queue(Some(snapshot)));
            }
            self.prepare_next_stream();
        }
    }

    /// Has the queue filled later.
    pub fn auto_dj_top_up_deferred(&mut self)
        requires
            old(self).deep_view().wf(),
        ensures
            final(self).deep_view() == old(self).deep_view().top_up_later(),
            final(self).deep_view().wf(),
    {
        if self.auto_dj_enabled {
            self.ask(Effect::TopUpQueue);
        }
    }

    /// Fills the queue where little is left of it and shows it where tracks were added; tells
    /// whether any were.
    pub fn refill_auto_dj_queue(&mut self) -> (result: bool)
        requires
            old(self).deep_view().wf(),
        ensures
            result == old(self).deep_view().tops_up(),
            final(self).deep_view() == old(self).deep_view().refill(),
            final(self).deep_view().wf(),
    {
        reveal(ControllerView::refill);
        if self.auto_dj_top_up_or_emit_error() {
            self.persist_and_emit_queue_with_next_preload(true);
            return true;
        }
        false
    }

    fn set_auto_dj(&mut self, enabled: bool)
        requires
            old(self).deep_view().wf(),
        ensures
            final(self).deep_view() == old(self).deep_view().with_auto_dj(enabled),
            final(self).deep_view().wf(),
    {
        reveal(ControllerView::with_auto_dj);
        let mut settings: AppSettings = self.load_settings();
        change_auto_dj(&mut settings, enabled);
        self.save_or_fail(&settings);
        self.mark_auto_dj(enabled);
    }

    fn mark_auto_dj(&mut self, enabled: bool)
        requires
            old(self).deep_view().wf(),
        ensures
            final(self).deep_view() == old(self).deep_view().marked_auto_dj(enabled),
            final(self).deep_view().wf(),
    {
        reveal(ControllerView::marked_auto_dj);
        self.auto_dj_enabled = enabled;
        self.playback_snapshot.auto_dj_enabled = enabled;
    }

    /// Turns the filling of the queue on or off.
    pub fn toggle_auto_dj(&mut self)
        requires
            old(self).deep_view().wf(),
        ensures
            final(self).deep_view() == old(self).deep_view().toggle_auto_dj(),
            final(self).deep_view().wf(),
    {
        let enabled: bool = !self.auto_dj_enabled;
        self.set_auto_dj(enabled);
        if !enabled {
            self.emit_playback_snapshot();
        } else if !self.refill_auto_dj_queue() {
            self.emit_playback_snapshot();
        }
    }
}

} // verus!
