//! How the application begins, and what can be done to what it keeps while it does not run.

use crate::cached_reads::{
    first_run_snapshot, load_snapshot, reconciled, show_first_run, snapshot_of,
};
use crate::controller::source_commands::{
    kept_queue, playback_snapshot_from_queue, restore_queue, waiting_player,
};
use crate::controller::{AppController, ControllerView};
use crate::key_set::{InFlightGuards, InFlightGuardsView, KeySet};
use crate::model::ids::ServerId;
use crate::model::playback::{PlaybackCommand, PlaybackCommandView, PlaybackSnapshot};
use crate::model::queue::QueueSnapshot;
use crate::model::settings::AppSettings;
use crate::model::snapshot::{LibrarySnapshot, LibrarySnapshotView};
use crate::model::store::{Store, StoreView, TokenStore, TokenStoreView};
use crate::queue::{QueueEngine, QueueView};
use crate::store::{open_memory, without_token};
use crate::text;
use crate::value::Value;
use crate::waveforms::{WaveformPermits, WaveformPermitsView};
use vstd::prelude::*;

verus! {

/// What is told where no source is saved that something could be done to.
pub const NO_SAVED_SERVER: &'static str = "No active server is saved.";

/// What the store is once the application has begun.
pub open spec fn begun_store(store: StoreView) -> StoreView {
    if store.fault is Some {
        store
    } else {
        reconciled(store)
    }
}

/// What is shown first: nothing where the store cannot be read.
pub open spec fn begun_snapshot(store: StoreView) -> LibrarySnapshotView {
    if store.fault is Some {
        first_run_snapshot(StoreView::empty())
    } else {
        snapshot_of(reconciled(store))
    }
}

/// The queue that is taken up first.
pub open spec fn begun_queue(store: StoreView) -> Option<QueueView> {
    match begun_snapshot(store).server {
        Some(server) => Some(kept_queue(begun_store(store), server.id)),
        None => None,
    }
}

/// Nothing going on for any source.
pub open spec fn idle_guards(label: Seq<char>) -> InFlightGuardsView {
    InFlightGuardsView { label, running: Set::empty(), blocked: false }
}

impl ControllerView {
    /// The state that the application begins with.
    pub open spec fn begun(
        store: StoreView,
        tokens: TokenStoreView,
        random_seed: u64,
        deferred_queue_writes: bool,
        cover_dir: Option<Seq<char>>,
    ) -> ControllerView {
        let settings = begun_store(store).known_settings();
        ControllerView {
            store: begun_store(store),
            tokens,
            queue: begun_queue(store),
            playback_snapshot: waiting_player(
                begun_queue(store),
                settings.auto_dj_enabled,
                settings,
            ),
            auto_dj_enabled: settings.auto_dj_enabled,
            random_seed,
            deferred_queue_writes,
            playback_request_generation: 0,
            queue_persist_generation: 0,
            waveform_warm_generation: 0,
            external_cover_retry_generation: 0,
            last_progress_snapshot: None,
            last_report_snapshot: None,
            waveform_permits: WaveformPermitsView { foreground: Set::empty(), warm: Set::empty() },
            sync_in_flight: idle_guards("Sync"@),
            home_refresh_in_flight: idle_guards("Home refresh"@),
            playlist_refresh_in_flight: idle_guards("Playlist refresh"@),
            explore_prefetch_in_flight: idle_guards("Explore prefetch"@),
            cover_in_flight: Set::empty(),
            cover_slots: 0,
            cover_dir,
            local_artwork_missing: false,
            events: Seq::empty(),
            effects: Seq::empty(),
        }
    }
}

/// What is there when the application has begun.
pub struct Begun {
    pub controller: AppController,
    pub snapshot: LibrarySnapshot,
    pub queue: Option<QueueSnapshot>,
    pub player: PlaybackSnapshot,
}

impl AppController {
    /// Begins with what is kept: the selected source is shown, and its queue waits to be
    /// played.
    pub fn bootstrap(
        store: Store,
        tokens: TokenStore,
        random_seed: u64,
        deferred_queue_writes: bool,
        cover_dir: Option<String>,
    ) -> (result: Begun)
        requires
            store.deep_view().wf(),
            tokens.deep_view().wf(),
        ensures
            result.controller.deep_view() == ControllerView::begun(
                store.deep_view(),
                tokens.deep_view(),
                random_seed,
                deferred_queue_writes,
                cover_dir.deep_view(),
            ),
            result.controller.deep_view().wf(),
            result.snapshot.deep_view() == begun_snapshot(store.deep_view()),
            result.queue.deep_view() == result.controller.deep_view().queue_snapshot(),
            result.player.deep_view() == result.controller.deep_view().playback_snapshot,
    {
        let mut store: Store = store;
        let snapshot: LibrarySnapshot = match load_snapshot(&mut store) {
            Ok(snapshot) => snapshot,
            Err(_) => show_first_run(&open_memory()),
        };
        let settings: AppSettings = store.known_settings();
        let queue: Option<QueueEngine> = match &snapshot.server {
            Some(server) => Some(restore_queue(&store, &server.id)),
            None => None,
        };
        let player: PlaybackSnapshot = playback_snapshot_from_queue(
            &queue,
            settings.auto_dj_enabled,
            &settings,
        );
        let controller: AppController = AppController {
            store,
            tokens,
            queue,
            playback_snapshot: player.copy(),
            auto_dj_enabled: settings.auto_dj_enabled,
            random_seed,
            deferred_queue_writes,
            playback_request_generation: 0,
            queue_persist_generation: 0,
            waveform_warm_generation: 0,
            external_cover_retry_generation: 0,
            last_progress_snapshot: None,
            last_report_snapshot: None,
            waveform_permits: WaveformPermits::new(),
            sync_in_flight: InFlightGuards::new("Sync"),
            home_refresh_in_flight: InFlightGuards::new("Home refresh"),
            playlist_refresh_in_flight: InFlightGuards::new("Playlist refresh"),
            explore_prefetch_in_flight: InFlightGuards::new("Explore prefetch"),
            cover_in_flight: KeySet::new(),
            cover_slots: 0,
            cover_dir,
            local_artwork_missing: false,
            events: Vec::new(),
            effects: Vec::new(),
        };
        assert(controller.events.deep_view() =~= Seq::empty());
        assert(controller.effects.deep_view() =~= Seq::empty());
        let queue: Option<QueueSnapshot> = controller.queue_snapshot();
        Begun { controller, snapshot, queue, player }
    }

    /// Makes the player ready.
    pub fn warm_playback_backend(&mut self)
        requires
            old(self).deep_view().wf(),
        ensures
            final(self).deep_view() == old(self).deep_view().send(
                PlaybackCommandView::WarmUp(old(self).deep_view().settings().playback),
            ),
            final(self).deep_view().wf(),
    {
        let settings: AppSettings = self.load_settings();
        self.send_playback_command(PlaybackCommand::WarmUp(settings.playback));
    }

    /// Forgets the library of the source that is shown; gives the source, whose files are to be
    /// deleted too.
    pub fn clear_app_cache(store: &mut Store) -> (result: Result<ServerId, String>)
        ensures
            match result {
                Ok(server_id) => {
                    &&& old(store).deep_view().shown() matches Some(saved)
                    &&& server_id.deep_view() == saved.server.id
                    &&& final(store).deep_view() == old(store).deep_view().with_cleared_library(
                        saved.server.id,
                    )
                },
                Err(error) => {
                    &&& old(store).deep_view().shown() is None
                    &&& final(store).deep_view() == old(store).deep_view()
                    &&& error@ == (match old(store).deep_view().fault {
                        Some(fault) => fault,
                        None => NO_SAVED_SERVER@,
                    })
                },
            },
            old(store).deep_view().wf() ==> final(store).deep_view().wf(),
    {
        match store.active_server() {
            Err(error) => Err(error),
            Ok(None) => Err(text::owned(NO_SAVED_SERVER)),
            Ok(Some(saved)) => match store.clear_library_cache(&saved.server.id) {
                Ok(()) => Ok(saved.server.id),
                Err(error) => Err(error),
            },
        }
    }

    /// Forgets the library of the source that is shown; gives the source, whose images are to be
    /// deleted too.
    pub fn clear_active_server_cache_for_app(store: &mut Store) -> (result: Result<
        ServerId,
        String,
    >)
        ensures
            match result {
                Ok(server_id) => {
                    &&& old(store).deep_view().shown() matches Some(saved)
                    &&& server_id.deep_view() == saved.server.id
                    &&& final(store).deep_view() == old(store).deep_view().with_cleared_library(
                        saved.server.id,
                    )
                },
                Err(error) => {
                    &&& old(store).deep_view().shown() is None
                    &&& final(store).deep_view() == old(store).deep_view()
                    &&& error@ == (match old(store).deep_view().fault {
                        Some(fault) => fault,
                        None => NO_SAVED_SERVER@,
                    })
                },
            },
            old(store).deep_view().wf() ==> final(store).deep_view().wf(),
    {
        AppController::clear_app_cache(store)
    }

    /// Forgets the source that is shown, with its token where that can be deleted; gives the
    /// source, whose files are to be deleted too.
    pub fn forget_active_server_for_app(store: &mut Store, tokens: &mut TokenStore) -> (result:
        Result<ServerId, String>)
        ensures
            match result {
                Ok(server_id) => {
                    &&& old(store).deep_view().shown() matches Some(saved)
                    &&& server_id.deep_view() == saved.server.id
                    &&& final(store).deep_view() == old(store).deep_view().without_server(
                        saved.server.id,
                    )
                    &&& final(tokens).deep_view() == (if old(
                        tokens,
                    ).deep_view().delete_fault is Some {
                        old(tokens).deep_view()
                    } else {
                        without_token(old(tokens).deep_view(), saved.server.id)
                    })
                },
                Err(error) => {
                    &&& old(store).deep_view().shown() is None
                    &&& final(store).deep_view() == old(store).deep_view()
                    &&& final(tokens).deep_view() == old(tokens).deep_view()
                    &&& error@ == (match old(store).deep_view().fault {
                        Some(fault) => fault,
                        None => NO_SAVED_SERVER@,
                    })
                },
            },
            old(store).deep_view().wf() ==> final(store).deep_view().wf(),
            old(tokens).deep_view().wf() ==> final(tokens).deep_view().wf(),
    {
        match store.active_server() {
            Err(error) => Err(error),
            Ok(None) => Err(text::owned(NO_SAVED_SERVER)),
            Ok(Some(saved)) => match store.forget_server(&saved.server.id) {
                Ok(()) => {
                    let _deleted: Result<(), String> = tokens.delete_token(&saved.server.id);
                    Ok(saved.server.id)
                },
                Err(error) => Err(error),
            },
        }
    }
}

} // verus!
