//! The controller: what commands, answers and events make of the state of the application.
//!
//! Commands change the state at once. What has to be done outside (the player, the servers,
//! the disk) is asked for in a list of effects, and what is to be told in a list of events;
//! the answers of the outside come back as further commands.

pub mod auto_dj_commands;
pub mod cached_library;
pub mod command_laws;
pub mod cover_commands;
pub mod laws;
pub mod library_commands;
pub mod library_laws;
pub mod lyrics_commands;
pub mod media_laws;
pub mod playback;
pub mod playback_commands;
pub mod queue_commands;
pub mod server_commands;
pub mod source_commands;
pub mod startup;
pub mod sync_commands;
pub mod waveform_commands;

use crate::key_set::{InFlightGuards, InFlightGuardsView, KeySet};
use crate::model::events::{ControllerEvent, ControllerEventView, Effect, EffectView};
use crate::model::events::{ProgressMark, ProgressMarkView, ReportMark, ReportMarkView};
use crate::model::ids::ServerId;
use crate::model::playback::{
    PlaybackCommand, PlaybackCommandView, PlaybackSnapshot, PlaybackSnapshotView, PlaybackState,
};
use crate::model::queue::{
    QueueEntry, QueueEntryView, QueueSnapshot, QueueSnapshotView, RepeatMode,
};
use crate::model::settings::{AppSettings, AppSettingsView};
use crate::model::store::{Store, StoreView, TokenStore, TokenStoreView};
use crate::queue::{QueueEngine, QueueView};
use crate::shuffle::{advance_seed, next_seed};
use crate::value::Value;
use crate::waveforms::{
    set_waveform_cache_key, waveform_cache_key, waveform_is_wanted, waveform_key, with_waveform_key,
    WaveformPermits, WaveformPermitsView,
};
use vstd::prelude::*;

verus! {

/// The state of the application.
pub struct AppController {
    store: Store,
    tokens: TokenStore,
    queue: Option<QueueEngine>,
    playback_snapshot: PlaybackSnapshot,
    auto_dj_enabled: bool,
    /// Where the random sequence that tracks are drawn by stands.
    random_seed: u64,
    /// Whether the queue is saved only once it has not changed for a moment.
    deferred_queue_writes: bool,
    playback_request_generation: u64,
    queue_persist_generation: u64,
    waveform_warm_generation: u64,
    external_cover_retry_generation: u64,
    last_progress_snapshot: Option<ProgressMark>,
    last_report_snapshot: Option<ReportMark>,
    waveform_permits: WaveformPermits,
    sync_in_flight: InFlightGuards,
    home_refresh_in_flight: InFlightGuards,
    playlist_refresh_in_flight: InFlightGuards,
    explore_prefetch_in_flight: InFlightGuards,
    cover_in_flight: KeySet,
    /// How many images are being fetched.
    cover_slots: u64,
    /// The directory that images are kept in, where they are.
    cover_dir: Option<String>,
    /// Whether images of local folders are known not to be kept yet.
    local_artwork_missing: bool,
    events: Vec<ControllerEvent>,
    effects: Vec<Effect>,
}

/// The contents of an [`AppController`].
pub struct ControllerView {
    pub store: StoreView,
    pub tokens: TokenStoreView,
    pub queue: Option<QueueView>,
    pub playback_snapshot: PlaybackSnapshotView,
    pub auto_dj_enabled: bool,
    pub random_seed: u64,
    pub deferred_queue_writes: bool,
    pub playback_request_generation: u64,
    pub queue_persist_generation: u64,
    pub waveform_warm_generation: u64,
    pub external_cover_retry_generation: u64,
    pub last_progress_snapshot: Option<ProgressMarkView>,
    pub last_report_snapshot: Option<ReportMarkView>,
    pub waveform_permits: WaveformPermitsView,
    pub sync_in_flight: InFlightGuardsView,
    pub home_refresh_in_flight: InFlightGuardsView,
    pub playlist_refresh_in_flight: InFlightGuardsView,
    pub explore_prefetch_in_flight: InFlightGuardsView,
    pub cover_in_flight: Set<Seq<char>>,
    pub cover_slots: u64,
    pub cover_dir: Option<Seq<char>>,
    pub local_artwork_missing: bool,
    pub events: Seq<ControllerEventView>,
    pub effects: Seq<EffectView>,
}

impl DeepView for AppController {
    type V = ControllerView;

    closed spec fn deep_view(&self) -> ControllerView {
        ControllerView {
            store: self.store.deep_view(),
            tokens: self.tokens.deep_view(),
            queue: self.queue.deep_view(),
            playback_snapshot: self.playback_snapshot.deep_view(),
            auto_dj_enabled: self.auto_dj_enabled,
            random_seed: self.random_seed,
            deferred_queue_writes: self.deferred_queue_writes,
            playback_request_generation: self.playback_request_generation,
            queue_persist_generation: self.queue_persist_generation,
            waveform_warm_generation: self.waveform_warm_generation,
            external_cover_retry_generation: self.external_cover_retry_generation,
            last_progress_snapshot: self.last_progress_snapshot.deep_view(),
            last_report_snapshot: self.last_report_snapshot.deep_view(),
            waveform_permits: self.waveform_permits.deep_view(),
            sync_in_flight: self.sync_in_flight.deep_view(),
            home_refresh_in_flight: self.home_refresh_in_flight.deep_view(),
            playlist_refresh_in_flight: self.playlist_refresh_in_flight.deep_view(),
            explore_prefetch_in_flight: self.explore_prefetch_in_flight.deep_view(),
            cover_in_flight: self.cover_in_flight.deep_view(),
            cover_slots: self.cover_slots,
            cover_dir: self.cover_dir.deep_view(),
            local_artwork_missing: self.local_artwork_missing,
            events: self.events.deep_view(),
            effects: self.effects.deep_view(),
        }
    }
}

/// The player's state once it follows a queue.
pub open spec fn following_queue(
    snapshot: PlaybackSnapshotView,
    queue: Option<QueueView>,
    auto_dj_enabled: bool,
) -> PlaybackSnapshotView {
    let current = match queue {
        Some(queue) => queue.current_entry(),
        None => None,
    };
    let position = match queue {
        Some(queue) => queue.progress_seconds,
        None => 0,
    };
    let key = match current {
        Some(entry) => Some(
            waveform_key(queue->0.server_id, entry.track_id, entry.duration_seconds),
        ),
        None => None,
    };
    let keyed = with_waveform_key(
        PlaybackSnapshotView {
            current,
            position_seconds: position,
            position_millis: (position * 1000) as u64,
            duration_seconds: match current {
                Some(entry) => entry.duration_seconds,
                None => 0,
            },
            repeat_mode: match queue {
                Some(queue) => queue.repeat_mode,
                None => RepeatMode::Off,
            },
            shuffle_enabled: match queue {
                Some(queue) => queue.shuffle.enabled,
                None => false,
            },
            auto_dj_enabled,
            ..snapshot
        },
        key,
    );
    if current is None {
        PlaybackSnapshotView {
            state: PlaybackState::Stopped,
            last_error: None,
            buffering_percent: None,
            ..keyed
        }
    } else {
        keyed
    }
}

/// Makes a player's state follow a queue.
pub fn follow_queue(
    snapshot: &mut PlaybackSnapshot,
    queue: &Option<QueueEngine>,
    auto_dj_enabled: bool,
)
    requires
        queue.deep_view() matches Some(queue) ==> queue.wf(),
    ensures
        final(snapshot).deep_view() == following_queue(
            old(snapshot).deep_view(),
            queue.deep_view(),
            auto_dj_enabled,
        ),
{
    let mut key: Option<String> = None;
    snapshot.current = None;
    snapshot.position_seconds = 0;
    snapshot.position_millis = 0;
    snapshot.duration_seconds = 0;
    snapshot.repeat_mode = RepeatMode::Off;
    snapshot.shuffle_enabled = false;
    snapshot.auto_dj_enabled = auto_dj_enabled;
    if let Some(queue) = queue {
        let position: u32 = queue.progress_seconds();
        snapshot.position_seconds = position;
        snapshot.position_millis = position as u64 * 1000;
        snapshot.repeat_mode = queue.repeat_mode();
        snapshot.shuffle_enabled = queue.shuffle().enabled;
        if let Some(entry) = queue.current() {
            snapshot.duration_seconds = entry.duration_seconds;
            key = Some(
                waveform_cache_key(queue.server_id(), &entry.track_id, entry.duration_seconds),
            );
            snapshot.current = Some(entry);
        }
    }
    let idle: bool = snapshot.current.is_none();
    let _wanted: bool = set_waveform_cache_key(snapshot, key);
    if idle {
        snapshot.state = PlaybackState::Stopped;
        snapshot.last_error = None;
        snapshot.buffering_percent = None;
    }
}

impl ControllerView {
    /// The queue is in order, and what is kept is told apart by its keys.
    pub open spec fn wf(self) -> bool {
        &&& self.queue matches Some(queue) ==> queue.wf()
        &&& self.store.wf()
        &&& self.tokens.wf()
    }

    /// With one more thing told.
    pub open spec fn emit(self, event: ControllerEventView) -> ControllerView {
        ControllerView { events: self.events.push(event), ..self }
    }

    /// With one more thing asked for.
    pub open spec fn ask(self, effect: EffectView) -> ControllerView {
        ControllerView { effects: self.effects.push(effect), ..self }
    }

    /// With an error told.
    pub open spec fn fail(self, error: Seq<char>) -> ControllerView {
        self.emit(ControllerEventView::Error(error))
    }

    /// With a message told.
    pub open spec fn tell(self, status: Seq<char>) -> ControllerView {
        self.emit(ControllerEventView::LoginStatus(status))
    }

    /// With the error told where there is one.
    pub open spec fn fail_if(self, error: Option<Seq<char>>) -> ControllerView {
        match error {
            Some(error) => self.fail(error),
            None => self,
        }
    }

    pub open spec fn settings(self) -> AppSettingsView {
        self.store.known_settings()
    }

    pub open spec fn with_store(self, store: StoreView) -> ControllerView {
        ControllerView { store, ..self }
    }

    pub open spec fn with_queue(self, queue: QueueView) -> ControllerView {
        ControllerView { queue: Some(queue), ..self }
    }

    pub open spec fn with_player(self, playback_snapshot: PlaybackSnapshotView) -> ControllerView {
        ControllerView { playback_snapshot, ..self }
    }

    /// With the player told something, which it takes or refuses.
    pub open spec fn send(self, command: PlaybackCommandView) -> ControllerView {
        self.ask(EffectView::Playback(command))
    }

    /// The current entry of the queue.
    pub open spec fn current(self) -> Option<QueueEntryView> {
        match self.queue {
            Some(queue) => queue.current_entry(),
            None => None,
        }
    }

    pub open spec fn queue_snapshot(self) -> Option<QueueSnapshotView> {
        match self.queue {
            Some(queue) => Some(queue.snapshot()),
            None => None,
        }
    }

    /// With settings saved, or an error told where they cannot be.
    #[verifier::opaque]
    pub open spec fn save_or_fail(self, settings: AppSettingsView) -> ControllerView {
        match self.store.fault {
            Some(fault) => self.fail(fault),
            None => self.with_store(self.store.with_settings(settings)),
        }
    }

    /// With a queue saved, or an error told where it cannot be.
    pub open spec fn persist(self, snapshot: QueueSnapshotView) -> ControllerView {
        match self.store.fault {
            Some(fault) => self.fail(fault),
            None => self.with_store(self.store.with_queue(snapshot)),
        }
    }

    /// With the queue saved, where there is one.
    pub open spec fn persist_current(self) -> ControllerView {
        match self.queue_snapshot() {
            Some(snapshot) => self.persist(snapshot),
            None => self,
        }
    }

    /// With a queue saved, or to be saved once it has not changed for a moment.
    pub open spec fn persist_deferred(self, snapshot: QueueSnapshotView) -> ControllerView {
        if self.deferred_queue_writes {
            let generation = self.queue_persist_generation.wrapping_add(1);
            (ControllerView { queue_persist_generation: generation, ..self }).ask(
                EffectView::PersistQueue { generation, snapshot },
            )
        } else {
            self.persist(snapshot)
        }
    }

    /// With the player's state told.
    pub open spec fn emit_player(self) -> ControllerView {
        self.emit(ControllerEventView::Playback(self.playback_snapshot))
    }

    /// With the waveform of the current track asked for, where it is not there yet.
    pub open spec fn read_waveform(self) -> ControllerView {
        if waveform_is_wanted(self.playback_snapshot) {
            self.ask(
                EffectView::ReadWaveform {
                    cache_key: self.playback_snapshot.waveform_cache_key->0,
                    duration_seconds: self.playback_snapshot.duration_seconds,
                },
            )
        } else {
            self
        }
    }

    /// With the player's state following the queue.
    pub open spec fn follow_queue(self) -> ControllerView {
        self.with_player(
            following_queue(self.playback_snapshot, self.queue, self.auto_dj_enabled),
        ).read_waveform()
    }

    /// With the random sequence one further.
    pub open spec fn drawn(self) -> ControllerView {
        ControllerView { random_seed: next_seed(self.random_seed), ..self }
    }
}

impl AppController {
    /// What is kept between runs.
    pub fn store(&self) -> (result: &Store)
        ensures
            result.deep_view() == self.deep_view().store,
    {
        &self.store
    }

    /// What is kept between runs, to be changed through its own functions.
    pub fn store_mut(&mut self) -> (result: &mut Store)
        ensures
            (*result).deep_view() == old(self).deep_view().store,
            final(self).deep_view() == old(self).deep_view().with_store(
                (*final(result)).deep_view(),
            ),
    {
        &mut self.store
    }

    /// The access tokens.
    pub fn tokens(&self) -> (result: &TokenStore)
        ensures
            result.deep_view() == self.deep_view().tokens,
    {
        &self.tokens
    }

    /// The access tokens, to be changed through their own functions.
    pub fn tokens_mut(&mut self) -> (result: &mut TokenStore)
        ensures
            (*result).deep_view() == old(self).deep_view().tokens,
            final(self).deep_view() == (ControllerView {
                tokens: (*final(result)).deep_view(),
                ..old(self).deep_view()
            }),
    {
        &mut self.tokens
    }

    /// The player's state.
    pub fn playback_snapshot(&self) -> (result: &PlaybackSnapshot)
        ensures
            result.deep_view() == self.deep_view().playback_snapshot,
    {
        &self.playback_snapshot
    }

    /// The directory that images are kept in, where they are.
    pub fn cover_dir(&self) -> (result: &Option<String>)
        ensures
            result.deep_view() == self.deep_view().cover_dir,
    {
        &self.cover_dir
    }

    /// Tells something.
    pub fn emit(&mut self, event: ControllerEvent)
        ensures
            final(self).deep_view() == old(self).deep_view().emit(event.deep_view()),
    {
        let ghost before = self.events.deep_view();
        let ghost added = event.deep_view();
        self.events.push(event);
        assert(self.events.deep_view() =~= before.push(added));
    }

    /// Asks for something.
    pub fn ask(&mut self, effect: Effect)
        ensures
            final(self).deep_view() == old(self).deep_view().ask(effect.deep_view()),
    {
        let ghost before = self.effects.deep_view();
        let ghost added = effect.deep_view();
        self.effects.push(effect);
        assert(self.effects.deep_view() =~= before.push(added));
    }

    /// Tells an error.
    pub fn fail(&mut self, error: String)
        ensures
            final(self).deep_view() == old(self).deep_view().fail(error@),
    {
        self.emit(ControllerEvent::Error(error));
    }

    /// Tells a message.
    pub fn tell(&mut self, status: String)
        ensures
            final(self).deep_view() == old(self).deep_view().tell(status@),
    {
        self.emit(ControllerEvent::LoginStatus(status));
    }

    /// Takes what was told so far.
    pub fn drain_events(&mut self) -> (result: Vec<ControllerEvent>)
        ensures
            result.deep_view() == old(self).deep_view().events,
            final(self).deep_view() == (ControllerView {
                events: Seq::empty(),
                ..old(self).deep_view()
            }),
    {
        let mut result: Vec<ControllerEvent> = Vec::new();
        std::mem::swap(&mut result, &mut self.events);
        assert(self.events.deep_view() =~= Seq::empty());
        result
    }

    /// Takes what was asked for so far.
    pub fn drain_effects(&mut self) -> (result: Vec<Effect>)
        ensures
            result.deep_view() == old(self).deep_view().effects,
            final(self).deep_view() == (ControllerView {
                effects: Seq::empty(),
                ..old(self).deep_view()
            }),
    {
        let mut result: Vec<Effect> = Vec::new();
        std::mem::swap(&mut result, &mut self.effects);
        assert(self.effects.deep_view() =~= Seq::empty());
        result
    }

    /// The settings, or the initial ones where they cannot be read.
    pub fn load_settings(&self) -> (result: AppSettings)
        ensures
            result.deep_view() == self.deep_view().settings(),
    {
        self.store.known_settings()
    }

    /// Saves settings.
    pub fn save_settings(&mut self, settings: &AppSettings) -> (result: Result<(), String>)
        ensures
            crate::store::done(result, old(self).deep_view().store.fault),
            final(self).deep_view() == (if result is Ok {
                old(self).deep_view().with_store(
                    old(self).deep_view().store.with_settings(settings.deep_view()),
                )
            } else {
                old(self).deep_view()
            }),
            old(self).deep_view().wf() ==> final(self).deep_view().wf(),
    {
        self.store.save_settings(settings)
    }

    /// Saves settings, or tells why they cannot be.
    pub fn save_or_fail(&mut self, settings: &AppSettings)
        ensures
            final(self).deep_view() == old(self).deep_view().save_or_fail(settings.deep_view()),
            final(self).deep_view().queue == old(self).deep_view().queue,
            final(self).deep_view().playback_snapshot == old(self).deep_view().playback_snapshot,
            old(self).deep_view().wf() ==> final(self).deep_view().wf(),
    {
        reveal(ControllerView::save_or_fail);
        if let Err(error) = self.save_settings(settings) {
            self.fail(error);
        }
    }

    /// Tells the player something.
    pub fn send_playback_command(&mut self, command: PlaybackCommand)
        ensures
            final(self).deep_view() == old(self).deep_view().send(command.deep_view()),
    {
        self.ask(Effect::Playback(command));
    }

    /// The current entry of the queue, with its source and how far it was played.
    pub fn current_queue_entry(&self) -> (result: Option<(ServerId, QueueEntry, u32)>)
        requires
            self.deep_view().wf(),
        ensures
            result.deep_view() == (match self.deep_view().current() {
                Some(entry) => Some(
                    (
                        self.deep_view().queue->0.server_id,
                        entry,
                        self.deep_view().queue->0.progress_seconds,
                    ),
                ),
                None => None,
            }),
    {
        match &self.queue {
            Some(queue) => match queue.current() {
                Some(entry) => Some((queue.server_id().copy(), entry, queue.progress_seconds())),
                None => None,
            },
            None => None,
        }
    }

    /// The queue as it is saved and shown.
    pub fn queue_snapshot(&self) -> (result: Option<QueueSnapshot>)
        requires
            self.deep_view().wf(),
        ensures
            result.deep_view() == self.deep_view().queue_snapshot(),
    {
        match &self.queue {
            Some(queue) => Some(queue.snapshot()),
            None => None,
        }
    }

    /// Saves a queue, or tells why it cannot be.
    pub fn persist_queue_snapshot(&mut self, snapshot: &QueueSnapshot)
        ensures
            final(self).deep_view() == old(self).deep_view().persist(snapshot.deep_view()),
            old(self).deep_view().wf() ==> final(self).deep_view().wf(),
    {
        if let Err(error) = self.store.save_queue_snapshot(snapshot) {
            self.fail(error);
        }
    }

    /// Saves the queue, where there is one.
    pub fn persist_current_queue_snapshot(&mut self)
        requires
            old(self).deep_view().wf(),
        ensures
            final(self).deep_view() == old(self).deep_view().persist_current(),
            final(self).deep_view().wf(),
    {
        if let Some(snapshot) = self.queue_snapshot() {
            self.persist_queue_snapshot(&snapshot);
        }
    }

    /// Saves a queue, now or once it has not changed for a moment.
    pub fn persist_queue_snapshot_deferred(&mut self, snapshot: QueueSnapshot)
        ensures
            final(self).deep_view() == old(self).deep_view().persist_deferred(
                snapshot.deep_view(),
            ),
            old(self).deep_view().wf() ==> final(self).deep_view().wf(),
    {
        if self.deferred_queue_writes {
            let generation: u64 = self.queue_persist_generation.wrapping_add(1);
            self.queue_persist_generation = generation;
            self.ask(Effect::PersistQueue { generation, snapshot });
        } else {
            self.persist_queue_snapshot(&snapshot);
        }
    }

    /// Saves a queue that was to be saved once it had not changed for a moment; does nothing
    /// where it has changed.
    pub fn persist_queue_now(&mut self, generation: u64, snapshot: &QueueSnapshot)
        ensures
            final(self).deep_view() == (if old(self).deep_view().queue_persist_generation
                == generation {
                old(self).deep_view().persist(snapshot.deep_view())
            } else {
                old(self).deep_view()
            }),
            old(self).deep_view().wf() ==> final(self).deep_view().wf(),
    {
        if self.queue_persist_generation == generation {
            self.persist_queue_snapshot(snapshot);
        }
    }

    /// Tells the player's state.
    pub fn emit_playback_snapshot(&mut self)
        ensures
            final(self).deep_view() == old(self).deep_view().emit_player(),
    {
        let snapshot: PlaybackSnapshot = self.playback_snapshot.copy();
        self.emit(ControllerEvent::Playback(snapshot));
    }

    /// Asks for the waveform of the current track, where it is not there yet.
    pub fn read_waveform(&mut self)
        ensures
            final(self).deep_view() == old(self).deep_view().read_waveform(),
    {
        if self.playback_snapshot.waveform.is_none() {
            if let Some(cache_key) = self.playback_snapshot.waveform_cache_key.copy() {
                let duration_seconds: u32 = self.playback_snapshot.duration_seconds;
                self.ask(Effect::ReadWaveform { cache_key, duration_seconds });
            }
        }
    }

    /// Makes the player's state follow the queue.
    pub fn sync_playback_snapshot_from_queue(&mut self)
        requires
            old(self).deep_view().wf(),
        ensures
            final(self).deep_view() == old(self).deep_view().follow_queue(),
            final(self).deep_view().wf(),
    {
        follow_queue(&mut self.playback_snapshot, &self.queue, self.auto_dj_enabled);
        self.read_waveform();
    }

    /// The next value of the random sequence.
    pub fn draw_seed(&mut self) -> (result: u64)
        ensures
            final(self).deep_view() == old(self).deep_view().drawn(),
            result == next_seed(old(self).deep_view().random_seed),
    {
        self.random_seed = advance_seed(self.random_seed);
        self.random_seed
    }
}

} // verus!
