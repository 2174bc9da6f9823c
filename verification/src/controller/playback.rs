//! What is played: reports, streams, and the answers that bring them.

use crate::controller::{AppController, ControllerView};
use crate::model::events::{
    CurrentStreamRequest, CurrentStreamRequestView, Effect, EffectView, NextStreamRequest,
    NextStreamRequestView, ReportMark, ReportMarkView, ProgressMark, ProgressMarkView,
    WaveformSearch, WaveformSearchView,
};
use crate::model::ids::{ServerId, TrackId};
use crate::model::playback::{
    PlaybackCommand, PlaybackCommandView, PlaybackReport, PlaybackReportKind, PlaybackReportView,
    PlaybackSnapshot, PlaybackSnapshotView, PlaybackState, PreparedPlaybackItem, StreamDescriptor,
    StreamDescriptorView,
};
use crate::model::queue::{QueueEntry, QueueEntryView, QueueSnapshot, RepeatMode};
use crate::model::settings::{AppSettings, PlaybackSettings};
use crate::model::source::SavedServer;
use crate::model::waveform::{WaveformWarmRequest, WaveformWarmRequestView};
use crate::streams::{prepared_item, prepared_item_from_entry};
use crate::text;
use crate::value::Value;
use crate::waveforms::{set_waveform_cache_key, waveform_cache_key, waveform_key, with_waveform_key};
use vstd::prelude::*;

verus! {

/// The player's state once an entry is being started.
pub open spec fn starting(
    snapshot: PlaybackSnapshotView,
    server_id: Seq<char>,
    entry: QueueEntryView,
    position_seconds: u32,
) -> PlaybackSnapshotView {
    with_waveform_key(
        PlaybackSnapshotView {
            current: Some(entry),
            state: PlaybackState::Buffering,
            position_seconds,
            position_millis: (position_seconds * 1000) as u64,
            duration_seconds: entry.duration_seconds,
            last_error: None,
            ..snapshot
        },
        Some(waveform_key(server_id, entry.track_id, entry.duration_seconds)),
    )
}

fn start_entry(
    snapshot: &mut PlaybackSnapshot,
    server_id: &ServerId,
    entry: &QueueEntry,
    position_seconds: u32,
)
    ensures
        final(snapshot).deep_view() == starting(
            old(snapshot).deep_view(),
            server_id.deep_view(),
            entry.deep_view(),
            position_seconds,
        ),
{
    snapshot.current = Some(entry.copy());
    snapshot.state = PlaybackState::Buffering;
    snapshot.position_seconds = position_seconds;
    snapshot.position_millis = position_seconds as u64 * 1000;
    snapshot.duration_seconds = entry.duration_seconds;
    snapshot.last_error = None;
    let key: String = waveform_cache_key(server_id, &entry.track_id, entry.duration_seconds);
    let _wanted: bool = set_waveform_cache_key(snapshot, Some(key));
}

/// What a server is told about the state of the player.
pub open spec fn report_of(
    snapshot: PlaybackSnapshotView,
    track_id: Seq<char>,
    kind: PlaybackReportKind,
    failed: bool,
) -> PlaybackReportView {
    PlaybackReportView {
        kind,
        track_id,
        position_seconds: snapshot.position_seconds,
        paused: snapshot.state == PlaybackState::Paused,
        muted: snapshot.muted,
        volume: snapshot.volume,
        shuffle: snapshot.shuffle_enabled,
        repeat_one: snapshot.repeat_mode == RepeatMode::One,
        repeat_all: snapshot.repeat_mode == RepeatMode::All,
        failed,
    }
}

fn report_from(
    snapshot: &PlaybackSnapshot,
    track_id: &TrackId,
    kind: PlaybackReportKind,
    failed: bool,
) -> (result: PlaybackReport)
    ensures
        result.deep_view() == report_of(snapshot.deep_view(), track_id.deep_view(), kind, failed),
{
    PlaybackReport {
        kind,
        track_id: track_id.copy(),
        position_seconds: snapshot.position_seconds,
        paused: snapshot.state == PlaybackState::Paused,
        muted: snapshot.muted,
        volume: snapshot.volume.copy(),
        shuffle: snapshot.shuffle_enabled,
        repeat_one: snapshot.repeat_mode == RepeatMode::One,
        repeat_all: snapshot.repeat_mode == RepeatMode::All,
        failed,
    }
}

/// The waveform of an entry, as it is looked for.
pub open spec fn search_of(
    server_id: Seq<char>,
    entry: QueueEntryView,
    settings: crate::model::settings::PlaybackSettingsView,
    stream: Option<StreamDescriptorView>,
) -> WaveformSearchView {
    WaveformSearchView {
        cache_key: waveform_key(server_id, entry.track_id, entry.duration_seconds),
        request: WaveformWarmRequestView {
            server_id,
            track_id: entry.track_id,
            duration_seconds: entry.duration_seconds,
            source_format: entry.source_format,
            playback_settings: settings,
        },
        stream,
    }
}

pub fn search_for(
    server_id: &ServerId,
    entry: &QueueEntry,
    settings: &PlaybackSettings,
    stream: Option<StreamDescriptor>,
) -> (result: WaveformSearch)
    ensures
        result.deep_view() == search_of(
            server_id.deep_view(),
            entry.deep_view(),
            settings.deep_view(),
            stream.deep_view(),
        ),
{
    WaveformSearch {
        cache_key: waveform_cache_key(server_id, &entry.track_id, entry.duration_seconds),
        request: WaveformWarmRequest {
            server_id: server_id.copy(),
            track_id: entry.track_id.copy(),
            duration_seconds: entry.duration_seconds,
            source_format: entry.source_format.copy(),
            playback_settings: settings.copy(),
        },
        stream,
    }
}

impl ControllerView {
    /// With a report on what is played. Nothing is reported in private mode; a server is told
    /// only while it is the source that is shown.
    #[verifier::opaque]
    pub open spec fn report(self, kind: PlaybackReportKind, failed: bool) -> ControllerView {
        let player = self.playback_snapshot;
        if player.current is None || self.current() is None || self.settings().private_mode {
            self
        } else {
            let told = self.ask(EffectView::Scrobble { kind, failed, snapshot: player });
            let server_id = self.queue->0.server_id;
            match self.store.shown() {
                Some(saved) if saved.server.id == server_id && saved.server.provider != "fake"@
                    && saved.server.provider != "local"@ => told.ask(
                    EffectView::Report {
                        server_id,
                        report: report_of(player, player.current->0.track_id, kind, failed),
                    },
                ),
                _ => told,
            }
        }
    }

    /// With the entry that follows asked for, so that the player can go on without a gap; the
    /// player is told where none follows.
    #[verifier::opaque]
    pub open spec fn prepare_next(self) -> ControllerView {
        match self.queue {
            None => self,
            Some(queue) => match queue.following() {
                Some(id) => self.ask(
                    EffectView::ResolveNext(
                        NextStreamRequestView {
                            server_id: queue.server_id,
                            current_entry_id: queue.current->0,
                            next_entry: queue.entry(id),
                            settings: self.settings().playback,
                        },
                    ),
                ),
                None => self.send(PlaybackCommandView::PrepareNext(None)),
            },
        }
    }

    /// With the current entry of the queue being started.
    #[verifier::opaque]
    pub open spec fn start_current(self) -> ControllerView {
        match self.current() {
            None => self.fail("Queue is empty."@),
            Some(entry) => {
                let queue = self.queue->0;
                let generation = self.playback_request_generation.wrapping_add(1);
                let started = (ControllerView {
                    playback_request_generation: generation,
                    ..self
                }).with_player(
                    starting(
                        self.playback_snapshot,
                        queue.server_id,
                        entry,
                        queue.progress_seconds,
                    ),
                ).read_waveform();
                started.ask(
                    EffectView::ActivityStarted {
                        server_id: queue.server_id,
                        entry,
                        position_seconds: queue.progress_seconds,
                    },
                ).emit_player().report(PlaybackReportKind::Started, false).ask(
                    EffectView::ResolveCurrent(
                        CurrentStreamRequestView {
                            generation,
                            server_id: queue.server_id,
                            entry,
                            has_next: queue.following() is Some,
                            position_seconds: queue.progress_seconds,
                            settings: self.settings().playback,
                            waveform_enabled: self.settings().seekbar_waveform_enabled,
                        },
                    ),
                )
            },
        }
    }

    /// Whether a request for a stream is the last one, and for the entry that is current.
    pub open spec fn is_current_request(
        self,
        generation: u64,
        server_id: Seq<char>,
        entry: QueueEntryView,
    ) -> bool {
        &&& self.playback_request_generation == generation
        &&& self.queue matches Some(queue) && queue.server_id == server_id
        &&& self.current() matches Some(current) && current.id == entry.id && current.track_id
            == entry.track_id
    }

    /// With the player stopped by an error.
    pub open spec fn stopped_by(self, error: Seq<char>) -> ControllerView {
        self.with_player(
            PlaybackSnapshotView {
                state: PlaybackState::Stopped,
                last_error: Some(error),
                ..self.playback_snapshot
            },
        ).fail(error)
    }

    /// With the stream of the current entry offered to the player. A stream that was asked for
    /// earlier, or for something else, is not.
    #[verifier::opaque]
    pub open spec fn play_stream(
        self,
        request: CurrentStreamRequestView,
        stream: StreamDescriptorView,
    ) -> ControllerView {
        if !self.is_current_request(request.generation, request.server_id, request.entry) {
            self
        } else {
            self.ask(
                EffectView::PlayStream {
                    request,
                    stream,
                    command: PlaybackCommandView::PlayPrepared {
                        item: prepared_item(request.entry, stream),
                        next: None,
                        start_position_seconds: request.position_seconds,
                        settings: request.settings,
                    },
                },
            )
        }
    }

    /// With the stream of the current entry taken by the player: the entry that follows and the
    /// waveform are asked for where they are wanted.
    #[verifier::opaque]
    pub open spec fn stream_accepted(
        self,
        request: CurrentStreamRequestView,
        stream: StreamDescriptorView,
    ) -> ControllerView {
        let prepared = if request.has_next {
            self.prepare_next()
        } else {
            self
        };
        if request.waveform_enabled {
            prepared.ask(
                EffectView::FindWaveform(
                    search_of(request.server_id, request.entry, request.settings, Some(stream)),
                ),
            )
        } else {
            prepared
        }
    }

    /// With it told that the stream of the current entry cannot be had.
    pub open spec fn stream_failed(
        self,
        request: CurrentStreamRequestView,
        error: Seq<char>,
    ) -> ControllerView {
        if self.is_current_request(request.generation, request.server_id, request.entry) {
            self.with_player(
                PlaybackSnapshotView {
                    buffering_percent: None,
                    ..self.playback_snapshot
                },
            ).stopped_by(error)
        } else {
            self
        }
    }

    /// Whether a request for the stream that follows is still for the queue as it is.
    pub open spec fn is_next_request(self, request: NextStreamRequestView) -> bool {
        self.queue matches Some(queue) && queue.server_id == request.server_id && queue.current
            == Some(request.current_entry_id) && queue.following() == Some(request.next_entry.id)
    }

    /// With the queue saved where the player got ten seconds further.
    pub open spec fn persist_progress(self, seconds: u32) -> ControllerView {
        match self.queue {
            None => self,
            Some(queue) => {
                let mark = Some(
                    ProgressMarkView { server_id: queue.server_id, bucket: seconds / 10 },
                );
                let marked = ControllerView { last_progress_snapshot: mark, ..self };
                if self.last_progress_snapshot == mark {
                    self
                } else if self.store.fault is Some {
                    marked
                } else {
                    marked.with_store(self.store.with_queue(queue.snapshot()))
                }
            },
        }
    }

    /// With a report where the player got ten seconds further.
    pub open spec fn report_progress(self, seconds: u32) -> ControllerView {
        match self.playback_snapshot.current {
            None => self,
            Some(entry) => {
                let mark = Some(ReportMarkView { track_id: entry.track_id, bucket: seconds / 10 });
                if self.last_report_snapshot == mark {
                    self
                } else {
                    (ControllerView { last_report_snapshot: mark, ..self }).report(
                        PlaybackReportKind::Progress,
                        false,
                    )
                }
            },
        }
    }

    /// With the queue saved and told, and the player's state following it.
    #[verifier::opaque]
    pub open spec fn show_queue(self, prepare_next: bool) -> ControllerView {
        let saved = match self.queue_snapshot() {
            Some(snapshot) => self.persist_deferred(snapshot),
            None => self,
        };
        let shown = saved.follow_queue().emit(
            crate::model::events::ControllerEventView::Queue(self.queue_snapshot()),
        ).emit_player();
        if prepare_next {
            shown.prepare_next()
        } else {
            shown
        }
    }
}

impl AppController {
    /// Reports what is played, where it may be reported.
    pub fn report_playback(&mut self, kind: PlaybackReportKind, failed: bool)
        requires
            old(self).deep_view().wf(),
        ensures
            final(self).deep_view() == old(self).deep_view().report(kind, failed),
            final(self).deep_view().wf(),
    {
        reveal(ControllerView::report);
        let track_id: TrackId = match &self.playback_snapshot.current {
            Some(current) => current.track_id.copy(),
            None => {
                return;
            },
        };
        let server_id: ServerId = match self.current_queue_entry() {
            Some((server_id, _, _)) => server_id,
            None => {
                return;
            },
        };
        if self.load_settings().private_mode {
            return;
        }
        let snapshot: PlaybackSnapshot = self.playback_snapshot.copy();
        let report: PlaybackReport = report_from(&snapshot, &track_id, kind, failed);
        let shown: Option<SavedServer> = self.store.shown();
        self.ask(Effect::Scrobble { kind, failed, snapshot });
        if let Some(saved) = shown {
            if saved.server.id.same(&server_id) && !saved.server.provider.same(
                &text::owned("fake"),
            ) && !saved.server.provider.same(&text::owned("local")) {
                self.ask(Effect::Report { server_id, report });
            }
        }
    }

    /// Asks for the stream of the entry that follows.
    pub fn prepare_next_stream(&mut self)
        requires
            old(self).deep_view().wf(),
        ensures
            final(self).deep_view() == old(self).deep_view().prepare_next(),
            final(self).deep_view().wf(),
    {
        reveal(ControllerView::prepare_next);
        let request: Option<NextStreamRequest> = match &self.queue {
            None => {
                return;
            },
            Some(queue) => match queue.following_entry() {
                None => None,
                Some(next_entry) => {
                    match queue.current() {
                        None => None,
                        Some(current) => Some(
                            NextStreamRequest {
                                server_id: queue.server_id().copy(),
                                current_entry_id: current.id,
                                next_entry,
                                settings: self.load_settings().playback,
                            },
                        ),
                    }
                },
            },
        };
        match request {
            Some(request) => {
                self.ask(Effect::ResolveNext(request));
            },
            None => {
                self.send_playback_command(PlaybackCommand::PrepareNext(None));
            },
        }
    }

    /// Starts the current entry of the queue.
    pub fn start_current_track(&mut self)
        requires
            old(self).deep_view().wf(),
        ensures
            final(self).deep_view() == old(self).deep_view().start_current(),
            final(self).deep_view().wf(),
    {
        reveal(ControllerView::start_current);
        let (server_id, entry, position_seconds) = match self.current_queue_entry() {
            Some(found) => found,
            None => {
                self.fail(text::owned("Queue is empty."));
                return;
            },
        };
        let has_next: bool = match &self.queue {
            Some(queue) => queue.following_id().is_some(),
            None => false,
        };
        let settings: AppSettings = self.load_settings();
        let generation: u64 = self.playback_request_generation.wrapping_add(1);
        self.playback_request_generation = generation;
        start_entry(&mut self.playback_snapshot, &server_id, &entry, position_seconds);
        self.read_waveform();
        self.ask(
            Effect::ActivityStarted {
                server_id: server_id.copy(),
                entry: entry.copy(),
                position_seconds,
            },
        );
        self.emit_playback_snapshot();
        self.report_playback(PlaybackReportKind::Started, false);
        self.ask(
            Effect::ResolveCurrent(
                CurrentStreamRequest {
                    generation,
                    server_id,
                    entry,
                    has_next,
                    position_seconds,
                    settings: settings.playback,
                    waveform_enabled: settings.seekbar_waveform_enabled,
                },
            ),
        );
    }

    /// Whether a request for a stream is the last one, and for the entry that is current.
    pub fn current_playback_request_matches_generation(
        &self,
        generation: u64,
        server_id: &ServerId,
        entry: &QueueEntry,
    ) -> (result: bool)
        requires
            self.deep_view().wf(),
        ensures
            result == self.deep_view().is_current_request(
                generation,
                server_id.deep_view(),
                entry.deep_view(),
            ),
    {
        if self.playback_request_generation != generation {
            return false;
        }
        match self.current_queue_entry() {
            Some((current_server_id, current, _)) => current_server_id.same(server_id)
                && current.id.same(&entry.id) && current.track_id.same(&entry.track_id),
            None => false,
        }
    }

    pub fn stop_by_error(&mut self, error: String)
        ensures
            final(self).deep_view() == old(self).deep_view().stopped_by(error@),
    {
        self.playback_snapshot.state = PlaybackState::Stopped;
        self.playback_snapshot.last_error = Some(error.copy());
        self.fail(error);
    }

    /// Offers the stream of the current entry to the player.
    pub fn current_stream_resolved(
        &mut self,
        request: CurrentStreamRequest,
        stream: StreamDescriptor,
    )
        requires
            old(self).deep_view().wf(),
        ensures
            final(self).deep_view() == old(self).deep_view().play_stream(
                request.deep_view(),
                stream.deep_view(),
            ),
            final(self).deep_view().wf(),
    {
        reveal(ControllerView::play_stream);
        if !self.current_playback_request_matches_generation(
            request.generation,
            &request.server_id,
            &request.entry,
        ) {
            return;
        }
        let item: PreparedPlaybackItem = prepared_item_from_entry(&request.entry, stream.copy());
        let command: PlaybackCommand = PlaybackCommand::PlayPrepared {
            item,
            next: None,
            start_position_seconds: request.position_seconds,
            settings: request.settings.copy(),
        };
        self.ask(Effect::PlayStream { request, stream, command });
    }

    /// Goes on once the player has taken the stream of the current entry.
    pub fn current_stream_accepted(
        &mut self,
        request: &CurrentStreamRequest,
        stream: StreamDescriptor,
    )
        requires
            old(self).deep_view().wf(),
        ensures
            final(self).deep_view() == old(self).deep_view().stream_accepted(
                request.deep_view(),
                stream.deep_view(),
            ),
            final(self).deep_view().wf(),
    {
        reveal(ControllerView::stream_accepted);
        if request.has_next {
            self.prepare_next_stream();
        }
        if request.waveform_enabled {
            let search: WaveformSearch = search_for(
                &request.server_id,
                &request.entry,
                &request.settings,
                Some(stream),
            );
            self.ask(Effect::FindWaveform(search));
        }
    }

    /// Tells that the stream of the current entry cannot be had.
    pub fn current_stream_failed(&mut self, request: &CurrentStreamRequest, error: String)
        requires
            old(self).deep_view().wf(),
        ensures
            final(self).deep_view() == old(self).deep_view().stream_failed(
                request.deep_view(),
                error@,
            ),
            final(self).deep_view().wf(),
    {
        if self.current_playback_request_matches_generation(
            request.generation,
            &request.server_id,
            &request.entry,
        ) {
            self.playback_snapshot.buffering_percent = None;
            self.stop_by_error(error);
        }
    }

    /// Whether a request for the stream that follows is still for the queue as it is.
    pub fn next_request_matches(&self, request: &NextStreamRequest) -> (result: bool)
        requires
            self.deep_view().wf(),
        ensures
            result == self.deep_view().is_next_request(request.deep_view()),
    {
        match &self.queue {
            None => false,
            Some(queue) => {
                if !queue.server_id().same(&request.server_id) {
                    return false;
                }
                let same_current: bool = match queue.current() {
                    Some(current) => current.id.same(&request.current_entry_id),
                    None => false,
                };
                let same_next: bool = match queue.following_id() {
                    Some(id) => id.same(&request.next_entry.id),
                    None => false,
                };
                same_current && same_next
            },
        }
    }

    /// Gives the stream of the entry that follows to the player; tells whether it still
    /// follows.
    pub fn next_stream_resolved(&mut self, request: &NextStreamRequest, stream: StreamDescriptor)
        -> (result: bool)
        requires
            old(self).deep_view().wf(),
        ensures
            result == old(self).deep_view().is_next_request(request.deep_view()),
            final(self).deep_view() == (if result {
                old(self).deep_view().send(
                    PlaybackCommandView::PrepareNext(
                        Some(
                            prepared_item(request.deep_view().next_entry, stream.deep_view()),
                        ),
                    ),
                )
            } else {
                old(self).deep_view()
            }),
            final(self).deep_view().wf(),
    {
        if !self.next_request_matches(request) {
            return false;
        }
        let item: PreparedPlaybackItem = prepared_item_from_entry(&request.next_entry, stream);
        self.send_playback_command(PlaybackCommand::PrepareNext(Some(item)));
        true
    }

    /// Tells that the stream of the entry that follows cannot be had.
    pub fn next_stream_failed(&mut self, request: &NextStreamRequest, error: String)
        requires
            old(self).deep_view().wf(),
        ensures
            final(self).deep_view() == (if old(self).deep_view().is_next_request(
                request.deep_view(),
            ) {
                old(self).deep_view().fail(error@)
            } else {
                old(self).deep_view()
            }),
            final(self).deep_view().wf(),
    {
        if self.next_request_matches(request) {
            self.fail(error);
        }
    }

    /// Saves the queue where the player got ten seconds further.
    pub fn persist_progress_if_needed(&mut self, seconds: u32)
        requires
            old(self).deep_view().wf(),
        ensures
            final(self).deep_view() == old(self).deep_view().persist_progress(seconds),
            final(self).deep_view().wf(),
    {
        let snapshot: QueueSnapshot = match self.queue_snapshot() {
            Some(snapshot) => snapshot,
            None => {
                return;
            },
        };
        let mark: Option<ProgressMark> = Some(
            ProgressMark { server_id: snapshot.server_id.copy(), bucket: seconds / 10 },
        );
        if self.last_progress_snapshot.same(&mark) {
            return;
        }
        self.last_progress_snapshot = mark;
        let _result: Result<(), String> = self.store.save_queue_snapshot(&snapshot);
    }

    /// Reports what is played where the player got ten seconds further.
    pub fn report_playback_progress_if_needed(&mut self, seconds: u32)
        requires
            old(self).deep_view().wf(),
        ensures
            final(self).deep_view() == old(self).deep_view().report_progress(seconds),
            final(self).deep_view().wf(),
    {
        let mark: Option<ReportMark> = match &self.playback_snapshot.current {
            Some(current) => Some(
                ReportMark { track_id: current.track_id.copy(), bucket: seconds / 10 },
            ),
            None => {
                return;
            },
        };
        if self.last_report_snapshot.same(&mark) {
            return;
        }
        self.last_report_snapshot = mark;
        self.report_playback(PlaybackReportKind::Progress, false);
    }

    /// Saves and tells the queue and makes the player's state follow it.
    pub fn persist_and_emit_queue_with_next_preload(&mut self, prepare_next: bool)
        requires
            old(self).deep_view().wf(),
        ensures
            final(self).deep_view() == old(self).deep_view().show_queue(prepare_next),
            final(self).deep_view().wf(),
    {
        reveal(ControllerView::show_queue);
        let snapshot: Option<QueueSnapshot> = self.queue_snapshot();
        if let Some(snapshot) = snapshot.copy() {
            self.persist_queue_snapshot_deferred(snapshot);
        }
        self.sync_playback_snapshot_from_queue();
        self.emit(crate::model::events::ControllerEvent::Queue(snapshot));
        self.emit_playback_snapshot();
        if prepare_next {
            self.prepare_next_stream();
        }
    }
}

} // verus!
