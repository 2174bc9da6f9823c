//! Commands to the player, and what it tells.

use crate::controller::{AppController, ControllerView};
use crate::model::events::{Effect, EffectView};
use crate::model::ids::TrackId;
use crate::model::playback::{
    PlaybackCommand, PlaybackCommandView, PlaybackEvent, PlaybackEventView, PlaybackReportKind,
    PlaybackSnapshotView, PlaybackState, PlaybackTrack, PlaybackTrackView,
};
use crate::model::settings::{
    AppSettings, AppSettingsView, PlaybackSettings, PlaybackSettingsView, Volume, VolumeView,
};
use crate::queue::QueueView;
use crate::text;
use crate::value::Value;
use vstd::prelude::*;

verus! {

/// What is told where there is no queue.
pub const NO_QUEUE: &'static str = "No active queue is available.";

/// Settings with another volume.
#[verifier::opaque]
pub open spec fn with_volume(settings: AppSettingsView, volume: VolumeView) -> AppSettingsView {
    AppSettingsView {
        playback: PlaybackSettingsView { volume, ..settings.playback },
        ..settings
    }
}

/// Settings with the sound turned off or on.
#[verifier::opaque]
pub open spec fn with_muted(settings: AppSettingsView, muted: bool) -> AppSettingsView {
    AppSettingsView { playback: PlaybackSettingsView { muted, ..settings.playback }, ..settings }
}

/// The whole seconds of a position.
pub open spec fn whole_seconds(millis: u64) -> u32 {
    if millis / 1000 > u32::MAX {
        u32::MAX
    } else {
        (millis / 1000) as u32
    }
}

fn seconds_of(millis: u64) -> (result: u32)
    ensures
        result == whole_seconds(millis),
{
    if millis / 1000 > u32::MAX as u64 {
        u32::MAX
    } else {
        (millis / 1000) as u32
    }
}

impl ControllerView {
    /// With the player known to be in a state.
    #[verifier::opaque]
    pub open spec fn in_state(self, state: PlaybackState) -> ControllerView {
        self.with_player(
            PlaybackSnapshotView { state, buffering_percent: None, ..self.playback_snapshot },
        )
    }

    /// With how far the current entry was played.
    #[verifier::opaque]
    pub open spec fn with_progress(self, seconds: u32) -> ControllerView {
        match self.queue {
            Some(queue) => self.with_queue(QueueView { progress_seconds: seconds, ..queue }),
            None => self,
        }
    }

    /// With the player known to be at a position.
    #[verifier::opaque]
    pub open spec fn at_position(self, seconds: u32, millis: u64) -> ControllerView {
        self.with_player(
            PlaybackSnapshotView {
                position_seconds: seconds,
                position_millis: millis,
                ..self.playback_snapshot
            },
        )
    }

    /// With the queue at another entry, or as it is where there is none.
    #[verifier::opaque]
    pub open spec fn with_moved_queue(self, id: Option<Seq<char>>) -> ControllerView {
        match self.queue {
            Some(queue) => self.with_queue(queue.moved(id)),
            None => self,
        }
    }

    /// What follows the current entry.
    #[verifier::opaque]
    pub open spec fn following(self) -> Option<Seq<char>> {
        match self.queue {
            Some(queue) => queue.following(),
            None => None,
        }
    }

    /// What came before the current entry.
    #[verifier::opaque]
    pub open spec fn preceding(self) -> Option<Seq<char>> {
        match self.queue {
            Some(queue) => queue.preceding(),
            None => None,
        }
    }

    /// What is played once the current entry has ended.
    #[verifier::opaque]
    pub open spec fn after_end(self) -> Option<Seq<char>> {
        match self.queue {
            Some(queue) => queue.after_end(),
            None => None,
        }
    }

    /// With the player paused.
    #[verifier::opaque]
    pub open spec fn paused(self) -> ControllerView {
        self.in_state(PlaybackState::Paused).persist_current().emit_player().report(
            PlaybackReportKind::Progress,
            false,
        )
    }

    /// With the player going on.
    #[verifier::opaque]
    pub open spec fn resumed(self) -> ControllerView {
        self.in_state(PlaybackState::Playing).emit_player().report(
            PlaybackReportKind::Progress,
            false,
        )
    }

    /// With the player stopped, at the beginning of the current entry.
    #[verifier::opaque]
    pub open spec fn stopped(self) -> ControllerView {
        self.in_state(PlaybackState::Stopped).at_position(0, 0).show_queue(true)
    }

    /// With the player at a position of the current entry.
    #[verifier::opaque]
    pub open spec fn moved_to(self, millis: u64) -> ControllerView {
        self.persist_current().follow_queue().at_position(
            whole_seconds(millis),
            millis,
        ).emit_player()
    }

    /// With a volume, kept for later and told.
    #[verifier::opaque]
    pub open spec fn volume_set(self, volume: VolumeView) -> ControllerView {
        let saved = self.save_or_fail(with_volume(self.settings(), volume));
        saved.sounding(volume, saved.playback_snapshot.muted).emit_player()
    }

    /// With the sound off or on, kept for later and told.
    #[verifier::opaque]
    pub open spec fn muted_set(self, muted: bool) -> ControllerView {
        let saved = self.save_or_fail(with_muted(self.settings(), muted));
        saved.sounding(saved.playback_snapshot.volume, muted).emit_player()
    }

    /// With settings for the player in use.
    #[verifier::opaque]
    pub open spec fn settings_used(self, playback: PlaybackSettingsView) -> ControllerView {
        self.sounding(playback.volume, playback.muted).prepare_next().emit_player()
    }

    /// With something that the player was told taken by it: what it was to bring about is now
    /// so.
    pub open spec fn command_accepted(self, command: PlaybackCommandView) -> ControllerView {
        match command {
            PlaybackCommandView::Pause => self.paused(),
            PlaybackCommandView::Resume => self.resumed(),
            PlaybackCommandView::Stop => self.stopped(),
            PlaybackCommandView::SeekMillis(millis) => self.moved_to(millis),
            PlaybackCommandView::SetVolume(volume) => self.volume_set(volume),
            PlaybackCommandView::SetMuted(muted) => self.muted_set(muted),
            PlaybackCommandView::UpdateSettings(playback) => self.settings_used(playback),
            PlaybackCommandView::WarmUp(_) => self,
            PlaybackCommandView::PlayPrepared { .. } => self,
            PlaybackCommandView::PrepareNext(_) => self,
        }
    }

    /// With something that the player was told refused by it: the error is told, and what it
    /// was to bring about is not so. An entry that cannot be played leaves the player stopped;
    /// settings are used all the same; and that nothing follows may go unheard.
    pub open spec fn command_rejected(self, command: PlaybackCommandView, error: Seq<char>)
        -> ControllerView {
        match command {
            PlaybackCommandView::PlayPrepared { .. } => self.stopped_by(error),
            PlaybackCommandView::UpdateSettings(playback) => self.fail(error).settings_used(
                playback,
            ),
            PlaybackCommandView::PrepareNext(None) => self,
            _ => self.fail(error),
        }
    }

    /// With the player paused where it plays, going on where it is paused, and started where
    /// it is stopped.
    pub open spec fn play_pause(self) -> ControllerView {
        match self.playback_snapshot.state {
            PlaybackState::Playing | PlaybackState::Buffering => self.send(
                PlaybackCommandView::Pause,
            ),
            PlaybackState::Paused => self.send(PlaybackCommandView::Resume),
            PlaybackState::Stopped => self.start_current(),
        }
    }

    /// With the player told to stop, and the queue at the beginning of the current entry.
    #[verifier::opaque]
    pub open spec fn stop(self) -> ControllerView {
        self.report(PlaybackReportKind::Stopped, false).with_progress(0).send(
            PlaybackCommandView::Stop,
        )
    }

    /// With the player told to go to a position of the current entry, and the queue there.
    #[verifier::opaque]
    pub open spec fn seek_millis(self, millis: u64) -> ControllerView {
        self.with_progress(whole_seconds(millis)).send(PlaybackCommandView::SeekMillis(millis))
    }

    /// With the next entry being started. Where none follows, the current one begins anew.
    #[verifier::opaque]
    pub open spec fn next_track(self) -> ControllerView {
        let filled = self.top_up();
        if filled.queue is None {
            filled.fail(NO_QUEUE@)
        } else if filled.following() is Some {
            filled.with_moved_queue(filled.following()).show_queue(true).start_current()
        } else if filled.current() is Some {
            filled.seek_millis(0)
        } else {
            filled.stop()
        }
    }

    /// With the entry before being started. The current one begins anew where it was played
    /// for more than ten seconds, or none came before.
    #[verifier::opaque]
    pub open spec fn previous_track(self) -> ControllerView {
        if self.playback_snapshot.position_seconds > 10 {
            self.seek_millis(0)
        } else if self.queue is None {
            self.fail(NO_QUEUE@)
        } else if self.preceding() is Some {
            self.with_moved_queue(self.preceding()).top_up().show_queue(true).start_current()
        } else {
            self.seek_millis(0)
        }
    }

    /// With the player known to have a volume.
    #[verifier::opaque]
    pub open spec fn sounding(self, volume: VolumeView, muted: bool) -> ControllerView {
        self.with_player(PlaybackSnapshotView { volume, muted, ..self.playback_snapshot })
    }

    /// With settings for the player. Nothing else happens where they cannot be saved.
    #[verifier::opaque]
    pub open spec fn update_playback_settings(self, playback: PlaybackSettingsView)
        -> ControllerView {
        let settings = self.settings();
        let changed = settings.playback != playback;
        if changed && self.store.fault is Some {
            self.fail(self.store.fault->0)
        } else {
            let saved = if changed {
                self.with_store(
                    self.store.with_settings(AppSettingsView { playback, ..settings }),
                )
            } else {
                self
            };
            saved.send(PlaybackCommandView::UpdateSettings(playback))
        }
    }

    /// With the entry that is now current being started.
    pub open spec fn go_on(self) -> ControllerView {
        self.show_queue(false).start_current().top_up_later()
    }

    /// With the current entry ended: what follows is started, after filling the queue where
    /// nothing does; else the player is stopped.
    #[verifier::opaque]
    pub open spec fn end_of_stream(self) -> ControllerView {
        let ended = self.report(PlaybackReportKind::Stopped, false).ask(
            EffectView::ActivityEnded,
        );
        if ended.queue is None {
            ended.fail(NO_QUEUE@)
        } else if ended.after_end() is Some {
            ended.with_moved_queue(ended.after_end()).go_on()
        } else if ended.current() is None {
            ended.stop()
        } else {
            let filled = ended.top_up();
            if ended.tops_up() && filled.after_end() is Some {
                filled.with_moved_queue(filled.after_end()).go_on()
            } else {
                filled.stop()
            }
        }
    }

    /// With the player known to play a track from its beginning.
    #[verifier::opaque]
    pub open spec fn playing(self, duration_seconds: u32) -> ControllerView {
        self.with_player(
            PlaybackSnapshotView {
                state: PlaybackState::Playing,
                position_seconds: 0,
                position_millis: 0,
                duration_seconds,
                buffering_percent: None,
                last_error: None,
                ..self.playback_snapshot
            },
        )
    }

    /// With the beginning of the current entry noted.
    #[verifier::opaque]
    pub open spec fn begin_activity(self) -> ControllerView {
        match self.current() {
            Some(entry) => self.ask(
                EffectView::ActivityStarted {
                    server_id: self.queue->0.server_id,
                    entry,
                    position_seconds: self.queue->0.progress_seconds,
                },
            ),
            None => self,
        }
    }

    /// Whether a track is the one that follows.
    #[verifier::opaque]
    pub open spec fn is_next(self, track_id: Seq<char>) -> bool {
        self.queue matches Some(queue) && queue.following() matches Some(id) && queue.entry(
            id,
        ).track_id == track_id
    }

    /// With the player gone on to the entry that follows on its own. It is ignored where
    /// something else follows.
    #[verifier::opaque]
    pub open spec fn prepared_started(self, track: PlaybackTrackView) -> ControllerView {
        if !self.is_next(track.id) {
            self
        } else {
            let ended = self.report(PlaybackReportKind::Stopped, false).ask(
                EffectView::ActivityEnded,
            );
            if ended.after_end() is None {
                ended.stop()
            } else {
                ended.with_moved_queue(ended.after_end()).show_queue(false).follow_queue().playing(
                    track.duration_seconds,
                ).begin_activity().emit_player().report(
                    PlaybackReportKind::Started,
                    false,
                ).top_up_later().prepare_next().request_waveform()
            }
        }
    }

    /// Whether what the player tells of a track's timing is of no use: the player has failed,
    /// or plays another track by now.
    pub open spec fn timing_is_stale(self, track_id: Option<Seq<char>>) -> bool {
        ||| self.playback_snapshot.last_error is Some
        ||| track_id is Some && (match self.playback_snapshot.current {
            Some(entry) => entry.track_id != track_id->0,
            None => true,
        })
    }

    /// With the player known to have reached a position.
    #[verifier::opaque]
    pub open spec fn reached(self, seconds: u32, millis: u64) -> ControllerView {
        self.with_progress(seconds).at_position(seconds, millis).persist_progress(
            seconds,
        ).report_progress(seconds)
    }

    /// With the player failed.
    #[verifier::opaque]
    pub open spec fn player_failed(self, error: Seq<char>) -> ControllerView {
        self.report(PlaybackReportKind::Stopped, true).stopped_by(error)
    }

    /// With something noted that the player told; `ended` tells whether it told before that
    /// the stream has ended, which stops it for what follows.
    pub open spec fn after_event(self, event: PlaybackEventView, ended: bool) -> ControllerView {
        match event {
            PlaybackEventView::StateChanged(state) => if ended && state == PlaybackState::Stopped {
                self
            } else {
                self.in_state(state)
            },
            PlaybackEventView::PositionChanged { track_id, seconds, millis } =>
            if self.timing_is_stale(track_id) {
                self
            } else {
                self.reached(seconds, millis)
            },
            PlaybackEventView::DurationChanged { track_id, seconds } => if self.timing_is_stale(
                track_id,
            ) {
                self
            } else {
                self.with_player(
                    PlaybackSnapshotView { duration_seconds: seconds, ..self.playback_snapshot },
                )
            },
            PlaybackEventView::Buffering(percent) => self.with_player(
                PlaybackSnapshotView {
                    state: PlaybackState::Buffering,
                    buffering_percent: Some(percent),
                    ..self.playback_snapshot
                },
            ),
            PlaybackEventView::EndOfStream => self.end_of_stream(),
            PlaybackEventView::PreparedTrackStarted(track) => self.prepared_started(track),
            PlaybackEventView::VolumeChanged { volume, muted } => self.sounding(volume, muted),
            PlaybackEventView::Error(error) => self.player_failed(error),
        }
    }

    /// With all that the player told noted, one after the other.
    pub open spec fn after_events(self, events: Seq<PlaybackEventView>) -> ControllerView
        decreases events.len(),
    {
        if events.len() == 0 {
            self
        } else {
            self.after_events(events.drop_last()).after_event(
                events.last(),
                events.drop_last().contains(PlaybackEventView::EndOfStream),
            )
        }
    }

    /// With all that the player told noted, and its state told where it told anything.
    pub open spec fn poll(self, events: Seq<PlaybackEventView>) -> ControllerView {
        if events.len() == 0 {
            self
        } else {
            self.after_events(events).emit_player()
        }
    }
}

impl AppController {
    fn enter_state(&mut self, state: PlaybackState)
        requires
            old(self).deep_view().wf(),
        ensures
            final(self).deep_view() == old(self).deep_view().in_state(state),
            final(self).deep_view().wf(),
    {
        reveal(ControllerView::in_state);
        self.playback_snapshot.state = state;
        self.playback_snapshot.buffering_percent = None;
    }

    fn set_progress(&mut self, seconds: u32)
        requires
            old(self).deep_view().wf(),
        ensures
            final(self).deep_view() == old(self).deep_view().with_progress(seconds),
            final(self).deep_view().wf(),
    {
        reveal(ControllerView::with_progress);
        if let Some(queue) = &mut self.queue {
            queue.set_progress_seconds(seconds);
        }
    }

    fn set_position(&mut self, seconds: u32, millis: u64)
        requires
            old(self).deep_view().wf(),
        ensures
            final(self).deep_view() == old(self).deep_view().at_position(seconds, millis),
            final(self).deep_view().wf(),
    {
        reveal(ControllerView::at_position);
        self.playback_snapshot.position_seconds = seconds;
        self.playback_snapshot.position_millis = millis;
    }

    fn go_to_following(&mut self) -> (result: bool)
        requires
            old(self).deep_view().wf(),
        ensures
            result == old(self).deep_view().following() is Some,
            final(self).deep_view() == old(self).deep_view().with_moved_queue(
                old(self).deep_view().following(),
            ),
            !result ==> final(self).deep_view() == old(self).deep_view(),
            final(self).deep_view().wf(),
    {
        reveal(ControllerView::with_moved_queue);
        reveal(ControllerView::following);
        match &mut self.queue {
            Some(queue) => queue.next_track(),
            None => false,
        }
    }

    fn go_to_preceding(&mut self) -> (result: bool)
        requires
            old(self).deep_view().wf(),
        ensures
            result == old(self).deep_view().preceding() is Some,
            final(self).deep_view() == old(self).deep_view().with_moved_queue(
                old(self).deep_view().preceding(),
            ),
            !result ==> final(self).deep_view() == old(self).deep_view(),
            final(self).deep_view().wf(),
    {
        reveal(ControllerView::with_moved_queue);
        reveal(ControllerView::preceding);
        match &mut self.queue {
            Some(queue) => queue.previous_track(),
            None => false,
        }
    }

    fn go_on_after_end(&mut self) -> (result: bool)
        requires
            old(self).deep_view().wf(),
        ensures
            result == old(self).deep_view().after_end() is Some,
            final(self).deep_view() == old(self).deep_view().with_moved_queue(
                old(self).deep_view().after_end(),
            ),
            !result ==> final(self).deep_view() == old(self).deep_view(),
            final(self).deep_view().wf(),
    {
        reveal(ControllerView::with_moved_queue);
        reveal(ControllerView::after_end);
        match &mut self.queue {
            Some(queue) => queue.advance_after_end_of_stream(),
            None => false,
        }
    }

    fn has_current(&self) -> (result: bool)
        requires
            self.deep_view().wf(),
        ensures
            result == self.deep_view().current() is Some,
    {
        match &self.queue {
            Some(queue) => queue.current().is_some(),
            None => false,
        }
    }

    fn note_paused(&mut self)
        requires
            old(self).deep_view().wf(),
        ensures
            final(self).deep_view() == old(self).deep_view().paused(),
            final(self).deep_view().wf(),
    {
        reveal(ControllerView::paused);
        self.enter_state(PlaybackState::Paused);
        self.persist_current_queue_snapshot();
        self.emit_playback_snapshot();
        self.report_playback(PlaybackReportKind::Progress, false);
    }

    fn note_resumed(&mut self)
        requires
            old(self).deep_view().wf(),
        ensures
            final(self).deep_view() == old(self).deep_view().resumed(),
            final(self).deep_view().wf(),
    {
        reveal(ControllerView::resumed);
        self.enter_state(PlaybackState::Playing);
        self.emit_playback_snapshot();
        self.report_playback(PlaybackReportKind::Progress, false);
    }

    fn note_stopped(&mut self)
        requires
            old(self).deep_view().wf(),
        ensures
            final(self).deep_view() == old(self).deep_view().stopped(),
            final(self).deep_view().wf(),
    {
        reveal(ControllerView::stopped);
        self.enter_state(PlaybackState::Stopped);
        self.set_position(0, 0);
        self.persist_and_emit_queue_with_next_preload(true);
    }

    fn note_moved(&mut self, millis: u64)
        requires
            old(self).deep_view().wf(),
        ensures
            final(self).deep_view() == old(self).deep_view().moved_to(millis),
            final(self).deep_view().wf(),
    {
        reveal(ControllerView::moved_to);
        self.persist_current_queue_snapshot();
        self.sync_playback_snapshot_from_queue();
        self.set_position(seconds_of(millis), millis);
        self.emit_playback_snapshot();
    }

    fn note_volume_set(&mut self, volume: Volume)
        requires
            old(self).deep_view().wf(),
        ensures
            final(self).deep_view() == old(self).deep_view().volume_set(volume.deep_view()),
            final(self).deep_view().wf(),
    {
        reveal(ControllerView::volume_set);
        let settings: AppSettings = self.settings_with_volume(volume.copy());
        self.save_or_fail(&settings);
        let muted: bool = self.playback_snapshot.muted;
        self.note_volume(volume, muted);
        self.emit_playback_snapshot();
    }

    fn note_muted_set(&mut self, muted: bool)
        requires
            old(self).deep_view().wf(),
        ensures
            final(self).deep_view() == old(self).deep_view().muted_set(muted),
            final(self).deep_view().wf(),
    {
        reveal(ControllerView::muted_set);
        let settings: AppSettings = self.settings_with_muted(muted);
        self.save_or_fail(&settings);
        let volume: Volume = self.playback_snapshot.volume.copy();
        self.note_volume(volume, muted);
        self.emit_playback_snapshot();
    }

    fn note_settings_used(&mut self, playback_settings: PlaybackSettings)
        requires
            old(self).deep_view().wf(),
        ensures
            final(self).deep_view() == old(self).deep_view().settings_used(
                playback_settings.deep_view(),
            ),
            final(self).deep_view().wf(),
    {
        reveal(ControllerView::settings_used);
        self.note_volume(playback_settings.volume, playback_settings.muted);
        self.prepare_next_stream();
        self.emit_playback_snapshot();
    }

    /// Goes on once the player has taken what it was told.
    pub fn command_accepted(&mut self, command: PlaybackCommand)
        requires
            old(self).deep_view().wf(),
        ensures
            final(self).deep_view() == old(self).deep_view().command_accepted(
                command.deep_view(),
            ),
            final(self).deep_view().wf(),
    {
        match command {
            PlaybackCommand::Pause => self.note_paused(),
            PlaybackCommand::Resume => self.note_resumed(),
            PlaybackCommand::Stop => self.note_stopped(),
            PlaybackCommand::SeekMillis(millis) => self.note_moved(millis),
            PlaybackCommand::SetVolume(volume) => self.note_volume_set(volume),
            PlaybackCommand::SetMuted(muted) => self.note_muted_set(muted),
            PlaybackCommand::UpdateSettings(playback_settings) => {
                self.note_settings_used(playback_settings);
            },
            PlaybackCommand::WarmUp(_) => {},
            PlaybackCommand::PlayPrepared { .. } => {},
            PlaybackCommand::PrepareNext(_) => {},
        }
    }

    /// Tells that the player has refused what it was told.
    pub fn command_rejected(&mut self, command: PlaybackCommand, error: String)
        requires
            old(self).deep_view().wf(),
        ensures
            final(self).deep_view() == old(self).deep_view().command_rejected(
                command.deep_view(),
                error@,
            ),
            final(self).deep_view().wf(),
    {
        match command {
            PlaybackCommand::PlayPrepared { .. } => self.stop_by_error(error),
            PlaybackCommand::UpdateSettings(playback_settings) => {
                self.fail(error);
                self.note_settings_used(playback_settings);
            },
            PlaybackCommand::PrepareNext(None) => {},
            _ => self.fail(error),
        }
    }

    /// Pauses the player where it plays, lets it go on where it is paused, and starts it where
    /// it is stopped.
    pub fn play_pause(&mut self)
        requires
            old(self).deep_view().wf(),
        ensures
            final(self).deep_view() == old(self).deep_view().play_pause(),
            final(self).deep_view().wf(),
    {
        match self.playback_snapshot.state {
            PlaybackState::Playing => self.send_playback_command(PlaybackCommand::Pause),
            PlaybackState::Buffering => self.send_playback_command(PlaybackCommand::Pause),
            PlaybackState::Paused => self.send_playback_command(PlaybackCommand::Resume),
            PlaybackState::Stopped => self.start_current_track(),
        }
    }

    /// Stops the player.
    pub fn stop(&mut self)
        requires
            old(self).deep_view().wf(),
        ensures
            final(self).deep_view() == old(self).deep_view().stop(),
            final(self).deep_view().wf(),
    {
        reveal(ControllerView::stop);
        self.report_playback(PlaybackReportKind::Stopped, false);
        self.set_progress(0);
        self.send_playback_command(PlaybackCommand::Stop);
    }

    /// Starts the next entry.
    pub fn next_track(&mut self)
        requires
            old(self).deep_view().wf(),
        ensures
            final(self).deep_view() == old(self).deep_view().next_track(),
            final(self).deep_view().wf(),
    {
        reveal(ControllerView::next_track);
        let _filled: bool = self.auto_dj_top_up_or_emit_error();
        if self.queue.is_none() {
            self.fail(text::owned(NO_QUEUE));
            return;
        }
        if self.go_to_following() {
            self.persist_and_emit_queue_with_next_preload(true);
            self.start_current_track();
        } else if self.has_current() {
            self.seek(0);
        } else {
            self.stop();
        }
    }

    /// Starts the entry before, or the current one anew.
    pub fn previous_track(&mut self)
        requires
            old(self).deep_view().wf(),
        ensures
            final(self).deep_view() == old(self).deep_view().previous_track(),
            final(self).deep_view().wf(),
    {
        reveal(ControllerView::previous_track);
        if self.playback_snapshot.position_seconds > 10 {
            self.seek(0);
            return;
        }
        if self.queue.is_none() {
            self.fail(text::owned(NO_QUEUE));
            return;
        }
        if self.go_to_preceding() {
            let _filled: bool = self.auto_dj_top_up_or_emit_error();
            self.persist_and_emit_queue_with_next_preload(true);
            self.start_current_track();
        } else {
            self.seek(0);
        }
    }

    /// Goes to a position of the current entry.
    pub fn seek(&mut self, seconds: u32)
        requires
            old(self).deep_view().wf(),
        ensures
            final(self).deep_view() == old(self).deep_view().seek_millis((seconds * 1000) as u64),
            final(self).deep_view().wf(),
    {
        self.seek_millis(seconds as u64 * 1000);
    }

    /// Goes to a position of the current entry.
    pub fn seek_millis(&mut self, millis: u64)
        requires
            old(self).deep_view().wf(),
        ensures
            final(self).deep_view() == old(self).deep_view().seek_millis(millis),
            final(self).deep_view().wf(),
    {
        reveal(ControllerView::seek_millis);
        self.set_progress(seconds_of(millis));
        self.send_playback_command(PlaybackCommand::SeekMillis(millis));
    }

    fn settings_with_volume(&self, volume: Volume) -> (result: AppSettings)
        ensures
            result.deep_view() == with_volume(self.deep_view().settings(), volume.deep_view()),
    {
        reveal(with_volume);
        let mut settings: AppSettings = self.load_settings();
        settings.playback.volume = volume;
        settings
    }

    fn settings_with_muted(&self, muted: bool) -> (result: AppSettings)
        ensures
            result.deep_view() == with_muted(self.deep_view().settings(), muted),
    {
        reveal(with_muted);
        let mut settings: AppSettings = self.load_settings();
        settings.playback.muted = muted;
        settings
    }

    /// Tells the player to sound with a volume.
    pub fn set_volume(&mut self, volume: Volume)
        requires
            old(self).deep_view().wf(),
        ensures
            final(self).deep_view() == old(self).deep_view().send(
                PlaybackCommandView::SetVolume(volume.deep_view()),
            ),
            final(self).deep_view().wf(),
    {
        self.send_playback_command(PlaybackCommand::SetVolume(volume));
    }

    /// Tells the player to turn the sound off or on.
    pub fn toggle_mute(&mut self)
        requires
            old(self).deep_view().wf(),
        ensures
            final(self).deep_view() == old(self).deep_view().send(
                PlaybackCommandView::SetMuted(!old(self).deep_view().playback_snapshot.muted),
            ),
            final(self).deep_view().wf(),
    {
        let muted: bool = !self.playback_snapshot.muted;
        self.send_playback_command(PlaybackCommand::SetMuted(muted));
    }

    fn note_volume(&mut self, volume: Volume, muted: bool)
        requires
            old(self).deep_view().wf(),
        ensures
            final(self).deep_view() == old(self).deep_view().sounding(volume.deep_view(), muted),
            final(self).deep_view().wf(),
    {
        reveal(ControllerView::sounding);
        self.playback_snapshot.volume = volume;
        self.playback_snapshot.muted = muted;
    }

    /// Sets how the player plays.
    pub fn update_playback_settings(&mut self, playback_settings: PlaybackSettings)
        requires
            old(self).deep_view().wf(),
        ensures
            final(self).deep_view() == old(self).deep_view().update_playback_settings(
                playback_settings.deep_view(),
            ),
            final(self).deep_view().wf(),
    {
        reveal(ControllerView::update_playback_settings);
        let mut settings: AppSettings = self.load_settings();
        if !settings.playback.same(&playback_settings) {
            settings.playback = playback_settings.copy();
            if let Err(error) = self.save_settings(&settings) {
                self.fail(error);
                return;
            }
        }
        self.send_playback_command(PlaybackCommand::UpdateSettings(playback_settings));
    }

    fn go_on(&mut self)
        requires
            old(self).deep_view().wf(),
        ensures
            final(self).deep_view() == old(self).deep_view().go_on(),
            final(self).deep_view().wf(),
    {
        self.persist_and_emit_queue_with_next_preload(false);
        self.start_current_track();
        self.auto_dj_top_up_deferred();
    }

    /// Goes on once the current entry has ended.
    pub fn advance_after_end_of_stream(&mut self)
        requires
            old(self).deep_view().wf(),
        ensures
            final(self).deep_view() == old(self).deep_view().end_of_stream(),
            final(self).deep_view().wf(),
    {
        reveal(ControllerView::end_of_stream);
        self.report_playback(PlaybackReportKind::Stopped, false);
        self.ask(Effect::ActivityEnded);
        if self.queue.is_none() {
            self.fail(text::owned(NO_QUEUE));
            return;
        }
        if self.go_on_after_end() {
            self.go_on();
            return;
        }
        if self.has_current() {
            if self.auto_dj_top_up_or_emit_error() {
                if self.go_on_after_end() {
                    self.go_on();
                    return;
                }
            }
        }
        self.stop();
    }

    fn note_playing(&mut self, duration_seconds: u32)
        requires
            old(self).deep_view().wf(),
        ensures
            final(self).deep_view() == old(self).deep_view().playing(duration_seconds),
            final(self).deep_view().wf(),
    {
        reveal(ControllerView::playing);
        self.playback_snapshot.state = PlaybackState::Playing;
        self.playback_snapshot.position_seconds = 0;
        self.playback_snapshot.position_millis = 0;
        self.playback_snapshot.duration_seconds = duration_seconds;
        self.playback_snapshot.buffering_percent = None;
        self.playback_snapshot.last_error = None;
    }

    fn begin_activity(&mut self)
        requires
            old(self).deep_view().wf(),
        ensures
            final(self).deep_view() == old(self).deep_view().begin_activity(),
            final(self).deep_view().wf(),
    {
        reveal(ControllerView::begin_activity);
        if let Some((server_id, entry, position_seconds)) = self.current_queue_entry() {
            self.ask(Effect::ActivityStarted { server_id, entry, position_seconds });
        }
    }

    fn follows(&self, track_id: &TrackId) -> (result: bool)
        requires
            self.deep_view().wf(),
        ensures
            result == self.deep_view().is_next(track_id.deep_view()),
    {
        reveal(ControllerView::is_next);
        match &self.queue {
            Some(queue) => match queue.following_entry() {
                Some(entry) => entry.track_id.same(track_id),
                None => false,
            },
            None => false,
        }
    }

    /// Goes on where the player went on to the entry that follows on its own.
    pub fn advance_after_prepared_track_started(&mut self, track: &PlaybackTrack)
        requires
            old(self).deep_view().wf(),
        ensures
            final(self).deep_view() == old(self).deep_view().prepared_started(track.deep_view()),
            final(self).deep_view().wf(),
    {
        reveal(ControllerView::prepared_started);
        if !self.follows(&track.id) {
            return;
        }
        self.report_playback(PlaybackReportKind::Stopped, false);
        self.ask(Effect::ActivityEnded);
        if !self.go_on_after_end() {
            self.stop();
            return;
        }
        self.persist_and_emit_queue_with_next_preload(false);
        self.sync_playback_snapshot_from_queue();
        self.note_playing(track.duration_seconds);
        self.begin_activity();
        self.emit_playback_snapshot();
        self.report_playback(PlaybackReportKind::Started, false);
        self.auto_dj_top_up_deferred();
        self.prepare_next_stream();
        self.request_waveform_for_current();
    }

    fn timing_is_stale(&self, track_id: &Option<TrackId>) -> (result: bool)
        ensures
            result == self.deep_view().timing_is_stale(track_id.deep_view()),
    {
        if self.playback_snapshot.last_error.is_some() {
            return true;
        }
        match track_id {
            None => false,
            Some(track_id) => match &self.playback_snapshot.current {
                Some(entry) => !entry.track_id.same(track_id),
                None => true,
            },
        }
    }

    fn note_position(&mut self, seconds: u32, millis: u64)
        requires
            old(self).deep_view().wf(),
        ensures
            final(self).deep_view() == old(self).deep_view().reached(seconds, millis),
            final(self).deep_view().wf(),
    {
        reveal(ControllerView::reached);
        self.set_progress(seconds);
        self.set_position(seconds, millis);
        self.persist_progress_if_needed(seconds);
        self.report_playback_progress_if_needed(seconds);
    }

    fn note_failure(&mut self, error: String)
        requires
            old(self).deep_view().wf(),
        ensures
            final(self).deep_view() == old(self).deep_view().player_failed(error@),
            final(self).deep_view().wf(),
    {
        reveal(ControllerView::player_failed);
        self.report_playback(PlaybackReportKind::Stopped, true);
        self.stop_by_error(error);
    }

    fn note_event(&mut self, event: &PlaybackEvent, ended: bool)
        requires
            old(self).deep_view().wf(),
        ensures
            final(self).deep_view() == old(self).deep_view().after_event(event.deep_view(), ended),
            final(self).deep_view().wf(),
    {
        match event {
            PlaybackEvent::StateChanged(state) => {
                if !ended || *state != PlaybackState::Stopped {
                    self.enter_state(*state);
                }
            },
            PlaybackEvent::PositionChanged { track_id, seconds, millis } => {
                if !self.timing_is_stale(track_id) {
                    self.note_position(*seconds, *millis);
                }
            },
            PlaybackEvent::DurationChanged { track_id, seconds } => {
                if !self.timing_is_stale(track_id) {
                    self.playback_snapshot.duration_seconds = *seconds;
                }
            },
            PlaybackEvent::Buffering(percent) => {
                self.playback_snapshot.state = PlaybackState::Buffering;
                self.playback_snapshot.buffering_percent = Some(*percent);
            },
            PlaybackEvent::EndOfStream => {
                self.advance_after_end_of_stream();
            },
            PlaybackEvent::PreparedTrackStarted(track) => {
                self.advance_after_prepared_track_started(track);
            },
            PlaybackEvent::VolumeChanged { volume, muted } => {
                self.note_volume(volume.copy(), *muted);
            },
            PlaybackEvent::Error(error) => {
                self.note_failure(error.copy());
            },
        }
    }

    /// Notes what the player told.
    pub fn poll_playback_events(&mut self, events: Vec<PlaybackEvent>)
        requires
            old(self).deep_view().wf(),
        ensures
            final(self).deep_view() == old(self).deep_view().poll(events.deep_view()),
            final(self).deep_view().wf(),
    {
        let ghost all = events.deep_view();
        let ghost before = self.deep_view();
        if events.len() == 0 {
            return;
        }
        let mut ended: bool = false;
        let mut i: usize = 0;
        assert(all.take(0) =~= Seq::empty());
        while i < events.len()
            invariant
                i <= events@.len(),
                all == events.deep_view(),
                self.deep_view().wf(),
                self.deep_view() == before.after_events(all.take(i as int)),
                ended == all.take(i as int).contains(PlaybackEventView::EndOfStream),
            decreases events.len() - i,
        {
            let ghost head = all.take(i as int);
            let ghost next = all.take(i + 1);
            assert(next.drop_last() =~= head);
            assert(next.last() == events@[i as int].deep_view());
            self.note_event(&events[i], ended);
            let is_end: bool = match &events[i] {
                PlaybackEvent::EndOfStream => true,
                _ => false,
            };
            proof {
                let end = PlaybackEventView::EndOfStream;
                if head.contains(end) {
                    let at = head.index_of(end);
                    assert(next[at] == end);
                }
                if is_end {
                    assert(next[i as int] == end);
                }
                if next.contains(end) {
                    let at = next.index_of(end);
                    if at < i {
                        assert(head[at] == end);
                    }
                }
            }
            ended = ended || is_end;
            i += 1;
        }
        assert(all.take(i as int) =~= all);
        self.emit_playback_snapshot();
    }
}

} // verus!
