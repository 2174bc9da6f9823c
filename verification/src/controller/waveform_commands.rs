//! Waveforms of what is played and of what follows.

use crate::controller::playback::{search_for, search_of};
use crate::controller::{AppController, ControllerView};
use crate::model::events::{Effect, EffectView, WaveformSearch};
use crate::model::playback::{PlaybackSnapshotView, PlaybackState};
use crate::model::queue::QueueSnapshot;
use crate::model::settings::AppSettings;
use crate::model::waveform::{
    WaveformGenerationKind, WaveformGenerationPermit, WaveformGenerationPermitView,
    WaveformWarmRequest, WaveformWarmRequestView,
};
use crate::value::Value;
use crate::waveforms::{
    is_remote_source, remote_waveform_warm_can_run, set_waveform_cache_key, take_waveform,
    upcoming, warm_requests, waveform_cache_key, waveform_generation_source_is_remote,
    waveform_key, waveform_warm_requests, with_waveform_key, WAVEFORM_WARM_QUEUE_LIMIT,
};
use vstd::prelude::*;

verus! {

impl ControllerView {
    /// With the waveform of the current entry asked for, in place of any that was being made
    /// ready ahead of time.
    #[verifier::opaque]
    pub open spec fn request_waveform(self) -> ControllerView {
        if !self.settings().seekbar_waveform_enabled {
            self
        } else {
            let cancelled = ControllerView {
                waveform_warm_generation: self.waveform_warm_generation.wrapping_add(1),
                ..self
            };
            match self.current() {
                None => cancelled,
                Some(entry) => {
                    let search = search_of(
                        self.queue->0.server_id,
                        entry,
                        self.settings().playback,
                        None,
                    );
                    cancelled.with_player(
                        with_waveform_key(self.playback_snapshot, Some(search.cache_key)),
                    ).ask(EffectView::FindWaveform(search))
                },
            }
        }
    }

    /// With a waveform shown where it is that of the track that is played.
    pub open spec fn show_waveform(self, cache_key: Seq<char>, waveform: u64) -> ControllerView {
        if self.playback_snapshot.waveform_cache_key == Some(cache_key) {
            self.with_player(
                PlaybackSnapshotView { waveform: Some(waveform), ..self.playback_snapshot },
            ).emit_player()
        } else {
            self
        }
    }

    /// With a permit to generate a waveform taken.
    pub open spec fn with_permit(
        self,
        cache_key: Seq<char>,
        kind: WaveformGenerationKind,
    ) -> ControllerView {
        ControllerView {
            waveform_permits: self.waveform_permits.with_in_flight(
                kind,
                self.waveform_permits.in_flight(kind).insert(cache_key),
            ),
            ..self
        }
    }

    /// With a permit to generate a waveform given back.
    pub open spec fn without_permit(self, permit: WaveformGenerationPermitView) -> ControllerView {
        ControllerView {
            waveform_permits: self.waveform_permits.with_in_flight(
                permit.kind,
                self.waveform_permits.in_flight(permit.kind).remove(permit.cache_key),
            ),
            ..self
        }
    }

    /// The requests for the waveforms of what follows.
    pub open spec fn warm_requests(self) -> Seq<WaveformWarmRequestView> {
        match self.queue_snapshot() {
            None => Seq::empty(),
            Some(snapshot) => warm_requests(
                snapshot.server_id,
                upcoming(snapshot, WAVEFORM_WARM_QUEUE_LIMIT),
                self.settings().playback,
            ),
        }
    }

    /// With the waveforms of what follows to be made ready, in place of any earlier ones.
    pub open spec fn warm_waveforms(self) -> ControllerView {
        if !self.settings().seekbar_waveform_enabled || self.warm_requests().len() == 0 {
            self
        } else {
            let generation = self.waveform_warm_generation.wrapping_add(1);
            (ControllerView { waveform_warm_generation: generation, ..self }).ask(
                EffectView::WarmWaveforms { generation, requests: self.warm_requests() },
            )
        }
    }
}

impl AppController {
    /// Asks for the waveform of the current entry.
    pub fn request_waveform_for_current(&mut self)
        requires
            old(self).deep_view().wf(),
        ensures
            final(self).deep_view() == old(self).deep_view().request_waveform(),
            final(self).deep_view().wf(),
    {
        reveal(ControllerView::request_waveform);
        let settings: AppSettings = self.load_settings();
        if !settings.seekbar_waveform_enabled {
            return;
        }
        self.cancel_waveform_warm();
        if let Some((server_id, entry, _)) = self.current_queue_entry() {
            let search: WaveformSearch = search_for(&server_id, &entry, &settings.playback, None);
            let _wanted: bool = set_waveform_cache_key(
                &mut self.playback_snapshot,
                Some(search.cache_key.copy()),
            );
            self.ask(Effect::FindWaveform(search));
        }
    }

    /// Stops making waveforms ready ahead of time.
    pub fn cancel_waveform_warm(&mut self)
        ensures
            final(self).deep_view() == (ControllerView {
                waveform_warm_generation: old(
                    self,
                ).deep_view().waveform_warm_generation.wrapping_add(1),
                ..old(self).deep_view()
            }),
    {
        self.waveform_warm_generation = self.waveform_warm_generation.wrapping_add(1);
    }

    /// Shows a waveform where it is that of the track that is played.
    pub fn publish_waveform(&mut self, cache_key: &str, waveform: u64)
        ensures
            final(self).deep_view() == old(self).deep_view().show_waveform(cache_key@, waveform),
    {
        if take_waveform(&mut self.playback_snapshot, cache_key, waveform) {
            self.emit_playback_snapshot();
        }
    }

    /// Has a waveform generated that was looked for and is not in the cache, unless it is
    /// being generated already.
    pub fn waveform_not_cached(&mut self, search: WaveformSearch)
        ensures
            final(self).deep_view() == (if old(self).deep_view().waveform_permits.in_flight(
                WaveformGenerationKind::Foreground,
            ).contains(search.deep_view().cache_key) {
                old(self).deep_view()
            } else {
                old(self).deep_view().with_permit(
                    search.deep_view().cache_key,
                    WaveformGenerationKind::Foreground,
                ).ask(EffectView::GenerateWaveform(search.deep_view()))
            }),
    {
        let ghost before = self.deep_view();
        let permit: Option<WaveformGenerationPermit> =
            self.waveform_permits.acquire_waveform_generation_permit(
            search.cache_key.as_str(),
            WaveformGenerationKind::Foreground,
        );
        if permit.is_some() {
            self.ask(Effect::GenerateWaveform(search));
        } else {
            assert(self.deep_view().waveform_permits.foreground
                =~= before.waveform_permits.foreground);
        }
    }

    /// Takes what came of generating a waveform.
    pub fn waveform_generated(&mut self, permit: WaveformGenerationPermit, waveform: Option<u64>)
        ensures
            final(self).deep_view() == (match waveform {
                Some(waveform) => old(self).deep_view().without_permit(
                    permit.deep_view(),
                ).show_waveform(permit.deep_view().cache_key, waveform),
                None => old(self).deep_view().without_permit(permit.deep_view()),
            }),
    {
        let cache_key: String = permit.cache_key.copy();
        self.waveform_permits.release(permit);
        if let Some(waveform) = waveform {
            self.publish_waveform(cache_key.as_str(), waveform);
        }
    }

    /// Has the waveforms of what follows made ready.
    pub fn warm_waveforms_for_queue(&mut self)
        requires
            old(self).deep_view().wf(),
        ensures
            final(self).deep_view() == old(self).deep_view().warm_waveforms(),
            final(self).deep_view().wf(),
    {
        let settings: AppSettings = self.load_settings();
        if !settings.seekbar_waveform_enabled {
            return;
        }
        let snapshot: QueueSnapshot = match self.queue_snapshot() {
            Some(snapshot) => snapshot,
            None => {
                return;
            },
        };
        let requests: Vec<WaveformWarmRequest> = waveform_warm_requests(
            &snapshot,
            &settings.playback,
            WAVEFORM_WARM_QUEUE_LIMIT,
        );
        if requests.len() == 0 {
            return;
        }
        let generation: u64 = self.waveform_warm_generation.wrapping_add(1);
        self.waveform_warm_generation = generation;
        self.ask(Effect::WarmWaveforms { generation, requests });
    }

    /// Begins making a waveform ready ahead of time: a permit unless that was given up since,
    /// or the waveform is being made ready already.
    pub fn begin_waveform_warm(&mut self, generation: u64, request: &WaveformWarmRequest) -> (
    result: Option<WaveformGenerationPermit>)
        ensures
            ({
                let key = waveform_key(
                    request.deep_view().server_id,
                    request.deep_view().track_id,
                    request.deep_view().duration_seconds,
                );
                let free = old(self).deep_view().waveform_warm_generation == generation && !old(
                    self,
                ).deep_view().waveform_permits.in_flight(WaveformGenerationKind::Warm).contains(
                    key,
                );
                &&& result.deep_view() == (if free {
                    Some(
                        WaveformGenerationPermitView {
                            cache_key: key,
                            kind: WaveformGenerationKind::Warm,
                        },
                    )
                } else {
                    None
                })
                &&& final(self).deep_view() == (if free {
                    old(self).deep_view().with_permit(key, WaveformGenerationKind::Warm)
                } else {
                    old(self).deep_view()
                })
            }),
    {
        let ghost before = self.deep_view();
        if self.waveform_warm_generation != generation {
            return None;
        }
        let key: String = waveform_cache_key(
            &request.server_id,
            &request.track_id,
            request.duration_seconds,
        );
        let permit: Option<WaveformGenerationPermit> =
            self.waveform_permits.acquire_waveform_generation_permit(
            key.as_str(),
            WaveformGenerationKind::Warm,
        );
        if permit.is_none() {
            assert(self.deep_view().waveform_permits.warm =~= before.waveform_permits.warm);
        }
        permit
    }

    /// Whether a waveform may be made ready from a stream: not where that was given up since,
    /// nor from a remote stream while the player waits for data.
    pub fn waveform_warm_may_run(&self, generation: u64, uri: &str) -> (result: bool)
        ensures
            result == (self.deep_view().waveform_warm_generation == generation && (
            is_remote_source(uri@) ==> self.deep_view().playback_snapshot.state
                != PlaybackState::Buffering && self.deep_view().playback_snapshot.buffering_percent
                is None)),
    {
        self.waveform_warm_generation == generation && (!waveform_generation_source_is_remote(uri)
            || remote_waveform_warm_can_run(&self.playback_snapshot))
    }
}

} // verus!
