//! Reading the libraries of the sources.

use crate::cached_reads::{
    load_snapshot, reconciled, snapshot_of, is_local, source_is_local, LOCAL_SOURCE_SERVER_ID,
};
use crate::controller::{AppController, ControllerView};
use crate::home_sections::{keep_section, kept_section};
use crate::local_access::LOCAL_PROVIDER_ID;
use crate::model::events::{
    ControllerEvent, ControllerEventView, Effect, EffectView, HomeRefreshTarget,
    HomeRefreshTargetView,
};
use crate::model::ids::ServerId;
use crate::model::library::{HomeSection, HomeSectionKind, HomeSectionView};
use crate::model::readiness::{
    SourceSyncReadinessInput, SourceSyncReadinessInputView, SourceSyncReadiness,
};
use crate::model::snapshot::LibrarySnapshot;
use crate::model::source::{SavedServer, SavedServerView};
use crate::model::store::{ServerLibrary, ServerLibraryView, Store, StoreView};
use crate::providers::{display_name, provider_display_name};
use crate::readiness::{readiness_of, source_sync_readiness};
use crate::select::chosen;
use crate::store::{not_of_kind, put_section};
use crate::text;
use crate::value::Value;
use vstd::prelude::*;

verus! {

/// What is told where the source that is shown is not known.
pub const NO_SERVER: &'static str = "No active music server is saved.";

/// What is told where a source is not known any more.
pub const SERVER_GONE: &'static str = "The selected server is no longer saved.";

/// How reading a library is told.
pub open spec fn syncing_text(provider_id: Seq<char>) -> Seq<char> {
    "Syncing "@ + display_name(provider_id) + " library..."@
}

fn syncing_status(provider_id: &String) -> (result: String)
    ensures
        result@ == syncing_text(provider_id@),
{
    let mut result: String = text::owned("Syncing ");
    result.push_str(provider_display_name(provider_id).as_str());
    result.push_str(" library...");
    result
}

impl StoreView {
    /// Whether nothing is kept of the library of a source.
    pub open spec fn library_is_empty(self, server_id: Seq<char>) -> bool {
        self.library(server_id).albums.len() == 0 && self.library(server_id).tracks.len() == 0
    }

    /// The store once the library of a source is being read.
    pub open spec fn syncing(self, server_id: Seq<char>) -> StoreView {
        let library = self.library(server_id);
        self.with_library(
            server_id,
            library.with_sync("syncing"@, library.sync.generation.wrapping_add(1), None),
        )
    }

    /// The store once the library of a source could not be read.
    pub open spec fn sync_failed(self, server_id: Seq<char>, error: Seq<char>) -> StoreView {
        let library = self.library(server_id);
        self.with_library(
            server_id,
            library.with_sync("error"@, library.sync.generation, Some(error)),
        )
    }

    /// The store with a section of the home page that was read.
    pub open spec fn with_section(
        self,
        server_id: Seq<char>,
        section: HomeSectionView,
    ) -> StoreView {
        let library = self.library(server_id);
        self.with_library(
            server_id,
            ServerLibraryView {
                home_sections: put_section(library.home_sections, section),
                ..library
            },
        )
    }

    /// The store with sections of the home page that were read, one after the other.
    pub open spec fn with_sections(
        self,
        saved: SavedServerView,
        sections: Seq<HomeSectionView>,
    ) -> StoreView
        decreases sections.len(),
    {
        if sections.len() == 0 {
            self
        } else {
            self.with_sections(saved, sections.drop_last()).with_section(
                saved.server.id,
                kept_section(sections.last(), is_local(saved)),
            )
        }
    }

    /// The store with a section of the home page kept ready.
    pub open spec fn with_prefetched(
        self,
        server_id: Seq<char>,
        section: HomeSectionView,
    ) -> StoreView {
        let library = self.library(server_id);
        self.with_library(
            server_id,
            ServerLibraryView {
                prefetched_sections: put_section(library.prefetched_sections, section),
                ..library
            },
        )
    }

    /// The store with a section of the home page shown that was kept ready.
    pub open spec fn with_promoted(
        self,
        server_id: Seq<char>,
        section: HomeSectionView,
    ) -> StoreView {
        let library = self.library(server_id);
        self.with_library(
            server_id,
            ServerLibraryView {
                home_sections: put_section(library.home_sections, section),
                prefetched_sections: chosen(
                    library.prefetched_sections,
                    not_of_kind(section.kind),
                ),
                ..library
            },
        )
    }

    /// What is known of the library of a source that was read some time ago.
    pub open spec fn readiness_input(
        self,
        saved: SavedServerView,
        age_seconds: Option<u64>,
        local_artwork_missing: bool,
    ) -> SourceSyncReadinessInputView {
        let library = self.library(saved.server.id);
        SourceSyncReadinessInputView {
            provider: saved.server.provider,
            cached_item_count: if library.albums.len() + library.tracks.len() > 0 {
                1
            } else {
                0
            },
            sync_status: Some(library.sync.status),
            sync_completed_age_seconds: age_seconds,
            local_artwork_missing,
        }
    }

    /// Whether the library of a source is to be read when it is selected.
    #[verifier::opaque]
    pub open spec fn needs_sync(self, saved: SavedServerView, age_seconds: Option<u64>) -> bool {
        readiness_of(self.readiness_input(saved, age_seconds, false)).sync_required_reason is Some
    }
}

/// Keeps sections of the home page that were read, as far as they fit their source.
pub fn keep_sections(store: &mut Store, saved: &SavedServer, sections: &Vec<HomeSection>)
    requires
        old(store).deep_view().fault is None,
    ensures
        final(store).deep_view() == old(store).deep_view().with_sections(
            saved.deep_view(),
            sections.deep_view(),
        ),
        old(store).deep_view().wf() ==> final(store).deep_view().wf(),
{
    let ghost all = sections.deep_view();
    let ghost before = store.deep_view();
    let local: bool = source_is_local(saved);
    let mut i: usize = 0;
    assert(all.take(0) =~= Seq::empty());
    while i < sections.len()
        invariant
            i <= sections@.len(),
            all == sections.deep_view(),
            local == is_local(saved.deep_view()),
            store.deep_view().fault is None,
            before.wf() ==> store.deep_view().wf(),
            store.deep_view() == before.with_sections(saved.deep_view(), all.take(i as int)),
        decreases sections.len() - i,
    {
        assert(all.take(i + 1).drop_last() =~= all.take(i as int));
        assert(all.take(i + 1).last() == sections@[i as int].deep_view());
        let section: HomeSection = keep_section(sections[i].copy(), local);
        let _kept: Result<(), String> = store.upsert_home_section(&saved.server.id, &section);
        i += 1;
    }
    assert(all.take(i as int) =~= all);
}

impl ControllerView {
    /// With the library told as it is kept, or an error where it cannot be read.
    #[verifier::opaque]
    pub open spec fn show_library(self) -> ControllerView {
        match self.store.fault {
            Some(fault) => self.fail(fault),
            None => self.with_store(reconciled(self.store)).emit(
                ControllerEventView::Snapshot(snapshot_of(reconciled(self.store))),
            ),
        }
    }

    /// Whether images are to be kept along with the library of a source. They are where it
    /// cannot be told what is kept.
    pub open spec fn wants_covers(self, server_id: Seq<char>) -> bool {
        if self.store.fault is Some {
            true
        } else if server_id == LOCAL_SOURCE_SERVER_ID@ {
            self.local_artwork_missing
        } else {
            self.store.library_is_empty(server_id)
        }
    }

    /// With the library of a source being read. It is read at most once at a time.
    #[verifier::opaque]
    pub open spec fn start_sync(self, saved: SavedServerView) -> ControllerView {
        let server_id = saved.server.id;
        if self.sync_in_flight.blocked {
            self.fail(self.sync_in_flight.fault())
        } else if self.sync_in_flight.running.contains(server_id) {
            self.tell("Sync already running."@)
        } else if let Some(fault) = self.store.fault {
            self.fail(fault)
        } else {
            (ControllerView {
                sync_in_flight: self.sync_in_flight.with(server_id),
                store: self.store.syncing(server_id),
                ..self
            }).show_library().tell(syncing_text(saved.server.provider)).ask(
                EffectView::Sync {
                    saved,
                    generation: self.store.library(server_id).sync.generation.wrapping_add(1),
                    prefetch_covers: self.wants_covers(server_id),
                },
            )
        }
    }

    /// With reading the library of a source ended.
    pub open spec fn without_sync(self, server_id: Seq<char>) -> ControllerView {
        ControllerView { sync_in_flight: self.sync_in_flight.without(server_id), ..self }
    }

    /// Whether a source is the one that is shown.
    pub open spec fn shows(self, server_id: Seq<char>) -> bool {
        self.store.shown() matches Some(saved) && saved.server.id == server_id
    }

    /// With the library of a source read; what is told is only of the source that is shown.
    #[verifier::opaque]
    pub open spec fn sync_finished(self, saved: SavedServerView) -> ControllerView {
        let ended = self.without_sync(saved.server.id);
        if ended.shows(saved.server.id) {
            ended.ask(
                EffectView::PrefetchExternalCovers {
                    saved,
                    retry_generation: self.external_cover_retry_generation,
                },
            ).tell("Library sync complete"@).show_library()
        } else {
            ended
        }
    }

    /// With reading the library of a source failed.
    #[verifier::opaque]
    pub open spec fn sync_failed(self, server_id: Seq<char>, error: Seq<char>) -> ControllerView {
        let ended = self.without_sync(server_id);
        if ended.shows(server_id) {
            ended.with_store(self.store.sync_failed(server_id, error)).fail(error)
        } else {
            ended
        }
    }

    /// With the home page of a source being read, unless its library is, or it is already.
    #[verifier::opaque]
    pub open spec fn start_home_refresh(
        self,
        saved: SavedServerView,
        target: HomeRefreshTargetView,
    ) -> ControllerView {
        let server_id = saved.server.id;
        let guards = self.home_refresh_in_flight;
        if saved.server.provider == "fake"@ || self.sync_in_flight.holds_back(server_id) {
            self
        } else if guards.blocked {
            self.fail(guards.fault())
        } else if guards.running.contains(server_id) {
            self
        } else {
            (ControllerView { home_refresh_in_flight: guards.with(server_id), ..self }).ask(
                EffectView::RefreshHome { saved, target },
            )
        }
    }

    /// With the playlists of a source being read, unless its library is, or they are already.
    #[verifier::opaque]
    pub open spec fn start_playlist_refresh(self, saved: SavedServerView) -> ControllerView {
        let server_id = saved.server.id;
        let guards = self.playlist_refresh_in_flight;
        if saved.server.provider == "fake"@ || saved.server.provider == LOCAL_PROVIDER_ID@
            || self.sync_in_flight.holds_back(server_id) {
            self
        } else if guards.blocked {
            self.fail(guards.fault())
        } else if guards.running.contains(server_id) {
            self
        } else {
            (ControllerView { playlist_refresh_in_flight: guards.with(server_id), ..self }).ask(
                EffectView::RefreshPlaylists(saved),
            )
        }
    }

    /// With a section of the home page being made ready, unless the library is being read, or
    /// it is already.
    #[verifier::opaque]
    pub open spec fn start_explore_prefetch(self, saved: SavedServerView) -> ControllerView {
        let server_id = saved.server.id;
        let guards = self.explore_prefetch_in_flight;
        if saved.server.provider == "fake"@ || self.sync_in_flight.holds_back(server_id) {
            self
        } else if guards.blocked {
            self.fail(guards.fault())
        } else if guards.running.contains(server_id) {
            self
        } else {
            (ControllerView { explore_prefetch_in_flight: guards.with(server_id), ..self }).ask(
                EffectView::PrefetchExplore(saved),
            )
        }
    }

    /// With a changed home page told, where the store can be read.
    pub open spec fn show_home(self, include_explore: bool) -> ControllerView {
        if self.store.fault is Some {
            self
        } else {
            self.with_store(reconciled(self.store)).emit(
                ControllerEventView::HomeSectionsUpdated {
                    snapshot: snapshot_of(reconciled(self.store)),
                    include_explore,
                },
            )
        }
    }

    /// With sections of the home page read.
    #[verifier::opaque]
    pub open spec fn home_refreshed(
        self,
        saved: SavedServerView,
        target: HomeRefreshTargetView,
        sections: Seq<HomeSectionView>,
    ) -> ControllerView {
        let ended = ControllerView {
            home_refresh_in_flight: self.home_refresh_in_flight.without(saved.server.id),
            ..self
        };
        if self.store.fault is Some {
            ended
        } else {
            ended.with_store(self.store.with_sections(saved, sections)).show_home(
                target == HomeRefreshTargetView::Section(HomeSectionKind::Explore),
            )
        }
    }

    /// With the playlists of a source read.
    #[verifier::opaque]
    pub open spec fn playlists_refreshed(self, server_id: Seq<char>) -> ControllerView {
        let ended = ControllerView {
            playlist_refresh_in_flight: self.playlist_refresh_in_flight.without(server_id),
            ..self
        };
        if self.store.fault is Some {
            ended
        } else {
            ended.show_library()
        }
    }

    /// With a section of the home page made ready.
    #[verifier::opaque]
    pub open spec fn explore_prefetched(
        self,
        saved: SavedServerView,
        section: HomeSectionView,
    ) -> ControllerView {
        let ended = ControllerView {
            explore_prefetch_in_flight: self.explore_prefetch_in_flight.without(saved.server.id),
            ..self
        };
        let kept = kept_section(section, is_local(saved));
        if self.store.fault is Some {
            ended
        } else {
            ended.with_store(self.store.with_prefetched(saved.server.id, kept)).emit(
                ControllerEventView::HomeSectionPrefetched {
                    server_id: saved.server.id,
                    section: kept,
                },
            )
        }
    }

    /// With a section of the home page shown that was made ready.
    #[verifier::opaque]
    pub open spec fn promote_explore(self, section: HomeSectionView) -> ControllerView {
        match self.store.shown() {
            Some(saved) if section.kind == HomeSectionKind::Explore => self.with_store(
                self.store.with_promoted(saved.server.id, section),
            ).show_home(false),
            _ => self,
        }
    }
}

impl AppController {
    /// Tells the library as it is kept.
    pub fn emit_snapshot(&mut self)
        requires
            old(self).deep_view().wf(),
        ensures
            final(self).deep_view() == old(self).deep_view().show_library(),
            final(self).deep_view().wf(),
    {
        reveal(ControllerView::show_library);
        let loaded: Result<LibrarySnapshot, String> = load_snapshot(&mut self.store);
        match loaded {
            Ok(snapshot) => self.emit(ControllerEvent::Snapshot(snapshot)),
            Err(error) => self.fail(error),
        }
    }

    fn show_home(&mut self, include_explore: bool)
        requires
            old(self).deep_view().wf(),
        ensures
            final(self).deep_view() == old(self).deep_view().show_home(include_explore),
            final(self).deep_view().wf(),
    {
        let loaded: Result<LibrarySnapshot, String> = load_snapshot(&mut self.store);
        if let Ok(snapshot) = loaded {
            self.emit(ControllerEvent::HomeSectionsUpdated { snapshot, include_explore });
        }
    }

    /// Whether images are to be kept along with the library of a source.
    pub fn initial_cover_cache_required(&self, server_id: &ServerId) -> (result: bool)
        ensures
            result == self.deep_view().wants_covers(server_id.deep_view()),
    {
        if self.store.fault.is_some() {
            return true;
        }
        if server_id.value.same(&text::owned(LOCAL_SOURCE_SERVER_ID)) {
            return self.local_artwork_missing;
        }
        let library: ServerLibrary = self.store.library(server_id);
        assert(library.deep_view().albums.len() == library.albums@.len());
        assert(library.deep_view().tracks.len() == library.tracks@.len());
        library.albums.len() == 0 && library.tracks.len() == 0
    }

    /// Reads the library of a source, unless it is being read.
    pub fn start_sync(&mut self, saved: &SavedServer)
        requires
            old(self).deep_view().wf(),
        ensures
            final(self).deep_view() == old(self).deep_view().start_sync(saved.deep_view()),
            final(self).deep_view().wf(),
    {
        reveal(ControllerView::start_sync);
        if self.sync_in_flight.blocked || self.sync_in_flight.running.contains(
            saved.server.id.as_str(),
        ) {
            let begun: Result<bool, String> = self.sync_in_flight.acquire(
                saved.server.id.as_str(),
            );
            match begun {
                Err(error) => self.fail(error),
                Ok(_) => {
                    assert(self.deep_view().sync_in_flight.running
                        =~= old(self).deep_view().sync_in_flight.running);
                    self.tell(text::owned("Sync already running."));
                },
            }
            return;
        }
        let prefetch_covers: bool = self.initial_cover_cache_required(&saved.server.id);
        let generation: u64 = match self.store.begin_sync(&saved.server.id) {
            Ok(generation) => generation,
            Err(error) => {
                self.fail(error);
                return;
            },
        };
        let _begun: Result<bool, String> = self.sync_in_flight.acquire(saved.server.id.as_str());
        self.emit_snapshot();
        self.tell(syncing_status(&saved.server.provider));
        self.ask(Effect::Sync { saved: saved.copy(), generation, prefetch_covers });
    }

    fn end_sync(&mut self, server_id: &ServerId)
        requires
            old(self).deep_view().wf(),
        ensures
            final(self).deep_view() == old(self).deep_view().without_sync(server_id.deep_view()),
            final(self).deep_view().wf(),
    {
        let _was_running: bool = self.sync_in_flight.release(server_id.as_str());
    }

    /// Whether the library of a source is being read, or none may be.
    pub fn sync_is_held_back(&self, server_id: &ServerId) -> (result: bool)
        ensures
            result == self.deep_view().sync_in_flight.holds_back(server_id.deep_view()),
    {
        self.sync_in_flight.contains_or_blocked(server_id.as_str())
    }

    /// Whether a source is the one that is shown.
    pub fn sync_target_is_current(&self, server_id: &ServerId) -> (result: bool)
        ensures
            result == self.deep_view().shows(server_id.deep_view()),
    {
        match self.store.shown() {
            Some(saved) => saved.server.id.same(server_id),
            None => false,
        }
    }

    /// Takes it that the library of a source was read.
    pub fn sync_finished(&mut self, saved: &SavedServer)
        requires
            old(self).deep_view().wf(),
        ensures
            final(self).deep_view() == old(self).deep_view().sync_finished(saved.deep_view()),
            final(self).deep_view().wf(),
    {
        reveal(ControllerView::sync_finished);
        self.end_sync(&saved.server.id);
        if self.sync_target_is_current(&saved.server.id) {
            let retry_generation: u64 = self.external_cover_retry_generation;
            self.ask(
                Effect::PrefetchExternalCovers { saved: saved.copy(), retry_generation },
            );
            self.tell(text::owned("Library sync complete"));
            self.emit_snapshot();
        }
    }

    /// Takes it that the library of a source could not be read.
    pub fn sync_failed(&mut self, server_id: &ServerId, error: String)
        requires
            old(self).deep_view().wf(),
        ensures
            final(self).deep_view() == old(self).deep_view().sync_failed(
                server_id.deep_view(),
                error@,
            ),
            final(self).deep_view().wf(),
    {
        reveal(ControllerView::sync_failed);
        self.end_sync(server_id);
        if self.sync_target_is_current(server_id) {
            let _kept: Result<(), String> = self.store.fail_sync(server_id, error.as_str());
            self.fail(error);
        }
    }

    /// Reads the library of the source that is shown.
    pub fn start_background_sync_for_active(&mut self)
        requires
            old(self).deep_view().wf(),
        ensures
            final(self).deep_view() == (match old(self).deep_view().store.shown() {
                Some(saved) => old(self).deep_view().start_sync(saved),
                None => old(self).deep_view(),
            }),
            final(self).deep_view().wf(),
    {
        if let Some(saved) = self.store.shown() {
            self.start_sync(&saved);
        }
    }

    /// Reads the library of the source that is shown, and tells where there is none.
    pub fn resync_active_server(&mut self)
        requires
            old(self).deep_view().wf(),
        ensures
            final(self).deep_view() == (match old(self).deep_view().store.shown() {
                Some(saved) => old(self).deep_view().start_sync(saved),
                None => old(self).deep_view().fail(NO_SERVER@),
            }),
            final(self).deep_view().wf(),
    {
        match self.store.shown() {
            Some(saved) => self.start_sync(&saved),
            None => self.fail(text::owned(NO_SERVER)),
        }
    }

    /// Reads the library of a source.
    pub fn resync_server(&mut self, server_id: &ServerId)
        requires
            old(self).deep_view().wf(),
        ensures
            final(self).deep_view() == (match old(self).deep_view().store.server(
                server_id.deep_view(),
            ) {
                Some(saved) if old(self).deep_view().store.fault is None => old(
                    self,
                ).deep_view().start_sync(saved),
                _ => old(self).deep_view().fail(SERVER_GONE@),
            }),
            final(self).deep_view().wf(),
    {
        match self.store.saved_server(server_id) {
            Ok(Some(saved)) => self.start_sync(&saved),
            _ => self.fail(text::owned(SERVER_GONE)),
        }
    }

    /// Reads the home page of a source.
    pub fn start_home_refresh_for_saved(&mut self, saved: &SavedServer, target: HomeRefreshTarget)
        requires
            old(self).deep_view().wf(),
        ensures
            final(self).deep_view() == old(self).deep_view().start_home_refresh(
                saved.deep_view(),
                target.deep_view(),
            ),
            final(self).deep_view().wf(),
    {
        reveal(ControllerView::start_home_refresh);
        let server_id: &str = saved.server.id.as_str();
        if saved.server.provider.same(&text::owned("fake"))
            || self.sync_in_flight.contains_or_blocked(server_id)
            || self.home_refresh_in_flight.running.contains(server_id)
            && !self.home_refresh_in_flight.blocked {
            return;
        }
        let begun: Result<bool, String> = self.home_refresh_in_flight.acquire(server_id);
        match begun {
            Err(error) => self.fail(error),
            Ok(_) => self.ask(Effect::RefreshHome { saved: saved.copy(), target }),
        }
    }

    /// Reads the playlists of a source.
    pub fn start_playlist_refresh_for_saved(&mut self, saved: &SavedServer)
        requires
            old(self).deep_view().wf(),
        ensures
            final(self).deep_view() == old(self).deep_view().start_playlist_refresh(
                saved.deep_view(),
            ),
            final(self).deep_view().wf(),
    {
        reveal(ControllerView::start_playlist_refresh);
        let server_id: &str = saved.server.id.as_str();
        if saved.server.provider.same(&text::owned("fake")) || source_is_local(saved)
            || self.sync_in_flight.contains_or_blocked(server_id)
            || self.playlist_refresh_in_flight.running.contains(server_id)
            && !self.playlist_refresh_in_flight.blocked {
            return;
        }
        let begun: Result<bool, String> = self.playlist_refresh_in_flight.acquire(server_id);
        match begun {
            Err(error) => self.fail(error),
            Ok(_) => self.ask(Effect::RefreshPlaylists(saved.copy())),
        }
    }

    /// Makes a section of the home page ready.
    pub fn start_explore_prefetch_for_saved(&mut self, saved: &SavedServer)
        requires
            old(self).deep_view().wf(),
        ensures
            final(self).deep_view() == old(self).deep_view().start_explore_prefetch(
                saved.deep_view(),
            ),
            final(self).deep_view().wf(),
    {
        reveal(ControllerView::start_explore_prefetch);
        let server_id: &str = saved.server.id.as_str();
        if saved.server.provider.same(&text::owned("fake"))
            || self.sync_in_flight.contains_or_blocked(server_id)
            || self.explore_prefetch_in_flight.running.contains(server_id)
            && !self.explore_prefetch_in_flight.blocked {
            return;
        }
        let begun: Result<bool, String> = self.explore_prefetch_in_flight.acquire(server_id);
        match begun {
            Err(error) => self.fail(error),
            Ok(_) => self.ask(Effect::PrefetchExplore(saved.copy())),
        }
    }

    /// Reads the home page of the source that is shown, but for what is to be explored.
    pub fn refresh_home_sections_without_explore_for_active(&mut self)
        requires
            old(self).deep_view().wf(),
        ensures
            final(self).deep_view() == (match old(self).deep_view().store.shown() {
                Some(saved) => old(self).deep_view().start_home_refresh(
                    saved,
                    HomeRefreshTargetView::WithoutExplore,
                ),
                None => old(self).deep_view(),
            }),
            final(self).deep_view().wf(),
    {
        if let Some(saved) = self.store.shown() {
            self.start_home_refresh_for_saved(&saved, HomeRefreshTarget::WithoutExplore);
        }
    }

    /// Reads a section of the home page of the source that is shown.
    pub fn refresh_home_section_for_active(&mut self, kind: HomeSectionKind)
        requires
            old(self).deep_view().wf(),
        ensures
            final(self).deep_view() == (match old(self).deep_view().store.shown() {
                Some(saved) => old(self).deep_view().start_home_refresh(
                    saved,
                    HomeRefreshTargetView::Section(kind),
                ),
                None => old(self).deep_view(),
            }),
            final(self).deep_view().wf(),
    {
        if let Some(saved) = self.store.shown() {
            self.start_home_refresh_for_saved(&saved, HomeRefreshTarget::Section(kind));
        }
    }

    /// Reads the playlists of the source that is shown.
    pub fn refresh_playlists_for_active(&mut self)
        requires
            old(self).deep_view().wf(),
        ensures
            final(self).deep_view() == (match old(self).deep_view().store.shown() {
                Some(saved) => old(self).deep_view().start_playlist_refresh(saved),
                None => old(self).deep_view(),
            }),
            final(self).deep_view().wf(),
    {
        if let Some(saved) = self.store.shown() {
            self.start_playlist_refresh_for_saved(&saved);
        }
    }

    /// Makes a section of the home page of the source that is shown ready.
    pub fn prefetch_explore_for_active(&mut self)
        requires
            old(self).deep_view().wf(),
        ensures
            final(self).deep_view() == (match old(self).deep_view().store.shown() {
                Some(saved) => old(self).deep_view().start_explore_prefetch(saved),
                None => old(self).deep_view(),
            }),
            final(self).deep_view().wf(),
    {
        if let Some(saved) = self.store.shown() {
            self.start_explore_prefetch_for_saved(&saved);
        }
    }

    /// Takes sections of the home page that were read.
    pub fn home_refreshed(
        &mut self,
        saved: &SavedServer,
        target: HomeRefreshTarget,
        sections: &Vec<HomeSection>,
    )
        requires
            old(self).deep_view().wf(),
        ensures
            final(self).deep_view() == old(self).deep_view().home_refreshed(
                saved.deep_view(),
                target.deep_view(),
                sections.deep_view(),
            ),
            final(self).deep_view().wf(),
    {
        reveal(ControllerView::home_refreshed);
        let _was_running: bool = self.home_refresh_in_flight.release(saved.server.id.as_str());
        if self.store.fault.is_some() {
            return;
        }
        keep_sections(&mut self.store, saved, sections);
        let include_explore: bool = match target {
            HomeRefreshTarget::Section(kind) => kind == HomeSectionKind::Explore,
            HomeRefreshTarget::WithoutExplore => false,
        };
        self.show_home(include_explore);
    }

    /// Takes it that the home page of a source could not be read.
    pub fn home_refresh_failed(&mut self, server_id: &ServerId)
        requires
            old(self).deep_view().wf(),
        ensures
            final(self).deep_view() == (ControllerView {
                home_refresh_in_flight: old(self).deep_view().home_refresh_in_flight.without(
                    server_id.deep_view(),
                ),
                ..old(self).deep_view()
            }),
            final(self).deep_view().wf(),
    {
        let _was_running: bool = self.home_refresh_in_flight.release(server_id.as_str());
    }

    /// Takes it that the playlists of a source were read.
    pub fn playlists_refreshed(&mut self, server_id: &ServerId)
        requires
            old(self).deep_view().wf(),
        ensures
            final(self).deep_view() == old(self).deep_view().playlists_refreshed(
                server_id.deep_view(),
            ),
            final(self).deep_view().wf(),
    {
        reveal(ControllerView::playlists_refreshed);
        let _was_running: bool = self.playlist_refresh_in_flight.release(server_id.as_str());
        if self.store.fault.is_none() {
            self.emit_snapshot();
        }
    }

    /// Takes it that the playlists of a source could not be read.
    pub fn playlist_refresh_failed(&mut self, server_id: &ServerId)
        requires
            old(self).deep_view().wf(),
        ensures
            final(self).deep_view() == (ControllerView {
                playlist_refresh_in_flight: old(
                    self,
                ).deep_view().playlist_refresh_in_flight.without(server_id.deep_view()),
                ..old(self).deep_view()
            }),
            final(self).deep_view().wf(),
    {
        let _was_running: bool = self.playlist_refresh_in_flight.release(server_id.as_str());
    }

    /// Takes a section of the home page that was made ready.
    pub fn explore_prefetched(&mut self, saved: &SavedServer, section: HomeSection)
        requires
            old(self).deep_view().wf(),
        ensures
            final(self).deep_view() == old(self).deep_view().explore_prefetched(
                saved.deep_view(),
                section.deep_view(),
            ),
            final(self).deep_view().wf(),
    {
        reveal(ControllerView::explore_prefetched);
        let _was_running: bool = self.explore_prefetch_in_flight.release(
            saved.server.id.as_str(),
        );
        let section: HomeSection = keep_section(section, source_is_local(saved));
        if self.store.upsert_home_section_prefetch(&saved.server.id, &section).is_ok() {
            self.emit(
                ControllerEvent::HomeSectionPrefetched {
                    server_id: saved.server.id.copy(),
                    section,
                },
            );
        }
    }

    /// Takes it that no section of the home page could be made ready.
    pub fn explore_prefetch_failed(&mut self, server_id: &ServerId)
        requires
            old(self).deep_view().wf(),
        ensures
            final(self).deep_view() == (ControllerView {
                explore_prefetch_in_flight: old(
                    self,
                ).deep_view().explore_prefetch_in_flight.without(server_id.deep_view()),
                ..old(self).deep_view()
            }),
            final(self).deep_view().wf(),
    {
        let _was_running: bool = self.explore_prefetch_in_flight.release(server_id.as_str());
    }

    /// Shows a section of the home page that was made ready.
    pub fn promote_prefetched_explore_for_active(&mut self, section: &HomeSection)
        requires
            old(self).deep_view().wf(),
        ensures
            final(self).deep_view() == old(self).deep_view().promote_explore(section.deep_view()),
            final(self).deep_view().wf(),
    {
        reveal(ControllerView::promote_explore);
        if section.kind != HomeSectionKind::Explore {
            return;
        }
        if let Some(saved) = self.store.shown() {
            if self.store.promote_home_section(&saved.server.id, section).is_ok() {
                self.show_home(false);
            }
        }
    }

    /// Whether the library and the artwork of a source are to be read again; the age tells
    /// when it was last read.
    pub fn source_readiness(
        &self,
        saved: &SavedServer,
        age_seconds: Option<u64>,
        local_artwork_missing: bool,
    ) -> (result: SourceSyncReadiness)
        ensures
            result.deep_view() == readiness_of(
                self.deep_view().store.readiness_input(
                    saved.deep_view(),
                    age_seconds,
                    local_artwork_missing,
                ),
            ),
    {
        let library: ServerLibrary = self.store.library(&saved.server.id);
        assert(library.deep_view().albums.len() == library.albums@.len());
        assert(library.deep_view().tracks.len() == library.tracks@.len());
        let cached_item_count: usize = if library.albums.len() > 0 || library.tracks.len() > 0 {
            1
        } else {
            0
        };
        source_sync_readiness(
            &SourceSyncReadinessInput {
                provider: saved.server.provider.copy(),
                cached_item_count,
                sync_status: Some(library.sync.status),
                sync_completed_age_seconds: age_seconds,
                local_artwork_missing,
            },
        )
    }

    /// Whether the library of a source is to be read when it is selected.
    pub fn active_server_needs_sync(&self, saved: &SavedServer, age_seconds: Option<u64>) -> (
    result: bool)
        ensures
            result == self.deep_view().store.needs_sync(saved.deep_view(), age_seconds),
    {
        reveal(StoreView::needs_sync);
        self.source_readiness(saved, age_seconds, false).sync_required_reason.is_some()
    }

    /// How long reading the library of the source that is shown waits at the start, where it
    /// is to be read.
    pub fn startup_sync_delay_ms(&self, age_seconds: Option<u64>) -> (result: Option<u64>)
        ensures
            result == (match self.deep_view().store.shown() {
                Some(saved) => readiness_of(
                    self.deep_view().store.readiness_input(saved, age_seconds, false),
                ).startup_delay_ms,
                None => None,
            }),
    {
        match self.store.shown() {
            Some(saved) => self.source_readiness(&saved, age_seconds, false).startup_delay_ms,
            None => None,
        }
    }
}

} // verus!
