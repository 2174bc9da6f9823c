//! Servers: logins, edits, what is kept of them, and their end.

use crate::cached_reads::{first_run_snapshot, show_first_run};
use crate::controller::source_commands::{select_in_settings, settings_selecting};
use crate::controller::sync_commands::{NO_SERVER, SERVER_GONE};
use crate::controller::{AppController, ControllerView};
use crate::local_access::{conservative_local_matches, sure_matches};
use crate::model::events::{
    AfterDiskClear, AfterDiskClearView, ControllerEvent, ControllerEventView, Effect, EffectView,
    LoginRequest, LoginRequestView, PreparedServerSettingsUpdate,
    PreparedServerSettingsUpdateView, ServerSettingsInput, ServerSettingsInputView,
    ServerSettingsUpdateOutcome, ServerSettingsUpdateOutcomeView,
};
use crate::model::ids::ServerId;
use crate::model::library::{Track, TrackView};
use crate::model::settings::{AppSettings, AppSettingsView};
use crate::model::source::{
    LibrarySourceSelection, LibrarySourceSelectionView, ProviderSession, ProviderSessionView,
    SavedServer, SavedServerView, ServerLocalAccess, ServerLocalAccessView, StreamingProvider,
    TrackLocalMatch, TrackLocalMatchView,
};
use crate::model::store::{ServerLibrary, ServerLibraryView, Store, StoreView, TokenStoreView};
use crate::providers::title_of;
use crate::queue::QueueView;
use crate::server_settings::{
    authenticated_identity_changed, edited, identity_changed, next_saved_server, prepared,
    prepare_server_settings_update, OTHER_PROVIDER,
};
use crate::store::{token_of, with_token, without_token};
use crate::text::{self, blank, trimmed};
use crate::value::Value;
use vstd::prelude::*;

verus! {

/// What is told where the cache of a source cannot be cleared.
pub const SYNC_BEFORE_CLEAR: &'static str =
    "Wait for the current library sync to finish before clearing cache.";

/// What is told where a server cannot be edited.
pub const SYNC_BEFORE_EDIT: &'static str =
    "Wait for the current library sync to finish before editing server credentials.";

/// A text without the white space at its ends, where anything is left.
pub open spec fn trimmed_option(value: Option<Seq<char>>) -> Option<Seq<char>> {
    match value {
        Some(value) if !blank(value) => Some(trimmed(value)),
        _ => None,
    }
}

/// A text without the white space at its ends, where anything is left.
pub fn trimmed_optional(value: &Option<String>) -> (result: Option<String>)
    ensures
        result.deep_view() == trimmed_option(value.deep_view()),
{
    match value {
        Some(value) => {
            let trimmed: String = text::trim(value.as_str());
            if trimmed.same(&String::new()) {
                assert(trimmed@ =~= Seq::<char>::empty());
                None
            } else {
                assert(trimmed@.len() > 0) by {
                    if trimmed@.len() == 0 {
                        assert(trimmed@ =~= Seq::<char>::empty());
                    }
                }
                Some(trimmed)
            }
        },
        None => None,
    }
}

/// How the files of a server are reached.
pub open spec fn access_of(
    server_id: Seq<char>,
    root_path: Seq<char>,
    path_replace_from: Option<Seq<char>>,
    path_replace_to: Option<Seq<char>>,
) -> ServerLocalAccessView {
    ServerLocalAccessView {
        server_id,
        root_path,
        path_replace_from: trimmed_option(path_replace_from),
        path_replace_to: match trimmed_option(path_replace_to) {
            Some(to) => Some(to),
            None => Some(root_path),
        },
    }
}

fn new_access(
    server_id: &ServerId,
    root_path: &String,
    path_replace_from: &Option<String>,
    path_replace_to: &Option<String>,
) -> (result: ServerLocalAccess)
    ensures
        result.deep_view() == access_of(
            server_id.deep_view(),
            root_path@,
            path_replace_from.deep_view(),
            path_replace_to.deep_view(),
        ),
{
    let to: String = match trimmed_optional(path_replace_to) {
        Some(to) => to,
        None => root_path.copy(),
    };
    ServerLocalAccess {
        server_id: server_id.copy(),
        root_path: root_path.copy(),
        path_replace_from: trimmed_optional(path_replace_from),
        path_replace_to: Some(to),
    }
}

/// The server of a login, as it is kept.
pub open spec fn saved_of(session: ProviderSessionView, trust_invalid_cert: bool)
    -> SavedServerView {
    SavedServerView {
        server: session.server,
        user_id: session.user_id,
        username: session.username,
        trust_invalid_cert,
    }
}

/// Settings with an identifier of this installation.
#[verifier::opaque]
pub open spec fn settings_with_device(settings: AppSettingsView, device_id: Seq<char>)
    -> AppSettingsView {
    AppSettingsView { jellyfin_device_id: device_id, ..settings }
}

/// The identifier of this installation: that which is kept, or else a new one.
pub open spec fn device_of(settings: AppSettingsView, generated: Seq<char>) -> Seq<char> {
    if blank(settings.jellyfin_device_id) {
        generated
    } else {
        settings.jellyfin_device_id
    }
}

/// The store once this installation has an identifier.
pub open spec fn with_device(store: StoreView, generated: Seq<char>) -> StoreView {
    if blank(store.settings.jellyfin_device_id) {
        store.with_settings(settings_with_device(store.settings, generated))
    } else {
        store
    }
}

fn put_device(settings: &mut AppSettings, device_id: String)
    ensures
        final(settings).deep_view() == settings_with_device(
            old(settings).deep_view(),
            device_id@,
        ),
{
    reveal(settings_with_device);
    settings.jellyfin_device_id = device_id;
}

/// The identifier of this installation; the one that was generated is kept where there is
/// none yet.
pub fn ensure_jellyfin_device_id(store: &mut Store, generated: String) -> (result: Result<
    String,
    String,
>)
    ensures
        match old(store).deep_view().fault {
            Some(fault) => {
                &&& result matches Err(error) && error@ == fault
                &&& final(store).deep_view() == old(store).deep_view()
            },
            None => {
                &&& result matches Ok(device_id) && device_id@ == device_of(
                    old(store).deep_view().settings,
                    generated@,
                )
                &&& final(store).deep_view() == with_device(old(store).deep_view(), generated@)
            },
        },
        old(store).deep_view().wf() ==> final(store).deep_view().wf(),
{
    let mut settings: AppSettings = match store.load_settings() {
        Ok(settings) => settings,
        Err(error) => {
            return Err(error);
        },
    };
    let device_id: Option<String> = Some(settings.jellyfin_device_id.copy());
    if trimmed_optional(&device_id).is_some() {
        return Ok(settings.jellyfin_device_id);
    }
    put_device(&mut settings, generated.copy());
    match store.save_settings(&settings) {
        Ok(()) => Ok(generated),
        Err(error) => Err(error),
    }
}

/// An identifier of this installation, once there is one, does not change any more.
pub proof fn device_is_kept(store: StoreView, first: Seq<char>, second: Seq<char>)
    requires
        !blank(first),
    ensures
        device_of(with_device(store, first).settings, second) == device_of(store.settings, first),
        with_device(with_device(store, first), second) == with_device(store, first),
{
    reveal(settings_with_device);
}

fn forget_in_store(store: &mut Store, server_id: &ServerId, deselect: bool)
    requires
        old(store).deep_view().fault is None,
    ensures
        final(store).deep_view() == old(store).deep_view().forgetting(
            server_id.deep_view(),
            deselect,
        ),
        old(store).deep_view().wf() ==> final(store).deep_view().wf(),
{
    reveal(StoreView::forgetting);
    let mut settings: AppSettings = store.known_settings();
    let selected: bool = match &settings.sources.selected {
        Some(LibrarySourceSelection::Server(selected)) => selected.same(server_id),
        _ => false,
    };
    if deselect && selected {
        select_in_settings(&mut settings, None);
        let _saved: Result<(), String> = store.save_settings(&settings);
    }
    let _forgotten: Result<(), String> = store.forget_server(server_id);
}

/// How a login is told.
pub open spec fn checking_text(provider: StreamingProvider, dots: Seq<char>) -> Seq<char> {
    "Checking "@ + title_of(provider) + " server"@ + dots
}

fn checking_status(provider: StreamingProvider, dots: &str) -> (result: String)
    ensures
        result@ == checking_text(provider, dots@),
{
    let mut result: String = text::owned("Checking ");
    result.push_str(provider.title());
    result.push_str(" server");
    result.push_str(dots);
    result
}

impl StoreView {
    /// The store with the way in which the files of a server are reached.
    pub open spec fn with_access(
        self,
        server_id: Seq<char>,
        access: Option<ServerLocalAccessView>,
    ) -> StoreView {
        self.with_library(
            server_id,
            ServerLibraryView { local_access: access, ..self.library(server_id) },
        )
    }

    /// The store with the files that stand for the tracks of a server.
    pub open spec fn with_matches(
        self,
        server_id: Seq<char>,
        matches: Seq<TrackLocalMatchView>,
    ) -> StoreView {
        self.with_library(
            server_id,
            ServerLibraryView { local_matches: matches, ..self.library(server_id) },
        )
    }

    /// Whether the tracks of a server are matched with files.
    pub open spec fn matches_files(self, server_id: Seq<char>) -> bool {
        &&& self.library(server_id).local_access is Some
        &&& self.server(server_id) matches Some(saved)
        &&& saved.server.provider != "local"@
    }

    /// The store with the tracks of a server matched with files, where they are.
    #[verifier::opaque]
    pub open spec fn rematched(self, server_id: Seq<char>, files: Seq<TrackView>) -> StoreView {
        let tracks = self.library(server_id).tracks;
        if !self.matches_files(server_id) {
            self
        } else {
            self.with_matches(
                server_id,
                if tracks.len() == 0 {
                    Seq::empty()
                } else {
                    sure_matches(tracks, files)
                },
            )
        }
    }

    /// The store once a source is forgotten, and not selected any more where that is wanted.
    #[verifier::opaque]
    pub open spec fn forgetting(self, server_id: Seq<char>, deselect: bool) -> StoreView {
        if deselect && self.settings.sources.selected == Some(
            LibrarySourceSelectionView::Server(server_id),
        ) {
            self.with_settings(settings_selecting(self.settings, None)).without_server(server_id)
        } else {
            self.without_server(server_id)
        }
    }

    /// The store once a login was taken over.
    #[verifier::opaque]
    pub open spec fn with_login(
        self,
        saved: SavedServerView,
        root_path: Option<Seq<char>>,
        path_replace_from: Option<Seq<char>>,
    ) -> StoreView {
        let known = self.with_server(saved);
        let reached = match trimmed_option(root_path) {
            Some(root) => known.with_access(
                saved.server.id,
                Some(access_of(saved.server.id, root, path_replace_from, None)),
            ),
            None => known,
        };
        reached.with_settings(
            settings_selecting(
                self.settings,
                Some(LibrarySourceSelectionView::Server(saved.server.id)),
            ),
        )
    }
}

impl ControllerView {
    /// With the library of a source cleared, and the images kept of it to be deleted.
    #[verifier::opaque]
    pub open spec fn clear_cache(self, saved: SavedServerView) -> ControllerView {
        if self.sync_in_flight.holds_back(saved.server.id) {
            self.fail(SYNC_BEFORE_CLEAR@)
        } else if let Some(fault) = self.store.fault {
            self.fail(fault)
        } else {
            self.with_store(self.store.with_cleared_library(saved.server.id)).ask(
                EffectView::ClearDiskCovers {
                    server_id: saved.server.id,
                    next: AfterDiskClearView::Cleared,
                },
            )
        }
    }

    /// With a source forgotten, and the images kept of it to be deleted. Reading its library
    /// is given up.
    #[verifier::opaque]
    pub open spec fn forget(
        self,
        saved: SavedServerView,
        deselect: bool,
        next: AfterDiskClearView,
    ) -> ControllerView {
        let server_id = saved.server.id;
        if self.sync_in_flight.blocked {
            self.fail(self.sync_in_flight.fault())
        } else if let Some(fault) = self.store.fault {
            self.without_sync(server_id).fail(fault)
        } else {
            self.without_sync(server_id).with_store(
                self.store.forgetting(server_id, deselect),
            ).ask(EffectView::ClearDiskCovers { server_id, next })
        }
    }

    /// With a server forgotten.
    #[verifier::opaque]
    pub open spec fn forget_server(self, server_id: Seq<char>) -> ControllerView {
        match self.store.fault {
            Some(fault) => self.fail(fault),
            None => match self.store.server(server_id) {
                None => self.fail(SERVER_GONE@),
                Some(saved) => self.forget(
                    saved,
                    true,
                    AfterDiskClearView::Forgotten { was_active: self.shows(saved.server.id) },
                ),
            },
        }
    }

    /// With the server that is shown forgotten.
    #[verifier::opaque]
    pub open spec fn forget_active_server(self) -> ControllerView {
        match self.store.shown() {
            None => self.emit(ControllerEventView::Snapshot(first_run_snapshot(self.store))),
            Some(saved) => self.forget(saved, false, AfterDiskClearView::ForgottenActive),
        }
    }

    /// Without the token for a source, where it can be deleted.
    pub open spec fn delete_token(self, server_id: Seq<char>) -> ControllerView {
        if self.tokens.delete_fault is Some {
            self
        } else {
            ControllerView { tokens: without_token(self.tokens, server_id), ..self }
        }
    }

    /// With what follows once the images kept of a source were deleted.
    #[verifier::opaque]
    pub open spec fn disk_cleared(
        self,
        server_id: Seq<char>,
        next: AfterDiskClearView,
    ) -> ControllerView {
        match next {
            AfterDiskClearView::Cleared => self.tell("Cached library cleared."@).show_library(),
            AfterDiskClearView::Forgotten { was_active } => (if was_active {
                self.drop_queue()
            } else {
                self
            }).show_library().delete_token(server_id),
            AfterDiskClearView::ForgottenActive => {
                let dropped = self.drop_queue();
                dropped.emit(
                    ControllerEventView::Snapshot(first_run_snapshot(dropped.store)),
                ).delete_token(server_id)
            },
            AfterDiskClearView::IdentityChanged { saved } => (if self.shows(saved.server.id) {
                self.put_queue(QueueView::empty(saved.server.id))
            } else {
                self
            }).tell("Server settings saved. Resyncing library..."@).start_sync(saved),
        }
    }

    /// With a login being tried.
    #[verifier::opaque]
    pub open spec fn login(self, request: LoginRequestView, generated: Seq<char>)
        -> ControllerView {
        let told = self.tell(checking_text(request.provider, "…"@));
        if request.provider != StreamingProvider::Jellyfin {
            told.ask(EffectView::Login { request, device_id: None })
        } else if let Some(fault) = self.store.fault {
            told.fail(fault)
        } else {
            told.with_store(with_device(self.store, generated)).ask(
                EffectView::Login {
                    request,
                    device_id: Some(device_of(self.store.settings, generated)),
                },
            )
        }
    }

    /// With the server of a login known, selected and shown.
    #[verifier::opaque]
    pub open spec fn activate_login(
        self,
        request: LoginRequestView,
        session: ProviderSessionView,
    ) -> ControllerView {
        let saved = saved_of(session, request.trust_invalid_cert);
        if self.store.fault is Some {
            self
        } else {
            self.with_store(
                self.store.with_login(saved, request.local_access_root, request.path_replace_from),
            ).show_source(saved, false)
        }
    }

    /// Why a login cannot be taken over.
    pub open spec fn login_fault(self) -> Option<Seq<char>> {
        match self.tokens.save_fault {
            Some(fault) => Some(fault),
            None => self.store.fault,
        }
    }

    /// With a login taken over: its token is kept before anything else is.
    #[verifier::opaque]
    pub open spec fn take_login(
        self,
        request: LoginRequestView,
        session: ProviderSessionView,
    ) -> ControllerView {
        if self.tokens.save_fault is Some {
            self
        } else {
            (ControllerView {
                tokens: with_token(self.tokens, session.server.id, session.access_token),
                ..self
            }).activate_login(request, session)
        }
    }

    /// With a login taken over and the library of its server read, or an error told.
    #[verifier::opaque]
    pub open spec fn login_succeeded(
        self,
        request: LoginRequestView,
        session: ProviderSessionView,
    ) -> ControllerView {
        match self.login_fault() {
            Some(fault) => self.take_login(request, session).fail(fault),
            None => self.take_login(request, session).start_sync(
                saved_of(session, request.trust_invalid_cert),
            ),
        }
    }

    /// Why an edit cannot be kept.
    pub open spec fn edit_fault(
        self,
        update: PreparedServerSettingsUpdateView,
        session: Option<ProviderSessionView>,
    ) -> Option<Seq<char>> {
        if session matches Some(session) && session.server.provider
            != update.saved.server.provider {
            Some(OTHER_PROVIDER@)
        } else if session is Some && self.tokens.load_fault is Some {
            self.tokens.load_fault
        } else if session is Some && self.tokens.save_fault is Some {
            self.tokens.save_fault
        } else {
            self.store.fault
        }
    }

    /// The tokens once an edit with a login could not be kept.
    pub open spec fn tokens_restored(
        self,
        server_id: Seq<char>,
        token: Seq<char>,
    ) -> TokenStoreView {
        let changed = with_token(self.tokens, server_id, token);
        match token_of(self.tokens, server_id) {
            Some(previous) => with_token(changed, server_id, previous),
            None => if self.tokens.delete_fault is Some {
                changed
            } else {
                without_token(changed, server_id)
            },
        }
    }

    /// With an edit kept, or all as it was where it cannot be.
    #[verifier::opaque]
    pub open spec fn keep_edit(
        self,
        update: PreparedServerSettingsUpdateView,
        session: Option<ProviderSessionView>,
    ) -> ControllerView {
        let server_id = update.saved.server.id;
        if session matches Some(session) && session.server.provider
            != update.saved.server.provider {
            self
        } else if session is Some && (self.tokens.load_fault is Some
            || self.tokens.save_fault is Some) {
            self
        } else if self.store.fault is Some {
            match session {
                Some(session) => ControllerView {
                    tokens: self.tokens_restored(server_id, session.access_token),
                    ..self
                },
                None => self,
            }
        } else {
            ControllerView {
                tokens: match session {
                    Some(session) => with_token(self.tokens, server_id, session.access_token),
                    None => self.tokens,
                },
                store: self.store.with_edited_server(
                    edited(update, session),
                    session matches Some(session) && identity_changed(update.saved, session),
                ),
                ..self
            }
        }
    }

    /// With an edit kept and told.
    #[verifier::opaque]
    pub open spec fn apply_edit(
        self,
        update: PreparedServerSettingsUpdateView,
        session: Option<ProviderSessionView>,
    ) -> ControllerView {
        let kept = self.keep_edit(update, session);
        let saved = edited(update, session);
        match self.edit_fault(update, session) {
            Some(fault) => kept.fail(fault),
            None => if session matches Some(session) && identity_changed(update.saved, session) {
                kept.ask(
                    EffectView::ClearDiskCovers {
                        server_id: saved.server.id,
                        next: AfterDiskClearView::IdentityChanged { saved },
                    },
                )
            } else {
                kept.tell("Server settings saved."@).show_library()
            },
        }
    }

    /// With an edit of a server begun: what needs no login is kept at once.
    #[verifier::opaque]
    pub open spec fn update_server(self, input: ServerSettingsInputView) -> ControllerView {
        match self.store.fault {
            Some(fault) => self.fail(fault),
            None => match self.store.server(input.server_id) {
                None => self,
                Some(saved) => match prepared(saved, input) {
                    Err(error) => self.fail(error),
                    Ok(None) => self.tell("No changes to save."@),
                    Ok(Some(update)) => match update.reauth {
                        None => self.apply_edit(update, None),
                        Some(reauth) => if self.sync_in_flight.holds_back(input.server_id) {
                            self.fail(SYNC_BEFORE_EDIT@)
                        } else {
                            self.tell(checking_text(reauth.provider, "..."@)).ask(
                                EffectView::Reauthenticate(update),
                            )
                        },
                    },
                },
            },
        }
    }

    /// With the way in which the files of a server are reached.
    #[verifier::opaque]
    pub open spec fn save_access(self, access: ServerLocalAccessView) -> ControllerView {
        match self.store.fault {
            Some(fault) => self.fail(fault),
            None => self.with_store(
                self.store.with_access(access.server_id, Some(access)),
            ).ask(
                EffectView::MatchLocalTracks {
                    server_id: access.server_id,
                    root_path: access.root_path,
                },
            ),
        }
    }

    /// With the tracks of a server matched with files, where these could be read.
    #[verifier::opaque]
    pub open spec fn files_read(self, server_id: Seq<char>, files: Option<Seq<TrackView>>)
        -> ControllerView {
        let matched = match files {
            Some(files) if self.store.fault is None => self.with_store(
                self.store.rematched(server_id, files),
            ),
            _ => self,
        };
        matched.prepare_next().show_library()
    }

    /// Without a way in which the files of a server are reached.
    #[verifier::opaque]
    pub open spec fn clear_access(self, server_id: Seq<char>) -> ControllerView {
        match self.store.fault {
            Some(fault) => self.fail(fault),
            None => self.with_store(
                self.store.with_access(server_id, None).with_matches(server_id, Seq::empty()),
            ).prepare_next().show_library(),
        }
    }
}

impl AppController {
    fn clear_cache(&mut self, saved: &SavedServer)
        requires
            old(self).deep_view().wf(),
        ensures
            final(self).deep_view() == old(self).deep_view().clear_cache(saved.deep_view()),
            final(self).deep_view().wf(),
    {
        reveal(ControllerView::clear_cache);
        if self.sync_in_flight.contains_or_blocked(saved.server.id.as_str()) {
            self.fail(text::owned(SYNC_BEFORE_CLEAR));
            return;
        }
        if let Err(error) = self.store.clear_library_cache(&saved.server.id) {
            self.fail(error);
            return;
        }
        self.ask(
            Effect::ClearDiskCovers {
                server_id: saved.server.id.copy(),
                next: AfterDiskClear::Cleared,
            },
        );
    }

    /// Clears the library of the source that is shown.
    pub fn clear_active_server_cache(&mut self)
        requires
            old(self).deep_view().wf(),
        ensures
            final(self).deep_view() == (match old(self).deep_view().store.shown() {
                Some(saved) => old(self).deep_view().clear_cache(saved),
                None => old(self).deep_view().fail(NO_SERVER@),
            }),
            final(self).deep_view().wf(),
    {
        match self.store.shown() {
            Some(saved) => self.clear_cache(&saved),
            None => self.fail(text::owned(NO_SERVER)),
        }
    }

    /// Clears the library of a source.
    pub fn clear_server_cache(&mut self, server_id: &ServerId)
        requires
            old(self).deep_view().wf(),
        ensures
            final(self).deep_view() == (match old(self).deep_view().store.fault {
                Some(fault) => old(self).deep_view().fail(fault),
                None => match old(self).deep_view().store.server(server_id.deep_view()) {
                    Some(saved) => old(self).deep_view().clear_cache(saved),
                    None => old(self).deep_view().fail(SERVER_GONE@),
                },
            }),
            final(self).deep_view().wf(),
    {
        match self.store.saved_server(server_id) {
            Ok(Some(saved)) => self.clear_cache(&saved),
            Ok(None) => self.fail(text::owned(SERVER_GONE)),
            Err(error) => self.fail(error),
        }
    }

    fn forget(&mut self, saved: &SavedServer, deselect: bool, next: AfterDiskClear)
        requires
            old(self).deep_view().wf(),
        ensures
            final(self).deep_view() == old(self).deep_view().forget(
                saved.deep_view(),
                deselect,
                next.deep_view(),
            ),
            final(self).deep_view().wf(),
    {
        reveal(ControllerView::forget);
        if self.sync_in_flight.blocked {
            let begun: Result<bool, String> = self.sync_in_flight.acquire(
                saved.server.id.as_str(),
            );
            if let Err(error) = begun {
                self.fail(error);
            }
            return;
        }
        let _was_running: bool = self.sync_in_flight.release(saved.server.id.as_str());
        if let Err(error) = self.store.check() {
            self.fail(error);
            return;
        }
        forget_in_store(&mut self.store, &saved.server.id, deselect);
        self.ask(Effect::ClearDiskCovers { server_id: saved.server.id.copy(), next });
    }

    /// Forgets a server.
    pub fn forget_server(&mut self, server_id: &ServerId)
        requires
            old(self).deep_view().wf(),
        ensures
            final(self).deep_view() == old(self).deep_view().forget_server(
                server_id.deep_view(),
            ),
            final(self).deep_view().wf(),
    {
        reveal(ControllerView::forget_server);
        match self.store.saved_server(server_id) {
            Ok(Some(saved)) => {
                let was_active: bool = self.sync_target_is_current(&saved.server.id);
                self.forget(&saved, true, AfterDiskClear::Forgotten { was_active });
            },
            Ok(None) => self.fail(text::owned(SERVER_GONE)),
            Err(error) => self.fail(error),
        }
    }

    /// Forgets the server that is shown.
    pub fn forget_active_server(&mut self)
        requires
            old(self).deep_view().wf(),
        ensures
            final(self).deep_view() == old(self).deep_view().forget_active_server(),
            final(self).deep_view().wf(),
    {
        reveal(ControllerView::forget_active_server);
        match self.store.shown() {
            Some(saved) => self.forget(&saved, false, AfterDiskClear::ForgottenActive),
            None => {
                let snapshot: crate::model::snapshot::LibrarySnapshot = show_first_run(
                    &self.store,
                );
                self.emit(ControllerEvent::Snapshot(snapshot));
            },
        }
    }

    fn delete_token(&mut self, server_id: &ServerId)
        requires
            old(self).deep_view().wf(),
        ensures
            final(self).deep_view() == old(self).deep_view().delete_token(server_id.deep_view()),
            final(self).deep_view().wf(),
    {
        let _deleted: Result<(), String> = self.tokens.delete_token(server_id);
    }

    /// Goes on once the images kept of a source were deleted.
    pub fn disk_covers_cleared(&mut self, server_id: &ServerId, next: AfterDiskClear)
        requires
            old(self).deep_view().wf(),
        ensures
            final(self).deep_view() == old(self).deep_view().disk_cleared(
                server_id.deep_view(),
                next.deep_view(),
            ),
            final(self).deep_view().wf(),
    {
        reveal(ControllerView::disk_cleared);
        match next {
            AfterDiskClear::Cleared => {
                self.tell(text::owned("Cached library cleared."));
                self.emit_snapshot();
            },
            AfterDiskClear::Forgotten { was_active } => {
                if was_active {
                    self.clear_queue_and_stop_playback();
                }
                self.emit_snapshot();
                self.delete_token(server_id);
            },
            AfterDiskClear::ForgottenActive => {
                self.clear_queue_and_stop_playback();
                let snapshot: crate::model::snapshot::LibrarySnapshot = show_first_run(
                    &self.store,
                );
                self.emit(ControllerEvent::Snapshot(snapshot));
                self.delete_token(server_id);
            },
            AfterDiskClear::IdentityChanged { saved } => {
                if self.sync_target_is_current(&saved.server.id) {
                    self.reset_queue(&saved.server.id);
                }
                self.tell(text::owned("Server settings saved. Resyncing library..."));
                self.start_sync(&saved);
            },
        }
    }

    /// Tries a login; the identifier that was generated is kept where this installation has
    /// none yet.
    pub fn login(&mut self, request: LoginRequest, generated_device_id: String)
        requires
            old(self).deep_view().wf(),
        ensures
            final(self).deep_view() == old(self).deep_view().login(
                request.deep_view(),
                generated_device_id@,
            ),
            final(self).deep_view().wf(),
    {
        reveal(ControllerView::login);
        self.tell(checking_status(request.provider, "…"));
        if request.provider != StreamingProvider::Jellyfin {
            self.ask(Effect::Login { request, device_id: None });
            return;
        }
        let ensured: Result<String, String> = ensure_jellyfin_device_id(
            &mut self.store,
            generated_device_id,
        );
        match ensured {
            Ok(device_id) => self.ask(Effect::Login { request, device_id: Some(device_id) }),
            Err(error) => self.fail(error),
        }
    }

    /// Makes the server of a login known, selects it and shows it.
    pub fn activate_logged_in_server(
        &mut self,
        request: &LoginRequest,
        session: &ProviderSession,
    ) -> (result: Result<SavedServer, String>)
        requires
            old(self).deep_view().wf(),
        ensures
            crate::store::answers(
                result,
                old(self).deep_view().store.fault,
                saved_of(session.deep_view(), request.trust_invalid_cert),
            ),
            final(self).deep_view() == old(self).deep_view().activate_login(
                request.deep_view(),
                session.deep_view(),
            ),
            final(self).deep_view().wf(),
    {
        reveal(ControllerView::activate_login);
        if let Err(error) = self.store.check() {
            return Err(error);
        }
        let saved: SavedServer = SavedServer {
            server: session.server.copy(),
            user_id: session.user_id.copy(),
            username: session.username.copy(),
            trust_invalid_cert: request.trust_invalid_cert,
        };
        self.keep_login(&saved, &request.local_access_root, &request.path_replace_from);
        self.show_source(&saved, false);
        Ok(saved)
    }

    fn keep_login(
        &mut self,
        saved: &SavedServer,
        root_path: &Option<String>,
        path_replace_from: &Option<String>,
    )
        requires
            old(self).deep_view().wf(),
            old(self).deep_view().store.fault is None,
        ensures
            final(self).deep_view() == old(self).deep_view().with_store(
                old(self).deep_view().store.with_login(
                    saved.deep_view(),
                    root_path.deep_view(),
                    path_replace_from.deep_view(),
                ),
            ),
            final(self).deep_view().store.fault is None,
            final(self).deep_view().wf(),
    {
        reveal(StoreView::with_login);
        let mut settings: AppSettings = self.load_settings();
        select_in_settings(
            &mut settings,
            Some(LibrarySourceSelection::Server(saved.server.id.copy())),
        );
        let _known: Result<(), String> = self.store.save_server(saved);
        if let Some(root) = trimmed_optional(root_path) {
            let access: ServerLocalAccess = new_access(
                &saved.server.id,
                &root,
                path_replace_from,
                &None,
            );
            let _reached: Result<(), String> = self.store.set_server_local_access(
                &saved.server.id,
                Some(access),
            );
        }
        let _selected: Result<(), String> = self.store.save_settings(&settings);
    }

    /// Takes a login over, after its token was kept.
    pub fn save_token_and_activate_logged_in_server(
        &mut self,
        request: &LoginRequest,
        session: &ProviderSession,
    ) -> (result: Result<SavedServer, String>)
        requires
            old(self).deep_view().wf(),
        ensures
            crate::store::answers(
                result,
                old(self).deep_view().login_fault(),
                saved_of(session.deep_view(), request.trust_invalid_cert),
            ),
            final(self).deep_view() == old(self).deep_view().take_login(
                request.deep_view(),
                session.deep_view(),
            ),
            final(self).deep_view().wf(),
    {
        reveal(ControllerView::take_login);
        if let Err(error) = self.tokens.save_token(
            &session.server.id,
            session.access_token.as_str(),
        ) {
            return Err(error);
        }
        self.activate_logged_in_server(request, session)
    }

    /// Takes a login over and reads the library of its server.
    pub fn login_succeeded(&mut self, request: &LoginRequest, session: &ProviderSession)
        requires
            old(self).deep_view().wf(),
        ensures
            final(self).deep_view() == old(self).deep_view().login_succeeded(
                request.deep_view(),
                session.deep_view(),
            ),
            final(self).deep_view().wf(),
    {
        reveal(ControllerView::login_succeeded);
        match self.save_token_and_activate_logged_in_server(request, session) {
            Ok(saved) => self.start_sync(&saved),
            Err(error) => self.fail(error),
        }
    }

    fn restore_server_token(&mut self, server_id: &ServerId, previous: Option<String>)
        ensures
            final(self).deep_view() == (ControllerView {
                tokens: match previous.deep_view() {
                    Some(token) => if old(self).deep_view().tokens.save_fault is Some {
                        old(self).deep_view().tokens
                    } else {
                        with_token(
                            old(self).deep_view().tokens,
                            server_id.deep_view(),
                            token,
                        )
                    },
                    None => if old(self).deep_view().tokens.delete_fault is Some {
                        old(self).deep_view().tokens
                    } else {
                        without_token(old(self).deep_view().tokens, server_id.deep_view())
                    },
                },
                ..old(self).deep_view()
            }),
            old(self).deep_view().wf() ==> final(self).deep_view().wf(),
    {
        match previous {
            Some(token) => {
                let _saved: Result<(), String> = self.tokens.save_token(
                    server_id,
                    token.as_str(),
                );
            },
            None => {
                let _deleted: Result<(), String> = self.tokens.delete_token(server_id);
            },
        }
    }

    /// Keeps an edit of a server. Where it cannot be kept, the token is put back.
    pub fn persist_prepared_server_settings_update(
        &mut self,
        update: &PreparedServerSettingsUpdate,
        session: &Option<ProviderSession>,
    ) -> (result: Result<ServerSettingsUpdateOutcome, String>)
        requires
            old(self).deep_view().wf(),
        ensures
            crate::store::answers(
                result,
                old(self).deep_view().edit_fault(update.deep_view(), session.deep_view()),
                ServerSettingsUpdateOutcomeView {
                    changed: true,
                    identity_changed: session.deep_view() matches Some(session)
                        && identity_changed(update.deep_view().saved, session),
                    saved: Some(edited(update.deep_view(), session.deep_view())),
                },
            ),
            final(self).deep_view() == old(self).deep_view().keep_edit(
                update.deep_view(),
                session.deep_view(),
            ),
            final(self).deep_view().wf(),
    {
        reveal(ControllerView::keep_edit);
        let server_id: ServerId = update.saved.server.id.copy();
        let mut changed: bool = false;
        let mut previous: Option<String> = None;
        if let Some(session) = session {
            if !session.server.provider.same(&update.saved.server.provider) {
                return Err(text::owned(OTHER_PROVIDER));
            }
            changed = authenticated_identity_changed(&update.saved, session);
            previous = match self.tokens.load_token(&server_id) {
                Ok(previous) => previous,
                Err(error) => {
                    return Err(error);
                },
            };
            if let Err(error) = self.tokens.save_token(
                &server_id,
                session.access_token.as_str(),
            ) {
                return Err(error);
            }
        }
        let saved: SavedServer = next_saved_server(update, session);
        if let Err(error) = self.store.save_server_settings_update(&saved, changed) {
            if session.is_some() {
                self.restore_server_token(&server_id, previous);
            }
            return Err(error);
        }
        Ok(
            ServerSettingsUpdateOutcome {
                changed: true,
                identity_changed: changed,
                saved: Some(saved),
            },
        )
    }

    /// Keeps an edit of a server, with the login that it needed, and tells it.
    pub fn apply_server_settings_update(
        &mut self,
        update: &PreparedServerSettingsUpdate,
        session: &Option<ProviderSession>,
    )
        requires
            old(self).deep_view().wf(),
        ensures
            final(self).deep_view() == old(self).deep_view().apply_edit(
                update.deep_view(),
                session.deep_view(),
            ),
            final(self).deep_view().wf(),
    {
        reveal(ControllerView::apply_edit);
        match self.persist_prepared_server_settings_update(update, session) {
            Err(error) => self.fail(error),
            Ok(outcome) => {
                if outcome.identity_changed {
                    if let Some(saved) = outcome.saved {
                        self.ask(
                            Effect::ClearDiskCovers {
                                server_id: saved.server.id.copy(),
                                next: AfterDiskClear::IdentityChanged { saved },
                            },
                        );
                    }
                } else {
                    self.tell(text::owned("Server settings saved."));
                    self.emit_snapshot();
                }
            },
        }
    }

    /// Edits a server.
    pub fn update_server_settings(&mut self, input: ServerSettingsInput)
        requires
            old(self).deep_view().wf(),
        ensures
            final(self).deep_view() == old(self).deep_view().update_server(input.deep_view()),
            final(self).deep_view().wf(),
    {
        reveal(ControllerView::update_server);
        let server_id: ServerId = input.server_id.copy();
        let saved: SavedServer = match self.store.saved_server(&server_id) {
            Ok(Some(saved)) => saved,
            Ok(None) => {
                return;
            },
            Err(error) => {
                self.fail(error);
                return;
            },
        };
        let update: PreparedServerSettingsUpdate = match prepare_server_settings_update(
            saved,
            input,
        ) {
            Ok(Some(update)) => update,
            Ok(None) => {
                self.tell(text::owned("No changes to save."));
                return;
            },
            Err(error) => {
                self.fail(error);
                return;
            },
        };
        let provider: Option<StreamingProvider> = match &update.reauth {
            Some(reauth) => Some(reauth.provider),
            None => None,
        };
        match provider {
            None => self.apply_server_settings_update(&update, &None),
            Some(provider) => {
                if self.sync_in_flight.contains_or_blocked(server_id.as_str()) {
                    self.fail(text::owned(SYNC_BEFORE_EDIT));
                } else {
                    self.tell(checking_status(provider, "..."));
                    self.ask(Effect::Reauthenticate(update));
                }
            },
        }
    }

    /// Keeps how the files of a server are reached, and has its tracks matched with them.
    pub fn save_server_local_access(
        &mut self,
        server_id: &ServerId,
        root_path: &String,
        path_replace_from: &Option<String>,
        path_replace_to: &Option<String>,
    )
        requires
            old(self).deep_view().wf(),
        ensures
            final(self).deep_view() == old(self).deep_view().save_access(
                access_of(
                    server_id.deep_view(),
                    root_path@,
                    path_replace_from.deep_view(),
                    path_replace_to.deep_view(),
                ),
            ),
            final(self).deep_view().wf(),
    {
        reveal(ControllerView::save_access);
        let access: ServerLocalAccess = new_access(
            server_id,
            root_path,
            path_replace_from,
            path_replace_to,
        );
        if let Err(error) = self.store.set_server_local_access(server_id, Some(access)) {
            self.fail(error);
            return;
        }
        self.ask(
            Effect::MatchLocalTracks {
                server_id: server_id.copy(),
                root_path: root_path.copy(),
            },
        );
    }

    /// Matches the tracks of a server with files that were read; tells how many were matched.
    pub fn refresh_local_track_matches(&mut self, server_id: &ServerId, files: &Vec<Track>) -> (
    result: Result<usize, String>)
        requires
            old(self).deep_view().wf(),
        ensures
            ({
                let store = old(self).deep_view().store;
                let library = store.library(server_id.deep_view());
                match result {
                    Err(error) => if store.fault is Some {
                        store.fault == Some(error@)
                    } else {
                        library.local_access is Some && store.server(server_id.deep_view()) is None
                            && error@ == "The server is no longer saved."@
                    },
                    Ok(count) => {
                        &&& store.fault is None
                        &&& library.local_access is Some ==> store.server(
                            server_id.deep_view(),
                        ) is Some
                        &&& count == (if store.matches_files(server_id.deep_view())
                            && library.tracks.len() > 0 {
                            sure_matches(library.tracks, files.deep_view()).len()
                        } else {
                            0
                        })
                    },
                }
            }),
            final(self).deep_view() == (if result is Ok {
                old(self).deep_view().with_store(
                    old(self).deep_view().store.rematched(
                        server_id.deep_view(),
                        files.deep_view(),
                    ),
                )
            } else {
                old(self).deep_view()
            }),
            final(self).deep_view().wf(),
    {
        reveal(StoreView::rematched);
        if let Err(error) = self.store.check() {
            return Err(error);
        }
        let library: ServerLibrary = self.store.library(server_id);
        if library.local_access.is_none() {
            return Ok(0);
        }
        let saved: SavedServer = match self.store.saved_server(server_id) {
            Ok(Some(saved)) => saved,
            _ => {
                return Err(text::owned("The server is no longer saved."));
            },
        };
        if saved.server.provider.same(&text::owned("local")) {
            return Ok(0);
        }
        assert(library.deep_view().tracks.len() == library.tracks@.len());
        let matches: Vec<TrackLocalMatch> = if library.tracks.len() == 0 {
            let none: Vec<TrackLocalMatch> = Vec::new();
            assert(none.deep_view() =~= Seq::empty());
            none
        } else {
            conservative_local_matches(&library.tracks, files)
        };
        let count: usize = matches.len();
        assert(matches.deep_view().len() == count);
        let _kept: Result<(), String> = self.store.replace_track_local_matches(
            server_id,
            matches,
        );
        Ok(count)
    }

    /// Goes on once the files of a server were read, or could not be.
    pub fn local_tracks_read(&mut self, server_id: &ServerId, files: &Option<Vec<Track>>)
        requires
            old(self).deep_view().wf(),
        ensures
            final(self).deep_view() == old(self).deep_view().files_read(
                server_id.deep_view(),
                files.deep_view(),
            ),
            final(self).deep_view().wf(),
    {
        reveal(ControllerView::files_read);
        if let Some(files) = files {
            let ghost before = self.deep_view();
            let matched: Result<usize, String> = self.refresh_local_track_matches(
                server_id,
                files,
            );
            if matched.is_err() && self.store.fault.is_none() {
                assert(before.store.rematched(server_id.deep_view(), files.deep_view())
                    == before.store) by {
                    reveal(StoreView::rematched);
                }
            }
        }
        self.prepare_next_stream();
        self.emit_snapshot();
    }

    /// Gives up the way in which the files of a server are reached.
    pub fn clear_server_local_access(&mut self, server_id: &ServerId)
        requires
            old(self).deep_view().wf(),
        ensures
            final(self).deep_view() == old(self).deep_view().clear_access(server_id.deep_view()),
            final(self).deep_view().wf(),
    {
        reveal(ControllerView::clear_access);
        if let Err(error) = self.store.set_server_local_access(server_id, None) {
            self.fail(error);
            return;
        }
        let none: Vec<TrackLocalMatch> = Vec::new();
        assert(none.deep_view() =~= Seq::empty());
        let _cleared: Result<(), String> = self.store.replace_track_local_matches(
            server_id,
            none,
        );
        self.prepare_next_stream();
        self.emit_snapshot();
    }
}

} // verus!
