//! Which source is shown, and the local folders.

use crate::cached_reads::{ensure_local_source_server, kept_local_source, with_local_source};
use crate::controller::{following_queue, follow_queue, AppController, ControllerView};
use crate::model::events::{ControllerEvent, ControllerEventView, Effect, EffectView};
use crate::model::ids::ServerId;
use crate::model::playback::{PlaybackSnapshot, PlaybackSnapshotView};
use crate::model::queue::QueueSnapshot;
use crate::model::settings::{
    AppSettings, AppSettingsView, SourceSettingsView,
};
use crate::model::source::{
    LibrarySourceSelection, LibrarySourceSelectionView, LocalLibraryFolder,
    LocalLibraryFolderView, SavedServer, SavedServerView,
};
use crate::model::store::{Store, StoreView};
use crate::queue::{restored, QueueEngine, QueueView};
use crate::select::{choose_items, chosen, Choice};
use crate::text;
use crate::text::text_outcome;
use crate::value::Value;
use vstd::prelude::*;

verus! {

/// What is told where a selected source is not known any more.
pub const SOURCE_GONE: &'static str = "The selected source is no longer saved.";

/// Whether a folder is not at a path.
pub open spec fn not_at(path: Seq<char>) -> spec_fn(LocalLibraryFolderView) -> bool {
    |folder: LocalLibraryFolderView| folder.path != path
}

struct NotAt<'a> {
    path: &'a String,
}

impl<'a> Choice<LocalLibraryFolder> for NotAt<'a> {
    closed spec fn test(&self) -> spec_fn(LocalLibraryFolderView) -> bool {
        not_at(self.path@)
    }

    fn takes(&self, item: &LocalLibraryFolder) -> (result: bool) {
        !item.path.same(self.path)
    }
}

/// Folders with one more, unless it is among them.
pub open spec fn with_folder(
    folders: Seq<LocalLibraryFolderView>,
    path: Seq<char>,
) -> Seq<LocalLibraryFolderView> {
    if folders.contains(LocalLibraryFolderView { path }) {
        folders
    } else {
        folders.push(LocalLibraryFolderView { path })
    }
}

/// Folders with more of them, each once.
pub open spec fn with_folders(
    folders: Seq<LocalLibraryFolderView>,
    paths: Seq<Seq<char>>,
) -> Seq<LocalLibraryFolderView>
    decreases paths.len(),
{
    if paths.len() == 0 {
        folders
    } else {
        with_folder(with_folders(folders, paths.drop_last()), paths.last())
    }
}

fn add_folders(folders: &mut Vec<LocalLibraryFolder>, paths: &Vec<String>)
    ensures
        final(folders).deep_view() == with_folders(old(folders).deep_view(), paths.deep_view()),
{
    let ghost before = folders.deep_view();
    let ghost all = paths.deep_view();
    let mut i: usize = 0;
    assert(all.take(0) =~= Seq::empty());
    while i < paths.len()
        invariant
            i <= paths@.len(),
            all == paths.deep_view(),
            folders.deep_view() == with_folders(before, all.take(i as int)),
        decreases paths.len() - i,
    {
        assert(all.take(i + 1).drop_last() =~= all.take(i as int));
        assert(all.take(i + 1).last() == paths@[i as int]@);
        let ghost now = folders.deep_view();
        let folder: LocalLibraryFolder = LocalLibraryFolder { path: paths[i].copy() };
        if !crate::value::holds(folders, &folder) {
            let ghost added = folder.deep_view();
            folders.push(folder);
            assert(folders.deep_view() =~= now.push(added));
        }
        i += 1;
    }
    assert(all.take(i as int) =~= all);
}

/// What resolving each root of a folder gave: its path, or the error.
pub open spec fn root_outcomes(
    roots: Seq<Result<String, String>>,
) -> Seq<Result<Seq<char>, Seq<char>>> {
    roots.map_values(|root: Result<String, String>| text_outcome(root))
}

/// The paths of the roots, in order, or the error of the first that was not resolved.
pub open spec fn resolved_paths(
    roots: Seq<Result<Seq<char>, Seq<char>>>,
) -> Result<Seq<Seq<char>>, Seq<char>>
    decreases roots.len(),
{
    if roots.len() == 0 {
        Ok(Seq::empty())
    } else {
        match resolved_paths(roots.drop_last()) {
            Err(error) => Err(error),
            Ok(paths) => match roots.last() {
                Ok(path) => Ok(paths.push(path)),
                Err(error) => Err(error),
            },
        }
    }
}

proof fn lemma_refused_stays_refused(roots: Seq<Result<Seq<char>, Seq<char>>>, count: int)
    requires
        0 <= count <= roots.len(),
        resolved_paths(roots.take(count)) is Err,
    ensures
        resolved_paths(roots) == resolved_paths(roots.take(count)),
    decreases roots.len(),
{
    if count == roots.len() {
        assert(roots.take(count) =~= roots);
    } else {
        assert(roots.drop_last().take(count) =~= roots.take(count));
        lemma_refused_stays_refused(roots.drop_last(), count);
    }
}

/// The paths of roots are all there where each was resolved, and the error is that of the
/// first root that was not.
pub proof fn first_refusal_is_told(roots: Seq<Result<Seq<char>, Seq<char>>>)
    ensures
        resolved_paths(roots) is Ok <==> forall|i: int| 0 <= i < roots.len() ==> roots[i] is Ok,
        resolved_paths(roots) matches Ok(paths) ==> paths.len() == roots.len() && forall|i: int|
            0 <= i < roots.len() ==> roots[i] == Ok::<Seq<char>, Seq<char>>(#[trigger] paths[i]),
        resolved_paths(roots) matches Err(error) ==> exists|i: int|
            0 <= i < roots.len() && roots[i] == Err::<Seq<char>, Seq<char>>(error) && forall|j: int|
                0 <= j < i ==> #[trigger] roots[j] is Ok,
    decreases roots.len(),
{
    if roots.len() > 0 {
        let before = roots.drop_last();
        first_refusal_is_told(before);
        assert forall|i: int| 0 <= i < before.len() implies roots[i] == before[i] by {}
        match resolved_paths(before) {
            Ok(paths) => {
                assert forall|i: int| 0 <= i < before.len() implies roots[i] is Ok by {
                    assert(before[i] is Ok);
                }
                match roots.last() {
                    Ok(path) => {
                        let all = paths.push(path);
                        assert forall|i: int| 0 <= i < roots.len() implies roots[i] == Ok::<
                            Seq<char>,
                            Seq<char>,
                        >(#[trigger] all[i]) by {
                            if i < before.len() {
                                assert(before[i] == Ok::<Seq<char>, Seq<char>>(paths[i]));
                            }
                        }
                    },
                    Err(error) => {
                        assert(roots[roots.len() - 1] == Err::<Seq<char>, Seq<char>>(error));
                    },
                }
            },
            Err(error) => {
                let i = choose|i: int|
                    0 <= i < before.len() && before[i] == Err::<Seq<char>, Seq<char>>(error)
                        && forall|j: int| 0 <= j < i ==> #[trigger] before[j] is Ok;
                assert(roots[i] == Err::<Seq<char>, Seq<char>>(error));
                assert forall|j: int| 0 <= j < i implies #[trigger] roots[j] is Ok by {
                    assert(before[j] is Ok);
                }
            },
        }
    }
}

fn paths_of(roots: &Vec<Result<String, String>>) -> (result: Result<Vec<String>, String>)
    ensures
        match result {
            Ok(paths) => resolved_paths(root_outcomes(roots@)) == Ok::<Seq<Seq<char>>, Seq<char>>(
                paths.deep_view(),
            ) && paths@.len() == roots@.len(),
            Err(error) => resolved_paths(root_outcomes(roots@)) == Err::<
                Seq<Seq<char>>,
                Seq<char>,
            >(error@),
        },
{
    let ghost all = root_outcomes(roots@);
    let mut paths: Vec<String> = Vec::new();
    let mut i: usize = 0;
    assert(all.take(0) =~= Seq::empty());
    assert(paths.deep_view() =~= Seq::empty());
    while i < roots.len()
        invariant
            i <= roots@.len(),
            paths@.len() == i,
            all == root_outcomes(roots@),
            resolved_paths(all.take(i as int)) == Ok::<Seq<Seq<char>>, Seq<char>>(
                paths.deep_view(),
            ),
        decreases roots.len() - i,
    {
        assert(all.take(i + 1).drop_last() =~= all.take(i as int));
        assert(all.take(i + 1).last() == text_outcome(roots@[i as int]));
        let ghost before = paths.deep_view();
        match &roots[i] {
            Ok(path) => {
                paths.push(path.copy());
                assert(paths.deep_view() =~= before.push(path@));
            },
            Err(error) => {
                proof {
                    lemma_refused_stays_refused(all, i + 1);
                }
                return Err(error.copy());
            },
        }
        i += 1;
    }
    assert(all.take(i as int) =~= all);
    Ok(paths)
}

/// A folder is never among the folders twice.
pub proof fn folders_stay_distinct(folders: Seq<LocalLibraryFolderView>, paths: Seq<Seq<char>>)
    requires
        folders.no_duplicates(),
    ensures
        with_folders(folders, paths).no_duplicates(),
    decreases paths.len(),
{
    if paths.len() > 0 {
        folders_stay_distinct(folders, paths.drop_last());
        let some = with_folders(folders, paths.drop_last());
        let all = with_folder(some, paths.last());
        assert forall|i: int, j: int| 0 <= i < j < all.len() implies all[i] != all[j] by {
            if j == some.len() {
                assert(some[i] == all[i]);
                assert(some.contains(some[i]));
            }
        }
    }
}

/// Settings with a source selected.
#[verifier::opaque]
pub open spec fn settings_selecting(
    settings: AppSettingsView,
    selected: Option<LibrarySourceSelectionView>,
) -> AppSettingsView {
    AppSettingsView {
        sources: SourceSettingsView { selected, ..settings.sources },
        ..settings
    }
}

/// Settings with local folders.
#[verifier::opaque]
pub open spec fn settings_with_folders(
    settings: AppSettingsView,
    local_folders: Seq<LocalLibraryFolderView>,
) -> AppSettingsView {
    AppSettingsView {
        sources: SourceSettingsView { local_folders, ..settings.sources },
        ..settings
    }
}

pub fn select_in_settings(
    settings: &mut AppSettings,
    selected: Option<LibrarySourceSelection>,
)
    ensures
        final(settings).deep_view() == settings_selecting(
            old(settings).deep_view(),
            selected.deep_view(),
        ),
{
    reveal(settings_selecting);
    settings.sources.selected = selected;
}

fn put_folders(settings: &mut AppSettings, local_folders: Vec<LocalLibraryFolder>)
    ensures
        final(settings).deep_view() == settings_with_folders(
            old(settings).deep_view(),
            local_folders.deep_view(),
        ),
{
    reveal(settings_with_folders);
    settings.sources.local_folders = local_folders;
}

/// The queue that is kept of a source, or an empty one.
#[verifier::opaque]
pub open spec fn kept_queue(store: StoreView, server_id: Seq<char>) -> QueueView {
    match store.library(server_id).queue {
        Some(snapshot) => restored(snapshot),
        None => QueueView::empty(server_id),
    }
}

/// The queue that is kept of a source, or an empty one.
pub fn restore_queue(store: &Store, server_id: &ServerId) -> (result: QueueEngine)
    ensures
        result.deep_view() == kept_queue(store.deep_view(), server_id.deep_view()),
        result.deep_view().wf(),
{
    reveal(kept_queue);
    match store.library(server_id).queue {
        Some(snapshot) => QueueEngine::from_snapshot(snapshot),
        None => QueueEngine::new(server_id.copy()),
    }
}

/// The player's state for a queue that is not played yet.
#[verifier::opaque]
pub open spec fn waiting_player(
    queue: Option<QueueView>,
    auto_dj_enabled: bool,
    settings: AppSettingsView,
) -> PlaybackSnapshotView {
    following_queue(
        PlaybackSnapshotView {
            volume: settings.playback.volume,
            muted: settings.playback.muted,
            ..PlaybackSnapshotView::idle()
        },
        queue,
        auto_dj_enabled,
    )
}

/// The player's state for a queue that is not played yet.
pub fn playback_snapshot_from_queue(
    queue: &Option<QueueEngine>,
    auto_dj_enabled: bool,
    settings: &AppSettings,
) -> (result: PlaybackSnapshot)
    requires
        queue.deep_view() matches Some(queue) ==> queue.wf(),
    ensures
        result.deep_view() == waiting_player(
            queue.deep_view(),
            auto_dj_enabled,
            settings.deep_view(),
        ),
{
    reveal(waiting_player);
    let mut snapshot: PlaybackSnapshot = PlaybackSnapshot::default();
    snapshot.volume = settings.playback.volume.copy();
    snapshot.muted = settings.playback.muted;
    follow_queue(&mut snapshot, queue, auto_dj_enabled);
    snapshot
}

impl ControllerView {
    /// With another queue, not played yet, in place of the one that there is.
    #[verifier::opaque]
    pub open spec fn put_queue(self, queue: QueueView) -> ControllerView {
        (ControllerView { queue: Some(queue), ..self }).with_player(
            waiting_player(Some(queue), self.auto_dj_enabled, self.settings()),
        ).read_waveform().forget_requests().ask(EffectView::StopPlayer).emit(
            ControllerEventView::Queue(Some(queue.snapshot())),
        ).emit_player()
    }

    /// With the queue that is kept of a source, not played yet.
    pub open spec fn activate_queue(self, saved: SavedServerView) -> ControllerView {
        self.put_queue(kept_queue(self.store, saved.server.id))
    }

    /// Without a queue, and with the player stopped.
    #[verifier::opaque]
    pub open spec fn drop_queue(self) -> ControllerView {
        (ControllerView { queue: None, ..self }).forget_requests().ask(
            EffectView::StopPlayer,
        ).with_player(
            PlaybackSnapshotView {
                auto_dj_enabled: self.auto_dj_enabled,
                ..PlaybackSnapshotView::idle()
            },
        ).emit(ControllerEventView::Queue(None)).emit_player()
    }

    /// With a source shown, and its library read where that is wanted.
    #[verifier::opaque]
    pub open spec fn show_source(self, saved: SavedServerView, sync: bool) -> ControllerView {
        let shown = self.with_store(self.store.with_active(saved.server.id)).activate_queue(
            saved,
        ).show_library();
        if sync {
            shown.start_sync(saved)
        } else {
            shown
        }
    }

    /// With a source selected and shown. Its library is read where it is not fresh; that of
    /// local folders only where there are any.
    #[verifier::opaque]
    pub open spec fn select_source(
        self,
        source: LibrarySourceSelectionView,
        age_seconds: Option<u64>,
    ) -> ControllerView {
        match self.store.fault {
            Some(fault) => self.fail(fault),
            None => {
                let selected = self.with_store(
                    self.store.with_settings(
                        settings_selecting(self.store.settings, Some(source)),
                    ),
                );
                match source {
                    LibrarySourceSelectionView::Local => {
                        let saved = kept_local_source(selected.store);
                        let known = selected.with_store(with_local_source(selected.store));
                        known.show_source(
                            saved,
                            self.store.settings.sources.local_folders.len() > 0
                                && known.store.needs_sync(saved, age_seconds),
                        )
                    },
                    LibrarySourceSelectionView::Server(server_id) => match selected.store.server(
                        server_id,
                    ) {
                        Some(saved) => selected.show_source(
                            saved,
                            selected.store.needs_sync(saved, age_seconds),
                        ),
                        None => selected.fail(SOURCE_GONE@),
                    },
                }
            },
        }
    }

    /// With local folders added, selected, and their library read.
    #[verifier::opaque]
    pub open spec fn add_local_folders(self, paths: Seq<Seq<char>>) -> ControllerView {
        if paths.len() == 0 {
            self.fail("Choose at least one local music folder."@)
        } else if let Some(fault) = self.store.fault {
            self.fail(fault)
        } else {
            let added = self.with_store(
                self.store.with_settings(
                    settings_selecting(
                        settings_with_folders(
                            self.store.settings,
                            with_folders(self.store.settings.sources.local_folders, paths),
                        ),
                        Some(LibrarySourceSelectionView::Local),
                    ),
                ),
            );
            let saved = kept_local_source(added.store);
            added.with_store(with_local_source(added.store)).show_source(saved, true)
        }
    }

    /// With the local folders added whose roots were resolved. Nothing is added where one of
    /// them was not: the first error is told.
    #[verifier::opaque]
    pub open spec fn add_resolved_folders(
        self,
        roots: Seq<Result<Seq<char>, Seq<char>>>,
    ) -> ControllerView {
        match resolved_paths(roots) {
            Ok(paths) => self.add_local_folders(paths),
            Err(error) => self.fail(error),
        }
    }

    /// With a local folder taken out, and the library of the others read anew where they are
    /// selected. Nothing is selected any more where it was the last.
    #[verifier::opaque]
    pub open spec fn remove_local_folder(self, path: Seq<char>) -> ControllerView {
        let settings = self.settings();
        let left = chosen(settings.sources.local_folders, not_at(path));
        let was_selected = settings.sources.selected == Some(LibrarySourceSelectionView::Local);
        let go_on = was_selected && left.len() > 0;
        if left.len() == settings.sources.local_folders.len() {
            self
        } else if let Some(fault) = self.store.fault {
            self.fail(fault)
        } else {
            let without = settings_with_folders(settings, left);
            let changed = self.store.with_settings(
                if was_selected && left.len() == 0 {
                    settings_selecting(without, None)
                } else {
                    without
                },
            );
            let saved = kept_local_source(changed);
            let known = with_local_source(changed);
            let shown = if go_on {
                known.with_active(saved.server.id)
            } else {
                known
            };
            let told = self.with_store(
                shown.with_cleared_library(saved.server.id),
            ).show_library();
            if go_on {
                told.start_sync(saved)
            } else {
                told
            }
        }
    }
}

impl AppController {
    fn put_queue(&mut self, queue: QueueEngine)
        requires
            old(self).deep_view().wf(),
            queue.deep_view().wf(),
        ensures
            final(self).deep_view() == old(self).deep_view().put_queue(queue.deep_view()),
            final(self).deep_view().wf(),
    {
        reveal(ControllerView::put_queue);
        let settings: AppSettings = self.load_settings();
        let snapshot: QueueSnapshot = queue.snapshot();
        self.queue = Some(queue);
        self.playback_snapshot = playback_snapshot_from_queue(
            &self.queue,
            self.auto_dj_enabled,
            &settings,
        );
        self.read_waveform();
        self.invalidate_playback_requests();
        self.ask(Effect::StopPlayer);
        self.emit(ControllerEvent::Queue(Some(snapshot)));
        self.emit_playback_snapshot();
    }

    /// Takes up the queue that is kept of a source.
    pub fn activate_queue_for_saved_and_emit(&mut self, saved: &SavedServer)
        requires
            old(self).deep_view().wf(),
        ensures
            final(self).deep_view() == old(self).deep_view().activate_queue(saved.deep_view()),
            final(self).deep_view().wf(),
    {
        let queue: QueueEngine = restore_queue(&self.store, &saved.server.id);
        self.put_queue(queue);
    }

    /// Begins an empty queue for a source.
    pub fn reset_queue(&mut self, server_id: &ServerId)
        requires
            old(self).deep_view().wf(),
        ensures
            final(self).deep_view() == old(self).deep_view().put_queue(
                QueueView::empty(server_id.deep_view()),
            ),
            final(self).deep_view().wf(),
    {
        self.put_queue(QueueEngine::new(server_id.copy()));
    }

    /// Drops the queue and stops the player.
    pub fn clear_queue_and_stop_playback(&mut self)
        requires
            old(self).deep_view().wf(),
        ensures
            final(self).deep_view() == old(self).deep_view().drop_queue(),
            final(self).deep_view().wf(),
    {
        reveal(ControllerView::drop_queue);
        self.queue = None;
        self.invalidate_playback_requests();
        self.ask(Effect::StopPlayer);
        self.playback_snapshot = PlaybackSnapshot::default();
        self.playback_snapshot.auto_dj_enabled = self.auto_dj_enabled;
        self.emit(ControllerEvent::Queue(None));
        self.emit_playback_snapshot();
    }

    /// Shows a source, and reads its library where that is wanted.
    pub fn show_source(&mut self, saved: &SavedServer, sync: bool)
        requires
            old(self).deep_view().wf(),
            old(self).deep_view().store.fault is None,
        ensures
            final(self).deep_view() == old(self).deep_view().show_source(saved.deep_view(), sync),
            final(self).deep_view().wf(),
    {
        reveal(ControllerView::show_source);
        let _result: Result<(), String> = self.store.set_active_server(&saved.server.id);
        self.activate_queue_for_saved_and_emit(saved);
        self.emit_snapshot();
        if sync {
            self.start_sync(saved);
        }
    }

    /// Selects a source; the age tells when its library was last read.
    pub fn select_source(&mut self, source: LibrarySourceSelection, age_seconds: Option<u64>)
        requires
            old(self).deep_view().wf(),
        ensures
            final(self).deep_view() == old(self).deep_view().select_source(
                source.deep_view(),
                age_seconds,
            ),
            final(self).deep_view().wf(),
    {
        reveal(ControllerView::select_source);
        let mut settings: AppSettings = self.load_settings();
        let has_folders: bool = settings.sources.local_folders.len() > 0;
        assert(settings.deep_view().sources.local_folders.len()
            == settings.sources.local_folders@.len());
        select_in_settings(&mut settings, Some(source.copy()));
        if let Err(error) = self.save_settings(&settings) {
            self.fail(error);
            return;
        }
        match source {
            LibrarySourceSelection::Local => {
                match ensure_local_source_server(&mut self.store) {
                    Ok(saved) => {
                        let sync: bool = has_folders && self.active_server_needs_sync(
                            &saved,
                            age_seconds,
                        );
                        self.show_source(&saved, sync);
                    },
                    Err(error) => self.fail(error),
                }
            },
            LibrarySourceSelection::Server(server_id) => {
                match self.store.saved_server(&server_id) {
                    Ok(Some(saved)) => {
                        let sync: bool = self.active_server_needs_sync(&saved, age_seconds);
                        self.show_source(&saved, sync);
                    },
                    Ok(None) => self.fail(text::owned(SOURCE_GONE)),
                    Err(error) => self.fail(error),
                }
            },
        }
    }

    /// Adds a local folder, from what resolving its root gave, and selects the local folders.
    pub fn add_local_server(&mut self, root: Result<String, String>)
        requires
            old(self).deep_view().wf(),
        ensures
            final(self).deep_view() == old(self).deep_view().add_resolved_folders(
                seq![text_outcome(root)],
            ),
            final(self).deep_view().wf(),
    {
        let ghost only = text_outcome(root);
        let mut roots: Vec<Result<String, String>> = Vec::new();
        roots.push(root);
        assert(root_outcomes(roots@) =~= seq![only]);
        self.add_local_server_folders(&roots);
    }

    /// Adds a local folder, from what resolving its root gave, and selects the local folders.
    pub fn add_local_library_folder(&mut self, root: Result<String, String>)
        requires
            old(self).deep_view().wf(),
        ensures
            final(self).deep_view() == old(self).deep_view().add_resolved_folders(
                seq![text_outcome(root)],
            ),
            final(self).deep_view().wf(),
    {
        self.add_local_server(root);
    }

    /// Adds local folders, from what resolving each root gave, and selects them.
    pub fn add_local_server_folders(&mut self, roots: &Vec<Result<String, String>>)
        requires
            old(self).deep_view().wf(),
        ensures
            final(self).deep_view() == old(self).deep_view().add_resolved_folders(
                root_outcomes(roots@),
            ),
            final(self).deep_view().wf(),
    {
        reveal(ControllerView::add_resolved_folders);
        reveal(ControllerView::add_local_folders);
        let paths: Vec<String> = match paths_of(roots) {
            Ok(paths) => paths,
            Err(error) => {
                self.fail(error);
                return;
            },
        };
        assert(paths.deep_view().len() == paths@.len());
        if paths.len() == 0 {
            self.fail(text::owned("Choose at least one local music folder."));
            return;
        }
        let mut settings: AppSettings = self.load_settings();
        let mut folders: Vec<LocalLibraryFolder> = settings.sources.local_folders.copy();
        add_folders(&mut folders, &paths);
        put_folders(&mut settings, folders);
        select_in_settings(&mut settings, Some(LibrarySourceSelection::Local));
        if let Err(error) = self.save_settings(&settings) {
            self.fail(error);
            return;
        }
        match ensure_local_source_server(&mut self.store) {
            Ok(saved) => self.show_source(&saved, true),
            Err(error) => self.fail(error),
        }
    }

    /// Takes a local folder out.
    pub fn remove_local_library_folder(&mut self, path: String)
        requires
            old(self).deep_view().wf(),
        ensures
            final(self).deep_view() == old(self).deep_view().remove_local_folder(path@),
            final(self).deep_view().wf(),
    {
        reveal(ControllerView::remove_local_folder);
        let mut settings: AppSettings = self.load_settings();
        let left: Vec<LocalLibraryFolder> = choose_items(
            &settings.sources.local_folders,
            &NotAt { path: &path },
        );
        assert(left.deep_view().len() == left@.len());
        assert(settings.deep_view().sources.local_folders.len()
            == settings.sources.local_folders@.len());
        if left.len() == settings.sources.local_folders.len() {
            return;
        }
        let was_selected: bool = match &settings.sources.selected {
            Some(LibrarySourceSelection::Local) => true,
            _ => false,
        };
        let is_left: bool = left.len() > 0;
        put_folders(&mut settings, left);
        if was_selected && !is_left {
            select_in_settings(&mut settings, None);
        }
        if let Err(error) = self.save_settings(&settings) {
            self.fail(error);
            return;
        }
        match ensure_local_source_server(&mut self.store) {
            Ok(saved) => {
                if was_selected && is_left {
                    let _shown: Result<(), String> = self.store.set_active_server(
                        &saved.server.id,
                    );
                }
                let _cleared: Result<(), String> = self.store.clear_library_cache(
                    &saved.server.id,
                );
                self.emit_snapshot();
                if was_selected && is_left {
                    self.start_sync(&saved);
                }
            },
            Err(error) => self.fail(error),
        }
    }
}

} // verus!
