//! What is shown of the library that is kept.
use crate::external_metadata::{
    is_external, is_external_image_ref, normalize_albums, normalize_home_sections, normalize_tracks,
    normalized_albums, normalized_home_sections, normalized_tracks,
};
use crate::local_access::{
    access_status, local_access_status, no_status, LOCAL_PROVIDER_ID,
};
use crate::model::ids::ServerId;
use crate::model::library::{
    Album, AlbumView, Artist, ArtistView, Genre, GenreView, HomeSection, HomeSectionView, ImageRef,
    ImageRefView, Playlist, PlaylistView, SearchResults, SearchResultsView, SmartPlaylist,
    SmartPlaylistView, Track, TrackView,
};
use crate::model::settings::{AppSettings, AppSettingsView};
use crate::model::snapshot::{LibrarySnapshot, LibrarySnapshotView};
use crate::model::source::{
    LibrarySourceSelection, LibrarySourceSelectionView, LocalAccessStatus, SavedServer,
    SavedServerView, ServerIdentity, ServerIdentityView,
};
use crate::model::store::{ServerLibrary, Store, StoreView};
use crate::select::{change_items, choose_items, chosen, Change, Choice};
use crate::store::{answers, done};
use crate::table::{get_row, page_of, row, take_page};
use crate::text;
use crate::value::Value;
use vstd::prelude::*;

verus! {

/// How many albums and playlists are shown at first.
pub const SNAPSHOT_GRID_LIMIT: usize = 500;

/// How many tracks are shown at first.
pub const SNAPSHOT_TRACK_LIMIT: usize = 2000;

/// The identifier of the source that stands for the local folders.
pub const LOCAL_SOURCE_SERVER_ID: &'static str = "local";

/// The source that stands for the local folders.
pub open spec fn local_source() -> SavedServerView {
    SavedServerView {
        server: ServerIdentityView {
            id: LOCAL_SOURCE_SERVER_ID@,
            provider: LOCAL_PROVIDER_ID@,
            name: "Local"@,
            base_url: Seq::empty(),
        },
        user_id: Seq::empty(),
        username: Seq::empty(),
        trust_invalid_cert: false,
    }
}

/// The source that stands for the local folders.
pub fn local_source_saved() -> (result: SavedServer)
    ensures
        result.deep_view() == local_source(),
{
    SavedServer {
        server: ServerIdentity {
            id: ServerId::new(LOCAL_SOURCE_SERVER_ID),
            provider: text::owned(LOCAL_PROVIDER_ID),
            name: text::owned("Local"),
            base_url: String::new(),
        },
        user_id: String::new(),
        username: String::new(),
        trust_invalid_cert: false,
    }
}

/// Whether a source is one of local folders.
pub open spec fn is_local(saved: SavedServerView) -> bool {
    saved.server.provider == LOCAL_PROVIDER_ID@
}

pub fn source_is_local(saved: &SavedServer) -> (result: bool)
    ensures
        result == is_local(saved.deep_view()),
{
    saved.server.provider.same(&text::owned(LOCAL_PROVIDER_ID))
}

/// The settings that hold for a source: nothing is looked up elsewhere for local folders.
pub open spec fn source_settings(
    settings: AppSettingsView,
    saved: SavedServerView,
) -> AppSettingsView {
    if is_local(saved) {
        AppSettingsView { external_metadata_enabled: false, ..settings }
    } else {
        settings
    }
}

/// The settings that hold for a source.
pub fn settings_for_source(settings: &AppSettings, saved: &SavedServer) -> (result: AppSettings)
    ensures
        result.deep_view() == source_settings(settings.deep_view(), saved.deep_view()),
{
    let mut settings: AppSettings = settings.copy();
    if source_is_local(saved) {
        settings.external_metadata_enabled = false;
    }
    settings
}

/// The settings that are kept and hold for a source.
pub fn load_settings_for_saved(store: &Store, saved: &SavedServer) -> (result: AppSettings)
    ensures
        result.deep_view() == source_settings(
            store.deep_view().known_settings(),
            saved.deep_view(),
        ),
{
    settings_for_source(&store.known_settings(), saved)
}

/// The settings that hold for the source that is shown.
pub open spec fn active_settings(store: StoreView) -> AppSettingsView {
    match store.shown() {
        Some(saved) => source_settings(store.known_settings(), saved),
        None => store.known_settings(),
    }
}

pub fn load_settings_for_active_server(store: &Store) -> (result: AppSettings)
    ensures
        result.deep_view() == active_settings(store.deep_view()),
{
    match store.shown() {
        Some(saved) => load_settings_for_saved(store, &saved),
        None => store.known_settings(),
    }
}

/// An image reference that may stand in a library: local folders have none from elsewhere,
/// and servers none of local files.
pub open spec fn scrubbed(image_ref: Option<ImageRefView>, local: bool) -> Option<ImageRefView> {
    match image_ref {
        Some(named) => if local && is_external(named) || !local && "local:cover:"@.is_prefix_of(
            named.item_id,
        ) {
            None
        } else {
            Some(named)
        },
        None => None,
    }
}

pub fn scrub_image_ref(image_ref: &Option<ImageRef>, local: bool) -> (result: Option<ImageRef>)
    ensures
        result.deep_view() == scrubbed(image_ref.deep_view(), local),
{
    match image_ref {
        Some(named) => {
            if local && is_external_image_ref(named) {
                None
            } else if !local && text::starts_with(named.item_id.as_str(), "local:cover:") {
                None
            } else {
                Some(named.copy())
            }
        },
        None => None,
    }
}

/// A reference that may stand in a library.
pub open spec fn may_stand(local: bool) -> spec_fn(ImageRefView) -> bool {
    |image_ref: ImageRefView| scrubbed(Some(image_ref), local) is Some
}

pub open spec fn scrubbed_album(local: bool) -> spec_fn(AlbumView) -> AlbumView {
    |album: AlbumView| AlbumView { image_ref: scrubbed(album.image_ref, local), ..album }
}

pub open spec fn scrubbed_track(local: bool) -> spec_fn(TrackView) -> TrackView {
    |track: TrackView| TrackView { image_ref: scrubbed(track.image_ref, local), ..track }
}

pub open spec fn scrubbed_artist(local: bool) -> spec_fn(ArtistView) -> ArtistView {
    |artist: ArtistView| ArtistView { image_ref: scrubbed(artist.image_ref, local), ..artist }
}

pub open spec fn scrubbed_genre(local: bool) -> spec_fn(GenreView) -> GenreView {
    |genre: GenreView| GenreView { image_ref: scrubbed(genre.image_ref, local), ..genre }
}

pub open spec fn scrubbed_playlist(local: bool) -> spec_fn(PlaylistView) -> PlaylistView {
    |playlist: PlaylistView|
        PlaylistView {
            image_ref: scrubbed(playlist.image_ref, local),
            image_refs: chosen(playlist.image_refs, may_stand(local)),
            ..playlist
        }
}

pub open spec fn scrubbed_smart(local: bool) -> spec_fn(SmartPlaylistView) -> SmartPlaylistView {
    |playlist: SmartPlaylistView|
        SmartPlaylistView { image_ref: scrubbed(playlist.image_ref, local), ..playlist }
}

pub open spec fn scrubbed_section(local: bool) -> spec_fn(HomeSectionView) -> HomeSectionView {
    |section: HomeSectionView|
        HomeSectionView {
            albums: section.albums.map_values(scrubbed_album(local)),
            tracks: section.tracks.map_values(scrubbed_track(local)),
            ..section
        }
}

/// Takes out the image references that may not stand in a library.
pub struct Scrub {
    pub local: bool,
}

impl Choice<ImageRef> for Scrub {
    open spec fn test(&self) -> spec_fn(ImageRefView) -> bool {
        may_stand(self.local)
    }

    fn takes(&self, item: &ImageRef) -> (result: bool) {
        scrub_image_ref(&Some(item.copy()), self.local).is_some()
    }
}

impl Change<Album> for Scrub {
    open spec fn effect(&self) -> spec_fn(AlbumView) -> AlbumView {
        scrubbed_album(self.local)
    }

    fn apply(&self, item: &mut Album) {
        item.image_ref = scrub_image_ref(&item.image_ref, self.local);
    }
}

impl Change<Track> for Scrub {
    open spec fn effect(&self) -> spec_fn(TrackView) -> TrackView {
        scrubbed_track(self.local)
    }

    fn apply(&self, item: &mut Track) {
        item.image_ref = scrub_image_ref(&item.image_ref, self.local);
    }
}

impl Change<Artist> for Scrub {
    open spec fn effect(&self) -> spec_fn(ArtistView) -> ArtistView {
        scrubbed_artist(self.local)
    }

    fn apply(&self, item: &mut Artist) {
        item.image_ref = scrub_image_ref(&item.image_ref, self.local);
    }
}

impl Change<Genre> for Scrub {
    open spec fn effect(&self) -> spec_fn(GenreView) -> GenreView {
        scrubbed_genre(self.local)
    }

    fn apply(&self, item: &mut Genre) {
        item.image_ref = scrub_image_ref(&item.image_ref, self.local);
    }
}

impl Change<Playlist> for Scrub {
    open spec fn effect(&self) -> spec_fn(PlaylistView) -> PlaylistView {
        scrubbed_playlist(self.local)
    }

    fn apply(&self, item: &mut Playlist) {
        item.image_ref = scrub_image_ref(&item.image_ref, self.local);
        item.image_refs = choose_items(&item.image_refs, &Scrub { local: self.local });
    }
}

impl Change<SmartPlaylist> for Scrub {
    open spec fn effect(&self) -> spec_fn(SmartPlaylistView) -> SmartPlaylistView {
        scrubbed_smart(self.local)
    }

    fn apply(&self, item: &mut SmartPlaylist) {
        item.image_ref = scrub_image_ref(&item.image_ref, self.local);
    }
}

impl Change<HomeSection> for Scrub {
    open spec fn effect(&self) -> spec_fn(HomeSectionView) -> HomeSectionView {
        scrubbed_section(self.local)
    }

    fn apply(&self, item: &mut HomeSection) {
        change_items(&mut item.albums, self);
        change_items(&mut item.tracks, self);
    }
}

/// A track of local folders with the image of its album, where that has one.
pub open spec fn with_album_image(albums: Seq<AlbumView>, local: bool) -> spec_fn(
    TrackView,
) -> TrackView {
    |track: TrackView|
        match row::<Album>(albums, track.album_id) {
            Some(album) if local && scrubbed(album.image_ref, local) is Some => TrackView {
                image_ref: scrubbed(album.image_ref, local),
                ..track
            },
            _ => track,
        }
}

/// Sections whose tracks have the images of their albums.
pub open spec fn section_with_album_images(albums: Seq<AlbumView>, local: bool) -> spec_fn(
    HomeSectionView,
) -> HomeSectionView {
    |section: HomeSectionView|
        HomeSectionView {
            tracks: section.tracks.map_values(with_album_image(albums, local)),
            ..section
        }
}

/// Gives tracks of local folders the images of their albums.
pub struct AlbumImages<'a> {
    pub albums: &'a Vec<Album>,
    pub local: bool,
}

impl<'a> Change<Track> for AlbumImages<'a> {
    open spec fn effect(&self) -> spec_fn(TrackView) -> TrackView {
        with_album_image(self.albums.deep_view(), self.local)
    }

    fn apply(&self, item: &mut Track) {
        if self.local {
            if let Some(album) = get_row(self.albums, item.album_id.as_str()) {
                let image_ref: Option<ImageRef> = scrub_image_ref(&album.image_ref, self.local);
                if image_ref.is_some() {
                    item.image_ref = image_ref;
                }
            }
        }
    }
}

impl<'a> Change<HomeSection> for AlbumImages<'a> {
    open spec fn effect(&self) -> spec_fn(HomeSectionView) -> HomeSectionView {
        section_with_album_images(self.albums.deep_view(), self.local)
    }

    fn apply(&self, item: &mut HomeSection) {
        change_items(&mut item.tracks, self);
    }
}

/// Albums of a source as they are shown.
pub open spec fn shown_albums(
    albums: Seq<AlbumView>,
    saved: SavedServerView,
    settings: AppSettingsView,
) -> Seq<AlbumView> {
    normalized_albums(
        albums.map_values(scrubbed_album(is_local(saved))),
        source_settings(settings, saved),
    )
}

pub fn show_albums(albums: &mut Vec<Album>, saved: &SavedServer, settings: &AppSettings)
    ensures
        final(albums).deep_view() == shown_albums(
            old(albums).deep_view(),
            saved.deep_view(),
            settings.deep_view(),
        ),
{
    let settings: AppSettings = settings_for_source(settings, saved);
    change_items(albums, &Scrub { local: source_is_local(saved) });
    normalize_albums(albums, &settings);
}

/// Tracks of a source as they are shown: those of local folders with the images of their
/// albums.
pub open spec fn shown_tracks(
    tracks: Seq<TrackView>,
    albums: Seq<AlbumView>,
    saved: SavedServerView,
    settings: AppSettingsView,
) -> Seq<TrackView> {
    normalized_tracks(
        tracks.map_values(scrubbed_track(is_local(saved))),
        source_settings(settings, saved),
    ).map_values(with_album_image(albums, is_local(saved)))
}

pub fn show_tracks(
    tracks: &mut Vec<Track>,
    albums: &Vec<Album>,
    saved: &SavedServer,
    settings: &AppSettings,
)
    ensures
        final(tracks).deep_view() == shown_tracks(
            old(tracks).deep_view(),
            albums.deep_view(),
            saved.deep_view(),
            settings.deep_view(),
        ),
{
    let settings: AppSettings = settings_for_source(settings, saved);
    let local: bool = source_is_local(saved);
    change_items(tracks, &Scrub { local });
    normalize_tracks(tracks, &settings);
    change_items(tracks, &AlbumImages { albums, local });
}

/// Sections of the home page as they are shown.
pub open spec fn shown_sections(
    sections: Seq<HomeSectionView>,
    albums: Seq<AlbumView>,
    saved: SavedServerView,
    settings: AppSettingsView,
) -> Seq<HomeSectionView> {
    normalized_home_sections(
        sections.map_values(scrubbed_section(is_local(saved))),
        source_settings(settings, saved),
    ).map_values(section_with_album_images(albums, is_local(saved)))
}

fn show_sections(
    sections: &mut Vec<HomeSection>,
    albums: &Vec<Album>,
    saved: &SavedServer,
    settings: &AppSettings,
)
    ensures
        final(sections).deep_view() == shown_sections(
            old(sections).deep_view(),
            albums.deep_view(),
            saved.deep_view(),
            settings.deep_view(),
        ),
{
    let settings: AppSettings = settings_for_source(settings, saved);
    let local: bool = source_is_local(saved);
    change_items(sections, &Scrub { local });
    normalize_home_sections(sections, &settings);
    change_items(sections, &AlbumImages { albums, local });
}

/// Whether a track is a favorite.
pub open spec fn is_favorite() -> spec_fn(TrackView) -> bool {
    |track: TrackView| track.favorite
}

struct Favorites {}

impl Choice<Track> for Favorites {
    closed spec fn test(&self) -> spec_fn(TrackView) -> bool {
        is_favorite()
    }

    fn takes(&self, item: &Track) -> (result: bool) {
        item.favorite
    }
}

/// Nothing found.
pub open spec fn no_results() -> SearchResultsView {
    SearchResultsView {
        albums: Seq::empty(),
        tracks: Seq::empty(),
        artists: Seq::empty(),
        playlists: Seq::empty(),
    }
}

pub fn empty_results() -> (result: SearchResults)
    ensures
        result.deep_view() == no_results(),
{
    let result: SearchResults = SearchResults {
        albums: Vec::new(),
        tracks: Vec::new(),
        artists: Vec::new(),
        playlists: Vec::new(),
    };
    assert(result.deep_view() =~= no_results());
    result
}

/// How far the library of a source is read, in words.
pub open spec fn status_text(status: Seq<char>) -> Seq<char> {
    if status == "syncing"@ {
        "Syncing library..."@
    } else if status == "error"@ {
        "Library sync failed"@
    } else {
        "Cached library ready"@
    }
}

fn sync_status_text(status: &String) -> (result: String)
    ensures
        result@ == status_text(status@),
{
    if status.same(&text::owned("syncing")) {
        text::owned("Syncing library...")
    } else if status.same(&text::owned("error")) {
        text::owned("Library sync failed")
    } else {
        text::owned("Cached library ready")
    }
}

/// The servers among the sources, as they are listed.
pub open spec fn listed_servers(servers: Seq<SavedServerView>) -> Seq<ServerIdentityView>
    decreases servers.len(),
{
    if servers.len() == 0 {
        Seq::empty()
    } else if servers.last().server.id == LOCAL_SOURCE_SERVER_ID@ {
        listed_servers(servers.drop_last())
    } else {
        listed_servers(servers.drop_last()).push(servers.last().server)
    }
}

fn list_identities(servers: &Vec<SavedServer>) -> (result: Vec<ServerIdentity>)
    ensures
        result.deep_view() == listed_servers(servers.deep_view()),
{
    let ghost all = servers.deep_view();
    let local: String = text::owned(LOCAL_SOURCE_SERVER_ID);
    let mut result: Vec<ServerIdentity> = Vec::new();
    let mut i: usize = 0;
    assert(all.take(0) =~= Seq::empty());
    assert(result.deep_view() =~= Seq::empty());
    while i < servers.len()
        invariant
            i <= servers@.len(),
            all == servers.deep_view(),
            local@ == LOCAL_SOURCE_SERVER_ID@,
            result.deep_view() == listed_servers(all.take(i as int)),
        decreases servers.len() - i,
    {
        let ghost before = result.deep_view();
        assert(all.take(i + 1).drop_last() =~= all.take(i as int));
        assert(all.take(i + 1).last() == servers@[i as int].deep_view());
        if !servers[i].server.id.value.same(&local) {
            result.push(servers[i].server.copy());
            assert(result.deep_view() =~= before.push(servers@[i as int].deep_view().server));
        }
        i += 1;
    }
    assert(all.take(i as int) =~= all);
    result
}

/// What is shown while no source is.
pub open spec fn first_run_snapshot(store: StoreView) -> LibrarySnapshotView {
    LibrarySnapshotView {
        first_run: true,
        server: None,
        servers: listed_servers(store.servers),
        selected_source: store.settings.sources.selected,
        local_folders: store.settings.sources.local_folders,
        albums: Seq::empty(),
        tracks: Seq::empty(),
        favorites: Seq::empty(),
        playlists: Seq::empty(),
        home_sections: Seq::empty(),
        search: no_results(),
        cached_album_count: 0,
        cached_track_count: 0,
        sync_status: Seq::empty(),
        local_access: None,
        local_access_status: no_status(),
    }
}

/// What is shown of a source.
pub open spec fn source_snapshot(store: StoreView, saved: SavedServerView) -> LibrarySnapshotView {
    let library = store.library(saved.server.id);
    let settings = store.settings;
    LibrarySnapshotView {
        first_run: false,
        server: Some(saved.server),
        servers: listed_servers(store.servers),
        selected_source: settings.sources.selected,
        local_folders: settings.sources.local_folders,
        albums: shown_albums(
            page_of(library.albums, 0, SNAPSHOT_GRID_LIMIT as nat),
            saved,
            settings,
        ),
        tracks: shown_tracks(
            page_of(library.tracks, 0, SNAPSHOT_TRACK_LIMIT as nat),
            library.albums,
            saved,
            settings,
        ),
        favorites: shown_tracks(
            chosen(library.tracks, is_favorite()),
            library.albums,
            saved,
            settings,
        ),
        playlists: page_of(library.playlists, 0, SNAPSHOT_GRID_LIMIT as nat).map_values(
            scrubbed_playlist(is_local(saved)),
        ),
        home_sections: shown_sections(library.home_sections, library.albums, saved, settings),
        search: no_results(),
        cached_album_count: library.albums.len() as usize,
        cached_track_count: library.tracks.len() as usize,
        sync_status: status_text(library.sync.status),
        local_access: library.local_access,
        local_access_status: match library.local_access {
            Some(access) if !is_local(saved) => access_status(
                library.tracks,
                library.local_matches,
                access,
            ),
            _ => no_status(),
        },
    }
}

/// What is shown.
pub open spec fn snapshot_of(store: StoreView) -> LibrarySnapshotView {
    match store.active_server() {
        Some(saved) => source_snapshot(store, saved),
        None => first_run_snapshot(store),
    }
}

/// The store with the selected source as the one that is shown, where it is known. Local
/// folders become known by being selected.
pub open spec fn reconciled(store: StoreView) -> StoreView {
    match store.settings.sources.selected {
        Some(LibrarySourceSelectionView::Local) => with_local_source(store).with_active(
            LOCAL_SOURCE_SERVER_ID@,
        ),
        Some(LibrarySourceSelectionView::Server(server_id)) => if store.server(
            server_id,
        ) is Some {
            store.with_active(server_id)
        } else {
            store
        },
        None => store,
    }
}

/// The store with the local folders among the sources.
pub open spec fn with_local_source(store: StoreView) -> StoreView {
    if store.server(LOCAL_SOURCE_SERVER_ID@) is Some {
        store
    } else {
        store.with_server(local_source())
    }
}

/// The local folders as a source, as they are kept.
pub open spec fn kept_local_source(store: StoreView) -> SavedServerView {
    match store.server(LOCAL_SOURCE_SERVER_ID@) {
        Some(saved) => saved,
        None => local_source(),
    }
}

/// Makes the local folders one of the sources.
pub fn ensure_local_source_server(store: &mut Store) -> (result: Result<SavedServer, String>)
    ensures
        answers(result, old(store).deep_view().fault, kept_local_source(old(store).deep_view())),
        final(store).deep_view() == (if result is Ok {
            with_local_source(old(store).deep_view())
        } else {
            old(store).deep_view()
        }),
        old(store).deep_view().wf() ==> final(store).deep_view().wf(),
{
    match store.saved_server(&ServerId::new(LOCAL_SOURCE_SERVER_ID)) {
        Err(error) => Err(error),
        Ok(Some(saved)) => Ok(saved),
        Ok(None) => {
            let saved: SavedServer = local_source_saved();
            match store.save_server(&saved) {
                Ok(()) => Ok(saved),
                Err(error) => Err(error),
            }
        },
    }
}

fn reconcile_active(store: &mut Store) -> (result: Result<(), String>)
    ensures
        done(result, old(store).deep_view().fault),
        final(store).deep_view() == (if result is Ok {
            reconciled(old(store).deep_view())
        } else {
            old(store).deep_view()
        }),
        old(store).deep_view().wf() ==> final(store).deep_view().wf(),
{
    if let Err(error) = store.check() {
        return Err(error);
    }
    match store.settings.sources.selected.copy() {
        Some(LibrarySourceSelection::Local) => {
            match ensure_local_source_server(store) {
                Ok(_) => store.set_active_server(&ServerId::new(LOCAL_SOURCE_SERVER_ID)),
                Err(error) => Err(error),
            }
        },
        Some(LibrarySourceSelection::Server(server_id)) => {
            match store.saved_server(&server_id) {
                Ok(Some(_)) => store.set_active_server(&server_id),
                Ok(None) => Ok(()),
                Err(error) => Err(error),
            }
        },
        None => Ok(()),
    }
}

pub fn show_first_run(store: &Store) -> (result: LibrarySnapshot)
    ensures
        result.deep_view() == first_run_snapshot(store.deep_view()),
{
    let result: LibrarySnapshot = LibrarySnapshot {
        first_run: true,
        server: None,
        servers: list_identities(&store.servers),
        selected_source: store.settings.sources.selected.copy(),
        local_folders: store.settings.sources.local_folders.copy(),
        albums: Vec::new(),
        tracks: Vec::new(),
        favorites: Vec::new(),
        playlists: Vec::new(),
        home_sections: Vec::new(),
        search: empty_results(),
        cached_album_count: 0,
        cached_track_count: 0,
        sync_status: String::new(),
        local_access: None,
        local_access_status: crate::local_access::no_local_access_status(),
    };
    assert(result.deep_view() =~= first_run_snapshot(store.deep_view()));
    result
}

fn show_source(store: &Store, saved: &SavedServer) -> (result: LibrarySnapshot)
    requires
        store.deep_view().fault is None,
    ensures
        result.deep_view() == source_snapshot(store.deep_view(), saved.deep_view()),
{
    let library: ServerLibrary = store.library(&saved.server.id);
    let settings: AppSettings = load_settings_for_saved(store, saved);
    let ghost view = store.deep_view();
    let ghost who = saved.deep_view();
    assert(settings.deep_view() == source_settings(view.settings, who));
    let mut albums: Vec<Album> = take_page(&library.albums, 0, SNAPSHOT_GRID_LIMIT);
    show_albums(&mut albums, saved, &settings);
    let mut tracks: Vec<Track> = take_page(&library.tracks, 0, SNAPSHOT_TRACK_LIMIT);
    show_tracks(&mut tracks, &library.albums, saved, &settings);
    let mut favorites: Vec<Track> = choose_items(&library.tracks, &Favorites {});
    show_tracks(&mut favorites, &library.albums, saved, &settings);
    let mut playlists: Vec<Playlist> = take_page(&library.playlists, 0, SNAPSHOT_GRID_LIMIT);
    change_items(&mut playlists, &Scrub { local: source_is_local(saved) });
    let mut home_sections: Vec<HomeSection> = library.home_sections.copy();
    show_sections(&mut home_sections, &library.albums, saved, &settings);
    let status: LocalAccessStatus = local_access_status(
        &saved.server,
        library.local_access.as_ref(),
        &library.tracks,
        &library.local_matches,
    );
    assert(library.deep_view().albums.len() == library.albums@.len());
    assert(library.deep_view().tracks.len() == library.tracks@.len());
    LibrarySnapshot {
        first_run: false,
        server: Some(saved.server.copy()),
        servers: list_identities(&store.servers),
        selected_source: store.settings.sources.selected.copy(),
        local_folders: store.settings.sources.local_folders.copy(),
        albums,
        tracks,
        favorites,
        playlists,
        home_sections,
        search: empty_results(),
        cached_album_count: library.albums.len(),
        cached_track_count: library.tracks.len(),
        sync_status: sync_status_text(&library.sync.status),
        local_access: library.local_access,
        local_access_status: status,
    }
}

/// What is shown, after the selected source was made the one that is.
pub fn load_snapshot(store: &mut Store) -> (result: Result<LibrarySnapshot, String>)
    ensures
        answers(
            result,
            old(store).deep_view().fault,
            snapshot_of(reconciled(old(store).deep_view())),
        ),
        final(store).deep_view() == (if result is Ok {
            reconciled(old(store).deep_view())
        } else {
            old(store).deep_view()
        }),
        old(store).deep_view().wf() ==> final(store).deep_view().wf(),
{
    if let Err(error) = reconcile_active(store) {
        return Err(error);
    }
    match store.active_server() {
        Err(error) => Err(error),
        Ok(Some(saved)) => Ok(show_source(store, &saved)),
        Ok(None) => Ok(show_first_run(store)),
    }
}

/// What is shown of a source is what is kept of it, in its order: its first albums, tracks and
/// playlists, exactly its favorite tracks, and how many albums and tracks there are. Only
/// images are changed.
pub proof fn snapshots_show_what_is_kept(store: StoreView, saved: SavedServerView)
    requires
        store.library(saved.server.id).albums.len() <= usize::MAX,
        store.library(saved.server.id).tracks.len() <= usize::MAX,
    ensures
        ({
            let library = store.library(saved.server.id);
            let shown = source_snapshot(store, saved);
            let favorites = library.tracks.filter(|track: TrackView| track.favorite);
            &&& !shown.first_run
            &&& shown.server == Some(saved.server)
            &&& shown.albums.len() == (if library.albums.len() < 500 {
                library.albums.len()
            } else {
                500
            })
            &&& forall|i: int|
                0 <= i < shown.albums.len() ==> (#[trigger] shown.albums[i]) == (AlbumView {
                    image_ref: shown.albums[i].image_ref,
                    ..library.albums[i]
                })
            &&& shown.tracks.len() == (if library.tracks.len() < 2000 {
                library.tracks.len()
            } else {
                2000
            })
            &&& forall|i: int|
                0 <= i < shown.tracks.len() ==> (#[trigger] shown.tracks[i]) == (TrackView {
                    image_ref: shown.tracks[i].image_ref,
                    ..library.tracks[i]
                })
            &&& shown.favorites.len() == favorites.len()
            &&& forall|i: int|
                0 <= i < favorites.len() ==> (#[trigger] shown.favorites[i]) == (TrackView {
                    image_ref: shown.favorites[i].image_ref,
                    ..favorites[i]
                })
            &&& forall|i: int|
                0 <= i < shown.playlists.len() ==> (#[trigger] shown.playlists[i]).id
                    == library.playlists[i].id && shown.playlists[i].name
                    == library.playlists[i].name
            &&& shown.cached_album_count == library.albums.len()
            &&& shown.cached_track_count == library.tracks.len()
            &&& shown.home_sections.len() == library.home_sections.len()
            &&& forall|i: int|
                0 <= i < library.home_sections.len() ==> (
                #[trigger] shown.home_sections[i]).kind == library.home_sections[i].kind
            &&& shown.selected_source == store.settings.sources.selected
            &&& shown.local_folders == store.settings.sources.local_folders
        }),
{
    let library = store.library(saved.server.id);
    crate::select::chosen_keeps_the_order(library.tracks, is_favorite());
    crate::table::pages_follow_one_another(library.albums, 0, 500);
    crate::table::pages_follow_one_another(library.tracks, 0, 2000);
    crate::table::pages_follow_one_another(library.playlists, 0, 500);
    let shown = source_snapshot(store, saved);
    let albums = page_of(library.albums, 0, 500);
    let tracks = page_of(library.tracks, 0, 2000);
    let playlists = page_of(library.playlists, 0, 500);
    assert forall|i: int| 0 <= i < shown.albums.len() implies (#[trigger] shown.albums[i]) == (
    AlbumView { image_ref: shown.albums[i].image_ref, ..library.albums[i] }) by {
        assert(albums[i] == library.albums[0 + i]);
    }
    assert forall|i: int| 0 <= i < shown.tracks.len() implies (#[trigger] shown.tracks[i]) == (
    TrackView { image_ref: shown.tracks[i].image_ref, ..library.tracks[i] }) by {
        assert(tracks[i] == library.tracks[0 + i]);
    }
    assert forall|i: int| 0 <= i < shown.playlists.len() implies (
    #[trigger] shown.playlists[i]).id == library.playlists[i].id && shown.playlists[i].name
        == library.playlists[i].name by {
        assert(playlists[i] == library.playlists[0 + i]);
    }
}

/// The source that was selected is the one that is shown: local folders always, a server where
/// it is known; else what was shown stays. Nothing else that is kept changes.
pub proof fn the_selected_source_is_shown(store: StoreView, server_id: Seq<char>)
    ensures
        store.settings.sources.selected == Some(LibrarySourceSelectionView::Local) ==> {
            &&& reconciled(store).active == Some(LOCAL_SOURCE_SERVER_ID@)
            &&& reconciled(store).libraries == store.libraries
            &&& reconciled(store).settings == store.settings
        },
        store.settings.sources.selected == Some(LibrarySourceSelectionView::Server(server_id))
            && store.server(server_id) is Some ==> reconciled(store) == (StoreView {
            active: Some(server_id),
            ..store
        }),
        store.settings.sources.selected == Some(LibrarySourceSelectionView::Server(server_id))
            && store.server(server_id) is None ==> reconciled(store) == store,
        store.settings.sources.selected is None ==> reconciled(store) == store,
{
}

/// What is said of the state of a library tells a running read, a failed one and a finished
/// one apart.
pub proof fn statuses_are_told_apart(status: Seq<char>)
    ensures
        status_text("syncing"@) == "Syncing library..."@,
        status_text("error"@) == "Library sync failed"@,
        status != "syncing"@ && status != "error"@ ==> status_text(status)
            == "Cached library ready"@,
{
    reveal_strlit("syncing");
    reveal_strlit("error");
    assert("syncing"@.len() != "error"@.len());
}

/// The servers that are listed are all that are known but the local source, in their order.
pub proof fn listed_servers_leave_out_the_local_source(servers: Seq<SavedServerView>)
    ensures
        listed_servers(servers) == servers.filter(
            |saved: SavedServerView| saved.server.id != LOCAL_SOURCE_SERVER_ID@,
        ).map_values(|saved: SavedServerView| saved.server),
    decreases servers.len(),
{
    reveal(Seq::filter);
    let test = |saved: SavedServerView| saved.server.id != LOCAL_SOURCE_SERVER_ID@;
    let identity = |saved: SavedServerView| saved.server;
    if servers.len() > 0 {
        listed_servers_leave_out_the_local_source(servers.drop_last());
        let front = servers.drop_last().filter(test);
        if test(servers.last()) {
            assert(servers.filter(test).map_values(identity) =~= front.map_values(identity).push(
                servers.last().server,
            ));
        }
    } else {
        assert(servers.filter(test).map_values(identity) =~= Seq::empty());
    }
}

/// What is shown of albums and tracks is all of them, in their order, with nothing changed but
/// their images.
pub proof fn shown_items_keep_all_but_their_images(
    albums: Seq<AlbumView>,
    tracks: Seq<TrackView>,
    all_albums: Seq<AlbumView>,
    saved: SavedServerView,
    settings: AppSettingsView,
)
    ensures
        ({
            let shown = shown_albums(albums, saved, settings);
            let heard = shown_tracks(tracks, all_albums, saved, settings);
            &&& shown.len() == albums.len()
            &&& forall|i: int|
                0 <= i < albums.len() ==> (#[trigger] shown[i]) == (AlbumView {
                    image_ref: shown[i].image_ref,
                    ..albums[i]
                })
            &&& heard.len() == tracks.len()
            &&& forall|i: int|
                0 <= i < tracks.len() ==> (#[trigger] heard[i]) == (TrackView {
                    image_ref: heard[i].image_ref,
                    ..tracks[i]
                })
        }),
{
}

/// Of local folders images from elsewhere are left out, of servers images of local files; all
/// others stay.
pub proof fn images_that_do_not_fit_are_left_out(image_ref: ImageRefView)
    ensures
        scrubbed(Some(image_ref), true) == (if is_external(image_ref) {
            None
        } else {
            Some(image_ref)
        }),
        scrubbed(Some(image_ref), false) == (if "local:cover:"@.is_prefix_of(
            image_ref.item_id,
        ) {
            None
        } else {
            Some(image_ref)
        }),
        scrubbed(None, true) is None,
        scrubbed(None, false) is None,
{
}

} // verus!
