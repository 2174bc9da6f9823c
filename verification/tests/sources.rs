//! Sources: beginning, selecting, logging in, editing, forgetting and reading them.

use rufin::controller::AppController;
use rufin::model::events::{ControllerEvent, Effect, FavoriteItemId};
use rufin::model::ids::{AlbumId, ArtistId, PlaylistId, QueueEntryId, ServerId, TrackId};
use rufin::model::library::{Album, Artist, ImageRef, Track};
use rufin::model::lyrics::Lyrics;
use rufin::model::playback::{
    PlaybackCommand, PlaybackEvent, PlaybackSnapshot, PlaybackState, StreamDescriptor,
};
use rufin::model::queue::{QueueEntry, QueueSnapshot};
use rufin::model::settings::AppSettings;
use rufin::model::snapshot::LibrarySnapshot;
use rufin::model::source::{SavedServer, ServerIdentity};
use rufin::model::store::Store;
use rufin::store::{no_tokens, open_memory};
use rufin::cached_reads::{
    load_snapshot, local_source_saved, LOCAL_SOURCE_SERVER_ID, SNAPSHOT_GRID_LIMIT,
    SNAPSHOT_TRACK_LIMIT,
};
use rufin::controller::cached_library::load_playlist_detail;
use rufin::controller::server_commands::ensure_jellyfin_device_id;
use rufin::home_sections::keep_section;
use rufin::key_set::InFlightGuards;
use rufin::local_access::LOCAL_PROVIDER_ID;
use rufin::model::events::{HomeRefreshTarget, LoginRequest, ServerSettingsInput};
use rufin::model::library::{
    ArtistCredit, HomeSection, HomeSectionKind, Playlist, PlaylistEntry,
};
use rufin::model::readiness::{SourceSyncReadinessInput, SyncRequiredReason};
use rufin::model::source::{
    LibrarySourceSelection, LocalLibraryFolder, ProviderSession, StreamingProvider,
};
use rufin::model::store::CoverCacheEntry;
use rufin::queue::QueueEngine;
use rufin::readiness::{source_sync_readiness, STARTUP_CACHE_STALE_SECONDS};
use rufin::sync_progress::{sync_page_finished, SyncPages};

#[allow(dead_code)]
fn text(value: &str) -> String {
    value.to_string()
}

#[allow(dead_code)]
fn track_id(value: &str) -> TrackId {
    TrackId { value: text(value) }
}

#[allow(dead_code)]
fn album_id(value: &str) -> AlbumId {
    AlbumId { value: text(value) }
}

#[allow(dead_code)]
fn artist_id(value: &str) -> ArtistId {
    ArtistId { value: text(value) }
}

#[allow(dead_code)]
fn fake_track_id(number: u32) -> TrackId {
    TrackId { value: format!("fake:track:{number}") }
}

#[allow(dead_code)]
fn fake_album_id(number: u32) -> AlbumId {
    AlbumId { value: format!("fake:album:{number}") }
}

#[allow(dead_code)]
fn fake_artist_id(number: u32) -> ArtistId {
    ArtistId { value: format!("fake:artist:{number}") }
}

#[allow(dead_code)]
fn image(item_id: &str, tag: Option<&str>) -> ImageRef {
    ImageRef { item_id: text(item_id), tag: tag.map(text) }
}

#[allow(dead_code)]
fn external_settings() -> AppSettings {
    AppSettings { external_metadata_enabled: true, ..AppSettings::default() }
}

#[allow(dead_code)]
fn blank_track() -> Track {
    Track {
        id: track_id("track-one"),
        album_id: album_id("album-one"),
        title: text("Track"),
        artist: text("Artist"),
        artist_id: None,
        artist_credits: Vec::new(),
        album_artist_credits: Vec::new(),
        album: text("Album"),
        year: 2011,
        release_date: None,
        date_added: None,
        last_played: None,
        play_count: None,
        user_rating: None,
        duration_seconds: 60,
        favorite: false,
        disc_number: 1,
        track_number: 1,
        image_ref: None,
        genres: Vec::new(),
        musicbrainz_recording_id: None,
        musicbrainz_release_track_id: None,
        local_path: None,
        source_format: None,
        comment: None,
        skip_count: None,
        from_cue: false,
    }
}

#[allow(dead_code)]
fn blank_album() -> Album {
    Album {
        id: album_id("album-one"),
        title: text("Album"),
        artist: text("Artist"),
        artist_id: None,
        album_artist_credits: Vec::new(),
        artist_credits: Vec::new(),
        year: 2011,
        release_date: None,
        date_added: None,
        last_played: None,
        play_count: None,
        user_rating: None,
        track_count: 1,
        duration_seconds: 60,
        favorite: false,
        color_seed: 1,
        image_ref: None,
        genres: Vec::new(),
        release_types: Vec::new(),
        is_compilation: None,
        musicbrainz_album_id: None,
        musicbrainz_release_group_id: None,
    }
}

#[allow(dead_code)]
fn blank_artist(id: &str, name: &str) -> Artist {
    Artist {
        id: artist_id(id),
        name: text(name),
        album_count: 1,
        track_count: 1,
        favorite: false,
        last_played: None,
        play_count: None,
        user_rating: None,
        image_ref: None,
    }
}

#[allow(dead_code)]
fn blank_entry() -> QueueEntry {
    QueueEntry {
        id: QueueEntryId { value: text("entry-one") },
        track_id: track_id("track-one"),
        album_id: Some(album_id("album-one")),
        title: text("Track"),
        artist: text("Artist"),
        artist_id: None,
        album: text("Album"),
        year: 2011,
        duration_seconds: 60,
        favorite: false,
        image_ref: None,
        local_path: None,
        source_format: None,
        origin: None,
    }
}
/// Where the random sequence of a [`World`] begins.
#[allow(dead_code)]
const RANDOM_SEED: u64 = 7;


/// A controller with a player and servers that answer at once.
#[allow(dead_code)]
struct World {
    controller: AppController,
    events: Vec<ControllerEvent>,
    commands: Vec<PlaybackCommand>,
    effects: Vec<Effect>,
    pending: Vec<PlaybackEvent>,
    /// What the player refuses everything with, where it does.
    refusal: Option<String>,
}

#[allow(dead_code)]
impl World {
    fn over(store: Store) -> World {
        let begun = AppController::bootstrap(store, no_tokens(), RANDOM_SEED, false, None);
        World {
            controller: begun.controller,
            events: Vec::new(),
            commands: Vec::new(),
            effects: Vec::new(),
            pending: Vec::new(),
            refusal: None,
        }
    }

    fn fake() -> World {
        World::over(fake_store())
    }

    /// Answers what is asked for, until nothing more is.
    fn settle(&mut self) {
        loop {
            self.events.extend(self.controller.drain_events());
            let effects = self.controller.drain_effects();
            if effects.is_empty() {
                return;
            }
            for effect in effects {
                self.answer(effect);
            }
        }
    }

    fn answer(&mut self, effect: Effect) {
        self.effects.push(effect.clone());
        let controller = &mut self.controller;
        match effect {
            Effect::Playback(command) => {
                self.commands.push(command.clone());
                match self.refusal.clone() {
                    Some(error) => controller.command_rejected(command, error),
                    None => controller.command_accepted(command),
                }
            }
            Effect::PlayStream { request, stream, command } => {
                self.commands.push(command.clone());
                match self.refusal.clone() {
                    Some(error) => controller.command_rejected(command, error),
                    None => {
                        self.pending.push(PlaybackEvent::StateChanged(PlaybackState::Playing));
                        controller.current_stream_accepted(&request, stream);
                    }
                }
            }
            Effect::StopPlayer => self.commands.push(PlaybackCommand::Stop),
            Effect::ResolveCurrent(request) => {
                let stream = fake_stream(&request.entry.track_id);
                controller.current_stream_resolved(request, stream);
            }
            Effect::ResolveNext(request) => {
                let stream = fake_stream(&request.next_entry.track_id);
                let _sent = controller.next_stream_resolved(&request, stream);
            }
            Effect::TopUpQueue => controller.top_up_queue(),
            Effect::PersistQueue { generation, snapshot } => {
                controller.persist_queue_now(generation, &snapshot)
            }
            Effect::ReadSidecarLyrics { server_id, entry, use_cache, search, providers, .. } => {
                controller.sidecar_lyrics_read(
                    &server_id,
                    &entry,
                    use_cache,
                    search,
                    &providers,
                    &None,
                )
            }
            Effect::FetchServerLyrics { saved, entry, search, providers } => {
                controller.server_lyrics_missing(
                    &saved.server.id,
                    &entry,
                    search,
                    &providers,
                    None,
                )
            }
            Effect::FetchExternalLyrics { server_id, server_error, .. } => {
                controller.external_lyrics_fetched(&server_id, None, server_error)
            }
            Effect::MatchLocalTracks { server_id, .. } => {
                controller.local_tracks_read(&server_id, &None)
            }
            Effect::ClearDiskCovers { server_id, next } => {
                controller.disk_covers_cleared(&server_id, next)
            }
            _ => {}
        }
    }

    /// Lets the player tell what it has to.
    fn poll(&mut self) {
        self.settle();
        let events = std::mem::take(&mut self.pending);
        self.controller.poll_playback_events(events);
        self.settle();
    }

    fn poll_with(&mut self, events: Vec<PlaybackEvent>) {
        self.controller.poll_playback_events(events);
        self.settle();
    }

    /// The first of the events not looked at yet that is wanted; those before it are dropped.
    fn wait<T>(&mut self, mut wanted: impl FnMut(&ControllerEvent) -> Option<T>) -> T {
        self.settle();
        while !self.events.is_empty() {
            let event = self.events.remove(0);
            if let Some(found) = wanted(&event) {
                return found;
            }
        }
        panic!("no such event");
    }

    fn wait_for_queue(&mut self) -> QueueSnapshot {
        self.wait(|event| match event {
            ControllerEvent::Queue(Some(queue)) => Some(queue.clone()),
            _ => None,
        })
    }

    fn wait_for_snapshot(&mut self) -> LibrarySnapshot {
        self.wait(|event| match event {
            ControllerEvent::Snapshot(snapshot) => Some(snapshot.clone()),
            _ => None,
        })
    }

    fn wait_for_status(&mut self) -> String {
        self.wait(|event| match event {
            ControllerEvent::LoginStatus(status) => Some(status.clone()),
            _ => None,
        })
    }

    fn wait_for_error(&mut self) -> String {
        self.wait(|event| match event {
            ControllerEvent::Error(error) => Some(error.clone()),
            _ => None,
        })
    }

    fn wait_for_lyrics(&mut self) -> Option<Lyrics> {
        self.wait(|event| match event {
            ControllerEvent::Lyrics(lyrics) => Some(lyrics.clone()),
            _ => None,
        })
    }

    fn wait_for_player(&mut self, wanted: impl Fn(&PlaybackSnapshot) -> bool) -> PlaybackSnapshot {
        self.wait(|event| match event {
            ControllerEvent::Playback(player) if wanted(player) => Some(player.clone()),
            _ => None,
        })
    }

    fn wait_for_state(&mut self, state: PlaybackState) -> PlaybackSnapshot {
        self.poll();
        self.wait_for_player(|player| player.state == state)
    }

    fn wait_for_position(&mut self, millis: u64) -> PlaybackSnapshot {
        self.wait_for_player(|player| player.position_millis == millis)
    }

    fn wait_for_favorite(&mut self) -> (FavoriteItemId, bool, LibrarySnapshot) {
        self.wait(|event| match event {
            ControllerEvent::FavoriteChanged { item_id, favorite, snapshot } => {
                Some((item_id.clone(), *favorite, snapshot.clone()))
            }
            _ => None,
        })
    }

    fn wait_for_playlist(&mut self) -> (PlaylistId, LibrarySnapshot) {
        self.wait(|event| match event {
            ControllerEvent::PlaylistChanged { playlist_id, snapshot } => {
                Some((playlist_id.clone(), snapshot.clone()))
            }
            _ => None,
        })
    }

    fn server_id(&self) -> ServerId {
        self.controller.store().shown().expect("a source is shown").server.id
    }

    fn tracks(&self) -> Vec<Track> {
        self.controller.store().library(&self.server_id()).tracks
    }

    fn queue(&self) -> QueueSnapshot {
        self.controller.queue_snapshot().expect("queue")
    }
}

#[allow(dead_code)]
fn fake_stream(track_id: &TrackId) -> StreamDescriptor {
    let uri = format!("fake://local/stream/{}", track_id.value);
    StreamDescriptor { redacted_uri: uri.clone(), uri }
}

#[allow(dead_code)]
fn saved(id: &str, provider: &str) -> SavedServer {
    SavedServer {
        server: ServerIdentity {
            id: ServerId { value: text(id) },
            provider: text(provider),
            name: text("Test Server"),
            base_url: text("https://music.example"),
        },
        user_id: text("user"),
        username: text("demo"),
        trust_invalid_cert: false,
    }
}

/// A store with one source of many albums and tracks, whose library was read.
#[allow(dead_code)]
fn fake_store() -> Store {
    let mut store = open_memory();
    let server = saved("fake:server:1", "fake");
    let id = server.server.id.clone();
    let albums = (1..=8)
        .map(|number: u32| Album {
            id: fake_album_id(number),
            title: format!("Album {number}"),
            artist: format!("Artist {}", number % 4),
            artist_id: Some(fake_artist_id(number % 4)),
            ..blank_album()
        })
        .collect::<Vec<_>>();
    let tracks = (1..=40)
        .map(|number: u32| Track {
            id: fake_track_id(number),
            album_id: fake_album_id(1 + number % 8),
            title: format!("Track {number}"),
            artist: format!("Artist {}", number % 4),
            artist_id: Some(fake_artist_id(number % 4)),
            album: format!("Album {}", 1 + number % 8),
            duration_seconds: 180 + number,
            favorite: number % 5 == 1,
            genres: vec![text(if number % 2 == 0 { "Rock" } else { "Jazz" })],
            ..blank_track()
        })
        .collect::<Vec<_>>();
    store.save_server(&server).expect("save server");
    store.set_active_server(&id).expect("set active");
    let generation = store.begin_sync(&id).expect("begin sync");
    store.upsert_albums(&id, &albums).expect("albums");
    store.upsert_tracks(&id, &tracks).expect("tracks");
    store.complete_sync(&id, generation).expect("complete sync");
    store
}

#[allow(dead_code)]
fn restored_track() -> Track {
    Track {
        id: track_id("jellyfin:track:lyrics"),
        album_id: fake_album_id(1),
        title: text("Restored Track"),
        artist: text("Artist"),
        artist_id: Some(fake_artist_id(1)),
        album: text("Album"),
        year: 2026,
        duration_seconds: 180,
        ..blank_track()
    }
}

#[allow(dead_code)]
fn entry_track_ids(queue: &QueueSnapshot) -> Vec<TrackId> {
    queue.entries.iter().map(|entry| entry.track_id.clone()).collect()
}

#[allow(dead_code)]
fn current_track_id(queue: &QueueSnapshot) -> TrackId {
    queue.entries[queue.current_index.expect("current")].track_id.clone()
}

fn remote_server() -> SavedServer {
    saved("jellyfin:server:test", "jellyfin")
}

fn folder(path: &str) -> LocalLibraryFolder {
    LocalLibraryFolder { path: text(path) }
}

fn login_request() -> LoginRequest {
    LoginRequest {
        provider: StreamingProvider::Jellyfin,
        server_url: text("https://library.example.test"),
        username: text("listener"),
        password: text("password"),
        trust_invalid_cert: false,
        local_access_root: None,
        path_replace_from: None,
    }
}

fn login_session() -> ProviderSession {
    ProviderSession {
        server: ServerIdentity {
            id: ServerId { value: text("jellyfin:server:new") },
            provider: text("jellyfin"),
            name: text("New Server"),
            base_url: text("https://library.example.test"),
        },
        user_id: text("user-id"),
        username: text("listener"),
        access_token: text("token"),
        device_id: Some(text("rufin-install-one")),
    }
}

fn local_album_with_image_ref(image_ref: ImageRef) -> Album {
    Album {
        id: album_id("local:album:one"),
        title: text("Example Album"),
        artist: text("Example Artist"),
        artist_id: Some(artist_id("local:artist:one")),
        image_ref: Some(image_ref),
        ..blank_album()
    }
}

fn local_track(number: u32, album: &Album, image_ref: Option<ImageRef>) -> Track {
    Track {
        id: TrackId { value: format!("local:track:{number}") },
        album_id: album.id.clone(),
        artist: text("Example Artist"),
        artist_id: Some(artist_id("local:artist:one")),
        album: album.title.clone(),
        image_ref,
        ..blank_track()
    }
}

fn remote_album_with_image_ref(image_ref: ImageRef) -> Album {
    Album {
        id: album_id("jellyfin:album:one"),
        artist_id: Some(artist_id("jellyfin:artist:one")),
        ..local_album_with_image_ref(image_ref)
    }
}

fn section(kind: HomeSectionKind, albums: Vec<Album>, tracks: Vec<Track>) -> HomeSection {
    HomeSection { kind, albums, tracks }
}

fn assert_not_local_provider_image_ref(image_ref: Option<&ImageRef>) {
    assert!(!image_ref.is_some_and(|image_ref| image_ref.item_id.starts_with("local:cover:")));
}

/// A store with the library of the local folders read.
fn local_store(albums: Vec<Album>, tracks: Vec<Track>, sections: Vec<HomeSection>) -> Store {
    let mut store = open_memory();
    let local = local_source_saved();
    let mut settings = AppSettings::default();
    settings.sources.selected = Some(LibrarySourceSelection::Local);
    store.save_settings(&settings).expect("save settings");
    store.save_server(&local).expect("save server");
    store.set_active_server(&local.server.id).expect("set active");
    let generation = store.begin_sync(&local.server.id).expect("begin sync");
    store.upsert_albums(&local.server.id, &albums).expect("albums");
    store.upsert_tracks(&local.server.id, &tracks).expect("tracks");
    store.upsert_home_sections(&local.server.id, &sections).expect("sections");
    store.complete_sync(&local.server.id, generation).expect("complete sync");
    store
}

/// A store with the library of a server read.
fn remote_store(albums: Vec<Album>, sections: Vec<HomeSection>) -> Store {
    let mut store = open_memory();
    let remote = remote_server();
    store.save_server(&remote).expect("save server");
    store.set_active_server(&remote.server.id).expect("set active");
    let generation = store.begin_sync(&remote.server.id).expect("begin sync");
    store.upsert_albums(&remote.server.id, &albums).expect("albums");
    store.upsert_home_sections(&remote.server.id, &sections).expect("sections");
    store.complete_sync(&remote.server.id, generation).expect("complete sync");
    store
}

#[test]
fn jellyfin_device_id_is_generated_once_and_saved() {
    let mut store = open_memory();

    let first =
        ensure_jellyfin_device_id(&mut store, text("rufin-install-one")).expect("first device id");
    let second =
        ensure_jellyfin_device_id(&mut store, text("rufin-install-two")).expect("second device id");

    assert_eq!(first, "rufin-install-one");
    assert_eq!(second, first);
    assert_eq!(
        store.load_settings().expect("load settings").jellyfin_device_id,
        "rufin-install-one"
    );
}

#[test]
fn no_server_bootstrap_enters_first_run_state() {
    let begun = AppController::bootstrap(open_memory(), no_tokens(), 7, false, None);
    assert!(begun.snapshot.first_run);
    assert!(begun.snapshot.server.is_none());
    assert!(begun.queue.is_none());
    assert_eq!(begun.player.state, PlaybackState::Stopped);
}

#[test]
fn unreadable_stores_begin_like_empty_ones() {
    let mut store = fake_store();
    store.fault = Some(text("disk is gone"));
    let mut begun = AppController::bootstrap(store, no_tokens(), 7, false, None);
    assert!(begun.snapshot.first_run);
    assert!(begun.queue.is_none());
    begun.controller.reload_snapshot();
    assert_eq!(
        begun.controller.drain_events(),
        vec![ControllerEvent::Error(text("disk is gone"))]
    );
}

#[test]
fn source_selection_activates_queue_for_selected_source() {
    let mut world = World::fake();
    let server_id = world.server_id();
    let tracks = world.tracks();
    let first = tracks[0].clone();
    world.controller.play_tracks_now(vec![first.clone(), tracks[1].clone()]);
    let queue = world.wait_for_queue();
    assert_eq!(queue.entries[0].track_id, first.id);
    let _player = world.wait_for_state(PlaybackState::Playing);
    world.controller.select_source(LibrarySourceSelection::Local, Some(0));
    let local_queue = world.wait_for_queue();
    assert_eq!(local_queue.server_id.value, LOCAL_SOURCE_SERVER_ID);
    assert!(local_queue.entries.is_empty());
    let local_player = world.wait_for_player(|player| player.state == PlaybackState::Stopped);
    assert!(local_player.current.is_none());
    let local_snapshot = world.wait_for_snapshot();
    assert_eq!(local_snapshot.selected_source, Some(LibrarySourceSelection::Local));
    assert_eq!(
        world.controller.load_settings().sources.selected,
        Some(LibrarySourceSelection::Local)
    );
    let server = LibrarySourceSelection::Server(server_id.clone());
    world.controller.select_source(server.clone(), Some(0));
    let restored_queue = world.wait_for_queue();
    assert_eq!(restored_queue.server_id, server_id);
    assert_eq!(restored_queue.entries[0].track_id, first.id);
    let server_snapshot = world.wait_for_snapshot();
    assert_eq!(server_snapshot.selected_source, Some(server.clone()));
    assert_eq!(world.controller.load_settings().sources.selected, Some(server));
}

#[test]
fn first_run_local_server_initializes_active_queue() {
    let mut world = World::over(open_memory());
    assert!(world.controller.queue_snapshot().is_none());
    world.controller.add_local_server(Ok(text("/music")));
    let queue = world.wait_for_queue();
    assert_eq!(queue.server_id.value, LOCAL_SOURCE_SERVER_ID);
    let snapshot = world.wait_for_snapshot();
    assert_eq!(snapshot.selected_source, Some(LibrarySourceSelection::Local));
    assert_eq!(world.queue().server_id.value, LOCAL_SOURCE_SERVER_ID);
}

#[test]
fn first_run_local_server_accepts_multiple_folders() {
    let mut world = World::over(open_memory());
    assert!(world.controller.queue_snapshot().is_none());
    world
        .controller
        .add_local_server_folders(&vec![Ok(text("/music/one")), Ok(text("/music/two"))]);
    let queue = world.wait_for_queue();
    assert_eq!(queue.server_id.value, LOCAL_SOURCE_SERVER_ID);
    let snapshot = world.wait_for_snapshot();
    assert_eq!(snapshot.selected_source, Some(LibrarySourceSelection::Local));
    assert_eq!(snapshot.local_folders, vec![folder("/music/one"), folder("/music/two")]);
    world.controller.add_local_server_folders(&vec![Ok(text("/music/two"))]);
    assert_eq!(
        world.controller.load_settings().sources.local_folders,
        vec![folder("/music/one"), folder("/music/two")]
    );
}

#[test]
fn a_root_that_cannot_be_read_adds_no_folder() {
    let (store, remote) = store_with_selected_remote(vec![folder("/music/old")]);
    let mut world = World::over(store);
    world.settle();
    let _earlier = world.controller.drain_events();
    world.events.clear();
    let settings = world.controller.load_settings();
    let queue = world.controller.queue_snapshot();
    world.controller.add_local_server_folders(&vec![
        Ok(text("/music/one")),
        Err(text("not a directory: /music/two")),
        Err(text("not a directory: /music/three")),
    ]);
    assert_eq!(
        world.controller.drain_events(),
        vec![ControllerEvent::Error(text("not a directory: /music/two"))]
    );
    assert!(world.controller.drain_effects().is_empty());
    assert_eq!(world.controller.load_settings(), settings);
    assert_eq!(world.server_id(), remote.server.id);
    assert_eq!(world.controller.queue_snapshot(), queue);
    world.controller.add_local_library_folder(Err(text("gone")));
    world.controller.add_local_server(Err(text("gone too")));
    world.controller.add_local_server_folders(&Vec::new());
    assert_eq!(
        world.controller.drain_events(),
        vec![
            ControllerEvent::Error(text("gone")),
            ControllerEvent::Error(text("gone too")),
            ControllerEvent::Error(text("Choose at least one local music folder.")),
        ]
    );
    assert_eq!(world.controller.load_settings(), settings);
}

#[test]
fn activate_logged_in_server_selects_server_without_saving_token() {
    let mut world = World::over(open_memory());
    let session = login_session();
    let server_id = session.server.id.clone();
    world
        .controller
        .activate_logged_in_server(&login_request(), &session)
        .expect("activate logged-in server");
    let queue = world.wait_for_queue();
    assert_eq!(queue.server_id, server_id);
    let snapshot = world.wait_for_snapshot();
    assert_eq!(
        snapshot.selected_source,
        Some(LibrarySourceSelection::Server(server_id.clone()))
    );
    assert_eq!(snapshot.server.map(|server| server.id), Some(server_id.clone()));
    assert_eq!(world.controller.tokens().load_token(&server_id), Ok(None));
}

#[test]
fn token_save_failure_does_not_persist_empty_server() {
    let mut world = World::over(open_memory());
    world.controller.tokens_mut().save_fault = Some(text("save failed"));
    let error = world
        .controller
        .save_token_and_activate_logged_in_server(&login_request(), &login_session())
        .expect_err("token save should fail");

    assert!(error.contains("save failed"));
    assert_eq!(world.controller.store().active_server(), Ok(None));
    assert!(world.controller.store().list_servers().expect("servers").is_empty());
    assert!(world.controller.drain_events().is_empty());
}

#[test]
fn logging_in_keeps_the_token_and_reads_the_library() {
    let mut world = World::over(open_memory());
    world.controller.login(login_request(), text("rufin-install-one"));
    assert_eq!(
        world.controller.load_settings().jellyfin_device_id,
        "rufin-install-one"
    );
    let effects = world.controller.drain_effects();
    assert!(effects.iter().any(|effect| matches!(
        effect,
        Effect::Login { device_id: Some(device), .. } if device == "rufin-install-one"
    )));
    let session = login_session();
    world.controller.login_succeeded(&login_request(), &session);
    assert_eq!(
        world.controller.tokens().load_token(&session.server.id),
        Ok(Some(text("token")))
    );
    assert!(world
        .controller
        .drain_effects()
        .iter()
        .any(|effect| matches!(effect, Effect::Sync { prefetch_covers: true, .. })));
}

#[test]
fn local_source_snapshot_loads_configured_folders() {
    let mut store = open_memory();
    let mut settings = AppSettings::default();
    settings.sources.selected = Some(LibrarySourceSelection::Local);
    settings.sources.local_folders = vec![folder("/music")];
    store.save_settings(&settings).expect("save settings");
    let snapshot = load_snapshot(&mut store).expect("load snapshot");
    assert!(!snapshot.first_run);
    assert_eq!(snapshot.selected_source, Some(LibrarySourceSelection::Local));
    assert_eq!(snapshot.server.expect("server").id.value, LOCAL_SOURCE_SERVER_ID);
    assert_eq!(snapshot.local_folders, settings.sources.local_folders);
    let active = store.active_server().expect("active server").expect("active server");
    assert_eq!(active.server.id.value, LOCAL_SOURCE_SERVER_ID);
}

#[test]
fn snapshot_load_reconciles_active_server_to_selected_remote_source() {
    let mut store = open_memory();
    let active_saved = remote_server();
    let mut selected_saved = remote_server();
    selected_saved.server.id = ServerId { value: text("jellyfin:server:selected") };
    selected_saved.server.name = text("Selected Server");
    selected_saved.server.base_url = text("https://selected.example.test");
    let selection = LibrarySourceSelection::Server(selected_saved.server.id.clone());
    let mut settings = AppSettings::default();
    settings.sources.selected = Some(selection.clone());
    store.save_settings(&settings).expect("save settings");
    store.save_server(&active_saved).expect("save server");
    store.save_server(&selected_saved).expect("save server");
    store.set_active_server(&active_saved.server.id).expect("set active");

    let snapshot = load_snapshot(&mut store).expect("load snapshot");

    assert_eq!(snapshot.selected_source, Some(selection));
    assert_eq!(
        snapshot.server.map(|server| server.id),
        Some(selected_saved.server.id.clone())
    );
    let active_after = store.active_server().expect("active server").expect("active server");
    assert_eq!(active_after.server.id, selected_saved.server.id);
}

fn store_with_selected_remote(folders: Vec<LocalLibraryFolder>) -> (Store, SavedServer) {
    let mut store = open_memory();
    let remote = remote_server();
    let mut settings = AppSettings::default();
    settings.sources.selected = Some(LibrarySourceSelection::Server(remote.server.id.clone()));
    settings.sources.local_folders = folders;
    store.save_settings(&settings).expect("save settings");
    store.save_server(&remote).expect("save server");
    store.set_active_server(&remote.server.id).expect("set active");
    (store, remote)
}

#[test]
fn local_folder_preferences_add_selects_local_source_and_syncs() {
    let (store, _remote) = store_with_selected_remote(Vec::new());
    let mut world = World::over(store);
    world.controller.add_local_library_folder(Ok(text("/music")));
    let queue = world.wait_for_queue();
    assert_eq!(queue.server_id.value, LOCAL_SOURCE_SERVER_ID);
    let snapshot = world.wait_for_snapshot();
    assert_eq!(snapshot.selected_source, Some(LibrarySourceSelection::Local));
    assert_eq!(snapshot.local_folders.len(), 1);
    assert_eq!(world.server_id().value, LOCAL_SOURCE_SERVER_ID);
    assert_eq!(world.wait_for_status(), "Syncing Local library...");
}

#[test]
fn selecting_fresh_local_source_reuses_cached_library() {
    let (mut store, _remote) = store_with_selected_remote(vec![folder("/music")]);
    let local = local_source_saved();
    store.save_server(&local).expect("save server");
    let generation = store.begin_sync(&local.server.id).expect("begin sync");
    store.complete_sync(&local.server.id, generation).expect("complete sync");
    let mut world = World::over(store);

    world.controller.select_source(LibrarySourceSelection::Local, Some(0));

    let queue = world.wait_for_queue();
    assert_eq!(queue.server_id.value, LOCAL_SOURCE_SERVER_ID);
    let snapshot = world.wait_for_snapshot();
    assert_eq!(snapshot.selected_source, Some(LibrarySourceSelection::Local));
    assert_eq!(snapshot.sync_status, "Cached library ready");
    let state = world.controller.store().sync_state(&local.server.id).expect("sync state");
    assert_eq!(state.status, "idle");
    assert_eq!(state.generation, generation);
    world.settle();
    assert!(!world
        .events
        .iter()
        .any(|event| matches!(event, ControllerEvent::LoginStatus(_))));
}

#[test]
fn selecting_local_source_with_missing_artwork_reuses_cached_rows() {
    let (mut store, _remote) = store_with_selected_remote(vec![folder("/music")]);
    let local = local_source_saved();
    let album =
        local_album_with_image_ref(image("local:cover:file%3A%2F%2Fmissing-cover", None));
    store.save_server(&local).expect("save server");
    let generation = store.begin_sync(&local.server.id).expect("begin sync");
    store.upsert_albums(&local.server.id, &vec![album]).expect("albums");
    store.complete_sync(&local.server.id, generation).expect("complete sync");
    let mut world = World::over(store);

    world.controller.select_source(LibrarySourceSelection::Local, Some(0));

    let queue = world.wait_for_queue();
    assert_eq!(queue.server_id.value, LOCAL_SOURCE_SERVER_ID);
    let snapshot = world.wait_for_snapshot();
    assert_eq!(snapshot.selected_source, Some(LibrarySourceSelection::Local));
    assert_eq!(snapshot.sync_status, "Cached library ready");
}

#[test]
fn local_folder_preferences_remove_preserves_remote_source_selection() {
    let (store, remote) = store_with_selected_remote(vec![folder("/music")]);
    let mut world = World::over(store);
    world.controller.remove_local_library_folder(text("/music"));
    let snapshot = world.wait_for_snapshot();
    assert_eq!(
        snapshot.selected_source,
        Some(LibrarySourceSelection::Server(remote.server.id.clone()))
    );
    assert!(snapshot.local_folders.is_empty());
    assert_eq!(world.server_id(), remote.server.id);
}

#[test]
fn selecting_a_source_that_is_gone_is_told() {
    let mut world = World::fake();
    world.controller.select_source(
        LibrarySourceSelection::Server(ServerId { value: text("gone") }),
        None,
    );
    assert_eq!(world.wait_for_error(), "The selected source is no longer saved.");
}

fn editable(id: &str, name: &str, base_url: &str) -> SavedServer {
    SavedServer {
        server: ServerIdentity {
            id: ServerId { value: text(id) },
            provider: text("jellyfin"),
            name: text(name),
            base_url: text(base_url),
        },
        user_id: text("user-id"),
        username: text("listener"),
        trust_invalid_cert: false,
    }
}

fn edit(
    saved: &SavedServer,
    name: &str,
    base_url: &str,
    username: &str,
    password: &str,
    trust_invalid_cert: bool,
) -> ServerSettingsInput {
    ServerSettingsInput {
        server_id: saved.server.id.clone(),
        name: text(name),
        base_url: text(base_url),
        username: text(username),
        password: text(password),
        trust_invalid_cert,
    }
}

#[test]
fn update_server_settings_persists_editable_fields() {
    let mut store = open_memory();
    let server = editable("server:editable", "Old name", "http://old.example.test");
    store.save_server(&server).expect("save server");
    store.set_active_server(&server.server.id).expect("set active");
    let mut world = World::over(store);
    world.controller.update_server_settings(edit(
        &server,
        "Edited server",
        "http://old.example.test",
        "listener",
        "",
        true,
    ));
    assert_eq!(world.wait_for_status(), "Server settings saved.");
    let snapshot = world.wait_for_snapshot();
    let edited = snapshot
        .servers
        .iter()
        .find(|identity| identity.id == server.server.id)
        .expect("edited server");
    assert_eq!(edited.name, "Edited server");
    assert_eq!(edited.base_url, "http://old.example.test");
    let saved = world
        .controller
        .store()
        .saved_server(&server.server.id)
        .expect("load saved server")
        .expect("edited saved server");
    assert!(saved.trust_invalid_cert);
}

#[test]
fn unchanged_server_settings_emit_visible_status() {
    let mut store = open_memory();
    let server = editable("server:unchanged", "Saved server", "http://server.example.test");
    store.save_server(&server).expect("save server");
    store.set_active_server(&server.server.id).expect("set active");
    let mut world = World::over(store);

    world.controller.update_server_settings(edit(
        &server,
        "Saved server",
        "http://server.example.test",
        "listener",
        "",
        false,
    ));

    assert_eq!(world.wait_for_status(), "No changes to save.");
}

#[test]
fn edits_without_address_or_username_are_refused() {
    let mut store = open_memory();
    let server = editable("server:edit", "Saved server", "http://server.example.test");
    store.save_server(&server).expect("save server");
    let mut world = World::over(store);
    world.controller.update_server_settings(edit(&server, "Name", " ", "listener", "", false));
    assert_eq!(world.wait_for_error(), "Enter a server address.");
    world.controller.update_server_settings(edit(
        &server,
        "Name",
        "http://server.example.test",
        "",
        "",
        false,
    ));
    assert_eq!(world.wait_for_error(), "Enter a username.");
}

/// A world with a server that is saved, with its token and a small library.
fn world_with_server() -> (World, SavedServer) {
    let mut store = open_memory();
    let server = editable("jellyfin:server:settings", "Server", "https://music.example.test");
    store.save_server(&server).expect("save server");
    let generation = store.begin_sync(&server.server.id).expect("begin sync");
    let album = Album {
        id: fake_album_id(1),
        title: text("Example Album"),
        artist: text("Example Artist"),
        ..blank_album()
    };
    store.upsert_albums(&server.server.id, &vec![album]).expect("albums");
    store.complete_sync(&server.server.id, generation).expect("complete sync");
    let queue = QueueEngine::new(server.server.id.clone());
    store.save_queue_snapshot(&queue.snapshot()).expect("save queue");
    let mut world = World::over(store);
    world
        .controller
        .tokens_mut()
        .save_token(&server.server.id, "old-token")
        .expect("save token");
    (world, server)
}

fn session_for(
    saved: &SavedServer,
    server_id: &str,
    base_url: &str,
    user_id: &str,
    username: &str,
) -> ProviderSession {
    ProviderSession {
        server: ServerIdentity {
            id: ServerId { value: text(server_id) },
            provider: saved.server.provider.clone(),
            name: text("Jellyfin"),
            base_url: text(base_url),
        },
        user_id: text(user_id),
        username: text(username),
        access_token: text("new-token"),
        device_id: None,
    }
}

fn album_count(world: &World, saved: &SavedServer) -> usize {
    world.controller.store().library(&saved.server.id).albums.len()
}

fn queue_is_saved(world: &World, saved: &SavedServer) -> bool {
    world
        .controller
        .store()
        .load_queue_snapshot(&saved.server.id)
        .expect("load queue snapshot")
        .is_some()
}

fn saved_now(world: &World, saved: &SavedServer) -> SavedServer {
    world
        .controller
        .store()
        .saved_server(&saved.server.id)
        .expect("load saved server")
        .expect("saved server")
}

fn reauthentication(
    world: &mut World,
) -> Option<rufin::model::events::PreparedServerSettingsUpdate> {
    world.controller.drain_effects().into_iter().find_map(|effect| match effect {
        Effect::Reauthenticate(update) => Some(update),
        _ => None,
    })
}

#[test]
fn name_only_server_edit_preserves_token_and_cache() {
    let (mut world, saved) = world_with_server();
    world.controller.update_server_settings(edit(
        &saved,
        "Renamed Server",
        &saved.server.base_url,
        &saved.username,
        "",
        true,
    ));

    assert!(reauthentication(&mut world).is_none());
    let edited = saved_now(&world, &saved);
    assert_eq!(edited.server.name, "Renamed Server");
    assert_eq!(edited.server.base_url, saved.server.base_url);
    assert_eq!(edited.username, saved.username);
    assert!(edited.trust_invalid_cert);
    assert_eq!(
        world.controller.tokens().load_token(&saved.server.id),
        Ok(Some(text("old-token")))
    );
    assert_eq!(album_count(&world, &saved), 1);
    assert!(queue_is_saved(&world, &saved));
}

#[test]
fn auth_sensitive_server_edit_success_refreshes_token_without_clearing_same_identity() {
    let (mut world, saved) = world_with_server();
    world.controller.update_server_settings(edit(
        &saved,
        &saved.server.name,
        "https://music-lan.example.test",
        &saved.username,
        "updated-password",
        false,
    ));
    let update = reauthentication(&mut world).expect("login is tried");
    let request = update.reauth.clone().expect("login request");
    assert_eq!(request.base_url, "https://music-lan.example.test");
    assert_eq!(request.username, "listener");
    let session = session_for(
        &saved,
        &saved.server.id.value,
        "https://music-lan.example.test",
        &saved.user_id,
        &saved.username,
    );
    let outcome = world
        .controller
        .persist_prepared_server_settings_update(&update, &Some(session))
        .expect("update settings");

    assert!(outcome.changed);
    assert!(!outcome.identity_changed);
    let edited = saved_now(&world, &saved);
    assert_eq!(edited.server.base_url, "https://music-lan.example.test");
    assert_eq!(edited.user_id, saved.user_id);
    assert_eq!(
        world.controller.tokens().load_token(&saved.server.id),
        Ok(Some(text("new-token")))
    );
    assert_eq!(album_count(&world, &saved), 1);
    assert!(queue_is_saved(&world, &saved));
}

#[test]
fn auth_sensitive_server_edit_failure_preserves_settings_token_and_cache() {
    let (mut world, saved) = world_with_server();
    world.controller.update_server_settings(edit(
        &saved,
        "Renamed Server",
        &saved.server.base_url,
        "alternate",
        "updated-password",
        false,
    ));
    assert!(reauthentication(&mut world).is_some());
    world.controller.fail(text("Authentication failed"));

    assert_eq!(world.wait_for_error(), "Authentication failed");
    assert_eq!(saved_now(&world, &saved), saved);
    assert_eq!(
        world.controller.tokens().load_token(&saved.server.id),
        Ok(Some(text("old-token")))
    );
    assert_eq!(album_count(&world, &saved), 1);
    assert!(queue_is_saved(&world, &saved));
}

#[test]
fn edits_that_cannot_be_kept_put_the_token_back() {
    let (mut world, saved) = world_with_server();
    world.controller.update_server_settings(edit(
        &saved,
        &saved.server.name,
        &saved.server.base_url,
        "alternate",
        "updated-password",
        false,
    ));
    let update = reauthentication(&mut world).expect("login is tried");
    let session = session_for(
        &saved,
        &saved.server.id.value,
        &saved.server.base_url,
        "alternate-id",
        "alternate",
    );
    world.controller.store_mut().fault = Some(text("disk is gone"));
    let error = world
        .controller
        .persist_prepared_server_settings_update(&update, &Some(session))
        .expect_err("the edit cannot be kept");
    assert_eq!(error, "disk is gone");
    world.controller.store_mut().fault = None;
    assert_eq!(saved_now(&world, &saved), saved);
    assert_eq!(
        world.controller.tokens().load_token(&saved.server.id),
        Ok(Some(text("old-token")))
    );
}

#[test]
fn edits_end_where_the_old_token_cannot_be_read() {
    let (mut world, saved) = world_with_server();
    world.controller.update_server_settings(edit(
        &saved,
        &saved.server.name,
        &saved.server.base_url,
        "alternate",
        "updated-password",
        false,
    ));
    let update = reauthentication(&mut world).expect("login is tried");
    let session = session_for(
        &saved,
        &saved.server.id.value,
        &saved.server.base_url,
        "alternate-id",
        "alternate",
    );
    world.controller.tokens_mut().load_fault = Some(text("keyring is locked"));
    let error = world
        .controller
        .persist_prepared_server_settings_update(&update, &Some(session))
        .expect_err("the old token cannot be read");
    assert_eq!(error, "keyring is locked");
    world.controller.tokens_mut().load_fault = None;
    assert_eq!(saved_now(&world, &saved), saved);
    assert_eq!(
        world.controller.tokens().load_token(&saved.server.id),
        Ok(Some(text("old-token")))
    );
    assert!(queue_is_saved(&world, &saved));
}

#[test]
fn auth_sensitive_server_edit_clears_cache_when_authenticated_identity_changes() {
    let (mut world, saved) = world_with_server();
    world.controller.update_server_settings(edit(
        &saved,
        &saved.server.name,
        &saved.server.base_url,
        "alternate",
        "updated-password",
        false,
    ));
    let update = reauthentication(&mut world).expect("login is tried");
    let session = session_for(
        &saved,
        "jellyfin:server:other",
        &saved.server.base_url,
        "alternate-id",
        "alternate",
    );
    let outcome = world
        .controller
        .persist_prepared_server_settings_update(&update, &Some(session))
        .expect("update settings");

    assert!(outcome.changed);
    assert!(outcome.identity_changed);
    let edited = saved_now(&world, &saved);
    assert_eq!(edited.server.id, saved.server.id);
    assert_eq!(edited.user_id, "alternate-id");
    assert_eq!(edited.username, "alternate");
    assert_eq!(
        world.controller.tokens().load_token(&saved.server.id),
        Ok(Some(text("new-token")))
    );
    assert_eq!(album_count(&world, &saved), 0);
    assert!(!queue_is_saved(&world, &saved));
}

#[test]
fn fake_bootstrap_routes_data_through_store_cache() {
    let begun = AppController::bootstrap(fake_store(), no_tokens(), 7, false, None);
    assert!(!begun.snapshot.first_run);
    assert!(begun.queue.expect("queue").entries.is_empty());
    assert_eq!(begun.player.state, PlaybackState::Stopped);
    assert_eq!(begun.snapshot.albums.len(), SNAPSHOT_GRID_LIMIT.min(8));
    assert_eq!(begun.snapshot.tracks.len(), SNAPSHOT_TRACK_LIMIT.min(40));
    assert_eq!(begun.snapshot.cached_album_count, 8);
    assert_eq!(begun.snapshot.cached_track_count, 40);
}

#[test]
fn large_fake_bootstrap_seeds_visible_cache_window() {
    let mut store = open_memory();
    let server = saved("fake:server:1", "fake");
    let id = server.server.id.clone();
    let albums = (1..=1_000)
        .map(|number| Album { id: fake_album_id(number), ..blank_album() })
        .collect::<Vec<_>>();
    let tracks = (1..=2_000)
        .map(|number| Track { id: fake_track_id(number), ..blank_track() })
        .collect::<Vec<_>>();
    store.save_server(&server).expect("save server");
    store.set_active_server(&id).expect("set active");
    store.upsert_albums(&id, &albums).expect("albums");
    store.upsert_tracks(&id, &tracks).expect("tracks");
    let begun = AppController::bootstrap(store, no_tokens(), 7, false, None);
    assert!(!begun.snapshot.first_run);
    assert_eq!(begun.snapshot.albums.len(), SNAPSHOT_GRID_LIMIT);
    assert_eq!(begun.snapshot.tracks.len(), 2_000);
    assert_eq!(begun.snapshot.cached_album_count, 1_000);
    assert_eq!(begun.snapshot.cached_track_count, 2_000);
}

#[test]
fn sync_pages_continue_when_total_is_unknown() {
    assert!(!sync_page_finished(500, 0, 500));
    assert!(sync_page_finished(120, 0, 620));
    assert!(!sync_page_finished(120, 1_000, 620));
    assert!(sync_page_finished(500, 1_000, 1_000));
}

#[test]
fn provider_sync_caches_all_track_pages() {
    let mut store = open_memory();
    let server = saved("fake:server:1", "fake");
    let id = server.server.id.clone();
    store.save_server(&server).expect("save server");
    let tracks = (1..=1_203)
        .map(|number| Track { id: fake_track_id(number), ..blank_track() })
        .collect::<Vec<_>>();
    let mut pages = SyncPages::begin();
    let mut asked = 0;
    while !pages.finished {
        let (offset, limit) = pages.request();
        let page = tracks.iter().skip(offset).take(limit).cloned().collect::<Vec<_>>();
        store.upsert_tracks(&id, &page).expect("tracks");
        pages.page_received(page.len(), tracks.len());
        asked += 1;
    }
    assert_eq!(asked, 3);
    let mut world = World::over(store);
    world.controller.store_mut().set_active_server(&id).expect("set active");
    let (first_page, total) = world.controller.cached_tracks_page(0, 1).expect("first page");
    assert_eq!(total, 1_203);
    assert_eq!(first_page.len(), 1);
    let (final_page, total) =
        world.controller.cached_tracks_page(1_203 - 1, 10).expect("final page");
    assert_eq!(total, 1_203);
    assert_eq!(final_page.len(), 1);
}

#[test]
fn local_source_with_missing_artwork_does_not_resync_cached_rows() {
    let album =
        local_album_with_image_ref(image("local:cover:file%3A%2F%2Fexample-cover", None));
    let mut world = World::over(local_store(vec![album], Vec::new(), Vec::new()));
    let local = local_source_saved();

    world.controller.check_local_artwork(&Vec::new());
    assert!(world.controller.initial_cover_cache_required(&local.server.id));
    assert!(!world.controller.active_server_needs_sync(&local, Some(0)));
    let readiness = world.controller.source_readiness(&local, Some(0), true);
    assert!(!readiness.artwork_fresh);
    assert_eq!(
        readiness.prefetch_required_reason,
        Some(SyncRequiredReason::LocalArtworkMissing)
    );
}

#[test]
fn startup_readiness_does_not_scan_local_artwork_cache() {
    let album =
        local_album_with_image_ref(image("local:cover:file%3A%2F%2Fmissing-startup-cover", None));
    let world = World::over(local_store(vec![album], Vec::new(), Vec::new()));
    let local = local_source_saved();

    let readiness = world.controller.source_readiness(&local, Some(0), false);

    assert!(readiness.metadata_fresh);
    assert!(readiness.artwork_fresh);
    assert_eq!(readiness.prefetch_required_reason, None);
    assert_eq!(readiness.startup_delay_ms, None);
    assert_eq!(world.controller.startup_sync_delay_ms(Some(0)), None);
}

fn local_world_with_cover(size: u32) -> World {
    let image_ref = image("local:cover:file%3A%2F%2Fcached-cover", None);
    let album = local_album_with_image_ref(image_ref.clone());
    let stale_track = local_track(
        1,
        &album,
        Some(image("local:cover:embedded%3A%2Fmusic%2Fstale.flac", None)),
    );
    let mut store = local_store(vec![album], vec![stale_track], Vec::new());
    store
        .save_cover_cache_entry(CoverCacheEntry {
            server_id: local_source_saved().server.id,
            item_id: image_ref.item_id,
            image_tag: text(rufin::covers::IMAGE_TAG_UNTAGGED),
            size,
            path: text("/cache/cover.jpg"),
        })
        .expect("save cover");
    World::over(store)
}

#[test]
fn local_source_sync_skips_artwork_cache_when_cover_file_exists() {
    let mut world = local_world_with_cover(256);
    let local = local_source_saved();

    world.controller.check_local_artwork(&vec![text("/cache/cover.jpg")]);
    assert!(!world.controller.initial_cover_cache_required(&local.server.id));
    assert!(!world.controller.active_server_needs_sync(&local, Some(0)));
}

#[test]
fn local_source_thumbnail_only_cache_still_needs_grid_artwork() {
    let mut world = local_world_with_cover(96);
    let local = local_source_saved();

    world.controller.check_local_artwork(&vec![text("/cache/cover.jpg")]);
    assert!(world.controller.initial_cover_cache_required(&local.server.id));
    assert!(!world.controller.active_server_needs_sync(&local, Some(0)));
    let missing = world.controller.initial_cover_cache_required(&local.server.id);
    let readiness = world.controller.source_readiness(&local, Some(0), missing);
    assert!(!readiness.artwork_fresh);
    assert_eq!(
        readiness.prefetch_required_reason,
        Some(SyncRequiredReason::LocalArtworkMissing)
    );
}

#[test]
fn local_startup_sync_policy_ignores_remote_age_when_artwork_is_ready() {
    let stale_age = Some(STARTUP_CACHE_STALE_SECONDS + 60);
    let input = |provider: &str, local_artwork_missing: bool| SourceSyncReadinessInput {
        provider: text(provider),
        cached_item_count: 42,
        sync_status: Some(text("idle")),
        sync_completed_age_seconds: stale_age,
        local_artwork_missing,
    };

    let local_ready = source_sync_readiness(&input(LOCAL_PROVIDER_ID, false));
    assert_eq!(local_ready.sync_required_reason, None);
    assert_eq!(local_ready.startup_delay_ms, None);
    assert!(local_ready.metadata_fresh);
    assert!(local_ready.artwork_fresh);

    let remote_stale = source_sync_readiness(&input("jellyfin", false));
    assert_eq!(
        remote_stale.sync_required_reason,
        Some(SyncRequiredReason::RemoteCacheStale)
    );
    assert_eq!(remote_stale.startup_delay_ms, Some(8_000));

    let local_missing_artwork = source_sync_readiness(&input(LOCAL_PROVIDER_ID, true));
    assert_eq!(local_missing_artwork.sync_required_reason, None);
    assert_eq!(
        local_missing_artwork.prefetch_required_reason,
        Some(SyncRequiredReason::LocalArtworkMissing)
    );
    assert_eq!(local_missing_artwork.startup_delay_ms, None);
    assert!(local_missing_artwork.metadata_fresh);
    assert!(!local_missing_artwork.artwork_fresh);
}

#[test]
fn startup_sync_policy_uses_empty_fresh_and_error_cache_states() {
    let mut world = World::fake();
    let server_id = world.server_id();
    assert_eq!(world.controller.startup_sync_delay_ms(Some(0)), None);
    world
        .controller
        .store_mut()
        .fail_sync(&server_id, "previous sync failed")
        .expect("mark sync failed");
    assert_eq!(world.controller.startup_sync_delay_ms(Some(0)), Some(8_000));
    world.controller.clear_active_server_cache();
    let _snapshot = world.wait_for_snapshot();
    assert_eq!(world.controller.startup_sync_delay_ms(Some(0)), Some(500));
}

#[test]
fn local_home_section_cache_discards_cross_source_items() {
    let local_image_ref = image("local:cover:file%3A%2F%2Fsection-cover", None);
    let local_album = local_album_with_image_ref(local_image_ref.clone());
    let remote_album = Album {
        id: album_id("jellyfin:album:remote"),
        ..local_album_with_image_ref(image("jellyfin:album:remote", None))
    };
    let mixed = section(
        HomeSectionKind::Explore,
        vec![remote_album, local_album],
        Vec::new(),
    );
    assert_eq!(keep_section(mixed.clone(), false).albums.len(), 2);
    let mut world = World::over(local_store(Vec::new(), Vec::new(), Vec::new()));
    let local = local_source_saved();
    world.controller.home_refreshed(
        &local,
        HomeRefreshTarget::Section(HomeSectionKind::Explore),
        &vec![mixed],
    );

    let sections = world.controller.store().library(&local.server.id).home_sections;
    assert_eq!(sections.len(), 1);
    assert_eq!(sections[0].albums.len(), 1);
    assert_eq!(sections[0].albums[0].id.value, "local:album:one");
    assert_eq!(sections[0].albums[0].image_ref, Some(local_image_ref));
}

fn stale_local_tracks(album: &Album) -> Vec<Track> {
    vec![
        local_track(1, album, Some(image("local:cover:embedded%3A%2Fmusic%2Fone.flac", None))),
        local_track(2, album, Some(image("local:cover:embedded%3A%2Fmusic%2Ftwo.flac", None))),
    ]
}

#[test]
fn local_snapshot_reuses_album_image_for_stale_track_image_refs() {
    let album_image_ref = image("local:cover:file%3A%2F%2Falbum-cover", None);
    let album = local_album_with_image_ref(album_image_ref.clone());
    let mut tracks = stale_local_tracks(&album);
    tracks[0].favorite = true;
    let sections =
        vec![section(HomeSectionKind::MostPlayed, Vec::new(), vec![tracks[0].clone()])];
    let mut store = local_store(vec![album], tracks, sections);

    let snapshot = load_snapshot(&mut store).expect("load snapshot");

    assert_eq!(snapshot.tracks.len(), 2);
    assert!(snapshot
        .tracks
        .iter()
        .all(|track| track.image_ref.as_ref() == Some(&album_image_ref)));
    assert_eq!(
        snapshot.home_sections[0].tracks[0].image_ref.as_ref(),
        Some(&album_image_ref)
    );
    assert_eq!(snapshot.favorites[0].image_ref.as_ref(), Some(&album_image_ref));
}

#[test]
fn local_cached_tracks_page_reuses_album_image_for_stale_track_image_refs() {
    let album_image_ref = image("local:cover:file%3A%2F%2Falbum-cover", None);
    let album = local_album_with_image_ref(album_image_ref.clone());
    let tracks = stale_local_tracks(&album);
    let world = World::over(local_store(vec![album], tracks, Vec::new()));

    let (items, total) = world.controller.cached_tracks_page(0, 10).expect("cached tracks page");

    assert_eq!(total, 2);
    assert!(items.iter().all(|track| track.image_ref.as_ref() == Some(&album_image_ref)));
}

#[test]
fn remote_snapshot_discards_local_provider_image_refs() {
    let album =
        remote_album_with_image_ref(image("local:cover:embedded%3A%2Fmusic%2Ftrack.flac", None));
    let mut store = remote_store(
        vec![album.clone()],
        vec![section(HomeSectionKind::Explore, vec![album], Vec::new())],
    );

    let snapshot = load_snapshot(&mut store).expect("load snapshot");

    assert_eq!(snapshot.albums.len(), 1);
    assert_not_local_provider_image_ref(snapshot.albums[0].image_ref.as_ref());
    assert_eq!(snapshot.home_sections.len(), 1);
    assert_not_local_provider_image_ref(snapshot.home_sections[0].albums[0].image_ref.as_ref());
}

#[test]
fn local_snapshot_discards_external_metadata_image_refs() {
    let album =
        local_album_with_image_ref(image("external:album:Example%20Artist:Example%20Album", None));
    let mut store = local_store(
        vec![album.clone()],
        Vec::new(),
        vec![section(HomeSectionKind::Explore, vec![album], Vec::new())],
    );

    let snapshot = load_snapshot(&mut store).expect("load snapshot");

    assert_eq!(snapshot.albums.len(), 1);
    assert!(snapshot.albums[0].image_ref.is_none());
    assert_eq!(snapshot.home_sections.len(), 1);
    assert!(snapshot.home_sections[0].albums[0].image_ref.is_none());
}

#[test]
fn local_snapshot_does_not_reuse_external_album_image_for_tracks() {
    let album =
        local_album_with_image_ref(image("external:album:Example%20Artist:Example%20Album", None));
    let track = local_track(1, &album, None);
    let mut store = local_store(vec![album], vec![track], Vec::new());

    let snapshot = load_snapshot(&mut store).expect("load snapshot");

    assert_eq!(snapshot.tracks.len(), 1);
    assert!(snapshot.tracks[0].image_ref.is_none());
}

#[test]
fn remote_cached_album_page_discards_local_provider_image_refs() {
    let album =
        remote_album_with_image_ref(image("local:cover:embedded%3A%2Fmusic%2Ftrack.flac", None));
    let world = World::over(remote_store(vec![album], Vec::new()));

    let (items, _total) = world.controller.cached_albums_page(0, 10).expect("cached albums");

    assert_eq!(items.len(), 1);
    assert_not_local_provider_image_ref(items[0].image_ref.as_ref());
}

#[test]
fn local_cached_tracks_page_discards_external_album_fallback_image_refs() {
    let album =
        local_album_with_image_ref(image("external:album:Example%20Artist:Example%20Album", None));
    let track = local_track(1, &album, None);
    let world = World::over(local_store(vec![album], vec![track], Vec::new()));

    let (items, _total) = world.controller.cached_tracks_page(0, 10).expect("cached tracks");

    assert_eq!(items.len(), 1);
    assert!(items[0].image_ref.is_none());
}

#[test]
fn cached_remote_sync_skips_initial_artwork_cache() {
    let mut world = World::fake();
    let server_id = world.server_id();
    assert!(!world.controller.initial_cover_cache_required(&server_id));
    world.controller.store_mut().fault = Some(text("disk is gone"));
    assert!(world.controller.initial_cover_cache_required(&server_id));
    let empty = World::over(remote_store(Vec::new(), Vec::new()));
    assert!(empty.controller.initial_cover_cache_required(&empty.server_id()));
}

fn fresh_album(number: u32) -> Album {
    Album { id: fake_album_id(number), ..blank_album() }
}

fn fresh_track(number: u32) -> Track {
    Track { id: fake_track_id(number), ..blank_track() }
}

fn world_with_stale_home(album: &Album, track: &Track) -> (World, SavedServer) {
    let mut store = open_memory();
    let server = saved("fake:server:1", "fake");
    let id = server.server.id.clone();
    store.save_server(&server).expect("save server");
    store.set_active_server(&id).expect("set active");
    store.upsert_albums(&id, &vec![album.clone()]).expect("albums");
    store.upsert_tracks(&id, &vec![track.clone()]).expect("tracks");
    store
        .upsert_home_sections(
            &id,
            &vec![
                section(HomeSectionKind::Explore, vec![album.clone()], Vec::new()),
                section(HomeSectionKind::MostPlayed, Vec::new(), vec![track.clone()]),
            ],
        )
        .expect("sections");
    (World::over(store), server)
}

#[test]
fn home_refresh_replaces_cached_sections_without_full_sync() {
    let (mut world, server) = world_with_stale_home(&fresh_album(9), &fresh_track(9));
    let before = world.controller.store().library(&server.server.id).home_sections;
    assert_eq!(before[0].albums[0].id, fake_album_id(9));
    assert_eq!(before[1].tracks[0].id, fake_track_id(9));
    world.controller.home_refreshed(
        &server,
        HomeRefreshTarget::Section(HomeSectionKind::Explore),
        &vec![
            section(HomeSectionKind::Explore, vec![fresh_album(1)], Vec::new()),
            section(HomeSectionKind::MostPlayed, Vec::new(), vec![fresh_track(1)]),
        ],
    );
    let after = world.controller.store().library(&server.server.id).home_sections;
    let sync_state = world.controller.store().sync_state(&server.server.id).expect("sync state");
    assert_eq!(after[0].kind, HomeSectionKind::Explore);
    assert_eq!(after[0].albums[0].id, fake_album_id(1));
    assert_eq!(after[1].kind, HomeSectionKind::MostPlayed);
    assert_eq!(after[1].tracks[0].id, fake_track_id(1));
    assert_eq!(sync_state.generation, 0);
    assert_eq!(sync_state.status, "idle");
}

#[test]
fn playlist_refresh_replaces_cached_list_without_full_sync() {
    let track = fresh_track(1);
    let (mut world, server) = world_with_stale_home(&fresh_album(1), &track);
    let id = server.server.id.clone();
    let playlist = |value: &str, name: &str| Playlist {
        id: PlaylistId { value: text(value) },
        name: text(name),
        track_count: 1,
        duration_seconds: track.duration_seconds,
        image_refs: Vec::new(),
        image_ref: None,
    };
    let stale = playlist("fake:playlist:stale", "Old Playlist");
    let entry = |entry_id: &str| PlaylistEntry { entry_id: text(entry_id), track: track.clone() };
    let store = world.controller.store_mut();
    store.upsert_playlists(&id, &vec![stale.clone()]).expect("playlists");
    store
        .upsert_playlist_entries(&id, &stale.id, &vec![entry("old-playlist-entry")])
        .expect("entries");
    let (items, total) = world.controller.cached_playlists_page(0, 10).expect("playlists");
    assert_eq!(total, 1);
    assert_eq!(items[0].id, stale.id);
    let fresh = vec![playlist("fake:playlist:1", "First"), playlist("fake:playlist:2", "Second")];
    let store = world.controller.store_mut();
    store.upsert_playlists(&id, &fresh).expect("playlists");
    store
        .upsert_playlist_entries(&id, &fresh[0].id, &vec![entry("entry-one")])
        .expect("entries");
    store
        .prune_playlists_except(&id, &vec![text("fake:playlist:1"), text("fake:playlist:2")])
        .expect("prune");
    world.controller.playlists_refreshed(&id);
    let snapshot = world.wait_for_snapshot();
    assert!(snapshot.playlists.len() > 1);
    assert!(!snapshot.playlists.iter().any(|playlist| playlist.id == stale.id));
    assert!(snapshot.playlists.iter().any(|playlist| playlist.id == fresh[0].id));
    let library = world.controller.store().library(&id);
    let detail = load_playlist_detail(&library, &fresh[0].id).expect("playlist detail");
    assert!(!detail.entries.is_empty());
    let sync_state = world.controller.store().sync_state(&id).expect("sync state");
    assert_eq!(sync_state.generation, 0);
    assert_eq!(sync_state.status, "idle");
}

#[test]
fn home_section_refresh_replaces_only_selected_section() {
    let mut stale_track = fresh_track(9);
    stale_track.artist_id = Some(fake_artist_id(1));
    stale_track.artist_credits =
        vec![ArtistCredit { id: fake_artist_id(1), name: stale_track.artist.clone() }];
    let (mut world, server) = world_with_stale_home(&fresh_album(9), &stale_track);
    world.controller.home_refreshed(
        &server,
        HomeRefreshTarget::Section(HomeSectionKind::Explore),
        &vec![section(HomeSectionKind::Explore, vec![fresh_album(1)], Vec::new())],
    );
    let after = world.controller.store().library(&server.server.id).home_sections;
    assert_eq!(after[0].kind, HomeSectionKind::Explore);
    assert_eq!(after[0].albums[0].id, fake_album_id(1));
    assert_eq!(after[1].kind, HomeSectionKind::MostPlayed);
    assert_eq!(after[1].tracks, vec![stale_track]);
}

#[test]
fn home_section_refresh_uses_home_update_event() {
    for (kind, expected) in [(HomeSectionKind::MostPlayed, false), (HomeSectionKind::Explore, true)]
    {
        let (mut world, server) = world_with_stale_home(&fresh_album(9), &fresh_track(9));
        world.controller.home_refreshed(&server, HomeRefreshTarget::Section(kind), &Vec::new());
        let include_explore = world.wait(|event| match event {
            ControllerEvent::HomeSectionsUpdated { include_explore, .. } => Some(*include_explore),
            _ => None,
        });
        assert_eq!(include_explore, expected);
    }
}

#[test]
fn in_flight_permit_suppresses_duplicates_until_release() {
    let mut guards = InFlightGuards::new("Test");
    assert_eq!(guards.acquire("test-server"), Ok(true));

    assert!(guards.contains_or_blocked("test-server"));
    assert_eq!(guards.acquire("test-server"), Ok(false));

    assert!(guards.release("test-server"));

    assert!(!guards.contains_or_blocked("test-server"));
    assert_eq!(guards.acquire("test-server"), Ok(true));
}

#[test]
fn in_flight_guards_keep_poisoned_locks_blocking() {
    let mut guards = InFlightGuards::new("Test");
    guards.blocked = true;

    assert!(guards.contains_or_blocked("test-server"));
    assert_eq!(
        guards.acquire("another-test-server"),
        Err(text("Test guard lock was poisoned."))
    );
}

#[test]
fn home_refresh_without_explore_leaves_explore_cache_unchanged() {
    let (mut world, server) = world_with_stale_home(&fresh_album(9), &fresh_track(9));
    world.controller.home_refreshed(
        &server,
        HomeRefreshTarget::WithoutExplore,
        &vec![section(HomeSectionKind::MostPlayed, Vec::new(), vec![fresh_track(1)])],
    );
    let after = world.controller.store().library(&server.server.id).home_sections;
    assert_eq!(after[0].kind, HomeSectionKind::Explore);
    assert_eq!(after[0].albums[0].id, fake_album_id(9));
    assert_eq!(after[1].kind, HomeSectionKind::MostPlayed);
    assert_eq!(after[1].tracks[0].id, fake_track_id(1));
}

#[test]
fn explore_prefetch_promotes_only_when_requested() {
    let (mut world, server) = world_with_stale_home(&fresh_album(9), &fresh_track(9));
    let id = server.server.id.clone();
    let prefetched = section(HomeSectionKind::Explore, vec![fresh_album(1)], Vec::new());
    world.controller.explore_prefetched(&server, prefetched.clone());
    let before = world.controller.store().library(&id);
    assert_eq!(before.home_sections[0].albums[0].id, fake_album_id(9));
    assert_eq!(before.prefetched_sections, vec![prefetched.clone()]);
    world.controller.promote_prefetched_explore_for_active(&prefetched);
    let after = world.controller.store().library(&id);
    assert_eq!(after.home_sections[0].albums[0].id, fake_album_id(1));
    assert!(after.prefetched_sections.is_empty());
}

#[test]
fn clear_cache_emits_empty_active_server_snapshot() {
    let mut world = World::fake();
    let server_id = world.server_id();
    world.controller.clear_active_server_cache();
    let snapshot = world.wait_for_snapshot();
    assert!(!snapshot.first_run);
    assert_eq!(snapshot.server.expect("server").id, server_id);
    assert!(snapshot.albums.is_empty());
    assert!(snapshot.tracks.is_empty());
    assert!(snapshot.search.albums.is_empty());
}

#[test]
fn forget_server_emits_first_run_and_deletes_token() {
    let mut world = World::fake();
    let server_id = world.server_id();
    world.controller.tokens_mut().save_token(&server_id, "token").expect("save token");
    world.controller.forget_active_server();
    let snapshot = world.wait_for_snapshot();
    assert!(snapshot.first_run);
    assert_eq!(world.controller.tokens().load_token(&server_id), Ok(None));
}

#[test]
fn forget_server_cancels_running_sync_and_emits_first_run() {
    let mut world = World::fake();
    let server_id = world.server_id();
    world.controller.tokens_mut().save_token(&server_id, "token").expect("save token");
    let shown = world.controller.store().shown().expect("source");
    world.controller.start_sync(&shown);
    assert!(world.controller.sync_is_held_back(&server_id));
    let _asked = world.controller.drain_effects();
    let _told = world.controller.drain_events();

    world.controller.forget_server(&server_id);

    let snapshot = world.wait_for_snapshot();
    assert!(snapshot.first_run);
    assert!(snapshot.server.is_none());
    assert!(snapshot.servers.is_empty());
    assert_eq!(world.controller.store().list_servers(), Ok(Vec::new()));
    assert!(!world.controller.sync_is_held_back(&server_id));
    assert_eq!(world.controller.tokens().load_token(&server_id), Ok(None));
}

#[test]
fn forget_server_emits_first_run_when_token_delete_fails() {
    let mut world = World::fake();
    let server_id = world.server_id();
    world.controller.tokens_mut().delete_fault = Some(text("delete failed"));

    world.controller.forget_server(&server_id);

    let snapshot = world.wait_for_snapshot();
    assert!(snapshot.first_run);
    assert!(snapshot.server.is_none());
    assert!(snapshot.servers.is_empty());
    assert_eq!(world.controller.store().list_servers(), Ok(Vec::new()));
}

#[test]
fn duplicate_resync_requests_do_not_start_another_sync() {
    let mut world = World::fake();
    let server_id = world.server_id();
    let shown = world.controller.store().shown().expect("source");
    world.controller.start_sync(&shown);
    assert!(world.controller.sync_is_held_back(&server_id));
    let _asked = world.controller.drain_effects();
    let _told = world.controller.drain_events();
    world.controller.resync_active_server();
    assert_eq!(world.wait_for_status(), "Sync already running.");
    assert!(!world.effects.iter().any(|effect| matches!(effect, Effect::Sync { .. })));
}

#[test]
fn finished_and_failed_reading_is_told_of_the_shown_source_alone() {
    let mut world = World::fake();
    let other = remote_server();
    world.controller.sync_finished(&other);
    world.controller.sync_failed(&other.server.id, text("offline"));
    assert!(world.controller.drain_events().is_empty());
    let shown = world.controller.store().shown().expect("source");
    world.controller.sync_failed(&shown.server.id, text("offline"));
    assert_eq!(world.wait_for_error(), "offline");
    world.controller.sync_finished(&shown);
    assert_eq!(world.wait_for_status(), "Library sync complete");
}

#[test]
fn clearing_while_reading_is_refused() {
    let mut world = World::fake();
    let server_id = world.server_id();
    let shown = world.controller.store().shown().expect("source");
    world.controller.start_sync(&shown);
    assert!(world.controller.sync_is_held_back(&server_id));
    let _asked = world.controller.drain_effects();
    let _told = world.controller.drain_events();
    world.controller.clear_active_server_cache();
    let _error = world.wait_for_error();
    assert_eq!(world.tracks().len(), 40);
}

#[test]
fn what_is_kept_can_be_cleared_while_nothing_runs() {
    let mut store = fake_store();
    let server_id = store.shown().expect("source").server.id;
    assert_eq!(AppController::clear_app_cache(&mut store), Ok(server_id.clone()));
    assert!(store.library(&server_id).tracks.is_empty());
    assert_eq!(
        AppController::clear_active_server_cache_for_app(&mut store),
        Ok(server_id.clone())
    );
    let mut tokens = no_tokens();
    tokens.save_token(&server_id, "token").expect("save token");
    assert_eq!(
        AppController::forget_active_server_for_app(&mut store, &mut tokens),
        Ok(server_id.clone())
    );
    assert_eq!(tokens.load_token(&server_id), Ok(None));
    assert_eq!(
        AppController::clear_app_cache(&mut store),
        Err(text("No active server is saved."))
    );
}
