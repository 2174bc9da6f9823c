//! Images: which sizes stand for which, what is kept of them and what is fetched.

use rufin::controller::AppController;
use rufin::model::events::{ControllerEvent, Effect, FavoriteItemId};
use rufin::model::ids::{AlbumId, ArtistId, PlaylistId, QueueEntryId, ServerId, TrackId};
use rufin::model::library::{Album, Artist, ImageRef, Track};
use rufin::model::lyrics::Lyrics;
use rufin::model::playback::{
    PlaybackCommand, PlaybackEvent, PlaybackSnapshot, PlaybackState, StreamDescriptor,
};
use rufin::model::queue::{QueueEntry, QueueSnapshot};
use rufin::model::settings::AppSettings;
use rufin::model::snapshot::LibrarySnapshot;
use rufin::model::source::{SavedServer, ServerIdentity};
use rufin::model::store::Store;
use rufin::store::{no_tokens, open_memory};
use rufin::app_paths::{
    app_cache_database_path, app_cache_database_path_for_cache_dir, app_cache_dirs,
    app_settings_path_for_config_dir, cover_cache_dir_for_cache_dir,
    lyrics_cache_dir_for_cache_dir, playback_cache_dir_for_cache_dir, tmp_cache_dir_for_cache_dir,
    CACHE_DATABASE_FILE_NAME, SETTINGS_FILE_NAME,
};
use rufin::controller::cover_commands::{check_cover_bytes, cover_source, CoverSource};
use rufin::covers::{
    cover_cache_path_for_key, cover_cache_size_candidates, image_cache_key, image_tag,
    is_provider_not_found_error, scaled_cover_size, IMAGE_TAG_UNTAGGED,
};
use rufin::model::store::{CoverCacheEntry, LookupMiss};

#[allow(dead_code)]
fn text(value: &str) -> String {
    value.to_string()
}

#[allow(dead_code)]
fn track_id(value: &str) -> TrackId {
    TrackId { value: text(value) }
}

#[allow(dead_code)]
fn album_id(value: &str) -> AlbumId {
    AlbumId { value: text(value) }
}

#[allow(dead_code)]
fn artist_id(value: &str) -> ArtistId {
    ArtistId { value: text(value) }
}

#[allow(dead_code)]
fn fake_track_id(number: u32) -> TrackId {
    TrackId { value: format!("fake:track:{number}") }
}

#[allow(dead_code)]
fn fake_album_id(number: u32) -> AlbumId {
    AlbumId { value: format!("fake:album:{number}") }
}

#[allow(dead_code)]
fn fake_artist_id(number: u32) -> ArtistId {
    ArtistId { value: format!("fake:artist:{number}") }
}

#[allow(dead_code)]
fn image(item_id: &str, tag: Option<&str>) -> ImageRef {
    ImageRef { item_id: text(item_id), tag: tag.map(text) }
}

#[allow(dead_code)]
fn external_settings() -> AppSettings {
    AppSettings { external_metadata_enabled: true, ..AppSettings::default() }
}

#[allow(dead_code)]
fn blank_track() -> Track {
    Track {
        id: track_id("track-one"),
        album_id: album_id("album-one"),
        title: text("Track"),
        artist: text("Artist"),
        artist_id: None,
        artist_credits: Vec::new(),
        album_artist_credits: Vec::new(),
        album: text("Album"),
        year: 2011,
        release_date: None,
        date_added: None,
        last_played: None,
        play_count: None,
        user_rating: None,
        duration_seconds: 60,
        favorite: false,
        disc_number: 1,
        track_number: 1,
        image_ref: None,
        genres: Vec::new(),
        musicbrainz_recording_id: None,
        musicbrainz_release_track_id: None,
        local_path: None,
        source_format: None,
        comment: None,
        skip_count: None,
        from_cue: false,
    }
}

#[allow(dead_code)]
fn blank_album() -> Album {
    Album {
        id: album_id("album-one"),
        title: text("Album"),
        artist: text("Artist"),
        artist_id: None,
        album_artist_credits: Vec::new(),
        artist_credits: Vec::new(),
        year: 2011,
        release_date: None,
        date_added: None,
        last_played: None,
        play_count: None,
        user_rating: None,
        track_count: 1,
        duration_seconds: 60,
        favorite: false,
        color_seed: 1,
        image_ref: None,
        genres: Vec::new(),
        release_types: Vec::new(),
        is_compilation: None,
        musicbrainz_album_id: None,
        musicbrainz_release_group_id: None,
    }
}

#[allow(dead_code)]
fn blank_artist(id: &str, name: &str) -> Artist {
    Artist {
        id: artist_id(id),
        name: text(name),
        album_count: 1,
        track_count: 1,
        favorite: false,
        last_played: None,
        play_count: None,
        user_rating: None,
        image_ref: None,
    }
}

#[allow(dead_code)]
fn blank_entry() -> QueueEntry {
    QueueEntry {
        id: QueueEntryId { value: text("entry-one") },
        track_id: track_id("track-one"),
        album_id: Some(album_id("album-one")),
        title: text("Track"),
        artist: text("Artist"),
        artist_id: None,
        album: text("Album"),
        year: 2011,
        duration_seconds: 60,
        favorite: false,
        image_ref: None,
        local_path: None,
        source_format: None,
        origin: None,
    }
}
/// Where the random sequence of a [`World`] begins.
#[allow(dead_code)]
const RANDOM_SEED: u64 = 7;


/// A controller with a player and servers that answer at once.
#[allow(dead_code)]
struct World {
    controller: AppController,
    events: Vec<ControllerEvent>,
    commands: Vec<PlaybackCommand>,
    effects: Vec<Effect>,
    pending: Vec<PlaybackEvent>,
    /// What the player refuses everything with, where it does.
    refusal: Option<String>,
}

#[allow(dead_code)]
impl World {
    fn over(store: Store) -> World {
        let begun = AppController::bootstrap(store, no_tokens(), RANDOM_SEED, false, None);
        World {
            controller: begun.controller,
            events: Vec::new(),
            commands: Vec::new(),
            effects: Vec::new(),
            pending: Vec::new(),
            refusal: None,
        }
    }

    fn fake() -> World {
        World::over(fake_store())
    }

    /// Answers what is asked for, until nothing more is.
    fn settle(&mut self) {
        loop {
            self.events.extend(self.controller.drain_events());
            let effects = self.controller.drain_effects();
            if effects.is_empty() {
                return;
            }
            for effect in effects {
                self.answer(effect);
            }
        }
    }

    fn answer(&mut self, effect: Effect) {
        self.effects.push(effect.clone());
        let controller = &mut self.controller;
        match effect {
            Effect::Playback(command) => {
                self.commands.push(command.clone());
                match self.refusal.clone() {
                    Some(error) => controller.command_rejected(command, error),
                    None => controller.command_accepted(command),
                }
            }
            Effect::PlayStream { request, stream, command } => {
                self.commands.push(command.clone());
                match self.refusal.clone() {
                    Some(error) => controller.command_rejected(command, error),
                    None => {
                        self.pending.push(PlaybackEvent::StateChanged(PlaybackState::Playing));
                        controller.current_stream_accepted(&request, stream);
                    }
                }
            }
            Effect::StopPlayer => self.commands.push(PlaybackCommand::Stop),
            Effect::ResolveCurrent(request) => {
                let stream = fake_stream(&request.entry.track_id);
                controller.current_stream_resolved(request, stream);
            }
            Effect::ResolveNext(request) => {
                let stream = fake_stream(&request.next_entry.track_id);
                let _sent = controller.next_stream_resolved(&request, stream);
            }
            Effect::TopUpQueue => controller.top_up_queue(),
            Effect::PersistQueue { generation, snapshot } => {
                controller.persist_queue_now(generation, &snapshot)
            }
            Effect::ReadSidecarLyrics { server_id, entry, use_cache, search, providers, .. } => {
                controller.sidecar_lyrics_read(
                    &server_id,
                    &entry,
                    use_cache,
                    search,
                    &providers,
                    &None,
                )
            }
            Effect::FetchServerLyrics { saved, entry, search, providers } => {
                controller.server_lyrics_missing(
                    &saved.server.id,
                    &entry,
                    search,
                    &providers,
                    None,
                )
            }
            Effect::FetchExternalLyrics { server_id, server_error, .. } => {
                controller.external_lyrics_fetched(&server_id, None, server_error)
            }
            Effect::MatchLocalTracks { server_id, .. } => {
                controller.local_tracks_read(&server_id, &None)
            }
            Effect::ClearDiskCovers { server_id, next } => {
                controller.disk_covers_cleared(&server_id, next)
            }
            _ => {}
        }
    }

    /// Lets the player tell what it has to.
    fn poll(&mut self) {
        self.settle();
        let events = std::mem::take(&mut self.pending);
        self.controller.poll_playback_events(events);
        self.settle();
    }

    fn poll_with(&mut self, events: Vec<PlaybackEvent>) {
        self.controller.poll_playback_events(events);
        self.settle();
    }

    /// The first of the events not looked at yet that is wanted; those before it are dropped.
    fn wait<T>(&mut self, mut wanted: impl FnMut(&ControllerEvent) -> Option<T>) -> T {
        self.settle();
        while !self.events.is_empty() {
            let event = self.events.remove(0);
            if let Some(found) = wanted(&event) {
                return found;
            }
        }
        panic!("no such event");
    }

    fn wait_for_queue(&mut self) -> QueueSnapshot {
        self.wait(|event| match event {
            ControllerEvent::Queue(Some(queue)) => Some(queue.clone()),
            _ => None,
        })
    }

    fn wait_for_snapshot(&mut self) -> LibrarySnapshot {
        self.wait(|event| match event {
            ControllerEvent::Snapshot(snapshot) => Some(snapshot.clone()),
            _ => None,
        })
    }

    fn wait_for_status(&mut self) -> String {
        self.wait(|event| match event {
            ControllerEvent::LoginStatus(status) => Some(status.clone()),
            _ => None,
        })
    }

    fn wait_for_error(&mut self) -> String {
        self.wait(|event| match event {
            ControllerEvent::Error(error) => Some(error.clone()),
            _ => None,
        })
    }

    fn wait_for_lyrics(&mut self) -> Option<Lyrics> {
        self.wait(|event| match event {
            ControllerEvent::Lyrics(lyrics) => Some(lyrics.clone()),
            _ => None,
        })
    }

    fn wait_for_player(&mut self, wanted: impl Fn(&PlaybackSnapshot) -> bool) -> PlaybackSnapshot {
        self.wait(|event| match event {
            ControllerEvent::Playback(player) if wanted(player) => Some(player.clone()),
            _ => None,
        })
    }

    fn wait_for_state(&mut self, state: PlaybackState) -> PlaybackSnapshot {
        self.poll();
        self.wait_for_player(|player| player.state == state)
    }

    fn wait_for_position(&mut self, millis: u64) -> PlaybackSnapshot {
        self.wait_for_player(|player| player.position_millis == millis)
    }

    fn wait_for_favorite(&mut self) -> (FavoriteItemId, bool, LibrarySnapshot) {
        self.wait(|event| match event {
            ControllerEvent::FavoriteChanged { item_id, favorite, snapshot } => {
                Some((item_id.clone(), *favorite, snapshot.clone()))
            }
            _ => None,
        })
    }

    fn wait_for_playlist(&mut self) -> (PlaylistId, LibrarySnapshot) {
        self.wait(|event| match event {
            ControllerEvent::PlaylistChanged { playlist_id, snapshot } => {
                Some((playlist_id.clone(), snapshot.clone()))
            }
            _ => None,
        })
    }

    fn server_id(&self) -> ServerId {
        self.controller.store().shown().expect("a source is shown").server.id
    }

    fn tracks(&self) -> Vec<Track> {
        self.controller.store().library(&self.server_id()).tracks
    }

    fn queue(&self) -> QueueSnapshot {
        self.controller.queue_snapshot().expect("queue")
    }
}

#[allow(dead_code)]
fn fake_stream(track_id: &TrackId) -> StreamDescriptor {
    let uri = format!("fake://local/stream/{}", track_id.value);
    StreamDescriptor { redacted_uri: uri.clone(), uri }
}

#[allow(dead_code)]
fn saved(id: &str, provider: &str) -> SavedServer {
    SavedServer {
        server: ServerIdentity {
            id: ServerId { value: text(id) },
            provider: text(provider),
            name: text("Test Server"),
            base_url: text("https://music.example"),
        },
        user_id: text("user"),
        username: text("demo"),
        trust_invalid_cert: false,
    }
}

/// A store with one source of many albums and tracks, whose library was read.
#[allow(dead_code)]
fn fake_store() -> Store {
    let mut store = open_memory();
    let server = saved("fake:server:1", "fake");
    let id = server.server.id.clone();
    let albums = (1..=8)
        .map(|number: u32| Album {
            id: fake_album_id(number),
            title: format!("Album {number}"),
            artist: format!("Artist {}", number % 4),
            artist_id: Some(fake_artist_id(number % 4)),
            ..blank_album()
        })
        .collect::<Vec<_>>();
    let tracks = (1..=40)
        .map(|number: u32| Track {
            id: fake_track_id(number),
            album_id: fake_album_id(1 + number % 8),
            title: format!("Track {number}"),
            artist: format!("Artist {}", number % 4),
            artist_id: Some(fake_artist_id(number % 4)),
            album: format!("Album {}", 1 + number % 8),
            duration_seconds: 180 + number,
            favorite: number % 5 == 1,
            genres: vec![text(if number % 2 == 0 { "Rock" } else { "Jazz" })],
            ..blank_track()
        })
        .collect::<Vec<_>>();
    store.save_server(&server).expect("save server");
    store.set_active_server(&id).expect("set active");
    let generation = store.begin_sync(&id).expect("begin sync");
    store.upsert_albums(&id, &albums).expect("albums");
    store.upsert_tracks(&id, &tracks).expect("tracks");
    store.complete_sync(&id, generation).expect("complete sync");
    store
}

#[allow(dead_code)]
fn restored_track() -> Track {
    Track {
        id: track_id("jellyfin:track:lyrics"),
        album_id: fake_album_id(1),
        title: text("Restored Track"),
        artist: text("Artist"),
        artist_id: Some(fake_artist_id(1)),
        album: text("Album"),
        year: 2026,
        duration_seconds: 180,
        ..blank_track()
    }
}

#[allow(dead_code)]
fn entry_track_ids(queue: &QueueSnapshot) -> Vec<TrackId> {
    queue.entries.iter().map(|entry| entry.track_id.clone()).collect()
}

#[allow(dead_code)]
fn current_track_id(queue: &QueueSnapshot) -> TrackId {
    queue.entries[queue.current_index.expect("current")].track_id.clone()
}

const COVER: &str = "/cache/cover.jpg";

fn remote_store() -> (Store, ServerId) {
    let mut store = open_memory();
    let remote = saved("jellyfin:server:test", "jellyfin");
    store.save_server(&remote).expect("save server");
    store.set_active_server(&remote.server.id).expect("set active");
    (store, remote.server.id)
}

fn world_with_cover(image_ref: &ImageRef, size: u32) -> (World, ServerId) {
    let (mut store, server_id) = remote_store();
    store
        .save_cover_cache_entry(CoverCacheEntry {
            server_id: server_id.clone(),
            item_id: image_ref.item_id.clone(),
            image_tag: image_tag(image_ref),
            size,
            path: text(COVER),
        })
        .expect("seed cover cache");
    (World::over(store), server_id)
}

fn album_cover() -> ImageRef {
    image("jellyfin:album:one", Some("tag-one"))
}

fn external_cover() -> ImageRef {
    image("external:album:Example%20Artist:Example%20Album", Some("external-v1-test"))
}

fn there() -> Vec<String> {
    vec![text(COVER)]
}

fn wait_for_cover_ready(world: &mut World, wanted: &str) -> String {
    world.wait(|event| match event {
        ControllerEvent::CoverReady { key, path } if key == wanted => Some(path.clone()),
        _ => None,
    })
}

fn fetches(world: &mut World) -> usize {
    world.settle();
    world.effects.iter().filter(|effect| matches!(effect, Effect::FetchCover { .. })).count()
}

#[test]
fn normalize_cover_bytes_downscales_large_cache_images() {
    let (width, height) = scaled_cover_size(512, 384, 96).expect("smaller size");
    assert_eq!(width.max(height), 96);
    assert_eq!((width, height), (96, 72));
    assert_eq!(scaled_cover_size(96, 72, 96), None);
    assert_eq!(scaled_cover_size(4000, 1, 512), Some((512, 1)));
}

#[test]
fn cached_cover_request_emits_cover_ready_without_fetching() {
    let image_ref = album_cover();
    let (mut world, _server_id) = world_with_cover(&image_ref, 256);
    let key = world.controller.cover_key(&image_ref, 256).expect("cover key");
    world.controller.request_cover(image_ref, 256, &there());
    assert_eq!(wait_for_cover_ready(&mut world, &key), COVER);
    assert_eq!(fetches(&mut world), 0);
}

#[test]
fn missing_covers_are_fetched_once_and_kept() {
    let image_ref = album_cover();
    let (store, server_id) = remote_store();
    let mut world = World::over(store);
    let remote = world.controller.store().shown().expect("source");
    let key = world.controller.cover_key(&image_ref, 256).expect("cover key");
    world.controller.request_cover(image_ref.clone(), 256, &Vec::new());
    world.controller.request_cover(image_ref.clone(), 256, &Vec::new());
    assert_eq!(fetches(&mut world), 1);
    world.controller.cover_fetched(key.clone(), &remote, &image_ref, 256, text(COVER));
    assert_eq!(wait_for_cover_ready(&mut world, &key), COVER);
    let kept = world
        .controller
        .store()
        .load_cover_cache_entry(&server_id, "jellyfin:album:one", "tag-one", 256)
        .expect("load cover cache")
        .expect("kept cover");
    assert_eq!(kept.path, COVER);
    assert_eq!(
        world.controller.cached_cover_path(&image_ref, 256, &there()),
        Some(text(COVER))
    );
}

#[test]
fn external_cached_cover_reuses_available_size() {
    let image_ref = external_cover();
    let (mut world, _server_id) = world_with_cover(&image_ref, 256);
    assert_eq!(
        world.controller.cached_cover_path(&image_ref, 512, &there()),
        Some(text(COVER))
    );
    assert_eq!(
        world.controller.cached_cover_path(&image_ref, 96, &there()),
        Some(text(COVER))
    );
}

#[test]
fn external_cover_known_miss_applies_to_route_visible_sizes() {
    let image_ref = external_cover();
    let (mut store, server_id) = remote_store();
    store
        .save_external_image_lookup_miss(
            &server_id,
            LookupMiss {
                item_id: image_ref.item_id.clone(),
                image_tag: text("external-v1-test"),
                size: 256,
                reason: text("external cover lookup found no usable image"),
            },
        )
        .expect("seed external miss");
    let mut world = World::over(store);

    assert!(world.controller.external_cover_lookup_known_missing(&image_ref, 96));
    assert!(world.controller.external_cover_lookup_known_missing(&image_ref, 512));
    assert!(!world.controller.external_cover_lookup_known_missing(&album_cover(), 256));

    world.controller.retry_external_cover_lookups().expect("retry");
    assert!(!world.controller.external_cover_lookup_known_missing(&image_ref, 96));
}

#[test]
fn lookups_that_find_nothing_are_remembered() {
    let image_ref = external_cover();
    let (store, _server_id) = remote_store();
    let mut world = World::over(store);
    let key = world.controller.cover_key(&image_ref, 96).expect("cover key");
    world.controller.cover_fetch_failed(&key, &image_ref, 96, text("offline"));
    assert!(!world.controller.external_cover_lookup_known_missing(&image_ref, 96));
    world.controller.cover_fetch_failed(
        &key,
        &image_ref,
        96,
        text("Cover Art Archive did not return album art"),
    );
    assert!(world.controller.external_cover_lookup_known_missing(&image_ref, 512));
}

#[test]
fn provider_cached_cover_reuses_available_size() {
    let image_ref = album_cover();
    let (mut world, _server_id) = world_with_cover(&image_ref, 256);
    assert_eq!(
        world.controller.cached_cover_path(&image_ref, 512, &there()),
        Some(text(COVER))
    );
    assert_eq!(
        world.controller.cached_cover_path(&image_ref, 96, &there()),
        Some(text(COVER))
    );
}

#[test]
fn thumbnail_cached_cover_does_not_satisfy_grid_request() {
    let image_ref = album_cover();
    let (mut world, _server_id) = world_with_cover(&image_ref, 96);
    assert_eq!(world.controller.cached_cover_path(&image_ref, 256, &there()), None);
    assert_eq!(
        world.controller.cached_cover_path(&image_ref, 96, &there()),
        Some(text(COVER))
    );
}

#[test]
fn missing_cached_cover_file_invalidates_cover_index() {
    let image_ref = album_cover();
    let (mut world, server_id) = world_with_cover(&image_ref, 256);
    assert_eq!(world.controller.cached_cover_path(&image_ref, 256, &Vec::new()), None);
    assert_eq!(
        world
            .controller
            .store()
            .load_cover_cache_entry(&server_id, &image_ref.item_id, "tag-one", 256)
            .expect("load cover cache"),
        None
    );
}

#[test]
fn few_images_are_fetched_at_once() {
    let mut world = World::fake();
    assert!(world.controller.acquire_cover_slot());
    assert!(world.controller.acquire_cover_slot());
    assert!(!world.controller.acquire_cover_slot());
    world.controller.release_cover_slot();
    assert!(world.controller.acquire_cover_slot());
}

#[test]
fn keys_name_the_source_the_image_and_the_size() {
    let server_id = ServerId { value: text("server:1") };
    let key = image_cache_key(&server_id, "album/1", "tag", 96);
    let other = image_cache_key(&server_id, "album/1", "tag", 256);
    assert_ne!(key, other);
    let path = cover_cache_path_for_key(&Some(text("/cache/covers")), &key).expect("path");
    assert!(path.starts_with("/cache/covers/"));
    assert_eq!(cover_cache_path_for_key(&None, &key), None);
    assert_eq!(image_tag(&image("album", None)), IMAGE_TAG_UNTAGGED);
}

#[test]
fn large_images_stand_for_small_ones() {
    assert!(cover_cache_size_candidates(96).contains(&512));
    assert!(cover_cache_size_candidates(512).contains(&256));
    assert!(!cover_cache_size_candidates(256).contains(&96));
}

#[test]
fn images_come_from_where_they_belong() {
    let remote = saved("jellyfin:server:test", "jellyfin");
    let local = rufin::cached_reads::local_source_saved();
    let settings = external_settings();
    assert!(matches!(cover_source(&remote, &album_cover(), &settings), Ok(CoverSource::Server)));
    assert!(matches!(
        cover_source(&remote, &external_cover(), &settings),
        Ok(CoverSource::Elsewhere { art, .. })
            if art.artist == "Example Artist" && art.album == "Example Album"
    ));
    assert!(matches!(
        cover_source(&local, &image("local:cover:file", None), &settings),
        Ok(CoverSource::Files)
    ));
    assert!(cover_source(&remote, &external_cover(), &AppSettings::default()).is_err());
}

#[test]
fn images_without_bytes_are_refused() {
    assert!(check_cover_bytes(&Vec::new()).is_err());
    assert!(check_cover_bytes(&vec![0xff, 0xd8]).is_ok());
}

#[test]
fn provider_not_found_cover_errors_are_classified() {
    assert!(is_provider_not_found_error("provider item was not found"));
    assert!(!is_provider_not_found_error("provider network failed: offline"));
}

#[test]
fn app_paths_separate_config_data_and_cache_roots() {
    let root = "/tmp/rufin-path-layout";
    let cache = format!("{root}/cache");
    let config = format!("{root}/config");
    assert_eq!(
        app_cache_database_path_for_cache_dir(&cache),
        format!("{root}/cache/store/{CACHE_DATABASE_FILE_NAME}")
    );
    assert_eq!(
        app_settings_path_for_config_dir(&config),
        format!("{root}/config/{SETTINGS_FILE_NAME}")
    );
    assert_eq!(cover_cache_dir_for_cache_dir(&cache), format!("{root}/cache/covers"));
    assert_eq!(lyrics_cache_dir_for_cache_dir(&cache), format!("{root}/cache/lyrics"));
    assert_eq!(playback_cache_dir_for_cache_dir(&cache), format!("{root}/cache/playback"));
    assert_eq!(tmp_cache_dir_for_cache_dir(&cache), format!("{root}/cache/tmp"));
    assert_eq!(
        app_cache_database_path(&Some(cache.clone())),
        app_cache_database_path_for_cache_dir(&cache)
    );
}

#[test]
fn app_cache_layout_creates_expected_subdirs_without_playlist_folder() {
    let dirs = app_cache_dirs("/root");
    assert!(dirs.contains(&text("/root/store")));
    assert!(dirs.contains(&text("/root/covers")));
    assert!(dirs.contains(&text("/root/lyrics")));
    assert!(dirs.contains(&text("/root/playback")));
    assert!(dirs.contains(&text("/root/tmp")));
    assert!(!dirs.contains(&text("/root/playlists")));
}

#[test]
fn local_cover_request_fetches_provider_artwork_when_cache_missing() {
    let mut store = open_memory();
    let local = rufin::cached_reads::local_source_saved();
    let image_ref = image("local:cover:file%3A%2F%2Fcover.jpg", None);
    store.save_server(&local).expect("seed local server");
    store.set_active_server(&local.server.id).expect("seed local server");
    let mut world = World::over(store);
    let key = world.controller.cover_key(&image_ref, 256).expect("cover key");

    world.controller.request_cover_for_key(key.clone(), image_ref.clone(), 256, &Vec::new());

    let asked = world.controller.drain_effects();
    assert_eq!(
        asked,
        vec![Effect::FetchCover {
            key: key.clone(),
            saved: local.clone(),
            image_ref: image_ref.clone(),
            size: 256,
        }]
    );
    assert!(matches!(
        cover_source(&local, &image_ref, &AppSettings::default()),
        Ok(CoverSource::Files)
    ));
    world.controller.cover_fetched(key.clone(), &local, &image_ref, 256, text(COVER));
    assert_eq!(wait_for_cover_ready(&mut world, &key), COVER);
    world.controller.request_cover_for_key(key.clone(), image_ref, 256, &there());
    assert_eq!(wait_for_cover_ready(&mut world, &key), COVER);
    assert_eq!(fetches(&mut world), 0);
}

#[test]
fn images_are_looked_for_again_while_that_is_wanted() {
    let mut world = World::fake();
    world.controller.retry_external_cover_lookups().expect("retry");
    let asked = world.controller.drain_effects();
    let [Effect::PrefetchExternalCovers { saved, retry_generation }] = &asked[..] else {
        panic!("images are looked for");
    };
    assert_eq!(saved.server.id, world.server_id());
    assert!(world.controller.cover_prefetch_is_current(*retry_generation));
    assert!(!world.controller.cover_prefetch_is_current(retry_generation + 1));
}
