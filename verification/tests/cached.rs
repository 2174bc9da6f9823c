//! What is read of the library that is kept, and how its images are shown.

use rufin::controller::AppController;
use rufin::model::events::{ControllerEvent, Effect, FavoriteItemId};
use rufin::model::ids::{AlbumId, ArtistId, PlaylistId, QueueEntryId, ServerId, TrackId};
use rufin::model::library::{Album, Artist, ImageRef, Track};
use rufin::model::lyrics::Lyrics;
use rufin::model::playback::{
    PlaybackCommand, PlaybackEvent, PlaybackSnapshot, PlaybackState, StreamDescriptor,
};
use rufin::model::queue::{QueueEntry, QueueSnapshot};
use rufin::model::settings::AppSettings;
use rufin::model::snapshot::LibrarySnapshot;
use rufin::model::source::{SavedServer, ServerIdentity};
use rufin::model::store::Store;
use rufin::store::{no_tokens, open_memory};
use rufin::app_paths::{app_settings_path, SETTINGS_FILE_NAME};
use rufin::cover_art_policy::{
    bind_album_detail, bind_home_sections, bind_playlist_detail, bind_queue_snapshot,
    bind_search_results,
};
use rufin::external_metadata::normalize_queue_snapshot;
use rufin::model::ids::{GenreId, MusicFolderId, SmartPlaylistId};
use rufin::model::library::{
    Genre, HomeSection, HomeSectionKind, Playlist, PlaylistDetail, PlaylistEntry, SearchResults,
    SmartPlaylist, SmartPlaylistBuiltin, SmartPlaylistDetail,
};
use rufin::model::store::LookupMiss;
use rufin::queue::QueueEngine;
use rufin::text::{decode_bytes, normalize_search_text, trim};

#[allow(dead_code)]
fn text(value: &str) -> String {
    value.to_string()
}

#[allow(dead_code)]
fn track_id(value: &str) -> TrackId {
    TrackId { value: text(value) }
}

#[allow(dead_code)]
fn album_id(value: &str) -> AlbumId {
    AlbumId { value: text(value) }
}

#[allow(dead_code)]
fn artist_id(value: &str) -> ArtistId {
    ArtistId { value: text(value) }
}

#[allow(dead_code)]
fn fake_track_id(number: u32) -> TrackId {
    TrackId { value: format!("fake:track:{number}") }
}

#[allow(dead_code)]
fn fake_album_id(number: u32) -> AlbumId {
    AlbumId { value: format!("fake:album:{number}") }
}

#[allow(dead_code)]
fn fake_artist_id(number: u32) -> ArtistId {
    ArtistId { value: format!("fake:artist:{number}") }
}

#[allow(dead_code)]
fn image(item_id: &str, tag: Option<&str>) -> ImageRef {
    ImageRef { item_id: text(item_id), tag: tag.map(text) }
}

#[allow(dead_code)]
fn external_settings() -> AppSettings {
    AppSettings { external_metadata_enabled: true, ..AppSettings::default() }
}

#[allow(dead_code)]
fn blank_track() -> Track {
    Track {
        id: track_id("track-one"),
        album_id: album_id("album-one"),
        title: text("Track"),
        artist: text("Artist"),
        artist_id: None,
        artist_credits: Vec::new(),
        album_artist_credits: Vec::new(),
        album: text("Album"),
        year: 2011,
        release_date: None,
        date_added: None,
        last_played: None,
        play_count: None,
        user_rating: None,
        duration_seconds: 60,
        favorite: false,
        disc_number: 1,
        track_number: 1,
        image_ref: None,
        genres: Vec::new(),
        musicbrainz_recording_id: None,
        musicbrainz_release_track_id: None,
        local_path: None,
        source_format: None,
        comment: None,
        skip_count: None,
        from_cue: false,
    }
}

#[allow(dead_code)]
fn blank_album() -> Album {
    Album {
        id: album_id("album-one"),
        title: text("Album"),
        artist: text("Artist"),
        artist_id: None,
        album_artist_credits: Vec::new(),
        artist_credits: Vec::new(),
        year: 2011,
        release_date: None,
        date_added: None,
        last_played: None,
        play_count: None,
        user_rating: None,
        track_count: 1,
        duration_seconds: 60,
        favorite: false,
        color_seed: 1,
        image_ref: None,
        genres: Vec::new(),
        release_types: Vec::new(),
        is_compilation: None,
        musicbrainz_album_id: None,
        musicbrainz_release_group_id: None,
    }
}

#[allow(dead_code)]
fn blank_artist(id: &str, name: &str) -> Artist {
    Artist {
        id: artist_id(id),
        name: text(name),
        album_count: 1,
        track_count: 1,
        favorite: false,
        last_played: None,
        play_count: None,
        user_rating: None,
        image_ref: None,
    }
}

#[allow(dead_code)]
fn blank_entry() -> QueueEntry {
    QueueEntry {
        id: QueueEntryId { value: text("entry-one") },
        track_id: track_id("track-one"),
        album_id: Some(album_id("album-one")),
        title: text("Track"),
        artist: text("Artist"),
        artist_id: None,
        album: text("Album"),
        year: 2011,
        duration_seconds: 60,
        favorite: false,
        image_ref: None,
        local_path: None,
        source_format: None,
        origin: None,
    }
}
/// Where the random sequence of a [`World`] begins.
#[allow(dead_code)]
const RANDOM_SEED: u64 = 7;


/// A controller with a player and servers that answer at once.
#[allow(dead_code)]
struct World {
    controller: AppController,
    events: Vec<ControllerEvent>,
    commands: Vec<PlaybackCommand>,
    effects: Vec<Effect>,
    pending: Vec<PlaybackEvent>,
    /// What the player refuses everything with, where it does.
    refusal: Option<String>,
}

#[allow(dead_code)]
impl World {
    fn over(store: Store) -> World {
        let begun = AppController::bootstrap(store, no_tokens(), RANDOM_SEED, false, None);
        World {
            controller: begun.controller,
            events: Vec::new(),
            commands: Vec::new(),
            effects: Vec::new(),
            pending: Vec::new(),
            refusal: None,
        }
    }

    fn fake() -> World {
        World::over(fake_store())
    }

    /// Answers what is asked for, until nothing more is.
    fn settle(&mut self) {
        loop {
            self.events.extend(self.controller.drain_events());
            let effects = self.controller.drain_effects();
            if effects.is_empty() {
                return;
            }
            for effect in effects {
                self.answer(effect);
            }
        }
    }

    fn answer(&mut self, effect: Effect) {
        self.effects.push(effect.clone());
        let controller = &mut self.controller;
        match effect {
            Effect::Playback(command) => {
                self.commands.push(command.clone());
                match self.refusal.clone() {
                    Some(error) => controller.command_rejected(command, error),
                    None => controller.command_accepted(command),
                }
            }
            Effect::PlayStream { request, stream, command } => {
                self.commands.push(command.clone());
                match self.refusal.clone() {
                    Some(error) => controller.command_rejected(command, error),
                    None => {
                        self.pending.push(PlaybackEvent::StateChanged(PlaybackState::Playing));
                        controller.current_stream_accepted(&request, stream);
                    }
                }
            }
            Effect::StopPlayer => self.commands.push(PlaybackCommand::Stop),
            Effect::ResolveCurrent(request) => {
                let stream = fake_stream(&request.entry.track_id);
                controller.current_stream_resolved(request, stream);
            }
            Effect::ResolveNext(request) => {
                let stream = fake_stream(&request.next_entry.track_id);
                let _sent = controller.next_stream_resolved(&request, stream);
            }
            Effect::TopUpQueue => controller.top_up_queue(),
            Effect::PersistQueue { generation, snapshot } => {
                controller.persist_queue_now(generation, &snapshot)
            }
            Effect::ReadSidecarLyrics { server_id, entry, use_cache, search, providers, .. } => {
                controller.sidecar_lyrics_read(
                    &server_id,
                    &entry,
                    use_cache,
                    search,
                    &providers,
                    &None,
                )
            }
            Effect::FetchServerLyrics { saved, entry, search, providers } => {
                controller.server_lyrics_missing(
                    &saved.server.id,
                    &entry,
                    search,
                    &providers,
                    None,
                )
            }
            Effect::FetchExternalLyrics { server_id, server_error, .. } => {
                controller.external_lyrics_fetched(&server_id, None, server_error)
            }
            Effect::MatchLocalTracks { server_id, .. } => {
                controller.local_tracks_read(&server_id, &None)
            }
            Effect::ClearDiskCovers { server_id, next } => {
                controller.disk_covers_cleared(&server_id, next)
            }
            _ => {}
        }
    }

    /// Lets the player tell what it has to.
    fn poll(&mut self) {
        self.settle();
        let events = std::mem::take(&mut self.pending);
        self.controller.poll_playback_events(events);
        self.settle();
    }

    fn poll_with(&mut self, events: Vec<PlaybackEvent>) {
        self.controller.poll_playback_events(events);
        self.settle();
    }

    /// The first of the events not looked at yet that is wanted; those before it are dropped.
    fn wait<T>(&mut self, mut wanted: impl FnMut(&ControllerEvent) -> Option<T>) -> T {
        self.settle();
        while !self.events.is_empty() {
            let event = self.events.remove(0);
            if let Some(found) = wanted(&event) {
                return found;
            }
        }
        panic!("no such event");
    }

    fn wait_for_queue(&mut self) -> QueueSnapshot {
        self.wait(|event| match event {
            ControllerEvent::Queue(Some(queue)) => Some(queue.clone()),
            _ => None,
        })
    }

    fn wait_for_snapshot(&mut self) -> LibrarySnapshot {
        self.wait(|event| match event {
            ControllerEvent::Snapshot(snapshot) => Some(snapshot.clone()),
            _ => None,
        })
    }

    fn wait_for_status(&mut self) -> String {
        self.wait(|event| match event {
            ControllerEvent::LoginStatus(status) => Some(status.clone()),
            _ => None,
        })
    }

    fn wait_for_error(&mut self) -> String {
        self.wait(|event| match event {
            ControllerEvent::Error(error) => Some(error.clone()),
            _ => None,
        })
    }

    fn wait_for_lyrics(&mut self) -> Option<Lyrics> {
        self.wait(|event| match event {
            ControllerEvent::Lyrics(lyrics) => Some(lyrics.clone()),
            _ => None,
        })
    }

    fn wait_for_player(&mut self, wanted: impl Fn(&PlaybackSnapshot) -> bool) -> PlaybackSnapshot {
        self.wait(|event| match event {
            ControllerEvent::Playback(player) if wanted(player) => Some(player.clone()),
            _ => None,
        })
    }

    fn wait_for_state(&mut self, state: PlaybackState) -> PlaybackSnapshot {
        self.poll();
        self.wait_for_player(|player| player.state == state)
    }

    fn wait_for_position(&mut self, millis: u64) -> PlaybackSnapshot {
        self.wait_for_player(|player| player.position_millis == millis)
    }

    fn wait_for_favorite(&mut self) -> (FavoriteItemId, bool, LibrarySnapshot) {
        self.wait(|event| match event {
            ControllerEvent::FavoriteChanged { item_id, favorite, snapshot } => {
                Some((item_id.clone(), *favorite, snapshot.clone()))
            }
            _ => None,
        })
    }

    fn wait_for_playlist(&mut self) -> (PlaylistId, LibrarySnapshot) {
        self.wait(|event| match event {
            ControllerEvent::PlaylistChanged { playlist_id, snapshot } => {
                Some((playlist_id.clone(), snapshot.clone()))
            }
            _ => None,
        })
    }

    fn server_id(&self) -> ServerId {
        self.controller.store().shown().expect("a source is shown").server.id
    }

    fn tracks(&self) -> Vec<Track> {
        self.controller.store().library(&self.server_id()).tracks
    }

    fn queue(&self) -> QueueSnapshot {
        self.controller.queue_snapshot().expect("queue")
    }
}

#[allow(dead_code)]
fn fake_stream(track_id: &TrackId) -> StreamDescriptor {
    let uri = format!("fake://local/stream/{}", track_id.value);
    StreamDescriptor { redacted_uri: uri.clone(), uri }
}

#[allow(dead_code)]
fn saved(id: &str, provider: &str) -> SavedServer {
    SavedServer {
        server: ServerIdentity {
            id: ServerId { value: text(id) },
            provider: text(provider),
            name: text("Test Server"),
            base_url: text("https://music.example"),
        },
        user_id: text("user"),
        username: text("demo"),
        trust_invalid_cert: false,
    }
}

/// A store with one source of many albums and tracks, whose library was read.
#[allow(dead_code)]
fn fake_store() -> Store {
    let mut store = open_memory();
    let server = saved("fake:server:1", "fake");
    let id = server.server.id.clone();
    let albums = (1..=8)
        .map(|number: u32| Album {
            id: fake_album_id(number),
            title: format!("Album {number}"),
            artist: format!("Artist {}", number % 4),
            artist_id: Some(fake_artist_id(number % 4)),
            ..blank_album()
        })
        .collect::<Vec<_>>();
    let tracks = (1..=40)
        .map(|number: u32| Track {
            id: fake_track_id(number),
            album_id: fake_album_id(1 + number % 8),
            title: format!("Track {number}"),
            artist: format!("Artist {}", number % 4),
            artist_id: Some(fake_artist_id(number % 4)),
            album: format!("Album {}", 1 + number % 8),
            duration_seconds: 180 + number,
            favorite: number % 5 == 1,
            genres: vec![text(if number % 2 == 0 { "Rock" } else { "Jazz" })],
            ..blank_track()
        })
        .collect::<Vec<_>>();
    store.save_server(&server).expect("save server");
    store.set_active_server(&id).expect("set active");
    let generation = store.begin_sync(&id).expect("begin sync");
    store.upsert_albums(&id, &albums).expect("albums");
    store.upsert_tracks(&id, &tracks).expect("tracks");
    store.complete_sync(&id, generation).expect("complete sync");
    store
}

#[allow(dead_code)]
fn restored_track() -> Track {
    Track {
        id: track_id("jellyfin:track:lyrics"),
        album_id: fake_album_id(1),
        title: text("Restored Track"),
        artist: text("Artist"),
        artist_id: Some(fake_artist_id(1)),
        album: text("Album"),
        year: 2026,
        duration_seconds: 180,
        ..blank_track()
    }
}

#[allow(dead_code)]
fn entry_track_ids(queue: &QueueSnapshot) -> Vec<TrackId> {
    queue.entries.iter().map(|entry| entry.track_id.clone()).collect()
}

#[allow(dead_code)]
fn current_track_id(queue: &QueueSnapshot) -> TrackId {
    queue.entries[queue.current_index.expect("current")].track_id.clone()
}

fn empty_world() -> World {
    let mut world = World::over(open_memory());
    world.controller.store_mut().fault = Some(text("disk is gone"));
    world
}

fn playlist(id: &str, image_ref: Option<ImageRef>) -> Playlist {
    Playlist {
        id: PlaylistId { value: text(id) },
        name: text("List"),
        track_count: 1,
        duration_seconds: 60,
        image_refs: Vec::new(),
        image_ref,
    }
}

#[test]
fn albums_artists_and_genres_are_read_with_what_belongs_to_them() {
    let mut store = fake_store();
    let id = store.shown().expect("source").server.id;
    store
        .upsert_artists(&id, &vec![blank_artist("fake:artist:1", "Artist 1")], false)
        .expect("artists");
    let rock = Genre { id: GenreId { value: text("rock") }, name: text("Rock"), image_ref: None };
    store.upsert_genres(&id, &vec![rock.clone()]).expect("genres");
    let world = World::over(store);
    let controller = &world.controller;

    let (album, tracks) = controller
        .cached_album_detail(&fake_album_id(1))
        .expect("album")
        .expect("album");
    assert_eq!(album.id, fake_album_id(1));
    assert_eq!(tracks.len(), 5);
    assert!(tracks.iter().all(|track| track.album_id == fake_album_id(1)));
    assert_eq!(controller.cached_album_detail(&fake_album_id(99)), Ok(None));

    let lists = controller
        .cached_album_tracks(&vec![fake_album_id(2), fake_album_id(99)])
        .expect("album tracks");
    assert_eq!(lists.len(), 2);
    assert_eq!(lists[0].tracks.len(), 5);
    assert!(lists[1].tracks.is_empty());

    let artist = controller
        .cached_artist_detail(&fake_artist_id(1))
        .expect("artist")
        .expect("artist");
    assert_eq!(artist.artist.name, "Artist 1");
    assert_eq!(artist.albums.len(), 2);
    assert_eq!(artist.tracks.len(), 10);

    let genre = controller.cached_genre_detail(&rock.id).expect("genre").expect("genre");
    assert_eq!(genre.genre, rock);
    assert_eq!(genre.tracks.len(), 20);

    let (artists, total) = controller.cached_artists_page(false, 0, 10).expect("artists");
    assert_eq!((artists.len(), total), (1, 1));
    assert_eq!(controller.cached_artists_page(true, 0, 10), Ok((Vec::new(), 0)));
    let (genres, total) = controller.cached_genres_page(0, 10).expect("genres");
    assert_eq!((genres, total), (vec![rock], 1));
}

#[test]
fn pages_are_parts_of_what_matches() {
    let world = World::fake();
    let controller = &world.controller;
    let (albums, total) =
        controller.cached_albums_page_matching("album 3", 0, 10).expect("albums");
    assert_eq!((albums.len(), total), (1, 1));
    let (tracks, total) =
        controller.cached_tracks_page_matching("Track 1", 1, 3).expect("tracks");
    assert_eq!(total, 11);
    assert_eq!(tracks.len(), 3);
    assert_eq!(tracks[0].id, fake_track_id(10));
    let (none, total) = controller.cached_albums_page(100, 10).expect("albums");
    assert!(none.is_empty());
    assert_eq!(total, 8);
    assert_eq!(
        controller.cached_track(&fake_track_id(4)).expect("track").map(|track| track.id),
        Some(fake_track_id(4))
    );
    assert_eq!(controller.cached_track(&fake_track_id(400)), Ok(None));
    assert_eq!(
        controller.cached_artists_page_matching(false, "nobody", 0, 10),
        Ok((Vec::new(), 0))
    );
    assert_eq!(controller.cached_genres_page_matching("rock", 0, 10), Ok((Vec::new(), 0)));
    assert_eq!(controller.cached_playlists_page_matching("list", 0, 10), Ok((Vec::new(), 0)));
}

#[test]
fn smart_playlists_are_read_with_their_tracks() {
    let mut store = fake_store();
    let id = store.shown().expect("source").server.id;
    let tracks = vec![Track { id: fake_track_id(1), ..blank_track() }];
    let detail = SmartPlaylistDetail {
        playlist: SmartPlaylist {
            id: SmartPlaylistId { value: text("smart") },
            name: text("Smart"),
            builtin: Some(SmartPlaylistBuiltin::Favorites),
            image_ref: None,
        },
        tracks,
    };
    store.upsert_smart_playlists(&id, &vec![detail.clone()]).expect("smart playlists");
    let world = World::over(store);
    let controller = &world.controller;
    let (page, total) = controller.cached_smart_playlists_page(0, 10).expect("page");
    assert_eq!((page, total), (vec![detail.playlist.clone()], 1));
    let found = controller
        .cached_smart_playlist_detail(&detail.playlist.id)
        .expect("detail")
        .expect("detail");
    assert_eq!(found.tracks.len(), 1);
    let missing = controller.missing_builtin_smart_playlists().expect("missing");
    assert!(!missing.contains(&SmartPlaylistBuiltin::Favorites));
    assert!(!missing.is_empty());
}

#[test]
fn covers_of_playlists_come_from_their_tracks() {
    let mut store = fake_store();
    let id = store.shown().expect("source").server.id;
    let cover = image("cover", None);
    let track = Track {
        id: fake_track_id(90),
        image_ref: Some(cover.clone()),
        local_path: Some(text("/music/a.flac")),
        source_format: Some(text("flac")),
        ..blank_track()
    };
    let list = playlist("list", None);
    store.upsert_tracks(&id, &vec![track.clone()]).expect("tracks");
    store.upsert_playlists(&id, &vec![list.clone()]).expect("playlists");
    let entries = vec![PlaylistEntry { entry_id: text("entry"), track: track.clone() }];
    store.upsert_playlist_entries(&id, &list.id, &entries).expect("entries");
    let world = World::over(store);
    assert_eq!(world.controller.cached_playlist_cover_refs(&list.id), Ok(vec![cover]));
    assert_eq!(
        world.controller.cached_track_source_format(&track.id),
        Some(text("flac"))
    );
    assert_eq!(
        world.controller.cached_track_local_path(&track.id),
        Some(text("/music/a.flac"))
    );
}

#[test]
fn nothing_is_read_of_a_store_that_cannot_be_read() {
    let world = empty_world();
    let gone = Err(text("disk is gone"));
    assert_eq!(world.controller.cached_albums_page(0, 1), gone.clone());
    assert_eq!(
        world.controller.cached_playlist_detail(&playlist("list", None).id),
        Err(text("disk is gone"))
    );
    assert_eq!(world.controller.cached_track_local_path(&fake_track_id(1)), None);
}

#[test]
fn libraries_are_read_again_on_demand() {
    let mut store = open_memory();
    let remote = saved("jellyfin:server:test", "jellyfin");
    store.save_server(&remote).expect("save server");
    store.set_active_server(&remote.server.id).expect("set active");
    let mut world = World::over(store);
    world.controller.resync_server(&remote.server.id);
    assert_eq!(world.wait_for_status(), "Syncing Jellyfin library...");
    world.controller.start_background_sync_for_active();
    assert_eq!(world.wait_for_status(), "Sync already running.");
    world.controller.refresh_home_section_for_active(HomeSectionKind::Explore);
    world.controller.refresh_playlists_for_active();
    world.settle();
    assert!(!world.effects.iter().any(|effect| matches!(
        effect,
        Effect::RefreshHome { .. } | Effect::RefreshPlaylists(_)
    )));
    world.controller.sync_finished(&remote);
    world.controller.refresh_home_sections_without_explore_for_active();
    world.controller.refresh_playlists_for_active();
    world.controller.prefetch_explore_for_active();
    world.settle();
    assert!(world.effects.iter().any(|effect| matches!(effect, Effect::RefreshHome { .. })));
    assert!(world.effects.iter().any(|effect| matches!(effect, Effect::RefreshPlaylists(_))));
    assert!(world.effects.iter().any(|effect| matches!(effect, Effect::PrefetchExplore(_))));
    world.controller.resync_server(&ServerId { value: text("gone") });
    assert_eq!(world.wait_for_error(), "The selected server is no longer saved.");
}

#[test]
fn the_music_folder_that_is_shown_is_kept() {
    let mut world = World::fake();
    let id = world.server_id();
    let folder = MusicFolderId { value: text("folder") };
    world.controller.set_selected_music_folder(&id, Some(folder.clone()));
    let _snapshot = world.wait_for_snapshot();
    assert_eq!(
        world.controller.store().library(&id).selected_music_folder_id,
        Some(folder)
    );
}

#[test]
fn clearing_another_source_leaves_the_shown_one() {
    let mut world = World::fake();
    let other = saved("jellyfin:server:test", "jellyfin");
    world.controller.store_mut().save_server(&other).expect("save server");
    let albums = vec![Album { id: fake_album_id(70), ..blank_album() }];
    world.controller.store_mut().upsert_albums(&other.server.id, &albums).expect("albums");
    world.controller.clear_server_cache(&other.server.id);
    world.settle();
    assert!(world.controller.store().library(&other.server.id).albums.is_empty());
    assert_eq!(world.tracks().len(), 40);
}

#[test]
fn lookup_misses_are_kept_by_size() {
    let mut store = fake_store();
    let id = store.shown().expect("source").server.id;
    store
        .save_external_image_lookup_miss(
            &id,
            LookupMiss {
                item_id: text("item"),
                image_tag: text("tag"),
                size: 256,
                reason: text("none"),
            },
        )
        .expect("miss");
    assert_eq!(store.load_external_image_lookup_miss(&id, "item", "tag", 256), Ok(true));
    assert_eq!(store.load_external_image_lookup_miss(&id, "item", "tag", 96), Ok(false));
}

#[test]
fn images_are_bound_wherever_they_are_shown() {
    let settings = external_settings();
    let album = Album { title: text("Album"), artist: text("Artist"), ..blank_album() };
    let track = Track { album: text("Album"), artist: text("Artist"), ..blank_track() };

    let mut results = SearchResults {
        albums: vec![album.clone()],
        artists: Vec::new(),
        tracks: vec![track.clone()],
        playlists: Vec::new(),
    };
    bind_search_results(&mut results, &settings);
    assert!(results.albums[0].image_ref.is_some());
    assert!(results.tracks[0].image_ref.is_some());

    let mut sections = vec![HomeSection {
        kind: HomeSectionKind::Explore,
        albums: vec![album.clone()],
        tracks: Vec::new(),
    }];
    bind_home_sections(&mut sections, &settings);
    assert!(sections[0].albums[0].image_ref.is_some());

    let mut shown = album;
    let mut tracks = vec![track.clone()];
    bind_album_detail(&mut shown, &mut tracks, &settings);
    assert_eq!(tracks[0].image_ref, shown.image_ref);

    let mut detail = PlaylistDetail {
        playlist: playlist("list", Some(image("cover", None))),
        entries: vec![PlaylistEntry { entry_id: text("entry"), track: track.clone() }],
    };
    bind_playlist_detail(&mut detail, &settings);
    assert_eq!(detail.playlist.image_refs, vec![image("cover", None)]);

    let mut engine = QueueEngine::new(ServerId { value: text("server") });
    engine.play_now(&track);
    let mut bound = engine.snapshot();
    bind_queue_snapshot(&mut bound, &settings);
    assert!(bound.entries[0].image_ref.is_some());
    let mut normalized = bound.clone();
    normalize_queue_snapshot(&mut normalized, &AppSettings::default());
    assert_eq!(normalized.entries[0].image_ref, None);
}

#[test]
fn settings_lie_in_the_working_directory_without_a_better_place() {
    assert_eq!(app_settings_path(&None), SETTINGS_FILE_NAME);
    assert_eq!(
        app_settings_path(&Some(text("/config"))),
        format!("/config/{SETTINGS_FILE_NAME}")
    );
}

#[test]
fn texts_are_compared_without_case_and_marks() {
    assert_eq!(normalize_search_text("  The CURE - \u{c4}pfel! "), "the cure \u{e4}pfel");
    assert_eq!(trim("\u{2003} both \t"), "both");
    assert_eq!(decode_bytes(vec![0xc3, 0xa4]), Some(text("\u{e4}")));
    assert_eq!(decode_bytes(vec![0xc3]), None);
}
