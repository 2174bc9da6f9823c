//! Playlists, favorites, folders, search and the details of a library.

use rufin::controller::AppController;
use rufin::model::events::{ControllerEvent, Effect, FavoriteItemId};
use rufin::model::ids::{AlbumId, ArtistId, PlaylistId, QueueEntryId, ServerId, TrackId};
use rufin::model::library::{Album, Artist, ImageRef, Track};
use rufin::model::lyrics::Lyrics;
use rufin::model::playback::{
    PlaybackCommand, PlaybackEvent, PlaybackSnapshot, PlaybackState, StreamDescriptor,
};
use rufin::model::queue::{QueueEntry, QueueSnapshot};
use rufin::model::settings::AppSettings;
use rufin::model::snapshot::LibrarySnapshot;
use rufin::model::source::{SavedServer, ServerIdentity};
use rufin::model::store::Store;
use rufin::store::{no_tokens, open_memory};
use rufin::controller::library_commands::NO_PLAYLIST;
use rufin::library_details::{
    apply_artist_album_fallback_image_refs, normalize_artist_detail_image_refs,
};
use rufin::model::events::{FolderDetail, FolderPathItem};
use rufin::model::ids::FolderId;
use rufin::model::library::CachedArtistDetail;
use rufin::playlists::grouped_cover_refs_for_items;

#[allow(dead_code)]
fn text(value: &str) -> String {
    value.to_string()
}

#[allow(dead_code)]
fn track_id(value: &str) -> TrackId {
    TrackId { value: text(value) }
}

#[allow(dead_code)]
fn album_id(value: &str) -> AlbumId {
    AlbumId { value: text(value) }
}

#[allow(dead_code)]
fn artist_id(value: &str) -> ArtistId {
    ArtistId { value: text(value) }
}

#[allow(dead_code)]
fn fake_track_id(number: u32) -> TrackId {
    TrackId { value: format!("fake:track:{number}") }
}

#[allow(dead_code)]
fn fake_album_id(number: u32) -> AlbumId {
    AlbumId { value: format!("fake:album:{number}") }
}

#[allow(dead_code)]
fn fake_artist_id(number: u32) -> ArtistId {
    ArtistId { value: format!("fake:artist:{number}") }
}

#[allow(dead_code)]
fn image(item_id: &str, tag: Option<&str>) -> ImageRef {
    ImageRef { item_id: text(item_id), tag: tag.map(text) }
}

#[allow(dead_code)]
fn external_settings() -> AppSettings {
    AppSettings { external_metadata_enabled: true, ..AppSettings::default() }
}

#[allow(dead_code)]
fn blank_track() -> Track {
    Track {
        id: track_id("track-one"),
        album_id: album_id("album-one"),
        title: text("Track"),
        artist: text("Artist"),
        artist_id: None,
        artist_credits: Vec::new(),
        album_artist_credits: Vec::new(),
        album: text("Album"),
        year: 2011,
        release_date: None,
        date_added: None,
        last_played: None,
        play_count: None,
        user_rating: None,
        duration_seconds: 60,
        favorite: false,
        disc_number: 1,
        track_number: 1,
        image_ref: None,
        genres: Vec::new(),
        musicbrainz_recording_id: None,
        musicbrainz_release_track_id: None,
        local_path: None,
        source_format: None,
        comment: None,
        skip_count: None,
        from_cue: false,
    }
}

#[allow(dead_code)]
fn blank_album() -> Album {
    Album {
        id: album_id("album-one"),
        title: text("Album"),
        artist: text("Artist"),
        artist_id: None,
        album_artist_credits: Vec::new(),
        artist_credits: Vec::new(),
        year: 2011,
        release_date: None,
        date_added: None,
        last_played: None,
        play_count: None,
        user_rating: None,
        track_count: 1,
        duration_seconds: 60,
        favorite: false,
        color_seed: 1,
        image_ref: None,
        genres: Vec::new(),
        release_types: Vec::new(),
        is_compilation: None,
        musicbrainz_album_id: None,
        musicbrainz_release_group_id: None,
    }
}

#[allow(dead_code)]
fn blank_artist(id: &str, name: &str) -> Artist {
    Artist {
        id: artist_id(id),
        name: text(name),
        album_count: 1,
        track_count: 1,
        favorite: false,
        last_played: None,
        play_count: None,
        user_rating: None,
        image_ref: None,
    }
}

#[allow(dead_code)]
fn blank_entry() -> QueueEntry {
    QueueEntry {
        id: QueueEntryId { value: text("entry-one") },
        track_id: track_id("track-one"),
        album_id: Some(album_id("album-one")),
        title: text("Track"),
        artist: text("Artist"),
        artist_id: None,
        album: text("Album"),
        year: 2011,
        duration_seconds: 60,
        favorite: false,
        image_ref: None,
        local_path: None,
        source_format: None,
        origin: None,
    }
}
/// Where the random sequence of a [`World`] begins.
#[allow(dead_code)]
const RANDOM_SEED: u64 = 7;


/// A controller with a player and servers that answer at once.
#[allow(dead_code)]
struct World {
    controller: AppController,
    events: Vec<ControllerEvent>,
    commands: Vec<PlaybackCommand>,
    effects: Vec<Effect>,
    pending: Vec<PlaybackEvent>,
    /// What the player refuses everything with, where it does.
    refusal: Option<String>,
}

#[allow(dead_code)]
impl World {
    fn over(store: Store) -> World {
        let begun = AppController::bootstrap(store, no_tokens(), RANDOM_SEED, false, None);
        World {
            controller: begun.controller,
            events: Vec::new(),
            commands: Vec::new(),
            effects: Vec::new(),
            pending: Vec::new(),
            refusal: None,
        }
    }

    fn fake() -> World {
        World::over(fake_store())
    }

    /// Answers what is asked for, until nothing more is.
    fn settle(&mut self) {
        loop {
            self.events.extend(self.controller.drain_events());
            let effects = self.controller.drain_effects();
            if effects.is_empty() {
                return;
            }
            for effect in effects {
                self.answer(effect);
            }
        }
    }

    fn answer(&mut self, effect: Effect) {
        self.effects.push(effect.clone());
        let controller = &mut self.controller;
        match effect {
            Effect::Playback(command) => {
                self.commands.push(command.clone());
                match self.refusal.clone() {
                    Some(error) => controller.command_rejected(command, error),
                    None => controller.command_accepted(command),
                }
            }
            Effect::PlayStream { request, stream, command } => {
                self.commands.push(command.clone());
                match self.refusal.clone() {
                    Some(error) => controller.command_rejected(command, error),
                    None => {
                        self.pending.push(PlaybackEvent::StateChanged(PlaybackState::Playing));
                        controller.current_stream_accepted(&request, stream);
                    }
                }
            }
            Effect::StopPlayer => self.commands.push(PlaybackCommand::Stop),
            Effect::ResolveCurrent(request) => {
                let stream = fake_stream(&request.entry.track_id);
                controller.current_stream_resolved(request, stream);
            }
            Effect::ResolveNext(request) => {
                let stream = fake_stream(&request.next_entry.track_id);
                let _sent = controller.next_stream_resolved(&request, stream);
            }
            Effect::TopUpQueue => controller.top_up_queue(),
            Effect::PersistQueue { generation, snapshot } => {
                controller.persist_queue_now(generation, &snapshot)
            }
            Effect::ReadSidecarLyrics { server_id, entry, use_cache, search, providers, .. } => {
                controller.sidecar_lyrics_read(
                    &server_id,
                    &entry,
                    use_cache,
                    search,
                    &providers,
                    &None,
                )
            }
            Effect::FetchServerLyrics { saved, entry, search, providers } => {
                controller.server_lyrics_missing(
                    &saved.server.id,
                    &entry,
                    search,
                    &providers,
                    None,
                )
            }
            Effect::FetchExternalLyrics { server_id, server_error, .. } => {
                controller.external_lyrics_fetched(&server_id, None, server_error)
            }
            Effect::MatchLocalTracks { server_id, .. } => {
                controller.local_tracks_read(&server_id, &None)
            }
            Effect::ClearDiskCovers { server_id, next } => {
                controller.disk_covers_cleared(&server_id, next)
            }
            _ => {}
        }
    }

    /// Lets the player tell what it has to.
    fn poll(&mut self) {
        self.settle();
        let events = std::mem::take(&mut self.pending);
        self.controller.poll_playback_events(events);
        self.settle();
    }

    fn poll_with(&mut self, events: Vec<PlaybackEvent>) {
        self.controller.poll_playback_events(events);
        self.settle();
    }

    /// The first of the events not looked at yet that is wanted; those before it are dropped.
    fn wait<T>(&mut self, mut wanted: impl FnMut(&ControllerEvent) -> Option<T>) -> T {
        self.settle();
        while !self.events.is_empty() {
            let event = self.events.remove(0);
            if let Some(found) = wanted(&event) {
                return found;
            }
        }
        panic!("no such event");
    }

    fn wait_for_queue(&mut self) -> QueueSnapshot {
        self.wait(|event| match event {
            ControllerEvent::Queue(Some(queue)) => Some(queue.clone()),
            _ => None,
        })
    }

    fn wait_for_snapshot(&mut self) -> LibrarySnapshot {
        self.wait(|event| match event {
            ControllerEvent::Snapshot(snapshot) => Some(snapshot.clone()),
            _ => None,
        })
    }

    fn wait_for_status(&mut self) -> String {
        self.wait(|event| match event {
            ControllerEvent::LoginStatus(status) => Some(status.clone()),
            _ => None,
        })
    }

    fn wait_for_error(&mut self) -> String {
        self.wait(|event| match event {
            ControllerEvent::Error(error) => Some(error.clone()),
            _ => None,
        })
    }

    fn wait_for_lyrics(&mut self) -> Option<Lyrics> {
        self.wait(|event| match event {
            ControllerEvent::Lyrics(lyrics) => Some(lyrics.clone()),
            _ => None,
        })
    }

    fn wait_for_player(&mut self, wanted: impl Fn(&PlaybackSnapshot) -> bool) -> PlaybackSnapshot {
        self.wait(|event| match event {
            ControllerEvent::Playback(player) if wanted(player) => Some(player.clone()),
            _ => None,
        })
    }

    fn wait_for_state(&mut self, state: PlaybackState) -> PlaybackSnapshot {
        self.poll();
        self.wait_for_player(|player| player.state == state)
    }

    fn wait_for_position(&mut self, millis: u64) -> PlaybackSnapshot {
        self.wait_for_player(|player| player.position_millis == millis)
    }

    fn wait_for_favorite(&mut self) -> (FavoriteItemId, bool, LibrarySnapshot) {
        self.wait(|event| match event {
            ControllerEvent::FavoriteChanged { item_id, favorite, snapshot } => {
                Some((item_id.clone(), *favorite, snapshot.clone()))
            }
            _ => None,
        })
    }

    fn wait_for_playlist(&mut self) -> (PlaylistId, LibrarySnapshot) {
        self.wait(|event| match event {
            ControllerEvent::PlaylistChanged { playlist_id, snapshot } => {
                Some((playlist_id.clone(), snapshot.clone()))
            }
            _ => None,
        })
    }

    fn server_id(&self) -> ServerId {
        self.controller.store().shown().expect("a source is shown").server.id
    }

    fn tracks(&self) -> Vec<Track> {
        self.controller.store().library(&self.server_id()).tracks
    }

    fn queue(&self) -> QueueSnapshot {
        self.controller.queue_snapshot().expect("queue")
    }
}

#[allow(dead_code)]
fn fake_stream(track_id: &TrackId) -> StreamDescriptor {
    let uri = format!("fake://local/stream/{}", track_id.value);
    StreamDescriptor { redacted_uri: uri.clone(), uri }
}

#[allow(dead_code)]
fn saved(id: &str, provider: &str) -> SavedServer {
    SavedServer {
        server: ServerIdentity {
            id: ServerId { value: text(id) },
            provider: text(provider),
            name: text("Test Server"),
            base_url: text("https://music.example"),
        },
        user_id: text("user"),
        username: text("demo"),
        trust_invalid_cert: false,
    }
}

/// A store with one source of many albums and tracks, whose library was read.
#[allow(dead_code)]
fn fake_store() -> Store {
    let mut store = open_memory();
    let server = saved("fake:server:1", "fake");
    let id = server.server.id.clone();
    let albums = (1..=8)
        .map(|number: u32| Album {
            id: fake_album_id(number),
            title: format!("Album {number}"),
            artist: format!("Artist {}", number % 4),
            artist_id: Some(fake_artist_id(number % 4)),
            ..blank_album()
        })
        .collect::<Vec<_>>();
    let tracks = (1..=40)
        .map(|number: u32| Track {
            id: fake_track_id(number),
            album_id: fake_album_id(1 + number % 8),
            title: format!("Track {number}"),
            artist: format!("Artist {}", number % 4),
            artist_id: Some(fake_artist_id(number % 4)),
            album: format!("Album {}", 1 + number % 8),
            duration_seconds: 180 + number,
            favorite: number % 5 == 1,
            genres: vec![text(if number % 2 == 0 { "Rock" } else { "Jazz" })],
            ..blank_track()
        })
        .collect::<Vec<_>>();
    store.save_server(&server).expect("save server");
    store.set_active_server(&id).expect("set active");
    let generation = store.begin_sync(&id).expect("begin sync");
    store.upsert_albums(&id, &albums).expect("albums");
    store.upsert_tracks(&id, &tracks).expect("tracks");
    store.complete_sync(&id, generation).expect("complete sync");
    store
}

#[allow(dead_code)]
fn restored_track() -> Track {
    Track {
        id: track_id("jellyfin:track:lyrics"),
        album_id: fake_album_id(1),
        title: text("Restored Track"),
        artist: text("Artist"),
        artist_id: Some(fake_artist_id(1)),
        album: text("Album"),
        year: 2026,
        duration_seconds: 180,
        ..blank_track()
    }
}

#[allow(dead_code)]
fn entry_track_ids(queue: &QueueSnapshot) -> Vec<TrackId> {
    queue.entries.iter().map(|entry| entry.track_id.clone()).collect()
}

#[allow(dead_code)]
fn current_track_id(queue: &QueueSnapshot) -> TrackId {
    queue.entries[queue.current_index.expect("current")].track_id.clone()
}

fn test_image_ref(number: u32) -> ImageRef {
    image(&format!("image-{number}"), None)
}

fn library_album(number: u32, artist: &str, title: &str, image_ref: Option<ImageRef>) -> Album {
    Album {
        id: fake_album_id(number),
        title: text(title),
        artist: text(artist),
        artist_id: Some(fake_artist_id(1)),
        image_ref,
        ..blank_album()
    }
}

fn library_track(number: u32, image_ref: Option<ImageRef>) -> Track {
    Track {
        id: fake_track_id(number),
        album_id: fake_album_id(number),
        artist: text("Example Artist"),
        image_ref,
        ..blank_track()
    }
}

fn playlist_order(world: &World, playlist_id: &PlaylistId) -> Vec<TrackId> {
    let detail = world
        .controller
        .cached_playlist_detail(playlist_id)
        .expect("playlist detail")
        .expect("playlist detail");
    detail.entries.iter().map(|entry| entry.track.id.clone()).collect()
}

fn entry_at(world: &World, playlist_id: &PlaylistId, index: usize) -> String {
    let detail = world
        .controller
        .cached_playlist_detail(playlist_id)
        .expect("playlist detail")
        .expect("playlist detail");
    detail.entries[index].entry_id.clone()
}

#[test]
fn fake_playlist_mutations_create_move_and_remove_entries() {
    let mut world = World::fake();
    let tracks = world.tracks();
    let (first, second, third) = (tracks[0].clone(), tracks[1].clone(), tracks[2].clone());
    world.controller.create_playlist(
        text("Controller Playlist"),
        vec![first.clone(), second.clone()],
        1,
    );
    let snapshot = world.wait_for_snapshot();
    let playlist = snapshot
        .playlists
        .iter()
        .find(|playlist| playlist.name == "Controller Playlist")
        .expect("created playlist")
        .clone();
    assert_eq!(
        playlist_order(&world, &playlist.id),
        vec![first.id.clone(), second.id.clone()]
    );
    let entry = entry_at(&world, &playlist.id, 1);
    world.controller.move_playlist_entry(&playlist.id, entry, 0);
    let (changed_id, _snapshot) = world.wait_for_playlist();
    assert_eq!(changed_id, playlist.id);
    assert_eq!(
        playlist_order(&world, &playlist.id),
        vec![second.id.clone(), first.id.clone()]
    );
    world.controller.add_tracks_to_playlist(&playlist.id, vec![third.clone()], 2);
    let (changed_id, _snapshot) = world.wait_for_playlist();
    assert_eq!(changed_id, playlist.id);
    assert_eq!(
        playlist_order(&world, &playlist.id),
        vec![second.id.clone(), first.id.clone(), third.id.clone()]
    );
    let entry = entry_at(&world, &playlist.id, 0);
    world.controller.remove_playlist_entry(&playlist.id, entry);
    let (changed_id, _snapshot) = world.wait_for_playlist();
    assert_eq!(changed_id, playlist.id);
    assert_eq!(
        playlist_order(&world, &playlist.id),
        vec![first.id.clone(), third.id.clone()]
    );
    world.controller.rename_playlist(playlist.id.clone(), text(" Renamed "));
    let snapshot = world.wait_for_snapshot();
    assert!(snapshot
        .playlists
        .iter()
        .any(|renamed| renamed.id == playlist.id && renamed.name == "Renamed"));
}

#[test]
fn playlists_that_are_gone_cannot_be_edited() {
    let mut world = World::fake();
    let gone = PlaylistId { value: text("gone") };
    world.controller.remove_playlist_entry(&gone, text("entry"));
    assert_eq!(world.wait_for_error(), NO_PLAYLIST);
}

#[test]
fn playlist_edits_of_servers_are_asked_for_as_differences() {
    let mut store = open_memory();
    let remote = saved("jellyfin:server:test", "jellyfin");
    store.save_server(&remote).expect("save server");
    store.set_active_server(&remote.server.id).expect("set active");
    let mut world = World::over(store);
    let (first, second) = (library_track(1, None), library_track(2, None));
    world
        .controller
        .create_playlist(text("List"), vec![first.clone(), second.clone()], 1);
    assert!(matches!(
        world.controller.drain_effects().as_slice(),
        [Effect::CreatePlaylist { name, .. }] if name == "List"
    ));
    let id = PlaylistId { value: text("jellyfin:playlist:1") };
    world.controller.playlist_created(&remote, id.clone(), "List", &vec![first, second], 1);
    let entry = entry_at(&world, &id, 0);
    world.controller.remove_playlist_entry(&id, entry.clone());
    let effects = world.controller.drain_effects();
    let mutation = match &effects[0] {
        Effect::MutatePlaylist { mutation, .. } => mutation.clone(),
        _ => panic!("no mutation"),
    };
    assert_eq!(mutation.playlist_id, id);
    assert_eq!(mutation.removed, vec![entry]);
    assert!(mutation.added.is_empty());
    assert_eq!(playlist_order(&world, &id).len(), 2);
}

#[test]
fn controller_events_are_sendable() {
    fn assert_send<T: Send>() {}
    assert_send::<ControllerEvent>();
}

#[test]
fn grouped_cover_refs_keep_one_unique_cover_full_size() {
    let cover = test_image_ref(1);
    let albums = vec![library_album(1, "Example Artist", "Example Album", Some(cover.clone()))];
    let refs = grouped_cover_refs_for_items(&albums, &Vec::new());
    assert_eq!(refs, vec![cover]);
}

#[test]
fn grouped_cover_refs_deduplicate_and_limit_to_four() {
    let first = test_image_ref(1);
    let second = test_image_ref(2);
    let third = test_image_ref(3);
    let fourth = test_image_ref(4);
    let fifth = test_image_ref(5);
    let albums = vec![
        library_album(1, "Example Artist", "First", Some(first.clone())),
        library_album(2, "Example Artist", "Duplicate", Some(first.clone())),
        library_album(3, "Example Artist", "Second", Some(second.clone())),
    ];
    let tracks = vec![
        library_track(1, Some(third.clone())),
        library_track(2, Some(fourth.clone())),
        library_track(3, Some(fifth)),
    ];
    let refs = grouped_cover_refs_for_items(&albums, &tracks);
    assert_eq!(refs, vec![first, second, third, fourth]);
}

#[test]
fn artist_detail_fallback_uses_external_album_image_after_normalization() {
    let mut detail = CachedArtistDetail {
        artist: blank_artist("fake:artist:1", "Example Artist"),
        albums: vec![library_album(1, "Example Artist", "Example Album", None)],
        appears_on: Vec::new(),
        tracks: Vec::new(),
    };
    normalize_artist_detail_image_refs(&mut detail, &external_settings());
    let image_ref = detail.artist.image_ref.expect("artist fallback image ref");
    assert!(image_ref.item_id.starts_with("external:album:"));
    assert!(image_ref.item_id.contains("Example%20Artist:Example%20Album"));
}

#[test]
fn artist_collection_fallback_uses_external_album_image_after_normalization() {
    let mut artists = vec![blank_artist("fake:artist:1", "Example Artist")];
    let fallback_albums = vec![library_album(1, "Example Artist", "Example Album", None)];

    apply_artist_album_fallback_image_refs(&mut artists, &fallback_albums, &external_settings());

    let image_ref = artists[0].image_ref.as_ref().expect("artist fallback image ref");
    assert!(image_ref.item_id.starts_with("external:album:"));
    assert!(image_ref.item_id.contains("Example%20Artist:Example%20Album"));
}

#[test]
fn search_finds_words_whatever_their_case() {
    let mut world = World::fake();
    world.controller.search("TRACK 40");
    let snapshot = world.wait_for_snapshot();
    assert_eq!(snapshot.search.tracks.len(), 1);
    assert_eq!(snapshot.search.tracks[0].id, fake_track_id(40));
    assert!(snapshot.search.albums.is_empty());
}

#[test]
fn folders_are_told_to_whom_they_were_asked_for() {
    let mut world = World::fake();
    let shown = world.controller.store().shown().expect("source");
    let path =
        vec![FolderPathItem { id: FolderId { value: text("folder") }, name: text("Folder") }];
    world.controller.load_folder_for_active(3, path.clone());
    assert!(matches!(
        world.controller.drain_effects().as_slice(),
        [Effect::LoadFolder { request_id: 3, .. }]
    ));
    let detail = FolderDetail { folders: Vec::new(), tracks: vec![library_track(1, None)] };
    world.controller.folder_loaded(&shown, 3, path.clone(), detail);
    let count = world.wait(|event| match event {
        ControllerEvent::FolderLoaded { request_id: 3, detail, .. } => Some(detail.tracks.len()),
        _ => None,
    });
    assert_eq!(count, 1);
    world.controller.folder_load_failed(4, path, text("offline"));
    let error = world.wait(|event| match event {
        ControllerEvent::FolderLoadFailed { request_id: 4, error, .. } => Some(error.clone()),
        _ => None,
    });
    assert_eq!(error, "offline");
}
