//! Local files of tracks that a server streams.

use rufin::controller::AppController;
use rufin::model::events::{ControllerEvent, Effect, FavoriteItemId};
use rufin::model::ids::{AlbumId, ArtistId, PlaylistId, QueueEntryId, ServerId, TrackId};
use rufin::model::library::{Album, Artist, ImageRef, Track};
use rufin::model::lyrics::Lyrics;
use rufin::model::playback::{
    PlaybackCommand, PlaybackEvent, PlaybackSnapshot, PlaybackState, StreamDescriptor,
};
use rufin::model::queue::{QueueEntry, QueueSnapshot};
use rufin::model::settings::AppSettings;
use rufin::model::snapshot::LibrarySnapshot;
use rufin::model::source::{SavedServer, ServerIdentity};
use rufin::model::store::Store;
use rufin::store::{no_tokens, open_memory};
use rufin::cached_reads::{load_snapshot, local_source_saved};
use rufin::local_access::{
    conservative_local_matches, durations_close, first_present_path, join_path,
    lyrics_path_for_audio, map_server_path_to_local,
};
use rufin::model::source::{ServerLocalAccess, TrackLocalMatch};
use rufin::streams::{
    local_audio_path_for_track, local_stream, resolve_stream, StreamPlan, LONGEST_HOST_PATH,
};

#[allow(dead_code)]
fn text(value: &str) -> String {
    value.to_string()
}

#[allow(dead_code)]
fn track_id(value: &str) -> TrackId {
    TrackId { value: text(value) }
}

#[allow(dead_code)]
fn album_id(value: &str) -> AlbumId {
    AlbumId { value: text(value) }
}

#[allow(dead_code)]
fn artist_id(value: &str) -> ArtistId {
    ArtistId { value: text(value) }
}

#[allow(dead_code)]
fn fake_track_id(number: u32) -> TrackId {
    TrackId { value: format!("fake:track:{number}") }
}

#[allow(dead_code)]
fn fake_album_id(number: u32) -> AlbumId {
    AlbumId { value: format!("fake:album:{number}") }
}

#[allow(dead_code)]
fn fake_artist_id(number: u32) -> ArtistId {
    ArtistId { value: format!("fake:artist:{number}") }
}

#[allow(dead_code)]
fn image(item_id: &str, tag: Option<&str>) -> ImageRef {
    ImageRef { item_id: text(item_id), tag: tag.map(text) }
}

#[allow(dead_code)]
fn external_settings() -> AppSettings {
    AppSettings { external_metadata_enabled: true, ..AppSettings::default() }
}

#[allow(dead_code)]
fn blank_track() -> Track {
    Track {
        id: track_id("track-one"),
        album_id: album_id("album-one"),
        title: text("Track"),
        artist: text("Artist"),
        artist_id: None,
        artist_credits: Vec::new(),
        album_artist_credits: Vec::new(),
        album: text("Album"),
        year: 2011,
        release_date: None,
        date_added: None,
        last_played: None,
        play_count: None,
        user_rating: None,
        duration_seconds: 60,
        favorite: false,
        disc_number: 1,
        track_number: 1,
        image_ref: None,
        genres: Vec::new(),
        musicbrainz_recording_id: None,
        musicbrainz_release_track_id: None,
        local_path: None,
        source_format: None,
        comment: None,
        skip_count: None,
        from_cue: false,
    }
}

#[allow(dead_code)]
fn blank_album() -> Album {
    Album {
        id: album_id("album-one"),
        title: text("Album"),
        artist: text("Artist"),
        artist_id: None,
        album_artist_credits: Vec::new(),
        artist_credits: Vec::new(),
        year: 2011,
        release_date: None,
        date_added: None,
        last_played: None,
        play_count: None,
        user_rating: None,
        track_count: 1,
        duration_seconds: 60,
        favorite: false,
        color_seed: 1,
        image_ref: None,
        genres: Vec::new(),
        release_types: Vec::new(),
        is_compilation: None,
        musicbrainz_album_id: None,
        musicbrainz_release_group_id: None,
    }
}

#[allow(dead_code)]
fn blank_artist(id: &str, name: &str) -> Artist {
    Artist {
        id: artist_id(id),
        name: text(name),
        album_count: 1,
        track_count: 1,
        favorite: false,
        last_played: None,
        play_count: None,
        user_rating: None,
        image_ref: None,
    }
}

#[allow(dead_code)]
fn blank_entry() -> QueueEntry {
    QueueEntry {
        id: QueueEntryId { value: text("entry-one") },
        track_id: track_id("track-one"),
        album_id: Some(album_id("album-one")),
        title: text("Track"),
        artist: text("Artist"),
        artist_id: None,
        album: text("Album"),
        year: 2011,
        duration_seconds: 60,
        favorite: false,
        image_ref: None,
        local_path: None,
        source_format: None,
        origin: None,
    }
}
/// Where the random sequence of a [`World`] begins.
#[allow(dead_code)]
const RANDOM_SEED: u64 = 7;


/// A controller with a player and servers that answer at once.
#[allow(dead_code)]
struct World {
    controller: AppController,
    events: Vec<ControllerEvent>,
    commands: Vec<PlaybackCommand>,
    effects: Vec<Effect>,
    pending: Vec<PlaybackEvent>,
    /// What the player refuses everything with, where it does.
    refusal: Option<String>,
}

#[allow(dead_code)]
impl World {
    fn over(store: Store) -> World {
        let begun = AppController::bootstrap(store, no_tokens(), RANDOM_SEED, false, None);
        World {
            controller: begun.controller,
            events: Vec::new(),
            commands: Vec::new(),
            effects: Vec::new(),
            pending: Vec::new(),
            refusal: None,
        }
    }

    fn fake() -> World {
        World::over(fake_store())
    }

    /// Answers what is asked for, until nothing more is.
    fn settle(&mut self) {
        loop {
            self.events.extend(self.controller.drain_events());
            let effects = self.controller.drain_effects();
            if effects.is_empty() {
                return;
            }
            for effect in effects {
                self.answer(effect);
            }
        }
    }

    fn answer(&mut self, effect: Effect) {
        self.effects.push(effect.clone());
        let controller = &mut self.controller;
        match effect {
            Effect::Playback(command) => {
                self.commands.push(command.clone());
                match self.refusal.clone() {
                    Some(error) => controller.command_rejected(command, error),
                    None => controller.command_accepted(command),
                }
            }
            Effect::PlayStream { request, stream, command } => {
                self.commands.push(command.clone());
                match self.refusal.clone() {
                    Some(error) => controller.command_rejected(command, error),
                    None => {
                        self.pending.push(PlaybackEvent::StateChanged(PlaybackState::Playing));
                        controller.current_stream_accepted(&request, stream);
                    }
                }
            }
            Effect::StopPlayer => self.commands.push(PlaybackCommand::Stop),
            Effect::ResolveCurrent(request) => {
                let stream = fake_stream(&request.entry.track_id);
                controller.current_stream_resolved(request, stream);
            }
            Effect::ResolveNext(request) => {
                let stream = fake_stream(&request.next_entry.track_id);
                let _sent = controller.next_stream_resolved(&request, stream);
            }
            Effect::TopUpQueue => controller.top_up_queue(),
            Effect::PersistQueue { generation, snapshot } => {
                controller.persist_queue_now(generation, &snapshot)
            }
            Effect::ReadSidecarLyrics { server_id, entry, use_cache, search, providers, .. } => {
                controller.sidecar_lyrics_read(
                    &server_id,
                    &entry,
                    use_cache,
                    search,
                    &providers,
                    &None,
                )
            }
            Effect::FetchServerLyrics { saved, entry, search, providers } => {
                controller.server_lyrics_missing(
                    &saved.server.id,
                    &entry,
                    search,
                    &providers,
                    None,
                )
            }
            Effect::FetchExternalLyrics { server_id, server_error, .. } => {
                controller.external_lyrics_fetched(&server_id, None, server_error)
            }
            Effect::MatchLocalTracks { server_id, .. } => {
                controller.local_tracks_read(&server_id, &None)
            }
            Effect::ClearDiskCovers { server_id, next } => {
                controller.disk_covers_cleared(&server_id, next)
            }
            _ => {}
        }
    }

    /// Lets the player tell what it has to.
    fn poll(&mut self) {
        self.settle();
        let events = std::mem::take(&mut self.pending);
        self.controller.poll_playback_events(events);
        self.settle();
    }

    fn poll_with(&mut self, events: Vec<PlaybackEvent>) {
        self.controller.poll_playback_events(events);
        self.settle();
    }

    /// The first of the events not looked at yet that is wanted; those before it are dropped.
    fn wait<T>(&mut self, mut wanted: impl FnMut(&ControllerEvent) -> Option<T>) -> T {
        self.settle();
        while !self.events.is_empty() {
            let event = self.events.remove(0);
            if let Some(found) = wanted(&event) {
                return found;
            }
        }
        panic!("no such event");
    }

    fn wait_for_queue(&mut self) -> QueueSnapshot {
        self.wait(|event| match event {
            ControllerEvent::Queue(Some(queue)) => Some(queue.clone()),
            _ => None,
        })
    }

    fn wait_for_snapshot(&mut self) -> LibrarySnapshot {
        self.wait(|event| match event {
            ControllerEvent::Snapshot(snapshot) => Some(snapshot.clone()),
            _ => None,
        })
    }

    fn wait_for_status(&mut self) -> String {
        self.wait(|event| match event {
            ControllerEvent::LoginStatus(status) => Some(status.clone()),
            _ => None,
        })
    }

    fn wait_for_error(&mut self) -> String {
        self.wait(|event| match event {
            ControllerEvent::Error(error) => Some(error.clone()),
            _ => None,
        })
    }

    fn wait_for_lyrics(&mut self) -> Option<Lyrics> {
        self.wait(|event| match event {
            ControllerEvent::Lyrics(lyrics) => Some(lyrics.clone()),
            _ => None,
        })
    }

    fn wait_for_player(&mut self, wanted: impl Fn(&PlaybackSnapshot) -> bool) -> PlaybackSnapshot {
        self.wait(|event| match event {
            ControllerEvent::Playback(player) if wanted(player) => Some(player.clone()),
            _ => None,
        })
    }

    fn wait_for_state(&mut self, state: PlaybackState) -> PlaybackSnapshot {
        self.poll();
        self.wait_for_player(|player| player.state == state)
    }

    fn wait_for_position(&mut self, millis: u64) -> PlaybackSnapshot {
        self.wait_for_player(|player| player.position_millis == millis)
    }

    fn wait_for_favorite(&mut self) -> (FavoriteItemId, bool, LibrarySnapshot) {
        self.wait(|event| match event {
            ControllerEvent::FavoriteChanged { item_id, favorite, snapshot } => {
                Some((item_id.clone(), *favorite, snapshot.clone()))
            }
            _ => None,
        })
    }

    fn wait_for_playlist(&mut self) -> (PlaylistId, LibrarySnapshot) {
        self.wait(|event| match event {
            ControllerEvent::PlaylistChanged { playlist_id, snapshot } => {
                Some((playlist_id.clone(), snapshot.clone()))
            }
            _ => None,
        })
    }

    fn server_id(&self) -> ServerId {
        self.controller.store().shown().expect("a source is shown").server.id
    }

    fn tracks(&self) -> Vec<Track> {
        self.controller.store().library(&self.server_id()).tracks
    }

    fn queue(&self) -> QueueSnapshot {
        self.controller.queue_snapshot().expect("queue")
    }
}

#[allow(dead_code)]
fn fake_stream(track_id: &TrackId) -> StreamDescriptor {
    let uri = format!("fake://local/stream/{}", track_id.value);
    StreamDescriptor { redacted_uri: uri.clone(), uri }
}

#[allow(dead_code)]
fn saved(id: &str, provider: &str) -> SavedServer {
    SavedServer {
        server: ServerIdentity {
            id: ServerId { value: text(id) },
            provider: text(provider),
            name: text("Test Server"),
            base_url: text("https://music.example"),
        },
        user_id: text("user"),
        username: text("demo"),
        trust_invalid_cert: false,
    }
}

/// A store with one source of many albums and tracks, whose library was read.
#[allow(dead_code)]
fn fake_store() -> Store {
    let mut store = open_memory();
    let server = saved("fake:server:1", "fake");
    let id = server.server.id.clone();
    let albums = (1..=8)
        .map(|number: u32| Album {
            id: fake_album_id(number),
            title: format!("Album {number}"),
            artist: format!("Artist {}", number % 4),
            artist_id: Some(fake_artist_id(number % 4)),
            ..blank_album()
        })
        .collect::<Vec<_>>();
    let tracks = (1..=40)
        .map(|number: u32| Track {
            id: fake_track_id(number),
            album_id: fake_album_id(1 + number % 8),
            title: format!("Track {number}"),
            artist: format!("Artist {}", number % 4),
            artist_id: Some(fake_artist_id(number % 4)),
            album: format!("Album {}", 1 + number % 8),
            duration_seconds: 180 + number,
            favorite: number % 5 == 1,
            genres: vec![text(if number % 2 == 0 { "Rock" } else { "Jazz" })],
            ..blank_track()
        })
        .collect::<Vec<_>>();
    store.save_server(&server).expect("save server");
    store.set_active_server(&id).expect("set active");
    let generation = store.begin_sync(&id).expect("begin sync");
    store.upsert_albums(&id, &albums).expect("albums");
    store.upsert_tracks(&id, &tracks).expect("tracks");
    store.complete_sync(&id, generation).expect("complete sync");
    store
}

#[allow(dead_code)]
fn restored_track() -> Track {
    Track {
        id: track_id("jellyfin:track:lyrics"),
        album_id: fake_album_id(1),
        title: text("Restored Track"),
        artist: text("Artist"),
        artist_id: Some(fake_artist_id(1)),
        album: text("Album"),
        year: 2026,
        duration_seconds: 180,
        ..blank_track()
    }
}

#[allow(dead_code)]
fn entry_track_ids(queue: &QueueSnapshot) -> Vec<TrackId> {
    queue.entries.iter().map(|entry| entry.track_id.clone()).collect()
}

#[allow(dead_code)]
fn current_track_id(queue: &QueueSnapshot) -> TrackId {
    queue.entries[queue.current_index.expect("current")].track_id.clone()
}

fn saved_server() -> SavedServer {
    saved("jellyfin:server:test", "jellyfin")
}

fn access(root: &str, from: Option<&str>, to: Option<&str>) -> ServerLocalAccess {
    ServerLocalAccess {
        server_id: saved_server().server.id,
        root_path: text(root),
        path_replace_from: from.map(text),
        path_replace_to: to.map(text),
    }
}

fn store_with(access: Option<ServerLocalAccess>, tracks: Vec<Track>) -> Store {
    let mut store = open_memory();
    let server = saved_server();
    store.save_server(&server).expect("save server");
    store.set_active_server(&server.server.id).expect("set active");
    store.set_server_local_access(&server.server.id, access).expect("access");
    let _generation = store.begin_sync(&server.server.id).expect("begin sync");
    store.upsert_tracks(&server.server.id, &tracks).expect("tracks");
    store
}

/// The first of the places a track may lie in that holds a file.
fn found(candidates: &Vec<String>, files: &[&str]) -> Option<String> {
    let present = candidates
        .iter()
        .map(|candidate| files.contains(&candidate.as_str()))
        .collect::<Vec<_>>();
    first_present_path(candidates, &present)
}

/// The stream of a track, where the given files are there.
fn stream_of(store: &Store, server_id: &ServerId, id: &TrackId, files: &[&str]) -> String {
    match resolve_stream(store, server_id, id).expect("stream") {
        StreamPlan::Ready(stream) => stream.uri,
        StreamPlan::FileOrServer { candidates, .. } => {
            let path = found(&candidates, files).expect("file");
            local_stream(&path).expect("local stream").uri
        }
    }
}

fn track_at(path: &str) -> Track {
    Track { local_path: Some(text(path)), ..restored_track() }
}

#[test]
fn mapped_local_audio_path_uses_server_prefix_replacement() {
    let track = track_at("/server/music/Album/Track.flac");
    let store = store_with(
        Some(access("/unused", Some("/server/music"), Some("/mapped-audio"))),
        vec![track.clone()],
    );
    let server = saved_server();
    let candidates = local_audio_path_for_track(&store, &server.server.id, &track.id);
    assert_eq!(
        found(&candidates, &["/mapped-audio/Album/Track.flac"]),
        Some(text("/mapped-audio/Album/Track.flac"))
    );
}

#[test]
fn remote_local_audio_path_requires_configured_access() {
    let track = track_at("/remote-no-local-access/Track.flac");
    let store = store_with(None, vec![track.clone()]);
    let server = saved_server();
    let candidates = local_audio_path_for_track(&store, &server.server.id, &track.id);
    assert_eq!(found(&candidates, &["/remote-no-local-access/Track.flac"]), None);
    assert!(candidates.is_empty());
}

#[test]
fn resolve_stream_prefers_local_file_for_remote_server_with_access() {
    let root = "/local-playback-stream";
    let track = track_at("/server/music/Album/Track.flac");
    let store =
        store_with(Some(access(root, Some("/server/music"), Some(root))), vec![track.clone()]);
    let uri = stream_of(
        &store,
        &saved_server().server.id,
        &track.id,
        &["/local-playback-stream/Album/Track.flac"],
    );
    assert!(uri.starts_with("file://"));
    assert!(uri.contains("Track.flac"));
}

#[test]
fn streams_come_from_the_server_where_no_file_is_there() {
    let root = "/local-playback-stream";
    let track = track_at("/server/music/Album/Track.flac");
    let store =
        store_with(Some(access(root, Some("/server/music"), Some(root))), vec![track.clone()]);
    match resolve_stream(&store, &saved_server().server.id, &track.id).expect("stream") {
        StreamPlan::FileOrServer { candidates, saved } => {
            assert_eq!(found(&candidates, &[]), None);
            assert_eq!(saved, saved_server());
        }
        StreamPlan::Ready(_) => panic!("the server is asked"),
    }
}

#[test]
fn resolve_stream_uses_requested_saved_server_when_active_source_changes() {
    let mut store = open_memory();
    let playback_server = SavedServer {
        server: ServerIdentity {
            id: ServerId { value: text("fake:server:playback") },
            provider: text("fake"),
            name: text("Playback Server"),
            base_url: text("https://playback.example.test"),
        },
        user_id: text("listener"),
        username: text("listener"),
        trust_invalid_cert: false,
    };
    let local = local_source_saved();
    store.save_server(&playback_server).expect("seed servers");
    store.save_server(&local).expect("seed servers");
    store.set_active_server(&local.server.id).expect("seed servers");
    let uri =
        stream_of(&store, &playback_server.server.id, &track_id("fake:track:queued"), &[]);

    assert_eq!(uri, "fake://local/stream/fake:track:queued");
}

#[test]
fn streams_of_sources_that_are_gone_are_refused() {
    let store = open_memory();
    let gone = ServerId { value: text("gone") };
    assert!(resolve_stream(&store, &gone, &track_id("track")).is_err());
}

#[test]
fn resolve_stream_uses_cached_file_for_local_source() {
    let mut store = open_memory();
    let local = local_source_saved();
    let audio = "/local-source-stream/Album/Track.flac";
    let track = Track { id: track_id("local:track:stream"), ..track_at(audio) };
    store.save_server(&local).expect("save server");
    store.set_active_server(&local.server.id).expect("set active");
    store.upsert_tracks(&local.server.id, &vec![track.clone()]).expect("upsert track");

    let uri = stream_of(&store, &local.server.id, &track.id, &[audio]);

    assert!(uri.starts_with("file://"));
    assert!(uri.contains("Track.flac"));
    assert_eq!(uri, "file:///local-source-stream/Album/Track.flac");
}

#[test]
fn resolve_stream_uses_cached_local_match_without_server_path() {
    let root = "/cached-local-match-stream";
    let audio = "/cached-local-match-stream/Album/Track.flac";
    let track = restored_track();
    let mut store = store_with(Some(access(root, None, Some(root))), vec![track.clone()]);
    let server_id = saved_server().server.id;
    store
        .replace_track_local_matches(
            &server_id,
            vec![TrackLocalMatch {
                track_id: track.id.clone(),
                path: text(audio),
                method: text("metadata"),
            }],
        )
        .expect("seed track");
    let uri = stream_of(&store, &server_id, &track.id, &[audio]);
    assert!(uri.starts_with("file://"));
    assert!(uri.contains("Track.flac"));
}

#[test]
fn file_streams_are_percent_encoded() {
    let stream = local_stream("/music/A Song#1.flac").expect("stream");
    assert_eq!(stream.uri, "file:///music/A%20Song%231.flac");
    assert!(local_stream("music/relative.flac").is_err());
}

#[test]
fn paths_that_no_machine_knows_have_no_stream() {
    for path in ["", "relative.flac", "music/one.flac", "./one.flac"] {
        assert_eq!(
            local_stream(path).expect_err("no stream"),
            format!("Could not turn local track path into a file URI: {path}")
        );
    }
    let long = "a".repeat(LONGEST_HOST_PATH);
    assert!(local_stream(&format!("//{long}")).is_err());
    assert!(local_stream(&format!("\\\\{long}")).is_err());
    assert_eq!(local_stream(&format!("/{long}")).expect("stream").uri, format!("file:///{long}"));
}

#[test]
fn relative_local_audio_path_uses_configured_local_prefix() {
    let track = track_at("Album/Track.flac");
    let store = store_with(
        Some(access("/relative-scan-root", None, Some("/relative-local-prefix"))),
        vec![track.clone()],
    );
    let candidates =
        local_audio_path_for_track(&store, &saved_server().server.id, &track.id);
    assert_eq!(
        found(&candidates, &["/relative-local-prefix/Album/Track.flac"]),
        Some(text("/relative-local-prefix/Album/Track.flac"))
    );
}

#[test]
fn local_access_matching_uses_manifest_cached_track_data() {
    let root = "/local-access-manifest";
    let audio = "/local-access-manifest/Album/Filename Fallback.mp3";
    let remote = Track {
        title: text("Manifest Title"),
        album: text("Manifest Album"),
        artist: text("Manifest Artist"),
        duration_seconds: 0,
        ..restored_track()
    };
    let local = Track {
        id: track_id("local:track:manifest"),
        album_id: album_id("local:album:manifest"),
        local_path: Some(text(audio)),
        ..remote.clone()
    };
    let mut world = World::over(store_with(
        Some(access(root, None, Some(root))),
        vec![remote.clone()],
    ));
    let server_id = saved_server().server.id;

    let count = world
        .controller
        .refresh_local_track_matches(&server_id, &vec![local])
        .expect("refresh local matches");

    assert_eq!(count, 1);
    let library = world.controller.store().library(&server_id);
    let path = library
        .local_matches
        .iter()
        .find(|found| found.track_id == remote.id)
        .map(|found| found.path.clone());
    assert_eq!(path, Some(text(audio)));
}

#[test]
fn snapshot_local_access_status_counts_cached_mapping_candidates() {
    let root = "/local-access-status";
    let local_prefix = "/local-access-status/mapped";
    let named = |id: &str, title: &str, path: Option<&str>| Track {
        id: track_id(id),
        title: text(title),
        local_path: path.map(text),
        ..restored_track()
    };
    let direct = named("jellyfin:track:direct", "Direct", Some("/local-access-status/Direct.flac"));
    let prefix = named(
        "jellyfin:track:prefix",
        "Prefix",
        Some("/server/music/Album/Mapped.flac"),
    );
    let metadata = named("jellyfin:track:metadata", "Metadata", None);
    let unmatched = named(
        "jellyfin:track:unmatched",
        "Unmatched",
        Some("/server/music/Album/Missing.flac"),
    );
    let mut store = store_with(
        Some(access(root, Some("/server/music"), Some(local_prefix))),
        vec![direct, prefix, metadata.clone(), unmatched],
    );
    store
        .replace_track_local_matches(
            &saved_server().server.id,
            vec![TrackLocalMatch {
                track_id: metadata.id.clone(),
                path: text("/local-access-status/Metadata.flac"),
                method: text("metadata"),
            }],
        )
        .expect("seed tracks");
    let snapshot = load_snapshot(&mut store).expect("load snapshot");
    assert_eq!(snapshot.local_access_status.total_track_count, 4);
    assert_eq!(snapshot.local_access_status.direct_match_count, 1);
    assert_eq!(snapshot.local_access_status.prefix_match_count, 2);
    assert_eq!(snapshot.local_access_status.metadata_match_count, 1);
    assert_eq!(snapshot.local_access_status.unmatched_count, 0);
    assert!(snapshot.local_access_status.sample_server_path.is_some());
}

#[test]
fn conservative_local_matches_only_accept_unique_duration_matches() {
    let remote = Track {
        album_id: fake_album_id(1),
        title: text("First Motion"),
        album: text("Blue Rooms"),
        artist: text("Astral Kin"),
        duration_seconds: 210,
        disc_number: 1,
        track_number: 7,
        ..restored_track()
    };
    let local = Track {
        id: track_id("local:track:one"),
        local_path: Some(text("/home/me/Music/Blue Rooms/07 First Motion.flac")),
        duration_seconds: 212,
        ..remote.clone()
    };
    let matches = conservative_local_matches(&vec![remote.clone()], &vec![local.clone()]);
    assert_eq!(matches.len(), 1);
    assert_eq!(matches[0].track_id, remote.id);
    assert_eq!(matches[0].path, "/home/me/Music/Blue Rooms/07 First Motion.flac");
    let duplicate = Track {
        id: track_id("local:track:two"),
        local_path: Some(text("/home/me/Music/Other/07 First Motion.flac")),
        ..local.clone()
    };
    assert!(conservative_local_matches(&vec![remote.clone()], &vec![local.clone(), duplicate])
        .is_empty());
    let longer = Track { duration_seconds: 214, ..local };
    assert!(conservative_local_matches(&vec![remote], &vec![longer]).is_empty());
}

#[test]
fn unknown_durations_are_close_to_all() {
    assert!(durations_close(0, 500));
    assert!(durations_close(500, 0));
    assert!(durations_close(210, 212));
    assert!(durations_close(210, 213));
    assert!(!durations_close(210, 214));
}

#[test]
fn snapshot_includes_active_server_local_access() {
    let given = access("/home/demo/Music", Some("/server/music"), Some("/home/demo/Music"));
    let mut store = store_with(Some(given.clone()), Vec::new());
    let snapshot = load_snapshot(&mut store).expect("load snapshot");
    assert_eq!(snapshot.local_access, Some(given));
}

#[test]
fn saving_and_clearing_local_access_is_shown() {
    let mut world = World::over(store_with(None, vec![restored_track()]));
    let server_id = saved_server().server.id;
    world.controller.save_server_local_access(
        &server_id,
        &text("/music"),
        &Some(text("/server/music")),
        &Some(text("/music")),
    );
    let snapshot = world.wait_for_snapshot();
    assert_eq!(
        snapshot.local_access,
        Some(access("/music", Some("/server/music"), Some("/music")))
    );
    assert!(world.effects.iter().any(|effect| matches!(
        effect,
        Effect::MatchLocalTracks { root_path, .. } if root_path == "/music"
    )));
    world.controller.clear_server_local_access(&server_id);
    assert_eq!(world.wait_for_snapshot().local_access, None);
}

#[test]
fn server_paths_map_below_their_prefix_alone() {
    let given = access("/music", Some("/server/music"), Some("/mapped"));
    assert_eq!(
        map_server_path_to_local("/server/music/A/B.flac", &given),
        Some(text("/mapped/A/B.flac"))
    );
    assert_eq!(map_server_path_to_local("/elsewhere/A/B.flac", &given), None);
}

#[test]
fn paths_are_joined_and_renamed() {
    assert_eq!(join_path("/music", "A.flac"), "/music/A.flac");
    assert_eq!(join_path("/music", "/other/A.flac"), "/other/A.flac");
    assert_eq!(lyrics_path_for_audio("/music/A.flac"), "/music/A.lrc");
}
