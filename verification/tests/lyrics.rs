//! Lyrics: reading, finding, ordering and showing them.

use rufin::controller::AppController;
use rufin::model::events::{ControllerEvent, Effect, FavoriteItemId};
use rufin::model::ids::{AlbumId, ArtistId, PlaylistId, QueueEntryId, ServerId, TrackId};
use rufin::model::library::{Album, Artist, ImageRef, Track};
use rufin::model::lyrics::Lyrics;
use rufin::model::playback::{
    PlaybackCommand, PlaybackEvent, PlaybackSnapshot, PlaybackState, StreamDescriptor,
};
use rufin::model::queue::{QueueEntry, QueueSnapshot};
use rufin::model::settings::AppSettings;
use rufin::model::snapshot::LibrarySnapshot;
use rufin::model::source::{SavedServer, ServerIdentity};
use rufin::model::store::Store;
use rufin::store::{no_tokens, open_memory};
use rufin::bounded_read::{check_announced_length, extend_bounded, LOCAL_LYRICS_MAX_BYTES};
use rufin::cached_reads::local_source_saved;
use rufin::local_access::{first_present_path, lyrics_path_for_audio};
use rufin::lyrics::{
    lyrics_from_lrclib_results, lyrics_from_lrclib_search_result, lyrics_from_text,
    lyrics_search_for_settings, search_result_from_fields, sidecar_lyrics,
};
use rufin::lyrics_search::{
    asks_lrclib, ends_search, lrclib_automatic_search_urls, lrclib_get_url, lrclib_search_urls,
    named_hits, order_lrclib_results,
};
use rufin::model::lyrics::{JellyfinLyricsSearch, LyricLine, LyricsSearchResult, LyricsSource};
use rufin::model::source::ServerLocalAccess;
use rufin::queue::QueueEngine;
use rufin::streams::local_audio_path_for_track;

#[allow(dead_code)]
fn text(value: &str) -> String {
    value.to_string()
}

#[allow(dead_code)]
fn track_id(value: &str) -> TrackId {
    TrackId { value: text(value) }
}

#[allow(dead_code)]
fn album_id(value: &str) -> AlbumId {
    AlbumId { value: text(value) }
}

#[allow(dead_code)]
fn artist_id(value: &str) -> ArtistId {
    ArtistId { value: text(value) }
}

#[allow(dead_code)]
fn fake_track_id(number: u32) -> TrackId {
    TrackId { value: format!("fake:track:{number}") }
}

#[allow(dead_code)]
fn fake_album_id(number: u32) -> AlbumId {
    AlbumId { value: format!("fake:album:{number}") }
}

#[allow(dead_code)]
fn fake_artist_id(number: u32) -> ArtistId {
    ArtistId { value: format!("fake:artist:{number}") }
}

#[allow(dead_code)]
fn image(item_id: &str, tag: Option<&str>) -> ImageRef {
    ImageRef { item_id: text(item_id), tag: tag.map(text) }
}

#[allow(dead_code)]
fn external_settings() -> AppSettings {
    AppSettings { external_metadata_enabled: true, ..AppSettings::default() }
}

#[allow(dead_code)]
fn blank_track() -> Track {
    Track {
        id: track_id("track-one"),
        album_id: album_id("album-one"),
        title: text("Track"),
        artist: text("Artist"),
        artist_id: None,
        artist_credits: Vec::new(),
        album_artist_credits: Vec::new(),
        album: text("Album"),
        year: 2011,
        release_date: None,
        date_added: None,
        last_played: None,
        play_count: None,
        user_rating: None,
        duration_seconds: 60,
        favorite: false,
        disc_number: 1,
        track_number: 1,
        image_ref: None,
        genres: Vec::new(),
        musicbrainz_recording_id: None,
        musicbrainz_release_track_id: None,
        local_path: None,
        source_format: None,
        comment: None,
        skip_count: None,
        from_cue: false,
    }
}

#[allow(dead_code)]
fn blank_album() -> Album {
    Album {
        id: album_id("album-one"),
        title: text("Album"),
        artist: text("Artist"),
        artist_id: None,
        album_artist_credits: Vec::new(),
        artist_credits: Vec::new(),
        year: 2011,
        release_date: None,
        date_added: None,
        last_played: None,
        play_count: None,
        user_rating: None,
        track_count: 1,
        duration_seconds: 60,
        favorite: false,
        color_seed: 1,
        image_ref: None,
        genres: Vec::new(),
        release_types: Vec::new(),
        is_compilation: None,
        musicbrainz_album_id: None,
        musicbrainz_release_group_id: None,
    }
}

#[allow(dead_code)]
fn blank_artist(id: &str, name: &str) -> Artist {
    Artist {
        id: artist_id(id),
        name: text(name),
        album_count: 1,
        track_count: 1,
        favorite: false,
        last_played: None,
        play_count: None,
        user_rating: None,
        image_ref: None,
    }
}

#[allow(dead_code)]
fn blank_entry() -> QueueEntry {
    QueueEntry {
        id: QueueEntryId { value: text("entry-one") },
        track_id: track_id("track-one"),
        album_id: Some(album_id("album-one")),
        title: text("Track"),
        artist: text("Artist"),
        artist_id: None,
        album: text("Album"),
        year: 2011,
        duration_seconds: 60,
        favorite: false,
        image_ref: None,
        local_path: None,
        source_format: None,
        origin: None,
    }
}
/// Where the random sequence of a [`World`] begins.
#[allow(dead_code)]
const RANDOM_SEED: u64 = 7;


/// A controller with a player and servers that answer at once.
#[allow(dead_code)]
struct World {
    controller: AppController,
    events: Vec<ControllerEvent>,
    commands: Vec<PlaybackCommand>,
    effects: Vec<Effect>,
    pending: Vec<PlaybackEvent>,
    /// What the player refuses everything with, where it does.
    refusal: Option<String>,
}

#[allow(dead_code)]
impl World {
    fn over(store: Store) -> World {
        let begun = AppController::bootstrap(store, no_tokens(), RANDOM_SEED, false, None);
        World {
            controller: begun.controller,
            events: Vec::new(),
            commands: Vec::new(),
            effects: Vec::new(),
            pending: Vec::new(),
            refusal: None,
        }
    }

    fn fake() -> World {
        World::over(fake_store())
    }

    /// Answers what is asked for, until nothing more is.
    fn settle(&mut self) {
        loop {
            self.events.extend(self.controller.drain_events());
            let effects = self.controller.drain_effects();
            if effects.is_empty() {
                return;
            }
            for effect in effects {
                self.answer(effect);
            }
        }
    }

    fn answer(&mut self, effect: Effect) {
        self.effects.push(effect.clone());
        let controller = &mut self.controller;
        match effect {
            Effect::Playback(command) => {
                self.commands.push(command.clone());
                match self.refusal.clone() {
                    Some(error) => controller.command_rejected(command, error),
                    None => controller.command_accepted(command),
                }
            }
            Effect::PlayStream { request, stream, command } => {
                self.commands.push(command.clone());
                match self.refusal.clone() {
                    Some(error) => controller.command_rejected(command, error),
                    None => {
                        self.pending.push(PlaybackEvent::StateChanged(PlaybackState::Playing));
                        controller.current_stream_accepted(&request, stream);
                    }
                }
            }
            Effect::StopPlayer => self.commands.push(PlaybackCommand::Stop),
            Effect::ResolveCurrent(request) => {
                let stream = fake_stream(&request.entry.track_id);
                controller.current_stream_resolved(request, stream);
            }
            Effect::ResolveNext(request) => {
                let stream = fake_stream(&request.next_entry.track_id);
                let _sent = controller.next_stream_resolved(&request, stream);
            }
            Effect::TopUpQueue => controller.top_up_queue(),
            Effect::PersistQueue { generation, snapshot } => {
                controller.persist_queue_now(generation, &snapshot)
            }
            Effect::ReadSidecarLyrics { server_id, entry, use_cache, search, providers, .. } => {
                controller.sidecar_lyrics_read(
                    &server_id,
                    &entry,
                    use_cache,
                    search,
                    &providers,
                    &None,
                )
            }
            Effect::FetchServerLyrics { saved, entry, search, providers } => {
                controller.server_lyrics_missing(
                    &saved.server.id,
                    &entry,
                    search,
                    &providers,
                    None,
                )
            }
            Effect::FetchExternalLyrics { server_id, server_error, .. } => {
                controller.external_lyrics_fetched(&server_id, None, server_error)
            }
            Effect::MatchLocalTracks { server_id, .. } => {
                controller.local_tracks_read(&server_id, &None)
            }
            Effect::ClearDiskCovers { server_id, next } => {
                controller.disk_covers_cleared(&server_id, next)
            }
            _ => {}
        }
    }

    /// Lets the player tell what it has to.
    fn poll(&mut self) {
        self.settle();
        let events = std::mem::take(&mut self.pending);
        self.controller.poll_playback_events(events);
        self.settle();
    }

    fn poll_with(&mut self, events: Vec<PlaybackEvent>) {
        self.controller.poll_playback_events(events);
        self.settle();
    }

    /// The first of the events not looked at yet that is wanted; those before it are dropped.
    fn wait<T>(&mut self, mut wanted: impl FnMut(&ControllerEvent) -> Option<T>) -> T {
        self.settle();
        while !self.events.is_empty() {
            let event = self.events.remove(0);
            if let Some(found) = wanted(&event) {
                return found;
            }
        }
        panic!("no such event");
    }

    fn wait_for_queue(&mut self) -> QueueSnapshot {
        self.wait(|event| match event {
            ControllerEvent::Queue(Some(queue)) => Some(queue.clone()),
            _ => None,
        })
    }

    fn wait_for_snapshot(&mut self) -> LibrarySnapshot {
        self.wait(|event| match event {
            ControllerEvent::Snapshot(snapshot) => Some(snapshot.clone()),
            _ => None,
        })
    }

    fn wait_for_status(&mut self) -> String {
        self.wait(|event| match event {
            ControllerEvent::LoginStatus(status) => Some(status.clone()),
            _ => None,
        })
    }

    fn wait_for_error(&mut self) -> String {
        self.wait(|event| match event {
            ControllerEvent::Error(error) => Some(error.clone()),
            _ => None,
        })
    }

    fn wait_for_lyrics(&mut self) -> Option<Lyrics> {
        self.wait(|event| match event {
            ControllerEvent::Lyrics(lyrics) => Some(lyrics.clone()),
            _ => None,
        })
    }

    fn wait_for_player(&mut self, wanted: impl Fn(&PlaybackSnapshot) -> bool) -> PlaybackSnapshot {
        self.wait(|event| match event {
            ControllerEvent::Playback(player) if wanted(player) => Some(player.clone()),
            _ => None,
        })
    }

    fn wait_for_state(&mut self, state: PlaybackState) -> PlaybackSnapshot {
        self.poll();
        self.wait_for_player(|player| player.state == state)
    }

    fn wait_for_position(&mut self, millis: u64) -> PlaybackSnapshot {
        self.wait_for_player(|player| player.position_millis == millis)
    }

    fn wait_for_favorite(&mut self) -> (FavoriteItemId, bool, LibrarySnapshot) {
        self.wait(|event| match event {
            ControllerEvent::FavoriteChanged { item_id, favorite, snapshot } => {
                Some((item_id.clone(), *favorite, snapshot.clone()))
            }
            _ => None,
        })
    }

    fn wait_for_playlist(&mut self) -> (PlaylistId, LibrarySnapshot) {
        self.wait(|event| match event {
            ControllerEvent::PlaylistChanged { playlist_id, snapshot } => {
                Some((playlist_id.clone(), snapshot.clone()))
            }
            _ => None,
        })
    }

    fn server_id(&self) -> ServerId {
        self.controller.store().shown().expect("a source is shown").server.id
    }

    fn tracks(&self) -> Vec<Track> {
        self.controller.store().library(&self.server_id()).tracks
    }

    fn queue(&self) -> QueueSnapshot {
        self.controller.queue_snapshot().expect("queue")
    }
}

#[allow(dead_code)]
fn fake_stream(track_id: &TrackId) -> StreamDescriptor {
    let uri = format!("fake://local/stream/{}", track_id.value);
    StreamDescriptor { redacted_uri: uri.clone(), uri }
}

#[allow(dead_code)]
fn saved(id: &str, provider: &str) -> SavedServer {
    SavedServer {
        server: ServerIdentity {
            id: ServerId { value: text(id) },
            provider: text(provider),
            name: text("Test Server"),
            base_url: text("https://music.example"),
        },
        user_id: text("user"),
        username: text("demo"),
        trust_invalid_cert: false,
    }
}

/// A store with one source of many albums and tracks, whose library was read.
#[allow(dead_code)]
fn fake_store() -> Store {
    let mut store = open_memory();
    let server = saved("fake:server:1", "fake");
    let id = server.server.id.clone();
    let albums = (1..=8)
        .map(|number: u32| Album {
            id: fake_album_id(number),
            title: format!("Album {number}"),
            artist: format!("Artist {}", number % 4),
            artist_id: Some(fake_artist_id(number % 4)),
            ..blank_album()
        })
        .collect::<Vec<_>>();
    let tracks = (1..=40)
        .map(|number: u32| Track {
            id: fake_track_id(number),
            album_id: fake_album_id(1 + number % 8),
            title: format!("Track {number}"),
            artist: format!("Artist {}", number % 4),
            artist_id: Some(fake_artist_id(number % 4)),
            album: format!("Album {}", 1 + number % 8),
            duration_seconds: 180 + number,
            favorite: number % 5 == 1,
            genres: vec![text(if number % 2 == 0 { "Rock" } else { "Jazz" })],
            ..blank_track()
        })
        .collect::<Vec<_>>();
    store.save_server(&server).expect("save server");
    store.set_active_server(&id).expect("set active");
    let generation = store.begin_sync(&id).expect("begin sync");
    store.upsert_albums(&id, &albums).expect("albums");
    store.upsert_tracks(&id, &tracks).expect("tracks");
    store.complete_sync(&id, generation).expect("complete sync");
    store
}

#[allow(dead_code)]
fn restored_track() -> Track {
    Track {
        id: track_id("jellyfin:track:lyrics"),
        album_id: fake_album_id(1),
        title: text("Restored Track"),
        artist: text("Artist"),
        artist_id: Some(fake_artist_id(1)),
        album: text("Album"),
        year: 2026,
        duration_seconds: 180,
        ..blank_track()
    }
}

#[allow(dead_code)]
fn entry_track_ids(queue: &QueueSnapshot) -> Vec<TrackId> {
    queue.entries.iter().map(|entry| entry.track_id.clone()).collect()
}

#[allow(dead_code)]
fn current_track_id(queue: &QueueSnapshot) -> TrackId {
    queue.entries[queue.current_index.expect("current")].track_id.clone()
}

fn found(
    id: u64,
    track: &str,
    artist: &str,
    album: &str,
    duration_seconds: u32,
    synced: Option<&str>,
    plain: Option<&str>,
) -> LyricsSearchResult {
    LyricsSearchResult {
        id,
        track_name: text(track),
        artist_name: text(artist),
        album_name: text(album),
        duration_seconds,
        synced_lyrics: synced.map(text),
        plain_lyrics: plain.map(text),
    }
}

fn one_line(track_id: &TrackId, source: LyricsSource, line: &str) -> Lyrics {
    Lyrics {
        track_id: track_id.clone(),
        source,
        lines: vec![LyricLine { text: text(line), start_millis: None }],
    }
}

fn query_pairs(url: &str) -> Vec<(String, String)> {
    reqwest::Url::parse(url)
        .expect("url")
        .query_pairs()
        .map(|(key, value)| (key.to_string(), value.to_string()))
        .collect()
}

fn pairs(expected: &[(&str, &str)]) -> Vec<(String, String)> {
    expected.iter().map(|(key, value)| (text(key), text(value))).collect()
}

fn playing_world() -> (World, Track) {
    let mut world = World::fake();
    let track = world.tracks()[0].clone();
    world.controller.play_now(track.clone());
    let _player = world.wait_for_state(PlaybackState::Playing);
    (world, track)
}

#[test]
fn fake_lyrics_request_emits_empty_lyrics_event() {
    let (mut world, _track) = playing_world();
    world.controller.request_lyrics_for_current();
    assert!(world.wait_for_lyrics().is_none());
}

#[test]
fn local_lyrics_request_skips_unsupported_provider_lookup() {
    let mut store = open_memory();
    let local = local_source_saved();
    let mut track = restored_track();
    track.id = track_id("local:track:lyrics");
    track.local_path = None;
    let mut queue = QueueEngine::new(local.server.id.clone());
    queue.play_now(&track);
    store.save_server(&local).expect("save server");
    store.set_active_server(&local.server.id).expect("set active");
    store.save_queue_snapshot(&queue.snapshot()).expect("save queue");
    let mut world = World::over(store);

    world.controller.request_lyrics_for_current();

    assert!(world.wait_for_lyrics().is_none());
}

#[test]
fn server_lyrics_request_ignores_cached_remote_lyrics() {
    let (mut world, track) = playing_world();
    let server_id = world.server_id();
    let remote = one_line(&track.id, LyricsSource::Remote, "cached remote line");
    world.controller.store_mut().save_lyrics(&server_id, &remote).expect("save remote lyrics");
    world.controller.request_server_lyrics_for_current();
    assert!(world.wait_for_lyrics().is_none());
}

#[test]
fn clearing_remote_lyrics_emits_empty_event_and_removes_cache() {
    let (mut world, track) = playing_world();
    let server_id = world.server_id();
    let remote = one_line(&track.id, LyricsSource::Remote, "cached remote line");
    world.controller.store_mut().save_lyrics(&server_id, &remote).expect("save remote lyrics");

    world.controller.request_lyrics_for_current();
    assert_eq!(world.wait_for_lyrics(), Some(remote));
    world.controller.clear_remote_lyrics_for_current();

    assert!(world.wait_for_lyrics().is_none());
    assert_eq!(world.controller.store().load_lyrics(&server_id, &track.id), Ok(None));
}

#[test]
fn clearing_remote_lyrics_preserves_server_cache() {
    let (mut world, track) = playing_world();
    let server_id = world.server_id();
    let server = one_line(&track.id, LyricsSource::Server, "server line");
    world.controller.store_mut().save_lyrics(&server_id, &server).expect("save server lyrics");

    world.controller.clear_remote_lyrics_for_current();
    world.controller.request_lyrics_for_current();

    assert_eq!(world.wait_for_lyrics(), Some(server));
}

#[test]
fn restored_queue_request_lyrics_emits_cached_current_lyrics() {
    let mut store = open_memory();
    let server = saved("jellyfin:server:lyrics", "jellyfin");
    let track = restored_track();
    let mut queue = QueueEngine::new(server.server.id.clone());
    queue.play_now(&track);
    queue.set_progress_seconds(12);
    let lyrics = Lyrics {
        track_id: track.id.clone(),
        source: LyricsSource::Server,
        lines: vec![LyricLine { text: text("first line"), start_millis: Some(1_000) }],
    };
    store.save_server(&server).expect("save server");
    store.set_active_server(&server.server.id).expect("set active");
    store.save_queue_snapshot(&queue.snapshot()).expect("save queue");
    store.save_lyrics(&server.server.id, &lyrics).expect("save lyrics");
    let mut world = World::over(store);
    world.controller.request_lyrics_for_current();
    assert_eq!(world.wait_for_lyrics(), Some(lyrics));
}

#[test]
fn lyrics_search_respects_private_mode_and_preference() {
    let mut settings = AppSettings { external_lyrics_enabled: true, ..AppSettings::default() };
    assert_eq!(
        lyrics_search_for_settings(&settings),
        JellyfinLyricsSearch::ServerThenRemote
    );
    settings.prefer_server_lyrics = false;
    assert_eq!(
        lyrics_search_for_settings(&settings),
        JellyfinLyricsSearch::RemoteThenServer
    );
    settings.private_mode = true;
    assert_eq!(lyrics_search_for_settings(&settings), JellyfinLyricsSearch::ServerOnly);
    settings.private_mode = false;
    settings.external_lyrics_enabled = false;
    assert_eq!(lyrics_search_for_settings(&settings), JellyfinLyricsSearch::ServerOnly);
}

#[test]
fn saved_lrclib_result_uses_explicit_output_path() {
    let (mut world, track) = playing_world();
    let result = found(1, "Track", "Artist", "Album", 180, Some("[00:01.00]line one"), None);
    let output = text("/home/me/Music/Chosen Lyrics.lrc");
    world.controller.save_lyrics_search_result(&track.id, &result, output.clone());
    let effect = world.controller.drain_effects().pop().expect("effect");
    let Effect::WriteLyrics { server_id, path, content, lyrics } = effect else {
        panic!("expected lyrics to be written");
    };
    assert_eq!(path, output);
    assert_eq!(content, "[00:01.00]line one");
    assert_eq!(lyrics.track_id, track.id);
    world.controller.lyrics_written(&server_id, path, lyrics.clone());
    let (saved_path, saved_lyrics) = world.wait(|event| match event {
        ControllerEvent::LyricsSaved { path, lyrics } => Some((path.clone(), lyrics.clone())),
        _ => None,
    });
    assert_eq!(saved_path, output);
    assert_eq!(saved_lyrics, lyrics);
}

fn store_with_audio(root: &str, audio: &str) -> (Store, SavedServer, Track) {
    let mut store = open_memory();
    let server = saved("jellyfin:server:test", "jellyfin");
    let id = server.server.id.clone();
    store.save_server(&server).expect("save server");
    store.set_active_server(&id).expect("set active");
    store
        .set_server_local_access(
            &id,
            Some(ServerLocalAccess {
                server_id: id.clone(),
                root_path: text(root),
                path_replace_from: None,
                path_replace_to: Some(text(root)),
            }),
        )
        .expect("local access");
    let mut track = restored_track();
    track.local_path = Some(text(audio));
    store.upsert_tracks(&id, &vec![track.clone()]).expect("upsert track");
    (store, server, track)
}

#[test]
fn local_sidecar_lyrics_use_same_stem_as_audio_file() {
    let audio = "/music/07 I'm feeling lucky.flac";
    let (store, server, track) = store_with_audio("/music", audio);
    let candidates = local_audio_path_for_track(&store, &server.server.id, &track.id);
    let present = candidates.iter().map(|path| path == audio).collect::<Vec<_>>();
    let path = first_present_path(&candidates, &present).expect("audio path");
    assert_eq!(lyrics_path_for_audio(&path), "/music/07 I'm feeling lucky.lrc");
    let lyrics = sidecar_lyrics(&track.id, "[00:01.00]line one").expect("sidecar lyrics");
    assert_eq!(lyrics.source, LyricsSource::Local);
    assert_eq!(lyrics.lines[0].text, "line one");
    assert_eq!(lyrics.lines[0].start_millis, Some(1_000));
}

#[test]
fn local_sidecar_lyrics_ignore_oversized_files() {
    let length = (LOCAL_LYRICS_MAX_BYTES + 1) as u64;
    assert_eq!(
        check_announced_length(Some(length), LOCAL_LYRICS_MAX_BYTES, "lyrics file"),
        Err(text("lyrics file exceeded 2 MiB limit"))
    );
    assert_eq!(
        check_announced_length(Some(length - 1), LOCAL_LYRICS_MAX_BYTES, "lyrics file"),
        Ok(())
    );
    assert_eq!(check_announced_length(None, LOCAL_LYRICS_MAX_BYTES, "lyrics file"), Ok(()));
}

#[test]
fn reading_stops_at_the_limit() {
    let mut bytes = Vec::new();
    assert_eq!(extend_bounded(&mut bytes, &[1, 2, 3], 4, "answer"), Ok(()));
    assert_eq!(
        extend_bounded(&mut bytes, &[4, 5], 4, "answer"),
        Err(text("answer exceeded 0 MiB limit"))
    );
    assert_eq!(bytes, vec![1, 2, 3]);
    assert_eq!(extend_bounded(&mut bytes, &[4], 4, "answer"), Ok(()));
    assert_eq!(bytes, vec![1, 2, 3, 4]);
}

#[test]
fn lrclib_result_text_becomes_timed_lyrics() {
    let result = found(
        7,
        "Song",
        "Artist",
        "Album",
        180,
        Some("[00:12.34]first line\n[ar:Artist]\n[00:13.005]second line"),
        None,
    );
    let lyrics = lyrics_from_text(track_id("track-one"), &result);
    assert_eq!(lyrics.lines.len(), 2);
    assert_eq!(lyrics.lines[0].text, "first line");
    assert_eq!(lyrics.lines[0].start_millis, Some(12_340));
    assert_eq!(lyrics.lines[1].text, "second line");
    assert_eq!(lyrics.lines[1].start_millis, Some(13_005));
}

#[test]
fn selected_lrclib_result_becomes_current_track_lyrics() {
    let result = found(
        12,
        "Example Track",
        "Example Artist",
        "Example Album",
        95,
        Some("[00:01.00]line one"),
        Some("line one"),
    );

    let lyrics = lyrics_from_lrclib_search_result(track_id("track-preview"), &result)
        .expect("lyrics");

    assert_eq!(lyrics.track_id, track_id("track-preview"));
    assert_eq!(lyrics.source, LyricsSource::Remote);
    assert_eq!(lyrics.lines[0].text, "line one");
    assert_eq!(lyrics.lines[0].start_millis, Some(1_000));
}

#[test]
fn answers_are_named_by_the_current_field_first() {
    let named = search_result_from_fields(
        12,
        text("Current Name"),
        text("Legacy Name"),
        text("Example Artist"),
        Some(text("Example Album")),
        95,
        None,
        Some(text("line")),
    );
    assert_eq!(named.track_name, "Current Name");
    assert_eq!(named.artist_name, "Example Artist");
    let legacy = search_result_from_fields(
        9_386_114,
        text(""),
        text("feel my soul"),
        text("joy"),
        Some(text("feel my soul")),
        223,
        Some(text("[00:01.00]synced line")),
        Some(text("plain line")),
    );
    assert_eq!(legacy.track_name, "feel my soul");
    assert_eq!(legacy.duration_seconds, 223);
}

#[test]
fn lrclib_manual_search_uses_combined_query_first() {
    let urls = lrclib_search_urls("joy", "feel my soul").expect("lrclib search urls");
    assert_eq!(query_pairs(&urls[0]), pairs(&[("q", "feel my soul joy")]));
}

#[test]
fn lrclib_manual_search_keeps_single_field_fallbacks() {
    let urls = lrclib_search_urls("Example Artist", "Opening Theme").expect("lrclib search urls");
    let query_sets = urls.iter().map(|url| query_pairs(url)).collect::<Vec<_>>();

    assert_eq!(
        query_sets,
        vec![
            pairs(&[("q", "Opening Theme Example Artist")]),
            pairs(&[("track_name", "Opening Theme"), ("artist_name", "Example Artist")]),
            pairs(&[("q", "Opening Theme")]),
            pairs(&[("track_name", "Opening Theme")]),
            pairs(&[("q", "Example Artist")]),
        ]
    );
}

#[test]
fn lrclib_automatic_search_requires_track_and_artist() {
    let urls = lrclib_automatic_search_urls("Example Artist", "Opening Theme")
        .expect("lrclib automatic search urls");
    let query_sets = urls.iter().map(|url| query_pairs(url)).collect::<Vec<_>>();

    assert_eq!(
        query_sets,
        vec![
            pairs(&[("q", "Opening Theme Example Artist")]),
            pairs(&[("track_name", "Opening Theme"), ("artist_name", "Example Artist")]),
        ]
    );
    assert!(lrclib_automatic_search_urls("", "Opening Theme")
        .expect("missing artist urls")
        .is_empty());
    assert!(lrclib_automatic_search_urls("Example Artist", "")
        .expect("missing track urls")
        .is_empty());
}

#[test]
fn lrclib_exact_lookup_url_uses_track_artist_and_duration() {
    let url = lrclib_get_url("The Cure", "Lovesong", 210)
        .expect("lrclib get url")
        .expect("url");

    assert_eq!(
        url.as_str(),
        "https://lrclib.net/api/get?track_name=Lovesong&artist_name=The+Cure&duration=210"
    );
    let url = lrclib_get_url("The Cure", "Lovesong", 0)
        .expect("lrclib get url")
        .expect("url");
    assert_eq!(
        url.as_str(),
        "https://lrclib.net/api/get?track_name=Lovesong&artist_name=The+Cure"
    );
}

#[test]
fn automatic_lrclib_fallback_skips_empty_hits() {
    let entry = QueueEntry {
        id: QueueEntryId { value: text("queue-entry:lyrics-fallback") },
        track_id: track_id("jellyfin:track:lovesong"),
        album_id: Some(fake_album_id(1)),
        title: text("Lovesong"),
        artist: text("The Cure"),
        artist_id: Some(fake_artist_id(1)),
        album: text("Disintegration"),
        year: 1989,
        duration_seconds: 210,
        ..blank_entry()
    };
    let results = vec![
        found(1, "Lovesong", "The Cure", "Disintegration", 210, None, None),
        found(
            2,
            "Lovesong",
            "The Cure",
            "Disintegration",
            210,
            Some("[00:01.00]first line"),
            Some("first line"),
        ),
    ];

    let lyrics = lyrics_from_lrclib_results(&entry, results).expect("lyrics");

    assert_eq!(lyrics.track_id, entry.track_id);
    assert_eq!(lyrics.source, LyricsSource::Remote);
    assert_eq!(lyrics.lines[0].text, "first line");
    assert_eq!(lyrics.lines[0].start_millis, Some(1_000));
}

#[test]
fn lrclib_results_prefer_matching_title_over_album_hit() {
    let mut results = vec![
        found(
            1,
            "Crippled Inside",
            "John Lennon",
            "Imagine",
            233,
            Some("[00:01.00]line"),
            Some("line"),
        ),
        found(2, "Imagine", "John Lennon", "Lennon", 185, None, Some("line")),
    ];
    order_lrclib_results(&mut results, "John Lennon", "Imagine");
    assert_eq!(results[0].track_name, "Imagine");
}

#[test]
fn lrclib_results_prefer_compact_title_token_matches() {
    let mut results = vec![
        found(
            1,
            "Long Title With Part Token",
            "Example Artist",
            "Example Album",
            240,
            Some("[00:01.00]line"),
            Some("line"),
        ),
        found(
            2,
            "Part Two",
            "Example Artist",
            "Example Album",
            120,
            Some("[00:01.00]line"),
            Some("line"),
        ),
    ];

    order_lrclib_results(&mut results, "", "part");

    assert_eq!(results[0].track_name, "Part Two");
}

#[test]
fn lyrics_of_a_server_are_shown_and_kept() {
    let mut store = open_memory();
    let server = saved("jellyfin:server:lyrics", "jellyfin");
    let track = restored_track();
    let mut queue = QueueEngine::new(server.server.id.clone());
    queue.play_now(&track);
    store.save_server(&server).expect("save server");
    store.set_active_server(&server.server.id).expect("set active");
    store.save_queue_snapshot(&queue.snapshot()).expect("save queue");
    let mut world = World::over(store);
    let lyrics = one_line(&track.id, LyricsSource::Server, "first line");
    world.controller.show_lyrics(&server.server.id, lyrics.clone());
    assert_eq!(world.wait_for_lyrics(), Some(lyrics.clone()));
    assert_eq!(
        world.controller.store().load_lyrics(&server.server.id, &track.id),
        Ok(Some(lyrics))
    );
}

fn server_world(cue: bool) -> (World, SavedServer, Track) {
    let mut store = open_memory();
    let server = saved("jellyfin:server:lyrics", "jellyfin");
    let track = Track { from_cue: cue, ..restored_track() };
    let mut queue = QueueEngine::new(server.server.id.clone());
    queue.play_now(&track);
    let settings = AppSettings {
        external_lyrics_providers: vec![text("first"), text("second")],
        ..AppSettings::default()
    };
    store.save_settings(&settings).expect("save settings");
    store.save_server(&server).expect("save server");
    store.set_active_server(&server.server.id).expect("set active");
    store.upsert_tracks(&server.server.id, &vec![track.clone()]).expect("tracks");
    store.save_queue_snapshot(&queue.snapshot()).expect("save queue");
    (World::over(store), server, track)
}

fn only_effect(world: &mut World) -> Effect {
    let mut effects = world.controller.drain_effects();
    assert_eq!(effects.len(), 1);
    effects.remove(0)
}

#[test]
fn lyrics_are_looked_up_at_the_chosen_providers() {
    let (mut world, _server, _track) = server_world(false);
    let chosen = vec![text("first"), text("second")];
    world.controller.request_lyrics_for_current();
    let Effect::FetchServerLyrics { saved, entry, search, providers } = only_effect(&mut world)
    else {
        panic!("the server is asked");
    };
    assert_eq!(providers, chosen);
    world.controller.server_lyrics_missing(&saved.server.id, &entry, search, &providers, None);
    let Effect::FetchExternalLyrics { providers, server_error, .. } = only_effect(&mut world)
    else {
        panic!("others are asked");
    };
    assert_eq!(providers, chosen);
    assert_eq!(server_error, None);
    world.controller.search_lyrics_for_current("Artist", "Track");
    let Effect::SearchLyrics { providers, artist_name, track_name, .. } = only_effect(&mut world)
    else {
        panic!("lyrics are searched");
    };
    assert_eq!(providers, chosen);
    assert_eq!((artist_name, track_name), (text("Artist"), text("Track")));
    assert_eq!(AppSettings::default().external_lyrics_providers, vec![text("lrclib")]);
}

#[test]
fn lyrics_kept_of_a_part_of_a_file_are_not_shown() {
    for cue in [false, true] {
        let (mut world, server, track) = server_world(cue);
        let kept = one_line(&track.id, LyricsSource::Server, "kept line");
        world.controller.store_mut().save_lyrics(&server.server.id, &kept).expect("save lyrics");
        world.controller.request_lyrics_for_current();
        let asked = world.controller.drain_effects();
        if cue {
            assert!(matches!(asked[..], [Effect::FetchServerLyrics { .. }]));
            assert!(world.controller.drain_events().is_empty());
        } else {
            assert!(asked.is_empty());
            assert_eq!(
                world.controller.drain_events(),
                vec![ControllerEvent::Lyrics(Some(kept))]
            );
        }
    }
}

#[test]
fn lyrics_are_told_once_for_each_request() {
    let none = ControllerEvent::Lyrics(None);
    let failed = ControllerEvent::Error(text("server is down"));
    for (server_error, found_elsewhere, expected) in [
        (None, false, vec![none.clone()]),
        (Some(text("server is down")), false, vec![failed, none.clone()]),
        (Some(text("server is down")), true, Vec::new()),
        (None, true, Vec::new()),
    ] {
        let (mut world, server, track) = server_world(false);
        world.controller.request_lyrics_for_current();
        let Effect::FetchServerLyrics { entry, search, providers, .. } = only_effect(&mut world)
        else {
            panic!("the server is asked");
        };
        let id = server.server.id.clone();
        world.controller.server_lyrics_missing(&id, &entry, search, &providers, server_error);
        let Effect::FetchExternalLyrics { server_error, .. } = only_effect(&mut world) else {
            panic!("others are asked");
        };
        let lyrics = one_line(&track.id, LyricsSource::Remote, "found line");
        let found = found_elsewhere.then_some(lyrics.clone());
        world.controller.external_lyrics_fetched(&id, found, server_error);
        let told = world.controller.drain_events();
        if found_elsewhere {
            assert_eq!(told, vec![ControllerEvent::Lyrics(Some(lyrics))]);
        } else {
            assert_eq!(told, expected);
        }
        assert!(world.controller.drain_effects().is_empty());
    }
    let mut idle = World::fake();
    idle.controller.request_lyrics_for_current();
    assert_eq!(idle.controller.drain_events(), vec![none]);
}

#[test]
fn refreshing_lyrics_passes_over_those_kept() {
    let (mut world, server, track) = server_world(false);
    let kept = one_line(&track.id, LyricsSource::Server, "kept line");
    world.controller.store_mut().save_lyrics(&server.server.id, &kept).expect("save lyrics");
    world.controller.refresh_lyrics_for_current();
    assert!(world.controller.drain_events().is_empty());
    assert!(matches!(only_effect(&mut world), Effect::FetchServerLyrics { .. }));
}

#[test]
fn searches_end_with_the_first_hit() {
    let hit = found(1, "Track", "Artist", "Album", 0, None, None);
    assert!(ends_search(&Ok(vec![hit])));
    assert!(!ends_search(&Ok(Vec::new())));
    assert!(!ends_search(&Err(text("offline"))));
}

#[test]
fn hits_without_a_name_are_passed_over() {
    let track = found(1, "Track", "", "", 0, None, None);
    let artist = found(2, " ", "Artist", "", 0, None, None);
    let neither = found(3, " ", "", "Album", 0, None, None);
    assert_eq!(
        named_hits(&vec![neither.clone(), artist.clone(), track.clone()]),
        vec![artist, track]
    );
    assert!(named_hits(&vec![neither]).is_empty());
}

#[test]
fn the_lyrics_service_is_asked_where_it_is_chosen() {
    assert!(asks_lrclib(&AppSettings::default().external_lyrics_providers));
    assert!(asks_lrclib(&vec![text("other"), text("lrclib")]));
    assert!(!asks_lrclib(&vec![text("other")]));
    assert!(!asks_lrclib(&Vec::new()));
}
