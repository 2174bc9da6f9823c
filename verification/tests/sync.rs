//! Reading whole libraries, and what is told meanwhile.

use rufin::controller::AppController;
use rufin::model::events::{ControllerEvent, Effect, FavoriteItemId};
use rufin::model::ids::{AlbumId, ArtistId, PlaylistId, QueueEntryId, ServerId, TrackId};
use rufin::model::library::{Album, Artist, ImageRef, Track};
use rufin::model::lyrics::Lyrics;
use rufin::model::playback::{
    PlaybackCommand, PlaybackEvent, PlaybackSnapshot, PlaybackState, StreamDescriptor,
};
use rufin::model::queue::{QueueEntry, QueueSnapshot};
use rufin::model::settings::AppSettings;
use rufin::model::snapshot::LibrarySnapshot;
use rufin::model::source::{SavedServer, ServerIdentity};
use rufin::model::store::Store;
use rufin::store::{no_tokens, open_memory};
use rufin::home_sections::home_refresh_section_kinds;
use rufin::library_sync::{LibrarySync, SyncRequest, SyncStage};
use rufin::model::events::HomeRefreshTarget;
use rufin::model::ids::{GenreId, MusicFolderId};
use rufin::model::library::{
    Genre, HomeSection, HomeSectionKind, MusicFolder, Playlist, PlaylistEntry,
};
use rufin::model::store::FolderMember;
use rufin::sync_progress::{
    elapsed_label, formatted_count, page_label, progress_count_label, sync_page_finished,
    SyncPages, SyncProgressReporter, PAGE_SIZE,
};

#[allow(dead_code)]
fn text(value: &str) -> String {
    value.to_string()
}

#[allow(dead_code)]
fn track_id(value: &str) -> TrackId {
    TrackId { value: text(value) }
}

#[allow(dead_code)]
fn album_id(value: &str) -> AlbumId {
    AlbumId { value: text(value) }
}

#[allow(dead_code)]
fn artist_id(value: &str) -> ArtistId {
    ArtistId { value: text(value) }
}

#[allow(dead_code)]
fn fake_track_id(number: u32) -> TrackId {
    TrackId { value: format!("fake:track:{number}") }
}

#[allow(dead_code)]
fn fake_album_id(number: u32) -> AlbumId {
    AlbumId { value: format!("fake:album:{number}") }
}

#[allow(dead_code)]
fn fake_artist_id(number: u32) -> ArtistId {
    ArtistId { value: format!("fake:artist:{number}") }
}

#[allow(dead_code)]
fn image(item_id: &str, tag: Option<&str>) -> ImageRef {
    ImageRef { item_id: text(item_id), tag: tag.map(text) }
}

#[allow(dead_code)]
fn external_settings() -> AppSettings {
    AppSettings { external_metadata_enabled: true, ..AppSettings::default() }
}

#[allow(dead_code)]
fn blank_track() -> Track {
    Track {
        id: track_id("track-one"),
        album_id: album_id("album-one"),
        title: text("Track"),
        artist: text("Artist"),
        artist_id: None,
        artist_credits: Vec::new(),
        album_artist_credits: Vec::new(),
        album: text("Album"),
        year: 2011,
        release_date: None,
        date_added: None,
        last_played: None,
        play_count: None,
        user_rating: None,
        duration_seconds: 60,
        favorite: false,
        disc_number: 1,
        track_number: 1,
        image_ref: None,
        genres: Vec::new(),
        musicbrainz_recording_id: None,
        musicbrainz_release_track_id: None,
        local_path: None,
        source_format: None,
        comment: None,
        skip_count: None,
        from_cue: false,
    }
}

#[allow(dead_code)]
fn blank_album() -> Album {
    Album {
        id: album_id("album-one"),
        title: text("Album"),
        artist: text("Artist"),
        artist_id: None,
        album_artist_credits: Vec::new(),
        artist_credits: Vec::new(),
        year: 2011,
        release_date: None,
        date_added: None,
        last_played: None,
        play_count: None,
        user_rating: None,
        track_count: 1,
        duration_seconds: 60,
        favorite: false,
        color_seed: 1,
        image_ref: None,
        genres: Vec::new(),
        release_types: Vec::new(),
        is_compilation: None,
        musicbrainz_album_id: None,
        musicbrainz_release_group_id: None,
    }
}

#[allow(dead_code)]
fn blank_artist(id: &str, name: &str) -> Artist {
    Artist {
        id: artist_id(id),
        name: text(name),
        album_count: 1,
        track_count: 1,
        favorite: false,
        last_played: None,
        play_count: None,
        user_rating: None,
        image_ref: None,
    }
}

#[allow(dead_code)]
fn blank_entry() -> QueueEntry {
    QueueEntry {
        id: QueueEntryId { value: text("entry-one") },
        track_id: track_id("track-one"),
        album_id: Some(album_id("album-one")),
        title: text("Track"),
        artist: text("Artist"),
        artist_id: None,
        album: text("Album"),
        year: 2011,
        duration_seconds: 60,
        favorite: false,
        image_ref: None,
        local_path: None,
        source_format: None,
        origin: None,
    }
}
/// Where the random sequence of a [`World`] begins.
#[allow(dead_code)]
const RANDOM_SEED: u64 = 7;


/// A controller with a player and servers that answer at once.
#[allow(dead_code)]
struct World {
    controller: AppController,
    events: Vec<ControllerEvent>,
    commands: Vec<PlaybackCommand>,
    effects: Vec<Effect>,
    pending: Vec<PlaybackEvent>,
    /// What the player refuses everything with, where it does.
    refusal: Option<String>,
}

#[allow(dead_code)]
impl World {
    fn over(store: Store) -> World {
        let begun = AppController::bootstrap(store, no_tokens(), RANDOM_SEED, false, None);
        World {
            controller: begun.controller,
            events: Vec::new(),
            commands: Vec::new(),
            effects: Vec::new(),
            pending: Vec::new(),
            refusal: None,
        }
    }

    fn fake() -> World {
        World::over(fake_store())
    }

    /// Answers what is asked for, until nothing more is.
    fn settle(&mut self) {
        loop {
            self.events.extend(self.controller.drain_events());
            let effects = self.controller.drain_effects();
            if effects.is_empty() {
                return;
            }
            for effect in effects {
                self.answer(effect);
            }
        }
    }

    fn answer(&mut self, effect: Effect) {
        self.effects.push(effect.clone());
        let controller = &mut self.controller;
        match effect {
            Effect::Playback(command) => {
                self.commands.push(command.clone());
                match self.refusal.clone() {
                    Some(error) => controller.command_rejected(command, error),
                    None => controller.command_accepted(command),
                }
            }
            Effect::PlayStream { request, stream, command } => {
                self.commands.push(command.clone());
                match self.refusal.clone() {
                    Some(error) => controller.command_rejected(command, error),
                    None => {
                        self.pending.push(PlaybackEvent::StateChanged(PlaybackState::Playing));
                        controller.current_stream_accepted(&request, stream);
                    }
                }
            }
            Effect::StopPlayer => self.commands.push(PlaybackCommand::Stop),
            Effect::ResolveCurrent(request) => {
                let stream = fake_stream(&request.entry.track_id);
                controller.current_stream_resolved(request, stream);
            }
            Effect::ResolveNext(request) => {
                let stream = fake_stream(&request.next_entry.track_id);
                let _sent = controller.next_stream_resolved(&request, stream);
            }
            Effect::TopUpQueue => controller.top_up_queue(),
            Effect::PersistQueue { generation, snapshot } => {
                controller.persist_queue_now(generation, &snapshot)
            }
            Effect::ReadSidecarLyrics { server_id, entry, use_cache, search, providers, .. } => {
                controller.sidecar_lyrics_read(
                    &server_id,
                    &entry,
                    use_cache,
                    search,
                    &providers,
                    &None,
                )
            }
            Effect::FetchServerLyrics { saved, entry, search, providers } => {
                controller.server_lyrics_missing(
                    &saved.server.id,
                    &entry,
                    search,
                    &providers,
                    None,
                )
            }
            Effect::FetchExternalLyrics { server_id, server_error, .. } => {
                controller.external_lyrics_fetched(&server_id, None, server_error)
            }
            Effect::MatchLocalTracks { server_id, .. } => {
                controller.local_tracks_read(&server_id, &None)
            }
            Effect::ClearDiskCovers { server_id, next } => {
                controller.disk_covers_cleared(&server_id, next)
            }
            _ => {}
        }
    }

    /// Lets the player tell what it has to.
    fn poll(&mut self) {
        self.settle();
        let events = std::mem::take(&mut self.pending);
        self.controller.poll_playback_events(events);
        self.settle();
    }

    fn poll_with(&mut self, events: Vec<PlaybackEvent>) {
        self.controller.poll_playback_events(events);
        self.settle();
    }

    /// The first of the events not looked at yet that is wanted; those before it are dropped.
    fn wait<T>(&mut self, mut wanted: impl FnMut(&ControllerEvent) -> Option<T>) -> T {
        self.settle();
        while !self.events.is_empty() {
            let event = self.events.remove(0);
            if let Some(found) = wanted(&event) {
                return found;
            }
        }
        panic!("no such event");
    }

    fn wait_for_queue(&mut self) -> QueueSnapshot {
        self.wait(|event| match event {
            ControllerEvent::Queue(Some(queue)) => Some(queue.clone()),
            _ => None,
        })
    }

    fn wait_for_snapshot(&mut self) -> LibrarySnapshot {
        self.wait(|event| match event {
            ControllerEvent::Snapshot(snapshot) => Some(snapshot.clone()),
            _ => None,
        })
    }

    fn wait_for_status(&mut self) -> String {
        self.wait(|event| match event {
            ControllerEvent::LoginStatus(status) => Some(status.clone()),
            _ => None,
        })
    }

    fn wait_for_error(&mut self) -> String {
        self.wait(|event| match event {
            ControllerEvent::Error(error) => Some(error.clone()),
            _ => None,
        })
    }

    fn wait_for_lyrics(&mut self) -> Option<Lyrics> {
        self.wait(|event| match event {
            ControllerEvent::Lyrics(lyrics) => Some(lyrics.clone()),
            _ => None,
        })
    }

    fn wait_for_player(&mut self, wanted: impl Fn(&PlaybackSnapshot) -> bool) -> PlaybackSnapshot {
        self.wait(|event| match event {
            ControllerEvent::Playback(player) if wanted(player) => Some(player.clone()),
            _ => None,
        })
    }

    fn wait_for_state(&mut self, state: PlaybackState) -> PlaybackSnapshot {
        self.poll();
        self.wait_for_player(|player| player.state == state)
    }

    fn wait_for_position(&mut self, millis: u64) -> PlaybackSnapshot {
        self.wait_for_player(|player| player.position_millis == millis)
    }

    fn wait_for_favorite(&mut self) -> (FavoriteItemId, bool, LibrarySnapshot) {
        self.wait(|event| match event {
            ControllerEvent::FavoriteChanged { item_id, favorite, snapshot } => {
                Some((item_id.clone(), *favorite, snapshot.clone()))
            }
            _ => None,
        })
    }

    fn wait_for_playlist(&mut self) -> (PlaylistId, LibrarySnapshot) {
        self.wait(|event| match event {
            ControllerEvent::PlaylistChanged { playlist_id, snapshot } => {
                Some((playlist_id.clone(), snapshot.clone()))
            }
            _ => None,
        })
    }

    fn server_id(&self) -> ServerId {
        self.controller.store().shown().expect("a source is shown").server.id
    }

    fn tracks(&self) -> Vec<Track> {
        self.controller.store().library(&self.server_id()).tracks
    }

    fn queue(&self) -> QueueSnapshot {
        self.controller.queue_snapshot().expect("queue")
    }
}

#[allow(dead_code)]
fn fake_stream(track_id: &TrackId) -> StreamDescriptor {
    let uri = format!("fake://local/stream/{}", track_id.value);
    StreamDescriptor { redacted_uri: uri.clone(), uri }
}

#[allow(dead_code)]
fn saved(id: &str, provider: &str) -> SavedServer {
    SavedServer {
        server: ServerIdentity {
            id: ServerId { value: text(id) },
            provider: text(provider),
            name: text("Test Server"),
            base_url: text("https://music.example"),
        },
        user_id: text("user"),
        username: text("demo"),
        trust_invalid_cert: false,
    }
}

/// A store with one source of many albums and tracks, whose library was read.
#[allow(dead_code)]
fn fake_store() -> Store {
    let mut store = open_memory();
    let server = saved("fake:server:1", "fake");
    let id = server.server.id.clone();
    let albums = (1..=8)
        .map(|number: u32| Album {
            id: fake_album_id(number),
            title: format!("Album {number}"),
            artist: format!("Artist {}", number % 4),
            artist_id: Some(fake_artist_id(number % 4)),
            ..blank_album()
        })
        .collect::<Vec<_>>();
    let tracks = (1..=40)
        .map(|number: u32| Track {
            id: fake_track_id(number),
            album_id: fake_album_id(1 + number % 8),
            title: format!("Track {number}"),
            artist: format!("Artist {}", number % 4),
            artist_id: Some(fake_artist_id(number % 4)),
            album: format!("Album {}", 1 + number % 8),
            duration_seconds: 180 + number,
            favorite: number % 5 == 1,
            genres: vec![text(if number % 2 == 0 { "Rock" } else { "Jazz" })],
            ..blank_track()
        })
        .collect::<Vec<_>>();
    store.save_server(&server).expect("save server");
    store.set_active_server(&id).expect("set active");
    let generation = store.begin_sync(&id).expect("begin sync");
    store.upsert_albums(&id, &albums).expect("albums");
    store.upsert_tracks(&id, &tracks).expect("tracks");
    store.complete_sync(&id, generation).expect("complete sync");
    store
}

#[allow(dead_code)]
fn restored_track() -> Track {
    Track {
        id: track_id("jellyfin:track:lyrics"),
        album_id: fake_album_id(1),
        title: text("Restored Track"),
        artist: text("Artist"),
        artist_id: Some(fake_artist_id(1)),
        album: text("Album"),
        year: 2026,
        duration_seconds: 180,
        ..blank_track()
    }
}

#[allow(dead_code)]
fn entry_track_ids(queue: &QueueSnapshot) -> Vec<TrackId> {
    queue.entries.iter().map(|entry| entry.track_id.clone()).collect()
}

#[allow(dead_code)]
fn current_track_id(queue: &QueueSnapshot) -> TrackId {
    queue.entries[queue.current_index.expect("current")].track_id.clone()
}

fn remote() -> SavedServer {
    saved("jellyfin:server:test", "jellyfin")
}

fn store_with_remote() -> (Store, SavedServer, u64) {
    let mut store = open_memory();
    let server = remote();
    store.save_server(&server).expect("save server");
    store.set_active_server(&server.server.id).expect("set active");
    let generation = store.begin_sync(&server.server.id).expect("begin sync");
    (store, server, generation)
}

fn tracks(first: u32, last: u32) -> Vec<Track> {
    (first..=last)
        .map(|number| Track { id: fake_track_id(number), ..blank_track() })
        .collect()
}

fn playlist(id: &str) -> Playlist {
    Playlist {
        id: PlaylistId { value: text(id) },
        name: text(id),
        track_count: 1,
        duration_seconds: 60,
        image_refs: Vec::new(),
        image_ref: None,
    }
}

fn entry(id: &str, number: u32) -> PlaylistEntry {
    PlaylistEntry {
        entry_id: text(id),
        track: Track { id: fake_track_id(number), ..blank_track() },
    }
}

#[test]
fn a_library_is_read_stage_by_stage() {
    let (mut store, server, generation) = store_with_remote();
    let id = server.server.id.clone();
    let mut sync = LibrarySync::begin(server, generation, true, 0);
    assert_eq!(sync.request(), SyncRequest::Albums { offset: 0, limit: PAGE_SIZE });
    let album = Album { id: fake_album_id(1), ..blank_album() };
    sync.albums_read(&mut store, &vec![album], 1, 10).expect("albums");

    assert_eq!(sync.request(), SyncRequest::Tracks { offset: 0, limit: PAGE_SIZE });
    sync.tracks_read(&mut store, &tracks(1, 500), 0, 20).expect("tracks");
    assert_eq!(sync.request(), SyncRequest::Tracks { offset: 500, limit: PAGE_SIZE });
    sync.tracks_read(&mut store, &tracks(501, 620), 0, 30).expect("tracks");

    assert_eq!(sync.request(), SyncRequest::MusicFolders);
    let folder = MusicFolder { id: MusicFolderId { value: text("folder") }, name: text("Folder") };
    sync.music_folders_read(&mut store, &vec![folder.clone()], 40).expect("folders");
    assert_eq!(
        sync.request(),
        SyncRequest::FolderTracks { folder_id: folder.id.clone(), offset: 0, limit: PAGE_SIZE }
    );
    sync.folder_tracks_read(&mut store, &tracks(621, 621), 1, 50).expect("folder tracks");
    assert_eq!(
        store.library(&id).folder_members,
        vec![FolderMember { folder_id: folder.id.clone(), track_id: fake_track_id(621) }]
    );

    assert_eq!(sync.request(), SyncRequest::Artists { offset: 0, limit: PAGE_SIZE });
    sync.artists_read(&mut store, &vec![blank_artist("artist", "Artist")], 1, 60).expect("artists");
    assert_eq!(sync.request(), SyncRequest::AlbumArtists { offset: 0, limit: PAGE_SIZE });
    sync.artists_read(&mut store, &Vec::new(), 5, 70).expect("album artists");

    assert_eq!(sync.request(), SyncRequest::Genres { offset: 0, limit: PAGE_SIZE });
    let genre =
        Genre { id: GenreId { value: text("rock") }, name: text("Rock"), image_ref: None };
    sync.genres_read(&mut store, &vec![genre], 1, 80).expect("genres");

    assert_eq!(sync.request(), SyncRequest::Playlists { offset: 0, limit: PAGE_SIZE });
    sync.playlists_read(&mut store, &vec![playlist("one"), playlist("two")], 2, 90)
        .expect("playlists");
    for (name, number) in [("one", 700), ("two", 701)] {
        let playlist_id = PlaylistId { value: text(name) };
        assert_eq!(sync.request(), SyncRequest::PlaylistDetail(playlist_id.clone()));
        let rows = vec![entry(name, number)];
        let found = tracks(number, number);
        sync.playlist_read(&mut store, &playlist_id, &found, &rows, 100).expect("playlist");
    }

    assert_eq!(sync.request(), SyncRequest::HomeSections);
    let section = HomeSection {
        kind: HomeSectionKind::MostPlayed,
        albums: Vec::new(),
        tracks: tracks(1, 1),
    };
    sync.home_sections_read(&mut store, &vec![section], 3_000).expect("home sections");

    assert_eq!(sync.request(), SyncRequest::Nothing);
    assert_eq!(sync.stage, SyncStage::Finished);
    let library = store.library(&id);
    assert_eq!(library.albums.len(), 1);
    assert_eq!(library.tracks.len(), 623);
    assert_eq!(library.music_folders, vec![folder]);
    assert_eq!(library.artists.len(), 1);
    assert!(library.album_artists.is_empty());
    assert_eq!(library.genres.len(), 1);
    assert_eq!(library.playlists.len(), 2);
    assert_eq!(library.playlist_rows.len(), 2);
    assert_eq!(library.home_sections.len(), 1);
    assert_eq!(library.sync.status, "idle");
    assert_eq!(library.sync.generation, generation);
    let told = sync.drain_told();
    assert_eq!(
        told[0],
        "Caching library... This may take some time. Fetching albums for Test Server (Jellyfin) \
         (0s elapsed)"
    );
    assert!(told.iter().any(|status| status
        == "Caching library... This may take some time. Cached tracks page 2 for Test Server \
            (Jellyfin), 620 fetched, 620 cached (0s elapsed)"));
    assert_eq!(
        told.last().map(String::as_str),
        Some("Library cache ready for Test Server (Jellyfin) in 3s elapsed")
    );
    assert!(sync.drain_told().is_empty());
}

#[test]
fn tracks_of_music_folders_are_kept_as_their_members() {
    let (mut store, server, generation) = store_with_remote();
    let id = server.server.id.clone();
    let mut sync = LibrarySync::begin(server, generation, true, 0);
    sync.albums_read(&mut store, &Vec::new(), 0, 0).expect("albums");
    sync.tracks_read(&mut store, &Vec::new(), 0, 0).expect("tracks");
    let one = MusicFolder { id: MusicFolderId { value: text("one") }, name: text("One") };
    let two = MusicFolder { id: MusicFolderId { value: text("two") }, name: text("Two") };
    sync.music_folders_read(&mut store, &vec![one.clone(), two.clone()], 0).expect("folders");
    sync.folder_tracks_read(&mut store, &tracks(1, 500), 502, 0).expect("first page");
    sync.folder_tracks_read(&mut store, &tracks(500, 502), 502, 0).expect("second page");
    assert_eq!(
        sync.request(),
        SyncRequest::FolderTracks { folder_id: two.id.clone(), offset: 0, limit: PAGE_SIZE }
    );
    sync.folder_tracks_read(&mut store, &tracks(502, 502), 1, 0).expect("other folder");

    let members = store.library(&id).folder_members;
    let of = |folder: &MusicFolder| {
        members
            .iter()
            .filter(|member| member.folder_id == folder.id)
            .map(|member| member.track_id.clone())
            .collect::<Vec<_>>()
    };
    assert_eq!(of(&one), (1..=502).map(fake_track_id).collect::<Vec<_>>());
    assert_eq!(of(&two), vec![fake_track_id(502)]);
    assert_eq!(store.library(&id).tracks.len(), 502);
    assert!(store.is_consistent());
    store.clear_library_cache(&id).expect("clear");
    assert!(store.library(&id).folder_members.is_empty());
}

#[test]
fn music_folders_are_passed_over_where_there_are_none() {
    let (mut store, server, generation) = store_with_remote();
    let mut sync = LibrarySync::begin(server, generation, false, 0);
    sync.albums_read(&mut store, &Vec::new(), 0, 0).expect("albums");
    sync.tracks_read(&mut store, &Vec::new(), 0, 0).expect("tracks");
    assert_eq!(sync.request(), SyncRequest::Artists { offset: 0, limit: PAGE_SIZE });
}

#[test]
fn reading_stays_where_it_is_while_nothing_can_be_kept() {
    let (mut store, server, generation) = store_with_remote();
    let mut sync = LibrarySync::begin(server, generation, false, 0);
    let before = sync.clone();
    store.fault = Some(text("disk is gone"));
    assert_eq!(
        sync.albums_read(&mut store, &vec![blank_album()], 1, 0),
        Err(text("disk is gone"))
    );
    assert_eq!(sync, before);
}

#[test]
fn playlists_alone_are_read_silently_and_unseen_ones_go() {
    let (mut store, server, _generation) = store_with_remote();
    let id = server.server.id.clone();
    store.upsert_playlists(&id, &vec![playlist("stale")]).expect("playlists");
    let mut sync = LibrarySync::begin_playlists_only(server, 0);
    sync.playlists_read(&mut store, &vec![playlist("fresh")], 1, 0).expect("playlists");
    assert_eq!(store.library(&id).playlists.len(), 2);
    let fresh = PlaylistId { value: text("fresh") };
    let rows = vec![entry("row", 1)];
    sync.playlist_read(&mut store, &fresh, &tracks(1, 1), &rows, 0).expect("playlist");
    assert_eq!(sync.request(), SyncRequest::Nothing);
    assert_eq!(store.library(&id).playlists, vec![playlist("fresh")]);
    assert_eq!(store.library(&id).sync.status, "syncing");
    assert!(sync.drain_told().is_empty());
}

#[test]
fn waiting_is_told_now_and_again() {
    let (_store, server, generation) = store_with_remote();
    let mut sync = LibrarySync::begin(server, generation, false, 0);
    let _begun = sync.drain_told();
    sync.still_fetching(500);
    assert!(sync.drain_told().is_empty());
    sync.still_fetching(2_000);
    assert_eq!(
        sync.drain_told(),
        vec![text(
            "Caching library... This may take some time. Fetching albums page 1 for Test Server \
             (Jellyfin), 0 fetched (2s elapsed)"
        )]
    );
}

#[test]
fn counts_pages_and_times_are_told_in_words() {
    assert_eq!(formatted_count(0), "0");
    assert_eq!(formatted_count(1_234_567), "1,234,567");
    assert_eq!(progress_count_label(1_500, Some(12_000)), "1,500/12,000");
    assert_eq!(progress_count_label(1_500, None), "1,500");
    assert_eq!(page_label(2, Some(1_001)), "page 2/3");
    assert_eq!(page_label(2, None), "page 2");
    assert_eq!(elapsed_label(59), "59s elapsed");
    assert_eq!(elapsed_label(61), "1m 01s elapsed");
}

#[test]
fn sources_named_like_their_kind_are_named_once() {
    let mut reporter = SyncProgressReporter::new(text("Jellyfin"), text("Jellyfin"), false, 0);
    assert_eq!(
        reporter.finished(1_000),
        Some(text("Library cache ready for Jellyfin in 1s elapsed"))
    );
    let mut silent = SyncProgressReporter::new(text("Music"), text("Jellyfin"), true, 0);
    assert_eq!(silent.finished(1_000), None);
}

#[test]
fn pages_end_with_the_total_or_a_short_page() {
    let mut pages = SyncPages::begin();
    pages.page_received(500, 620);
    assert_eq!(pages, SyncPages { offset: 500, page_number: 2, finished: false });
    assert_eq!(pages.request(), (500, 500));
    pages.page_received(120, 620);
    assert!(pages.finished);
    assert!(sync_page_finished(0, 1_000, 500));
}

#[test]
fn every_section_but_those_to_explore_is_read_anew() {
    assert_eq!(
        home_refresh_section_kinds(&HomeRefreshTarget::WithoutExplore),
        vec![HomeSectionKind::MostPlayed]
    );
    assert_eq!(
        home_refresh_section_kinds(&HomeRefreshTarget::Section(HomeSectionKind::Explore)),
        vec![HomeSectionKind::Explore]
    );
}
