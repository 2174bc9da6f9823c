//! What is kept of libraries and sources between runs.
use crate::model::ids::{AlbumId, ArtistId, MusicFolderId, PlaylistId, ServerId, TrackId};
use crate::model::library::{
    Album, AlbumView, Artist, ArtistView, Genre, HomeSection, HomeSectionKind, HomeSectionView,
    MusicFolder, Playlist, PlaylistEntry, PlaylistView, SmartPlaylistDetail, Track, TrackView,
};
use crate::model::lyrics::{Lyrics, LyricsSource, LyricsView};
use crate::model::queue::{QueueSnapshot, QueueSnapshotView};
use crate::model::settings::{AppSettings, AppSettingsView};
use crate::model::source::{SavedServer, SavedServerView, ServerLocalAccess, TrackLocalMatch};
use crate::model::store::{
    CoverCacheEntry, CoverCacheEntryView, FolderMember, FolderMemberView, LookupMiss,
    LookupMissView, PlaylistRows, PlaylistRowsView, ServerLibrary, ServerLibraryView, ServerToken,
    ServerTokenView, Store, StoreView, SyncState, SyncStateView, TokenStore, TokenStoreView,
};
use crate::select::{change_items, choose_items, chosen, Change, Choice};
use crate::store_keys::{group_store_keys, with_library_is_wf};
use crate::table::{
    find_row, get_row, group_distinct_keys, insert_row, insert_rows, keep_rows, put_row, put_rows,
    remove_row, row, row_place, rows_with_keys, without_row, Keyed,
};
use crate::text;
use crate::value::Value;
use vstd::prelude::*;

verus! {

/// Whether a read or write failed exactly where there is a fault, and gave a value where
/// there is none.
pub open spec fn answers<T: DeepView>(
    result: Result<T, String>,
    fault: Option<Seq<char>>,
    value: T::V,
) -> bool {
    match result {
        Err(error) => fault == Some(error@),
        Ok(given) => fault is None && given.deep_view() == value,
    }
}

/// Whether a write failed exactly where there is a fault.
pub open spec fn done(result: Result<(), String>, fault: Option<Seq<char>>) -> bool {
    match result {
        Err(error) => fault == Some(error@),
        Ok(_) => fault is None,
    }
}

/// Whether a write failed exactly where there is a fault, and else left what is expected, with
/// keys as distinct as they were.
pub open spec fn wrote(
    result: Result<(), String>,
    before: StoreView,
    after: StoreView,
    expected: StoreView,
) -> bool {
    &&& done(result, before.fault)
    &&& after == (if result is Ok {
        expected
    } else {
        before
    })
    &&& before.wf() ==> after.wf()
}

impl Keyed for SavedServer {
    open spec fn key(row: SavedServerView) -> Seq<char> {
        row.server.id
    }

    fn key_text(&self) -> (result: &str) {
        self.server.id.as_str()
    }
}

impl Keyed for ServerLibrary {
    open spec fn key(row: ServerLibraryView) -> Seq<char> {
        row.server_id
    }

    fn key_text(&self) -> (result: &str) {
        self.server_id.as_str()
    }
}

impl Keyed for ServerToken {
    open spec fn key(row: ServerTokenView) -> Seq<char> {
        row.server_id
    }

    fn key_text(&self) -> (result: &str) {
        self.server_id.as_str()
    }
}

impl Keyed for Album {
    open spec fn key(row: AlbumView) -> Seq<char> {
        row.id
    }

    fn key_text(&self) -> (result: &str) {
        self.id.as_str()
    }
}

impl Keyed for Track {
    open spec fn key(row: TrackView) -> Seq<char> {
        row.id
    }

    fn key_text(&self) -> (result: &str) {
        self.id.as_str()
    }
}

impl Keyed for Artist {
    open spec fn key(row: ArtistView) -> Seq<char> {
        row.id
    }

    fn key_text(&self) -> (result: &str) {
        self.id.as_str()
    }
}

impl Keyed for Genre {
    open spec fn key(row: crate::model::library::GenreView) -> Seq<char> {
        row.id
    }

    fn key_text(&self) -> (result: &str) {
        self.id.as_str()
    }
}

impl Keyed for MusicFolder {
    open spec fn key(row: crate::model::library::MusicFolderView) -> Seq<char> {
        row.id
    }

    fn key_text(&self) -> (result: &str) {
        self.id.as_str()
    }
}

impl Keyed for Playlist {
    open spec fn key(row: PlaylistView) -> Seq<char> {
        row.id
    }

    fn key_text(&self) -> (result: &str) {
        self.id.as_str()
    }
}

impl Keyed for PlaylistRows {
    open spec fn key(row: PlaylistRowsView) -> Seq<char> {
        row.playlist_id
    }

    fn key_text(&self) -> (result: &str) {
        self.playlist_id.as_str()
    }
}

impl Keyed for SmartPlaylistDetail {
    open spec fn key(row: crate::model::library::SmartPlaylistDetailView) -> Seq<char> {
        row.playlist.id
    }

    fn key_text(&self) -> (result: &str) {
        self.playlist.id.as_str()
    }
}

impl Keyed for Lyrics {
    open spec fn key(row: LyricsView) -> Seq<char> {
        row.track_id
    }

    fn key_text(&self) -> (result: &str) {
        self.track_id.as_str()
    }
}

/// A source of which nothing was read yet.
pub open spec fn empty_library(server_id: Seq<char>) -> ServerLibraryView {
    ServerLibraryView {
        server_id,
        albums: Seq::empty(),
        tracks: Seq::empty(),
        artists: Seq::empty(),
        album_artists: Seq::empty(),
        genres: Seq::empty(),
        playlists: Seq::empty(),
        playlist_rows: Seq::empty(),
        smart_playlists: Seq::empty(),
        music_folders: Seq::empty(),
        folder_members: Seq::empty(),
        selected_music_folder_id: None,
        home_sections: Seq::empty(),
        prefetched_sections: Seq::empty(),
        sync: SyncStateView { status: "idle"@, generation: 0, error: None },
        queue: None,
        local_access: None,
        local_matches: Seq::empty(),
        lyrics: Seq::empty(),
        covers: Seq::empty(),
        misses: Seq::empty(),
    }
}

fn new_library(server_id: &ServerId) -> (result: ServerLibrary)
    ensures
        result.deep_view() == empty_library(server_id.deep_view()),
{
    let result: ServerLibrary = ServerLibrary {
        server_id: server_id.copy(),
        albums: Vec::new(),
        tracks: Vec::new(),
        artists: Vec::new(),
        album_artists: Vec::new(),
        genres: Vec::new(),
        playlists: Vec::new(),
        playlist_rows: Vec::new(),
        smart_playlists: Vec::new(),
        music_folders: Vec::new(),
        folder_members: Vec::new(),
        selected_music_folder_id: None,
        home_sections: Vec::new(),
        prefetched_sections: Vec::new(),
        sync: SyncState { status: text::owned("idle"), generation: 0, error: None },
        queue: None,
        local_access: None,
        local_matches: Vec::new(),
        lyrics: Vec::new(),
        covers: Vec::new(),
        misses: Vec::new(),
    };
    assert(result.deep_view() =~= empty_library(server_id.deep_view()));
    result
}

/// The members of music folders with one more, unless it is among them.
pub open spec fn with_member(
    members: Seq<FolderMemberView>,
    member: FolderMemberView,
) -> Seq<FolderMemberView> {
    if members.contains(member) {
        members
    } else {
        members.push(member)
    }
}

/// The members of music folders with tracks added to one of the folders.
pub open spec fn with_members(
    members: Seq<FolderMemberView>,
    folder_id: Seq<char>,
    tracks: Seq<TrackView>,
) -> Seq<FolderMemberView>
    decreases tracks.len(),
{
    if tracks.len() == 0 {
        members
    } else {
        with_member(
            with_members(members, folder_id, tracks.drop_last()),
            FolderMemberView { folder_id, track_id: tracks.last().id },
        )
    }
}

fn add_members(members: &mut Vec<FolderMember>, folder_id: &MusicFolderId, tracks: &Vec<Track>)
    ensures
        final(members).deep_view() == with_members(
            old(members).deep_view(),
            folder_id.deep_view(),
            tracks.deep_view(),
        ),
{
    let ghost before = members.deep_view();
    let ghost all = tracks.deep_view();
    let mut i: usize = 0;
    assert(all.take(0) =~= Seq::empty());
    while i < tracks.len()
        invariant
            i <= tracks@.len(),
            all == tracks.deep_view(),
            members.deep_view() == with_members(
                before,
                folder_id.deep_view(),
                all.take(i as int),
            ),
        decreases tracks.len() - i,
    {
        assert(all.take(i + 1).drop_last() =~= all.take(i as int));
        assert(all.take(i + 1).last() == tracks@[i as int].deep_view());
        let ghost now = members.deep_view();
        let member: FolderMember = FolderMember {
            folder_id: folder_id.copy(),
            track_id: tracks[i].id.copy(),
        };
        if !crate::value::holds(members, &member) {
            let ghost added = member.deep_view();
            members.push(member);
            assert(members.deep_view() =~= now.push(added));
        }
        i += 1;
    }
    assert(all.take(i as int) =~= all);
}

/// Once tracks were added to a music folder, its members are those that it had and these, the
/// members of the other folders are those that they had, and none is there twice.
pub proof fn members_are_read_back(
    members: Seq<FolderMemberView>,
    folder_id: Seq<char>,
    tracks: Seq<TrackView>,
    member: FolderMemberView,
)
    ensures
        with_members(members, folder_id, tracks).contains(member) <==> members.contains(member)
            || (member.folder_id == folder_id && exists|i: int|
            0 <= i < tracks.len() && (#[trigger] tracks[i]).id == member.track_id),
        members.no_duplicates() ==> with_members(members, folder_id, tracks).no_duplicates(),
    decreases tracks.len(),
{
    if tracks.len() > 0 {
        let earlier = tracks.drop_last();
        members_are_read_back(members, folder_id, earlier, member);
        let some = with_members(members, folder_id, earlier);
        let added = FolderMemberView { folder_id, track_id: tracks.last().id };
        let all = with_member(some, added);
        assert(all.contains(member) <==> some.contains(member) || member == added) by {
            if !some.contains(added) {
                assert(all[some.len() as int] == added);
                if some.contains(member) {
                    let at = some.index_of(member);
                    assert(all[at] == member);
                }
                if all.contains(member) {
                    let at = all.index_of(member);
                    if at < some.len() {
                        assert(some[at] == member);
                    }
                }
            }
        }
        if member.folder_id == folder_id {
            if exists|i: int|
                0 <= i < tracks.len() && (#[trigger] tracks[i]).id == member.track_id {
                let i = choose|i: int|
                    0 <= i < tracks.len() && (#[trigger] tracks[i]).id == member.track_id;
                if i < earlier.len() {
                    assert(earlier[i].id == member.track_id);
                }
            }
            if exists|i: int|
                0 <= i < earlier.len() && (#[trigger] earlier[i]).id == member.track_id {
                let i = choose|i: int|
                    0 <= i < earlier.len() && (#[trigger] earlier[i]).id == member.track_id;
                assert(tracks[i].id == member.track_id);
            }
            if member == added {
                assert(tracks[tracks.len() - 1].id == member.track_id);
            }
        }
        if members.no_duplicates() && !some.contains(added) {
            assert forall|i: int, j: int| 0 <= i < j < all.len() implies all[i] != all[j] by {
                if j == some.len() {
                    assert(some[i] == all[i]);
                    assert(some.contains(some[i]));
                }
            }
        }
    }
}

/// Whether a section of the home page is not of a kind.
pub open spec fn not_of_kind(kind: HomeSectionKind) -> spec_fn(HomeSectionView) -> bool {
    |section: HomeSectionView| section.kind != kind
}

struct NotOfKind {
    kind: HomeSectionKind,
}

impl Choice<HomeSection> for NotOfKind {
    closed spec fn test(&self) -> spec_fn(HomeSectionView) -> bool {
        not_of_kind(self.kind)
    }

    fn takes(&self, item: &HomeSection) -> (result: bool) {
        item.kind != self.kind
    }
}

/// The first section of a kind, or the length where there is none.
pub open spec fn section_place(sections: Seq<HomeSectionView>, kind: HomeSectionKind) -> int
    decreases sections.len(),
{
    if sections.len() == 0 || sections[0].kind == kind {
        0
    } else {
        1 + section_place(sections.drop_first(), kind)
    }
}

/// The sections with one more in the place of that of its kind, or at the end.
pub open spec fn put_section(
    sections: Seq<HomeSectionView>,
    section: HomeSectionView,
) -> Seq<HomeSectionView> {
    let at = section_place(sections, section.kind);
    if at < sections.len() {
        sections.update(at, section)
    } else {
        sections.push(section)
    }
}

/// The sections with more of them put in, one after the other.
pub open spec fn put_sections(
    sections: Seq<HomeSectionView>,
    added: Seq<HomeSectionView>,
) -> Seq<HomeSectionView>
    decreases added.len(),
{
    if added.len() == 0 {
        sections
    } else {
        put_section(put_sections(sections, added.drop_last()), added.last())
    }
}

pub fn find_section(sections: &Vec<HomeSection>, kind: HomeSectionKind) -> (result: usize)
    ensures
        result == section_place(sections.deep_view(), kind),
        result <= sections@.len(),
{
    let ghost all = sections.deep_view();
    let mut i: usize = 0;
    assert(all.skip(0) =~= all);
    while i < sections.len()
        invariant
            i <= sections@.len(),
            all == sections.deep_view(),
            section_place(all, kind) == i + section_place(all.skip(i as int), kind),
        decreases sections.len() - i,
    {
        assert(all.skip(i as int)[0] == sections@[i as int].deep_view());
        assert(all.skip(i as int).drop_first() =~= all.skip(i + 1));
        if sections[i].kind == kind {
            return i;
        }
        i += 1;
    }
    i
}

fn insert_section(sections: &mut Vec<HomeSection>, section: HomeSection)
    ensures
        final(sections).deep_view() == put_section(old(sections).deep_view(), section.deep_view()),
{
    let ghost before = sections.deep_view();
    let ghost added = section.deep_view();
    let at: usize = find_section(sections, section.kind);
    assert(before.len() == sections@.len());
    if at < sections.len() {
        sections.set(at, section);
        assert(sections.deep_view() =~= before.update(at as int, added));
    } else {
        sections.push(section);
        assert(sections.deep_view() =~= before.push(added));
    }
}

fn insert_sections(sections: &mut Vec<HomeSection>, added: &Vec<HomeSection>)
    ensures
        final(sections).deep_view() == put_sections(
            old(sections).deep_view(),
            added.deep_view(),
        ),
{
    let ghost before = sections.deep_view();
    let ghost all = added.deep_view();
    let mut i: usize = 0;
    assert(all.take(0) =~= Seq::empty());
    while i < added.len()
        invariant
            i <= added@.len(),
            all == added.deep_view(),
            sections.deep_view() == put_sections(before, all.take(i as int)),
        decreases added.len() - i,
    {
        assert(all.take(i + 1).drop_last() =~= all.take(i as int));
        assert(all.take(i + 1).last() == added@[i as int].deep_view());
        insert_section(sections, added[i].copy());
        i += 1;
    }
    assert(all.take(i as int) =~= all);
}

/// A track marked, or not, as a favorite where it has an identifier.
pub open spec fn track_favorite(id: Seq<char>, favorite: bool) -> spec_fn(TrackView) -> TrackView {
    |track: TrackView|
        if track.id == id {
            TrackView { favorite, ..track }
        } else {
            track
        }
}

/// An album marked, or not, as a favorite where it has an identifier.
pub open spec fn album_favorite(id: Seq<char>, favorite: bool) -> spec_fn(AlbumView) -> AlbumView {
    |album: AlbumView|
        if album.id == id {
            AlbumView { favorite, ..album }
        } else {
            album
        }
}

/// An artist marked, or not, as a favorite where they have an identifier.
pub open spec fn artist_favorite(id: Seq<char>, favorite: bool) -> spec_fn(
    ArtistView,
) -> ArtistView {
    |artist: ArtistView|
        if artist.id == id {
            ArtistView { favorite, ..artist }
        } else {
            artist
        }
}

/// A playlist renamed where it has an identifier.
pub open spec fn playlist_renamed(id: Seq<char>, name: Seq<char>) -> spec_fn(
    PlaylistView,
) -> PlaylistView {
    |playlist: PlaylistView|
        if playlist.id == id {
            PlaylistView { name, ..playlist }
        } else {
            playlist
        }
}

struct Favorite<'a> {
    id: &'a str,
    favorite: bool,
}

impl<'a> Change<Track> for Favorite<'a> {
    closed spec fn effect(&self) -> spec_fn(TrackView) -> TrackView {
        track_favorite(self.id@, self.favorite)
    }

    fn apply(&self, item: &mut Track) {
        if item.id.value.same(&text::owned(self.id)) {
            item.favorite = self.favorite;
        }
    }
}

impl<'a> Change<Album> for Favorite<'a> {
    closed spec fn effect(&self) -> spec_fn(AlbumView) -> AlbumView {
        album_favorite(self.id@, self.favorite)
    }

    fn apply(&self, item: &mut Album) {
        if item.id.value.same(&text::owned(self.id)) {
            item.favorite = self.favorite;
        }
    }
}

impl<'a> Change<Artist> for Favorite<'a> {
    closed spec fn effect(&self) -> spec_fn(ArtistView) -> ArtistView {
        artist_favorite(self.id@, self.favorite)
    }

    fn apply(&self, item: &mut Artist) {
        if item.id.value.same(&text::owned(self.id)) {
            item.favorite = self.favorite;
        }
    }
}

struct Renamed<'a> {
    id: &'a str,
    name: &'a str,
}

impl<'a> Change<Playlist> for Renamed<'a> {
    closed spec fn effect(&self) -> spec_fn(PlaylistView) -> PlaylistView {
        playlist_renamed(self.id@, self.name@)
    }

    fn apply(&self, item: &mut Playlist) {
        if item.id.value.same(&text::owned(self.id)) {
            item.name = text::owned(self.name);
        }
    }
}

/// Whether an image is kept for an item, tag and size.
pub open spec fn is_cover_of(
    item_id: Seq<char>,
    image_tag: Seq<char>,
    size: u32,
) -> spec_fn(CoverCacheEntryView) -> bool {
    |entry: CoverCacheEntryView|
        entry.item_id == item_id && entry.image_tag == image_tag && entry.size == size
}

/// Whether an image is kept for something else than an item, tag and size.
pub open spec fn is_other_cover(
    item_id: Seq<char>,
    image_tag: Seq<char>,
    size: u32,
) -> spec_fn(CoverCacheEntryView) -> bool {
    |entry: CoverCacheEntryView|
        !(entry.item_id == item_id && entry.image_tag == image_tag && entry.size == size)
}

struct CoverKey<'a> {
    item_id: &'a str,
    image_tag: &'a str,
    size: u32,
    wanted: bool,
}

impl<'a> Choice<CoverCacheEntry> for CoverKey<'a> {
    closed spec fn test(&self) -> spec_fn(CoverCacheEntryView) -> bool {
        if self.wanted {
            is_cover_of(self.item_id@, self.image_tag@, self.size)
        } else {
            is_other_cover(self.item_id@, self.image_tag@, self.size)
        }
    }

    fn takes(&self, item: &CoverCacheEntry) -> (result: bool) {
        let same: bool = item.item_id.same(&text::owned(self.item_id)) && item.image_tag.same(
            &text::owned(self.image_tag),
        ) && item.size == self.size;
        same == self.wanted
    }
}

/// Whether an image was looked for and not found for an item, tag and size.
pub open spec fn is_miss_of(
    item_id: Seq<char>,
    image_tag: Seq<char>,
    size: u32,
) -> spec_fn(LookupMissView) -> bool {
    |miss: LookupMissView|
        miss.item_id == item_id && miss.image_tag == image_tag && miss.size == size
}

struct MissKey<'a> {
    item_id: &'a str,
    image_tag: &'a str,
    size: u32,
}

impl<'a> Choice<LookupMiss> for MissKey<'a> {
    closed spec fn test(&self) -> spec_fn(LookupMissView) -> bool {
        is_miss_of(self.item_id@, self.image_tag@, self.size)
    }

    fn takes(&self, item: &LookupMiss) -> (result: bool) {
        item.item_id.same(&text::owned(self.item_id)) && item.image_tag.same(
            &text::owned(self.image_tag),
        ) && item.size == self.size
    }
}

impl ServerLibraryView {
    /// The source with nothing left of its library; its queue, its folders on this machine
    /// and the number of its last reading stay.
    pub open spec fn cleared(self) -> ServerLibraryView {
        ServerLibraryView {
            selected_music_folder_id: self.selected_music_folder_id,
            sync: SyncStateView {
                status: "idle"@,
                generation: self.sync.generation,
                error: None,
            },
            queue: self.queue,
            local_access: self.local_access,
            ..empty_library(self.server_id)
        }
    }

    pub open spec fn with_sync(
        self,
        status: Seq<char>,
        generation: u64,
        error: Option<Seq<char>>,
    ) -> ServerLibraryView {
        ServerLibraryView { sync: SyncStateView { status, generation, error }, ..self }
    }

    /// Whether lyrics for a track are kept that came from elsewhere than its source.
    pub open spec fn has_remote_lyrics(self, track_id: Seq<char>) -> bool {
        row::<Lyrics>(self.lyrics, track_id) matches Some(lyrics) && lyrics.source
            == LyricsSource::Remote
    }

    /// The image kept for an item, tag and size.
    pub open spec fn cover(
        self,
        item_id: Seq<char>,
        image_tag: Seq<char>,
        size: u32,
    ) -> Option<CoverCacheEntryView> {
        let found = chosen(self.covers, is_cover_of(item_id, image_tag, size));
        if found.len() > 0 {
            Some(found[0])
        } else {
            None
        }
    }

    /// Whether an image was looked for and not found for an item, tag and size.
    pub open spec fn missed(
        self,
        item_id: Seq<char>,
        image_tag: Seq<char>,
        size: u32,
    ) -> bool {
        chosen(self.misses, is_miss_of(item_id, image_tag, size)).len() > 0
    }
}

impl StoreView {
    /// A store with nothing in it.
    pub open spec fn empty() -> StoreView {
        StoreView {
            fault: None,
            settings: AppSettingsView::initial(),
            servers: Seq::empty(),
            active: None,
            libraries: Seq::empty(),
        }
    }

    pub open spec fn server(self, server_id: Seq<char>) -> Option<SavedServerView> {
        row::<SavedServer>(self.servers, server_id)
    }

    /// The source that is shown.
    pub open spec fn active_server(self) -> Option<SavedServerView> {
        match self.active {
            Some(server_id) => self.server(server_id),
            None => None,
        }
    }

    /// What can be told of the source that is shown: nothing while there is a fault.
    pub open spec fn shown(self) -> Option<SavedServerView> {
        if self.fault is Some {
            None
        } else {
            self.active_server()
        }
    }

    /// What is kept of a source.
    pub open spec fn library(self, server_id: Seq<char>) -> ServerLibraryView {
        match row::<ServerLibrary>(self.libraries, server_id) {
            Some(library) => library,
            None => empty_library(server_id),
        }
    }

    /// The store with other contents kept of a source.
    pub open spec fn with_library(
        self,
        server_id: Seq<char>,
        library: ServerLibraryView,
    ) -> StoreView {
        let at = row_place::<ServerLibrary>(self.libraries, server_id);
        StoreView {
            libraries: if at < self.libraries.len() {
                self.libraries.update(at, library)
            } else {
                self.libraries.push(library)
            },
            ..self
        }
    }

    /// The settings, or the initial ones while there is a fault.
    pub open spec fn known_settings(self) -> AppSettingsView {
        if self.fault is Some {
            AppSettingsView::initial()
        } else {
            self.settings
        }
    }

    pub open spec fn with_server(self, saved: SavedServerView) -> StoreView {
        StoreView { servers: put_row::<SavedServer>(self.servers, saved), ..self }
    }

    pub open spec fn with_settings(self, settings: AppSettingsView) -> StoreView {
        StoreView { settings, ..self }
    }

    pub open spec fn with_active(self, server_id: Seq<char>) -> StoreView {
        StoreView { active: Some(server_id), ..self }
    }

    /// The store without a source.
    pub open spec fn without_server(self, server_id: Seq<char>) -> StoreView {
        StoreView {
            servers: without_row::<SavedServer>(self.servers, server_id),
            libraries: without_row::<ServerLibrary>(self.libraries, server_id),
            active: if self.active == Some(server_id) {
                None
            } else {
                self.active
            },
            ..self
        }
    }

    /// The store without the library of a source.
    pub open spec fn with_cleared_library(self, server_id: Seq<char>) -> StoreView {
        self.with_library(server_id, self.library(server_id).cleared())
    }

    /// The store with an edited source; where another account is used now, nothing is left of
    /// its library and its queue.
    pub open spec fn with_edited_server(
        self,
        saved: SavedServerView,
        identity_changed: bool,
    ) -> StoreView {
        let edited = self.with_server(saved);
        if identity_changed {
            edited.with_library(
                saved.server.id,
                ServerLibraryView { queue: None, ..edited.library(saved.server.id).cleared() },
            )
        } else {
            edited
        }
    }

    /// The store with a saved queue.
    pub open spec fn with_queue(self, snapshot: QueueSnapshotView) -> StoreView {
        self.with_library(
            snapshot.server_id,
            ServerLibraryView { queue: Some(snapshot), ..self.library(snapshot.server_id) },
        )
    }

    /// The store with tracks kept as those of a music folder.
    pub open spec fn with_folder_members(
        self,
        server_id: Seq<char>,
        folder_id: Seq<char>,
        tracks: Seq<TrackView>,
    ) -> StoreView {
        let library = self.library(server_id);
        self.with_library(
            server_id,
            ServerLibraryView {
                folder_members: with_members(library.folder_members, folder_id, tracks),
                ..library
            },
        )
    }

    /// The store with lyrics kept for a track.
    pub open spec fn with_lyrics(self, server_id: Seq<char>, lyrics: LyricsView) -> StoreView {
        let library = self.library(server_id);
        self.with_library(
            server_id,
            ServerLibraryView { lyrics: put_row::<Lyrics>(library.lyrics, lyrics), ..library },
        )
    }
}

/// An empty store.
pub fn open_memory() -> (result: Store)
    ensures
        result.deep_view() == StoreView::empty(),
        result.deep_view().wf(),
{
    proof {
        broadcast use {group_distinct_keys, group_store_keys};

    }
    let result: Store = Store {
        fault: None,
        settings: AppSettings::default(),
        servers: Vec::new(),
        active: None,
        libraries: Vec::new(),
    };
    assert(result.deep_view() =~= StoreView::empty());
    result
}

impl Store {
    /// Why nothing can be read or written, where that is so.
    pub fn check(&self) -> (result: Result<(), String>)
        ensures
            done(result, self.deep_view().fault),
    {
        match &self.fault {
            Some(fault) => Err(fault.copy()),
            None => Ok(()),
        }
    }

    /// The settings, or the initial ones while there is a fault.
    pub fn known_settings(&self) -> (result: AppSettings)
        ensures
            result.deep_view() == self.deep_view().known_settings(),
    {
        if self.fault.is_some() {
            AppSettings::default()
        } else {
            self.settings.copy()
        }
    }

    pub fn load_settings(&self) -> (result: Result<AppSettings, String>)
        ensures
            answers(result, self.deep_view().fault, self.deep_view().settings),
    {
        if let Err(error) = self.check() {
            return Err(error);
        }
        Ok(self.settings.copy())
    }

    pub fn save_settings(&mut self, settings: &AppSettings) -> (result: Result<(), String>)
        ensures
            wrote(
                result,
                old(self).deep_view(),
                final(self).deep_view(),
                old(self).deep_view().with_settings(settings.deep_view()),
            ),
    {
        proof {
            broadcast use {group_distinct_keys, group_store_keys};

        }
        if let Err(error) = self.check() {
            return Err(error);
        }
        self.settings = settings.copy();
        Ok(())
    }

    /// The source that is shown.
    pub fn active_server(&self) -> (result: Result<Option<SavedServer>, String>)
        ensures
            answers(result, self.deep_view().fault, self.deep_view().active_server()),
    {
        if let Err(error) = self.check() {
            return Err(error);
        }
        match &self.active {
            Some(server_id) => Ok(get_row(&self.servers, server_id.as_str())),
            None => Ok(None),
        }
    }

    /// What can be told of the source that is shown.
    pub fn shown(&self) -> (result: Option<SavedServer>)
        ensures
            result.deep_view() == self.deep_view().shown(),
    {
        match self.active_server() {
            Ok(saved) => saved,
            Err(_) => None,
        }
    }

    pub fn list_servers(&self) -> (result: Result<Vec<SavedServer>, String>)
        ensures
            answers(result, self.deep_view().fault, self.deep_view().servers),
    {
        if let Err(error) = self.check() {
            return Err(error);
        }
        Ok(self.servers.copy())
    }

    pub fn saved_server(&self, server_id: &ServerId) -> (result: Result<
        Option<SavedServer>,
        String,
    >)
        ensures
            answers(result, self.deep_view().fault, self.deep_view().server(server_id.deep_view())),
    {
        if let Err(error) = self.check() {
            return Err(error);
        }
        Ok(get_row(&self.servers, server_id.as_str()))
    }

    pub fn save_server(&mut self, saved: &SavedServer) -> (result: Result<(), String>)
        ensures
            wrote(
                result,
                old(self).deep_view(),
                final(self).deep_view(),
                old(self).deep_view().with_server(saved.deep_view()),
            ),
    {
        proof {
            broadcast use {group_distinct_keys, group_store_keys};

        }
        if let Err(error) = self.check() {
            return Err(error);
        }
        insert_row(&mut self.servers, saved.copy());
        Ok(())
    }

    pub fn set_active_server(&mut self, server_id: &ServerId) -> (result: Result<(), String>)
        ensures
            wrote(
                result,
                old(self).deep_view(),
                final(self).deep_view(),
                old(self).deep_view().with_active(server_id.deep_view()),
            ),
    {
        proof {
            broadcast use {group_distinct_keys, group_store_keys};

        }
        if let Err(error) = self.check() {
            return Err(error);
        }
        self.active = Some(server_id.copy());
        Ok(())
    }

    /// Forgets a source and all that is kept of it.
    pub fn forget_server(&mut self, server_id: &ServerId) -> (result: Result<(), String>)
        ensures
            wrote(
                result,
                old(self).deep_view(),
                final(self).deep_view(),
                old(self).deep_view().without_server(server_id.deep_view()),
            ),
    {
        proof {
            broadcast use {group_distinct_keys, group_store_keys};

        }
        if let Err(error) = self.check() {
            return Err(error);
        }
        let _known: bool = remove_row(&mut self.servers, server_id.as_str());
        let _kept: bool = remove_row(&mut self.libraries, server_id.as_str());
        let was_active: bool = match &self.active {
            Some(active) => active.same(server_id),
            None => false,
        };
        if was_active {
            self.active = None;
        }
        Ok(())
    }

    /// What is kept of a source, to be changed.
    fn library_mut(&mut self, server_id: &ServerId) -> (result: &mut ServerLibrary)
        ensures
            (*result).deep_view() == old(self).deep_view().library(server_id.deep_view()),
            final(self).deep_view() == old(self).deep_view().with_library(
                server_id.deep_view(),
                (*final(result)).deep_view(),
            ),
    {
        let ghost before = self.deep_view();
        let at: usize = find_row(&self.libraries, server_id.as_str());
        if at == self.libraries.len() {
            let added: ServerLibrary = new_library(server_id);
            self.libraries.push(added);
        }
        let ghost middle = self.libraries@;
        let ghost lengthened = if at < before.libraries.len() {
            before.libraries
        } else {
            before.libraries.push(empty_library(server_id.deep_view()))
        };
        assert(self.libraries.deep_view() =~= lengthened);
        assert(before.libraries.len() == old(self).libraries@.len());
        assert forall|library: ServerLibrary|
            #![trigger middle.update(at as int, library)]
            crate::value::deep(middle.update(at as int, library)) == lengthened.update(
                at as int,
                library.deep_view(),
            ) by {
            assert(crate::value::deep(middle.update(at as int, library)) =~= lengthened.update(
                at as int,
                library.deep_view(),
            ));
        }
        &mut self.libraries[at]
    }

    /// Keeps albums of a source.
    pub fn upsert_albums(
        &mut self,
        server_id: &ServerId,
        albums: &Vec<Album>,
    ) -> (result: Result<(), String>)
        ensures
            ({
                let library = old(self).deep_view().library(server_id.deep_view());
                wrote(
                    result,
                    old(self).deep_view(),
                    final(self).deep_view(),
                    old(self).deep_view().with_library(
                        server_id.deep_view(),
                        ServerLibraryView {
                            albums: put_rows::<Album>(library.albums, albums.deep_view()),
                            ..library
                        },
                    ),
                )
            }),
    {
        proof {
            broadcast use {group_distinct_keys, group_store_keys};

        }
        if let Err(error) = self.check() {
            return Err(error);
        }
        let library: &mut ServerLibrary = self.library_mut(server_id);
        insert_rows(&mut library.albums, albums);
        Ok(())
    }

    /// Keeps tracks of a source.
    pub fn upsert_tracks(
        &mut self,
        server_id: &ServerId,
        tracks: &Vec<Track>,
    ) -> (result: Result<(), String>)
        ensures
            ({
                let library = old(self).deep_view().library(server_id.deep_view());
                wrote(
                    result,
                    old(self).deep_view(),
                    final(self).deep_view(),
                    old(self).deep_view().with_library(
                        server_id.deep_view(),
                        ServerLibraryView {
                            tracks: put_rows::<Track>(library.tracks, tracks.deep_view()),
                            ..library
                        },
                    ),
                )
            }),
    {
        proof {
            broadcast use {group_distinct_keys, group_store_keys};

        }
        if let Err(error) = self.check() {
            return Err(error);
        }
        let library: &mut ServerLibrary = self.library_mut(server_id);
        insert_rows(&mut library.tracks, tracks);
        Ok(())
    }

    /// Keeps artists, or album artists, of a source.
    pub fn upsert_artists(
        &mut self,
        server_id: &ServerId,
        artists: &Vec<Artist>,
        album_artist: bool,
    ) -> (result: Result<(), String>)
        ensures
            ({
                let library = old(self).deep_view().library(server_id.deep_view());
                wrote(
                    result,
                    old(self).deep_view(),
                    final(self).deep_view(),
                    old(self).deep_view().with_library(
                        server_id.deep_view(),
                        if album_artist {
                            ServerLibraryView {
                                album_artists: put_rows::<Artist>(
                                    library.album_artists,
                                    artists.deep_view(),
                                ),
                                ..library
                            }
                        } else {
                            ServerLibraryView {
                                artists: put_rows::<Artist>(library.artists, artists.deep_view()),
                                ..library
                            }
                        },
                    ),
                )
            }),
    {
        proof {
            broadcast use {group_distinct_keys, group_store_keys};

        }
        if let Err(error) = self.check() {
            return Err(error);
        }
        let library: &mut ServerLibrary = self.library_mut(server_id);
        if album_artist {
            insert_rows(&mut library.album_artists, artists);
        } else {
            insert_rows(&mut library.artists, artists);
        }
        Ok(())
    }

    /// Keeps genres of a source.
    pub fn upsert_genres(
        &mut self,
        server_id: &ServerId,
        genres: &Vec<Genre>,
    ) -> (result: Result<(), String>)
        ensures
            ({
                let library = old(self).deep_view().library(server_id.deep_view());
                wrote(
                    result,
                    old(self).deep_view(),
                    final(self).deep_view(),
                    old(self).deep_view().with_library(
                        server_id.deep_view(),
                        ServerLibraryView {
                            genres: put_rows::<Genre>(library.genres, genres.deep_view()),
                            ..library
                        },
                    ),
                )
            }),
    {
        proof {
            broadcast use {group_distinct_keys, group_store_keys};

        }
        if let Err(error) = self.check() {
            return Err(error);
        }
        let library: &mut ServerLibrary = self.library_mut(server_id);
        insert_rows(&mut library.genres, genres);
        Ok(())
    }

    /// Keeps music folders of a source.
    pub fn upsert_music_folders(
        &mut self,
        server_id: &ServerId,
        folders: &Vec<MusicFolder>,
    ) -> (result: Result<(), String>)
        ensures
            ({
                let library = old(self).deep_view().library(server_id.deep_view());
                wrote(
                    result,
                    old(self).deep_view(),
                    final(self).deep_view(),
                    old(self).deep_view().with_library(
                        server_id.deep_view(),
                        ServerLibraryView {
                            music_folders: put_rows::<MusicFolder>(
                                library.music_folders,
                                folders.deep_view(),
                            ),
                            ..library
                        },
                    ),
                )
            }),
    {
        proof {
            broadcast use {group_distinct_keys, group_store_keys};

        }
        if let Err(error) = self.check() {
            return Err(error);
        }
        let library: &mut ServerLibrary = self.library_mut(server_id);
        insert_rows(&mut library.music_folders, folders);
        Ok(())
    }

    /// Keeps it that tracks are in a music folder of a source.
    pub fn upsert_track_music_folder_memberships(
        &mut self,
        server_id: &ServerId,
        folder_id: &MusicFolderId,
        tracks: &Vec<Track>,
    ) -> (result: Result<(), String>)
        ensures
            wrote(
                result,
                old(self).deep_view(),
                final(self).deep_view(),
                old(self).deep_view().with_folder_members(
                    server_id.deep_view(),
                    folder_id.deep_view(),
                    tracks.deep_view(),
                ),
            ),
    {
        proof {
            broadcast use {group_distinct_keys, group_store_keys};

        }
        if let Err(error) = self.check() {
            return Err(error);
        }
        let library: &mut ServerLibrary = self.library_mut(server_id);
        add_members(&mut library.folder_members, folder_id, tracks);
        Ok(())
    }

    /// Keeps playlists of a source.
    pub fn upsert_playlists(
        &mut self,
        server_id: &ServerId,
        playlists: &Vec<Playlist>,
    ) -> (result: Result<(), String>)
        ensures
            ({
                let library = old(self).deep_view().library(server_id.deep_view());
                wrote(
                    result,
                    old(self).deep_view(),
                    final(self).deep_view(),
                    old(self).deep_view().with_library(
                        server_id.deep_view(),
                        ServerLibraryView {
                            playlists: put_rows::<Playlist>(
                                library.playlists,
                                playlists.deep_view(),
                            ),
                            ..library
                        },
                    ),
                )
            }),
    {
        proof {
            broadcast use {group_distinct_keys, group_store_keys};

        }
        if let Err(error) = self.check() {
            return Err(error);
        }
        let library: &mut ServerLibrary = self.library_mut(server_id);
        insert_rows(&mut library.playlists, playlists);
        Ok(())
    }

    /// Keeps smart playlists of a source.
    pub fn upsert_smart_playlists(
        &mut self,
        server_id: &ServerId,
        playlists: &Vec<SmartPlaylistDetail>,
    ) -> (result: Result<(), String>)
        ensures
            ({
                let library = old(self).deep_view().library(server_id.deep_view());
                wrote(
                    result,
                    old(self).deep_view(),
                    final(self).deep_view(),
                    old(self).deep_view().with_library(
                        server_id.deep_view(),
                        ServerLibraryView {
                            smart_playlists: put_rows::<SmartPlaylistDetail>(
                                library.smart_playlists,
                                playlists.deep_view(),
                            ),
                            ..library
                        },
                    ),
                )
            }),
    {
        proof {
            broadcast use {group_distinct_keys, group_store_keys};

        }
        if let Err(error) = self.check() {
            return Err(error);
        }
        let library: &mut ServerLibrary = self.library_mut(server_id);
        insert_rows(&mut library.smart_playlists, playlists);
        Ok(())
    }

    /// Keeps the entries of a playlist.
    pub fn upsert_playlist_entries(
        &mut self,
        server_id: &ServerId,
        playlist_id: &PlaylistId,
        entries: &Vec<PlaylistEntry>,
    ) -> (result: Result<(), String>)
        ensures
            ({
                let library = old(self).deep_view().library(server_id.deep_view());
                wrote(
                    result,
                    old(self).deep_view(),
                    final(self).deep_view(),
                    old(self).deep_view().with_library(
                        server_id.deep_view(),
                        ServerLibraryView {
                            playlist_rows: put_row::<PlaylistRows>(
                                library.playlist_rows,
                                PlaylistRowsView {
                                    playlist_id: playlist_id.deep_view(),
                                    entries: entries.deep_view(),
                                },
                            ),
                            ..library
                        },
                    ),
                )
            }),
    {
        proof {
            broadcast use {group_distinct_keys, group_store_keys};

        }
        if let Err(error) = self.check() {
            return Err(error);
        }
        let library: &mut ServerLibrary = self.library_mut(server_id);
        insert_row(
            &mut library.playlist_rows,
            PlaylistRows { playlist_id: playlist_id.copy(), entries: entries.copy() },
        );
        Ok(())
    }

    /// Keeps only some of the playlists of a source.
    pub fn prune_playlists_except(
        &mut self,
        server_id: &ServerId,
        playlist_ids: &Vec<String>,
    ) -> (result: Result<(), String>)
        ensures
            ({
                let library = old(self).deep_view().library(server_id.deep_view());
                wrote(
                    result,
                    old(self).deep_view(),
                    final(self).deep_view(),
                    old(self).deep_view().with_library(
                        server_id.deep_view(),
                        ServerLibraryView {
                            playlists: rows_with_keys::<Playlist>(
                                library.playlists,
                                playlist_ids.deep_view(),
                            ),
                            playlist_rows: rows_with_keys::<PlaylistRows>(
                                library.playlist_rows,
                                playlist_ids.deep_view(),
                            ),
                            ..library
                        },
                    ),
                )
            }),
    {
        proof {
            broadcast use {group_distinct_keys, group_store_keys};

        }
        if let Err(error) = self.check() {
            return Err(error);
        }
        let library: &mut ServerLibrary = self.library_mut(server_id);
        library.playlists = keep_rows(&library.playlists, playlist_ids);
        library.playlist_rows = keep_rows(&library.playlist_rows, playlist_ids);
        Ok(())
    }

    /// Keeps sections of the home page.
    pub fn upsert_home_sections(
        &mut self,
        server_id: &ServerId,
        sections: &Vec<HomeSection>,
    ) -> (result: Result<(), String>)
        ensures
            ({
                let library = old(self).deep_view().library(server_id.deep_view());
                wrote(
                    result,
                    old(self).deep_view(),
                    final(self).deep_view(),
                    old(self).deep_view().with_library(
                        server_id.deep_view(),
                        ServerLibraryView {
                            home_sections: put_sections(
                                library.home_sections,
                                sections.deep_view(),
                            ),
                            ..library
                        },
                    ),
                )
            }),
    {
        proof {
            broadcast use {group_distinct_keys, group_store_keys};

        }
        if let Err(error) = self.check() {
            return Err(error);
        }
        let library: &mut ServerLibrary = self.library_mut(server_id);
        insert_sections(&mut library.home_sections, sections);
        Ok(())
    }

    /// Keeps a section of the home page.
    pub fn upsert_home_section(
        &mut self,
        server_id: &ServerId,
        section: &HomeSection,
    ) -> (result: Result<(), String>)
        ensures
            ({
                let library = old(self).deep_view().library(server_id.deep_view());
                wrote(
                    result,
                    old(self).deep_view(),
                    final(self).deep_view(),
                    old(self).deep_view().with_library(
                        server_id.deep_view(),
                        ServerLibraryView {
                            home_sections: put_section(library.home_sections, section.deep_view()),
                            ..library
                        },
                    ),
                )
            }),
    {
        proof {
            broadcast use {group_distinct_keys, group_store_keys};

        }
        if let Err(error) = self.check() {
            return Err(error);
        }
        let library: &mut ServerLibrary = self.library_mut(server_id);
        insert_section(&mut library.home_sections, section.copy());
        Ok(())
    }

    /// Keeps a section of the home page that is not shown yet.
    pub fn upsert_home_section_prefetch(
        &mut self,
        server_id: &ServerId,
        section: &HomeSection,
    ) -> (result: Result<(), String>)
        ensures
            ({
                let library = old(self).deep_view().library(server_id.deep_view());
                wrote(
                    result,
                    old(self).deep_view(),
                    final(self).deep_view(),
                    old(self).deep_view().with_library(
                        server_id.deep_view(),
                        ServerLibraryView {
                            prefetched_sections: put_section(
                                library.prefetched_sections,
                                section.deep_view(),
                            ),
                            ..library
                        },
                    ),
                )
            }),
    {
        proof {
            broadcast use {group_distinct_keys, group_store_keys};

        }
        if let Err(error) = self.check() {
            return Err(error);
        }
        let library: &mut ServerLibrary = self.library_mut(server_id);
        insert_section(&mut library.prefetched_sections, section.copy());
        Ok(())
    }

    /// Shows a section of the home page that was kept ready.
    pub fn promote_home_section(
        &mut self,
        server_id: &ServerId,
        section: &HomeSection,
    ) -> (result: Result<(), String>)
        ensures
            ({
                let library = old(self).deep_view().library(server_id.deep_view());
                wrote(
                    result,
                    old(self).deep_view(),
                    final(self).deep_view(),
                    old(self).deep_view().with_library(
                        server_id.deep_view(),
                        ServerLibraryView {
                            home_sections: put_section(library.home_sections, section.deep_view()),
                            prefetched_sections: chosen(
                                library.prefetched_sections,
                                not_of_kind(section.deep_view().kind),
                            ),
                            ..library
                        },
                    ),
                )
            }),
    {
        proof {
            broadcast use {group_distinct_keys, group_store_keys};

        }
        if let Err(error) = self.check() {
            return Err(error);
        }
        let library: &mut ServerLibrary = self.library_mut(server_id);
        insert_section(&mut library.home_sections, section.copy());
        library.prefetched_sections = choose_items(
            &library.prefetched_sections,
            &NotOfKind { kind: section.kind },
        );
        Ok(())
    }

    /// Marks an album, or not, as a favorite.
    pub fn set_album_favorite(
        &mut self,
        server_id: &ServerId,
        album_id: &AlbumId,
        favorite: bool,
    ) -> (result: Result<(), String>)
        ensures
            ({
                let library = old(self).deep_view().library(server_id.deep_view());
                wrote(
                    result,
                    old(self).deep_view(),
                    final(self).deep_view(),
                    old(self).deep_view().with_library(
                        server_id.deep_view(),
                        ServerLibraryView {
                            albums: library.albums.map_values(
                                album_favorite(album_id.deep_view(), favorite),
                            ),
                            ..library
                        },
                    ),
                )
            }),
    {
        proof {
            broadcast use {group_distinct_keys, group_store_keys};

        }
        if let Err(error) = self.check() {
            return Err(error);
        }
        let library: &mut ServerLibrary = self.library_mut(server_id);
        change_items(&mut library.albums, &Favorite { id: album_id.as_str(), favorite });
        Ok(())
    }

    /// Marks a track, or not, as a favorite.
    pub fn set_track_favorite(
        &mut self,
        server_id: &ServerId,
        track_id: &TrackId,
        favorite: bool,
    ) -> (result: Result<(), String>)
        ensures
            ({
                let library = old(self).deep_view().library(server_id.deep_view());
                wrote(
                    result,
                    old(self).deep_view(),
                    final(self).deep_view(),
                    old(self).deep_view().with_library(
                        server_id.deep_view(),
                        ServerLibraryView {
                            tracks: library.tracks.map_values(
                                track_favorite(track_id.deep_view(), favorite),
                            ),
                            ..library
                        },
                    ),
                )
            }),
    {
        proof {
            broadcast use {group_distinct_keys, group_store_keys};

        }
        if let Err(error) = self.check() {
            return Err(error);
        }
        let library: &mut ServerLibrary = self.library_mut(server_id);
        change_items(&mut library.tracks, &Favorite { id: track_id.as_str(), favorite });
        Ok(())
    }

    /// Marks an artist, or not, as a favorite.
    pub fn set_artist_favorite(
        &mut self,
        server_id: &ServerId,
        artist_id: &ArtistId,
        favorite: bool,
    ) -> (result: Result<(), String>)
        ensures
            ({
                let library = old(self).deep_view().library(server_id.deep_view());
                wrote(
                    result,
                    old(self).deep_view(),
                    final(self).deep_view(),
                    old(self).deep_view().with_library(
                        server_id.deep_view(),
                        ServerLibraryView {
                            artists: library.artists.map_values(
                                artist_favorite(artist_id.deep_view(), favorite),
                            ),
                            album_artists: library.album_artists.map_values(
                                artist_favorite(artist_id.deep_view(), favorite),
                            ),
                            ..library
                        },
                    ),
                )
            }),
    {
        proof {
            broadcast use {group_distinct_keys, group_store_keys};

        }
        if let Err(error) = self.check() {
            return Err(error);
        }
        let library: &mut ServerLibrary = self.library_mut(server_id);
        change_items(&mut library.artists, &Favorite { id: artist_id.as_str(), favorite });
        change_items(&mut library.album_artists, &Favorite { id: artist_id.as_str(), favorite });
        Ok(())
    }

    /// Renames a playlist.
    pub fn rename_playlist(
        &mut self,
        server_id: &ServerId,
        playlist_id: &PlaylistId,
        name: &str,
    ) -> (result: Result<(), String>)
        ensures
            ({
                let library = old(self).deep_view().library(server_id.deep_view());
                wrote(
                    result,
                    old(self).deep_view(),
                    final(self).deep_view(),
                    old(self).deep_view().with_library(
                        server_id.deep_view(),
                        ServerLibraryView {
                            playlists: library.playlists.map_values(
                                playlist_renamed(playlist_id.deep_view(), name@),
                            ),
                            ..library
                        },
                    ),
                )
            }),
    {
        proof {
            broadcast use {group_distinct_keys, group_store_keys};

        }
        if let Err(error) = self.check() {
            return Err(error);
        }
        let library: &mut ServerLibrary = self.library_mut(server_id);
        change_items(&mut library.playlists, &Renamed { id: playlist_id.as_str(), name });
        Ok(())
    }

    /// Keeps which music folder of a source is shown.
    pub fn set_selected_music_folder_id(
        &mut self,
        server_id: &ServerId,
        folder_id: Option<MusicFolderId>,
    ) -> (result: Result<(), String>)
        ensures
            ({
                let library = old(self).deep_view().library(server_id.deep_view());
                wrote(
                    result,
                    old(self).deep_view(),
                    final(self).deep_view(),
                    old(self).deep_view().with_library(
                        server_id.deep_view(),
                        ServerLibraryView {
                            selected_music_folder_id: folder_id.deep_view(),
                            ..library
                        },
                    ),
                )
            }),
    {
        proof {
            broadcast use {group_distinct_keys, group_store_keys};

        }
        if let Err(error) = self.check() {
            return Err(error);
        }
        let library: &mut ServerLibrary = self.library_mut(server_id);
        library.selected_music_folder_id = folder_id;
        Ok(())
    }

    /// Keeps which files stand for the tracks of a source.
    pub fn replace_track_local_matches(
        &mut self,
        server_id: &ServerId,
        matches: Vec<TrackLocalMatch>,
    ) -> (result: Result<(), String>)
        ensures
            ({
                let library = old(self).deep_view().library(server_id.deep_view());
                wrote(
                    result,
                    old(self).deep_view(),
                    final(self).deep_view(),
                    old(self).deep_view().with_library(
                        server_id.deep_view(),
                        ServerLibraryView { local_matches: matches.deep_view(), ..library },
                    ),
                )
            }),
    {
        proof {
            broadcast use {group_distinct_keys, group_store_keys};

        }
        if let Err(error) = self.check() {
            return Err(error);
        }
        let library: &mut ServerLibrary = self.library_mut(server_id);
        library.local_matches = matches;
        Ok(())
    }

    /// Keeps where the files of a source are found.
    pub fn set_server_local_access(
        &mut self,
        server_id: &ServerId,
        access: Option<ServerLocalAccess>,
    ) -> (result: Result<(), String>)
        ensures
            ({
                let library = old(self).deep_view().library(server_id.deep_view());
                wrote(
                    result,
                    old(self).deep_view(),
                    final(self).deep_view(),
                    old(self).deep_view().with_library(
                        server_id.deep_view(),
                        ServerLibraryView { local_access: access.deep_view(), ..library },
                    ),
                )
            }),
    {
        proof {
            broadcast use {group_distinct_keys, group_store_keys};

        }
        if let Err(error) = self.check() {
            return Err(error);
        }
        let library: &mut ServerLibrary = self.library_mut(server_id);
        library.local_access = access;
        Ok(())
    }

    /// Keeps why the library of a source could not be read.
    pub fn fail_sync(&mut self, server_id: &ServerId, error: &str) -> (result: Result<(), String>)
        ensures
            ({
                let library = old(self).deep_view().library(server_id.deep_view());
                wrote(
                    result,
                    old(self).deep_view(),
                    final(self).deep_view(),
                    old(self).deep_view().with_library(
                        server_id.deep_view(),
                        ServerLibraryView {
                            sync: SyncStateView {
                                status: "error"@,
                                generation: library.sync.generation,
                                error: Some(error@),
                            },
                            ..library
                        },
                    ),
                )
            }),
    {
        proof {
            broadcast use {group_distinct_keys, group_store_keys};

        }
        if let Err(error) = self.check() {
            return Err(error);
        }
        let library: &mut ServerLibrary = self.library_mut(server_id);
        library.sync = SyncState {
            status: text::owned("error"),
            generation: library.sync.generation,
            error: Some(text::owned(error)),
        };
        Ok(())
    }

    /// Keeps that the library of a source was read.
    pub fn complete_sync(
        &mut self,
        server_id: &ServerId,
        generation: u64,
    ) -> (result: Result<(), String>)
        ensures
            ({
                let library = old(self).deep_view().library(server_id.deep_view());
                wrote(
                    result,
                    old(self).deep_view(),
                    final(self).deep_view(),
                    old(self).deep_view().with_library(
                        server_id.deep_view(),
                        ServerLibraryView {
                            sync: SyncStateView { status: "idle"@, generation, error: None },
                            ..library
                        },
                    ),
                )
            }),
    {
        proof {
            broadcast use {group_distinct_keys, group_store_keys};

        }
        if let Err(error) = self.check() {
            return Err(error);
        }
        let library: &mut ServerLibrary = self.library_mut(server_id);
        library.sync = SyncState { status: text::owned("idle"), generation, error: None };
        Ok(())
    }

    /// Keeps that an image was looked for and not found.
    pub fn save_external_image_lookup_miss(
        &mut self,
        server_id: &ServerId,
        miss: LookupMiss,
    ) -> (result: Result<(), String>)
        ensures
            ({
                let library = old(self).deep_view().library(server_id.deep_view());
                wrote(
                    result,
                    old(self).deep_view(),
                    final(self).deep_view(),
                    old(self).deep_view().with_library(
                        server_id.deep_view(),
                        ServerLibraryView {
                            misses: library.misses.push(miss.deep_view()),
                            ..library
                        },
                    ),
                )
            }),
    {
        proof {
            broadcast use {group_distinct_keys, group_store_keys};

        }
        if let Err(error) = self.check() {
            return Err(error);
        }
        let library: &mut ServerLibrary = self.library_mut(server_id);
        let ghost before = library.misses.deep_view();
        let ghost added = miss.deep_view();
        library.misses.push(miss);
        assert(library.misses.deep_view() =~= before.push(added));
        Ok(())
    }

    /// Forgets which images were looked for and not found.
    pub fn clear_external_image_lookup_misses(&mut self, server_id: &ServerId) -> (result: Result<
        (),
        String,
    >)
        ensures
            ({
                let library = old(self).deep_view().library(server_id.deep_view());
                wrote(
                    result,
                    old(self).deep_view(),
                    final(self).deep_view(),
                    old(self).deep_view().with_library(
                        server_id.deep_view(),
                        ServerLibraryView { misses: Seq::empty(), ..library },
                    ),
                )
            }),
    {
        proof {
            broadcast use {group_distinct_keys, group_store_keys};

        }
        if let Err(error) = self.check() {
            return Err(error);
        }
        let library: &mut ServerLibrary = self.library_mut(server_id);
        library.misses = Vec::new();
        assert(library.misses.deep_view() =~= Seq::empty());
        Ok(())
    }

    /// Keeps where a fetched image lies, in the place of what was kept for the same item, tag
    /// and size.
    pub fn save_cover_cache_entry(&mut self, entry: CoverCacheEntry) -> (result: Result<(), String>)
        ensures
            ({
                let server_id = entry.deep_view().server_id;
                let library = old(self).deep_view().library(server_id);
                let added = entry.deep_view();
                wrote(
                    result,
                    old(self).deep_view(),
                    final(self).deep_view(),
                    old(self).deep_view().with_library(
                        server_id,
                        ServerLibraryView {
                            covers: chosen(
                                library.covers,
                                is_other_cover(added.item_id, added.image_tag, added.size),
                            ).push(added),
                            ..library
                        },
                    ),
                )
            }),
    {
        proof {
            broadcast use {group_distinct_keys, group_store_keys};

        }
        if let Err(error) = self.check() {
            return Err(error);
        }
        let library: &mut ServerLibrary = self.library_mut(&entry.server_id);
        let others: CoverKey = CoverKey {
            item_id: entry.item_id.as_str(),
            image_tag: entry.image_tag.as_str(),
            size: entry.size,
            wanted: false,
        };
        let mut covers: Vec<CoverCacheEntry> = choose_items(&library.covers, &others);
        let ghost before = covers.deep_view();
        let ghost added = entry.deep_view();
        covers.push(entry);
        assert(covers.deep_view() =~= before.push(added));
        library.covers = covers;
        Ok(())
    }

    /// Forgets where a fetched image lay.
    pub fn delete_cover_cache_entry(
        &mut self,
        server_id: &ServerId,
        item_id: &str,
        image_tag: &str,
        size: u32,
    ) -> (result: Result<(), String>)
        ensures
            ({
                let library = old(self).deep_view().library(server_id.deep_view());
                wrote(
                    result,
                    old(self).deep_view(),
                    final(self).deep_view(),
                    old(self).deep_view().with_library(
                        server_id.deep_view(),
                        ServerLibraryView {
                            covers: chosen(
                                library.covers,
                                is_other_cover(item_id@, image_tag@, size),
                            ),
                            ..library
                        },
                    ),
                )
            }),
    {
        proof {
            broadcast use {group_distinct_keys, group_store_keys};

        }
        if let Err(error) = self.check() {
            return Err(error);
        }
        let library: &mut ServerLibrary = self.library_mut(server_id);
        library.covers = choose_items(
            &library.covers,
            &CoverKey { item_id, image_tag, size, wanted: false },
        );
        Ok(())
    }

    /// Begins to read the library of a source; gives the number of this reading.
    pub fn begin_sync(&mut self, server_id: &ServerId) -> (result: Result<u64, String>)
        ensures
            ({
                let before = old(self).deep_view();
                let library = before.library(server_id.deep_view());
                let generation = library.sync.generation.wrapping_add(1);
                &&& answers(result, before.fault, generation)
                &&& final(self).deep_view() == (if result is Ok {
                    before.with_library(
                        server_id.deep_view(),
                        library.with_sync("syncing"@, generation, None),
                    )
                } else {
                    before
                })
                &&& before.wf() ==> final(self).deep_view().wf()
            }),
    {
        proof {
            broadcast use {group_distinct_keys, group_store_keys};

        }
        if let Err(error) = self.check() {
            return Err(error);
        }
        let library: &mut ServerLibrary = self.library_mut(server_id);
        let generation: u64 = library.sync.generation.wrapping_add(1);
        library.sync = SyncState { status: text::owned("syncing"), generation, error: None };
        Ok(generation)
    }

    /// Clears the library of a source.
    pub fn clear_library_cache(&mut self, server_id: &ServerId) -> (result: Result<(), String>)
        ensures
            wrote(
                result,
                old(self).deep_view(),
                final(self).deep_view(),
                old(self).deep_view().with_cleared_library(server_id.deep_view()),
            ),
    {
        proof {
            broadcast use {group_distinct_keys, group_store_keys};

        }
        if let Err(error) = self.check() {
            return Err(error);
        }
        let library: &mut ServerLibrary = self.library_mut(server_id);
        clear_library(library);
        Ok(())
    }

    /// Keeps an edited source.
    pub fn save_server_settings_update(
        &mut self,
        saved: &SavedServer,
        identity_changed: bool,
    ) -> (result: Result<(), String>)
        ensures
            wrote(
                result,
                old(self).deep_view(),
                final(self).deep_view(),
                old(self).deep_view().with_edited_server(saved.deep_view(), identity_changed),
            ),
    {
        proof {
            broadcast use {group_distinct_keys, group_store_keys};

        }
        if let Err(error) = self.save_server(saved) {
            return Err(error);
        }
        if identity_changed {
            let ghost edited = self.deep_view();
            let ghost server_id = saved.deep_view().server.id;
            let library: &mut ServerLibrary = self.library_mut(&saved.server.id);
            clear_library(library);
            library.queue = None;
            proof {
                let left = ServerLibraryView { queue: None, ..edited.library(server_id).cleared() };
                if edited.wf() {
                    assert(left.wf());
                    with_library_is_wf(edited, server_id, left);
                }
            }
        }
        Ok(())
    }

    /// Keeps a queue.
    pub fn save_queue_snapshot(&mut self, snapshot: &QueueSnapshot) -> (result: Result<(), String>)
        ensures
            wrote(
                result,
                old(self).deep_view(),
                final(self).deep_view(),
                old(self).deep_view().with_queue(snapshot.deep_view()),
            ),
    {
        proof {
            broadcast use {group_distinct_keys, group_store_keys};

        }
        if let Err(error) = self.check() {
            return Err(error);
        }
        let library: &mut ServerLibrary = self.library_mut(&snapshot.server_id);
        library.queue = Some(snapshot.copy());
        Ok(())
    }

    /// Keeps the lyrics of a track.
    pub fn save_lyrics(&mut self, server_id: &ServerId, lyrics: &Lyrics) -> (result: Result<
        (),
        String,
    >)
        ensures
            wrote(
                result,
                old(self).deep_view(),
                final(self).deep_view(),
                old(self).deep_view().with_lyrics(server_id.deep_view(), lyrics.deep_view()),
            ),
    {
        proof {
            broadcast use {group_distinct_keys, group_store_keys};

        }
        if let Err(error) = self.check() {
            return Err(error);
        }
        let library: &mut ServerLibrary = self.library_mut(server_id);
        insert_row(&mut library.lyrics, lyrics.copy());
        Ok(())
    }

    /// Forgets the lyrics of a track that came from elsewhere than its source; tells whether
    /// there were any.
    pub fn delete_remote_lyrics(&mut self, server_id: &ServerId, track_id: &TrackId) -> (result:
        Result<bool, String>)
        ensures
            ({
                let before = old(self).deep_view();
                let library = before.library(server_id.deep_view());
                let found = library.has_remote_lyrics(track_id.deep_view());
                &&& answers(result, before.fault, found)
                &&& final(self).deep_view() == (if result is Ok && found {
                    before.with_library(
                        server_id.deep_view(),
                        ServerLibraryView {
                            lyrics: without_row::<Lyrics>(library.lyrics, track_id.deep_view()),
                            ..library
                        },
                    )
                } else {
                    before
                })
                &&& before.wf() ==> final(self).deep_view().wf()
            }),
    {
        proof {
            broadcast use {group_distinct_keys, group_store_keys};

        }
        let kept: Option<Lyrics> = match self.load_lyrics(server_id, track_id) {
            Ok(kept) => kept,
            Err(error) => return Err(error),
        };
        let found: bool = match &kept {
            Some(lyrics) => lyrics.source == LyricsSource::Remote,
            None => false,
        };
        if found {
            let library: &mut ServerLibrary = self.library_mut(server_id);
            let _gone: bool = remove_row(&mut library.lyrics, track_id.as_str());
        }
        Ok(found)
    }

    /// What is kept of a source.
    pub fn library(&self, server_id: &ServerId) -> (result: ServerLibrary)
        ensures
            result.deep_view() == self.deep_view().library(server_id.deep_view()),
    {
        match get_row(&self.libraries, server_id.as_str()) {
            Some(library) => library,
            None => new_library(server_id),
        }
    }

    pub fn load_lyrics(&self, server_id: &ServerId, track_id: &TrackId) -> (result: Result<
        Option<Lyrics>,
        String,
    >)
        ensures
            answers(
                result,
                self.deep_view().fault,
                row::<Lyrics>(
                    self.deep_view().library(server_id.deep_view()).lyrics,
                    track_id.deep_view(),
                ),
            ),
    {
        if let Err(error) = self.check() {
            return Err(error);
        }
        Ok(get_row(&self.library(server_id).lyrics, track_id.as_str()))
    }

    pub fn load_queue_snapshot(&self, server_id: &ServerId) -> (result: Result<
        Option<QueueSnapshot>,
        String,
    >)
        ensures
            answers(
                result,
                self.deep_view().fault,
                self.deep_view().library(server_id.deep_view()).queue,
            ),
    {
        if let Err(error) = self.check() {
            return Err(error);
        }
        Ok(self.library(server_id).queue)
    }

    pub fn sync_state(&self, server_id: &ServerId) -> (result: Result<SyncState, String>)
        ensures
            answers(
                result,
                self.deep_view().fault,
                self.deep_view().library(server_id.deep_view()).sync,
            ),
    {
        if let Err(error) = self.check() {
            return Err(error);
        }
        Ok(self.library(server_id).sync)
    }

    /// Where the image for an item, tag and size lies.
    pub fn load_cover_cache_entry(
        &self,
        server_id: &ServerId,
        item_id: &str,
        image_tag: &str,
        size: u32,
    ) -> (result: Result<Option<CoverCacheEntry>, String>)
        ensures
            answers(
                result,
                self.deep_view().fault,
                self.deep_view().library(server_id.deep_view()).cover(item_id@, image_tag@, size),
            ),
    {
        if let Err(error) = self.check() {
            return Err(error);
        }
        let library: ServerLibrary = self.library(server_id);
        let found: Vec<CoverCacheEntry> = choose_items(
            &library.covers,
            &CoverKey { item_id, image_tag, size, wanted: true },
        );
        assert(found.deep_view().len() == found@.len());
        if found.len() > 0 {
            Ok(Some(found[0].copy()))
        } else {
            Ok(None)
        }
    }

    /// Whether an image was looked for and not found for an item, tag and size.
    pub fn load_external_image_lookup_miss(
        &self,
        server_id: &ServerId,
        item_id: &str,
        image_tag: &str,
        size: u32,
    ) -> (result: Result<bool, String>)
        ensures
            answers(
                result,
                self.deep_view().fault,
                self.deep_view().library(server_id.deep_view()).missed(item_id@, image_tag@, size),
            ),
    {
        if let Err(error) = self.check() {
            return Err(error);
        }
        let library: ServerLibrary = self.library(server_id);
        let found: Vec<LookupMiss> = choose_items(
            &library.misses,
            &MissKey { item_id, image_tag, size },
        );
        assert(found.deep_view().len() == found@.len());
        Ok(found.len() > 0)
    }
}

/// The first image kept of any source for an item, tag and size.
pub open spec fn any_cover(
    libraries: Seq<ServerLibraryView>,
    item_id: Seq<char>,
    image_tag: Seq<char>,
    size: u32,
) -> Option<CoverCacheEntryView>
    decreases libraries.len(),
{
    if libraries.len() == 0 {
        None
    } else if let Some(entry) = libraries[0].cover(item_id, image_tag, size) {
        Some(entry)
    } else {
        any_cover(libraries.drop_first(), item_id, image_tag, size)
    }
}

/// Whether an image was looked for and not found for an item, tag and size, by any source.
pub open spec fn any_missed(
    libraries: Seq<ServerLibraryView>,
    item_id: Seq<char>,
    image_tag: Seq<char>,
    size: u32,
) -> bool
    decreases libraries.len(),
{
    libraries.len() > 0 && (libraries[0].missed(item_id, image_tag, size) || any_missed(
        libraries.drop_first(),
        item_id,
        image_tag,
        size,
    ))
}

impl Store {
    /// The first image kept of any source for an item, tag and size.
    pub fn load_cover_by_content(&self, item_id: &str, image_tag: &str, size: u32) -> (result:
        Option<CoverCacheEntry>)
        ensures
            result.deep_view() == any_cover(
                self.deep_view().libraries,
                item_id@,
                image_tag@,
                size,
            ),
    {
        let ghost all = self.deep_view().libraries;
        let mut i: usize = 0;
        assert(all.skip(0) =~= all);
        while i < self.libraries.len()
            invariant
                i <= self.libraries@.len(),
                all == self.deep_view().libraries,
                any_cover(all, item_id@, image_tag@, size) == any_cover(
                    all.skip(i as int),
                    item_id@,
                    image_tag@,
                    size,
                ),
            decreases self.libraries.len() - i,
        {
            assert(all.skip(i as int)[0] == self.libraries@[i as int].deep_view());
            assert(all.skip(i as int).drop_first() =~= all.skip(i + 1));
            let found: Vec<CoverCacheEntry> = choose_items(
                &self.libraries[i].covers,
                &CoverKey { item_id, image_tag, size, wanted: true },
            );
            assert(found.deep_view().len() == found@.len());
            if found.len() > 0 {
                return Some(found[0].copy());
            }
            i += 1;
        }
        assert(all.skip(i as int).len() == 0);
        None
    }

    /// Whether an image was looked for and not found for an item, tag and size, by any source.
    pub fn load_miss_by_content(&self, item_id: &str, image_tag: &str, size: u32) -> (result: bool)
        ensures
            result == any_missed(self.deep_view().libraries, item_id@, image_tag@, size),
    {
        let ghost all = self.deep_view().libraries;
        let mut i: usize = 0;
        assert(all.skip(0) =~= all);
        while i < self.libraries.len()
            invariant
                i <= self.libraries@.len(),
                all == self.deep_view().libraries,
                any_missed(all, item_id@, image_tag@, size) == any_missed(
                    all.skip(i as int),
                    item_id@,
                    image_tag@,
                    size,
                ),
            decreases self.libraries.len() - i,
        {
            assert(all.skip(i as int)[0] == self.libraries@[i as int].deep_view());
            assert(all.skip(i as int).drop_first() =~= all.skip(i + 1));
            let found: Vec<LookupMiss> = choose_items(
                &self.libraries[i].misses,
                &MissKey { item_id, image_tag, size },
            );
            assert(found.deep_view().len() == found@.len());
            if found.len() > 0 {
                return true;
            }
            i += 1;
        }
        assert(all.skip(i as int).len() == 0);
        false
    }
}

fn clear_library(library: &mut ServerLibrary)
    ensures
        final(library).deep_view() == old(library).deep_view().cleared(),
{
    let mut cleared: ServerLibrary = new_library(&library.server_id);
    cleared.selected_music_folder_id = library.selected_music_folder_id.copy();
    cleared.sync = SyncState {
        status: text::owned("idle"),
        generation: library.sync.generation,
        error: None,
    };
    cleared.queue = library.queue.copy();
    cleared.local_access = library.local_access.copy();
    *library = cleared;
}

/// The token kept for a source.
pub open spec fn token_of(tokens: TokenStoreView, server_id: Seq<char>) -> Option<Seq<char>> {
    match row::<ServerToken>(tokens.tokens, server_id) {
        Some(kept) => Some(kept.token),
        None => None,
    }
}

/// The tokens with one more.
pub open spec fn with_token(
    tokens: TokenStoreView,
    server_id: Seq<char>,
    token: Seq<char>,
) -> TokenStoreView {
    TokenStoreView {
        tokens: put_row::<ServerToken>(tokens.tokens, ServerTokenView { server_id, token }),
        ..tokens
    }
}

/// The tokens without that for a source.
pub open spec fn without_token(tokens: TokenStoreView, server_id: Seq<char>) -> TokenStoreView {
    TokenStoreView { tokens: without_row::<ServerToken>(tokens.tokens, server_id), ..tokens }
}

/// No tokens.
pub fn no_tokens() -> (result: TokenStore)
    ensures
        result.deep_view() == (TokenStoreView {
            tokens: Seq::empty(),
            load_fault: None,
            save_fault: None,
            delete_fault: None,
        }),
        result.deep_view().wf(),
{
    proof {
        broadcast use group_distinct_keys;

    }
    let result: TokenStore = TokenStore {
        tokens: Vec::new(),
        load_fault: None,
        save_fault: None,
        delete_fault: None,
    };
    assert(result.tokens.deep_view() =~= Seq::empty());
    result
}

impl TokenStore {
    pub fn load_token(&self, server_id: &ServerId) -> (result: Result<Option<String>, String>)
        ensures
            answers(
                result,
                self.deep_view().load_fault,
                token_of(self.deep_view(), server_id.deep_view()),
            ),
    {
        if let Some(fault) = &self.load_fault {
            return Err(fault.copy());
        }
        match get_row(&self.tokens, server_id.as_str()) {
            Some(kept) => Ok(Some(kept.token)),
            None => Ok(None),
        }
    }

    pub fn save_token(&mut self, server_id: &ServerId, token: &str) -> (result: Result<(), String>)
        ensures
            done(result, old(self).deep_view().save_fault),
            final(self).deep_view() == (if result is Ok {
                with_token(old(self).deep_view(), server_id.deep_view(), token@)
            } else {
                old(self).deep_view()
            }),
            old(self).deep_view().wf() ==> final(self).deep_view().wf(),
    {
        proof {
            broadcast use {group_distinct_keys, group_store_keys};

        }
        if let Some(fault) = &self.save_fault {
            return Err(fault.copy());
        }
        insert_row(
            &mut self.tokens,
            ServerToken { server_id: server_id.copy(), token: text::owned(token) },
        );
        Ok(())
    }

    pub fn delete_token(&mut self, server_id: &ServerId) -> (result: Result<(), String>)
        ensures
            done(result, old(self).deep_view().delete_fault),
            final(self).deep_view() == (if result is Ok {
                without_token(old(self).deep_view(), server_id.deep_view())
            } else {
                old(self).deep_view()
            }),
            old(self).deep_view().wf() ==> final(self).deep_view().wf(),
    {
        proof {
            broadcast use {group_distinct_keys, group_store_keys};

        }
        if let Some(fault) = &self.delete_fault {
            return Err(fault.copy());
        }
        let _known: bool = remove_row(&mut self.tokens, server_id.as_str());
        Ok(())
    }
}

/// What is kept of a source is what was last written of it, and nothing else changes.
pub proof fn kept_library_is_read_back(
    store: StoreView,
    server_id: Seq<char>,
    library: ServerLibraryView,
    other: Seq<char>,
)
    requires
        library.server_id == server_id,
        other != server_id,
    ensures
        store.with_library(server_id, library).library(server_id) == library,
        store.with_library(server_id, library).library(other) == store.library(other),
        store.with_library(server_id, library).servers == store.servers,
        store.with_library(server_id, library).settings == store.settings,
{
    crate::table::put_row_is_found::<ServerLibrary>(store.libraries, library);
    crate::table::put_row_keeps_the_others::<ServerLibrary>(store.libraries, library, other);
}

/// A source that was forgotten is no longer shown, and the others stay as they were.
pub proof fn forgotten_server_is_not_shown(store: StoreView, server_id: Seq<char>)
    requires
        store.active == Some(server_id),
    ensures
        store.without_server(server_id).active_server() is None,
        store.without_server(server_id).settings == store.settings,
{
}

} // verus!
