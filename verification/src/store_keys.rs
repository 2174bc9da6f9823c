//! That what is kept of libraries and sources is told apart by its keys.
use crate::model::library::{
    Album, Artist, Genre, MusicFolder, Playlist, SmartPlaylistDetail, Track, TrackView,
};
use crate::model::lyrics::Lyrics;
use crate::model::settings::AppSettingsView;
use crate::model::source::{SavedServer, SavedServerView};
use crate::model::store::{
    FolderMember, FolderMemberView, PlaylistRows, ServerLibrary, ServerLibraryView, ServerToken,
    Store, StoreView, TokenStore, TokenStoreView,
};
use crate::store::{
    empty_library, members_are_read_back, token_of, with_members, without_token,
};
use crate::table::{
    distinct, group_distinct_keys, keys_are_distinct, lemma_row_place, put_row, removed_row_is_gone,
    row_place,
};
use crate::value::Value;
use vstd::prelude::*;

verus! {

broadcast use group_distinct_keys;

impl ServerLibraryView {
    /// Whether each table of a library has distinct keys.
    pub open spec fn wf(self) -> bool {
        &&& distinct::<Album>(self.albums)
        &&& distinct::<Track>(self.tracks)
        &&& distinct::<Artist>(self.artists)
        &&& distinct::<Artist>(self.album_artists)
        &&& distinct::<Genre>(self.genres)
        &&& distinct::<Playlist>(self.playlists)
        &&& distinct::<PlaylistRows>(self.playlist_rows)
        &&& distinct::<SmartPlaylistDetail>(self.smart_playlists)
        &&& distinct::<MusicFolder>(self.music_folders)
        &&& distinct::<Lyrics>(self.lyrics)
        &&& self.folder_members.no_duplicates()
    }
}

impl StoreView {
    /// Whether the sources and their libraries have distinct keys, and so has each table of a
    /// library.
    #[verifier::opaque]
    pub open spec fn wf(self) -> bool {
        &&& distinct::<SavedServer>(self.servers)
        &&& distinct::<ServerLibrary>(self.libraries)
        &&& forall|i: int| 0 <= i < self.libraries.len() ==> (#[trigger] self.libraries[i]).wf()
    }
}

impl TokenStoreView {
    /// Whether there is at most one token for each source.
    pub open spec fn wf(self) -> bool {
        distinct::<ServerToken>(self.tokens)
    }
}

/// A store with nothing in it has distinct keys.
pub broadcast proof fn empty_store_is_wf()
    ensures
        #[trigger] StoreView::empty().wf(),
{
    reveal(StoreView::wf);
}

/// What is kept of a source has distinct keys.
pub broadcast proof fn libraries_are_wf(store: StoreView, server_id: Seq<char>)
    requires
        #[trigger] store.wf(),
    ensures
        (#[trigger] store.library(server_id)).wf(),
        store.library(server_id).server_id == server_id,
{
    reveal(StoreView::wf);
    lemma_row_place::<ServerLibrary>(store.libraries, server_id);
    assert(empty_library(server_id).folder_members.no_duplicates());
}

/// A store keeps its keys distinct where a library is written.
pub broadcast proof fn with_library_is_wf(
    store: StoreView,
    server_id: Seq<char>,
    library: ServerLibraryView,
)
    requires
        store.wf(),
        library.wf(),
        library.server_id == server_id,
    ensures
        #[trigger] store.with_library(server_id, library).wf(),
{
    reveal(StoreView::wf);
    let after = store.with_library(server_id, library);
    assert(after.libraries == put_row::<ServerLibrary>(store.libraries, library));
    let at = row_place::<ServerLibrary>(store.libraries, server_id);
    lemma_row_place::<ServerLibrary>(store.libraries, server_id);
    assert forall|i: int| 0 <= i < after.libraries.len() implies (
    #[trigger] after.libraries[i]).wf() by {
        if i != at {
            assert(after.libraries[i] == store.libraries[i]);
        }
    }
}

/// A store keeps its keys distinct where its settings are changed.
pub broadcast proof fn with_settings_is_wf(store: StoreView, settings: AppSettingsView)
    requires
        store.wf(),
    ensures
        #[trigger] store.with_settings(settings).wf(),
{
    reveal(StoreView::wf);
}

/// A store keeps its keys distinct where a source is written.
pub broadcast proof fn with_server_is_wf(store: StoreView, saved: SavedServerView)
    requires
        store.wf(),
    ensures
        #[trigger] store.with_server(saved).wf(),
{
    reveal(StoreView::wf);
}

/// A store keeps its keys distinct where another source is shown.
pub broadcast proof fn with_active_is_wf(store: StoreView, server_id: Seq<char>)
    requires
        store.wf(),
    ensures
        #[trigger] store.with_active(server_id).wf(),
{
    reveal(StoreView::wf);
}

/// A store keeps its keys distinct where a source is forgotten.
pub broadcast proof fn without_server_is_wf(store: StoreView, server_id: Seq<char>)
    requires
        store.wf(),
    ensures
        #[trigger] store.without_server(server_id).wf(),
{
    reveal(StoreView::wf);
    let after = store.without_server(server_id);
    let at = row_place::<ServerLibrary>(store.libraries, server_id);
    lemma_row_place::<ServerLibrary>(store.libraries, server_id);
    assert forall|i: int| 0 <= i < after.libraries.len() implies (
    #[trigger] after.libraries[i]).wf() by {
        let before = if i < at {
            i
        } else {
            i + 1
        };
        if at < store.libraries.len() {
            assert(after.libraries[i] == store.libraries[before]);
        } else {
            assert(after.libraries[i] == store.libraries[i]);
        }
    }
}

/// No member of a music folder comes twice.
pub broadcast proof fn members_stay_distinct(
    members: Seq<FolderMemberView>,
    folder_id: Seq<char>,
    tracks: Seq<TrackView>,
)
    requires
        members.no_duplicates(),
    ensures
        #[trigger] with_members(members, folder_id, tracks).no_duplicates(),
{
    members_are_read_back(
        members,
        folder_id,
        tracks,
        FolderMemberView { folder_id, track_id: folder_id },
    );
}

pub broadcast group group_store_keys {
    empty_store_is_wf,
    libraries_are_wf,
    with_library_is_wf,
    with_settings_is_wf,
    with_server_is_wf,
    with_active_is_wf,
    without_server_is_wf,
    members_stay_distinct,
}

/// A source that was forgotten is not known any more, nothing is kept of its library, and the
/// other sources stay.
pub proof fn forgotten_servers_are_gone(store: StoreView, server_id: Seq<char>, other: Seq<char>)
    requires
        store.wf(),
        other != server_id,
    ensures
        store.without_server(server_id).server(server_id) is None,
        store.without_server(server_id).library(server_id) == empty_library(server_id),
        store.without_server(server_id).server(other) == store.server(other),
        store.without_server(server_id).library(other) == store.library(other),
{
    reveal(StoreView::wf);
    removed_row_is_gone::<SavedServer>(store.servers, server_id, other);
    removed_row_is_gone::<ServerLibrary>(store.libraries, server_id, other);
}

/// A token that was deleted is gone, and those of other sources stay.
pub proof fn deleted_tokens_are_gone(
    tokens: TokenStoreView,
    server_id: Seq<char>,
    other: Seq<char>,
)
    requires
        tokens.wf(),
        other != server_id,
    ensures
        token_of(without_token(tokens, server_id), server_id) is None,
        token_of(without_token(tokens, server_id), other)
            == token_of(tokens, other),
{
    removed_row_is_gone::<ServerToken>(tokens.tokens, server_id, other);
}

fn members_are_distinct(members: &Vec<FolderMember>) -> (result: bool)
    ensures
        result == members.deep_view().no_duplicates(),
{
    let ghost all = members.deep_view();
    let mut i: usize = 0;
    while i < members.len()
        invariant
            i <= members@.len(),
            all == members.deep_view(),
            all.len() == members@.len(),
            forall|k: int, j: int|
                #![trigger all[k], all[j]]
                0 <= k < j < all.len() && k < i ==> all[k] != all[j],
        decreases members.len() - i,
    {
        assert(all[i as int] == members@[i as int].deep_view());
        let mut j: usize = i + 1;
        while j < members.len()
            invariant
                i < members@.len(),
                i + 1 <= j <= members@.len(),
                all == members.deep_view(),
                all.len() == members@.len(),
                all[i as int] == members@[i as int].deep_view(),
                forall|k: int| i < k < j ==> #[trigger] all[k] != all[i as int],
            decreases members.len() - j,
        {
            assert(all[j as int] == members@[j as int].deep_view());
            if members[j].same(&members[i]) {
                assert(all[i as int] == all[j as int]);
                return false;
            }
            j += 1;
        }
        i += 1;
    }
    assert forall|k: int, j: int|
        0 <= k < all.len() && 0 <= j < all.len() && k != j implies all[k] != all[j] by {
        if k < j {
            assert(all[k] != all[j]);
        } else {
            assert(all[j] != all[k]);
        }
    }
    true
}

fn library_is_consistent(library: &ServerLibrary) -> (result: bool)
    ensures
        result == library.deep_view().wf(),
{
    keys_are_distinct(&library.albums) && keys_are_distinct(&library.tracks) && keys_are_distinct(
        &library.artists,
    ) && keys_are_distinct(&library.album_artists) && keys_are_distinct(&library.genres)
        && keys_are_distinct(&library.playlists) && keys_are_distinct(&library.playlist_rows)
        && keys_are_distinct(&library.smart_playlists) && keys_are_distinct(&library.music_folders)
        && keys_are_distinct(&library.lyrics) && members_are_distinct(&library.folder_members)
}

impl Store {
    /// Tells whether everything in the store is told apart by its keys, as it is in a store that
    /// was only ever changed through its functions.
    pub fn is_consistent(&self) -> (result: bool)
        ensures
            result == self.deep_view().wf(),
    {
        reveal(StoreView::wf);
        if !keys_are_distinct(&self.servers) || !keys_are_distinct(&self.libraries) {
            return false;
        }
        let ghost all = self.libraries.deep_view();
        let mut i: usize = 0;
        while i < self.libraries.len()
            invariant
                i <= self.libraries@.len(),
                all == self.libraries.deep_view(),
                all == self.deep_view().libraries,
                all.len() == self.libraries@.len(),
                forall|k: int| 0 <= k < i ==> (#[trigger] all[k]).wf(),
            decreases self.libraries.len() - i,
        {
            assert(all[i as int] == self.libraries@[i as int].deep_view());
            if !library_is_consistent(&self.libraries[i]) {
                assert(!self.deep_view().wf()) by {
                    reveal(StoreView::wf);
                    assert(!self.deep_view().libraries[i as int].wf());
                }
                return false;
            }
            i += 1;
        }
        true
    }
}

impl TokenStore {
    /// Tells whether there is at most one token for each source.
    pub fn is_consistent(&self) -> (result: bool)
        ensures
            result == self.deep_view().wf(),
    {
        keys_are_distinct(&self.tokens)
    }
}

} // verus!
