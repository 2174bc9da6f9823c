//! Servers and local folders that a library comes from.
use crate::model::ids::{ServerId, TrackId};
use crate::value::Value;
use vstd::prelude::*;

verus! {

/// A music server, or the local source that stands for one.
#[derive(Clone, Debug, PartialEq, Eq)]
pub struct ServerIdentity {
    pub id: ServerId,
    pub provider: String,
    pub name: String,
    pub base_url: String,
}

/// The contents of a [`ServerIdentity`].
#[verifier::ext_equal]
pub struct ServerIdentityView {
    pub id: Seq<char>,
    pub provider: Seq<char>,
    pub name: Seq<char>,
    pub base_url: Seq<char>,
}

impl DeepView for ServerIdentity {
    type V = ServerIdentityView;

    open spec fn deep_view(&self) -> ServerIdentityView {
        ServerIdentityView {
            id: self.id.deep_view(),
            provider: self.provider.deep_view(),
            name: self.name.deep_view(),
            base_url: self.base_url.deep_view(),
        }
    }
}

impl Value for ServerIdentity {
    fn copy(&self) -> (result: ServerIdentity) {
        ServerIdentity {
            id: self.id.copy(),
            provider: self.provider.copy(),
            name: self.name.copy(),
            base_url: self.base_url.copy(),
        }
    }

    fn same(&self, other: &ServerIdentity) -> (result: bool) {
        self.id.same(&other.id)
            && self.provider.same(&other.provider)
            && self.name.same(&other.name)
            && self.base_url.same(&other.base_url)
    }
}

/// A server with the account that it is used with.
#[derive(Clone, Debug, PartialEq, Eq)]
pub struct SavedServer {
    pub server: ServerIdentity,
    pub user_id: String,
    pub username: String,
    pub trust_invalid_cert: bool,
}

/// The contents of a [`SavedServer`].
#[verifier::ext_equal]
pub struct SavedServerView {
    pub server: ServerIdentityView,
    pub user_id: Seq<char>,
    pub username: Seq<char>,
    pub trust_invalid_cert: bool,
}

impl DeepView for SavedServer {
    type V = SavedServerView;

    open spec fn deep_view(&self) -> SavedServerView {
        SavedServerView {
            server: self.server.deep_view(),
            user_id: self.user_id.deep_view(),
            username: self.username.deep_view(),
            trust_invalid_cert: self.trust_invalid_cert.deep_view(),
        }
    }
}

impl Value for SavedServer {
    fn copy(&self) -> (result: SavedServer) {
        SavedServer {
            server: self.server.copy(),
            user_id: self.user_id.copy(),
            username: self.username.copy(),
            trust_invalid_cert: self.trust_invalid_cert.copy(),
        }
    }

    fn same(&self, other: &SavedServer) -> (result: bool) {
        self.server.same(&other.server)
            && self.user_id.same(&other.user_id)
            && self.username.same(&other.username)
            && self.trust_invalid_cert.same(&other.trust_invalid_cert)
    }
}

/// Where the files of a server can be found on this machine.
#[derive(Clone, Debug, PartialEq, Eq)]
pub struct ServerLocalAccess {
    pub server_id: ServerId,
    pub root_path: String,
    pub path_replace_from: Option<String>,
    pub path_replace_to: Option<String>,
}

/// The contents of a [`ServerLocalAccess`].
#[verifier::ext_equal]
pub struct ServerLocalAccessView {
    pub server_id: Seq<char>,
    pub root_path: Seq<char>,
    pub path_replace_from: Option<Seq<char>>,
    pub path_replace_to: Option<Seq<char>>,
}

impl DeepView for ServerLocalAccess {
    type V = ServerLocalAccessView;

    open spec fn deep_view(&self) -> ServerLocalAccessView {
        ServerLocalAccessView {
            server_id: self.server_id.deep_view(),
            root_path: self.root_path.deep_view(),
            path_replace_from: self.path_replace_from.deep_view(),
            path_replace_to: self.path_replace_to.deep_view(),
        }
    }
}

impl Value for ServerLocalAccess {
    fn copy(&self) -> (result: ServerLocalAccess) {
        ServerLocalAccess {
            server_id: self.server_id.copy(),
            root_path: self.root_path.copy(),
            path_replace_from: self.path_replace_from.copy(),
            path_replace_to: self.path_replace_to.copy(),
        }
    }

    fn same(&self, other: &ServerLocalAccess) -> (result: bool) {
        self.server_id.same(&other.server_id)
            && self.root_path.same(&other.root_path)
            && self.path_replace_from.same(&other.path_replace_from)
            && self.path_replace_to.same(&other.path_replace_to)
    }
}

/// What a server answered to a login.
#[derive(Clone, Debug, PartialEq, Eq)]
pub struct ProviderSession {
    pub server: ServerIdentity,
    pub user_id: String,
    pub username: String,
    pub access_token: String,
    pub device_id: Option<String>,
}

/// The contents of a [`ProviderSession`].
#[verifier::ext_equal]
pub struct ProviderSessionView {
    pub server: ServerIdentityView,
    pub user_id: Seq<char>,
    pub username: Seq<char>,
    pub access_token: Seq<char>,
    pub device_id: Option<Seq<char>>,
}

impl DeepView for ProviderSession {
    type V = ProviderSessionView;

    open spec fn deep_view(&self) -> ProviderSessionView {
        ProviderSessionView {
            server: self.server.deep_view(),
            user_id: self.user_id.deep_view(),
            username: self.username.deep_view(),
            access_token: self.access_token.deep_view(),
            device_id: self.device_id.deep_view(),
        }
    }
}

impl Value for ProviderSession {
    fn copy(&self) -> (result: ProviderSession) {
        ProviderSession {
            server: self.server.copy(),
            user_id: self.user_id.copy(),
            username: self.username.copy(),
            access_token: self.access_token.copy(),
            device_id: self.device_id.copy(),
        }
    }

    fn same(&self, other: &ProviderSession) -> (result: bool) {
        self.server.same(&other.server)
            && self.user_id.same(&other.user_id)
            && self.username.same(&other.username)
            && self.access_token.same(&other.access_token)
            && self.device_id.same(&other.device_id)
    }
}

/// The source that the library shows.
#[derive(Clone, Debug, PartialEq, Eq)]
pub enum LibrarySourceSelection {
    Local,
    Server(ServerId),
}

/// The contents of a [`LibrarySourceSelection`].
#[verifier::ext_equal]
pub enum LibrarySourceSelectionView {
    Local,
    Server(Seq<char>),
}

impl DeepView for LibrarySourceSelection {
    type V = LibrarySourceSelectionView;

    open spec fn deep_view(&self) -> LibrarySourceSelectionView {
        match self {
            LibrarySourceSelection::Local => LibrarySourceSelectionView::Local,
            LibrarySourceSelection::Server(value) => LibrarySourceSelectionView::Server(
                value.deep_view(),
            ),
        }
    }
}

impl Value for LibrarySourceSelection {
    fn copy(&self) -> (result: LibrarySourceSelection) {
        match self {
            LibrarySourceSelection::Local => LibrarySourceSelection::Local,
            LibrarySourceSelection::Server(value) => LibrarySourceSelection::Server(value.copy()),
        }
    }

    fn same(&self, other: &LibrarySourceSelection) -> (result: bool) {
        match (self, other) {
            (LibrarySourceSelection::Local, LibrarySourceSelection::Local) => true,
            (
                LibrarySourceSelection::Server(left_value),
                LibrarySourceSelection::Server(right_value),
            ) => left_value.same(right_value),
            _ => false,
        }
    }
}

/// A folder of local music.
#[derive(Clone, Debug, PartialEq, Eq)]
pub struct LocalLibraryFolder {
    pub path: String,
}

/// The contents of a [`LocalLibraryFolder`].
#[verifier::ext_equal]
pub struct LocalLibraryFolderView {
    pub path: Seq<char>,
}

impl DeepView for LocalLibraryFolder {
    type V = LocalLibraryFolderView;

    open spec fn deep_view(&self) -> LocalLibraryFolderView {
        LocalLibraryFolderView {
            path: self.path.deep_view(),
        }
    }
}

impl Value for LocalLibraryFolder {
    fn copy(&self) -> (result: LocalLibraryFolder) {
        LocalLibraryFolder {
            path: self.path.copy(),
        }
    }

    fn same(&self, other: &LocalLibraryFolder) -> (result: bool) {
        self.path.same(&other.path)
    }
}

/// How many tracks of a server have a file on this machine.
#[derive(Clone, Debug, PartialEq, Eq)]
pub struct LocalAccessStatus {
    pub sample_server_path: Option<String>,
    pub sample_local_path: Option<String>,
    pub direct_match_count: usize,
    pub prefix_match_count: usize,
    pub metadata_match_count: usize,
    pub unmatched_count: usize,
    pub total_track_count: usize,
}

/// The contents of a [`LocalAccessStatus`].
#[verifier::ext_equal]
pub struct LocalAccessStatusView {
    pub sample_server_path: Option<Seq<char>>,
    pub sample_local_path: Option<Seq<char>>,
    pub direct_match_count: usize,
    pub prefix_match_count: usize,
    pub metadata_match_count: usize,
    pub unmatched_count: usize,
    pub total_track_count: usize,
}

impl DeepView for LocalAccessStatus {
    type V = LocalAccessStatusView;

    open spec fn deep_view(&self) -> LocalAccessStatusView {
        LocalAccessStatusView {
            sample_server_path: self.sample_server_path.deep_view(),
            sample_local_path: self.sample_local_path.deep_view(),
            direct_match_count: self.direct_match_count.deep_view(),
            prefix_match_count: self.prefix_match_count.deep_view(),
            metadata_match_count: self.metadata_match_count.deep_view(),
            unmatched_count: self.unmatched_count.deep_view(),
            total_track_count: self.total_track_count.deep_view(),
        }
    }
}

impl Value for LocalAccessStatus {
    fn copy(&self) -> (result: LocalAccessStatus) {
        LocalAccessStatus {
            sample_server_path: self.sample_server_path.copy(),
            sample_local_path: self.sample_local_path.copy(),
            direct_match_count: self.direct_match_count.copy(),
            prefix_match_count: self.prefix_match_count.copy(),
            metadata_match_count: self.metadata_match_count.copy(),
            unmatched_count: self.unmatched_count.copy(),
            total_track_count: self.total_track_count.copy(),
        }
    }

    fn same(&self, other: &LocalAccessStatus) -> (result: bool) {
        self.sample_server_path.same(&other.sample_server_path)
            && self.sample_local_path.same(&other.sample_local_path)
            && self.direct_match_count.same(&other.direct_match_count)
            && self.prefix_match_count.same(&other.prefix_match_count)
            && self.metadata_match_count.same(&other.metadata_match_count)
            && self.unmatched_count.same(&other.unmatched_count)
            && self.total_track_count.same(&other.total_track_count)
    }
}

/// The kinds of music server that a login is known for.
#[derive(Clone, Copy, Debug, PartialEq, Eq, Structural)]
pub enum StreamingProvider {
    Jellyfin,
    Subsonic,
}

impl DeepView for StreamingProvider {
    type V = StreamingProvider;

    open spec fn deep_view(&self) -> StreamingProvider {
        *self
    }
}

impl Value for StreamingProvider {
    fn copy(&self) -> (result: StreamingProvider) {
        *self
    }

    fn same(&self, other: &StreamingProvider) -> (result: bool) {
        *self == *other
    }
}

/// The file that stands for a track of a server, and how it was found.
#[derive(Clone, Debug, PartialEq, Eq)]
pub struct TrackLocalMatch {
    pub track_id: TrackId,
    pub path: String,
    pub method: String,
}

/// The contents of a [`TrackLocalMatch`].
#[verifier::ext_equal]
pub struct TrackLocalMatchView {
    pub track_id: Seq<char>,
    pub path: Seq<char>,
    pub method: Seq<char>,
}

impl DeepView for TrackLocalMatch {
    type V = TrackLocalMatchView;

    open spec fn deep_view(&self) -> TrackLocalMatchView {
        TrackLocalMatchView {
            track_id: self.track_id.deep_view(),
            path: self.path.deep_view(),
            method: self.method.deep_view(),
        }
    }
}

impl Value for TrackLocalMatch {
    fn copy(&self) -> (result: TrackLocalMatch) {
        TrackLocalMatch {
            track_id: self.track_id.copy(),
            path: self.path.copy(),
            method: self.method.copy(),
        }
    }

    fn same(&self, other: &TrackLocalMatch) -> (result: bool) {
        self.track_id.same(&other.track_id)
            && self.path.same(&other.path)
            && self.method.same(&other.method)
    }
}

} // verus!
