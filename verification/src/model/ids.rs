//! Identifiers of servers, library items and queue entries.
use crate::value::Value;
use vstd::prelude::*;

verus! {

/// Identifies a library source.
#[derive(Clone, Debug, PartialEq, Eq, Hash)]
pub struct ServerId {
    pub value: String,
}

impl DeepView for ServerId {
    type V = Seq<char>;

    open spec fn deep_view(&self) -> Seq<char> {
        self.value@
    }
}

impl Value for ServerId {
    fn copy(&self) -> (result: ServerId) {
        ServerId { value: self.value.copy() }
    }

    fn same(&self, other: &ServerId) -> (result: bool) {
        self.value.same(&other.value)
    }
}

impl ServerId {
    pub fn new(value: &str) -> (result: ServerId)
        ensures
            result.deep_view() == value@,
    {
        ServerId { value: value.to_owned() }
    }

    pub fn as_str(&self) -> (result: &str)
        ensures
            result@ == self.deep_view(),
    {
        self.value.as_str()
    }
}

/// Identifies a track.
#[derive(Clone, Debug, PartialEq, Eq, Hash)]
pub struct TrackId {
    pub value: String,
}

impl DeepView for TrackId {
    type V = Seq<char>;

    open spec fn deep_view(&self) -> Seq<char> {
        self.value@
    }
}

impl Value for TrackId {
    fn copy(&self) -> (result: TrackId) {
        TrackId { value: self.value.copy() }
    }

    fn same(&self, other: &TrackId) -> (result: bool) {
        self.value.same(&other.value)
    }
}

impl TrackId {
    pub fn new(value: &str) -> (result: TrackId)
        ensures
            result.deep_view() == value@,
    {
        TrackId { value: value.to_owned() }
    }

    pub fn as_str(&self) -> (result: &str)
        ensures
            result@ == self.deep_view(),
    {
        self.value.as_str()
    }
}

/// Identifies an album.
#[derive(Clone, Debug, PartialEq, Eq, Hash)]
pub struct AlbumId {
    pub value: String,
}

impl DeepView for AlbumId {
    type V = Seq<char>;

    open spec fn deep_view(&self) -> Seq<char> {
        self.value@
    }
}

impl Value for AlbumId {
    fn copy(&self) -> (result: AlbumId) {
        AlbumId { value: self.value.copy() }
    }

    fn same(&self, other: &AlbumId) -> (result: bool) {
        self.value.same(&other.value)
    }
}

impl AlbumId {
    pub fn new(value: &str) -> (result: AlbumId)
        ensures
            result.deep_view() == value@,
    {
        AlbumId { value: value.to_owned() }
    }

    pub fn as_str(&self) -> (result: &str)
        ensures
            result@ == self.deep_view(),
    {
        self.value.as_str()
    }
}

/// Identifies an artist.
#[derive(Clone, Debug, PartialEq, Eq, Hash)]
pub struct ArtistId {
    pub value: String,
}

impl DeepView for ArtistId {
    type V = Seq<char>;

    open spec fn deep_view(&self) -> Seq<char> {
        self.value@
    }
}

impl Value for ArtistId {
    fn copy(&self) -> (result: ArtistId) {
        ArtistId { value: self.value.copy() }
    }

    fn same(&self, other: &ArtistId) -> (result: bool) {
        self.value.same(&other.value)
    }
}

impl ArtistId {
    pub fn new(value: &str) -> (result: ArtistId)
        ensures
            result.deep_view() == value@,
    {
        ArtistId { value: value.to_owned() }
    }

    pub fn as_str(&self) -> (result: &str)
        ensures
            result@ == self.deep_view(),
    {
        self.value.as_str()
    }
}

/// Identifies a genre.
#[derive(Clone, Debug, PartialEq, Eq, Hash)]
pub struct GenreId {
    pub value: String,
}

impl DeepView for GenreId {
    type V = Seq<char>;

    open spec fn deep_view(&self) -> Seq<char> {
        self.value@
    }
}

impl Value for GenreId {
    fn copy(&self) -> (result: GenreId) {
        GenreId { value: self.value.copy() }
    }

    fn same(&self, other: &GenreId) -> (result: bool) {
        self.value.same(&other.value)
    }
}

impl GenreId {
    pub fn new(value: &str) -> (result: GenreId)
        ensures
            result.deep_view() == value@,
    {
        GenreId { value: value.to_owned() }
    }

    pub fn as_str(&self) -> (result: &str)
        ensures
            result@ == self.deep_view(),
    {
        self.value.as_str()
    }
}

/// Identifies a playlist.
#[derive(Clone, Debug, PartialEq, Eq, Hash)]
pub struct PlaylistId {
    pub value: String,
}

impl DeepView for PlaylistId {
    type V = Seq<char>;

    open spec fn deep_view(&self) -> Seq<char> {
        self.value@
    }
}

impl Value for PlaylistId {
    fn copy(&self) -> (result: PlaylistId) {
        PlaylistId { value: self.value.copy() }
    }

    fn same(&self, other: &PlaylistId) -> (result: bool) {
        self.value.same(&other.value)
    }
}

impl PlaylistId {
    pub fn new(value: &str) -> (result: PlaylistId)
        ensures
            result.deep_view() == value@,
    {
        PlaylistId { value: value.to_owned() }
    }

    pub fn as_str(&self) -> (result: &str)
        ensures
            result@ == self.deep_view(),
    {
        self.value.as_str()
    }
}

/// Identifies a smart playlist.
#[derive(Clone, Debug, PartialEq, Eq, Hash)]
pub struct SmartPlaylistId {
    pub value: String,
}

impl DeepView for SmartPlaylistId {
    type V = Seq<char>;

    open spec fn deep_view(&self) -> Seq<char> {
        self.value@
    }
}

impl Value for SmartPlaylistId {
    fn copy(&self) -> (result: SmartPlaylistId) {
        SmartPlaylistId { value: self.value.copy() }
    }

    fn same(&self, other: &SmartPlaylistId) -> (result: bool) {
        self.value.same(&other.value)
    }
}

impl SmartPlaylistId {
    pub fn new(value: &str) -> (result: SmartPlaylistId)
        ensures
            result.deep_view() == value@,
    {
        SmartPlaylistId { value: value.to_owned() }
    }

    pub fn as_str(&self) -> (result: &str)
        ensures
            result@ == self.deep_view(),
    {
        self.value.as_str()
    }
}

/// Identifies a music folder of a server.
#[derive(Clone, Debug, PartialEq, Eq, Hash)]
pub struct MusicFolderId {
    pub value: String,
}

impl DeepView for MusicFolderId {
    type V = Seq<char>;

    open spec fn deep_view(&self) -> Seq<char> {
        self.value@
    }
}

impl Value for MusicFolderId {
    fn copy(&self) -> (result: MusicFolderId) {
        MusicFolderId { value: self.value.copy() }
    }

    fn same(&self, other: &MusicFolderId) -> (result: bool) {
        self.value.same(&other.value)
    }
}

impl MusicFolderId {
    pub fn new(value: &str) -> (result: MusicFolderId)
        ensures
            result.deep_view() == value@,
    {
        MusicFolderId { value: value.to_owned() }
    }

    pub fn as_str(&self) -> (result: &str)
        ensures
            result@ == self.deep_view(),
    {
        self.value.as_str()
    }
}

/// Identifies a folder that a provider lists.
#[derive(Clone, Debug, PartialEq, Eq, Hash)]
pub struct FolderId {
    pub value: String,
}

impl DeepView for FolderId {
    type V = Seq<char>;

    open spec fn deep_view(&self) -> Seq<char> {
        self.value@
    }
}

impl Value for FolderId {
    fn copy(&self) -> (result: FolderId) {
        FolderId { value: self.value.copy() }
    }

    fn same(&self, other: &FolderId) -> (result: bool) {
        self.value.same(&other.value)
    }
}

impl FolderId {
    pub fn new(value: &str) -> (result: FolderId)
        ensures
            result.deep_view() == value@,
    {
        FolderId { value: value.to_owned() }
    }

    pub fn as_str(&self) -> (result: &str)
        ensures
            result@ == self.deep_view(),
    {
        self.value.as_str()
    }
}

/// Identifies an entry of the play queue.
#[derive(Clone, Debug, PartialEq, Eq, Hash)]
pub struct QueueEntryId {
    pub value: String,
}

impl DeepView for QueueEntryId {
    type V = Seq<char>;

    open spec fn deep_view(&self) -> Seq<char> {
        self.value@
    }
}

impl Value for QueueEntryId {
    fn copy(&self) -> (result: QueueEntryId) {
        QueueEntryId { value: self.value.copy() }
    }

    fn same(&self, other: &QueueEntryId) -> (result: bool) {
        self.value.same(&other.value)
    }
}

impl QueueEntryId {
    pub fn new(value: &str) -> (result: QueueEntryId)
        ensures
            result.deep_view() == value@,
    {
        QueueEntryId { value: value.to_owned() }
    }

    pub fn as_str(&self) -> (result: &str)
        ensures
            result@ == self.deep_view(),
    {
        self.value.as_str()
    }
}

} // verus!
