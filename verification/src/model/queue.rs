//! What the play queue holds and is filled from.
use crate::model::ids::{
    AlbumId, ArtistId, MusicFolderId, PlaylistId, QueueEntryId, ServerId, TrackId,
};
use crate::model::library::{ImageRef, ImageRefView, Track, TrackView};
use crate::value::Value;
use vstd::prelude::*;

verus! {

/// What follows the last entry of the queue.
#[derive(Clone, Copy, Debug, PartialEq, Eq, Structural)]
pub enum RepeatMode {
    Off,
    One,
    All,
}

impl DeepView for RepeatMode {
    type V = RepeatMode;

    open spec fn deep_view(&self) -> RepeatMode {
        *self
    }
}

impl Value for RepeatMode {
    fn copy(&self) -> (result: RepeatMode) {
        *self
    }

    fn same(&self, other: &RepeatMode) -> (result: bool) {
        *self == *other
    }
}

/// Whether the queue is played in shuffled order, and from which seed.
#[derive(Clone, Debug, PartialEq, Eq)]
pub struct ShuffleState {
    pub enabled: bool,
    pub seed: u64,
}

/// The contents of a [`ShuffleState`].
#[verifier::ext_equal]
pub struct ShuffleStateView {
    pub enabled: bool,
    pub seed: u64,
}

impl DeepView for ShuffleState {
    type V = ShuffleStateView;

    open spec fn deep_view(&self) -> ShuffleStateView {
        ShuffleStateView {
            enabled: self.enabled.deep_view(),
            seed: self.seed.deep_view(),
        }
    }
}

impl Value for ShuffleState {
    fn copy(&self) -> (result: ShuffleState) {
        ShuffleState {
            enabled: self.enabled.copy(),
            seed: self.seed.copy(),
        }
    }

    fn same(&self, other: &ShuffleState) -> (result: bool) {
        self.enabled.same(&other.enabled)
            && self.seed.same(&other.seed)
    }
}

/// How the entries of a shown playlist are sorted.
#[derive(Clone, Copy, Debug, PartialEq, Eq, Structural)]
pub enum PlaylistEntrySortDescriptor {
    Position,
    Title,
    Artist,
    Album,
}

impl DeepView for PlaylistEntrySortDescriptor {
    type V = PlaylistEntrySortDescriptor;

    open spec fn deep_view(&self) -> PlaylistEntrySortDescriptor {
        *self
    }
}

impl Value for PlaylistEntrySortDescriptor {
    fn copy(&self) -> (result: PlaylistEntrySortDescriptor) {
        *self
    }

    fn same(&self, other: &PlaylistEntrySortDescriptor) -> (result: bool) {
        *self == *other
    }
}

/// What a queue was filled from.
#[derive(Clone, Debug, PartialEq, Eq)]
pub enum PlaySourceDescriptor {
    Album { album_id: AlbumId, selected_music_folder_id: Option<MusicFolderId> },
    Playlist { playlist_id: PlaylistId },
}

/// The contents of a [`PlaySourceDescriptor`].
#[verifier::ext_equal]
pub enum PlaySourceDescriptorView {
    Album { album_id: Seq<char>, selected_music_folder_id: Option<Seq<char>> },
    Playlist { playlist_id: Seq<char> },
}

impl DeepView for PlaySourceDescriptor {
    type V = PlaySourceDescriptorView;

    open spec fn deep_view(&self) -> PlaySourceDescriptorView {
        match self {
            PlaySourceDescriptor::Album { album_id, selected_music_folder_id } =>
                PlaySourceDescriptorView::Album {
                album_id: album_id.deep_view(),
                selected_music_folder_id: selected_music_folder_id.deep_view(),
            },
            PlaySourceDescriptor::Playlist { playlist_id } => PlaySourceDescriptorView::Playlist {
                playlist_id: playlist_id.deep_view(),
            },
        }
    }
}

impl Value for PlaySourceDescriptor {
    fn copy(&self) -> (result: PlaySourceDescriptor) {
        match self {
            PlaySourceDescriptor::Album { album_id, selected_music_folder_id } =>
                PlaySourceDescriptor::Album {
                album_id: album_id.copy(),
                selected_music_folder_id: selected_music_folder_id.copy(),
            },
            PlaySourceDescriptor::Playlist { playlist_id } => PlaySourceDescriptor::Playlist {
                playlist_id: playlist_id.copy(),
            },
        }
    }

    fn same(&self, other: &PlaySourceDescriptor) -> (result: bool) {
        match (self, other) {
            (
                PlaySourceDescriptor::Album {
                    album_id: left_album_id,
                    selected_music_folder_id: left_selected_music_folder_id,
                },
                PlaySourceDescriptor::Album {
                    album_id: right_album_id,
                    selected_music_folder_id: right_selected_music_folder_id,
                },
            ) => left_album_id.same(right_album_id)
                && left_selected_music_folder_id.same(right_selected_music_folder_id),
            (
                PlaySourceDescriptor::Playlist { playlist_id: left_playlist_id },
                PlaySourceDescriptor::Playlist { playlist_id: right_playlist_id },
            ) => left_playlist_id.same(right_playlist_id),
            _ => false,
        }
    }
}

/// The order in which a source was shown.
#[derive(Clone, Debug, PartialEq, Eq)]
pub enum SourceOrder {
    Canonical,
    PlaylistDisplayed {
        query: Option<String>,
        sort: PlaylistEntrySortDescriptor,
        descending: bool,
    },
}

/// The contents of a [`SourceOrder`].
#[verifier::ext_equal]
pub enum SourceOrderView {
    Canonical,
    PlaylistDisplayed {
        query: Option<Seq<char>>,
        sort: PlaylistEntrySortDescriptor,
        descending: bool,
    },
}

impl DeepView for SourceOrder {
    type V = SourceOrderView;

    open spec fn deep_view(&self) -> SourceOrderView {
        match self {
            SourceOrder::Canonical => SourceOrderView::Canonical,
            SourceOrder::PlaylistDisplayed { query, sort, descending } =>
                SourceOrderView::PlaylistDisplayed {
                query: query.deep_view(),
                sort: sort.deep_view(),
                descending: descending.deep_view(),
            },
        }
    }
}

impl Value for SourceOrder {
    fn copy(&self) -> (result: SourceOrder) {
        match self {
            SourceOrder::Canonical => SourceOrder::Canonical,
            SourceOrder::PlaylistDisplayed { query, sort, descending } =>
                SourceOrder::PlaylistDisplayed {
                query: query.copy(),
                sort: sort.copy(),
                descending: descending.copy(),
            },
        }
    }

    fn same(&self, other: &SourceOrder) -> (result: bool) {
        match (self, other) {
            (SourceOrder::Canonical, SourceOrder::Canonical) => true,
            (
                SourceOrder::PlaylistDisplayed {
                    query: left_query,
                    sort: left_sort,
                    descending: left_descending,
                },
                SourceOrder::PlaylistDisplayed {
                    query: right_query,
                    sort: right_sort,
                    descending: right_descending,
                },
            ) => left_query.same(right_query)
                && left_sort.same(right_sort)
                && left_descending.same(right_descending),
            _ => false,
        }
    }
}

/// A source together with the order that it was shown in.
#[derive(Clone, Debug, PartialEq, Eq)]
pub struct PlaySourceKey {
    pub descriptor: PlaySourceDescriptor,
    pub order: SourceOrder,
}

/// The contents of a [`PlaySourceKey`].
#[verifier::ext_equal]
pub struct PlaySourceKeyView {
    pub descriptor: PlaySourceDescriptorView,
    pub order: SourceOrderView,
}

impl DeepView for PlaySourceKey {
    type V = PlaySourceKeyView;

    open spec fn deep_view(&self) -> PlaySourceKeyView {
        PlaySourceKeyView {
            descriptor: self.descriptor.deep_view(),
            order: self.order.deep_view(),
        }
    }
}

impl Value for PlaySourceKey {
    fn copy(&self) -> (result: PlaySourceKey) {
        PlaySourceKey {
            descriptor: self.descriptor.copy(),
            order: self.order.copy(),
        }
    }

    fn same(&self, other: &PlaySourceKey) -> (result: bool) {
        self.descriptor.same(&other.descriptor)
            && self.order.same(&other.order)
    }
}

/// The place of a queue entry in the source that it came from.
#[derive(Clone, Debug, PartialEq, Eq)]
pub struct QueueEntryOrigin {
    pub source_key: PlaySourceKey,
    pub source_index: usize,
    pub source_item_id: Option<String>,
}

/// The contents of a [`QueueEntryOrigin`].
#[verifier::ext_equal]
pub struct QueueEntryOriginView {
    pub source_key: PlaySourceKeyView,
    pub source_index: usize,
    pub source_item_id: Option<Seq<char>>,
}

impl DeepView for QueueEntryOrigin {
    type V = QueueEntryOriginView;

    open spec fn deep_view(&self) -> QueueEntryOriginView {
        QueueEntryOriginView {
            source_key: self.source_key.deep_view(),
            source_index: self.source_index.deep_view(),
            source_item_id: self.source_item_id.deep_view(),
        }
    }
}

impl Value for QueueEntryOrigin {
    fn copy(&self) -> (result: QueueEntryOrigin) {
        QueueEntryOrigin {
            source_key: self.source_key.copy(),
            source_index: self.source_index.copy(),
            source_item_id: self.source_item_id.copy(),
        }
    }

    fn same(&self, other: &QueueEntryOrigin) -> (result: bool) {
        self.source_key.same(&other.source_key)
            && self.source_index.same(&other.source_index)
            && self.source_item_id.same(&other.source_item_id)
    }
}

/// An entry of the play queue.
#[derive(Clone, Debug, PartialEq, Eq)]
pub struct QueueEntry {
    pub id: QueueEntryId,
    pub track_id: TrackId,
    pub album_id: Option<AlbumId>,
    pub title: String,
    pub artist: String,
    pub artist_id: Option<ArtistId>,
    pub album: String,
    pub year: u16,
    pub duration_seconds: u32,
    pub favorite: bool,
    pub image_ref: Option<ImageRef>,
    pub local_path: Option<String>,
    pub source_format: Option<String>,
    pub origin: Option<QueueEntryOrigin>,
}

/// The contents of a [`QueueEntry`].
#[verifier::ext_equal]
pub struct QueueEntryView {
    pub id: Seq<char>,
    pub track_id: Seq<char>,
    pub album_id: Option<Seq<char>>,
    pub title: Seq<char>,
    pub artist: Seq<char>,
    pub artist_id: Option<Seq<char>>,
    pub album: Seq<char>,
    pub year: u16,
    pub duration_seconds: u32,
    pub favorite: bool,
    pub image_ref: Option<ImageRefView>,
    pub local_path: Option<Seq<char>>,
    pub source_format: Option<Seq<char>>,
    pub origin: Option<QueueEntryOriginView>,
}

impl DeepView for QueueEntry {
    type V = QueueEntryView;

    open spec fn deep_view(&self) -> QueueEntryView {
        QueueEntryView {
            id: self.id.deep_view(),
            track_id: self.track_id.deep_view(),
            album_id: self.album_id.deep_view(),
            title: self.title.deep_view(),
            artist: self.artist.deep_view(),
            artist_id: self.artist_id.deep_view(),
            album: self.album.deep_view(),
            year: self.year.deep_view(),
            duration_seconds: self.duration_seconds.deep_view(),
            favorite: self.favorite.deep_view(),
            image_ref: self.image_ref.deep_view(),
            local_path: self.local_path.deep_view(),
            source_format: self.source_format.deep_view(),
            origin: self.origin.deep_view(),
        }
    }
}

impl Value for QueueEntry {
    fn copy(&self) -> (result: QueueEntry) {
        QueueEntry {
            id: self.id.copy(),
            track_id: self.track_id.copy(),
            album_id: self.album_id.copy(),
            title: self.title.copy(),
            artist: self.artist.copy(),
            artist_id: self.artist_id.copy(),
            album: self.album.copy(),
            year: self.year.copy(),
            duration_seconds: self.duration_seconds.copy(),
            favorite: self.favorite.copy(),
            image_ref: self.image_ref.copy(),
            local_path: self.local_path.copy(),
            source_format: self.source_format.copy(),
            origin: self.origin.copy(),
        }
    }

    fn same(&self, other: &QueueEntry) -> (result: bool) {
        self.id.same(&other.id)
            && self.track_id.same(&other.track_id)
            && self.album_id.same(&other.album_id)
            && self.title.same(&other.title)
            && self.artist.same(&other.artist)
            && self.artist_id.same(&other.artist_id)
            && self.album.same(&other.album)
            && self.year.same(&other.year)
            && self.duration_seconds.same(&other.duration_seconds)
            && self.favorite.same(&other.favorite)
            && self.image_ref.same(&other.image_ref)
            && self.local_path.same(&other.local_path)
            && self.source_format.same(&other.source_format)
            && self.origin.same(&other.origin)
    }
}

/// The whole state of a play queue.
#[derive(Clone, Debug, PartialEq, Eq)]
pub struct QueueSnapshot {
    pub server_id: ServerId,
    pub entries: Vec<QueueEntry>,
    pub current_index: Option<usize>,
    pub repeat_mode: RepeatMode,
    pub shuffle: ShuffleState,
    pub shuffle_order: Vec<usize>,
    pub progress_seconds: u32,
}

/// The contents of a [`QueueSnapshot`].
#[verifier::ext_equal]
pub struct QueueSnapshotView {
    pub server_id: Seq<char>,
    pub entries: Seq<QueueEntryView>,
    pub current_index: Option<usize>,
    pub repeat_mode: RepeatMode,
    pub shuffle: ShuffleStateView,
    pub shuffle_order: Seq<usize>,
    pub progress_seconds: u32,
}

impl DeepView for QueueSnapshot {
    type V = QueueSnapshotView;

    open spec fn deep_view(&self) -> QueueSnapshotView {
        QueueSnapshotView {
            server_id: self.server_id.deep_view(),
            entries: self.entries.deep_view(),
            current_index: self.current_index.deep_view(),
            repeat_mode: self.repeat_mode.deep_view(),
            shuffle: self.shuffle.deep_view(),
            shuffle_order: self.shuffle_order.deep_view(),
            progress_seconds: self.progress_seconds.deep_view(),
        }
    }
}

impl Value for QueueSnapshot {
    fn copy(&self) -> (result: QueueSnapshot) {
        QueueSnapshot {
            server_id: self.server_id.copy(),
            entries: self.entries.copy(),
            current_index: self.current_index.copy(),
            repeat_mode: self.repeat_mode.copy(),
            shuffle: self.shuffle.copy(),
            shuffle_order: self.shuffle_order.copy(),
            progress_seconds: self.progress_seconds.copy(),
        }
    }

    fn same(&self, other: &QueueSnapshot) -> (result: bool) {
        self.server_id.same(&other.server_id)
            && self.entries.same(&other.entries)
            && self.current_index.same(&other.current_index)
            && self.repeat_mode.same(&other.repeat_mode)
            && self.shuffle.same(&other.shuffle)
            && self.shuffle_order.same(&other.shuffle_order)
            && self.progress_seconds.same(&other.progress_seconds)
    }
}

/// An item that a queue is filled with.
#[derive(Clone, Debug, PartialEq, Eq)]
pub struct QueueItemInput {
    pub track: Track,
    pub source_index: usize,
    pub source_item_id: Option<String>,
}

/// The contents of a [`QueueItemInput`].
#[verifier::ext_equal]
pub struct QueueItemInputView {
    pub track: TrackView,
    pub source_index: usize,
    pub source_item_id: Option<Seq<char>>,
}

impl DeepView for QueueItemInput {
    type V = QueueItemInputView;

    open spec fn deep_view(&self) -> QueueItemInputView {
        QueueItemInputView {
            track: self.track.deep_view(),
            source_index: self.source_index.deep_view(),
            source_item_id: self.source_item_id.deep_view(),
        }
    }
}

impl Value for QueueItemInput {
    fn copy(&self) -> (result: QueueItemInput) {
        QueueItemInput {
            track: self.track.copy(),
            source_index: self.source_index.copy(),
            source_item_id: self.source_item_id.copy(),
        }
    }

    fn same(&self, other: &QueueItemInput) -> (result: bool) {
        self.track.same(&other.track)
            && self.source_index.same(&other.source_index)
            && self.source_item_id.same(&other.source_item_id)
    }
}

/// The source of a filled queue, and the part of it that was taken.
#[derive(Clone, Debug, PartialEq, Eq)]
pub struct QueueSourceInput {
    pub source_key: PlaySourceKey,
    pub total_source_items: Option<usize>,
    pub materialized_start: usize,
    pub materialized_len: usize,
    pub capped: bool,
}

/// The contents of a [`QueueSourceInput`].
#[verifier::ext_equal]
pub struct QueueSourceInputView {
    pub source_key: PlaySourceKeyView,
    pub total_source_items: Option<usize>,
    pub materialized_start: usize,
    pub materialized_len: usize,
    pub capped: bool,
}

impl DeepView for QueueSourceInput {
    type V = QueueSourceInputView;

    open spec fn deep_view(&self) -> QueueSourceInputView {
        QueueSourceInputView {
            source_key: self.source_key.deep_view(),
            total_source_items: self.total_source_items.deep_view(),
            materialized_start: self.materialized_start.deep_view(),
            materialized_len: self.materialized_len.deep_view(),
            capped: self.capped.deep_view(),
        }
    }
}

impl Value for QueueSourceInput {
    fn copy(&self) -> (result: QueueSourceInput) {
        QueueSourceInput {
            source_key: self.source_key.copy(),
            total_source_items: self.total_source_items.copy(),
            materialized_start: self.materialized_start.copy(),
            materialized_len: self.materialized_len.copy(),
            capped: self.capped.copy(),
        }
    }

    fn same(&self, other: &QueueSourceInput) -> (result: bool) {
        self.source_key.same(&other.source_key)
            && self.total_source_items.same(&other.total_source_items)
            && self.materialized_start.same(&other.materialized_start)
            && self.materialized_len.same(&other.materialized_len)
            && self.capped.same(&other.capped)
    }
}

/// The occurrence that a filled queue starts with.
#[derive(Clone, Debug, PartialEq, Eq)]
pub struct QueueAnchor {
    pub track_id: TrackId,
    pub source_index: usize,
    pub source_item_id: Option<String>,
}

/// The contents of a [`QueueAnchor`].
#[verifier::ext_equal]
pub struct QueueAnchorView {
    pub track_id: Seq<char>,
    pub source_index: usize,
    pub source_item_id: Option<Seq<char>>,
}

impl DeepView for QueueAnchor {
    type V = QueueAnchorView;

    open spec fn deep_view(&self) -> QueueAnchorView {
        QueueAnchorView {
            track_id: self.track_id.deep_view(),
            source_index: self.source_index.deep_view(),
            source_item_id: self.source_item_id.deep_view(),
        }
    }
}

impl Value for QueueAnchor {
    fn copy(&self) -> (result: QueueAnchor) {
        QueueAnchor {
            track_id: self.track_id.copy(),
            source_index: self.source_index.copy(),
            source_item_id: self.source_item_id.copy(),
        }
    }

    fn same(&self, other: &QueueAnchor) -> (result: bool) {
        self.track_id.same(&other.track_id)
            && self.source_index.same(&other.source_index)
            && self.source_item_id.same(&other.source_item_id)
    }
}

/// What a queue is to be filled with.
#[derive(Clone, Debug, PartialEq, Eq)]
pub struct QueueReplacement {
    pub source: QueueSourceInput,
    pub items: Vec<QueueItemInput>,
    pub anchor: QueueAnchor,
}

/// The contents of a [`QueueReplacement`].
#[verifier::ext_equal]
pub struct QueueReplacementView {
    pub source: QueueSourceInputView,
    pub items: Seq<QueueItemInputView>,
    pub anchor: QueueAnchorView,
}

impl DeepView for QueueReplacement {
    type V = QueueReplacementView;

    open spec fn deep_view(&self) -> QueueReplacementView {
        QueueReplacementView {
            source: self.source.deep_view(),
            items: self.items.deep_view(),
            anchor: self.anchor.deep_view(),
        }
    }
}

impl Value for QueueReplacement {
    fn copy(&self) -> (result: QueueReplacement) {
        QueueReplacement {
            source: self.source.copy(),
            items: self.items.copy(),
            anchor: self.anchor.copy(),
        }
    }

    fn same(&self, other: &QueueReplacement) -> (result: bool) {
        self.source.same(&other.source)
            && self.items.same(&other.items)
            && self.anchor.same(&other.anchor)
    }
}

} // verus!
