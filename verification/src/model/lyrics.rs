//! Lyrics and what searches for them give.
use crate::model::ids::{TrackId};
use crate::value::Value;
use vstd::prelude::*;

verus! {

/// Where lyrics came from.
#[derive(Clone, Copy, Debug, PartialEq, Eq, Structural)]
pub enum LyricsSource {
    Server,
    Remote,
    Local,
}

impl DeepView for LyricsSource {
    type V = LyricsSource;

    open spec fn deep_view(&self) -> LyricsSource {
        *self
    }
}

impl Value for LyricsSource {
    fn copy(&self) -> (result: LyricsSource) {
        *self
    }

    fn same(&self, other: &LyricsSource) -> (result: bool) {
        *self == *other
    }
}

/// Where lyrics are looked for, and in which order.
#[derive(Clone, Copy, Debug, PartialEq, Eq, Structural)]
pub enum JellyfinLyricsSearch {
    ServerOnly,
    ServerThenRemote,
    RemoteThenServer,
}

impl DeepView for JellyfinLyricsSearch {
    type V = JellyfinLyricsSearch;

    open spec fn deep_view(&self) -> JellyfinLyricsSearch {
        *self
    }
}

impl Value for JellyfinLyricsSearch {
    fn copy(&self) -> (result: JellyfinLyricsSearch) {
        *self
    }

    fn same(&self, other: &JellyfinLyricsSearch) -> (result: bool) {
        *self == *other
    }
}

/// A line of lyrics and, where known, when it begins.
#[derive(Clone, Debug, PartialEq, Eq)]
pub struct LyricLine {
    pub text: String,
    pub start_millis: Option<u64>,
}

/// The contents of a [`LyricLine`].
#[verifier::ext_equal]
pub struct LyricLineView {
    pub text: Seq<char>,
    pub start_millis: Option<u64>,
}

impl DeepView for LyricLine {
    type V = LyricLineView;

    open spec fn deep_view(&self) -> LyricLineView {
        LyricLineView {
            text: self.text.deep_view(),
            start_millis: self.start_millis.deep_view(),
        }
    }
}

impl Value for LyricLine {
    fn copy(&self) -> (result: LyricLine) {
        LyricLine {
            text: self.text.copy(),
            start_millis: self.start_millis.copy(),
        }
    }

    fn same(&self, other: &LyricLine) -> (result: bool) {
        self.text.same(&other.text)
            && self.start_millis.same(&other.start_millis)
    }
}

/// The lyrics of a track.
#[derive(Clone, Debug, PartialEq, Eq)]
pub struct Lyrics {
    pub track_id: TrackId,
    pub source: LyricsSource,
    pub lines: Vec<LyricLine>,
}

/// The contents of a [`Lyrics`].
#[verifier::ext_equal]
pub struct LyricsView {
    pub track_id: Seq<char>,
    pub source: LyricsSource,
    pub lines: Seq<LyricLineView>,
}

impl DeepView for Lyrics {
    type V = LyricsView;

    open spec fn deep_view(&self) -> LyricsView {
        LyricsView {
            track_id: self.track_id.deep_view(),
            source: self.source.deep_view(),
            lines: self.lines.deep_view(),
        }
    }
}

impl Value for Lyrics {
    fn copy(&self) -> (result: Lyrics) {
        Lyrics {
            track_id: self.track_id.copy(),
            source: self.source.copy(),
            lines: self.lines.copy(),
        }
    }

    fn same(&self, other: &Lyrics) -> (result: bool) {
        self.track_id.same(&other.track_id)
            && self.source.same(&other.source)
            && self.lines.same(&other.lines)
    }
}

/// A hit of a lyrics search.
#[derive(Clone, Debug, PartialEq, Eq)]
pub struct LyricsSearchResult {
    pub id: u64,
    pub track_name: String,
    pub artist_name: String,
    pub album_name: String,
    pub duration_seconds: u32,
    pub synced_lyrics: Option<String>,
    pub plain_lyrics: Option<String>,
}

/// The contents of a [`LyricsSearchResult`].
#[verifier::ext_equal]
pub struct LyricsSearchResultView {
    pub id: u64,
    pub track_name: Seq<char>,
    pub artist_name: Seq<char>,
    pub album_name: Seq<char>,
    pub duration_seconds: u32,
    pub synced_lyrics: Option<Seq<char>>,
    pub plain_lyrics: Option<Seq<char>>,
}

impl DeepView for LyricsSearchResult {
    type V = LyricsSearchResultView;

    open spec fn deep_view(&self) -> LyricsSearchResultView {
        LyricsSearchResultView {
            id: self.id.deep_view(),
            track_name: self.track_name.deep_view(),
            artist_name: self.artist_name.deep_view(),
            album_name: self.album_name.deep_view(),
            duration_seconds: self.duration_seconds.deep_view(),
            synced_lyrics: self.synced_lyrics.deep_view(),
            plain_lyrics: self.plain_lyrics.deep_view(),
        }
    }
}

impl Value for LyricsSearchResult {
    fn copy(&self) -> (result: LyricsSearchResult) {
        LyricsSearchResult {
            id: self.id.copy(),
            track_name: self.track_name.copy(),
            artist_name: self.artist_name.copy(),
            album_name: self.album_name.copy(),
            duration_seconds: self.duration_seconds.copy(),
            synced_lyrics: self.synced_lyrics.copy(),
            plain_lyrics: self.plain_lyrics.copy(),
        }
    }

    fn same(&self, other: &LyricsSearchResult) -> (result: bool) {
        self.id.same(&other.id)
            && self.track_name.same(&other.track_name)
            && self.artist_name.same(&other.artist_name)
            && self.album_name.same(&other.album_name)
            && self.duration_seconds.same(&other.duration_seconds)
            && self.synced_lyrics.same(&other.synced_lyrics)
            && self.plain_lyrics.same(&other.plain_lyrics)
    }
}

} // verus!
