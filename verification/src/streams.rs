//! Where the sound of a track is read from.
use crate::local_access::{
    local_audio_path_candidates, local_match_path, path_candidates, path_of_match,
    LocalAudioPathLookup, LocalAudioPathLookupView, LOCAL_PROVIDER_ID,
};
use crate::model::ids::{ServerId, TrackId};
use crate::model::library::Track;
use crate::model::playback::{
    PlaybackTrack, PlaybackTrackView, PreparedPlaybackItem, PreparedPlaybackItemView,
    StreamDescriptor, StreamDescriptorView,
};
use crate::model::queue::{QueueEntry, QueueEntryView};
use crate::model::source::{SavedServer, SavedServerView, ServerIdentity, ServerIdentityView};
use crate::model::store::{
    ServerLibrary, ServerLibraryView, Store, StoreView, TokenStore, TokenStoreView,
};
use crate::store::token_of;
use crate::table::{get_row, row};
use crate::text::{self, text_outcome};
use crate::value::Value;
use vstd::prelude::*;

verus! {

/// The URL that `reqwest::Url::from_file_path` makes of a path below a single root, where it
/// makes one.
pub uninterp spec fn file_url_text(path: Seq<char>) -> Seq<char>;

/// Whether a path begins with a slash and with nothing that could name a host or a drive.
pub open spec fn has_single_root(path: Seq<char>) -> bool {
    &&& path.len() > 0
    &&& path[0] == '/'
    &&& path.len() > 1 ==> path[1] != '/' && path[1] != '\\'
}

/// Whether a path begins with a slash or holds a colon, as every path does that is absolute on
/// some machine.
pub open spec fn may_be_absolute(path: Seq<char>) -> bool {
    path.len() > 0 && (path[0] == '/' || path[0] == '\\' || path.contains(':'))
}

/// The length up to which a path that may name a host is made a URL of.
pub const LONGEST_HOST_PATH: usize = 1_000_000;

/// Whether a path cannot name a host that is too long for a URL.
pub open spec fn host_fits(path: Seq<char>) -> bool {
    has_single_root(path) || path.len() <= LONGEST_HOST_PATH
}

/// Calls `reqwest::Url::from_file_path`, which makes a `file` URL of an absolute path and
/// refuses any other. What it makes begins with the scheme, and of a path below a single
/// root it depends on the path alone. Which paths are absolute is up to the machine: a path
/// below a single root has a URL on one machine and none on another. A path that begins with
/// no slash and holds no colon is absolute on none. Where a path names a host, the call panics
/// if the host ends beyond 32 bits, so that longer paths of that kind are left out.
#[verifier::external_body]
fn file_url(path: &str) -> (result: Option<String>)
    requires
        host_fits(path@),
    ensures
        !may_be_absolute(path@) ==> result is None,
        result matches Some(url) ==> "file://"@.is_prefix_of(url@),
        result matches Some(url) ==> has_single_root(path@) ==> url@ == file_url_text(path@),
{
    match reqwest::Url::from_file_path(path) {
        Ok(url) => Some(url.to_string()),
        Err(()) => None,
    }
}

/// A stream that is fit for a log as it is.
pub open spec fn plain_stream(uri: Seq<char>) -> StreamDescriptorView {
    StreamDescriptorView { uri, redacted_uri: uri }
}

/// What is said where a file has no URL.
pub open spec fn no_url_for(path: Seq<char>) -> Seq<char> {
    "Could not turn local track path into a file URI: "@ + path
}

/// The stream of a file, given its URL.
pub fn stream_for_file(path: &str, url: Option<String>) -> (result: Result<
    StreamDescriptor,
    String,
>)
    ensures
        match url.deep_view() {
            Some(url) => result matches Ok(stream) && stream.deep_view() == plain_stream(url),
            None => result matches Err(error) && error@ == no_url_for(path@),
        },
{
    match url {
        Some(url) => Ok(StreamDescriptor { uri: url.copy(), redacted_uri: url }),
        None => Err(text::concat("Could not turn local track path into a file URI: ", path)),
    }
}

fn path_host_fits(path: &str) -> (result: bool)
    ensures
        result == host_fits(path@),
{
    let characters: Vec<char> = text::chars(path);
    if characters.len() <= LONGEST_HOST_PATH {
        return true;
    }
    characters[0] == '/' && characters[1] != '/' && characters[1] != '\\'
}

/// The stream of a file: its URL, where the machine gives the path one. A path has none that is
/// absolute on no machine, or that may name a host and is too long for that.
pub fn local_stream(path: &str) -> (result: Result<StreamDescriptor, String>)
    ensures
        !may_be_absolute(path@) ==> result is Err,
        !host_fits(path@) ==> result is Err,
        match result {
            Ok(stream) => {
                &&& "file://"@.is_prefix_of(stream.deep_view().uri)
                &&& has_single_root(path@) ==> stream.deep_view().uri == file_url_text(path@)
                &&& stream.deep_view() == plain_stream(stream.deep_view().uri)
            },
            Err(error) => error@ == no_url_for(path@),
        },
{
    if path_host_fits(path) {
        stream_for_file(path, file_url(path))
    } else {
        stream_for_file(path, None)
    }
}

/// What is known of the file of a track: for a server only where its files can be reached.
pub open spec fn path_lookup(
    library: ServerLibraryView,
    server: ServerIdentityView,
    track_id: Seq<char>,
) -> Option<LocalAudioPathLookupView> {
    let raw_path = match row::<Track>(library.tracks, track_id) {
        Some(track) => track.local_path,
        None => None,
    };
    if server.provider == LOCAL_PROVIDER_ID@ {
        Some(
            LocalAudioPathLookupView {
                provider_is_local: true,
                raw_path,
                access: None,
                matched_path: None,
            },
        )
    } else if library.local_access is Some {
        Some(
            LocalAudioPathLookupView {
                provider_is_local: false,
                raw_path,
                access: library.local_access,
                matched_path: path_of_match(library.local_matches, track_id),
            },
        )
    } else {
        None
    }
}

/// What is known of the file of a track.
pub fn local_audio_path_lookup(
    library: &ServerLibrary,
    server: &ServerIdentity,
    track_id: &TrackId,
) -> (result: Option<LocalAudioPathLookup>)
    ensures
        result.deep_view() == path_lookup(
            library.deep_view(),
            server.deep_view(),
            track_id.deep_view(),
        ),
{
    let raw_path: Option<String> = match get_row(&library.tracks, track_id.as_str()) {
        Some(track) => track.local_path,
        None => None,
    };
    if server.provider.same(&text::owned(LOCAL_PROVIDER_ID)) {
        return Some(
            LocalAudioPathLookup {
                provider_is_local: true,
                raw_path,
                access: None,
                matched_path: None,
            },
        );
    }
    if library.local_access.is_none() {
        return None;
    }
    Some(
        LocalAudioPathLookup {
            provider_is_local: false,
            raw_path,
            access: library.local_access.copy(),
            matched_path: local_match_path(&library.local_matches, track_id),
        },
    )
}

/// The places where the file of a track is looked for, in order.
pub open spec fn file_candidates(
    library: ServerLibraryView,
    server: ServerIdentityView,
    track_id: Seq<char>,
) -> Seq<Seq<char>> {
    match path_lookup(library, server, track_id) {
        Some(lookup) => path_candidates(lookup),
        None => Seq::empty(),
    }
}

/// The places where the file of a track is looked for, in order; none while there is a
/// fault, or where its source is not saved.
pub open spec fn kept_candidates(
    store: StoreView,
    server_id: Seq<char>,
    track_id: Seq<char>,
) -> Seq<Seq<char>> {
    match store.server(server_id) {
        Some(saved) if store.fault is None => file_candidates(
            store.library(server_id),
            saved.server,
            track_id,
        ),
        _ => Seq::empty(),
    }
}

fn candidates_in(library: &ServerLibrary, server: &ServerIdentity, track_id: &TrackId) -> (result:
    Vec<String>)
    ensures
        result.deep_view() == file_candidates(
            library.deep_view(),
            server.deep_view(),
            track_id.deep_view(),
        ),
{
    match local_audio_path_lookup(library, server, track_id) {
        Some(lookup) => local_audio_path_candidates(&lookup),
        None => {
            let none: Vec<String> = Vec::new();
            assert(none.deep_view() =~= Seq::empty());
            none
        },
    }
}

/// The places where the file of a track is looked for, in order.
pub fn local_audio_path_for_track(store: &Store, server_id: &ServerId, track_id: &TrackId) -> (
result: Vec<String>)
    ensures
        result.deep_view() == kept_candidates(
            store.deep_view(),
            server_id.deep_view(),
            track_id.deep_view(),
        ),
{
    match store.saved_server(server_id) {
        Ok(Some(saved)) => candidates_in(&store.library(server_id), &saved.server, track_id),
        _ => {
            let none: Vec<String> = Vec::new();
            assert(none.deep_view() =~= Seq::empty());
            none
        },
    }
}

/// How a track is to be streamed: a stream that needs no asking, or files to look for before
/// its server is asked.
#[derive(Clone, Debug, PartialEq, Eq)]
pub enum StreamPlan {
    Ready(StreamDescriptor),
    FileOrServer { candidates: Vec<String>, saved: SavedServer },
}

/// The contents of a [`StreamPlan`].
#[verifier::ext_equal]
pub enum StreamPlanView {
    Ready(StreamDescriptorView),
    FileOrServer { candidates: Seq<Seq<char>>, saved: SavedServerView },
}

impl DeepView for StreamPlan {
    type V = StreamPlanView;

    open spec fn deep_view(&self) -> StreamPlanView {
        match self {
            StreamPlan::Ready(stream) => StreamPlanView::Ready(stream.deep_view()),
            StreamPlan::FileOrServer { candidates, saved } => StreamPlanView::FileOrServer {
                candidates: candidates.deep_view(),
                saved: saved.deep_view(),
            },
        }
    }
}

/// How a track is to be streamed.
pub open spec fn stream_plan(
    store: StoreView,
    server_id: Seq<char>,
    track_id: Seq<char>,
) -> Result<StreamPlanView, Seq<char>> {
    if store.fault is Some {
        Err(store.fault->0)
    } else {
        match store.server(server_id) {
            None => Err("No matching saved server is saved."@),
            Some(saved) => if saved.server.provider == "fake"@ {
                Ok(StreamPlanView::Ready(plain_stream("fake://local/stream/"@ + track_id)))
            } else {
                Ok(
                    StreamPlanView::FileOrServer {
                        candidates: file_candidates(
                            store.library(server_id),
                            saved.server,
                            track_id,
                        ),
                        saved,
                    },
                )
            },
        }
    }
}

/// How a track is to be streamed: always from the server that it was queued from.
pub fn resolve_stream(store: &Store, server_id: &ServerId, track_id: &TrackId) -> (result: Result<
    StreamPlan,
    String,
>)
    ensures
        match stream_plan(store.deep_view(), server_id.deep_view(), track_id.deep_view()) {
            Ok(plan) => result matches Ok(given) && given.deep_view() == plan,
            Err(message) => result matches Err(error) && error@ == message,
        },
{
    match store.saved_server(server_id) {
        Err(error) => Err(error),
        Ok(None) => Err(text::owned("No matching saved server is saved.")),
        Ok(Some(saved)) => {
            if saved.server.provider.same(&text::owned("fake")) {
                let uri: String = text::concat("fake://local/stream/", track_id.as_str());
                return Ok(
                    StreamPlan::Ready(StreamDescriptor { uri: uri.copy(), redacted_uri: uri }),
                );
            }
            let candidates: Vec<String> = candidates_in(
                &store.library(server_id),
                &saved.server,
                track_id,
            );
            Ok(StreamPlan::FileOrServer { candidates, saved })
        },
    }
}

/// A queue entry with its stream, as the player takes it.
pub open spec fn prepared_item(
    entry: QueueEntryView,
    stream: StreamDescriptorView,
) -> PreparedPlaybackItemView {
    PreparedPlaybackItemView {
        track: PlaybackTrackView {
            id: entry.track_id,
            title: entry.title,
            artist: entry.artist,
            album: entry.album,
            duration_seconds: entry.duration_seconds,
        },
        stream,
    }
}

/// A queue entry with its stream, as the player takes it.
pub fn prepared_item_from_entry(entry: &QueueEntry, stream: StreamDescriptor) -> (result:
    PreparedPlaybackItem)
    ensures
        result.deep_view() == prepared_item(entry.deep_view(), stream.deep_view()),
{
    PreparedPlaybackItem {
        track: PlaybackTrack {
            id: entry.track_id.copy(),
            title: entry.title.copy(),
            artist: entry.artist.copy(),
            album: entry.album.copy(),
            duration_seconds: entry.duration_seconds,
        },
        stream,
    }
}

/// The token that a source is asked with, or why there is none: none is needed for local
/// folders.
pub open spec fn access_token(
    tokens: TokenStoreView,
    saved: SavedServerView,
) -> Result<Seq<char>, Seq<char>> {
    if saved.server.provider == LOCAL_PROVIDER_ID@ {
        Ok(Seq::empty())
    } else if let Some(fault) = tokens.load_fault {
        Err(fault)
    } else {
        match token_of(tokens, saved.server.id) {
            Some(token) => Ok(token),
            None => Err("No saved token found for the active server."@),
        }
    }
}

/// The token that a source is asked with.
pub fn access_token_for_saved(tokens: &TokenStore, saved: &SavedServer) -> (result: Result<
    String,
    String,
>)
    ensures
        text_outcome(result) == access_token(tokens.deep_view(), saved.deep_view()),
{
    if saved.server.provider.same(&text::owned(LOCAL_PROVIDER_ID)) {
        return Ok(String::new());
    }
    match tokens.load_token(&saved.server.id) {
        Ok(Some(token)) => Ok(token),
        Ok(None) => Err(text::owned("No saved token found for the active server.")),
        Err(error) => Err(error),
    }
}

/// The file of a track of a server is looked for only where its files can be reached.
pub proof fn remote_files_need_access(
    store: StoreView,
    server_id: Seq<char>,
    track_id: Seq<char>,
)
    requires
        store.server(server_id) matches Some(saved) && saved.server.provider != LOCAL_PROVIDER_ID@,
        store.library(server_id).local_access is None,
    ensures
        kept_candidates(store, server_id, track_id) == Seq::<Seq<char>>::empty(),
{
}

/// What is handed to the player is the entry's own track and the stream that was found for it.
pub proof fn prepared_items_are_the_entry(entry: QueueEntryView, stream: StreamDescriptorView)
    ensures
        prepared_item(entry, stream).track.id == entry.track_id,
        prepared_item(entry, stream).track.title == entry.title,
        prepared_item(entry, stream).track.artist == entry.artist,
        prepared_item(entry, stream).track.album == entry.album,
        prepared_item(entry, stream).track.duration_seconds == entry.duration_seconds,
        prepared_item(entry, stream).stream == stream,
{
}

/// The stream of a track is looked for among its files first and at its own server otherwise;
/// a source that is not known has none, and that is told.
pub proof fn streams_come_from_files_or_their_server(
    store: StoreView,
    server_id: Seq<char>,
    track_id: Seq<char>,
)
    requires
        store.fault is None,
    ensures
        store.server(server_id) is None ==> stream_plan(store, server_id, track_id) is Err,
        store.server(server_id) matches Some(saved) && saved.server.provider != "fake"@ ==> (
        stream_plan(store, server_id, track_id) matches Ok(
            StreamPlanView::FileOrServer { candidates, saved },
        ) && Some(saved) == store.server(server_id) && candidates == kept_candidates(
            store,
            server_id,
            track_id,
        )),
{
}

/// A local file is found by the track's own path alone; that of a server's track also by the
/// match that was made for it, but only where the server's files can be reached.
pub proof fn files_are_known_by_path_and_match(
    library: ServerLibraryView,
    server: ServerIdentityView,
    track_id: Seq<char>,
)
    ensures
        server.provider == "local"@ ==> (path_lookup(library, server, track_id) matches Some(
            lookup,
        ) && lookup.provider_is_local && lookup.matched_path is None),
        server.provider != "local"@ && library.local_access is None ==> file_candidates(
            library,
            server,
            track_id,
        ).len() == 0,
        server.provider != "local"@ && library.local_access is Some ==> (path_lookup(
            library,
            server,
            track_id,
        ) matches Some(lookup) && !lookup.provider_is_local && lookup.access
            == library.local_access && lookup.matched_path == path_of_match(
            library.local_matches,
            track_id,
        )),
        path_lookup(library, server, track_id) matches Some(lookup) ==> lookup.raw_path == (
        match row::<Track>(library.tracks, track_id) {
            Some(track) => track.local_path,
            None => None,
        }),
{
}

/// A server is asked with the token that was kept for it; local folders need none.
pub proof fn servers_are_asked_with_their_token(tokens: TokenStoreView, saved: SavedServerView)
    ensures
        saved.server.provider == "local"@ ==> access_token(tokens, saved) == Ok::<
            Seq<char>,
            Seq<char>,
        >(Seq::empty()),
        saved.server.provider != "local"@ && tokens.load_fault is None ==> match token_of(
            tokens,
            saved.server.id,
        ) {
            Some(token) => access_token(tokens, saved) == Ok::<Seq<char>, Seq<char>>(token),
            None => access_token(tokens, saved) is Err,
        },
        saved.server.provider != "local"@ && tokens.load_fault is Some ==> access_token(
            tokens,
            saved,
        ) == Err::<Seq<char>, Seq<char>>(tokens.load_fault->0),
{
}

} // verus!
