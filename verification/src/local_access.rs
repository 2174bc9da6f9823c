//! Finding the files of a server's tracks on this machine.
use crate::model::ids::TrackId;
use crate::model::library::{Track, TrackView};
use crate::model::source::{
    LocalAccessStatus, LocalAccessStatusView, ServerIdentity, ServerLocalAccess,
    ServerLocalAccessView, TrackLocalMatch, TrackLocalMatchView,
};
use crate::text::{self, blank, search_text, trimmed};
use crate::value::{first_where, holds, lemma_first_where, Value};
use vstd::prelude::*;

verus! {

/// The provider of local folders.
pub const LOCAL_PROVIDER_ID: &'static str = "local";

/// A relative path below a root; an absolute one stays as it is.
pub open spec fn joined_path(root: Seq<char>, path: Seq<char>) -> Seq<char> {
    if path.len() > 0 && path[0] == '/' {
        path
    } else if root.len() == 0 || root.last() == '/' {
        root + path
    } else {
        root + seq!['/'] + path
    }
}

/// A relative path below a root; an absolute one stays as it is.
pub fn join_path(root: &str, path: &str) -> (result: String)
    ensures
        result@ == joined_path(root@, path@),
{
    let root_chars: Vec<char> = text::chars(root);
    let path_chars: Vec<char> = text::chars(path);
    if path_chars.len() > 0 && path_chars[0] == '/' {
        return text::owned(path);
    }
    let mut result: String = text::owned(root);
    if root_chars.len() > 0 && root_chars[root_chars.len() - 1] != '/' {
        result.push('/');
        result.push_str(path);
        assert(result@ =~= root@ + seq!['/'] + path@);
        return result;
    }
    result.push_str(path);
    result
}

/// Whether a character parts the names in a path of a server.
pub open spec fn is_separator(character: char) -> bool {
    character == '/' || character == '\\'
}

/// The names in a path of a server, after the name begun in `open`.
pub open spec fn path_names(path: Seq<char>, open: Seq<char>) -> Seq<Seq<char>>
    decreases path.len(),
{
    if path.len() == 0 {
        if open.len() == 0 {
            Seq::empty()
        } else {
            seq![open]
        }
    } else if !is_separator(path[0]) {
        path_names(path.drop_first(), open.push(path[0]))
    } else if open.len() == 0 {
        path_names(path.drop_first(), Seq::empty())
    } else {
        seq![open] + path_names(path.drop_first(), Seq::empty())
    }
}

/// The end of a server's path as a path of this machine.
pub open spec fn server_suffix(suffix: Seq<char>) -> Seq<char> {
    text::joined(path_names(suffix, Seq::empty()), seq!['/'])
}

fn split_path(path: &[char]) -> (result: Vec<String>)
    ensures
        result.deep_view() == path_names(path@, Seq::empty()),
{
    let ghost expected = path_names(path@, Seq::empty());
    let mut result: Vec<String> = Vec::new();
    let mut open: String = String::new();
    let mut is_open: bool = false;
    let mut i: usize = 0;
    assert(path@.skip(0) =~= path@);
    assert(result.deep_view() + expected =~= expected);
    while i < path.len()
        invariant
            i <= path.len(),
            is_open == (open@.len() > 0),
            result.deep_view() + path_names(path@.skip(i as int), open@) == expected,
        decreases path.len() - i,
    {
        let ghost rest = path@.skip(i as int);
        assert(rest.drop_first() =~= path@.skip(i + 1));
        let c: char = path[i];
        if c != '/' && c != '\\' {
            open.push(c);
            is_open = true;
        } else if is_open {
            let ghost before = result.deep_view();
            let ghost name = open@;
            let ghost tail = path_names(rest.drop_first(), Seq::empty());
            result.push(open);
            open = String::new();
            is_open = false;
            assert(result.deep_view() =~= before.push(name));
            assert(before + (seq![name] + tail) =~= before.push(name) + tail);
            assert(open@ =~= Seq::empty());
        } else {
            assert(open@ =~= Seq::empty());
        }
        i += 1;
    }
    assert(path@.skip(i as int).len() == 0);
    if is_open {
        let ghost before = result.deep_view();
        let ghost name = open@;
        result.push(open);
        assert(result.deep_view() =~= before.push(name));
        assert(before + seq![name] =~= before.push(name));
    } else {
        assert(result.deep_view() + Seq::<Seq<char>>::empty() =~= result.deep_view());
    }
    result
}

/// The end of a server's path as a path of this machine.
pub fn path_from_server_suffix(suffix: &str) -> (result: String)
    ensures
        result@ == server_suffix(suffix@),
{
    let characters: Vec<char> = text::chars(suffix);
    proof {
        reveal_strlit("/");
        assert("/"@ =~= seq!['/']);
    }
    text::join(&split_path(characters.as_slice()), "/")
}

/// Where a server's files are found: the given place, or the root where none is given.
pub open spec fn replacement_root(access: ServerLocalAccessView) -> Seq<char> {
    match access.path_replace_to {
        Some(place) if !blank(place) => place,
        _ => access.root_path,
    }
}

/// The beginning of a server's paths that is replaced, where there is one.
pub open spec fn replaced_prefix(access: ServerLocalAccessView) -> Option<Seq<char>> {
    match access.path_replace_from {
        Some(prefix) if !blank(prefix) => Some(trimmed(prefix)),
        _ => None,
    }
}

/// The path on this machine of a file that a server knows by another path.
pub open spec fn mapped_path(raw: Seq<char>, access: ServerLocalAccessView) -> Option<Seq<char>> {
    let root = replacement_root(access);
    match replaced_prefix(access) {
        Some(prefix) if prefix.is_prefix_of(raw) => Some(
            joined_path(root, server_suffix(raw.skip(prefix.len() as int))),
        ),
        _ => if raw.len() > 0 && raw[0] == '/' {
            None
        } else {
            Some(joined_path(root, raw))
        },
    }
}

/// The path on this machine of a file that a server knows by another path.
pub fn map_server_path_to_local(raw: &str, access: &ServerLocalAccess) -> (result: Option<String>)
    ensures
        result.deep_view() == mapped_path(raw@, access.deep_view()),
{
    let root: &str = match &access.path_replace_to {
        Some(place) => if !text::is_blank(place.as_str()) {
            place.as_str()
        } else {
            access.root_path.as_str()
        },
        None => access.root_path.as_str(),
    };
    if let Some(prefix) = &access.path_replace_from {
        let prefix: String = text::trim(prefix.as_str());
        if !prefix.as_str().is_empty() {
            if let Some(suffix) = text::strip_prefix(raw, prefix.as_str()) {
                return Some(join_path(root, path_from_server_suffix(suffix.as_str()).as_str()));
            }
        }
    }
    let characters: Vec<char> = text::chars(raw);
    if characters.len() > 0 && characters[0] == '/' {
        None
    } else {
        Some(join_path(root, raw))
    }
}

/// Whether a path is absolute.
pub open spec fn is_absolute(path: Seq<char>) -> bool {
    path.len() > 0 && path[0] == '/'
}

fn absolute(path: &str) -> (result: bool)
    ensures
        result == is_absolute(path@),
{
    let characters: Vec<char> = text::chars(path);
    characters.len() > 0 && characters[0] == '/'
}

/// The path that a track may have on this machine, judged by its path alone.
pub open spec fn potential_path(
    raw: Seq<char>,
    access: ServerLocalAccessView,
) -> Option<Seq<char>> {
    if blank(raw) {
        None
    } else if mapped_path(raw, access) is Some {
        mapped_path(raw, access)
    } else if is_absolute(raw) {
        Some(raw)
    } else {
        None
    }
}

pub fn potential_local_path_text(raw: &str, access: &ServerLocalAccess) -> (result: Option<String>)
    ensures
        result.deep_view() == potential_path(raw@, access.deep_view()),
{
    if text::is_blank(raw) {
        return None;
    }
    if let Some(mapped) = map_server_path_to_local(raw, access) {
        return Some(mapped);
    }
    if absolute(raw) {
        Some(text::owned(raw))
    } else {
        None
    }
}

/// What is known of a track's file before the disk is looked at.
pub struct LocalAudioPathLookup {
    pub provider_is_local: bool,
    pub raw_path: Option<String>,
    pub access: Option<ServerLocalAccess>,
    pub matched_path: Option<String>,
}

/// The contents of a [`LocalAudioPathLookup`].
pub struct LocalAudioPathLookupView {
    pub provider_is_local: bool,
    pub raw_path: Option<Seq<char>>,
    pub access: Option<ServerLocalAccessView>,
    pub matched_path: Option<Seq<char>>,
}

impl DeepView for LocalAudioPathLookup {
    type V = LocalAudioPathLookupView;

    open spec fn deep_view(&self) -> LocalAudioPathLookupView {
        LocalAudioPathLookupView {
            provider_is_local: self.provider_is_local,
            raw_path: self.raw_path.deep_view(),
            access: self.access.deep_view(),
            matched_path: self.matched_path.deep_view(),
        }
    }
}

/// The places where a track's file is looked for, in order. Without access to the files of
/// its server there are none.
pub open spec fn path_candidates(lookup: LocalAudioPathLookupView) -> Seq<Seq<char>> {
    let raw = match lookup.raw_path {
        Some(raw) => seq![raw],
        None => Seq::empty(),
    };
    if lookup.provider_is_local {
        raw
    } else {
        match lookup.access {
            None => Seq::empty(),
            Some(access) => (match lookup.matched_path {
                Some(matched) => seq![matched],
                None => Seq::empty(),
            }) + raw + (match lookup.raw_path {
                Some(raw) => match mapped_path(raw, access) {
                    Some(mapped) => seq![mapped],
                    None => Seq::empty(),
                },
                None => Seq::empty(),
            }),
        }
    }
}

/// The places where a track's file is looked for, in order; the first that is a file is it.
pub fn local_audio_path_candidates(lookup: &LocalAudioPathLookup) -> (result: Vec<String>)
    ensures
        result.deep_view() == path_candidates(lookup.deep_view()),
{
    let mut result: Vec<String> = Vec::new();
    if lookup.provider_is_local {
        if let Some(raw) = &lookup.raw_path {
            result.push(raw.copy());
        }
        assert(result.deep_view() =~= path_candidates(lookup.deep_view()));
        return result;
    }
    if let Some(access) = &lookup.access {
        if let Some(matched) = &lookup.matched_path {
            result.push(matched.copy());
        }
        if let Some(raw) = &lookup.raw_path {
            result.push(raw.copy());
            if let Some(mapped) = map_server_path_to_local(raw.as_str(), access) {
                result.push(mapped);
            }
        }
    }
    assert(result.deep_view() =~= path_candidates(lookup.deep_view()));
    result
}

/// The first candidate that is a file, given for each candidate whether it is one.
pub fn first_present_path(candidates: &Vec<String>, present: &Vec<bool>) -> (result: Option<String>)
    requires
        present@.len() == candidates@.len(),
    ensures
        ({
            let at = first_where(present@, |is_file: bool| is_file);
            result.deep_view() == (if at < present@.len() {
                Some(candidates.deep_view()[at])
            } else {
                None
            })
        }),
{
    let ghost test = |is_file: bool| is_file;
    let mut i: usize = 0;
    while i < candidates.len()
        invariant
            i <= candidates@.len(),
            present@.len() == candidates@.len(),
            test == (|is_file: bool| is_file),
            forall|j: int| 0 <= j < i ==> !test(present@[j]),
        decreases candidates.len() - i,
    {
        if present[i] {
            proof {
                lemma_first_where(present@, test, i as int);
            }
            return Some(candidates[i].copy());
        }
        i += 1;
    }
    proof {
        lemma_first_where(present@, test, i as int);
    }
    None
}

/// The name of the lyrics file beside an audio file: its last name with another extension.
pub open spec fn lyrics_path(audio_path: Seq<char>) -> Seq<char> {
    audio_path.take(extension_start(audio_path, audio_path.len() as int)) + ".lrc"@
}

/// Where the extension of a path begins, looking back from `end`: at the last dot of its
/// last name, unless the name begins with that dot; else at the end.
pub open spec fn extension_start(path: Seq<char>, end: int) -> int
    decreases end,
{
    if end <= 1 || path[end - 1] == '/' {
        path.len() as int
    } else if path[end - 1] == '.' && path[end - 2] != '/' {
        end - 1
    } else {
        extension_start(path, end - 1)
    }
}

/// The path of the lyrics file beside an audio file.
pub fn lyrics_path_for_audio(audio_path: &str) -> (result: String)
    ensures
        result@ == lyrics_path(audio_path@),
{
    let path: Vec<char> = text::chars(audio_path);
    let mut end: usize = path.len();
    while end > 1 && path[end - 1] != '/' && !(path[end - 1] == '.' && path[end - 2] != '/')
        invariant
            end <= path@.len(),
            path@ == audio_path@,
            extension_start(path@, path@.len() as int) == extension_start(path@, end as int),
        decreases end,
    {
        end -= 1;
    }
    let cut: usize = if end > 1 && path[end - 1] != '/' {
        end - 1
    } else {
        path.len()
    };
    let mut result: String = text::text_between(path.as_slice(), 0, cut);
    assert(result@ =~= audio_path@.take(cut as int));
    result.push_str(".lrc");
    result
}

/// Whether two durations may be those of one recording; an unknown one fits any.
pub open spec fn close_durations(left: u32, right: u32) -> bool {
    left == 0 || right == 0 || (left - right <= 3 && right - left <= 3)
}

pub fn durations_close(left: u32, right: u32) -> (result: bool)
    ensures
        result == close_durations(left, right),
{
    left == 0 || right == 0 || if left < right {
        right - left <= 3
    } else {
        left - right <= 3
    }
}

/// What a track is recognised by.
#[verifier::ext_equal]
pub struct LocalMatchKeyView {
    pub title: Seq<char>,
    pub album: Seq<char>,
    pub artist: Seq<char>,
    pub disc_number: u16,
    pub track_number: u16,
}

/// What a track is recognised by.
pub open spec fn match_key(track: TrackView) -> LocalMatchKeyView {
    LocalMatchKeyView {
        title: search_text(track.title),
        album: search_text(track.album),
        artist: search_text(track.artist),
        disc_number: track.disc_number,
        track_number: track.track_number,
    }
}

/// What a track is recognised by.
#[derive(Clone, Debug, PartialEq, Eq)]
pub struct LocalMatchKey {
    pub title: String,
    pub album: String,
    pub artist: String,
    pub disc_number: u16,
    pub track_number: u16,
}

impl DeepView for LocalMatchKey {
    type V = LocalMatchKeyView;

    open spec fn deep_view(&self) -> LocalMatchKeyView {
        LocalMatchKeyView {
            title: self.title@,
            album: self.album@,
            artist: self.artist@,
            disc_number: self.disc_number,
            track_number: self.track_number,
        }
    }
}

pub fn local_match_key(track: &Track) -> (result: LocalMatchKey)
    ensures
        result.deep_view() == match_key(track.deep_view()),
{
    LocalMatchKey {
        title: text::normalize_search_text(track.title.as_str()),
        album: text::normalize_search_text(track.album.as_str()),
        artist: text::normalize_search_text(track.artist.as_str()),
        disc_number: track.disc_number,
        track_number: track.track_number,
    }
}

fn same_key(left: &LocalMatchKey, right: &LocalMatchKey) -> (result: bool)
    ensures
        result == (left.deep_view() == right.deep_view()),
{
    left.title.same(&right.title) && left.album.same(&right.album) && left.artist.same(
        &right.artist,
    ) && left.disc_number == right.disc_number && left.track_number == right.track_number
}

/// Whether a local track may be the file of a remote one.
pub open spec fn may_match(remote: TrackView, local: TrackView) -> bool {
    &&& local.local_path is Some
    &&& match_key(local) == match_key(remote)
    &&& close_durations(remote.duration_seconds, local.duration_seconds)
}

/// The paths of the local tracks that may be the file of a remote one.
pub open spec fn matching_paths(remote: TrackView, locals: Seq<TrackView>) -> Seq<Seq<char>>
    decreases locals.len(),
{
    if locals.len() == 0 {
        Seq::empty()
    } else {
        let before = matching_paths(remote, locals.drop_last());
        if may_match(remote, locals.last()) {
            before.push(locals.last().local_path->0)
        } else {
            before
        }
    }
}

/// The files of remote tracks: only where exactly one local track fits.
pub open spec fn sure_matches(
    remotes: Seq<TrackView>,
    locals: Seq<TrackView>,
) -> Seq<TrackLocalMatchView>
    decreases remotes.len(),
{
    if remotes.len() == 0 {
        Seq::empty()
    } else {
        let before = sure_matches(remotes.drop_last(), locals);
        let paths = matching_paths(remotes.last(), locals);
        if paths.len() == 1 {
            before.push(
                TrackLocalMatchView {
                    track_id: remotes.last().id,
                    path: paths[0],
                    method: "metadata"@,
                },
            )
        } else {
            before
        }
    }
}

fn paths_for(remote: &Track, locals: &Vec<Track>, keys: &Vec<LocalMatchKey>) -> (result: Vec<
    String,
>)
    requires
        keys@.len() == locals@.len(),
        forall|i: int|
            0 <= i < locals@.len() ==> (#[trigger] keys@[i]).deep_view() == match_key(
                locals.deep_view()[i],
            ),
    ensures
        result.deep_view() == matching_paths(remote.deep_view(), locals.deep_view()),
{
    let ghost all = locals.deep_view();
    let key: LocalMatchKey = local_match_key(remote);
    let mut result: Vec<String> = Vec::new();
    let mut i: usize = 0;
    assert(all.take(0) =~= Seq::empty());
    assert(result.deep_view() =~= Seq::empty());
    while i < locals.len()
        invariant
            i <= locals@.len(),
            keys@.len() == locals@.len(),
            all == locals.deep_view(),
            key.deep_view() == match_key(remote.deep_view()),
            forall|j: int|
                0 <= j < locals@.len() ==> (#[trigger] keys@[j]).deep_view() == match_key(all[j]),
            result.deep_view() == matching_paths(remote.deep_view(), all.take(i as int)),
        decreases locals.len() - i,
    {
        let ghost before = result.deep_view();
        assert(all.take(i + 1).drop_last() =~= all.take(i as int));
        assert(all.take(i + 1).last() == locals@[i as int].deep_view());
        if same_key(&keys[i], &key) && durations_close(
            remote.duration_seconds,
            locals[i].duration_seconds,
        ) {
            if let Some(path) = &locals[i].local_path {
                result.push(path.copy());
                assert(result.deep_view() =~= before.push(path@));
            }
        }
        i += 1;
    }
    assert(all.take(i as int) =~= all);
    result
}

/// The files of remote tracks: only where exactly one local track has the same names and
/// numbers and about the same duration.
pub fn conservative_local_matches(remote_tracks: &Vec<Track>, local_tracks: &Vec<Track>) -> (
result: Vec<TrackLocalMatch>)
    ensures
        result.deep_view() == sure_matches(remote_tracks.deep_view(), local_tracks.deep_view()),
{
    let ghost remotes = remote_tracks.deep_view();
    let ghost locals = local_tracks.deep_view();
    let mut keys: Vec<LocalMatchKey> = Vec::new();
    let mut i: usize = 0;
    while i < local_tracks.len()
        invariant
            i <= local_tracks@.len(),
            keys@.len() == i,
            locals == local_tracks.deep_view(),
            forall|j: int|
                0 <= j < i ==> (#[trigger] keys@[j]).deep_view() == match_key(locals[j]),
        decreases local_tracks.len() - i,
    {
        keys.push(local_match_key(&local_tracks[i]));
        i += 1;
    }
    let mut result: Vec<TrackLocalMatch> = Vec::new();
    let mut i: usize = 0;
    assert(remotes.take(0) =~= Seq::empty());
    assert(result.deep_view() =~= Seq::empty());
    while i < remote_tracks.len()
        invariant
            i <= remote_tracks@.len(),
            keys@.len() == local_tracks@.len(),
            remotes == remote_tracks.deep_view(),
            locals == local_tracks.deep_view(),
            forall|j: int|
                0 <= j < local_tracks@.len() ==> (#[trigger] keys@[j]).deep_view() == match_key(
                    locals[j],
                ),
            result.deep_view() == sure_matches(remotes.take(i as int), locals),
        decreases remote_tracks.len() - i,
    {
        let ghost before = result.deep_view();
        assert(remotes.take(i + 1).drop_last() =~= remotes.take(i as int));
        assert(remotes.take(i + 1).last() == remote_tracks@[i as int].deep_view());
        let paths: Vec<String> = paths_for(&remote_tracks[i], local_tracks, &keys);
        assert(paths.deep_view().len() == paths@.len());
        if paths.len() == 1 {
            let found: TrackLocalMatch = TrackLocalMatch {
                track_id: remote_tracks[i].id.copy(),
                path: paths[0].copy(),
                method: text::owned("metadata"),
            };
            result.push(found);
            assert(result.deep_view() =~= before.push(found.deep_view()));
        }
        i += 1;
    }
    assert(remotes.take(i as int) =~= remotes);
    result
}

/// A track that two local tracks fit is given neither.
pub proof fn ambiguous_tracks_stay_unmatched(
    remote: TrackView,
    locals: Seq<TrackView>,
    first: int,
    second: int,
)
    requires
        0 <= first < second < locals.len(),
        may_match(remote, locals[first]),
        may_match(remote, locals[second]),
    ensures
        sure_matches(seq![remote], locals) == Seq::<TrackLocalMatchView>::empty(),
{
    lemma_matching_paths_count(remote, locals, first, second);
    assert(seq![remote].drop_last() =~= Seq::empty());
    assert(sure_matches(Seq::<TrackView>::empty(), locals) =~= Seq::<
        TrackLocalMatchView,
    >::empty());
}

proof fn lemma_matching_paths_count(
    remote: TrackView,
    locals: Seq<TrackView>,
    first: int,
    second: int,
)
    requires
        0 <= first < second < locals.len(),
        may_match(remote, locals[first]),
        may_match(remote, locals[second]),
    ensures
        matching_paths(remote, locals).len() >= 2,
    decreases locals.len(),
{
    let front = locals.drop_last();
    if second == locals.len() - 1 {
        lemma_one_matching_path(remote, front, first);
    } else {
        lemma_matching_paths_count(remote, front, first, second);
    }
}

proof fn lemma_one_matching_path(remote: TrackView, locals: Seq<TrackView>, at: int)
    requires
        0 <= at < locals.len(),
        may_match(remote, locals[at]),
    ensures
        matching_paths(remote, locals).len() >= 1,
    decreases locals.len(),
{
    if at < locals.len() - 1 {
        lemma_one_matching_path(remote, locals.drop_last(), at);
    }
}

/// The file that a track was matched with; the last match of a track counts.
pub open spec fn path_of_match(
    matches: Seq<TrackLocalMatchView>,
    track_id: Seq<char>,
) -> Option<Seq<char>>
    decreases matches.len(),
{
    if matches.len() == 0 {
        None
    } else if matches.last().track_id == track_id {
        Some(matches.last().path)
    } else {
        path_of_match(matches.drop_last(), track_id)
    }
}

/// The file that a track was matched with.
pub fn local_match_path(matches: &Vec<TrackLocalMatch>, track_id: &TrackId) -> (result: Option<
    String,
>)
    ensures
        result.deep_view() == path_of_match(matches.deep_view(), track_id.deep_view()),
{
    let ghost all = matches.deep_view();
    let mut i: usize = matches.len();
    assert(all.take(i as int) =~= all);
    while i > 0
        invariant
            i <= matches@.len(),
            all == matches.deep_view(),
            path_of_match(all, track_id.deep_view()) == path_of_match(
                all.take(i as int),
                track_id.deep_view(),
            ),
        decreases i,
    {
        assert(all.take(i as int).drop_last() =~= all.take(i - 1));
        assert(all.take(i as int).last() == matches@[i - 1].deep_view());
        if matches[i - 1].track_id.same(track_id) {
            return Some(matches[i - 1].path.copy());
        }
        i -= 1;
    }
    None
}

/// Whether a track has a path that is not blank.
pub open spec fn has_path(track: TrackView) -> bool {
    track.local_path matches Some(path) && !blank(path)
}

fn has_local_path(track: &Track) -> (result: bool)
    ensures
        result == has_path(track.deep_view()),
{
    match &track.local_path {
        Some(path) => !text::is_blank(path.as_str()),
        None => false,
    }
}

/// The track that shows how paths are mapped: one with a path and a match, else one with a
/// path; the number of tracks where there is none.
pub open spec fn sample_index(
    tracks: Seq<TrackView>,
    matches: Seq<TrackLocalMatchView>,
) -> int {
    let both = first_where(
        tracks,
        |track: TrackView| has_path(track) && path_of_match(matches, track.id) is Some,
    );
    if both < tracks.len() {
        both
    } else {
        first_where(tracks, |track: TrackView| has_path(track))
    }
}

fn sample_position(tracks: &Vec<Track>, matches: &Vec<TrackLocalMatch>) -> (result: usize)
    ensures
        result == sample_index(tracks.deep_view(), matches.deep_view()),
        result <= tracks@.len(),
{
    let ghost all = tracks.deep_view();
    let ghost known = matches.deep_view();
    let ghost both = |track: TrackView| has_path(track) && path_of_match(known, track.id) is Some;
    let ghost with_path = |track: TrackView| has_path(track);
    let mut i: usize = 0;
    while i < tracks.len()
        invariant
            i <= tracks@.len(),
            all == tracks.deep_view(),
            known == matches.deep_view(),
            both == (|track: TrackView|
                has_path(track) && path_of_match(known, track.id) is Some),
            forall|j: int| 0 <= j < i ==> !both(all[j]),
        decreases tracks.len() - i,
    {
        assert(all[i as int] == tracks@[i as int].deep_view());
        if has_local_path(&tracks[i]) && local_match_path(matches, &tracks[i].id).is_some() {
            proof {
                lemma_first_where(all, both, i as int);
            }
            return i;
        }
        i += 1;
    }
    proof {
        lemma_first_where(all, both, i as int);
    }
    let mut i: usize = 0;
    while i < tracks.len()
        invariant
            i <= tracks@.len(),
            all == tracks.deep_view(),
            known == matches.deep_view(),
            both == (|track: TrackView|
                has_path(track) && path_of_match(known, track.id) is Some),
            first_where(all, both) == all.len(),
            with_path == (|track: TrackView| has_path(track)),
            forall|j: int| 0 <= j < i ==> !with_path(all[j]),
        decreases tracks.len() - i,
    {
        assert(all[i as int] == tracks@[i as int].deep_view());
        if has_local_path(&tracks[i]) {
            proof {
                lemma_first_where(all, with_path, i as int);
            }
            return i;
        }
        i += 1;
    }
    proof {
        lemma_first_where(all, with_path, i as int);
    }
    i
}

/// Whether the path of a track can be mapped.
pub open spec fn is_prefix_match(track: TrackView, access: ServerLocalAccessView) -> bool {
    track.local_path matches Some(raw) && mapped_path(raw, access) is Some
}

/// Whether the path of a track, though not mapped, may be that of a file here.
pub open spec fn is_direct_match(track: TrackView, access: ServerLocalAccessView) -> bool {
    track.local_path matches Some(raw) && mapped_path(raw, access) is None && is_absolute(raw)
}

/// How many tracks have a path that can be mapped.
pub open spec fn prefix_matches(tracks: Seq<TrackView>, access: ServerLocalAccessView) -> nat
    decreases tracks.len(),
{
    if tracks.len() == 0 {
        0
    } else {
        prefix_matches(tracks.drop_last(), access) + if is_prefix_match(tracks.last(), access) {
            1nat
        } else {
            0nat
        }
    }
}

/// How many tracks have a path that is not mapped but may be that of a file here.
pub open spec fn direct_matches(tracks: Seq<TrackView>, access: ServerLocalAccessView) -> nat
    decreases tracks.len(),
{
    if tracks.len() == 0 {
        0
    } else {
        direct_matches(tracks.drop_last(), access) + if is_direct_match(tracks.last(), access) {
            1nat
        } else {
            0nat
        }
    }
}

/// The tracks that are matched by their path.
pub open spec fn path_matched_ids(tracks: Seq<TrackView>, access: ServerLocalAccessView) -> Set<
    Seq<char>,
>
    decreases tracks.len(),
{
    if tracks.len() == 0 {
        Set::empty()
    } else {
        let before = path_matched_ids(tracks.drop_last(), access);
        if is_prefix_match(tracks.last(), access) || is_direct_match(tracks.last(), access) {
            before.insert(tracks.last().id)
        } else {
            before
        }
    }
}

/// The tracks that are matched by what is known of them.
pub open spec fn metadata_matched_ids(matches: Seq<TrackLocalMatchView>) -> Set<Seq<char>>
    decreases matches.len(),
{
    if matches.len() == 0 {
        Set::empty()
    } else {
        metadata_matched_ids(matches.drop_last()).insert(matches.last().track_id)
    }
}

/// How the tracks of a server are matched with files on this machine.
pub open spec fn access_status(
    tracks: Seq<TrackView>,
    matches: Seq<TrackLocalMatchView>,
    access: ServerLocalAccessView,
) -> LocalAccessStatusView {
    let sample = sample_index(tracks, matches);
    let matched = path_matched_ids(tracks, access).union(metadata_matched_ids(matches)).len();
    LocalAccessStatusView {
        sample_server_path: if sample < tracks.len() {
            tracks[sample].local_path
        } else {
            None
        },
        sample_local_path: if sample < tracks.len() {
            match path_of_match(matches, tracks[sample].id) {
                Some(path) => Some(path),
                None => potential_path(tracks[sample].local_path->0, access),
            }
        } else {
            None
        },
        direct_match_count: direct_matches(tracks, access) as usize,
        prefix_match_count: prefix_matches(tracks, access) as usize,
        metadata_match_count: metadata_matched_ids(matches).len() as usize,
        unmatched_count: if matched < tracks.len() {
            (tracks.len() - matched) as usize
        } else {
            0
        },
        total_track_count: tracks.len() as usize,
    }
}

/// Nothing is known of the files of a server.
pub open spec fn no_status() -> LocalAccessStatusView {
    LocalAccessStatusView {
        sample_server_path: None,
        sample_local_path: None,
        direct_match_count: 0,
        prefix_match_count: 0,
        metadata_match_count: 0,
        unmatched_count: 0,
        total_track_count: 0,
    }
}

pub fn no_local_access_status() -> (result: LocalAccessStatus)
    ensures
        result.deep_view() == no_status(),
{
    LocalAccessStatus {
        sample_server_path: None,
        sample_local_path: None,
        direct_match_count: 0,
        prefix_match_count: 0,
        metadata_match_count: 0,
        unmatched_count: 0,
        total_track_count: 0,
    }
}

/// Adds an identifier unless it is there already.
fn note_id(ids: &mut Vec<String>, id: &TrackId)
    requires
        old(ids).deep_view().no_duplicates(),
    ensures
        final(ids).deep_view().no_duplicates(),
        final(ids).deep_view().to_set() == old(ids).deep_view().to_set().insert(id.deep_view()),
        final(ids)@.len() <= old(ids)@.len() + 1,
{
    let ghost before = ids.deep_view();
    let key: String = id.value.copy();
    if holds(ids, &key) {
        assert(before.to_set().insert(id.deep_view()) =~= before.to_set());
    } else {
        ids.push(key);
        let ghost after = ids.deep_view();
        assert(after =~= before.push(id.deep_view()));
        assert(after.to_set() =~= before.to_set().insert(id.deep_view())) by {
            assert(after[before.len() as int] == id.deep_view());
            assert forall|other: Seq<char>| before.contains(other) implies after.contains(
                other,
            ) by {
                let i = choose|i: int| 0 <= i < before.len() && before[i] == other;
                assert(after[i] == other);
            }
        }
        assert(after.no_duplicates()) by {
            assert forall|a: int, b: int|
                0 <= a < after.len() && 0 <= b < after.len() && a != b implies after[a]
                != after[b] by {
                assert(a < before.len() ==> before.contains(before[a]));
                assert(b < before.len() ==> before.contains(before[b]));
            }
        }
    }
}

/// How the tracks of a server are matched with files on this machine. Without access to its
/// files, and for local folders themselves, nothing is counted.
pub fn local_access_status(
    server: &ServerIdentity,
    access: Option<&ServerLocalAccess>,
    tracks: &Vec<Track>,
    matches: &Vec<TrackLocalMatch>,
) -> (result: LocalAccessStatus)
    ensures
        result.deep_view() == (match access.deep_view() {
            Some(access) if server.deep_view().provider != LOCAL_PROVIDER_ID@ => access_status(
                tracks.deep_view(),
                matches.deep_view(),
                access,
            ),
            _ => no_status(),
        }),
{
    let access: &ServerLocalAccess = match access {
        Some(access) => access,
        None => return no_local_access_status(),
    };
    if server.provider.same(&text::owned(LOCAL_PROVIDER_ID)) {
        return no_local_access_status();
    }
    let ghost all = tracks.deep_view();
    let ghost known = matches.deep_view();
    let ghost place = access.deep_view();
    let sample: usize = sample_position(tracks, matches);
    let mut sample_server_path: Option<String> = None;
    let mut sample_local_path: Option<String> = None;
    if sample < tracks.len() {
        assert(all[sample as int] == tracks@[sample as int].deep_view());
        sample_server_path = tracks[sample].local_path.copy();
        sample_local_path = local_match_path(matches, &tracks[sample].id);
        if sample_local_path.is_none() {
            proof {
                lemma_sample_has_path(all, known);
            }
            if let Some(raw) = &tracks[sample].local_path {
                sample_local_path = potential_local_path_text(raw.as_str(), access);
            }
        }
    }
    let mut metadata_ids: Vec<String> = Vec::new();
    let mut i: usize = 0;
    assert(known.take(0) =~= Seq::empty());
    assert(metadata_ids.deep_view().to_set() =~= Set::<Seq<char>>::empty());
    while i < matches.len()
        invariant
            i <= matches@.len(),
            known == matches.deep_view(),
            metadata_ids.deep_view().no_duplicates(),
            metadata_ids.deep_view().to_set() == metadata_matched_ids(known.take(i as int)),
        decreases matches.len() - i,
    {
        assert(known.take(i + 1).drop_last() =~= known.take(i as int));
        assert(known.take(i + 1).last() == matches@[i as int].deep_view());
        note_id(&mut metadata_ids, &matches[i].track_id);
        i += 1;
    }
    assert(known.take(i as int) =~= known);
    let ghost metadata_set = metadata_matched_ids(known);
    let mut matched_ids: Vec<String> = metadata_ids.copy();
    let mut direct: usize = 0;
    let mut prefix: usize = 0;
    let mut i: usize = 0;
    assert(all.take(0) =~= Seq::empty());
    assert(path_matched_ids(all.take(0), place).union(metadata_set) =~= metadata_set);
    while i < tracks.len()
        invariant
            i <= tracks@.len(),
            all == tracks.deep_view(),
            place == access.deep_view(),
            matched_ids.deep_view().no_duplicates(),
            matched_ids.deep_view().to_set() == path_matched_ids(
                all.take(i as int),
                place,
            ).union(metadata_set),
            direct <= i,
            prefix <= i,
            direct == direct_matches(all.take(i as int), place),
            prefix == prefix_matches(all.take(i as int), place),
        decreases tracks.len() - i,
    {
        let ghost front = all.take(i as int);
        let ghost track = tracks@[i as int].deep_view();
        assert(all.take(i + 1).drop_last() =~= front);
        assert(all.take(i + 1).last() == track);
        assert(path_matched_ids(front, place).insert(track.id).union(metadata_set)
            =~= path_matched_ids(front, place).union(metadata_set).insert(track.id));
        if let Some(raw) = &tracks[i].local_path {
            if map_server_path_to_local(raw.as_str(), access).is_some() {
                prefix += 1;
                note_id(&mut matched_ids, &tracks[i].id);
            } else if absolute(raw.as_str()) {
                direct += 1;
                note_id(&mut matched_ids, &tracks[i].id);
            }
        }
        i += 1;
    }
    assert(all.take(i as int) =~= all);
    proof {
        metadata_ids.deep_view().unique_seq_to_set();
        matched_ids.deep_view().unique_seq_to_set();
        assert(metadata_ids.deep_view().len() == metadata_ids@.len());
        assert(matched_ids.deep_view().len() == matched_ids@.len());
    }
    let total: usize = tracks.len();
    let unmatched: usize = if matched_ids.len() < total {
        total - matched_ids.len()
    } else {
        0
    };
    LocalAccessStatus {
        sample_server_path,
        sample_local_path,
        direct_match_count: direct,
        prefix_match_count: prefix,
        metadata_match_count: metadata_ids.len(),
        unmatched_count: unmatched,
        total_track_count: total,
    }
}

proof fn lemma_sample_has_path(tracks: Seq<TrackView>, matches: Seq<TrackLocalMatchView>)
    ensures
        sample_index(tracks, matches) < tracks.len() ==> has_path(
            tracks[sample_index(tracks, matches)],
        ),
{
    let both = |track: TrackView| has_path(track) && path_of_match(matches, track.id) is Some;
    let with_path = |track: TrackView| has_path(track);
    crate::value::lemma_first_where_bounds(tracks, both);
    crate::value::lemma_first_where_bounds(tracks, with_path);
}

/// Whether a local track agrees with a remote one in title, in album, in artist, in both
/// numbers and, within three seconds, in duration where both durations are known.
pub open spec fn tracks_agree(remote: TrackView, local: TrackView) -> bool {
    &&& search_text(remote.title) == search_text(local.title)
    &&& search_text(remote.album) == search_text(local.album)
    &&& search_text(remote.artist) == search_text(local.artist)
    &&& remote.disc_number == local.disc_number
    &&& remote.track_number == local.track_number
    &&& remote.duration_seconds > 0 && local.duration_seconds > 0 ==> -3
        <= remote.duration_seconds - local.duration_seconds <= 3
}

/// Whether a file is that of the only local track that agrees with a remote one.
pub open spec fn only_file(remote: TrackView, locals: Seq<TrackView>, path: Seq<char>) -> bool {
    exists|at: int|
        0 <= at < locals.len() && (#[trigger] locals[at]).local_path == Some(path) && tracks_agree(
            remote,
            locals[at],
        ) && (forall|other: int|
            0 <= other < locals.len() && other != at && (
            #[trigger] locals[other]).local_path is Some ==> !tracks_agree(remote, locals[other]))
}

/// A remote track is given a file only where their titles agree after normalization, and their
/// albums, and their artists, each on its own, and their numbers and durations; and only where
/// no other local track agrees with it as well.
pub proof fn matched_tracks_agree_in_each_name(
    remotes: Seq<TrackView>,
    locals: Seq<TrackView>,
    at: int,
)
    requires
        0 <= at < sure_matches(remotes, locals).len(),
    ensures
        exists|i: int|
            0 <= i < remotes.len() && (#[trigger] remotes[i]).id == sure_matches(
                remotes,
                locals,
            )[at].track_id && only_file(remotes[i], locals, sure_matches(remotes, locals)[at].path),
    decreases remotes.len(),
{
    let front = remotes.drop_last();
    let before = sure_matches(front, locals);
    let found = sure_matches(remotes, locals);
    if at < before.len() {
        assert(found[at] == before[at]);
        matched_tracks_agree_in_each_name(front, locals, at);
        let i = choose|i: int|
            0 <= i < front.len() && (#[trigger] front[i]).id == before[at].track_id && only_file(
                front[i],
                locals,
                before[at].path,
            );
        assert(remotes[i] == front[i]);
    } else {
        lemma_one_path(remotes.last(), locals);
        assert(remotes[remotes.len() - 1] == remotes.last());
    }
}

proof fn lemma_no_path(remote: TrackView, locals: Seq<TrackView>)
    ensures
        matching_paths(remote, locals).len() == 0 <==> forall|i: int|
            0 <= i < locals.len() && (#[trigger] locals[i]).local_path is Some ==> !tracks_agree(
                remote,
                locals[i],
            ),
    decreases locals.len(),
{
    if locals.len() > 0 {
        let front = locals.drop_last();
        lemma_no_path(remote, front);
        assert(locals[locals.len() - 1] == locals.last());
        assert(forall|i: int| 0 <= i < front.len() ==> front[i] == #[trigger] locals[i]);
        assert(forall|i: int| 0 <= i < front.len() ==> #[trigger] front[i] == locals[i]);
    }
}

proof fn lemma_one_path(remote: TrackView, locals: Seq<TrackView>)
    ensures
        matching_paths(remote, locals).len() == 1 ==> only_file(
            remote,
            locals,
            matching_paths(remote, locals)[0],
        ),
        forall|path: Seq<char>| #[trigger]
            only_file(remote, locals, path) ==> matching_paths(remote, locals) == seq![path],
    decreases locals.len(),
{
    let paths = matching_paths(remote, locals);
    if locals.len() > 0 {
        let front = locals.drop_last();
        let last = locals.len() - 1;
        let before = matching_paths(remote, front);
        lemma_one_path(remote, front);
        lemma_no_path(remote, front);
        assert(locals[last] == locals.last());
        assert(forall|i: int| 0 <= i < front.len() ==> #[trigger] front[i] == locals[i]);
        if paths.len() == 1 {
            if may_match(remote, locals.last()) {
                assert forall|other: int|
                    0 <= other < locals.len() && other != last && (
                    #[trigger] locals[other]).local_path is Some implies !tracks_agree(
                    remote,
                    locals[other],
                ) by {
                    assert(front[other] == locals[other]);
                }
                assert(only_file(remote, locals, paths[0]));
            } else {
                let at = choose|at: int|
                    0 <= at < front.len() && (#[trigger] front[at]).local_path == Some(paths[0])
                        && tracks_agree(remote, front[at]) && (forall|other: int|
                        0 <= other < front.len() && other != at && (
                        #[trigger] front[other]).local_path is Some ==> !tracks_agree(
                            remote,
                            front[other],
                        ));
                assert(locals[at] == front[at]);
                assert forall|other: int|
                    0 <= other < locals.len() && other != at && (
                    #[trigger] locals[other]).local_path is Some implies !tracks_agree(
                    remote,
                    locals[other],
                ) by {
                    if other < last {
                        assert(front[other] == locals[other]);
                    }
                }
            }
        }
        assert forall|path: Seq<char>| #[trigger] only_file(remote, locals, path) implies paths
            == seq![path] by {
            let at = choose|at: int|
                0 <= at < locals.len() && (#[trigger] locals[at]).local_path == Some(path)
                    && tracks_agree(remote, locals[at]) && (forall|other: int|
                    0 <= other < locals.len() && other != at && (
                    #[trigger] locals[other]).local_path is Some ==> !tracks_agree(
                        remote,
                        locals[other],
                    ));
            if at == last {
                assert forall|i: int|
                    0 <= i < front.len() && (
                    #[trigger] front[i]).local_path is Some implies !tracks_agree(
                    remote,
                    front[i],
                ) by {
                    assert(locals[i] == front[i]);
                }
                assert(paths =~= seq![path]);
            } else {
                assert(front[at] == locals[at]);
                assert forall|other: int|
                    0 <= other < front.len() && other != at && (
                    #[trigger] front[other]).local_path is Some implies !tracks_agree(
                    remote,
                    front[other],
                ) by {
                    assert(locals[other] == front[other]);
                }
                assert(only_file(remote, front, path));
                if locals.last().local_path is Some {
                    assert(!tracks_agree(remote, locals[last]));
                }
            }
        }
    }
}

/// A remote track with which exactly one local track agrees is given the file of that track.
pub proof fn the_only_agreeing_track_is_matched(
    remotes: Seq<TrackView>,
    locals: Seq<TrackView>,
    at: int,
    path: Seq<char>,
)
    requires
        0 <= at < remotes.len(),
        only_file(remotes[at], locals, path),
    ensures
        sure_matches(remotes, locals).contains(
            (TrackLocalMatchView { track_id: remotes[at].id, path, method: "metadata"@ }),
        ),
    decreases remotes.len(),
{
    let front = remotes.drop_last();
    let before = sure_matches(front, locals);
    let found = sure_matches(remotes, locals);
    let wanted = TrackLocalMatchView { track_id: remotes[at].id, path, method: "metadata"@ };
    if at < front.len() {
        assert(front[at] == remotes[at]);
        the_only_agreeing_track_is_matched(front, locals, at, path);
        let i = choose|i: int| 0 <= i < before.len() && before[i] == wanted;
        assert(found[i] == wanted);
    } else {
        lemma_one_path(remotes[at], locals);
        assert(found[before.len() as int] == wanted);
    }
}

/// The latest match of a track counts, and leaves those of other tracks as they were.
pub proof fn the_latest_match_counts(
    matches: Seq<TrackLocalMatchView>,
    latest: TrackLocalMatchView,
    other: Seq<char>,
)
    ensures
        path_of_match(matches.push(latest), latest.track_id) == Some(latest.path),
        other != latest.track_id ==> path_of_match(matches.push(latest), other) == path_of_match(
            matches,
            other,
        ),
        path_of_match(Seq::empty(), other) is None,
{
    assert(matches.push(latest).drop_last() =~= matches);
}

/// A separator of either kind parts the names of a server's path, and a name without one stays
/// as it is.
pub proof fn separators_part_the_names_of_paths(
    before: Seq<char>,
    separator: char,
    after: Seq<char>,
)
    requires
        separator == '/' || separator == '\\',
    ensures
        path_names(before + seq![separator] + after, Seq::empty()) == path_names(
            before,
            Seq::empty(),
        ) + path_names(after, Seq::empty()),
        !after.contains('/') && !after.contains('\\') && after.len() > 0 ==> path_names(
            after,
            Seq::empty(),
        ) == seq![after],
{
    lemma_names_apart(before, separator, after, Seq::empty());
    if !after.contains('/') && !after.contains('\\') && after.len() > 0 {
        lemma_one_name(after, Seq::empty());
        assert(Seq::<char>::empty() + after =~= after);
    }
}

proof fn lemma_names_apart(
    before: Seq<char>,
    separator: char,
    after: Seq<char>,
    open: Seq<char>,
)
    requires
        separator == '/' || separator == '\\',
    ensures
        path_names(before + seq![separator] + after, open) == path_names(before, open)
            + path_names(after, Seq::empty()),
    decreases before.len(),
{
    let all = before + seq![separator] + after;
    let names = path_names(after, Seq::empty());
    if before.len() == 0 {
        assert(all.drop_first() =~= after);
        assert(all[0] == separator);
        assert(Seq::<Seq<char>>::empty() + names =~= names);
    } else {
        assert(all.drop_first() =~= before.drop_first() + seq![separator] + after);
        assert(all[0] == before[0]);
        if !is_separator(before[0]) {
            lemma_names_apart(before.drop_first(), separator, after, open.push(before[0]));
        } else {
            lemma_names_apart(before.drop_first(), separator, after, Seq::empty());
            let rest = path_names(before.drop_first(), Seq::empty());
            assert(seq![open] + (rest + names) =~= (seq![open] + rest) + names);
        }
    }
}

proof fn lemma_one_name(name: Seq<char>, open: Seq<char>)
    requires
        !name.contains('/'),
        !name.contains('\\'),
        open.len() + name.len() > 0,
    ensures
        path_names(name, open) == seq![open + name],
    decreases name.len(),
{
    if name.len() > 0 {
        let rest = name.drop_first();
        assert(name.contains(name[0]));
        assert forall|i: int| 0 <= i < rest.len() implies name.contains(#[trigger] rest[i]) by {
            assert(name[i + 1] == rest[i]);
        }
        lemma_one_name(rest, open.push(name[0]));
        assert(open.push(name[0]) + rest =~= open + name);
    } else {
        assert(open + name =~= open);
    }
}

/// A server's path below the prefix that is replaced becomes the same names below the place
/// that stands for it; another absolute path has no place here, and a relative one is below
/// the root.
pub proof fn server_paths_keep_their_names(
    access: ServerLocalAccessView,
    prefix: Seq<char>,
    place: Seq<char>,
    folder: Seq<char>,
    name: Seq<char>,
    separator: char,
)
    requires
        separator == '/' || separator == '\\',
        access.path_replace_from == Some(prefix),
        access.path_replace_to == Some(place),
        prefix.len() > 0,
        !text::char_is_whitespace(prefix[0]),
        !text::char_is_whitespace(prefix.last()),
        !blank(place),
        place.len() > 0 && place.last() != '/',
        folder.len() > 0 && !folder.contains('/') && !folder.contains('\\'),
        name.len() > 0 && !name.contains('/') && !name.contains('\\'),
    ensures
        mapped_path(
            prefix + seq![separator] + folder + seq![separator] + name,
            access,
        ) == Some(place + seq!['/'] + folder + seq!['/'] + name),
        !prefix.is_prefix_of(seq!['/'] + name) ==> mapped_path(seq!['/'] + name, access) is None,
        !prefix.is_prefix_of(name) ==> mapped_path(name, access) == Some(
            place + seq!['/'] + name,
        ),
{
    let raw = prefix + seq![separator] + folder + seq![separator] + name;
    let suffix = seq![separator] + folder + seq![separator] + name;
    assert(trimmed(prefix) == prefix);
    assert(prefix.is_prefix_of(raw)) by {
        assert(raw.take(prefix.len() as int) =~= prefix);
        assert(raw.subrange(0, prefix.len() as int) =~= prefix);
    }
    assert(raw.skip(prefix.len() as int) =~= suffix);
    let none = Seq::<char>::empty();
    separators_part_the_names_of_paths(seq![separator] + folder, separator, name);
    separators_part_the_names_of_paths(none, separator, folder);
    assert(none + seq![separator] + folder =~= seq![separator] + folder);
    assert(path_names(none, none) =~= Seq::<Seq<char>>::empty());
    assert(path_names(suffix, none) =~= seq![folder, name]);
    assert(seq![folder, name].drop_last() =~= seq![folder]);
    assert(text::joined(seq![folder], seq!['/']) == folder);
    assert(server_suffix(suffix) =~= folder + seq!['/'] + name);
    assert(folder.contains(folder[0]));
    assert(name.contains(name[0]));
    assert(place + seq!['/'] + (folder + seq!['/'] + name) =~= place + seq!['/'] + folder + seq![
        '/',
    ] + name);
}

/// The file of a track is looked for at its match first, after that at its own path, and last
/// where that is mapped; that of a local track only at its own path, and that of a server
/// without access nowhere.
pub proof fn files_are_looked_for_in_order(
    raw: Seq<char>,
    access: ServerLocalAccessView,
    matched: Seq<char>,
)
    ensures
        ({
            let lookup = LocalAudioPathLookupView {
                provider_is_local: false,
                raw_path: Some(raw),
                access: Some(access),
                matched_path: Some(matched),
            };
            let mapped = path_candidates(lookup);
            let local = path_candidates(
                (LocalAudioPathLookupView { provider_is_local: true, ..lookup }),
            );
            let unmatched = path_candidates(
                (LocalAudioPathLookupView { matched_path: None, ..lookup }),
            );
            &&& mapped[0] == matched
            &&& mapped[1] == raw
            &&& mapped_path(raw, access) is Some ==> mapped.len() == 3 && Some(mapped[2])
                == mapped_path(raw, access)
            &&& mapped_path(raw, access) is None ==> mapped.len() == 2
            &&& local == seq![raw]
            &&& unmatched == mapped.drop_first()
            &&& path_candidates((LocalAudioPathLookupView { access: None, ..lookup })).len() == 0
        }),
{
    let lookup = LocalAudioPathLookupView {
        provider_is_local: false,
        raw_path: Some(raw),
        access: Some(access),
        matched_path: Some(matched),
    };
    assert(path_candidates(
        (LocalAudioPathLookupView { matched_path: None, ..lookup }),
    ) =~= path_candidates(lookup).drop_first());
}

/// The lyrics file beside an audio file has its folder and name, with the extension of lyrics
/// in place of its own.
pub proof fn lyrics_stand_beside_the_audio_file(
    folder: Seq<char>,
    stem: Seq<char>,
    extension: Seq<char>,
)
    requires
        folder.len() > 0 ==> folder.last() == '/',
        stem.len() > 0,
        !stem.contains('/'),
        !extension.contains('/'),
        !extension.contains('.'),
    ensures
        lyrics_path(folder + stem + seq!['.'] + extension) == folder + stem + ".lrc"@,
{
    let path = folder + stem + seq!['.'] + extension;
    let dot = (folder + stem).len() as int;
    lemma_extension(path, dot, path.len() as int, extension);
    assert(path.take(dot) =~= folder + stem);
    assert(stem.contains(stem[stem.len() - 1]));
}

proof fn lemma_extension(path: Seq<char>, dot: int, end: int, extension: Seq<char>)
    requires
        1 <= dot < end <= path.len(),
        path.len() == dot + 1 + extension.len(),
        path[dot] == '.',
        path[dot - 1] != '/',
        !extension.contains('/'),
        !extension.contains('.'),
        forall|i: int| dot < i < path.len() ==> path[i] == extension[i - dot - 1],
    ensures
        extension_start(path, end) == dot,
    decreases end,
{
    if end > dot + 1 {
        assert(extension.contains(extension[end - 1 - dot - 1]));
        lemma_extension(path, dot, end - 1, extension);
    }
}

/// The status of a server's files counts each of its tracks at most once as mapped or as
/// found by its own path, and leaves out those that are matched; with nothing known of any
/// track, all are unmatched.
pub proof fn statuses_count_the_tracks(
    tracks: Seq<TrackView>,
    matches: Seq<TrackLocalMatchView>,
    access: ServerLocalAccessView,
)
    requires
        tracks.len() <= usize::MAX,
    ensures
        ({
            let status = access_status(tracks, matches, access);
            let mapped = tracks.filter(
                |track: TrackView|
                    track.local_path matches Some(raw) && mapped_path(raw, access) is Some,
            );
            let direct = tracks.filter(
                |track: TrackView|
                    track.local_path matches Some(raw) && mapped_path(raw, access) is None
                        && raw.len() > 0 && raw[0] == '/',
            );
            &&& status.total_track_count == tracks.len()
            &&& status.prefix_match_count == mapped.len()
            &&& status.direct_match_count == direct.len()
            &&& status.prefix_match_count + status.direct_match_count <= tracks.len()
            &&& status.unmatched_count <= tracks.len()
            &&& matches.len() == 0 && mapped.len() == 0 && direct.len() == 0
                ==> status.unmatched_count == tracks.len()
        }),
{
    lemma_status_counts(tracks, access);
    if matches.len() == 0 && prefix_matches(tracks, access) == 0 && direct_matches(tracks, access)
        == 0 {
        lemma_no_path_matches(tracks, access);
        assert(path_matched_ids(tracks, access).union(metadata_matched_ids(matches)) =~= Set::<
            Seq<char>,
        >::empty());
    }
}

proof fn lemma_status_counts(tracks: Seq<TrackView>, access: ServerLocalAccessView)
    ensures
        prefix_matches(tracks, access) == tracks.filter(
            |track: TrackView|
                track.local_path matches Some(raw) && mapped_path(raw, access) is Some,
        ).len(),
        direct_matches(tracks, access) == tracks.filter(
            |track: TrackView|
                track.local_path matches Some(raw) && mapped_path(raw, access) is None && raw.len()
                    > 0 && raw[0] == '/',
        ).len(),
        prefix_matches(tracks, access) + direct_matches(tracks, access) <= tracks.len(),
    decreases tracks.len(),
{
    reveal(Seq::filter);
    if tracks.len() > 0 {
        lemma_status_counts(tracks.drop_last(), access);
    }
}

proof fn lemma_no_path_matches(tracks: Seq<TrackView>, access: ServerLocalAccessView)
    requires
        prefix_matches(tracks, access) == 0,
        direct_matches(tracks, access) == 0,
    ensures
        path_matched_ids(tracks, access) == Set::<Seq<char>>::empty(),
    decreases tracks.len(),
{
    if tracks.len() > 0 {
        lemma_no_path_matches(tracks.drop_last(), access);
    }
}

/// A file that was matched or mapped is one track less that is unmatched.
pub proof fn matched_tracks_are_not_counted_as_unmatched(
    tracks: Seq<TrackView>,
    matches: Seq<TrackLocalMatchView>,
    access: ServerLocalAccessView,
    at: int,
)
    requires
        tracks.len() <= usize::MAX,
        0 <= at < tracks.len(),
        (tracks[at].local_path matches Some(raw) && mapped_path(raw, access) is Some) || (exists|
            i: int,
        |
            0 <= i < matches.len() && (#[trigger] matches[i]).track_id == tracks[at].id),
    ensures
        access_status(tracks, matches, access).unmatched_count < tracks.len(),
{
    lemma_matched_ids(tracks, access);
    lemma_metadata_ids(matches);
    let all = path_matched_ids(tracks, access).union(metadata_matched_ids(matches));
    assert(all.contains(tracks[at].id)) by {
        if tracks[at].local_path matches Some(raw) && mapped_path(raw, access) is Some {
            assert(is_prefix_match(tracks[at], access));
        }
    }
    assert(all.finite());
    assert(all.len() > 0);
}

proof fn lemma_matched_ids(tracks: Seq<TrackView>, access: ServerLocalAccessView)
    ensures
        path_matched_ids(tracks, access).finite(),
        forall|i: int|
            0 <= i < tracks.len() && is_prefix_match(#[trigger] tracks[i], access)
                ==> path_matched_ids(tracks, access).contains(tracks[i].id),
    decreases tracks.len(),
{
    if tracks.len() > 0 {
        let front = tracks.drop_last();
        lemma_matched_ids(front, access);
        assert forall|i: int|
            0 <= i < tracks.len() && is_prefix_match(
                #[trigger] tracks[i],
                access,
            ) implies path_matched_ids(tracks, access).contains(tracks[i].id) by {
            if i < front.len() {
                assert(front[i] == tracks[i]);
            }
        }
    }
}

proof fn lemma_metadata_ids(matches: Seq<TrackLocalMatchView>)
    ensures
        metadata_matched_ids(matches).finite(),
        forall|i: int|
            0 <= i < matches.len() ==> metadata_matched_ids(matches).contains(
                (#[trigger] matches[i]).track_id,
            ),
    decreases matches.len(),
{
    if matches.len() > 0 {
        let front = matches.drop_last();
        lemma_metadata_ids(front);
        assert forall|i: int| 0 <= i < matches.len() implies metadata_matched_ids(
            matches,
        ).contains((#[trigger] matches[i]).track_id) by {
            if i < front.len() {
                assert(front[i] == matches[i]);
            }
        }
    }
}

/// The path that stands for how a server's paths are mapped is one of its tracks', where any has
/// one, and a matched track is preferred, which is shown with the file that it is matched with.
pub proof fn samples_show_a_matched_track_first(
    tracks: Seq<TrackView>,
    matches: Seq<TrackLocalMatchView>,
    access: ServerLocalAccessView,
    at: int,
)
    requires
        0 <= at < tracks.len(),
        tracks[at].local_path matches Some(path) && !blank(path),
    ensures
        ({
            let status = access_status(tracks, matches, access);
            &&& exists|i: int|
                0 <= i < tracks.len() && (#[trigger] tracks[i]).local_path
                    == status.sample_server_path && status.sample_server_path is Some
            &&& path_of_match(matches, tracks[at].id) is Some ==> exists|i: int|
                0 <= i < tracks.len() && (#[trigger] tracks[i]).local_path
                    == status.sample_server_path && path_of_match(matches, tracks[i].id)
                    == status.sample_local_path && status.sample_local_path is Some
        }),
{
    let both = |track: TrackView| has_path(track) && path_of_match(matches, track.id) is Some;
    let with_path = |track: TrackView| has_path(track);
    crate::value::lemma_first_where_bounds(tracks, both);
    crate::value::lemma_first_where_bounds(tracks, with_path);
    assert(with_path(tracks[at]));
    let sample = sample_index(tracks, matches);
    let first = first_where(tracks, with_path);
    assert(first <= at) by {
        if first > at {
            assert(!with_path(tracks[at]));
        }
    }
    if path_of_match(matches, tracks[at].id) is Some {
        assert(both(tracks[at]));
        let found = first_where(tracks, both);
        if found > at {
            assert(!both(tracks[at]));
        }
        assert(both(tracks[sample]));
    }
    assert(0 <= sample < tracks.len());
    assert(tracks[sample].local_path is Some);
}

} // verus!
