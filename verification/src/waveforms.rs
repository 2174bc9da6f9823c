//! Waveforms: the keys that they are cached under, what they can be generated from, and
//! the permits that keep one from being generated twice.
use crate::key_set::KeySet;
use crate::model::ids::{ServerId, TrackId};
use crate::model::playback::{PlaybackSnapshot, PlaybackSnapshotView, PlaybackState};
use crate::model::queue::{QueueEntryView, QueueSnapshot, QueueSnapshotView};
use crate::model::settings::{PlaybackSettings, PlaybackSettingsView};
use crate::model::waveform::{
    WaveformGenerationKind, WaveformGenerationPermit, WaveformGenerationPermitView,
    WaveformWarmRequest, WaveformWarmRequestView,
};
use crate::text::{self, decimal};
use crate::value::Value;
use vstd::prelude::*;
use vstd::utf8::encode_utf8;

verus! {

pub const WAVEFORM_CACHE_VERSION: u8 = 1;

pub const WAVEFORM_WARM_QUEUE_LIMIT: usize = 4;

/// The MD5 digest of some bytes, as `md5::compute` gives it, in lower-case hexadecimal
/// digits.
pub uninterp spec fn md5_text(bytes: Seq<u8>) -> Seq<char>;

/// Whether a character is a lower-case hexadecimal digit.
pub open spec fn is_lower_hex(character: char) -> bool {
    ('0' <= character <= '9') || ('a' <= character <= 'f')
}

/// Calls `md5::compute` on the bytes of a text and writes the digest in hexadecimal. The
/// digest depends on the bytes alone; it has sixteen bytes, each written as two lower-case
/// digits.
#[verifier::external_body]
fn md5_hex(subject: &str) -> (result: String)
    ensures
        result@ == md5_text(encode_utf8(subject@)),
        result@.len() == 32,
        forall|i: int| 0 <= i < result@.len() ==> is_lower_hex(#[trigger] result@[i]),
{
    format!("{:x}", md5::compute(subject))
}

/// Whether a character may stand in a part of a cache key.
pub open spec fn is_key_char(character: char) -> bool {
    ||| 'a' <= character <= 'z'
    ||| 'A' <= character <= 'Z'
    ||| '0' <= character <= '9'
    ||| character == '-'
    ||| character == '_'
}

/// A text as a part of a cache key: characters that may not stand there become underscores.
pub open spec fn key_part(value: Seq<char>) -> Seq<char> {
    value.map_values(
        |character: char|
            if is_key_char(character) {
                character
            } else {
                '_'
            },
    )
}

/// A text as a part of a cache key.
pub fn encode_key_part(value: &str) -> (result: String)
    ensures
        result@ == key_part(value@),
{
    let characters: Vec<char> = text::chars(value);
    let mut result: String = String::new();
    let mut i: usize = 0;
    while i < characters.len()
        invariant
            i <= characters@.len(),
            characters@ == value@,
            result@ == key_part(value@).take(i as int),
        decreases characters.len() - i,
    {
        let c: char = characters[i];
        let kept: bool = ('a' <= c && c <= 'z') || ('A' <= c && c <= 'Z') || ('0' <= c && c <= '9')
            || c == '-' || c == '_';
        result.push(
            if kept {
                c
            } else {
                '_'
            },
        );
        assert(key_part(value@).take(i + 1) =~= key_part(value@).take(i as int).push(
            key_part(value@)[i as int],
        ));
        i += 1;
    }
    assert(key_part(value@).take(i as int) =~= key_part(value@));
    result
}

/// The key of a waveform, given the digest of its track.
pub open spec fn waveform_key_with(
    server_id: Seq<char>,
    digest: Seq<char>,
    duration_seconds: u32,
) -> Seq<char> {
    key_part(server_id) + seq!['/'] + digest + seq!['-'] + decimal(duration_seconds as nat)
        + ".json"@
}

/// The key of a waveform.
pub open spec fn waveform_key(
    server_id: Seq<char>,
    track_id: Seq<char>,
    duration_seconds: u32,
) -> Seq<char> {
    waveform_key_with(server_id, md5_text(encode_utf8(track_id)), duration_seconds)
}

/// The key of a waveform, given the digest of its track.
pub fn waveform_cache_key_with(server_id: &ServerId, digest: &str, duration_seconds: u32) -> (
result: String)
    ensures
        result@ == waveform_key_with(server_id.deep_view(), digest@, duration_seconds),
{
    let mut result: String = encode_key_part(server_id.as_str());
    result.push('/');
    result.push_str(digest);
    result.push('-');
    result.push_str(text::decimal_text(duration_seconds as u64).as_str());
    result.push_str(".json");
    assert(result@ =~= waveform_key_with(server_id.deep_view(), digest@, duration_seconds));
    result
}

/// The key of a waveform: a part for the server, a digest of the track, and the duration.
pub fn waveform_cache_key(server_id: &ServerId, track_id: &TrackId, duration_seconds: u32) -> (
result: String)
    ensures
        result@ == waveform_key(server_id.deep_view(), track_id.deep_view(), duration_seconds),
        forall|i: int|
            0 <= i < result@.len() ==> is_key_char(#[trigger] result@[i]) || result@[i] == '/'
                || result@[i] == '.',
{
    let digest: String = md5_hex(track_id.as_str());
    let result: String = waveform_cache_key_with(server_id, digest.as_str(), duration_seconds);
    proof {
        lemma_decimal_digits(duration_seconds as nat);
        reveal_strlit(".json");
        let part = key_part(server_id.deep_view());
        let number = decimal(duration_seconds as nat);
        assert forall|i: int| 0 <= i < result@.len() implies is_key_char(#[trigger] result@[i])
            || result@[i] == '/' || result@[i] == '.' by {
            let a = part.len() as int;
            let b = a + 1 + digest@.len();
            let c = b + 1 + number.len();
            if i < a {
                assert(result@[i] == part[i]);
            } else if a < i < b {
                assert(result@[i] == digest@[i - a - 1]);
            } else if b < i < c {
                assert(result@[i] == number[i - b - 1]);
            } else if c <= i {
                assert(result@[i] == ".json"@[i - c]);
            }
        }
    }
    result
}

proof fn lemma_decimal_digits(number: nat)
    ensures
        forall|i: int|
            0 <= i < decimal(number).len() ==> text::is_digit(#[trigger] decimal(number)[i]),
    decreases number,
{
    if number >= 10 {
        let front = decimal(number / 10);
        lemma_decimal_digits(number / 10);
        assert(text::is_digit(text::digit_char(number % 10)));
        assert forall|i: int| 0 <= i < decimal(number).len() implies text::is_digit(
            #[trigger] decimal(number)[i],
        ) by {
            if i < front.len() {
                assert(decimal(number)[i] == front[i]);
            }
        }
    } else {
        assert(text::is_digit(text::digit_char(number)));
    }
}

/// On one server and for one duration, keys are the same only where the digests of the
/// tracks are.
pub proof fn keys_tell_digests_apart(
    server_id: Seq<char>,
    digest: Seq<char>,
    other_digest: Seq<char>,
    duration_seconds: u32,
)
    requires
        digest.len() == other_digest.len(),
        waveform_key_with(server_id, digest, duration_seconds) == waveform_key_with(
            server_id,
            other_digest,
            duration_seconds,
        ),
    ensures
        digest == other_digest,
{
    let start = key_part(server_id).len() + 1;
    let key = waveform_key_with(server_id, digest, duration_seconds);
    let other = waveform_key_with(server_id, other_digest, duration_seconds);
    assert(key.subrange(start as int, (start + digest.len()) as int) =~= digest);
    assert(other.subrange(start as int, (start + digest.len()) as int) =~= other_digest);
}

/// Whether a stream is a file on this machine.
pub open spec fn is_local_source(uri: Seq<char>) -> bool {
    "file://"@.is_prefix_of(uri)
}

/// Whether a stream comes over the network.
pub open spec fn is_remote_source(uri: Seq<char>) -> bool {
    "http://"@.is_prefix_of(uri) || "https://"@.is_prefix_of(uri)
}

pub fn waveform_generation_source_is_local(uri: &str) -> (result: bool)
    ensures
        result == is_local_source(uri@),
{
    text::starts_with(uri, "file://")
}

pub fn waveform_generation_source_is_remote(uri: &str) -> (result: bool)
    ensures
        result == is_remote_source(uri@),
{
    text::starts_with(uri, "http://") || text::starts_with(uri, "https://")
}

pub fn waveform_generation_source_is_supported(uri: &str) -> (result: bool)
    ensures
        result == (is_local_source(uri@) || is_remote_source(uri@)),
{
    waveform_generation_source_is_local(uri) || waveform_generation_source_is_remote(uri)
}

/// The lower case of an ASCII letter; another character stays.
pub open spec fn ascii_lower(character: char) -> char {
    if 'A' <= character <= 'Z' {
        ((character as u32) + 32) as char
    } else {
        character
    }
}

/// Whether a character is an ASCII letter or digit.
pub open spec fn is_ascii_word_char(character: char) -> bool {
    ('a' <= character <= 'z') || ('A' <= character <= 'Z') || ('0' <= character <= '9')
}

/// Whether a word, in lower case, names a format of direct stream digital audio.
pub open spec fn is_dsd_word(word: Seq<char>) -> bool {
    word == "dsf"@ || word == "dff"@ || word == "dsdiff"@ || "dsd"@.is_prefix_of(word)
}

/// The words of a format name in lower case: its longest runs of ASCII letters and digits,
/// after the word begun in `open`.
pub open spec fn format_words(value: Seq<char>, open: Seq<char>) -> Seq<Seq<char>>
    decreases value.len(),
{
    if value.len() == 0 {
        if open.len() == 0 {
            Seq::empty()
        } else {
            seq![open]
        }
    } else if is_ascii_word_char(value[0]) {
        format_words(value.drop_first(), open.push(ascii_lower(value[0])))
    } else if open.len() == 0 {
        format_words(value.drop_first(), Seq::empty())
    } else {
        seq![open] + format_words(value.drop_first(), Seq::empty())
    }
}

/// Whether any of the words names a format of direct stream digital audio.
pub open spec fn any_dsd_word(words: Seq<Seq<char>>) -> bool
    decreases words.len(),
{
    words.len() > 0 && (is_dsd_word(words[0]) || any_dsd_word(words.drop_first()))
}

/// Whether a format name speaks of direct stream digital audio.
pub open spec fn is_dsd_format(value: Seq<char>) -> bool {
    any_dsd_word(format_words(value, Seq::empty()))
}

fn dsd_word(word: &str) -> (result: bool)
    ensures
        result == is_dsd_word(word@),
{
    let word_text: String = text::owned(word);
    word_text.same(&text::owned("dsf")) || word_text.same(&text::owned("dff")) || word_text.same(
        &text::owned("dsdiff"),
    ) || text::starts_with(word, "dsd")
}

pub fn lower_ascii(c: char) -> (result: char)
    ensures
        result == ascii_lower(c),
{
    if 'A' <= c && c <= 'Z' {
        (c as u8 + 32) as char
    } else {
        c
    }
}

/// Whether a format name speaks of direct stream digital audio.
pub fn is_dsd_waveform_format(value: &str) -> (result: bool)
    ensures
        result == is_dsd_format(value@),
{
    let characters: Vec<char> = text::chars(value);
    let mut open: String = String::new();
    let mut is_open: bool = false;
    let mut i: usize = 0;
    assert(characters@.skip(0) =~= characters@);
    while i < characters.len()
        invariant
            i <= characters@.len(),
            is_open == (open@.len() > 0),
            is_dsd_format(value@) == any_dsd_word(format_words(characters@.skip(i as int), open@)),
        decreases characters.len() - i,
    {
        let ghost rest = characters@.skip(i as int);
        assert(rest.drop_first() =~= characters@.skip(i + 1));
        let c: char = characters[i];
        if ('a' <= c && c <= 'z') || ('A' <= c && c <= 'Z') || ('0' <= c && c <= '9') {
            open.push(lower_ascii(c));
            is_open = true;
        } else if is_open {
            let ghost tail = format_words(rest.drop_first(), Seq::empty());
            assert((seq![open@] + tail).drop_first() =~= tail);
            if dsd_word(open.as_str()) {
                return true;
            }
            open = String::new();
            is_open = false;
            assert(open@ =~= Seq::empty());
        } else {
            assert(open@ =~= Seq::empty());
        }
        i += 1;
    }
    assert(characters@.skip(i as int).len() == 0);
    assert(seq![open@].drop_first() =~= Seq::<Seq<char>>::empty());
    assert(!any_dsd_word(Seq::<Seq<char>>::empty()));
    is_open && dsd_word(open.as_str())
}

/// Whether a waveform can be generated from audio of a format.
pub open spec fn format_supported(source_format: Option<Seq<char>>) -> bool {
    match source_format {
        Some(format) => !is_dsd_format(format),
        None => true,
    }
}

pub fn waveform_generation_format_is_supported(source_format: Option<&str>) -> (result: bool)
    ensures
        result == format_supported(source_format.deep_view()),
{
    match source_format {
        Some(format) => !is_dsd_waveform_format(format),
        None => true,
    }
}

/// Whether a waveform can be generated from a stream of a format.
pub fn waveform_generation_source_and_format_is_supported(
    uri: &str,
    source_format: Option<&str>,
) -> (result: bool)
    ensures
        result == ((is_local_source(uri@) || is_remote_source(uri@)) && format_supported(
            source_format.deep_view(),
        )),
{
    waveform_generation_source_is_supported(uri) && waveform_generation_format_is_supported(
        source_format,
    )
}

/// Whether the network may be used to make a waveform ready: not while playback is itself
/// waiting for it.
pub fn remote_waveform_warm_can_run(snapshot: &PlaybackSnapshot) -> (result: bool)
    ensures
        result == (snapshot.deep_view().state != PlaybackState::Buffering
            && snapshot.deep_view().buffering_percent is None),
{
    snapshot.state != PlaybackState::Buffering && snapshot.buffering_percent.is_none()
}

/// The request that makes the waveform of a queue entry ready.
pub open spec fn warm_request(
    server_id: Seq<char>,
    entry: QueueEntryView,
    settings: PlaybackSettingsView,
) -> WaveformWarmRequestView {
    WaveformWarmRequestView {
        server_id,
        track_id: entry.track_id,
        duration_seconds: entry.duration_seconds,
        source_format: entry.source_format,
        playback_settings: settings,
    }
}

/// The requests for some queue entries; those of unknown duration have none.
pub open spec fn warm_requests(
    server_id: Seq<char>,
    entries: Seq<QueueEntryView>,
    settings: PlaybackSettingsView,
) -> Seq<WaveformWarmRequestView>
    decreases entries.len(),
{
    if entries.len() == 0 {
        Seq::empty()
    } else {
        let before = warm_requests(server_id, entries.drop_last(), settings);
        if entries.last().duration_seconds > 0 {
            before.push(warm_request(server_id, entries.last(), settings))
        } else {
            before
        }
    }
}

/// The entries that come up next in a queue, at most `limit` of them.
pub open spec fn upcoming(snapshot: QueueSnapshotView, limit: usize) -> Seq<QueueEntryView> {
    let start = match snapshot.current_index {
        Some(index) => index + 1,
        None => 0,
    };
    let count = snapshot.entries.len();
    if start >= count {
        Seq::empty()
    } else if start + limit < count {
        snapshot.entries.subrange(start, start + limit)
    } else {
        snapshot.entries.skip(start)
    }
}

/// The requests for the entries that come up next in a queue.
pub fn waveform_warm_requests(
    snapshot: &QueueSnapshot,
    playback_settings: &PlaybackSettings,
    limit: usize,
) -> (result: Vec<WaveformWarmRequest>)
    ensures
        result.deep_view() == warm_requests(
            snapshot.deep_view().server_id,
            upcoming(snapshot.deep_view(), limit),
            playback_settings.deep_view(),
        ),
{
    let ghost server_id = snapshot.deep_view().server_id;
    let ghost settings = playback_settings.deep_view();
    let ghost next = upcoming(snapshot.deep_view(), limit);
    let count: usize = snapshot.entries.len();
    let start: usize = match snapshot.current_index {
        Some(index) => if index < count {
            index + 1
        } else {
            count
        },
        None => 0,
    };
    let end: usize = if limit < count - start {
        start + limit
    } else {
        count
    };
    assert(next =~= snapshot.deep_view().entries.subrange(start as int, end as int));
    let mut result: Vec<WaveformWarmRequest> = Vec::new();
    let mut i: usize = start;
    assert(next.take(0) =~= Seq::empty());
    assert(result.deep_view() =~= Seq::empty());
    while i < end
        invariant
            start <= i <= end <= snapshot.entries@.len(),
            server_id == snapshot.deep_view().server_id,
            settings == playback_settings.deep_view(),
            next == snapshot.deep_view().entries.subrange(start as int, end as int),
            result.deep_view() == warm_requests(server_id, next.take(i - start), settings),
        decreases end - i,
    {
        let ghost before = result.deep_view();
        assert(next.take(i - start + 1).drop_last() =~= next.take(i - start));
        assert(next.take(i - start + 1).last() == snapshot.entries@[i as int].deep_view());
        if snapshot.entries[i].duration_seconds > 0 {
            let request: WaveformWarmRequest = WaveformWarmRequest {
                server_id: snapshot.server_id.copy(),
                track_id: snapshot.entries[i].track_id.copy(),
                duration_seconds: snapshot.entries[i].duration_seconds,
                source_format: snapshot.entries[i].source_format.copy(),
                playback_settings: playback_settings.copy(),
            };
            result.push(request);
            assert(result.deep_view() =~= before.push(request.deep_view()));
        }
        i += 1;
    }
    assert(next.take(i - start) =~= next);
    result
}

/// At most as many waveforms are made ready ahead of time as the limit says.
pub proof fn warm_requests_are_capped(
    snapshot: QueueSnapshotView,
    settings: PlaybackSettingsView,
    limit: usize,
)
    ensures
        warm_requests(snapshot.server_id, upcoming(snapshot, limit), settings).len() <= limit,
{
    lemma_warm_requests_len(snapshot.server_id, upcoming(snapshot, limit), settings);
}

proof fn lemma_warm_requests_len(
    server_id: Seq<char>,
    entries: Seq<QueueEntryView>,
    settings: PlaybackSettingsView,
)
    ensures
        warm_requests(server_id, entries, settings).len() <= entries.len(),
    decreases entries.len(),
{
    if entries.len() > 0 {
        lemma_warm_requests_len(server_id, entries.drop_last(), settings);
    }
}

/// The waveforms that are being generated, separately for those wanted now and those made
/// ready ahead of time.
#[derive(Clone, Debug, PartialEq, Eq)]
pub struct WaveformPermits {
    pub foreground: KeySet,
    pub warm: KeySet,
}

/// The contents of [`WaveformPermits`].
pub struct WaveformPermitsView {
    pub foreground: Set<Seq<char>>,
    pub warm: Set<Seq<char>>,
}

impl DeepView for WaveformPermits {
    type V = WaveformPermitsView;

    open spec fn deep_view(&self) -> WaveformPermitsView {
        WaveformPermitsView {
            foreground: self.foreground.deep_view(),
            warm: self.warm.deep_view(),
        }
    }
}

impl WaveformPermitsView {
    /// The keys that are being generated for a purpose.
    pub open spec fn in_flight(self, kind: WaveformGenerationKind) -> Set<Seq<char>> {
        match kind {
            WaveformGenerationKind::Foreground => self.foreground,
            WaveformGenerationKind::Warm => self.warm,
        }
    }

    /// The permits with other keys for a purpose.
    pub open spec fn with_in_flight(
        self,
        kind: WaveformGenerationKind,
        keys: Set<Seq<char>>,
    ) -> WaveformPermitsView {
        match kind {
            WaveformGenerationKind::Foreground => WaveformPermitsView { foreground: keys, ..self },
            WaveformGenerationKind::Warm => WaveformPermitsView { warm: keys, ..self },
        }
    }
}

impl WaveformPermits {
    pub fn new() -> (result: WaveformPermits)
        ensures
            result.deep_view() == (WaveformPermitsView {
                foreground: Set::empty(),
                warm: Set::empty(),
            }),
    {
        WaveformPermits { foreground: KeySet::new(), warm: KeySet::new() }
    }

    /// Tries to begin generating a waveform: a permit unless it is being generated for the
    /// same purpose already.
    pub fn acquire_waveform_generation_permit(
        &mut self,
        cache_key: &str,
        kind: WaveformGenerationKind,
    ) -> (result: Option<WaveformGenerationPermit>)
        ensures
            result.deep_view() == (if old(self).deep_view().in_flight(kind).contains(cache_key@) {
                None
            } else {
                Some(WaveformGenerationPermitView { cache_key: cache_key@, kind })
            }),
            final(self).deep_view() == old(self).deep_view().with_in_flight(
                kind,
                old(self).deep_view().in_flight(kind).insert(cache_key@),
            ),
    {
        let new: bool = match kind {
            WaveformGenerationKind::Foreground => self.foreground.insert(cache_key),
            WaveformGenerationKind::Warm => self.warm.insert(cache_key),
        };
        if new {
            Some(WaveformGenerationPermit { cache_key: text::owned(cache_key), kind })
        } else {
            None
        }
    }

    /// Gives a permit back.
    pub fn release(&mut self, permit: WaveformGenerationPermit)
        ensures
            final(self).deep_view() == old(self).deep_view().with_in_flight(
                permit.kind,
                old(self).deep_view().in_flight(permit.kind).remove(permit.deep_view().cache_key),
            ),
    {
        match permit.kind {
            WaveformGenerationKind::Foreground => {
                let _removed: bool = self.foreground.remove(permit.cache_key.as_str());
            },
            WaveformGenerationKind::Warm => {
                let _removed: bool = self.warm.remove(permit.cache_key.as_str());
            },
        }
    }
}

/// A key is generated at most once at a time for a purpose, whatever happens for the other
/// purpose, and can be generated again once its permit was given back.
pub proof fn permits_are_exclusive(
    permits: WaveformPermitsView,
    key: Seq<char>,
    kind: WaveformGenerationKind,
    other: WaveformGenerationKind,
)
    requires
        kind != other,
    ensures
        ({
            let taken = permits.with_in_flight(kind, permits.in_flight(kind).insert(key));
            let back = taken.with_in_flight(kind, taken.in_flight(kind).remove(key));
            &&& taken.in_flight(kind).contains(key)
            &&& taken.in_flight(other) == permits.in_flight(other)
            &&& !back.in_flight(kind).contains(key)
            &&& back.in_flight(other) == permits.in_flight(other)
        }),
{
}

/// The waveform part of a player's state once the key of its track is known: a waveform of
/// another key is dropped.
pub open spec fn with_waveform_key(
    snapshot: PlaybackSnapshotView,
    key: Option<Seq<char>>,
) -> PlaybackSnapshotView {
    if snapshot.waveform_cache_key == key {
        snapshot
    } else {
        PlaybackSnapshotView { waveform_cache_key: key, waveform: None, ..snapshot }
    }
}

/// Whether the waveform of a player's state is still to be read from the cache.
pub open spec fn waveform_is_wanted(snapshot: PlaybackSnapshotView) -> bool {
    snapshot.waveform_cache_key is Some && snapshot.waveform is None
}

/// Notes the key of the track that is played; tells whether its waveform is still to be
/// read from the cache.
pub fn set_waveform_cache_key(snapshot: &mut PlaybackSnapshot, key: Option<String>) -> (wanted:
    bool)
    ensures
        final(snapshot).deep_view() == with_waveform_key(
            old(snapshot).deep_view(),
            key.deep_view(),
        ),
        wanted == waveform_is_wanted(final(snapshot).deep_view()),
{
    if !snapshot.waveform_cache_key.same(&key) {
        snapshot.waveform_cache_key = key;
        snapshot.waveform = None;
    }
    snapshot.waveform_cache_key.is_some() && snapshot.waveform.is_none()
}

/// Takes a waveform into the player's state where it is that of the track that is played;
/// tells whether it was taken.
pub fn take_waveform(snapshot: &mut PlaybackSnapshot, cache_key: &str, waveform: u64) -> (taken:
    bool)
    ensures
        taken == (old(snapshot).deep_view().waveform_cache_key == Some(cache_key@)),
        final(snapshot).deep_view() == (if taken {
            PlaybackSnapshotView { waveform: Some(waveform), ..old(snapshot).deep_view() }
        } else {
            old(snapshot).deep_view()
        }),
{
    let current: bool = match &snapshot.waveform_cache_key {
        Some(key) => key.same(&text::owned(cache_key)),
        None => false,
    };
    if current {
        snapshot.waveform = Some(waveform);
    }
    current
}

/// Whether a cached waveform may be used: it has the version and the duration expected.
pub fn cached_waveform_is_current(version: u8, cached_duration: u32, duration_seconds: u32) -> (
result: bool)
    ensures
        result == (version == WAVEFORM_CACHE_VERSION && cached_duration == duration_seconds),
{
    version == WAVEFORM_CACHE_VERSION && cached_duration == duration_seconds
}

/// The entries that come next are those right after the current one, in the order of the
/// queue, as many as are wanted.
pub proof fn upcoming_entries_follow_the_current_one(snapshot: QueueSnapshotView, limit: usize)
    ensures
        ({
            let start = match snapshot.current_index {
                Some(at) => at + 1,
                None => 0,
            };
            let next = upcoming(snapshot, limit);
            &&& next.len() == (if start >= snapshot.entries.len() {
                0
            } else if snapshot.entries.len() - start < limit {
                snapshot.entries.len() - start
            } else {
                limit as int
            })
            &&& forall|i: int|
                0 <= i < next.len() ==> #[trigger] next[i] == snapshot.entries[start + i]
        }),
{
}

/// A waveform is made ahead for each entry whose duration is known, and for no other.
pub proof fn waveforms_are_made_for_known_durations(
    server_id: Seq<char>,
    entries: Seq<QueueEntryView>,
    settings: PlaybackSettingsView,
)
    ensures
        ({
            let timed = entries.filter(|entry: QueueEntryView| entry.duration_seconds > 0);
            let requests = warm_requests(server_id, entries, settings);
            &&& requests.len() == timed.len()
            &&& forall|i: int|
                0 <= i < timed.len() ==> (#[trigger] requests[i]).track_id == timed[i].track_id
                    && requests[i].duration_seconds == timed[i].duration_seconds
                    && requests[i].source_format == timed[i].source_format
                    && requests[i].server_id == server_id
        }),
    decreases entries.len(),
{
    reveal(Seq::filter);
    if entries.len() > 0 {
        waveforms_are_made_for_known_durations(server_id, entries.drop_last(), settings);
    }
}

/// The waveform of another track is not that of this one: with another key it is to be read
/// anew, with the same one it stays; nothing else of the player's state changes.
pub proof fn waveforms_stay_with_their_key(
    snapshot: PlaybackSnapshotView,
    key: Option<Seq<char>>,
)
    ensures
        with_waveform_key(snapshot, key).waveform_cache_key == key,
        key == snapshot.waveform_cache_key ==> with_waveform_key(snapshot, key) == snapshot,
        key != snapshot.waveform_cache_key ==> with_waveform_key(snapshot, key) == (
        PlaybackSnapshotView { waveform_cache_key: key, waveform: None, ..snapshot }),
{
}

/// Formats of one-bit audio are told by a word of their name, whatever its case and whatever
/// stands around it.
pub proof fn one_bit_formats_are_told_by_a_word(
    before: Seq<char>,
    word: Seq<char>,
    after: Seq<char>,
)
    requires
        word.len() > 0,
        forall|i: int| 0 <= i < word.len() ==> is_ascii_word_char(#[trigger] word[i]),
        ({
            let lower = word.map_values(|character: char| ascii_lower(character));
            lower == "dsf"@ || lower == "dff"@ || lower == "dsdiff"@ || "dsd"@.is_prefix_of(lower)
        }),
    ensures
        is_dsd_format(before + seq![' '] + word + seq![' '] + after),
        !format_supported(Some(before + seq![' '] + word + seq![' '] + after)),
        format_supported(None),
{
    let lower = word.map_values(|character: char| ascii_lower(character));
    let none = Seq::<char>::empty();
    let tail = word + seq![' '] + after;
    lemma_format_words_apart(before, tail, none);
    lemma_format_words_apart(word, after, none);
    lemma_one_format_word(word, none);
    assert(none + lower =~= lower);
    let all = before + seq![' '] + word + seq![' '] + after;
    assert(all =~= before + seq![' '] + tail);
    let front = format_words(before, none);
    let words = format_words(all, none);
    assert(words =~= front + (seq![lower] + format_words(after, none)));
    assert(words[front.len() as int] == lower);
    lemma_any_dsd_word(words, front.len() as int);
}

proof fn lemma_any_dsd_word(words: Seq<Seq<char>>, at: int)
    requires
        0 <= at < words.len(),
        is_dsd_word(words[at]),
    ensures
        any_dsd_word(words),
    decreases words.len(),
{
    if at > 0 {
        assert(words.drop_first()[at - 1] == words[at]);
        lemma_any_dsd_word(words.drop_first(), at - 1);
    }
}

proof fn lemma_format_words_apart(before: Seq<char>, after: Seq<char>, open: Seq<char>)
    ensures
        format_words(before + seq![' '] + after, open) == format_words(before, open)
            + format_words(after, Seq::empty()),
    decreases before.len(),
{
    let all = before + seq![' '] + after;
    let tail = format_words(after, Seq::empty());
    if before.len() == 0 {
        assert(all.drop_first() =~= after);
        assert(all[0] == ' ');
        assert(Seq::<Seq<char>>::empty() + tail =~= tail);
    } else {
        assert(all.drop_first() =~= before.drop_first() + seq![' '] + after);
        assert(all[0] == before[0]);
        if is_ascii_word_char(before[0]) {
            lemma_format_words_apart(
                before.drop_first(),
                after,
                open.push(ascii_lower(before[0])),
            );
        } else {
            lemma_format_words_apart(before.drop_first(), after, Seq::empty());
            let rest = format_words(before.drop_first(), Seq::empty());
            assert(seq![open] + (rest + tail) =~= (seq![open] + rest) + tail);
        }
    }
}

proof fn lemma_one_format_word(word: Seq<char>, open: Seq<char>)
    requires
        open.len() + word.len() > 0,
        forall|i: int| 0 <= i < word.len() ==> is_ascii_word_char(#[trigger] word[i]),
    ensures
        format_words(word, open) == seq![
            open + word.map_values(|character: char| ascii_lower(character)),
        ],
    decreases word.len(),
{
    let lower = word.map_values(|character: char| ascii_lower(character));
    if word.len() > 0 {
        let rest = word.drop_first();
        assert forall|i: int| 0 <= i < rest.len() implies is_ascii_word_char(
            #[trigger] rest[i],
        ) by {
            assert(word[i + 1] == rest[i]);
        }
        lemma_one_format_word(rest, open.push(ascii_lower(word[0])));
        assert(open.push(ascii_lower(word[0])) + rest.map_values(
            |character: char| ascii_lower(character),
        ) =~= open + lower);
    } else {
        assert(open + lower =~= open);
    }
}

} // verus!
