//! References to artwork outside the library's own sources.
//!
//! An album without a cover of its own can be given a synthetic image reference that
//! names its artist and title; the reference can be read back when the cover is looked up.
use crate::model::library::{
    Album, AlbumView, Artist, ArtistView, HomeSection, HomeSectionView, ImageRef, ImageRefView,
    SearchResults, SearchResultsView, Track, TrackView,
};
use crate::model::queue::{QueueEntry, QueueEntryView, QueueSnapshot, QueueSnapshotView};
use crate::model::settings::{AppSettings, AppSettingsView};
use crate::text;
use crate::value::Value;
use vstd::prelude::*;
use vstd::string::StringSliceAdditionalSpecFns;
use vstd::utf8::{
    decode_utf8, encode_utf8, encode_utf8_decode_utf8, encode_utf8_valid_utf8, is_ascii_chars,
    is_ascii_chars_encode_utf8, valid_utf8,
};

verus! {

pub const EXTERNAL_ALBUM_IMAGE_PREFIX: &'static str = "external:album:";

pub const EXTERNAL_ARTIST_IMAGE_PREFIX: &'static str = "external:artist:";

pub const EXTERNAL_RELEASE_IMAGE_PREFIX: &'static str = "external:mb-release";

pub const EXTERNAL_ALBUM_IMAGE_TAG_VERSION: &'static str = "external-v1";

/// The artist and title that a synthetic album reference names.
#[derive(Clone, Debug, PartialEq, Eq)]
pub struct ExternalAlbumArt {
    pub artist: String,
    pub album: String,
}

/// The contents of an [`ExternalAlbumArt`].
#[verifier::ext_equal]
pub struct ExternalAlbumArtView {
    pub artist: Seq<char>,
    pub album: Seq<char>,
}

impl DeepView for ExternalAlbumArt {
    type V = ExternalAlbumArtView;

    open spec fn deep_view(&self) -> ExternalAlbumArtView {
        ExternalAlbumArtView { artist: self.artist@, album: self.album@ }
    }
}

/// Whether artwork may be looked up outside the library's sources.
pub open spec fn lookups_enabled(settings: AppSettingsView) -> bool {
    settings.external_metadata_enabled && !settings.private_mode
}

/// Whether artwork may be looked up outside the library's sources.
pub fn enabled(settings: &AppSettings) -> (result: bool)
    ensures
        result == lookups_enabled(settings.deep_view()),
{
    settings.external_metadata_enabled && !settings.private_mode
}

/// Whether a reference names artwork outside the library's sources.
pub open spec fn is_external(image_ref: ImageRefView) -> bool {
    ||| EXTERNAL_ALBUM_IMAGE_PREFIX@.is_prefix_of(image_ref.item_id)
    ||| EXTERNAL_ARTIST_IMAGE_PREFIX@.is_prefix_of(image_ref.item_id)
    ||| EXTERNAL_RELEASE_IMAGE_PREFIX@.is_prefix_of(image_ref.item_id)
}

/// Whether a reference names artwork outside the library's sources.
pub fn is_external_image_ref(image_ref: &ImageRef) -> (result: bool)
    ensures
        result == is_external(image_ref.deep_view()),
{
    text::starts_with(image_ref.item_id.as_str(), EXTERNAL_ALBUM_IMAGE_PREFIX)
        || text::starts_with(image_ref.item_id.as_str(), EXTERNAL_ARTIST_IMAGE_PREFIX)
        || text::starts_with(image_ref.item_id.as_str(), EXTERNAL_RELEASE_IMAGE_PREFIX)
}

/// Whether a reference names an artist's image outside the library's sources.
pub fn is_external_artist_image_ref(image_ref: &ImageRef) -> (result: bool)
    ensures
        result == EXTERNAL_ARTIST_IMAGE_PREFIX@.is_prefix_of(image_ref.deep_view().item_id),
{
    text::starts_with(image_ref.item_id.as_str(), EXTERNAL_ARTIST_IMAGE_PREFIX)
}

/// Whether a byte stands for itself in an encoded component.
pub open spec fn is_plain_byte(byte: u8) -> bool {
    ||| 'A' as u8 <= byte <= 'Z' as u8
    ||| 'a' as u8 <= byte <= 'z' as u8
    ||| '0' as u8 <= byte <= '9' as u8
    ||| byte == '-' as u8
    ||| byte == '_' as u8
    ||| byte == '.' as u8
    ||| byte == '~' as u8
}

/// The upper-case hexadecimal digit of a number below sixteen.
pub open spec fn upper_hex(digit: u8) -> u8 {
    if digit < 10 {
        (48 + digit) as u8
    } else {
        (55 + digit) as u8
    }
}

/// What one byte becomes in an encoded component.
pub open spec fn encoded_byte(byte: u8) -> Seq<u8> {
    if is_plain_byte(byte) {
        seq![byte]
    } else {
        seq!['%' as u8, upper_hex(byte / 16), upper_hex(byte % 16)]
    }
}

/// Bytes in percent encoding.
pub open spec fn percent_encoded(bytes: Seq<u8>) -> Seq<u8>
    decreases bytes.len(),
{
    if bytes.len() == 0 {
        Seq::empty()
    } else {
        encoded_byte(bytes[0]) + percent_encoded(bytes.drop_first())
    }
}

/// The number that a hexadecimal digit stands for.
pub open spec fn hex_digit_value(byte: u8) -> Option<u8> {
    if '0' as u8 <= byte <= '9' as u8 {
        Some((byte - 48) as u8)
    } else if 'a' as u8 <= byte <= 'f' as u8 {
        Some((byte - 87) as u8)
    } else if 'A' as u8 <= byte <= 'F' as u8 {
        Some((byte - 55) as u8)
    } else {
        None
    }
}

/// The bytes that percent-encoded bytes stand for, where every escape is complete.
pub open spec fn percent_decoded(bytes: Seq<u8>) -> Option<Seq<u8>>
    decreases bytes.len(),
{
    if bytes.len() == 0 {
        Some(Seq::empty())
    } else if bytes[0] != '%' as u8 {
        match percent_decoded(bytes.drop_first()) {
            Some(rest) => Some(seq![bytes[0]] + rest),
            None => None,
        }
    } else if bytes.len() < 3 {
        None
    } else {
        match (
            hex_digit_value(bytes[1]),
            hex_digit_value(bytes[2]),
            percent_decoded(bytes.skip(3)),
        ) {
            (Some(high), Some(low), Some(rest)) => Some(seq![(high * 16 + low) as u8] + rest),
            _ => None,
        }
    }
}

/// The text that has the given ASCII bytes.
pub open spec fn ascii_text(bytes: Seq<u8>) -> Seq<char> {
    Seq::new(bytes.len(), |i: int| bytes[i] as char)
}

/// A text in percent encoding.
pub open spec fn encoded_component(text: Seq<char>) -> Seq<char> {
    ascii_text(percent_encoded(encode_utf8(text)))
}

/// The text that a percent-encoded text stands for.
pub open spec fn decoded_component(text: Seq<char>) -> Option<Seq<char>> {
    match percent_decoded(encode_utf8(text)) {
        Some(bytes) => if valid_utf8(bytes) {
            Some(decode_utf8(bytes))
        } else {
            None
        },
        None => None,
    }
}

proof fn lemma_encoding_is_ascii(bytes: Seq<u8>)
    ensures
        forall|i: int|
            0 <= i < percent_encoded(bytes).len() ==> #[trigger] percent_encoded(bytes)[i] < 128
                && percent_encoded(bytes)[i] != ':' as u8,
    decreases bytes.len(),
{
    if bytes.len() > 0 {
        let all = percent_encoded(bytes);
        let head = encoded_byte(bytes[0]);
        let tail = percent_encoded(bytes.drop_first());
        lemma_encoding_is_ascii(bytes.drop_first());
        assert forall|i: int| 0 <= i < all.len() implies #[trigger] all[i] < 128 && all[i]
            != ':' as u8 by {
            if i < head.len() {
                assert(all[i] == head[i]);
            } else {
                assert(all[i] == tail[i - head.len()]);
            }
        }
    }
}

/// What the encoding of a text is decoded to is the text itself.
pub proof fn percent_decoding_undoes_encoding(bytes: Seq<u8>)
    ensures
        percent_decoded(percent_encoded(bytes)) == Some(bytes),
    decreases bytes.len(),
{
    if bytes.len() > 0 {
        let byte = bytes[0];
        let rest = bytes.drop_first();
        let all = percent_encoded(bytes);
        percent_decoding_undoes_encoding(rest);
        if is_plain_byte(byte) {
            assert(all.drop_first() =~= percent_encoded(rest));
        } else {
            assert(all.skip(3) =~= percent_encoded(rest));
            assert(hex_digit_value(all[1]) == Some((byte / 16) as u8));
            assert(hex_digit_value(all[2]) == Some((byte % 16) as u8));
        }
        assert(seq![byte] + rest =~= bytes);
    } else {
        assert(bytes =~= Seq::empty());
    }
}

/// A component reads back as the text that was encoded, whatever the text.
pub proof fn component_round_trip(text: Seq<char>)
    ensures
        decoded_component(encoded_component(text)) == Some(text),
        !encoded_component(text).contains(':'),
{
    let bytes = encode_utf8(text);
    let encoded = percent_encoded(bytes);
    lemma_encoding_is_ascii(bytes);
    assert(is_ascii_chars(ascii_text(encoded)));
    is_ascii_chars_encode_utf8(ascii_text(encoded));
    assert(encode_utf8(ascii_text(encoded)) =~= encoded);
    percent_decoding_undoes_encoding(bytes);
    encode_utf8_valid_utf8(text);
    encode_utf8_decode_utf8(text);
}

fn push_encoded_byte(encoded: &mut String, byte: u8)
    ensures
        final(encoded)@ == old(encoded)@ + ascii_text(encoded_byte(byte)),
{
    let plain: bool = (65 <= byte && byte <= 90) || (97 <= byte && byte <= 122) || (48 <= byte
        && byte <= 57) || byte == 45 || byte == 95 || byte == 46 || byte == 126;
    if plain {
        encoded.push(byte as char);
    } else {
        encoded.push('%');
        encoded.push(upper_hex_digit(byte / 16));
        encoded.push(upper_hex_digit(byte % 16));
    }
    assert(encoded@ =~= old(encoded)@ + ascii_text(encoded_byte(byte)));
}

fn upper_hex_digit(digit: u8) -> (result: char)
    requires
        digit < 16,
    ensures
        result == upper_hex(digit) as char,
{
    if digit < 10 {
        (48 + digit) as char
    } else {
        (55 + digit) as char
    }
}

/// A text in percent encoding.
pub fn percent_encode_component(value: &str) -> (result: String)
    ensures
        result@ == encoded_component(value@),
{
    let bytes: &[u8] = value.as_bytes();
    let mut encoded: String = String::new();
    let mut i: usize = 0;
    assert(bytes@.skip(0) =~= bytes@);
    assert(encoded@ + ascii_text(percent_encoded(bytes@)) =~= ascii_text(percent_encoded(bytes@)));
    while i < bytes.len()
        invariant
            i <= bytes@.len(),
            encoded@ + ascii_text(percent_encoded(bytes@.skip(i as int))) == ascii_text(
                percent_encoded(bytes@),
            ),
        decreases bytes.len() - i,
    {
        let ghost before = encoded@;
        let ghost rest = bytes@.skip(i as int);
        push_encoded_byte(&mut encoded, bytes[i]);
        assert(rest.drop_first() =~= bytes@.skip(i + 1));
        assert(before + ascii_text(percent_encoded(rest)) =~= encoded@ + ascii_text(
            percent_encoded(rest.drop_first()),
        ));
        i += 1;
    }
    assert(encoded@ + ascii_text(percent_encoded(bytes@.skip(i as int))) =~= encoded@);
    encoded
}

/// The number that a hexadecimal digit stands for.
pub fn hex_value(byte: u8) -> (result: Option<u8>)
    ensures
        result == hex_digit_value(byte),
{
    if 48 <= byte && byte <= 57 {
        Some(byte - 48)
    } else if 97 <= byte && byte <= 102 {
        Some(byte - 87)
    } else if 65 <= byte && byte <= 70 {
        Some(byte - 55)
    } else {
        None
    }
}

/// The outcome of decoding once `done` has been decoded and `rest` is left.
spec fn decoding_after(done: Seq<u8>, rest: Seq<u8>) -> Option<Seq<u8>> {
    match percent_decoded(rest) {
        Some(tail) => Some(done + tail),
        None => None,
    }
}

/// The text that a percent-encoded text stands for.
pub fn percent_decode_component(value: &str) -> (result: Option<String>)
    ensures
        result.deep_view() == decoded_component(value@),
{
    let input: &[u8] = value.as_bytes();
    let mut bytes: Vec<u8> = Vec::new();
    let mut i: usize = 0;
    assert(input@.skip(0) =~= input@);
    proof {
        if let Some(all) = percent_decoded(input@) {
            assert(bytes@ + all =~= all);
        }
    }
    while i < input.len()
        invariant
            i <= input@.len(),
            input@ == encode_utf8(value@),
            decoding_after(bytes@, input@.skip(i as int)) == percent_decoded(input@),
        decreases input.len() - i,
    {
        let ghost before = bytes@;
        let ghost rest = input@.skip(i as int);
        assert(rest.drop_first() =~= input@.skip(i + 1));
        if input[i] != 37 {
            bytes.push(input[i]);
            proof {
                if let Some(tail) = percent_decoded(rest.drop_first()) {
                    assert(before + (seq![rest[0]] + tail) =~= bytes@ + tail);
                }
            }
            i += 1;
            continue;
        }
        if input.len() - i < 3 {
            return None;
        }
        assert(rest.skip(3) =~= input@.skip(i + 3));
        let high: u8 = match hex_value(input[i + 1]) {
            Some(high) => high,
            None => return None,
        };
        let low: u8 = match hex_value(input[i + 2]) {
            Some(low) => low,
            None => return None,
        };
        bytes.push(high * 16 + low);
        proof {
            if let Some(tail) = percent_decoded(rest.skip(3)) {
                assert(before + (seq![(high * 16 + low) as u8] + tail) =~= bytes@ + tail);
            }
        }
        i += 3;
    }
    assert(input@.skip(i as int) =~= Seq::empty());
    assert(bytes@ + Seq::<u8>::empty() =~= bytes@);
    text::decode_bytes(bytes)
}

/// The artist and title that a synthetic album reference names.
pub open spec fn named_album(item_id: Seq<char>) -> Option<ExternalAlbumArtView> {
    if !EXTERNAL_ALBUM_IMAGE_PREFIX@.is_prefix_of(item_id) {
        None
    } else {
        let rest = item_id.skip(EXTERNAL_ALBUM_IMAGE_PREFIX@.len() as int);
        match text::split_once_at(rest, ':') {
            Some((artist, album)) => match (decoded_component(artist), decoded_component(album)) {
                (Some(artist), Some(album)) => Some(ExternalAlbumArtView { artist, album }),
                _ => None,
            },
            None => None,
        }
    }
}

/// The artist and title that a synthetic album reference names.
pub fn album_art_from_image_ref(image_ref: &ImageRef) -> (result: Option<ExternalAlbumArt>)
    ensures
        result.deep_view() == named_album(image_ref.deep_view().item_id),
{
    let rest: String = match text::strip_prefix(
        image_ref.item_id.as_str(),
        EXTERNAL_ALBUM_IMAGE_PREFIX,
    ) {
        Some(rest) => rest,
        None => return None,
    };
    let characters: Vec<char> = text::chars(rest.as_str());
    let parts: (Vec<char>, Vec<char>) = match text::split_once(characters.as_slice(), ':') {
        Some(parts) => parts,
        None => return None,
    };
    let artist: String = match percent_decode_component(
        text::text_of(parts.0.as_slice()).as_str(),
    ) {
        Some(artist) => artist,
        None => return None,
    };
    let album: String = match percent_decode_component(text::text_of(parts.1.as_slice()).as_str()) {
        Some(album) => album,
        None => return None,
    };
    Some(ExternalAlbumArt { artist, album })
}

/// What a name is looked up by: the trimmed name, unless it is blank or says that the name
/// is not known.
pub open spec fn lookup_value(value: Seq<char>) -> Option<Seq<char>> {
    let name = text::trimmed(value);
    let lower = text::lowercase(name);
    if name.len() == 0 || lower == "unknown"@ || lower == "unknown album"@ || lower
        == "unknown artist"@ || lower == "untitled album"@ || lower == "untitled track"@ {
        None
    } else {
        Some(name)
    }
}

fn normalized_lookup_value(value: &str) -> (result: Option<String>)
    ensures
        result.deep_view() == lookup_value(value@),
{
    let value: String = text::trim(value);
    if value.as_str().is_empty() {
        return None;
    }
    let lower: String = value.as_str().to_lowercase();
    if lower.same(&text::owned("unknown")) || lower.same(&text::owned("unknown album"))
        || lower.same(&text::owned("unknown artist")) || lower.same(&text::owned("untitled album"))
        || lower.same(&text::owned("untitled track")) {
        return None;
    }
    Some(value)
}

pub const FNV_OFFSET: u64 = 0xcbf2_9ce4_8422_2325;

pub const FNV_PRIME: u64 = 0x0000_0100_0000_01b3;

/// One step of the hash: a byte is mixed in.
pub open spec fn hash_step(hash: u64, byte: u8) -> u64 {
    (hash ^ (byte as u64)).wrapping_mul(FNV_PRIME)
}

/// The 64-bit FNV-1a hash of some bytes.
pub open spec fn fnv_hash(bytes: Seq<u8>) -> u64
    decreases bytes.len(),
{
    if bytes.len() == 0 {
        FNV_OFFSET
    } else {
        hash_step(fnv_hash(bytes.drop_last()), bytes.last())
    }
}

fn hash_bytes(hash: u64, bytes: &[u8], Ghost(before): Ghost<Seq<u8>>) -> (result: u64)
    requires
        hash == fnv_hash(before),
    ensures
        result == fnv_hash(before + bytes@),
{
    let mut result: u64 = hash;
    let mut i: usize = 0;
    assert(before + bytes@.take(0) =~= before);
    while i < bytes.len()
        invariant
            i <= bytes@.len(),
            result == fnv_hash(before + bytes@.take(i as int)),
        decreases bytes.len() - i,
    {
        assert((before + bytes@.take(i + 1)).drop_last() =~= before + bytes@.take(i as int));
        result = (result ^ (bytes[i] as u64)).wrapping_mul(FNV_PRIME);
        i += 1;
    }
    assert(bytes@.take(i as int) =~= bytes@);
    result
}

/// The hash of an artist and a title: of their bytes with a zero byte between them.
pub open spec fn album_hash(artist: Seq<char>, album: Seq<char>) -> u64 {
    fnv_hash(encode_utf8(artist) + seq![0u8] + encode_utf8(album))
}

/// The hash of an artist and a title: of their bytes with a zero byte between them.
pub fn stable_album_hash(artist: &str, album: &str) -> (result: u64)
    ensures
        result == album_hash(artist@, album@),
{
    let ghost first = encode_utf8(artist@);
    let separator: [u8; 1] = [0];
    assert(separator@ =~= seq![0u8]);
    assert(Seq::<u8>::empty() + first =~= first);
    let hash: u64 = hash_bytes(FNV_OFFSET, artist.as_bytes(), Ghost(Seq::<u8>::empty()));
    let hash: u64 = hash_bytes(hash, separator.as_slice(), Ghost(first));
    hash_bytes(hash, album.as_bytes(), Ghost(first + seq![0u8]))
}

/// The lower-case hexadecimal digit of a number below sixteen.
pub open spec fn lower_hex(digit: u64) -> char {
    if digit < 10 {
        (48 + digit) as char
    } else {
        (87 + digit) as char
    }
}

/// The last `count` hexadecimal digits of a number.
pub open spec fn hex_text(number: u64, count: nat) -> Seq<char>
    decreases count,
{
    if count == 0 {
        Seq::empty()
    } else {
        hex_text(number / 16, (count - 1) as nat).push(lower_hex(number % 16))
    }
}

fn hex_string(number: u64, count: u8) -> (result: String)
    ensures
        result@ == hex_text(number, count as nat),
    decreases count,
{
    if count == 0 {
        String::new()
    } else {
        let mut result: String = hex_string(number / 16, count - 1);
        let digit: u8 = (number % 16) as u8;
        result.push(
            if digit < 10 {
                (48 + digit) as char
            } else {
                (87 + digit) as char
            },
        );
        result
    }
}

/// The synthetic reference that names an album by artist and title, where both are known.
pub open spec fn album_ref(artist: Seq<char>, album: Seq<char>) -> Option<ImageRefView> {
    match (lookup_value(artist), lookup_value(album)) {
        (Some(artist), Some(album)) => Some(
            ImageRefView {
                item_id: EXTERNAL_ALBUM_IMAGE_PREFIX@ + encoded_component(artist) + seq![':']
                    + encoded_component(album),
                tag: Some(
                    EXTERNAL_ALBUM_IMAGE_TAG_VERSION@ + seq!['-'] + hex_text(
                        album_hash(artist, album),
                        16,
                    ),
                ),
            },
        ),
        _ => None,
    }
}

/// The synthetic reference that names an album by artist and title, where both are known.
pub fn external_album_image_ref(artist: &str, album: &str) -> (result: Option<ImageRef>)
    ensures
        result.deep_view() == album_ref(artist@, album@),
{
    let artist: String = match normalized_lookup_value(artist) {
        Some(artist) => artist,
        None => return None,
    };
    let album: String = match normalized_lookup_value(album) {
        Some(album) => album,
        None => return None,
    };
    let mut item_id: String = text::owned(EXTERNAL_ALBUM_IMAGE_PREFIX);
    item_id.push_str(percent_encode_component(artist.as_str()).as_str());
    item_id.push(':');
    item_id.push_str(percent_encode_component(album.as_str()).as_str());
    let mut tag: String = text::owned(EXTERNAL_ALBUM_IMAGE_TAG_VERSION);
    tag.push('-');
    tag.push_str(hex_string(stable_album_hash(artist.as_str(), album.as_str()), 16).as_str());
    assert(item_id@ =~= EXTERNAL_ALBUM_IMAGE_PREFIX@ + encoded_component(artist@) + seq![':']
        + encoded_component(album@));
    assert(tag@ =~= EXTERNAL_ALBUM_IMAGE_TAG_VERSION@ + seq!['-'] + hex_text(
        album_hash(artist@, album@),
        16,
    ));
    Some(ImageRef { item_id, tag: Some(tag) })
}

/// The synthetic reference of an album reads back as the artist and the title that it was
/// made from, trimmed, and is known as one outside the library's sources.
pub proof fn album_ref_round_trip(artist: Seq<char>, album: Seq<char>)
    requires
        album_ref(artist, album) is Some,
    ensures
        is_external(album_ref(artist, album)->0),
        named_album(album_ref(artist, album)->0.item_id) == Some(
            ExternalAlbumArtView { artist: text::trimmed(artist), album: text::trimmed(album) },
        ),
{
    let artist = text::trimmed(artist);
    let album = text::trimmed(album);
    let prefix = EXTERNAL_ALBUM_IMAGE_PREFIX@;
    let first = encoded_component(artist);
    let second = encoded_component(album);
    let item_id = prefix + first + seq![':'] + second;
    component_round_trip(artist);
    component_round_trip(album);
    assert(item_id.take(prefix.len() as int) =~= prefix);
    assert(prefix.is_prefix_of(item_id));
    let rest = item_id.skip(prefix.len() as int);
    assert(rest =~= first + seq![':'] + second);
    assert forall|j: int| 0 <= j < first.len() implies rest[j] != ':' by {
        assert(first[j] == rest[j]);
        assert(first.contains(first[j]));
    }
    assert(rest[first.len() as int] == ':');
    text::lemma_first_index(rest, ':', first.len() as int);
    assert(rest.take(first.len() as int) =~= first);
    assert(rest.skip((first.len() + 1) as int) =~= second);
}

/// Whether a character is a hexadecimal digit.
pub open spec fn is_hex_char(character: char) -> bool {
    ||| '0' <= character <= '9'
    ||| 'a' <= character <= 'f'
    ||| 'A' <= character <= 'F'
}

/// Whether a text has the form of a MusicBrainz identifier: five groups of hexadecimal
/// digits with dashes between them.
pub open spec fn is_mbid(value: Seq<char>) -> bool {
    &&& value.len() == 36
    &&& forall|i: int|
        0 <= i < 36 ==> if i == 8 || i == 13 || i == 18 || i == 23 {
            #[trigger] value[i] == '-'
        } else {
            is_hex_char(value[i])
        }
}

fn valid_mbid(value: &str) -> (result: bool)
    ensures
        result == is_mbid(value@),
{
    let characters: Vec<char> = text::chars(value);
    if characters.len() != 36 {
        return false;
    }
    let mut i: usize = 0;
    while i < 36
        invariant
            i <= 36,
            characters@ == value@,
            characters@.len() == 36,
            forall|j: int|
                0 <= j < i ==> if j == 8 || j == 13 || j == 18 || j == 23 {
                    #[trigger] value@[j] == '-'
                } else {
                    is_hex_char(value@[j])
                },
        decreases 36 - i,
    {
        let c: char = characters[i];
        if i == 8 || i == 13 || i == 18 || i == 23 {
            if c != '-' {
                assert(value@[i as int] != '-');
                return false;
            }
        } else if !(('0' <= c && c <= '9') || ('a' <= c && c <= 'f') || ('A' <= c && c <= 'F')) {
            assert(!is_hex_char(value@[i as int]));
            return false;
        }
        i += 1;
    }
    true
}

/// The reference that names an album by its MusicBrainz identity: its release group where
/// that is known, else its release.
pub open spec fn identity_ref(album: AlbumView) -> Option<ImageRefView> {
    match (album.musicbrainz_release_group_id, album.musicbrainz_album_id) {
        (Some(group), _) if is_mbid(group) => Some(
            ImageRefView {
                item_id: EXTERNAL_RELEASE_IMAGE_PREFIX@ + "-group:"@ + group,
                tag: Some(EXTERNAL_ALBUM_IMAGE_TAG_VERSION@),
            },
        ),
        (_, Some(release)) if is_mbid(release) => Some(
            ImageRefView {
                item_id: EXTERNAL_RELEASE_IMAGE_PREFIX@ + ":"@ + release,
                tag: Some(EXTERNAL_ALBUM_IMAGE_TAG_VERSION@),
            },
        ),
        _ => None,
    }
}

/// The reference that names an album by its MusicBrainz identity.
pub fn external_album_identity_image_ref(album: &Album) -> (result: Option<ImageRef>)
    ensures
        result.deep_view() == identity_ref(album.deep_view()),
{
    if let Some(group) = &album.musicbrainz_release_group_id {
        if valid_mbid(group.as_str()) {
            let prefix: String = text::concat(EXTERNAL_RELEASE_IMAGE_PREFIX, "-group:");
            return Some(
                ImageRef {
                    item_id: text::concat(prefix.as_str(), group.as_str()),
                    tag: Some(text::owned(EXTERNAL_ALBUM_IMAGE_TAG_VERSION)),
                },
            );
        }
    }
    if let Some(release) = &album.musicbrainz_album_id {
        if valid_mbid(release.as_str()) {
            let prefix: String = text::concat(EXTERNAL_RELEASE_IMAGE_PREFIX, ":");
            return Some(
                ImageRef {
                    item_id: text::concat(prefix.as_str(), release.as_str()),
                    tag: Some(text::owned(EXTERNAL_ALBUM_IMAGE_TAG_VERSION)),
                },
            );
        }
    }
    None
}

/// A reference as it may be shown: none where it is external and lookups are switched off.
pub open spec fn permitted_ref(
    image_ref: Option<ImageRefView>,
    settings: AppSettingsView,
) -> Option<ImageRefView> {
    match image_ref {
        Some(image_ref) if is_external(image_ref) && !lookups_enabled(settings) => None,
        _ => image_ref,
    }
}

fn normalize_image_ref(image_ref: &mut Option<ImageRef>, settings: &AppSettings)
    ensures
        final(image_ref).deep_view() == permitted_ref(
            old(image_ref).deep_view(),
            settings.deep_view(),
        ),
{
    let strip: bool = match image_ref {
        Some(value) => is_external_image_ref(value) && !enabled(settings),
        None => false,
    };
    if strip {
        *image_ref = None;
    }
}

/// Whether a reference is that of the album itself on a Jellyfin server, without a version.
pub open spec fn is_untagged_album_ref(
    image_ref: Option<ImageRefView>,
    album_id: Seq<char>,
) -> bool {
    match image_ref {
        Some(image_ref) => {
            &&& image_ref.item_id == album_id
            &&& "jellyfin:album:"@.is_prefix_of(image_ref.item_id)
            &&& match image_ref.tag {
                Some(tag) => tag.len() == 0,
                None => true,
            }
        },
        None => false,
    }
}

fn has_untagged_jellyfin_album_ref(image_ref: &Option<ImageRef>, album_id: &str) -> (result: bool)
    ensures
        result == is_untagged_album_ref(image_ref.deep_view(), album_id@),
{
    match image_ref {
        Some(image_ref) => {
            let untagged: bool = match &image_ref.tag {
                Some(tag) => tag.as_str().is_empty(),
                None => true,
            };
            image_ref.item_id.same(&text::owned(album_id)) && text::starts_with(
                image_ref.item_id.as_str(),
                "jellyfin:album:",
            ) && untagged
        },
        None => false,
    }
}

/// The reference that a track, or a queue entry made from one, is shown with. An album's
/// own reference, where one is given and permitted, comes before the synthetic one.
pub open spec fn track_ref(
    image_ref: Option<ImageRefView>,
    album_id: Option<Seq<char>>,
    artist: Seq<char>,
    album: Seq<char>,
    album_image_ref: Option<ImageRefView>,
    settings: AppSettingsView,
) -> Option<ImageRefView> {
    let own = permitted_ref(image_ref, settings);
    let stale = lookups_enabled(settings) && match album_id {
        Some(album_id) => is_untagged_album_ref(own, album_id),
        None => false,
    };
    if own is Some && !stale {
        own
    } else if permitted_ref(album_image_ref, settings) is Some {
        permitted_ref(album_image_ref, settings)
    } else if lookups_enabled(settings) {
        album_ref(artist, album)
    } else {
        None
    }
}

fn normalized_track_ref(
    image_ref: &Option<ImageRef>,
    album_id: Option<&str>,
    artist: &str,
    album: &str,
    album_image_ref: Option<&ImageRef>,
    settings: &AppSettings,
) -> (result: Option<ImageRef>)
    ensures
        result.deep_view() == track_ref(
            image_ref.deep_view(),
            album_id.deep_view(),
            artist@,
            album@,
            album_image_ref.deep_view(),
            settings.deep_view(),
        ),
{
    let mut own: Option<ImageRef> = image_ref.copy();
    normalize_image_ref(&mut own, settings);
    let stale: bool = enabled(settings) && match album_id {
        Some(album_id) => has_untagged_jellyfin_album_ref(&own, album_id),
        None => false,
    };
    if own.is_some() && !stale {
        return own;
    }
    let mut fallback: Option<ImageRef> = match album_image_ref {
        Some(album_image_ref) => Some(album_image_ref.copy()),
        None => None,
    };
    normalize_image_ref(&mut fallback, settings);
    if fallback.is_some() {
        return fallback;
    }
    if enabled(settings) {
        external_album_image_ref(artist, album)
    } else {
        None
    }
}

/// An album as it is shown.
pub open spec fn normalized_album(album: AlbumView, settings: AppSettingsView) -> AlbumView {
    let own = permitted_ref(album.image_ref, settings);
    AlbumView {
        image_ref: if own is None && lookups_enabled(settings) {
            album_ref(album.artist, album.title)
        } else {
            own
        },
        ..album
    }
}

pub fn normalize_album(album: &mut Album, settings: &AppSettings)
    ensures
        final(album).deep_view() == normalized_album(
            old(album).deep_view(),
            settings.deep_view(),
        ),
{
    let mut own: Option<ImageRef> = album.image_ref.copy();
    normalize_image_ref(&mut own, settings);
    if enabled(settings) && own.is_none() {
        own = external_album_image_ref(album.artist.as_str(), album.title.as_str());
    }
    album.image_ref = own;
}

/// A track as it is shown next to an album with the given reference.
pub open spec fn normalized_track_beside(
    track: TrackView,
    album_image_ref: Option<ImageRefView>,
    settings: AppSettingsView,
) -> TrackView {
    TrackView {
        image_ref: track_ref(
            track.image_ref,
            Some(track.album_id),
            track.artist,
            track.album,
            album_image_ref,
            settings,
        ),
        ..track
    }
}

/// A track as it is shown.
pub open spec fn normalized_track(track: TrackView, settings: AppSettingsView) -> TrackView {
    normalized_track_beside(track, None, settings)
}

pub fn normalize_track_with_album_ref(
    track: &mut Track,
    album_image_ref: Option<&ImageRef>,
    settings: &AppSettings,
)
    ensures
        final(track).deep_view() == normalized_track_beside(
            old(track).deep_view(),
            album_image_ref.deep_view(),
            settings.deep_view(),
        ),
{
    let image_ref: Option<ImageRef> = normalized_track_ref(
        &track.image_ref,
        Some(track.album_id.as_str()),
        track.artist.as_str(),
        track.album.as_str(),
        album_image_ref,
        settings,
    );
    track.image_ref = image_ref;
}

pub fn normalize_track(track: &mut Track, settings: &AppSettings)
    ensures
        final(track).deep_view() == normalized_track(
            old(track).deep_view(),
            settings.deep_view(),
        ),
{
    normalize_track_with_album_ref(track, None, settings);
}

/// An artist as shown: an external image of an artist is never kept.
pub open spec fn normalized_artist(artist: ArtistView, settings: AppSettingsView) -> ArtistView {
    ArtistView {
        image_ref: match artist.image_ref {
            Some(image_ref) if EXTERNAL_ARTIST_IMAGE_PREFIX@.is_prefix_of(
                image_ref.item_id,
            ) => None,
            _ => permitted_ref(artist.image_ref, settings),
        },
        ..artist
    }
}

pub fn normalize_artist(artist: &mut Artist, settings: &AppSettings)
    ensures
        final(artist).deep_view() == normalized_artist(
            old(artist).deep_view(),
            settings.deep_view(),
        ),
{
    let mut image_ref: Option<ImageRef> = artist.image_ref.copy();
    let external_artist: bool = match &image_ref {
        Some(value) => is_external_artist_image_ref(value),
        None => false,
    };
    if external_artist {
        image_ref = None;
    } else {
        normalize_image_ref(&mut image_ref, settings);
    }
    artist.image_ref = image_ref;
}

/// A queue entry as it is shown next to an album with the given reference.
pub open spec fn normalized_entry_beside(
    entry: QueueEntryView,
    album_image_ref: Option<ImageRefView>,
    settings: AppSettingsView,
) -> QueueEntryView {
    QueueEntryView {
        image_ref: track_ref(
            entry.image_ref,
            entry.album_id,
            entry.artist,
            entry.album,
            album_image_ref,
            settings,
        ),
        ..entry
    }
}

/// A queue entry as it is shown.
pub open spec fn normalized_entry(
    entry: QueueEntryView,
    settings: AppSettingsView,
) -> QueueEntryView {
    normalized_entry_beside(entry, None, settings)
}

pub fn normalize_queue_entry_with_album_ref(
    entry: &mut QueueEntry,
    album_image_ref: Option<&ImageRef>,
    settings: &AppSettings,
)
    ensures
        final(entry).deep_view() == normalized_entry_beside(
            old(entry).deep_view(),
            album_image_ref.deep_view(),
            settings.deep_view(),
        ),
{
    let album_id: Option<&str> = match &entry.album_id {
        Some(album_id) => Some(album_id.as_str()),
        None => None,
    };
    let image_ref: Option<ImageRef> = normalized_track_ref(
        &entry.image_ref,
        album_id,
        entry.artist.as_str(),
        entry.album.as_str(),
        album_image_ref,
        settings,
    );
    entry.image_ref = image_ref;
}

pub fn normalize_queue_entry(entry: &mut QueueEntry, settings: &AppSettings)
    ensures
        final(entry).deep_view() == normalized_entry(
            old(entry).deep_view(),
            settings.deep_view(),
        ),
{
    normalize_queue_entry_with_album_ref(entry, None, settings);
}

/// Albums as they are shown.
pub open spec fn normalized_albums(
    albums: Seq<AlbumView>,
    settings: AppSettingsView,
) -> Seq<AlbumView> {
    albums.map_values(|album: AlbumView| normalized_album(album, settings))
}

pub fn normalize_albums(albums: &mut Vec<Album>, settings: &AppSettings)
    ensures
        final(albums).deep_view() == normalized_albums(
            old(albums).deep_view(),
            settings.deep_view(),
        ),
{
    let ghost before = albums.deep_view();
    let mut i: usize = 0;
    while i < albums.len()
        invariant
            i <= albums@.len(),
            albums@.len() == before.len(),
            forall|j: int|
                0 <= j < i ==> (#[trigger] albums@[j]).deep_view() == normalized_album(
                    before[j],
                    settings.deep_view(),
                ),
            forall|j: int| i <= j < before.len() ==> (
                #[trigger] albums@[j]
            ).deep_view() == before[j],
        decreases albums.len() - i,
    {
        normalize_album(&mut albums[i], settings);
        i += 1;
    }
    assert(albums.deep_view() =~= normalized_albums(before, settings.deep_view()));
}

/// Tracks as they are shown.
pub open spec fn normalized_tracks(
    tracks: Seq<TrackView>,
    settings: AppSettingsView,
) -> Seq<TrackView> {
    tracks.map_values(|track: TrackView| normalized_track(track, settings))
}

pub fn normalize_tracks(tracks: &mut Vec<Track>, settings: &AppSettings)
    ensures
        final(tracks).deep_view() == normalized_tracks(
            old(tracks).deep_view(),
            settings.deep_view(),
        ),
{
    let ghost before = tracks.deep_view();
    let mut i: usize = 0;
    while i < tracks.len()
        invariant
            i <= tracks@.len(),
            tracks@.len() == before.len(),
            forall|j: int|
                0 <= j < i ==> (#[trigger] tracks@[j]).deep_view() == normalized_track(
                    before[j],
                    settings.deep_view(),
                ),
            forall|j: int| i <= j < before.len() ==> (
                #[trigger] tracks@[j]
            ).deep_view() == before[j],
        decreases tracks.len() - i,
    {
        normalize_track(&mut tracks[i], settings);
        i += 1;
    }
    assert(tracks.deep_view() =~= normalized_tracks(before, settings.deep_view()));
}

/// Artists as they are shown.
pub open spec fn normalized_artists(
    artists: Seq<ArtistView>,
    settings: AppSettingsView,
) -> Seq<ArtistView> {
    artists.map_values(|artist: ArtistView| normalized_artist(artist, settings))
}

pub fn normalize_artists(artists: &mut Vec<Artist>, settings: &AppSettings)
    ensures
        final(artists).deep_view() == normalized_artists(
            old(artists).deep_view(),
            settings.deep_view(),
        ),
{
    let ghost before = artists.deep_view();
    let mut i: usize = 0;
    while i < artists.len()
        invariant
            i <= artists@.len(),
            artists@.len() == before.len(),
            forall|j: int|
                0 <= j < i ==> (#[trigger] artists@[j]).deep_view() == normalized_artist(
                    before[j],
                    settings.deep_view(),
                ),
            forall|j: int|
                i <= j < before.len() ==> (#[trigger] artists@[j]).deep_view() == before[j],
        decreases artists.len() - i,
    {
        normalize_artist(&mut artists[i], settings);
        i += 1;
    }
    assert(artists.deep_view() =~= normalized_artists(before, settings.deep_view()));
}

/// A home section as it is shown.
pub open spec fn normalized_home_section(
    section: HomeSectionView,
    settings: AppSettingsView,
) -> HomeSectionView {
    HomeSectionView {
        kind: section.kind,
        albums: normalized_albums(section.albums, settings),
        tracks: normalized_tracks(section.tracks, settings),
    }
}

pub fn normalize_home_section(section: &mut HomeSection, settings: &AppSettings)
    ensures
        final(section).deep_view() == normalized_home_section(
            old(section).deep_view(),
            settings.deep_view(),
        ),
{
    normalize_albums(&mut section.albums, settings);
    normalize_tracks(&mut section.tracks, settings);
}

/// Home sections as they are shown.
pub open spec fn normalized_home_sections(
    sections: Seq<HomeSectionView>,
    settings: AppSettingsView,
) -> Seq<HomeSectionView> {
    sections.map_values(|section: HomeSectionView| normalized_home_section(section, settings))
}

pub fn normalize_home_sections(sections: &mut Vec<HomeSection>, settings: &AppSettings)
    ensures
        final(sections).deep_view() == normalized_home_sections(
            old(sections).deep_view(),
            settings.deep_view(),
        ),
{
    let ghost before = sections.deep_view();
    let mut i: usize = 0;
    while i < sections.len()
        invariant
            i <= sections@.len(),
            sections@.len() == before.len(),
            forall|j: int|
                0 <= j < i ==> (#[trigger] sections@[j]).deep_view() == normalized_home_section(
                    before[j],
                    settings.deep_view(),
                ),
            forall|j: int|
                i <= j < before.len() ==> (#[trigger] sections@[j]).deep_view() == before[j],
        decreases sections.len() - i,
    {
        normalize_home_section(&mut sections[i], settings);
        i += 1;
    }
    assert(sections.deep_view() =~= normalized_home_sections(before, settings.deep_view()));
}

/// Search results as they are shown.
pub open spec fn normalized_search_results(
    results: SearchResultsView,
    settings: AppSettingsView,
) -> SearchResultsView {
    SearchResultsView {
        albums: normalized_albums(results.albums, settings),
        tracks: normalized_tracks(results.tracks, settings),
        artists: normalized_artists(results.artists, settings),
        playlists: results.playlists,
    }
}

pub fn normalize_search_results(results: &mut SearchResults, settings: &AppSettings)
    ensures
        final(results).deep_view() == normalized_search_results(
            old(results).deep_view(),
            settings.deep_view(),
        ),
{
    normalize_albums(&mut results.albums, settings);
    normalize_tracks(&mut results.tracks, settings);
    normalize_artists(&mut results.artists, settings);
}

/// A queue as it is shown.
pub open spec fn normalized_queue(
    snapshot: QueueSnapshotView,
    settings: AppSettingsView,
) -> QueueSnapshotView {
    QueueSnapshotView {
        entries: snapshot.entries.map_values(
            |entry: QueueEntryView| normalized_entry(entry, settings),
        ),
        ..snapshot
    }
}

pub fn normalize_queue_snapshot(snapshot: &mut QueueSnapshot, settings: &AppSettings)
    ensures
        final(snapshot).deep_view() == normalized_queue(
            old(snapshot).deep_view(),
            settings.deep_view(),
        ),
{
    let ghost before = snapshot.deep_view();
    let mut i: usize = 0;
    while i < snapshot.entries.len()
        invariant
            i <= snapshot.entries@.len(),
            snapshot.entries@.len() == before.entries.len(),
            snapshot.deep_view() == (QueueSnapshotView {
                entries: snapshot.entries.deep_view(),
                ..before
            }),
            forall|j: int|
                0 <= j < i ==> (#[trigger] snapshot.entries@[j]).deep_view() == normalized_entry(
                    before.entries[j],
                    settings.deep_view(),
                ),
            forall|j: int|
                i <= j < before.entries.len() ==> (#[trigger] snapshot.entries@[j]).deep_view()
                    == before.entries[j],
        decreases snapshot.entries.len() - i,
    {
        normalize_queue_entry(&mut snapshot.entries[i], settings);
        i += 1;
    }
    assert(snapshot.entries.deep_view() =~= normalized_queue(
        before,
        settings.deep_view(),
    ).entries);
}

/// With lookups switched off no external reference is ever shown.
pub proof fn disabled_lookups_show_no_external_ref(
    album: AlbumView,
    track: TrackView,
    artist: ArtistView,
    entry: QueueEntryView,
    settings: AppSettingsView,
)
    requires
        !lookups_enabled(settings),
    ensures
        normalized_album(album, settings).image_ref matches Some(shown) ==> !is_external(shown),
        normalized_track(track, settings).image_ref matches Some(shown) ==> !is_external(shown),
        normalized_artist(artist, settings).image_ref matches Some(shown) ==> !is_external(shown),
        normalized_entry(entry, settings).image_ref matches Some(shown) ==> !is_external(shown),
{
}

/// What is shown stays the same when it is prepared for showing once more.
pub proof fn normalization_is_idempotent(
    album: AlbumView,
    track: TrackView,
    artist: ArtistView,
    entry: QueueEntryView,
    settings: AppSettingsView,
)
    ensures
        normalized_album(normalized_album(album, settings), settings) == normalized_album(
            album,
            settings,
        ),
        normalized_track(normalized_track(track, settings), settings) == normalized_track(
            track,
            settings,
        ),
        normalized_artist(normalized_artist(artist, settings), settings) == normalized_artist(
            artist,
            settings,
        ),
        normalized_entry(normalized_entry(entry, settings), settings) == normalized_entry(
            entry,
            settings,
        ),
{
    lemma_album_ref_is_not_jellyfin(track.artist, track.album);
    lemma_album_ref_is_not_jellyfin(entry.artist, entry.album);
}

proof fn lemma_album_ref_is_not_jellyfin(artist: Seq<char>, album: Seq<char>)
    ensures
        album_ref(artist, album) matches Some(image_ref) ==> {
            &&& is_external(image_ref)
            &&& !"jellyfin:album:"@.is_prefix_of(image_ref.item_id)
        },
{
    if let Some(image_ref) = album_ref(artist, album) {
        album_ref_round_trip(artist, album);
        reveal_strlit("jellyfin:album:");
        reveal_strlit("external:album:");
        assert(image_ref.item_id[0] == 'e');
        if "jellyfin:album:"@.is_prefix_of(image_ref.item_id) {
            assert(image_ref.item_id.subrange(0, 15)[0] == 'j');
        }
    }
}

/// Whether a failed lookup says that there is nothing to be found, rather than that the
/// network or the service failed.
pub open spec fn tells_a_miss(error: Seq<char>) -> bool {
    &&& !text::occurs(error, "error sending request"@)
    &&& !text::occurs(error, "timed out"@)
    &&& !text::occurs(error, "status 401"@)
    &&& !text::occurs(error, "status 403"@)
    &&& !text::occurs(error, "status 429"@)
    &&& !text::occurs(error, "status 500"@)
    &&& !text::occurs(error, "status 502"@)
    &&& !text::occurs(error, "status 503"@)
    &&& !text::occurs(error, "status 504"@)
    &&& {
        ||| text::occurs(error, "404 Not Found"@)
        ||| text::occurs(error, "did not return album art"@)
        ||| text::occurs(error, "did not return matching"@)
        ||| text::occurs(error, "external artist image lookup is disabled"@)
    }
}

/// Whether a failed lookup says that there is nothing to be found, rather than that the
/// network or the service failed.
pub fn is_expected_lookup_miss(error: &str) -> (result: bool)
    ensures
        result == tells_a_miss(error@),
{
    if text::contains(error, "error sending request") || text::contains(error, "timed out")
        || text::contains(error, "status 401") || text::contains(error, "status 403")
        || text::contains(error, "status 429") || text::contains(error, "status 500")
        || text::contains(error, "status 502") || text::contains(error, "status 503")
        || text::contains(error, "status 504") {
        return false;
    }
    text::contains(error, "404 Not Found") || text::contains(error, "did not return album art")
        || text::contains(error, "did not return matching") || text::contains(
        error,
        "external artist image lookup is disabled",
    )
}

/// The path of a front cover in the Cover Art Archive that is large enough.
pub fn cover_art_size_path(size: u32) -> (result: &'static str)
    ensures
        result@ == (if size <= 250 {
            "front-250"@
        } else {
            "front-500"@
        }),
{
    if size <= 250 {
        "front-250"
    } else {
        "front-500"
    }
}

/// Showing an item changes nothing about it but its image.
pub proof fn only_images_are_changed(
    album: AlbumView,
    track: TrackView,
    artist: ArtistView,
    entry: QueueEntryView,
    beside: Option<ImageRefView>,
    settings: AppSettingsView,
)
    ensures
        normalized_album(album, settings) == (AlbumView {
            image_ref: normalized_album(album, settings).image_ref,
            ..album
        }),
        normalized_track_beside(track, beside, settings) == (TrackView {
            image_ref: normalized_track_beside(track, beside, settings).image_ref,
            ..track
        }),
        normalized_artist(artist, settings) == (ArtistView {
            image_ref: normalized_artist(artist, settings).image_ref,
            ..artist
        }),
        normalized_entry_beside(entry, beside, settings) == (QueueEntryView {
            image_ref: normalized_entry_beside(entry, beside, settings).image_ref,
            ..entry
        }),
{
}

/// An image from the source itself is always shown; one from elsewhere only where looking
/// outside is on; and an album without one is looked for by artist and title, where that is on.
pub proof fn own_images_are_always_shown(
    album: AlbumView,
    own: ImageRefView,
    settings: AppSettingsView,
)
    ensures
        !is_external(own) ==> normalized_album(
            (AlbumView { image_ref: Some(own), ..album }),
            settings,
        ).image_ref == Some(own),
        settings.external_metadata_enabled && !settings.private_mode ==> normalized_album(
            (AlbumView { image_ref: Some(own), ..album }),
            settings,
        ).image_ref == Some(own),
        settings.external_metadata_enabled && !settings.private_mode ==> normalized_album(
            (AlbumView { image_ref: None, ..album }),
            settings,
        ).image_ref == album_ref(album.artist, album.title),
        !(settings.external_metadata_enabled && !settings.private_mode) ==> normalized_album(
            (AlbumView { image_ref: None, ..album }),
            settings,
        ).image_ref is None,
{
}

/// The group of a release is looked for before the release itself, and neither where its
/// identifier is not one.
pub proof fn release_groups_come_before_releases(
    album: AlbumView,
    group: Seq<char>,
    release: Seq<char>,
)
    requires
        album.musicbrainz_release_group_id == Some(group),
        album.musicbrainz_album_id == Some(release),
    ensures
        is_mbid(group) ==> (identity_ref(album) matches Some(image_ref) && image_ref.item_id
            == "external:mb-release"@ + "-group:"@ + group),
        !is_mbid(group) && is_mbid(release) ==> (identity_ref(album) matches Some(image_ref)
            && image_ref.item_id == "external:mb-release"@ + ":"@ + release),
        !is_mbid(group) && !is_mbid(release) ==> identity_ref(album) is None,
{
}

/// A track is shown by its own image, where that is from the source and does not stand for its
/// album without a tag; else by that of its album; else by what artist and album name, where
/// looking outside is on.
pub proof fn tracks_are_shown_by_what_is_nearest(
    track: TrackView,
    own: ImageRefView,
    beside: ImageRefView,
    settings: AppSettingsView,
)
    requires
        !is_external(own),
        !is_external(beside),
        own.item_id != track.album_id,
    ensures
        normalized_track_beside(
            (TrackView { image_ref: Some(own), ..track }),
            Some(beside),
            settings,
        ).image_ref == Some(own),
        normalized_track_beside(
            (TrackView { image_ref: None, ..track }),
            Some(beside),
            settings,
        ).image_ref == Some(beside),
        normalized_track_beside(
            (TrackView { image_ref: None, ..track }),
            None,
            settings,
        ).image_ref == (if settings.external_metadata_enabled && !settings.private_mode {
            album_ref(track.artist, track.album)
        } else {
            None
        }),
{
}

/// Names that say nothing are not looked for: an empty one has no image, and a name is looked
/// for without the white space around it.
pub proof fn names_are_looked_for_as_they_are(name: Seq<char>)
    ensures
        text::trimmed(name).len() == 0 ==> lookup_value(name) is None,
        lookup_value(name) matches Some(looked) ==> looked == text::trimmed(name),
{
}

/// Latin letters, digits and the marks that need no encoding stay as they are; every other byte
/// becomes a percent sign and two digits of sixteen.
pub proof fn plain_bytes_are_not_encoded(byte: u8)
    ensures
        ({
            let plain = ('a' as u8 <= byte <= 'z' as u8) || ('A' as u8 <= byte <= 'Z' as u8) || (
            '0' as u8 <= byte <= '9' as u8) || byte == '-' as u8 || byte == '_' as u8 || byte
                == '.' as u8 || byte == '~' as u8;
            &&& plain ==> percent_encoded(seq![byte]) == seq![byte]
            &&& !plain ==> percent_encoded(seq![byte]).len() == 3 && percent_encoded(
                seq![byte],
            )[0] == '%' as u8
        }),
{
    assert(seq![byte].drop_first() =~= Seq::<u8>::empty());
    assert(encoded_byte(byte) + Seq::<u8>::empty() =~= encoded_byte(byte));
    assert(percent_encoded(Seq::<u8>::empty()) =~= Seq::<u8>::empty());
}

} // verus!
