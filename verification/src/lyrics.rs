//! Lyrics: reading them from text, and which of them may be shown.
use crate::model::ids::TrackId;
use crate::model::lyrics::{
    JellyfinLyricsSearch, LyricLine, LyricLineView, Lyrics, LyricsSearchResult,
    LyricsSearchResultView, LyricsSource, LyricsView,
};
use crate::model::queue::QueueEntry;
use crate::model::settings::{AppSettings, AppSettingsView};
use crate::text::{
    self, all_digits, blank, char_is_whitespace, decimal, digits_value, first_index, is_digit,
    lemma_first_index, number_in, split_once_at, trimmed, trimmed_start, written_numbers_read_back,
};
use crate::value::Value;
use vstd::prelude::*;

verus! {

/// Where lyrics are looked for under the given settings.
pub open spec fn search_order(settings: AppSettingsView) -> JellyfinLyricsSearch {
    if settings.private_mode || !settings.external_lyrics_enabled {
        JellyfinLyricsSearch::ServerOnly
    } else if settings.prefer_server_lyrics {
        JellyfinLyricsSearch::ServerThenRemote
    } else {
        JellyfinLyricsSearch::RemoteThenServer
    }
}

pub fn lyrics_search_for_settings(settings: &AppSettings) -> (result: JellyfinLyricsSearch)
    ensures
        result == search_order(settings.deep_view()),
{
    if settings.private_mode || !settings.external_lyrics_enabled {
        JellyfinLyricsSearch::ServerOnly
    } else if settings.prefer_server_lyrics {
        JellyfinLyricsSearch::ServerThenRemote
    } else {
        JellyfinLyricsSearch::RemoteThenServer
    }
}

/// Whether a search goes beyond the server.
pub open spec fn remote_allowed(search: JellyfinLyricsSearch) -> bool {
    search != JellyfinLyricsSearch::ServerOnly
}

/// Whether lyrics of a source may be shown by a search.
pub open spec fn source_allowed(source: LyricsSource, search: JellyfinLyricsSearch) -> bool {
    source != LyricsSource::Remote || remote_allowed(search)
}

pub fn cached_lyrics_allowed(lyrics: &Lyrics, search: JellyfinLyricsSearch) -> (result: bool)
    ensures
        result == source_allowed(lyrics.deep_view().source, search),
{
    match lyrics.source {
        LyricsSource::Local => true,
        LyricsSource::Server => true,
        LyricsSource::Remote => search != JellyfinLyricsSearch::ServerOnly,
    }
}

/// In private mode remote lyrics are neither searched nor shown from the cache.
pub proof fn private_mode_hides_remote_lyrics(settings: AppSettingsView)
    requires
        settings.private_mode,
    ensures
        !remote_allowed(search_order(settings)),
        !source_allowed(LyricsSource::Remote, search_order(settings)),
{
}

/// A line without the carriage return that ended it.
pub open spec fn without_return(line: Seq<char>) -> Seq<char> {
    if line.len() > 0 && line.last() == '\r' {
        line.drop_last()
    } else {
        line
    }
}

/// The lines of a text, after the line begun in `open`.
pub open spec fn lines_after(content: Seq<char>, open: Seq<char>) -> Seq<Seq<char>>
    decreases content.len(),
{
    if content.len() == 0 {
        if open.len() == 0 {
            Seq::empty()
        } else {
            seq![open]
        }
    } else if content[0] == '\n' {
        seq![without_return(open)] + lines_after(content.drop_first(), Seq::empty())
    } else {
        lines_after(content.drop_first(), open.push(content[0]))
    }
}

/// The lines of a text. A line ends with a line feed, or with a carriage return and a line
/// feed; the last line need not end with either.
pub open spec fn text_lines(content: Seq<char>) -> Seq<Seq<char>> {
    lines_after(content, Seq::empty())
}

fn cut_return(line: Vec<char>) -> (result: Vec<char>)
    ensures
        result@ == without_return(line@),
{
    let mut line: Vec<char> = line;
    if line.len() > 0 && line[line.len() - 1] == '\r' {
        let _removed: Option<char> = line.pop();
    }
    line
}

/// The milliseconds that the digits after a decimal point stand for; only three count.
pub open spec fn millis_of_fraction(fraction: Seq<char>) -> Option<u64> {
    if (fraction.len() > 0 && !is_digit(fraction[0])) || (fraction.len() > 1 && !is_digit(
        fraction[1],
    )) || (fraction.len() > 2 && !is_digit(fraction[2])) {
        None
    } else {
        Some(
            ((if fraction.len() > 0 {
                (fraction[0] as u32 - 48) * 100
            } else {
                0
            }) + (if fraction.len() > 1 {
                (fraction[1] as u32 - 48) * 10
            } else {
                0
            }) + (if fraction.len() > 2 {
                (fraction[2] as u32 - 48) as int
            } else {
                0
            })) as u64,
        )
    }
}

pub fn fraction_to_millis(fraction: &[char]) -> (result: Option<u64>)
    ensures
        result == millis_of_fraction(fraction@),
{
    let mut millis: u64 = 0;
    if fraction.len() > 0 {
        let digit: char = fraction[0];
        if !('0' <= digit && digit <= '9') {
            return None;
        }
        millis = (digit as u32 - 48) as u64 * 100;
    }
    if fraction.len() > 1 {
        let digit: char = fraction[1];
        if !('0' <= digit && digit <= '9') {
            return None;
        }
        millis = millis + (digit as u32 - 48) as u64 * 10;
    }
    if fraction.len() > 2 {
        let digit: char = fraction[2];
        if !('0' <= digit && digit <= '9') {
            return None;
        }
        millis = millis + (digit as u32 - 48) as u64;
    }
    Some(millis)
}

/// The milliseconds of a time; beyond 64 bits they wrap around.
pub open spec fn time_in_millis(minutes: u64, seconds: u64, millis: u64) -> u64 {
    minutes.wrapping_mul(60).wrapping_add(seconds).wrapping_mul(1000).wrapping_add(millis)
}

/// The time that a stamp such as `01:02.34` stands for, in milliseconds.
pub open spec fn stamp_millis(stamp: Seq<char>) -> Option<u64> {
    match split_once_at(stamp, ':') {
        None => None,
        Some((minutes, rest)) => {
            let (seconds, fraction) = match split_once_at(rest, '.') {
                Some((seconds, fraction)) => (seconds, Some(fraction)),
                None => (rest, None),
            };
            let millis = match fraction {
                Some(fraction) => millis_of_fraction(fraction),
                None => Some(0u64),
            };
            match (number_in(minutes), number_in(seconds), millis) {
                (Some(minutes), Some(seconds), Some(millis)) => Some(
                    time_in_millis(minutes, seconds, millis),
                ),
                _ => None,
            }
        },
    }
}

/// The time and the text of a line that begins with a time stamp in brackets.
pub open spec fn timed_text(line: Seq<char>) -> Option<(u64, Seq<char>)> {
    let end = first_index(line, ']');
    if end == line.len() || end == 0 || line[0] as u32 >= 128 {
        None
    } else {
        match stamp_millis(line.subrange(1, end)) {
            Some(millis) => Some((millis, trimmed(line.skip(end + 1)))),
            None => None,
        }
    }
}

fn parse_stamp(stamp: &[char]) -> (result: Option<u64>)
    ensures
        result == stamp_millis(stamp@),
{
    let (minutes, rest): (Vec<char>, Vec<char>) = match text::split_once(stamp, ':') {
        Some(parts) => parts,
        None => return None,
    };
    let minutes: u64 = match text::parse_number(minutes.as_slice()) {
        Some(minutes) => minutes,
        None => return None,
    };
    let (seconds, millis): (Vec<char>, u64) = match text::split_once(rest.as_slice(), '.') {
        Some((seconds, fraction)) => match fraction_to_millis(fraction.as_slice()) {
            Some(millis) => (seconds, millis),
            None => return None,
        },
        None => (rest, 0),
    };
    let seconds: u64 = match text::parse_number(seconds.as_slice()) {
        Some(seconds) => seconds,
        None => return None,
    };
    Some(minutes.wrapping_mul(60).wrapping_add(seconds).wrapping_mul(1000).wrapping_add(millis))
}

/// The time and the text of a line that begins with a time stamp in brackets.
pub fn parse_lrc_timestamp(line: &[char]) -> (result: Option<(u64, String)>)
    ensures
        match result {
            Some((millis, rest)) => timed_text(line@) == Some((millis, rest@)),
            None => timed_text(line@) is None,
        },
{
    let end: usize = text::find_char(line, ']');
    if end == line.len() || end == 0 || line[0] as u32 >= 128 {
        return None;
    }
    let stamp: Vec<char> = text::copy_between(line, 1, end);
    let millis: u64 = match parse_stamp(stamp.as_slice()) {
        Some(millis) => millis,
        None => return None,
    };
    let rest: Vec<char> = text::copy_between(line, end + 1, line.len());
    assert(rest@ =~= line@.skip(end + 1));
    Some((millis, text::text_of(text::trim_chars(rest.as_slice()).as_slice())))
}

/// What a line of text becomes: nothing where it is blank or holds a tag, else a line of
/// lyrics, with its time where it has one.
pub open spec fn lyric_line(line: Seq<char>) -> Option<LyricLineView> {
    let content = trimmed(line);
    if content.len() == 0 {
        None
    } else if let Some((millis, rest)) = timed_text(content) {
        Some(LyricLineView { text: rest, start_millis: Some(millis) })
    } else if content[0] == '[' && first_index(content, ']') < content.len() {
        None
    } else {
        Some(LyricLineView { text: content, start_millis: None })
    }
}

pub fn lyric_line_from_text(line: &[char]) -> (result: Option<LyricLine>)
    ensures
        result.deep_view() == lyric_line(line@),
{
    let content: Vec<char> = text::trim_chars(line);
    if content.len() == 0 {
        return None;
    }
    if let Some((millis, rest)) = parse_lrc_timestamp(content.as_slice()) {
        return Some(LyricLine { text: rest, start_millis: Some(millis) });
    }
    if content[0] == '[' && text::find_char(content.as_slice(), ']') < content.len() {
        return None;
    }
    Some(LyricLine { text: text::text_of(content.as_slice()), start_millis: None })
}

/// The lines of lyrics that lines of text become.
pub open spec fn lyric_lines(lines: Seq<Seq<char>>) -> Seq<LyricLineView>
    decreases lines.len(),
{
    if lines.len() == 0 {
        Seq::empty()
    } else {
        match lyric_line(lines[0]) {
            Some(line) => seq![line] + lyric_lines(lines.drop_first()),
            None => lyric_lines(lines.drop_first()),
        }
    }
}

/// The lines of lyrics in a text.
pub open spec fn lyrics_in(content: Seq<char>) -> Seq<LyricLineView> {
    lyric_lines(text_lines(content))
}

/// The lines of lyrics in a text.
pub fn parse_lyric_lines(content: &str) -> (result: Vec<LyricLine>)
    ensures
        result.deep_view() == lyrics_in(content@),
{
    let characters: Vec<char> = text::chars(content);
    let mut result: Vec<LyricLine> = Vec::new();
    let mut open: Vec<char> = Vec::new();
    let mut i: usize = 0;
    assert(characters@.skip(0) =~= characters@);
    assert(open@ =~= Seq::empty());
    assert(result.deep_view() + lyrics_in(content@) =~= lyrics_in(content@));
    while i < characters.len()
        invariant
            i <= characters@.len(),
            result.deep_view() + lyric_lines(lines_after(characters@.skip(i as int), open@))
                == lyrics_in(content@),
        decreases characters.len() - i,
    {
        let ghost rest = characters@.skip(i as int);
        assert(rest.drop_first() =~= characters@.skip(i + 1));
        if characters[i] == '\n' {
            let ghost before = result.deep_view();
            let ghost tail = lines_after(rest.drop_first(), Seq::empty());
            let line: Vec<char> = cut_return(open);
            let ghost all = seq![line@] + tail;
            assert(all.drop_first() =~= tail);
            assert(all[0] == line@);
            if let Some(parsed) = lyric_line_from_text(line.as_slice()) {
                result.push(parsed);
                assert(result.deep_view() =~= before.push(parsed.deep_view()));
                assert(before + (seq![parsed.deep_view()] + lyric_lines(tail)) =~= before.push(
                    parsed.deep_view(),
                ) + lyric_lines(tail));
            }
            open = Vec::new();
            assert(open@ =~= Seq::empty());
        } else {
            open.push(characters[i]);
        }
        i += 1;
    }
    assert(characters@.skip(i as int).len() == 0);
    assert(lyric_lines(Seq::<Seq<char>>::empty()) =~= Seq::<LyricLineView>::empty());
    if open.len() > 0 {
        let ghost before = result.deep_view();
        let ghost all = seq![open@];
        assert(all.drop_first() =~= Seq::<Seq<char>>::empty());
        assert(lines_after(characters@.skip(i as int), open@) =~= all);
        if let Some(parsed) = lyric_line_from_text(open.as_slice()) {
            result.push(parsed);
            assert(result.deep_view() =~= before.push(parsed.deep_view()));
            assert(before + (seq![parsed.deep_view()] + Seq::<LyricLineView>::empty())
                =~= before.push(parsed.deep_view()));
        } else {
            assert(before + Seq::<LyricLineView>::empty() =~= before);
        }
    } else {
        assert(result.deep_view() + Seq::<LyricLineView>::empty() =~= result.deep_view());
    }
    result
}

/// The lyrics that a hit holds: the timed ones where there are any, else the plain ones.
pub open spec fn result_content(result: LyricsSearchResultView) -> Option<Seq<char>> {
    match (result.synced_lyrics, result.plain_lyrics) {
        (Some(synced), _) if !blank(synced) => Some(synced),
        (_, Some(plain)) if !blank(plain) => Some(plain),
        _ => None,
    }
}

pub fn lyrics_result_content(result: &LyricsSearchResult) -> (content: Option<&str>)
    ensures
        content.deep_view() == result_content(result.deep_view()),
{
    if let Some(synced) = &result.synced_lyrics {
        if !text::is_blank(synced.as_str()) {
            return Some(synced.as_str());
        }
    }
    if let Some(plain) = &result.plain_lyrics {
        if !text::is_blank(plain.as_str()) {
            return Some(plain.as_str());
        }
    }
    None
}

/// The lyrics that a hit gives a track, without lines where it holds none.
pub open spec fn remote_lyrics(track_id: Seq<char>, result: LyricsSearchResultView) -> LyricsView {
    LyricsView {
        track_id,
        source: LyricsSource::Remote,
        lines: match result_content(result) {
            Some(content) => lyrics_in(content),
            None => Seq::empty(),
        },
    }
}

pub fn lyrics_from_text(track_id: TrackId, result: &LyricsSearchResult) -> (lyrics: Lyrics)
    ensures
        lyrics.deep_view() == remote_lyrics(track_id.deep_view(), result.deep_view()),
{
    let lines: Vec<LyricLine> = match lyrics_result_content(result) {
        Some(content) => parse_lyric_lines(content),
        None => Vec::new(),
    };
    assert(result_content(result.deep_view()) is None ==> lines.deep_view() =~= Seq::empty());
    Lyrics { track_id, source: LyricsSource::Remote, lines }
}

/// The lyrics that a hit gives a track, where it gives at least one line.
pub open spec fn usable_lyrics(track_id: Seq<char>, result: LyricsSearchResultView) -> Option<
    LyricsView,
> {
    let lyrics = remote_lyrics(track_id, result);
    if lyrics.lines.len() == 0 {
        None
    } else {
        Some(lyrics)
    }
}

pub fn lyrics_from_lrclib_search_result(track_id: TrackId, result: &LyricsSearchResult) -> (lyrics:
    Option<Lyrics>)
    ensures
        lyrics.deep_view() == usable_lyrics(track_id.deep_view(), result.deep_view()),
{
    let lyrics: Lyrics = lyrics_from_text(track_id, result);
    assert(lyrics.deep_view().lines.len() == lyrics.lines@.len());
    if lyrics.lines.len() == 0 {
        None
    } else {
        Some(lyrics)
    }
}

/// The lyrics of the first hit that gives any.
pub open spec fn first_usable_lyrics(
    track_id: Seq<char>,
    results: Seq<LyricsSearchResultView>,
) -> Option<LyricsView>
    decreases results.len(),
{
    if results.len() == 0 {
        None
    } else if usable_lyrics(track_id, results[0]) is Some {
        usable_lyrics(track_id, results[0])
    } else {
        first_usable_lyrics(track_id, results.drop_first())
    }
}

pub fn lyrics_from_lrclib_results(entry: &QueueEntry, results: Vec<LyricsSearchResult>) -> (lyrics:
    Option<Lyrics>)
    ensures
        lyrics.deep_view() == first_usable_lyrics(
            entry.deep_view().track_id,
            results.deep_view(),
        ),
{
    let ghost all = results.deep_view();
    let ghost track_id = entry.deep_view().track_id;
    let mut i: usize = 0;
    assert(all.skip(0) =~= all);
    while i < results.len()
        invariant
            i <= results@.len(),
            all == results.deep_view(),
            track_id == entry.deep_view().track_id,
            first_usable_lyrics(track_id, all.skip(i as int)) == first_usable_lyrics(track_id, all),
        decreases results.len() - i,
    {
        assert(all.skip(i as int).drop_first() =~= all.skip(i + 1));
        assert(all.skip(i as int)[0] == results@[i as int].deep_view());
        let lyrics: Option<Lyrics> = lyrics_from_lrclib_search_result(
            entry.track_id.copy(),
            &results[i],
        );
        if lyrics.is_some() {
            return lyrics;
        }
        i += 1;
    }
    assert(all.skip(i as int).len() == 0);
    None
}

/// The lyrics in a file beside the track's own, where they have at least one line.
pub fn sidecar_lyrics(track_id: &TrackId, content: &str) -> (result: Option<Lyrics>)
    ensures
        result.deep_view() == (if lyrics_in(content@).len() == 0 {
            None
        } else {
            Some(
                LyricsView {
                    track_id: track_id.deep_view(),
                    source: LyricsSource::Local,
                    lines: lyrics_in(content@),
                },
            )
        }),
{
    let lines: Vec<LyricLine> = parse_lyric_lines(content);
    assert(lines.deep_view().len() == lines@.len());
    if lines.len() == 0 {
        None
    } else {
        Some(Lyrics { track_id: track_id.copy(), source: LyricsSource::Local, lines })
    }
}

/// A hit made from the fields of an answer; the older name of the track is used where the
/// newer is blank.
pub fn search_result_from_fields(
    id: u64,
    track_name: String,
    name: String,
    artist_name: String,
    album_name: Option<String>,
    duration_seconds: u32,
    synced_lyrics: Option<String>,
    plain_lyrics: Option<String>,
) -> (result: LyricsSearchResult)
    ensures
        result.deep_view() == (LyricsSearchResultView {
            id,
            track_name: if blank(track_name@) {
                name@
            } else {
                track_name@
            },
            artist_name: artist_name@,
            album_name: match album_name.deep_view() {
                Some(album_name) => album_name,
                None => Seq::empty(),
            },
            duration_seconds,
            synced_lyrics: synced_lyrics.deep_view(),
            plain_lyrics: plain_lyrics.deep_view(),
        }),
{
    LyricsSearchResult {
        id,
        track_name: if text::is_blank(track_name.as_str()) {
            name
        } else {
            track_name
        },
        artist_name,
        album_name: match album_name {
            Some(album_name) => album_name,
            None => String::new(),
        },
        duration_seconds,
        synced_lyrics,
        plain_lyrics,
    }
}

/// Whether a hit names a track or an artist, and so is worth keeping.
pub fn names_something(result: &LyricsSearchResult) -> (kept: bool)
    ensures
        kept == (!blank(result.deep_view().track_name) || !blank(result.deep_view().artist_name)),
{
    !text::is_blank(result.track_name.as_str()) || !text::is_blank(result.artist_name.as_str())
}

/// A stamp of minutes and seconds stands for sixty thousand milliseconds a minute and a
/// thousand a second; the digits after the point are tenths, hundredths and thousandths of a
/// second.
pub proof fn stamps_count_in_milliseconds(
    minutes: Seq<char>,
    seconds: Seq<char>,
    tenths: nat,
    hundredths: nat,
    thousandths: nat,
)
    requires
        all_digits(minutes),
        all_digits(seconds),
        digits_value(minutes) * 60000 + digits_value(seconds) * 1000 + 999 <= u64::MAX,
        tenths < 10,
        hundredths < 10,
        thousandths < 10,
    ensures
        ({
            let whole = digits_value(minutes) * 60000 + digits_value(seconds) * 1000;
            let stamp = minutes + seq![':'] + seconds;
            let point = stamp + seq!['.'];
            &&& stamp_millis(stamp) == Some(whole as u64)
            &&& stamp_millis(point + decimal(tenths)) == Some((whole + tenths * 100) as u64)
            &&& stamp_millis(point + decimal(tenths) + decimal(hundredths)) == Some(
                (whole + tenths * 100 + hundredths * 10) as u64,
            )
            &&& stamp_millis(
                point + decimal(tenths) + decimal(hundredths) + decimal(thousandths),
            ) == Some((whole + tenths * 100 + hundredths * 10 + thousandths) as u64)
        }),
{
    let point = minutes + seq![':'] + seconds + seq!['.'];
    let one = decimal(tenths);
    let two = decimal(tenths) + decimal(hundredths);
    let three = decimal(tenths) + decimal(hundredths) + decimal(thousandths);
    lemma_whole_stamp(minutes, seconds);
    lemma_fractions(tenths, hundredths, thousandths);
    lemma_stamp_with_fraction(minutes, seconds, one, (tenths * 100) as u64);
    lemma_stamp_with_fraction(minutes, seconds, two, (tenths * 100 + hundredths * 10) as u64);
    lemma_stamp_with_fraction(
        minutes,
        seconds,
        three,
        (tenths * 100 + hundredths * 10 + thousandths) as u64,
    );
    assert(point + decimal(tenths) + decimal(hundredths) =~= point + two);
    assert(point + decimal(tenths) + decimal(hundredths) + decimal(thousandths) =~= point + three);
}

proof fn lemma_digit(digit: nat)
    requires
        digit < 10,
    ensures
        decimal(digit).len() == 1,
        is_digit(decimal(digit)[0]),
        decimal(digit)[0] as u32 == 48 + digit,
{
}

proof fn lemma_fractions(tenths: nat, hundredths: nat, thousandths: nat)
    requires
        tenths < 10,
        hundredths < 10,
        thousandths < 10,
    ensures
        millis_of_fraction(decimal(tenths)) == Some((tenths * 100) as u64),
        millis_of_fraction(decimal(tenths) + decimal(hundredths)) == Some(
            (tenths * 100 + hundredths * 10) as u64,
        ),
        millis_of_fraction(decimal(tenths) + decimal(hundredths) + decimal(thousandths)) == Some(
            (tenths * 100 + hundredths * 10 + thousandths) as u64,
        ),
{
    lemma_digit(tenths);
    lemma_digit(hundredths);
    lemma_digit(thousandths);
    let two = decimal(tenths) + decimal(hundredths);
    let three = two + decimal(thousandths);
    assert(two[0] == decimal(tenths)[0]);
    assert(two[1] == decimal(hundredths)[0]);
    assert(three[0] == decimal(tenths)[0]);
    assert(three[1] == decimal(hundredths)[0]);
    assert(three[2] == decimal(thousandths)[0]);
}

proof fn lemma_time(minutes: u64, seconds: u64, millis: u64)
    requires
        minutes * 60000 + seconds * 1000 + millis <= u64::MAX,
    ensures
        time_in_millis(minutes, seconds, millis) == minutes * 60000 + seconds * 1000 + millis,
{
}

proof fn lemma_digits_hold_no(digits: Seq<char>, other: char)
    requires
        all_digits(digits),
        !is_digit(other),
    ensures
        forall|i: int| 0 <= i < digits.len() ==> digits[i] != other,
        digits[0] != '+',
{
    assert forall|i: int| 0 <= i < digits.len() implies digits[i] != other by {
        assert(is_digit(digits[i]));
    }
    assert(is_digit(digits[0]));
}

proof fn lemma_whole_stamp(minutes: Seq<char>, seconds: Seq<char>)
    requires
        all_digits(minutes),
        all_digits(seconds),
        digits_value(minutes) * 60000 + digits_value(seconds) * 1000 + 999 <= u64::MAX,
    ensures
        stamp_millis(minutes + seq![':'] + seconds) == Some(
            (digits_value(minutes) * 60000 + digits_value(seconds) * 1000) as u64,
        ),
{
    let stamp = minutes + seq![':'] + seconds;
    lemma_digits_hold_no(minutes, ':');
    lemma_digits_hold_no(seconds, '.');
    lemma_first_index(stamp, ':', minutes.len() as int);
    assert(stamp.take(minutes.len() as int) =~= minutes);
    assert(stamp.skip(minutes.len() as int + 1) =~= seconds);
    lemma_first_index(seconds, '.', seconds.len() as int);
    lemma_time(digits_value(minutes) as u64, digits_value(seconds) as u64, 0);
}

proof fn lemma_stamp_with_fraction(
    minutes: Seq<char>,
    seconds: Seq<char>,
    fraction: Seq<char>,
    millis: u64,
)
    requires
        all_digits(minutes),
        all_digits(seconds),
        millis < 1000,
        millis_of_fraction(fraction) == Some(millis),
        digits_value(minutes) * 60000 + digits_value(seconds) * 1000 + 999 <= u64::MAX,
    ensures
        stamp_millis(minutes + seq![':'] + seconds + seq!['.'] + fraction) == Some(
            (digits_value(minutes) * 60000 + digits_value(seconds) * 1000 + millis) as u64,
        ),
{
    let stamp = minutes + seq![':'] + seconds + seq!['.'] + fraction;
    let rest = seconds + seq!['.'] + fraction;
    lemma_digits_hold_no(minutes, ':');
    lemma_digits_hold_no(seconds, '.');
    lemma_first_index(stamp, ':', minutes.len() as int);
    assert(stamp.take(minutes.len() as int) =~= minutes);
    assert(stamp.skip(minutes.len() as int + 1) =~= rest);
    lemma_first_index(rest, '.', seconds.len() as int);
    assert(rest.take(seconds.len() as int) =~= seconds);
    assert(rest.skip(seconds.len() as int + 1) =~= fraction);
    lemma_time(digits_value(minutes) as u64, digits_value(seconds) as u64, millis);
}

/// A minute more is sixty seconds more.
pub proof fn a_minute_is_sixty_seconds(minutes: nat, seconds: nat)
    requires
        (minutes + 1) * 60000 + (seconds + 60) * 1000 + 999 <= u64::MAX,
    ensures
        stamp_millis(decimal(minutes + 1) + seq![':'] + decimal(seconds)) == stamp_millis(
            decimal(minutes) + seq![':'] + decimal(seconds + 60),
        ),
        stamp_millis(decimal(minutes) + seq![':'] + decimal(seconds)) == Some(
            (minutes * 60000 + seconds * 1000) as u64,
        ),
{
    let none = Seq::<char>::empty();
    written_numbers_read_back(minutes, none);
    written_numbers_read_back(minutes + 1, none);
    written_numbers_read_back(seconds, none);
    written_numbers_read_back(seconds + 60, none);
    assert(none + decimal(minutes) =~= decimal(minutes));
    assert(none + decimal(minutes + 1) =~= decimal(minutes + 1));
    assert(none + decimal(seconds) =~= decimal(seconds));
    assert(none + decimal(seconds + 60) =~= decimal(seconds + 60));
    stamps_count_in_milliseconds(decimal(minutes), decimal(seconds), 0, 0, 0);
    stamps_count_in_milliseconds(decimal(minutes + 1), decimal(seconds), 0, 0, 0);
    stamps_count_in_milliseconds(decimal(minutes), decimal(seconds + 60), 0, 0, 0);
}

/// A line with a stamp in brackets before its text is that text at the stamp's time, without
/// the white space between them.
pub proof fn stamped_lines_are_timed(
    minutes: Seq<char>,
    seconds: Seq<char>,
    space: Seq<char>,
    text: Seq<char>,
)
    requires
        all_digits(minutes),
        all_digits(seconds),
        digits_value(minutes) * 60000 + digits_value(seconds) * 1000 + 999 <= u64::MAX,
        forall|i: int|
            0 <= i < space.len() ==> char_is_whitespace(#[trigger] space[i]) && space[i] != '\n',
        text.len() == 0 ==> space.len() == 0,
        text.len() > 0 ==> !char_is_whitespace(text[0]) && !char_is_whitespace(text.last()),
        !text.contains('\n'),
    ensures
        lyrics_in(seq!['['] + minutes + seq![':'] + seconds + seq![']'] + space + text) == seq![
            LyricLineView {
                text,
                start_millis: Some(
                    (digits_value(minutes) * 60000 + digits_value(seconds) * 1000) as u64,
                ),
            },
        ],
{
    let stamp = minutes + seq![':'] + seconds;
    let rest = space + text;
    let line = seq!['['] + minutes + seq![':'] + seconds + seq![']'] + space + text;
    assert(line =~= seq!['['] + stamp + seq![']'] + rest);
    lemma_whole_stamp(minutes, seconds);
    lemma_digits_hold_no(minutes, ']');
    lemma_digits_hold_no(seconds, ']');
    lemma_digits_hold_no(minutes, '\n');
    lemma_digits_hold_no(seconds, '\n');
    lemma_space_is_trimmed(space, text);
    reveal(char_is_whitespace);
    if text.len() == 0 {
        assert(line.last() == ']');
    } else {
        assert(line.last() == text.last());
    }
    assert(trimmed(line) == line);
    lemma_first_index(line, ']', stamp.len() as int + 1);
    assert(line.subrange(1, stamp.len() as int + 1) =~= stamp);
    assert(line.skip(stamp.len() as int + 2) =~= rest);
    assert(!line.contains('\n')) by {
        if line.contains('\n') {
            let i = choose|i: int| 0 <= i < line.len() && line[i] == '\n';
            let start = stamp.len() as int + 2;
            if i >= start + space.len() {
                assert(text[i - start - space.len()] == '\n');
            } else if i >= start {
                assert(space[i - start] == '\n');
            }
        }
    }
    lemma_one_line(line);
}

proof fn lemma_space_is_trimmed(space: Seq<char>, text: Seq<char>)
    requires
        forall|i: int| 0 <= i < space.len() ==> char_is_whitespace(#[trigger] space[i]),
        text.len() == 0 ==> space.len() == 0,
        text.len() > 0 ==> !char_is_whitespace(text[0]) && !char_is_whitespace(text.last()),
    ensures
        trimmed(space + text) == text,
    decreases space.len(),
{
    let all = space + text;
    if space.len() > 0 {
        let rest = space.drop_first();
        assert(all.drop_first() =~= rest + text);
        assert(all[0] == space[0]);
        assert forall|i: int| 0 <= i < rest.len() implies char_is_whitespace(
            #[trigger] rest[i],
        ) by {
            assert(rest[i] == space[i + 1]);
        }
        lemma_space_is_trimmed(rest, text);
    } else {
        assert(all =~= text);
    }
}

proof fn lemma_one_line(line: Seq<char>)
    requires
        line.len() > 0,
        !line.contains('\n'),
    ensures
        lyrics_in(line) == (match lyric_line(line) {
            Some(line) => seq![line],
            None => Seq::empty(),
        }),
{
    lemma_unended_line(line, Seq::empty());
    assert(Seq::<char>::empty() + line =~= line);
    assert(seq![line].drop_first() =~= Seq::<Seq<char>>::empty());
    assert(lyric_lines(Seq::<Seq<char>>::empty()) =~= Seq::<LyricLineView>::empty());
    if let Some(found) = lyric_line(line) {
        assert(seq![found] + Seq::<LyricLineView>::empty() =~= seq![found]);
    }
}

proof fn lemma_unended_line(content: Seq<char>, open: Seq<char>)
    requires
        open.len() + content.len() > 0,
        !content.contains('\n'),
    ensures
        lines_after(content, open) == seq![open + content],
    decreases content.len(),
{
    if content.len() > 0 {
        assert(content.contains(content[0]));
        assert(!content.drop_first().contains('\n')) by {
            if content.drop_first().contains('\n') {
                let i = choose|i: int|
                    0 <= i < content.drop_first().len() && content.drop_first()[i] == '\n';
                assert(content[i + 1] == '\n');
            }
        }
        lemma_unended_line(content.drop_first(), open.push(content[0]));
        assert(open.push(content[0]) + content.drop_first() =~= open + content);
    } else {
        assert(open + content =~= open);
    }
}

/// A line without brackets is a line of lyrics without a time, and a line that holds a tag in
/// brackets, or nothing, is none.
pub proof fn plain_lines_stay_and_tags_go(text: Seq<char>, tag: Seq<char>)
    requires
        text.len() > 0,
        !text.contains('\n'),
        !text.contains(']'),
        !char_is_whitespace(text[0]),
        !char_is_whitespace(text.last()),
        !tag.contains('\n'),
        !tag.contains(']'),
        !tag.contains(':'),
    ensures
        lyrics_in(text) == seq![LyricLineView { text, start_millis: None }],
        lyrics_in(seq!['['] + tag + seq![']']) == Seq::<LyricLineView>::empty(),
        lyrics_in(Seq::empty()) == Seq::<LyricLineView>::empty(),
{
    lemma_one_line(text);
    assert(trimmed(text) == text);
    assert(!text.contains(']'));
    lemma_first_index(text, ']', text.len() as int);
    let line = seq!['['] + tag + seq![']'];
    reveal(char_is_whitespace);
    assert(line[0] == '[' && line.last() == ']');
    assert(trimmed(line) == line);
    assert forall|i: int| 0 <= i < tag.len() implies tag[i] != ']' && tag[i] != ':' && tag[i]
        != '\n' by {
        assert(tag.contains(tag[i]));
    }
    assert(!line.contains('\n'));
    lemma_one_line(line);
    lemma_first_index(line, ']', tag.len() as int + 1);
    assert(line.subrange(1, tag.len() as int + 1) =~= tag);
    lemma_first_index(tag, ':', tag.len() as int);
}

/// Lyrics are read line by line: those of two texts, each on lines of its own, are those of
/// the one followed by those of the other.
pub proof fn lyrics_are_read_line_by_line(first: Seq<char>, second: Seq<char>)
    ensures
        lyrics_in(first + seq!['\n'] + second) == lyrics_in(first) + lyrics_in(second),
{
    lemma_lines_apart(first, second, Seq::empty());
}

proof fn lemma_lines_apart(first: Seq<char>, second: Seq<char>, open: Seq<char>)
    ensures
        lyric_lines(lines_after(first + seq!['\n'] + second, open)) == lyric_lines(
            lines_after(first, open),
        ) + lyrics_in(second),
    decreases first.len(),
{
    let all = first + seq!['\n'] + second;
    if first.len() == 0 {
        assert(all[0] == '\n');
        assert(all.drop_first() =~= second);
        lemma_first_line(without_return(open), text_lines(second));
        lemma_return_is_trimmed(open);
        if open.len() == 0 {
            assert(lyric_lines(Seq::<Seq<char>>::empty()) =~= Seq::<LyricLineView>::empty());
        } else {
            lemma_first_line(open, Seq::empty());
            assert(seq![open] + Seq::<Seq<char>>::empty() =~= seq![open]);
        }
        assert(lyric_lines(lines_after(first, open)) + lyrics_in(second) =~= lyric_lines(
            lines_after(all, open),
        ));
    } else {
        assert(all[0] == first[0]);
        assert(all.drop_first() =~= first.drop_first() + seq!['\n'] + second);
        if first[0] == '\n' {
            lemma_lines_apart(first.drop_first(), second, Seq::empty());
            let rest = lines_after(first.drop_first(), Seq::empty());
            lemma_first_line(without_return(open), rest);
            lemma_first_line(without_return(open), lines_after(all.drop_first(), Seq::empty()));
            assert(lyric_lines(lines_after(first, open)) + lyrics_in(second) =~= lyric_lines(
                lines_after(all, open),
            ));
        } else {
            lemma_lines_apart(first.drop_first(), second, open.push(first[0]));
        }
    }
}

proof fn lemma_first_line(line: Seq<char>, rest: Seq<Seq<char>>)
    ensures
        lyric_lines(seq![line] + rest) == (match lyric_line(line) {
            Some(line) => seq![line] + lyric_lines(rest),
            None => lyric_lines(rest),
        }),
{
    assert((seq![line] + rest).drop_first() =~= rest);
}

proof fn lemma_return_is_trimmed(line: Seq<char>)
    ensures
        trimmed(without_return(line)) == trimmed(line),
        lyric_line(without_return(line)) == lyric_line(line),
    decreases line.len(),
{
    reveal(char_is_whitespace);
    if line.len() > 0 && line.last() == '\r' {
        if char_is_whitespace(line[0]) {
            if line.len() > 1 {
                assert(line.drop_first().last() == '\r');
                assert(line.drop_last().drop_first() =~= line.drop_first().drop_last());
                lemma_return_is_trimmed(line.drop_first());
            } else {
                assert(line.drop_first() =~= Seq::<char>::empty());
                assert(line.drop_last() =~= Seq::<char>::empty());
            }
        } else {
            assert(trimmed_start(line) == line);
            assert(line.drop_last()[0] == line[0]);
        }
    }
}

/// Timed lyrics are taken where a hit holds any, else the plain ones, and the lyrics are those
/// of the track that they are for.
pub proof fn timed_lyrics_are_preferred(track_id: Seq<char>, hit: LyricsSearchResultView)
    ensures
        remote_lyrics(track_id, hit).track_id == track_id,
        remote_lyrics(track_id, hit).source == LyricsSource::Remote,
        hit.synced_lyrics matches Some(synced) && !blank(synced) ==> remote_lyrics(
            track_id,
            hit,
        ).lines == lyrics_in(hit.synced_lyrics->0),
        !(hit.synced_lyrics matches Some(synced) && !blank(synced)) && hit.plain_lyrics is Some
            ==> remote_lyrics(track_id, hit).lines == lyrics_in(hit.plain_lyrics->0)
            || blank(hit.plain_lyrics->0),
{
}

/// Of the hits the first that gives lines is taken, and nothing is where none gives any.
pub proof fn the_first_usable_hit_is_taken(track_id: Seq<char>, hits: Seq<LyricsSearchResultView>)
    ensures
        match first_usable_lyrics(track_id, hits) {
            Some(lyrics) => lyrics.lines.len() > 0 && exists|i: int|
                0 <= i < hits.len() && lyrics == remote_lyrics(track_id, #[trigger] hits[i]) && (
                forall|j: int|
                    0 <= j < i ==> remote_lyrics(track_id, #[trigger] hits[j]).lines.len() == 0),
            None => forall|i: int|
                0 <= i < hits.len() ==> remote_lyrics(track_id, #[trigger] hits[i]).lines.len()
                    == 0,
        },
    decreases hits.len(),
{
    if hits.len() > 0 {
        let rest = hits.drop_first();
        the_first_usable_hit_is_taken(track_id, rest);
        if remote_lyrics(track_id, hits[0]).lines.len() > 0 {
            assert(first_usable_lyrics(track_id, hits) == Some(remote_lyrics(track_id, hits[0])));
        } else {
            assert(forall|j: int| 0 < j < hits.len() ==> hits[j] == #[trigger] rest[j - 1]);
            if let Some(lyrics) = first_usable_lyrics(track_id, rest) {
                let i = choose|i: int|
                    0 <= i < rest.len() && lyrics == remote_lyrics(track_id, #[trigger] rest[i])
                        && (forall|j: int|
                        0 <= j < i ==> remote_lyrics(track_id, #[trigger] rest[j]).lines.len()
                            == 0);
                assert(hits[i + 1] == rest[i]);
                assert forall|j: int| 0 <= j < i + 1 implies remote_lyrics(
                    track_id,
                    #[trigger] hits[j],
                ).lines.len() == 0 by {
                    if j > 0 {
                        assert(hits[j] == rest[j - 1]);
                    }
                }
            } else {
                assert forall|i: int| 0 <= i < hits.len() implies remote_lyrics(
                    track_id,
                    #[trigger] hits[i],
                ).lines.len() == 0 by {
                    if i > 0 {
                        assert(hits[i] == rest[i - 1]);
                    }
                }
            }
        }
    }
}

/// Lyrics are looked for elsewhere exactly where that is on and private mode is off, and on
/// the server first exactly where that is preferred; local lyrics are always shown.
pub proof fn lyrics_settings_are_kept(settings: AppSettingsView)
    ensures
        remote_allowed(search_order(settings)) == (settings.external_lyrics_enabled
            && !settings.private_mode),
        remote_allowed(search_order(settings)) ==> (search_order(settings)
            == JellyfinLyricsSearch::ServerThenRemote) == settings.prefer_server_lyrics,
        source_allowed(LyricsSource::Local, search_order(settings)),
        source_allowed(LyricsSource::Server, search_order(settings)),
        source_allowed(LyricsSource::Remote, search_order(settings)) == (
        settings.external_lyrics_enabled && !settings.private_mode),
{
}

} // verus!
