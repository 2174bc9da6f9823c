//! Text as sequences of characters: searching, cutting, folding and numbers.
use vstd::prelude::*;
use vstd::string::StringSliceAdditionalSpecFns;
use vstd::utf8::{decode_utf8, valid_utf8};

verus! {

/// A result taken by the contents of its texts.
pub open spec fn text_outcome(result: Result<String, String>) -> Result<Seq<char>, Seq<char>> {
    match result {
        Ok(value) => Ok(value@),
        Err(error) => Err(error@),
    }
}

/// Whether a character has the Unicode property `White_Space`.
#[verifier::opaque]
pub open spec fn char_is_whitespace(character: char) -> bool {
    let code = character as u32;
    ||| 0x9 <= code <= 0xD
    ||| code == 0x20
    ||| code == 0x85
    ||| code == 0xA0
    ||| code == 0x1680
    ||| 0x2000 <= code <= 0x200A
    ||| 0x2028 <= code <= 0x2029
    ||| code == 0x202F
    ||| code == 0x205F
    ||| code == 0x3000
}

/// `char::is_whitespace` tells whether a character has the Unicode property `White_Space`.
pub assume_specification[ char::is_whitespace ](character: char) -> (result: bool)
    ensures
        result == char_is_whitespace(character),
;

/// The answer of `char::is_alphanumeric`, the Unicode letters and numbers.
pub uninterp spec fn char_is_alphanumeric(character: char) -> bool;

/// `char::is_alphanumeric` depends on the character alone.
pub assume_specification[ char::is_alphanumeric ](character: char) -> (result: bool)
    ensures
        result == char_is_alphanumeric(character),
;

/// The characters that `char::to_lowercase` yields.
pub uninterp spec fn char_lowercase(character: char) -> Seq<char>;

/// Calls `char::to_lowercase`; the characters it yields depend on the character alone.
#[verifier::external_body]
fn lowercase_of(character: char) -> (result: String)
    ensures
        result@ == char_lowercase(character),
{
    character.to_lowercase().to_string()
}

/// The text that `str::to_lowercase` gives.
pub uninterp spec fn lowercase(text: Seq<char>) -> Seq<char>;

/// `str::to_lowercase` depends on the text alone.
pub assume_specification[ str::to_lowercase ](subject: &str) -> (result: String)
    ensures
        result@ == lowercase(subject@),
;

/// `String::push` appends one character.
pub assume_specification[ String::push ](subject: &mut String, character: char)
    ensures
        final(subject)@ == old(subject)@.push(character),
;

/// `String::push_str` appends a text.
pub assume_specification[ String::push_str ](subject: &mut String, tail: &str)
    ensures
        final(subject)@ == old(subject)@ + tail@,
;

/// Calls `String::from_utf8`: it accepts exactly the valid UTF-8 sequences, and gives
/// the text that they encode.
#[verifier::external_body]
fn string_from_utf8(bytes: Vec<u8>) -> (result: Option<String>)
    ensures
        result is Some <==> valid_utf8(bytes@),
        result matches Some(text) ==> text@ == decode_utf8(bytes@),
{
    String::from_utf8(bytes).ok()
}

/// The text that a byte sequence encodes, where it is valid UTF-8.
pub fn decode_bytes(bytes: Vec<u8>) -> (result: Option<String>)
    ensures
        result.deep_view() == (if valid_utf8(bytes@) {
            Some(decode_utf8(bytes@))
        } else {
            None
        }),
{
    string_from_utf8(bytes)
}

/// The characters of a text.
pub fn chars(text: &str) -> (result: Vec<char>)
    ensures
        result@ == text@,
{
    let mut result: Vec<char> = Vec::new();
    for character in iter: text.chars()
        invariant
            result@ == iter.seq().take(iter.index()),
            iter.seq() == text@,
    {
        assert(iter.seq().take(iter.index() + 1) =~= iter.seq().take(iter.index()).push(
            iter.seq()[iter.index()],
        ));
        result.push(character);
    }
    assert(text@.take(text@.len() as int) =~= text@);
    result
}

/// The text made of the given characters.
pub fn text_of(characters: &[char]) -> (result: String)
    ensures
        result@ == characters@,
{
    text_between(characters, 0, characters.len())
}

/// The text made of the characters from `start` up to `end`.
pub fn text_between(characters: &[char], start: usize, end: usize) -> (result: String)
    requires
        start <= end <= characters@.len(),
    ensures
        result@ == characters@.subrange(start as int, end as int),
{
    let mut result: String = String::new();
    let mut i: usize = start;
    while i < end
        invariant
            start <= i <= end <= characters@.len(),
            result@ == characters@.subrange(start as int, i as int),
        decreases end - i,
    {
        result.push(characters[i]);
        assert(characters@.subrange(start as int, i + 1) =~= characters@.subrange(
            start as int,
            i as int,
        ).push(characters@[i as int]));
        i += 1;
    }
    result
}

/// A string with the contents of `text`.
pub fn owned(text: &str) -> (result: String)
    ensures
        result@ == text@,
{
    text.to_owned()
}

/// The two texts one after the other.
pub fn concat(left: &str, right: &str) -> (result: String)
    ensures
        result@ == left@ + right@,
{
    let mut result: String = left.to_owned();
    result.push_str(right);
    result
}

/// Whether `prefix` stands at position `at` of `text`.
pub open spec fn stands_at(text: Seq<char>, needle: Seq<char>, at: int) -> bool {
    &&& 0 <= at
    &&& at + needle.len() <= text.len()
    &&& text.subrange(at, at + needle.len()) == needle
}

/// Whether `needle` stands anywhere in `text`.
pub open spec fn occurs(text: Seq<char>, needle: Seq<char>) -> bool {
    exists|at: int| stands_at(text, needle, at)
}

fn matches_at(text: &[char], needle: &[char], at: usize) -> (result: bool)
    ensures
        result == stands_at(text@, needle@, at as int),
{
    if needle.len() > text.len() || at > text.len() - needle.len() {
        return false;
    }
    let mut i: usize = 0;
    while i < needle.len()
        invariant
            i <= needle.len(),
            at + needle.len() <= text.len(),
            forall|j: int| 0 <= j < i ==> text@[at + j] == needle@[j],
        decreases needle.len() - i,
    {
        if text[at + i] != needle[i] {
            assert(text@.subrange(at as int, at + needle@.len())[i as int] != needle@[i as int]);
            return false;
        }
        i += 1;
    }
    assert(text@.subrange(at as int, at + needle@.len()) =~= needle@);
    true
}

/// Whether `text` begins with `prefix`.
pub fn starts_with(text: &str, prefix: &str) -> (result: bool)
    ensures
        result == prefix@.is_prefix_of(text@),
{
    let text_chars: Vec<char> = chars(text);
    let prefix_chars: Vec<char> = chars(prefix);
    let result: bool = matches_at(text_chars.as_slice(), prefix_chars.as_slice(), 0);
    result
}

/// Whether `needle` stands anywhere in `text`.
pub fn contains(text: &str, needle: &str) -> (result: bool)
    ensures
        result == occurs(text@, needle@),
{
    let text_chars: Vec<char> = chars(text);
    let needle_chars: Vec<char> = chars(needle);
    let mut at: usize = 0;
    while at < text_chars.len()
        invariant
            at <= text_chars@.len(),
            text_chars@ == text@,
            needle_chars@ == needle@,
            forall|j: int| 0 <= j < at ==> !stands_at(text@, needle@, j),
        decreases text_chars.len() - at,
    {
        if matches_at(text_chars.as_slice(), needle_chars.as_slice(), at) {
            return true;
        }
        at += 1;
    }
    let result: bool = matches_at(text_chars.as_slice(), needle_chars.as_slice(), at);
    proof {
        if occurs(text@, needle@) {
            let found = choose|j: int| stands_at(text@, needle@, j);
            assert(found == at);
        }
    }
    result
}

/// What follows `prefix` in `text`, where `text` begins with it.
pub fn strip_prefix(text: &str, prefix: &str) -> (result: Option<String>)
    ensures
        result.deep_view() == (if prefix@.is_prefix_of(text@) {
            Some(text@.skip(prefix@.len() as int))
        } else {
            None
        }),
{
    let text_chars: Vec<char> = chars(text);
    let prefix_chars: Vec<char> = chars(prefix);
    if !matches_at(text_chars.as_slice(), prefix_chars.as_slice(), 0) {
        return None;
    }
    let rest: String = text_between(text_chars.as_slice(), prefix_chars.len(), text_chars.len());
    assert(rest@ =~= text@.skip(prefix@.len() as int));
    Some(rest)
}

/// The first position of a character, or the length where it does not occur.
pub open spec fn first_index(text: Seq<char>, wanted: char) -> int
    decreases text.len(),
{
    if text.len() == 0 || text[0] == wanted {
        0
    } else {
        1 + first_index(text.drop_first(), wanted)
    }
}

pub proof fn lemma_first_index(text: Seq<char>, wanted: char, at: int)
    requires
        0 <= at <= text.len(),
        forall|j: int| 0 <= j < at ==> text[j] != wanted,
        at < text.len() ==> text[at] == wanted,
    ensures
        first_index(text, wanted) == at,
    decreases text.len(),
{
    if text.len() > 0 && text[0] != wanted {
        assert(forall|j: int| 0 <= j < at - 1 ==> text.drop_first()[j] == text[j + 1]);
        lemma_first_index(text.drop_first(), wanted, at - 1);
    }
}

/// The first position of a character, or the length where it does not occur.
pub fn find_char(text: &[char], wanted: char) -> (result: usize)
    ensures
        result == first_index(text@, wanted),
        result <= text@.len(),
        result < text@.len() ==> text@[result as int] == wanted,
        forall|j: int| 0 <= j < result ==> text@[j] != wanted,
{
    let mut i: usize = 0;
    while i < text.len()
        invariant
            i <= text.len(),
            forall|j: int| 0 <= j < i ==> text@[j] != wanted,
        decreases text.len() - i,
    {
        if text[i] == wanted {
            proof {
                lemma_first_index(text@, wanted, i as int);
            }
            return i;
        }
        i += 1;
    }
    proof {
        lemma_first_index(text@, wanted, i as int);
    }
    i
}

/// The text before and after the first occurrence of a character.
pub open spec fn split_once_at(text: Seq<char>, separator: char) -> Option<(Seq<char>, Seq<char>)> {
    let at = first_index(text, separator);
    if at < text.len() {
        Some((text.take(at), text.skip(at + 1)))
    } else {
        None
    }
}

/// The text before and after the first occurrence of a character.
pub fn split_once(text: &[char], separator: char) -> (result: Option<(Vec<char>, Vec<char>)>)
    ensures
        match result {
            Some(parts) => split_once_at(text@, separator) == Some((parts.0@, parts.1@)),
            None => split_once_at(text@, separator) is None,
        },
{
    let at: usize = find_char(text, separator);
    if at == text.len() {
        return None;
    }
    let before: Vec<char> = copy_between(text, 0, at);
    let after: Vec<char> = copy_between(text, at + 1, text.len());
    assert(before@ =~= text@.take(at as int));
    assert(after@ =~= text@.skip(at + 1));
    Some((before, after))
}

/// The characters from `start` up to `end`.
pub fn copy_between(text: &[char], start: usize, end: usize) -> (result: Vec<char>)
    requires
        start <= end <= text@.len(),
    ensures
        result@ == text@.subrange(start as int, end as int),
{
    let mut result: Vec<char> = Vec::new();
    let mut i: usize = start;
    while i < end
        invariant
            start <= i <= end <= text@.len(),
            result@ == text@.subrange(start as int, i as int),
        decreases end - i,
    {
        result.push(text[i]);
        assert(text@.subrange(start as int, i + 1) =~= text@.subrange(start as int, i as int).push(
            text@[i as int],
        ));
        i += 1;
    }
    result
}

/// The text without the white space at its beginning.
pub open spec fn trimmed_start(text: Seq<char>) -> Seq<char>
    decreases text.len(),
{
    if text.len() > 0 && char_is_whitespace(text[0]) {
        trimmed_start(text.drop_first())
    } else {
        text
    }
}

/// The text without the white space at its end.
pub open spec fn trimmed_end(text: Seq<char>) -> Seq<char>
    decreases text.len(),
{
    if text.len() > 0 && char_is_whitespace(text.last()) {
        trimmed_end(text.drop_last())
    } else {
        text
    }
}

/// The text without the white space at its two ends.
pub open spec fn trimmed(text: Seq<char>) -> Seq<char> {
    trimmed_end(trimmed_start(text))
}

/// Whether nothing is left of the text once it is trimmed.
pub open spec fn blank(text: Seq<char>) -> bool {
    trimmed(text).len() == 0
}

/// The characters without the white space at the two ends.
pub fn trim_chars(text: &[char]) -> (result: Vec<char>)
    ensures
        result@ == trimmed(text@),
{
    let mut start: usize = 0;
    assert(text@.skip(0) =~= text@);
    while start < text.len() && text[start].is_whitespace()
        invariant
            start <= text.len(),
            trimmed_start(text@) == trimmed_start(text@.skip(start as int)),
        decreases text.len() - start,
    {
        assert(text@.skip(start as int).drop_first() =~= text@.skip(start + 1));
        start += 1;
    }
    let ghost rest = text@.skip(start as int);
    assert(trimmed_start(text@) == rest);
    let mut end: usize = text.len();
    assert(text@.subrange(start as int, end as int) =~= rest);
    while end > start && text[end - 1].is_whitespace()
        invariant
            start <= end <= text.len(),
            trimmed_end(rest) == trimmed_end(text@.subrange(start as int, end as int)),
        decreases end,
    {
        assert(text@.subrange(start as int, end as int).drop_last() =~= text@.subrange(
            start as int,
            end - 1,
        ));
        end -= 1;
    }
    copy_between(text, start, end)
}

/// The text without the white space at its two ends.
pub fn trim(text: &str) -> (result: String)
    ensures
        result@ == trimmed(text@),
{
    let characters: Vec<char> = chars(text);
    text_of(trim_chars(characters.as_slice()).as_slice())
}

/// Whether nothing is left of the text once it is trimmed.
pub fn is_blank(text: &str) -> (result: bool)
    ensures
        result == blank(text@),
{
    let characters: Vec<char> = chars(text);
    trim_chars(characters.as_slice()).len() == 0
}

/// The words of a text: its longest runs without white space, after the word begun
/// in `open`.
pub open spec fn words_after(text: Seq<char>, open: Seq<char>) -> Seq<Seq<char>>
    decreases text.len(),
{
    if text.len() == 0 {
        if open.len() == 0 {
            Seq::empty()
        } else {
            seq![open]
        }
    } else if !char_is_whitespace(text[0]) {
        words_after(text.drop_first(), open.push(text[0]))
    } else if open.len() == 0 {
        words_after(text.drop_first(), Seq::empty())
    } else {
        seq![open] + words_after(text.drop_first(), Seq::empty())
    }
}

/// The words of a text: its longest runs without white space.
pub open spec fn words(text: Seq<char>) -> Seq<Seq<char>> {
    words_after(text, Seq::empty())
}

/// The words of a text: its longest runs without white space.
pub fn split_words(text: &[char]) -> (result: Vec<String>)
    ensures
        result.deep_view() == words(text@),
{
    let mut result: Vec<String> = Vec::new();
    let mut open: String = String::new();
    let mut is_open: bool = false;
    let mut i: usize = 0;
    assert(text@.skip(0) =~= text@);
    assert(result.deep_view() + words(text@) =~= words(text@));
    while i < text.len()
        invariant
            i <= text.len(),
            is_open == (open@.len() > 0),
            result.deep_view() + words_after(text@.skip(i as int), open@) == words(text@),
        decreases text.len() - i,
    {
        let ghost rest = text@.skip(i as int);
        assert(rest.drop_first() =~= text@.skip(i + 1));
        assert(rest[0] == text@[i as int]);
        if !text[i].is_whitespace() {
            open.push(text[i]);
            is_open = true;
        } else if is_open {
            let ghost before = result.deep_view();
            let ghost word = open@;
            result.push(open);
            open = String::new();
            is_open = false;
            assert(result.deep_view() =~= before.push(word));
            assert(before + (seq![word] + words_after(rest.drop_first(), Seq::empty()))
                =~= before.push(word) + words_after(rest.drop_first(), Seq::empty()));
            assert(open@ =~= Seq::empty());
        } else {
            assert(open@ =~= Seq::empty());
        }
        i += 1;
    }
    assert(text@.skip(i as int).len() == 0);
    if is_open {
        let ghost before = result.deep_view();
        let ghost word = open@;
        result.push(open);
        assert(result.deep_view() =~= before.push(word));
        assert(before + seq![word] =~= before.push(word));
    } else {
        assert(result.deep_view() + Seq::<Seq<char>>::empty() =~= result.deep_view());
    }
    result
}

/// The parts one after the other, with `separator` between them.
pub open spec fn joined(parts: Seq<Seq<char>>, separator: Seq<char>) -> Seq<char>
    decreases parts.len(),
{
    if parts.len() == 0 {
        Seq::empty()
    } else if parts.len() == 1 {
        parts[0]
    } else {
        joined(parts.drop_last(), separator) + separator + parts.last()
    }
}

/// The parts one after the other, with `separator` between them.
pub fn join(parts: &Vec<String>, separator: &str) -> (result: String)
    ensures
        result@ == joined(parts.deep_view(), separator@),
{
    let ghost all = parts.deep_view();
    let mut result: String = String::new();
    let mut i: usize = 0;
    assert(all.take(0) =~= Seq::empty());
    while i < parts.len()
        invariant
            i <= parts.len(),
            all == parts.deep_view(),
            result@ == joined(all.take(i as int), separator@),
        decreases parts.len() - i,
    {
        assert(all.take(i + 1).drop_last() =~= all.take(i as int));
        assert(all.take(i + 1).last() == parts@[i as int]@);
        if i > 0 {
            result.push_str(separator);
        }
        result.push_str(parts[i].as_str());
        assert(i == 0 ==> result@ =~= parts@[0]@);
        i += 1;
    }
    assert(all.take(all.len() as int) =~= all);
    result
}

/// What a character leaves in folded text: its lower case, or a blank where it is neither
/// a letter nor a number.
pub open spec fn folded_char(character: char) -> Seq<char> {
    if char_is_alphanumeric(character) {
        char_lowercase(character)
    } else {
        seq![' ']
    }
}

/// The text with every character folded.
pub open spec fn folded(text: Seq<char>) -> Seq<char>
    decreases text.len(),
{
    if text.len() == 0 {
        Seq::empty()
    } else {
        folded(text.drop_last()) + folded_char(text.last())
    }
}

/// The words of the folded text, one blank apart.
pub open spec fn search_text(text: Seq<char>) -> Seq<char> {
    joined(words(folded(text)), seq![' '])
}

/// The text with every character folded.
fn fold(text: &str) -> (result: String)
    ensures
        result@ == folded(text@),
{
    let characters: Vec<char> = chars(text);
    let mut result: String = String::new();
    let mut i: usize = 0;
    while i < characters.len()
        invariant
            i <= characters.len(),
            characters@ == text@,
            result@ == folded(text@.take(i as int)),
        decreases characters.len() - i,
    {
        assert(text@.take(i + 1).drop_last() =~= text@.take(i as int));
        let character: char = characters[i];
        if character.is_alphanumeric() {
            result.push_str(lowercase_of(character).as_str());
        } else {
            let ghost before = result@;
            result.push(' ');
            assert(result@ =~= before + seq![' ']);
        }
        i += 1;
    }
    assert(text@.take(text@.len() as int) =~= text@);
    result
}

/// The lower-case words of a text, one blank apart; whatever is neither a letter nor a
/// number parts words.
pub fn normalize_search_text(value: &str) -> (result: String)
    ensures
        result@ == search_text(value@),
{
    let folded_chars: Vec<char> = chars(fold(value).as_str());
    proof {
        reveal_strlit(" ");
        assert(" "@ =~= seq![' ']);
    }
    join(&split_words(folded_chars.as_slice()), " ")
}

/// The decimal digit of a number below ten.
pub open spec fn digit_char(digit: nat) -> char {
    (('0' as u32) + digit) as char
}

/// A number in decimal notation.
pub open spec fn decimal(number: nat) -> Seq<char>
    decreases number,
{
    if number < 10 {
        seq![digit_char(number)]
    } else {
        decimal(number / 10).push(digit_char(number % 10))
    }
}

fn digit_of(digit: u64) -> (result: char)
    requires
        digit < 10,
    ensures
        result == digit_char(digit as nat),
{
    (48u8 + digit as u8) as char
}

/// A number in decimal notation.
pub fn decimal_text(number: u64) -> (result: String)
    ensures
        result@ == decimal(number as nat),
    decreases number,
{
    if number < 10 {
        let mut result: String = String::new();
        result.push(digit_of(number));
        assert(result@ =~= seq![digit_char(number as nat)]);
        result
    } else {
        let mut result: String = decimal_text(number / 10);
        result.push(digit_of(number % 10));
        result
    }
}

/// Whether a character is a decimal digit.
pub open spec fn is_digit(character: char) -> bool {
    '0' <= character <= '9'
}

/// The number that a run of decimal digits stands for.
pub open spec fn digits_value(digits: Seq<char>) -> nat
    decreases digits.len(),
{
    if digits.len() == 0 {
        0
    } else {
        digits_value(digits.drop_last()) * 10 + ((digits.last() as u32) - ('0' as u32)) as nat
    }
}

/// Whether a text is one or more decimal digits.
pub open spec fn all_digits(text: Seq<char>) -> bool {
    text.len() > 0 && forall|i: int| 0 <= i < text.len() ==> is_digit(#[trigger] text[i])
}

/// The number that a text holds: decimal digits after at most one plus sign, with a value
/// that fits in 64 bits.
pub open spec fn number_in(text: Seq<char>) -> Option<u64> {
    let digits = if text.len() > 0 && text[0] == '+' {
        text.drop_first()
    } else {
        text
    };
    if all_digits(digits) && digits_value(digits) <= u64::MAX {
        Some(digits_value(digits) as u64)
    } else {
        None
    }
}

proof fn lemma_digits_value_grows(digits: Seq<char>, count: int)
    requires
        0 <= count <= digits.len(),
    ensures
        digits_value(digits.take(count)) <= digits_value(digits),
    decreases digits.len() - count,
{
    if count == digits.len() {
        assert(digits.take(count) =~= digits);
    } else {
        lemma_digits_value_grows(digits, count + 1);
        assert(digits.take(count + 1).drop_last() =~= digits.take(count));
    }
}

/// The number that a text holds.
pub fn parse_number(text: &[char]) -> (result: Option<u64>)
    ensures
        result == number_in(text@),
{
    let start: usize = if text.len() > 0 && text[0] == '+' { 1 } else { 0 };
    let ghost digits = text@.skip(start as int);
    proof {
        if start == 1 {
            assert(text@.drop_first() =~= digits);
        } else {
            assert(text@ =~= digits);
        }
    }
    if start == text.len() {
        return None;
    }
    let mut value: u64 = 0;
    let mut i: usize = start;
    while i < text.len()
        invariant
            start <= i <= text.len(),
            start < text.len(),
            digits == text@.skip(start as int),
            number_in(text@) == (if all_digits(digits) && digits_value(digits) <= u64::MAX {
                Some(digits_value(digits) as u64)
            } else {
                None
            }),
            forall|j: int| 0 <= j < i - start ==> is_digit(#[trigger] digits[j]),
            value == digits_value(digits.take(i - start)),
        decreases text.len() - i,
    {
        let character: char = text[i];
        assert(digits[i - start] == character);
        if !('0' <= character && character <= '9') {
            return None;
        }
        let digit: u64 = (character as u32 - 48) as u64;
        assert(digits.take(i - start + 1).drop_last() =~= digits.take(i - start));
        assert(digits.take(i - start + 1).last() == character);
        proof {
            lemma_digits_value_grows(digits, i - start + 1);
        }
        if value > (u64::MAX - digit) / 10 {
            return None;
        }
        value = value * 10 + digit;
        i += 1;
    }
    assert(digits.take(i - start) =~= digits);
    Some(value)
}

/// A number below ten is written as its digit, and ten times a number and a digit as the
/// number followed by the digit.
pub proof fn decimal_notation_puts_digits_in_order(number: nat, digit: nat)
    requires
        digit < 10,
    ensures
        decimal(digit) == seq![(('0' as u32) + digit) as char],
        number > 0 ==> decimal(number * 10 + digit) == decimal(number).push(
            (('0' as u32) + digit) as char,
        ),
{
}

/// A number written in decimal notation is read as the same number, whatever zeros stand
/// before it.
pub proof fn written_numbers_read_back(number: nat, zeros: Seq<char>)
    requires
        number <= u64::MAX,
        forall|i: int| 0 <= i < zeros.len() ==> zeros[i] == '0',
    ensures
        number_in(zeros + decimal(number)) == Some(number as u64),
        all_digits(zeros + decimal(number)),
        digits_value(zeros + decimal(number)) == number,
{
    lemma_decimal_value(number, zeros);
}

pub proof fn lemma_decimal_value(number: nat, zeros: Seq<char>)
    requires
        forall|i: int| 0 <= i < zeros.len() ==> zeros[i] == '0',
    ensures
        all_digits(zeros + decimal(number)),
        digits_value(zeros + decimal(number)) == number,
    decreases number,
{
    let text = zeros + decimal(number);
    if number < 10 {
        assert(text.drop_last() =~= zeros);
        assert(text.last() == digit_char(number));
        lemma_zeros_value(zeros);
    } else {
        lemma_decimal_value(number / 10, zeros);
        let front = zeros + decimal(number / 10);
        assert(text =~= front.push(digit_char(number % 10)));
        assert(text.drop_last() =~= front);
        assert forall|i: int| 0 <= i < text.len() implies is_digit(#[trigger] text[i]) by {
            if i < front.len() {
                assert(text[i] == front[i]);
            }
        }
    }
}

proof fn lemma_zeros_value(zeros: Seq<char>)
    requires
        forall|i: int| 0 <= i < zeros.len() ==> zeros[i] == '0',
    ensures
        digits_value(zeros) == 0,
    decreases zeros.len(),
{
    if zeros.len() > 0 {
        lemma_zeros_value(zeros.drop_last());
    }
}

/// Trimming takes white space alone, all of it from both ends, and nothing else.
pub proof fn trimming_takes_the_white_space_at_the_ends(text: Seq<char>)
    ensures
        exists|start: int, end: int|
            0 <= start <= end <= text.len() && trimmed(text) == #[trigger] text.subrange(start, end)
                && (forall|i: int|
                0 <= i < start || end <= i < text.len() ==> char_is_whitespace(
                    #[trigger] text[i],
                )),
        trimmed(text).len() > 0 ==> !char_is_whitespace(trimmed(text)[0]) && !char_is_whitespace(
            trimmed(text).last(),
        ),
{
    let start = lemma_trimmed_start(text);
    let rest = text.skip(start);
    let count = lemma_trimmed_end(rest);
    assert(trimmed(text) =~= text.subrange(start, start + count));
    assert forall|i: int|
        0 <= i < start || start + count <= i < text.len() implies char_is_whitespace(
        #[trigger] text[i],
    ) by {
        if i >= start {
            assert(rest[i - start] == text[i]);
        }
    }
}

proof fn lemma_trimmed_start(text: Seq<char>) -> (start: int)
    ensures
        0 <= start <= text.len(),
        trimmed_start(text) == text.skip(start),
        forall|i: int| 0 <= i < start ==> char_is_whitespace(#[trigger] text[i]),
        start < text.len() ==> !char_is_whitespace(text[start]),
    decreases text.len(),
{
    if text.len() > 0 && char_is_whitespace(text[0]) {
        let start = lemma_trimmed_start(text.drop_first());
        assert(text.drop_first().skip(start) =~= text.skip(start + 1));
        assert forall|i: int| 0 <= i < start + 1 implies char_is_whitespace(#[trigger] text[i]) by {
            if i > 0 {
                assert(text.drop_first()[i - 1] == text[i]);
            }
        }
        start + 1
    } else {
        assert(text.skip(0) =~= text);
        0
    }
}

proof fn lemma_trimmed_end(text: Seq<char>) -> (end: int)
    ensures
        0 <= end <= text.len(),
        trimmed_end(text) == text.take(end),
        forall|i: int| end <= i < text.len() ==> char_is_whitespace(#[trigger] text[i]),
        end > 0 ==> !char_is_whitespace(text[end - 1]),
    decreases text.len(),
{
    if text.len() > 0 && char_is_whitespace(text.last()) {
        let end = lemma_trimmed_end(text.drop_last());
        assert(text.drop_last().take(end) =~= text.take(end));
        assert forall|i: int| end <= i < text.len() implies char_is_whitespace(
            #[trigger] text[i],
        ) by {
            if i < text.len() - 1 {
                assert(text.drop_last()[i] == text[i]);
            }
        }
        end
    } else {
        assert(text.take(text.len() as int) =~= text);
        text.len() as int
    }
}

/// White space parts words: the words of two texts with white space between them are those
/// of the one and those of the other.
pub proof fn white_space_parts_words(before: Seq<char>, between: char, after: Seq<char>)
    requires
        char_is_whitespace(between),
    ensures
        words(before + seq![between] + after) == words(before) + words(after),
{
    lemma_words_apart(before, between, after, Seq::empty());
}

proof fn lemma_words_apart(before: Seq<char>, between: char, after: Seq<char>, open: Seq<char>)
    requires
        char_is_whitespace(between),
    ensures
        words_after(before + seq![between] + after, open) == words_after(before, open) + words(
            after,
        ),
    decreases before.len(),
{
    let all = before + seq![between] + after;
    if before.len() == 0 {
        assert(all.drop_first() =~= after);
        assert(all[0] == between);
        assert(Seq::<Seq<char>>::empty() + words(after) =~= words(after));
    } else {
        assert(all.drop_first() =~= before.drop_first() + seq![between] + after);
        assert(all[0] == before[0]);
        if !char_is_whitespace(before[0]) {
            lemma_words_apart(before.drop_first(), between, after, open.push(before[0]));
        } else {
            lemma_words_apart(before.drop_first(), between, after, Seq::empty());
            let rest = words_after(before.drop_first(), Seq::empty());
            assert(seq![open] + (rest + words(after)) =~= (seq![open] + rest) + words(after));
        }
    }
}

/// A text without white space is one word.
pub proof fn unbroken_texts_are_one_word(text: Seq<char>)
    requires
        text.len() > 0,
        forall|i: int| 0 <= i < text.len() ==> !char_is_whitespace(#[trigger] text[i]),
    ensures
        words(text) == seq![text],
{
    lemma_unbroken_word(text, Seq::empty());
    assert(Seq::<char>::empty() + text =~= text);
}

proof fn lemma_unbroken_word(text: Seq<char>, open: Seq<char>)
    requires
        open.len() + text.len() > 0,
        forall|i: int| 0 <= i < text.len() ==> !char_is_whitespace(#[trigger] text[i]),
    ensures
        words_after(text, open) == seq![open + text],
    decreases text.len(),
{
    if text.len() > 0 {
        assert forall|i: int| 0 <= i < text.drop_first().len() implies !char_is_whitespace(
            #[trigger] text.drop_first()[i],
        ) by {
            assert(text[i + 1] == text.drop_first()[i]);
        }
        lemma_unbroken_word(text.drop_first(), open.push(text[0]));
        assert(open.push(text[0]) + text.drop_first() =~= open + text);
    } else {
        assert(open + text =~= open);
    }
}

/// Texts that differ only in case, and in what is neither a letter nor a number, are searched
/// as the same text.
pub proof fn search_ignores_case_and_punctuation(left: Seq<char>, right: Seq<char>)
    requires
        left.len() == right.len(),
        forall|i: int|
            0 <= i < left.len() ==> (if char_is_alphanumeric(#[trigger] left[i]) {
                char_is_alphanumeric(right[i]) && char_lowercase(left[i]) == char_lowercase(
                    right[i],
                )
            } else {
                !char_is_alphanumeric(right[i])
            }),
    ensures
        search_text(left) == search_text(right),
{
    lemma_folded_alike(left, right);
}

proof fn lemma_folded_alike(left: Seq<char>, right: Seq<char>)
    requires
        left.len() == right.len(),
        forall|i: int|
            0 <= i < left.len() ==> (if char_is_alphanumeric(#[trigger] left[i]) {
                char_is_alphanumeric(right[i]) && char_lowercase(left[i]) == char_lowercase(
                    right[i],
                )
            } else {
                !char_is_alphanumeric(right[i])
            }),
    ensures
        folded(left) == folded(right),
    decreases left.len(),
{
    if left.len() > 0 {
        assert(left[left.len() - 1] == left.last());
        assert forall|i: int| 0 <= i < left.drop_last().len() implies (if char_is_alphanumeric(
            #[trigger] left.drop_last()[i],
        ) {
            char_is_alphanumeric(right.drop_last()[i]) && char_lowercase(left.drop_last()[i])
                == char_lowercase(right.drop_last()[i])
        } else {
            !char_is_alphanumeric(right.drop_last()[i])
        }) by {
            assert(left[i] == left.drop_last()[i]);
        }
        lemma_folded_alike(left.drop_last(), right.drop_last());
    }
}

/// A text of letters and numbers alone is searched as its lower case, and what stands
/// between two texts and is neither a letter nor a number parts their words.
pub proof fn searched_text_is_lower_case_words(text: Seq<char>, character: char)
    ensures
        char_is_alphanumeric(character) ==> folded(text.push(character)) == folded(text)
            + char_lowercase(character),
        !char_is_alphanumeric(character) ==> words(folded(text.push(character))) == words(
            folded(text),
        ),
{
    assert(text.push(character).drop_last() =~= text);
    if !char_is_alphanumeric(character) {
        reveal(char_is_whitespace);
        white_space_parts_words(folded(text), ' ', Seq::empty());
        assert(folded(text) + seq![' '] + Seq::<char>::empty() =~= folded(text) + seq![' ']);
        assert(words(folded(text)) + words(Seq::empty()) =~= words(folded(text)));
    }
}

} // verus!
