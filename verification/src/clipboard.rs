//! Clipboard text decoding and format selection.
//!
//! RDP clipboard text arrives either as UTF-16LE with a null
//! terminator (`CF_UNICODETEXT`) or as ANSI/UTF-8 (`CF_TEXT`).  The
//! decoders take the bytes up to the terminator and reject empty or
//! undecodable data.

use vstd::prelude::*;

use vstd::utf8::decode_utf8;
use vstd::utf8::valid_utf8;

verus! {

/// The `CF_TEXT` clipboard format id.
pub const CF_TEXT: u32 = 1;

/// The `CF_UNICODETEXT` clipboard format id.
pub const CF_UNICODETEXT: u32 = 13;

/// The 16-bit little-endian words of a byte sequence of even length.
pub open spec fn spec_le_words(data: Seq<u8>) -> Seq<u16> {
    Seq::new((data.len() / 2) as nat, |i: int| (data[2 * i] + 256 * data[2 * i + 1]) as u16)
}

/// The prefix of `w` before its first zero word.
pub open spec fn spec_take_until_zero(w: Seq<u16>) -> Seq<u16>
    decreases w.len(),
{
    if w.len() == 0 {
        Seq::empty()
    } else if w[0] == 0 {
        Seq::empty()
    } else {
        seq![w[0]] + spec_take_until_zero(w.drop_first())
    }
}

/// The index of the first zero byte of `data` at or after `i`, or the
/// length when there is none.
pub open spec fn spec_find_zero_byte(data: Seq<u8>, i: int) -> int
    decreases data.len() - i,
{
    if i < 0 || i >= data.len() {
        data.len() as int
    } else if data[i] == 0 {
        i
    } else {
        spec_find_zero_byte(data, i + 1)
    }
}

/// What `String::from_utf16` returns on a given word sequence.  UTF-16
/// decoding is a function of the words alone; its definition is not
/// restated here.
pub uninterp spec fn utf16_decode(words: Seq<u16>) -> Option<Seq<char>>;

/// Relies on `String::from_utf16`: succeeds exactly on valid UTF-16
/// and decodes it.
#[verifier::external_body]
fn string_from_utf16(words: &Vec<u16>) -> (r: Option<String>)
    ensures
        r is Some <==> utf16_decode(words@) is Some,
        r matches Some(s) ==> Some(s@) == utf16_decode(words@),
{
    String::from_utf16(words.as_slice()).ok()
}

/// Relies on `String::from_utf8`: succeeds exactly on valid UTF-8 and
/// decodes it.
#[verifier::external_body]
fn string_from_utf8(bytes: Vec<u8>) -> (r: Option<String>)
    ensures
        r is Some <==> valid_utf8(bytes@),
        r matches Some(s) ==> s@ == decode_utf8(bytes@),
{
    String::from_utf8(bytes).ok()
}

/// The text a `CF_UNICODETEXT` payload decodes to: the payload must
/// hold at least one full word and an even number of bytes; the words
/// before the null terminator must be valid UTF-16 and non-empty.
pub open spec fn spec_utf16_clip_text(data: Seq<u8>) -> Option<Seq<char>> {
    if data.len() < 2 || data.len() % 2 != 0 {
        None
    } else {
        let prefix = spec_take_until_zero(spec_le_words(data));
        match utf16_decode(prefix) {
            None => None,
            Some(chars) => if chars.len() == 0 {
                None
            } else {
                Some(chars)
            },
        }
    }
}

/// The text a `CF_TEXT` payload decodes to: the bytes before the null
/// terminator must be valid UTF-8 and non-empty.
pub open spec fn spec_ansi_clip_text(data: Seq<u8>) -> Option<Seq<char>> {
    if data.len() == 0 {
        None
    } else {
        let end = spec_find_zero_byte(data, 0);
        let bytes = data.take(end);
        if !valid_utf8(bytes) {
            None
        } else {
            let chars = decode_utf8(bytes);
            if chars.len() == 0 {
                None
            } else {
                Some(chars)
            }
        }
    }
}

/// Decode clipboard bytes as UTF-16LE text (`CF_UNICODETEXT`).
pub fn decode_utf16le_text(data: &Vec<u8>) -> (r: Option<String>)
    ensures
        r is Some <==> spec_utf16_clip_text(data@) is Some,
        r matches Some(s) ==> Some(s@) == spec_utf16_clip_text(data@),
{
    let len = data.len();
    if len < 2 || len % 2 != 0 {
        return None;
    }
    let half = len / 2;
    let ghost words = spec_le_words(data@);
    let mut prefix: Vec<u16> = Vec::new();
    let mut i: usize = 0;
    let mut stopped = false;
    while i < half && !stopped
        invariant
            0 <= i <= half,
            half == data@.len() / 2,
            2 * half <= data.len(),
            data.len() == data@.len(),
            words == spec_le_words(data@),
            words.len() == half,
            !stopped ==> prefix@ == words.take(i as int) && (forall|j: int|
                0 <= j < i ==> words[j] != 0),
            stopped ==> prefix@ == spec_take_until_zero(words),
        decreases half - i, (if stopped { 0int } else { 1int }),
    {
        let w: u16 = (data[2 * i] as u16) + 256 * (data[2 * i + 1] as u16);
        proof {
            assert(w == words[i as int]);
        }
        if w == 0 {
            proof {
                lemma_take_until_zero_at(words, i as int);
            }
            stopped = true;
        } else {
            prefix.push(w);
            proof {
                assert(prefix@ =~= words.take(i + 1));
            }
            i += 1;
        }
    }
    proof {
        if !stopped {
            assert(words.take(half as int) =~= words);
            lemma_take_until_zero_at(words, half as int);
        }
        assert(prefix@ == spec_take_until_zero(words));
    }
    match string_from_utf16(&prefix) {
        Some(s) => {
            if s.as_str().is_empty() {
                None
            } else {
                Some(s)
            }
        },
        None => None,
    }
}

/// Decode clipboard bytes as ANSI/UTF-8 text (`CF_TEXT`).
pub fn decode_ansi_text(data: &Vec<u8>) -> (r: Option<String>)
    ensures
        r is Some <==> spec_ansi_clip_text(data@) is Some,
        r matches Some(s) ==> Some(s@) == spec_ansi_clip_text(data@),
{
    let len = data.len();
    if len == 0 {
        return None;
    }
    let mut end: usize = 0;
    while end < len && data[end] != 0
        invariant
            0 <= end <= len,
            len == data@.len(),
            spec_find_zero_byte(data@, 0) == spec_find_zero_byte(data@, end as int),
        decreases len - end,
    {
        end += 1;
    }
    proof {
        assert(spec_find_zero_byte(data@, 0) == end as int);
    }
    let mut bytes: Vec<u8> = Vec::new();
    let mut i: usize = 0;
    while i < end
        invariant
            0 <= i <= end <= len,
            len == data@.len(),
            bytes@ =~= data@.take(i as int),
        decreases end - i,
    {
        bytes.push(data[i]);
        proof {
            assert(bytes@ =~= data@.take(i + 1));
        }
        i += 1;
    }
    proof {
        assert(bytes@ == data@.take(end as int));
    }
    match string_from_utf8(bytes) {
        Some(s) => {
            if s.as_str().is_empty() {
                None
            } else {
                Some(s)
            }
        },
        None => None,
    }
}

/// The paste format requested when the remote side announces its
/// clipboard: Unicode text when offered, plain text otherwise, nothing
/// when neither is offered.
pub fn choose_paste_format(formats: &Vec<u32>) -> (r: Option<u32>)
    ensures
        formats@.contains(CF_UNICODETEXT) ==> r == Some(CF_UNICODETEXT),
        !formats@.contains(CF_UNICODETEXT) && formats@.contains(CF_TEXT) ==> r == Some(CF_TEXT),
        !formats@.contains(CF_UNICODETEXT) && !formats@.contains(CF_TEXT) ==> r is None,
{
    let mut has_unicode = false;
    let mut has_text = false;
    let n = formats.len();
    let mut i: usize = 0;
    while i < n
        invariant
            0 <= i <= n,
            n == formats@.len(),
            has_unicode <==> exists|j: int| 0 <= j < i && formats@[j] == CF_UNICODETEXT,
            has_text <==> exists|j: int| 0 <= j < i && formats@[j] == CF_TEXT,
        decreases n - i,
    {
        if formats[i] == CF_UNICODETEXT {
            has_unicode = true;
        }
        if formats[i] == CF_TEXT {
            has_text = true;
        }
        i += 1;
    }
    if has_unicode {
        Some(CF_UNICODETEXT)
    } else if has_text {
        Some(CF_TEXT)
    } else {
        None
    }
}

/// If no word before `i` is zero and the word at `i` is zero (or `i`
/// is the end), the prefix before the first zero is exactly the first
/// `i` words.
proof fn lemma_take_until_zero_at(words: Seq<u16>, i: int)
    requires
        0 <= i <= words.len(),
        forall|j: int| 0 <= j < i ==> words[j] != 0,
        i < words.len() ==> words[i] == 0,
    ensures
        spec_take_until_zero(words) == words.take(i),
    decreases words.len(),
{
    if words.len() == 0 {
        assert(words.take(i) =~= Seq::<u16>::empty());
    } else if i == 0 {
        assert(words.take(0) =~= Seq::<u16>::empty());
    } else {
        lemma_take_until_zero_at(words.drop_first(), i - 1);
        assert(words.drop_first().take(i - 1) =~= words.take(i).drop_first());
        assert(spec_take_until_zero(words) == seq![words[0]] + words.drop_first().take(i - 1));
        assert(seq![words[0]] + words.take(i).drop_first() =~= words.take(i));
    }
}

} // verus!
