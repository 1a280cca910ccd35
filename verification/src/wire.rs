//! Primitive wire encodings: single bytes, flags, little-endian `u32`,
//! length-prefixed byte payloads, length-prefixed UTF-8 texts and counted
//! lists of texts.
//!
//! Every length and count on the wire is a `u32`, so a payload, a text or a
//! list longer than `u32::MAX` has no encoding: the encoders refuse it.
//! Decoders work at a position inside a byte buffer and return the value
//! together with the position just behind it.

use tora::read::ToraRead;
use tora::write::ToraWrite;
use vstd::prelude::*;
use vstd::utf8::*;

verus! {

/// `std::io::Error`, with which the byte readers fail. Nothing is said of what
/// it holds.
#[verifier::external_type_specification]
#[verifier::external_body]
pub struct ExIoError(std::io::Error);

/// `std::string::FromUtf8Error`, with which the UTF-8 check fails. Nothing is
/// said of what it holds.
#[verifier::external_type_specification]
#[verifier::external_body]
pub struct ExFromUtf8Error(std::string::FromUtf8Error);

// ---------------------------------------------------------------------------
// What the bytes are
// ---------------------------------------------------------------------------

/// The four bytes of `v`, least significant first.
pub open spec fn u32_le(v: u32) -> Seq<u8> {
    seq![
        (v % 256) as u8,
        ((v / 256) % 256) as u8,
        ((v / 65536) % 256) as u8,
        (v / 16777216) as u8,
    ]
}

/// The number whose little-endian bytes are the first four of `b`.
pub open spec fn u32_from_le(b: Seq<u8>) -> u32
    recommends
        b.len() >= 4,
{
    (b[0] as int + 256 * (b[1] as int) + 65536 * (b[2] as int) + 16777216 * (b[3] as int)) as u32
}

/// The byte that stands for a flag.
pub open spec fn flag_byte(b: bool) -> u8 {
    if b {
        1
    } else {
        0
    }
}

/// Whether a length can be written as a `u32` prefix.
pub open spec fn fits_prefix(len: nat) -> bool {
    len <= u32::MAX
}

/// A byte payload on the wire: its length, then the bytes.
pub open spec fn payload_encoding(data: Seq<u8>) -> Seq<u8>
    recommends
        fits_prefix(data.len()),
{
    u32_le(data.len() as u32) + data
}

/// Whether a text can be written: its UTF-8 form fits a `u32` prefix.
pub open spec fn text_fits(text: Seq<char>) -> bool {
    fits_prefix(encode_utf8(text).len())
}

/// A text on the wire: the length of its UTF-8 form, then that form.
pub open spec fn text_encoding(text: Seq<char>) -> Seq<u8>
    recommends
        text_fits(text),
{
    payload_encoding(encode_utf8(text))
}

/// Whether a list of texts can be written: its count and each text fit.
pub open spec fn texts_fit(items: Seq<Seq<char>>) -> bool {
    &&& fits_prefix(items.len())
    &&& forall|i: int| 0 <= i < items.len() ==> text_fits(#[trigger] items[i])
}

/// The texts of a list one after the other, without the count.
pub open spec fn texts_body(items: Seq<Seq<char>>) -> Seq<u8>
    decreases items.len(),
{
    if items.len() == 0 {
        Seq::empty()
    } else {
        text_encoding(items[0]) + texts_body(items.drop_first())
    }
}

/// A list of texts on the wire: the count, then each text in order.
pub open spec fn texts_encoding(items: Seq<Seq<char>>) -> Seq<u8>
    recommends
        texts_fit(items),
{
    u32_le(items.len() as u32) + texts_body(items)
}

/// The texts that a vector of strings holds.
pub open spec fn texts_view(items: Seq<String>) -> Seq<Seq<char>> {
    Seq::new(items.len(), |i: int| items[i]@)
}

/// `part` stands in `bytes` at position `at`.
pub open spec fn has_at(bytes: Seq<u8>, at: int, part: Seq<u8>) -> bool {
    &&& 0 <= at
    &&& at + part.len() <= bytes.len()
    &&& bytes.subrange(at, at + part.len()) == part
}

// ---------------------------------------------------------------------------
// What a reader finds
// ---------------------------------------------------------------------------

/// The byte at `at`, if there is one.
pub open spec fn parse_u8(bytes: Seq<u8>, at: int) -> Option<(u8, int)> {
    if 0 <= at < bytes.len() {
        Some((bytes[at], at + 1))
    } else {
        None
    }
}

/// The flag at `at`: any byte but zero reads as `true`.
pub open spec fn parse_flag(bytes: Seq<u8>, at: int) -> Option<(bool, int)> {
    match parse_u8(bytes, at) {
        Some((b, next)) => Some((b != 0, next)),
        None => None,
    }
}

/// The little-endian `u32` at `at`, if four bytes are left.
pub open spec fn parse_u32(bytes: Seq<u8>, at: int) -> Option<(u32, int)> {
    if 0 <= at && at + 4 <= bytes.len() {
        Some((u32_from_le(bytes.subrange(at, at + 4)), at + 4))
    } else {
        None
    }
}

/// The payload at `at`: a length, then as many bytes, if they are all there.
pub open spec fn parse_payload(bytes: Seq<u8>, at: int) -> Option<(Seq<u8>, int)> {
    match parse_u32(bytes, at) {
        Some((len, start)) => if start + len <= bytes.len() {
            Some((bytes.subrange(start, start + len), start + len))
        } else {
            None
        },
        None => None,
    }
}

/// The text at `at`: a payload that is well-formed UTF-8.
pub open spec fn parse_text(bytes: Seq<u8>, at: int) -> Option<(Seq<char>, int)> {
    match parse_payload(bytes, at) {
        Some((data, next)) => if valid_utf8(data) {
            Some((decode_utf8(data), next))
        } else {
            None
        },
        None => None,
    }
}

/// `count` texts one after the other, starting at `at`.
pub open spec fn parse_text_run(bytes: Seq<u8>, at: int, count: nat) -> Option<(Seq<Seq<char>>, int)>
    decreases count,
{
    if count == 0 {
        Some((Seq::empty(), at))
    } else {
        match parse_text(bytes, at) {
            Some((text, next)) => match parse_text_run(bytes, next, (count - 1) as nat) {
                Some((rest, end)) => Some((seq![text] + rest, end)),
                None => None,
            },
            None => None,
        }
    }
}

/// The list of texts at `at`: a count, then as many texts.
pub open spec fn parse_texts(bytes: Seq<u8>, at: int) -> Option<(Seq<Seq<char>>, int)> {
    match parse_u32(bytes, at) {
        Some((count, start)) => parse_text_run(bytes, start, count as nat),
        None => None,
    }
}

// ---------------------------------------------------------------------------
// Reading back what was written
// ---------------------------------------------------------------------------

/// Reading back the four bytes of a number gives the number.
pub proof fn lemma_u32_le_round_trip(v: u32)
    ensures
        u32_le(v).len() == 4,
        u32_from_le(u32_le(v)) == v,
{
}

/// A sequence stands at the start of itself.
pub proof fn lemma_has_at_whole(bytes: Seq<u8>)
    ensures
        has_at(bytes, 0, bytes),
{
    assert(bytes.subrange(0, bytes.len() as int) =~= bytes);
}

/// Where two parts stand one after the other, each stands at its place.
pub proof fn lemma_has_at_split(bytes: Seq<u8>, at: int, first: Seq<u8>, second: Seq<u8>)
    requires
        has_at(bytes, at, first + second),
    ensures
        has_at(bytes, at, first),
        has_at(bytes, at + first.len(), second),
{
    let whole = first + second;
    assert(bytes.subrange(at, at + first.len()) =~= whole.subrange(0, first.len() as int));
    assert(whole.subrange(0, first.len() as int) =~= first);
    assert(bytes.subrange(at + first.len(), at + first.len() + second.len())
        =~= whole.subrange(first.len() as int, whole.len() as int));
    assert(whole.subrange(first.len() as int, whole.len() as int) =~= second);
}

/// A byte that stands at `at` is the byte read there.
pub proof fn lemma_parse_u8(bytes: Seq<u8>, at: int, b: u8)
    requires
        has_at(bytes, at, seq![b]),
    ensures
        parse_u8(bytes, at) == Some((b, at + 1)),
{
    assert(bytes.subrange(at, at + 1)[0] == b);
}

/// A flag that was written is the flag read.
pub proof fn lemma_parse_flag(bytes: Seq<u8>, at: int, b: bool)
    requires
        has_at(bytes, at, seq![flag_byte(b)]),
    ensures
        parse_flag(bytes, at) == Some((b, at + 1)),
{
    lemma_parse_u8(bytes, at, flag_byte(b));
}

/// A number that was written is the number read.
pub proof fn lemma_parse_u32(bytes: Seq<u8>, at: int, v: u32)
    requires
        has_at(bytes, at, u32_le(v)),
    ensures
        parse_u32(bytes, at) == Some((v, at + 4)),
{
    lemma_u32_le_round_trip(v);
}

/// A payload that was written is the payload read.
pub proof fn lemma_parse_payload(bytes: Seq<u8>, at: int, data: Seq<u8>)
    requires
        fits_prefix(data.len()),
        has_at(bytes, at, payload_encoding(data)),
    ensures
        parse_payload(bytes, at) == Some((data, at + 4 + data.len())),
{
    lemma_has_at_split(bytes, at, u32_le(data.len() as u32), data);
    lemma_parse_u32(bytes, at, data.len() as u32);
}

/// A text that was written is the text read.
pub proof fn lemma_parse_text(bytes: Seq<u8>, at: int, text: Seq<char>)
    requires
        text_fits(text),
        has_at(bytes, at, text_encoding(text)),
    ensures
        parse_text(bytes, at) == Some((text, at + text_encoding(text).len())),
{
    lemma_parse_payload(bytes, at, encode_utf8(text));
    encode_utf8_valid_utf8(text);
    encode_utf8_decode_utf8(text);
}

/// Texts that were written one after the other are the texts read.
pub proof fn lemma_parse_text_run(bytes: Seq<u8>, at: int, items: Seq<Seq<char>>)
    requires
        forall|i: int| 0 <= i < items.len() ==> text_fits(#[trigger] items[i]),
        has_at(bytes, at, texts_body(items)),
    ensures
        parse_text_run(bytes, at, items.len()) == Some((items, at + texts_body(items).len())),
    decreases items.len(),
{
    if items.len() == 0 {
    } else {
        let head = text_encoding(items[0]);
        let tail = items.drop_first();
        lemma_has_at_split(bytes, at, head, texts_body(tail));
        lemma_parse_text(bytes, at, items[0]);
        assert forall|i: int| 0 <= i < tail.len() implies text_fits(#[trigger] tail[i]) by {
        }
        lemma_parse_text_run(bytes, at + head.len(), tail);
    }
}

/// A list of texts that was written is the list read.
pub proof fn lemma_parse_texts(bytes: Seq<u8>, at: int, items: Seq<Seq<char>>)
    requires
        texts_fit(items),
        has_at(bytes, at, texts_encoding(items)),
    ensures
        parse_texts(bytes, at) == Some((items, at + texts_encoding(items).len())),
{
    lemma_has_at_split(bytes, at, u32_le(items.len() as u32), texts_body(items));
    lemma_parse_u32(bytes, at, items.len() as u32);
    lemma_parse_text_run(bytes, at + 4, items);
}

/// The body of a list grows by the encoding of the text added at its end.
pub proof fn lemma_texts_body_push(items: Seq<Seq<char>>, text: Seq<char>)
    ensures
        texts_body(items.push(text)) == texts_body(items) + text_encoding(text),
    decreases items.len(),
{
    let grown = items.push(text);
    if items.len() == 0 {
        assert(texts_body(grown.drop_first()) =~= Seq::<u8>::empty());
    } else {
        lemma_texts_body_push(items.drop_first(), text);
        assert(grown.drop_first() =~= items.drop_first().push(text));
    }
}

// ---------------------------------------------------------------------------
// The byte writers and readers
// ---------------------------------------------------------------------------

/// Appends one byte to `out`, through `tora::write::ToraWrite::writes` at
/// `u8`: tora writes `v.to_le_bytes()` with `write_all`, which on a `Vec<u8>`
/// appends and does not fail.
#[verifier::external_body]
pub(crate) fn write_u8(out: &mut Vec<u8>, v: u8)
    ensures
        final(out)@ == old(out)@.push(v),
{
    let _ = out.writes(&v);
}

/// Appends a flag to `out`, through `tora::write::ToraWrite::writes` at
/// `bool`: tora writes the flag cast to `u8`, one for `true` and zero for
/// `false`.
#[verifier::external_body]
pub(crate) fn write_flag(out: &mut Vec<u8>, b: bool)
    ensures
        final(out)@ == old(out)@.push(flag_byte(b)),
{
    let _ = out.writes(&b);
}

/// Appends the four little-endian bytes of `v` to `out`, through
/// `tora::write::ToraWrite::writes` at `u32`: tora writes `v.to_le_bytes()`
/// with `write_all`.
#[verifier::external_body]
pub(crate) fn write_u32(out: &mut Vec<u8>, v: u32)
    ensures
        final(out)@ == old(out)@ + u32_le(v),
{
    let _ = out.writes(&v);
}

/// Appends a payload to `out`, through `tora::write::ToraWrite::writes` at
/// `&[u8]`: tora writes the length cast to `u32` and then each byte in order.
/// The cast would cut a longer length down, so such a slice is left out.
#[verifier::external_body]
pub(crate) fn write_payload(out: &mut Vec<u8>, data: &[u8])
    requires
        fits_prefix(data@.len()),
    ensures
        final(out)@ == old(out)@ + payload_encoding(data@),
{
    let _ = out.writes(&data);
}

/// Reads the byte at `at`, through `tora::read::ToraRead::reads` at `u8`:
/// tora fills one byte with `read_exact`, which fails when none is left.
#[verifier::external_body]
pub(crate) fn read_u8(bytes: &[u8], at: usize) -> (r: Result<u8, std::io::Error>)
    requires
        at <= bytes@.len(),
    ensures
        r is Ok <==> at < bytes@.len(),
        r matches Ok(v) ==> v == bytes@[at as int],
{
    let mut rest = &bytes[at..];
    rest.reads::<u8>()
}

/// Reads the flag at `at`, through `tora::read::ToraRead::reads` at `bool`:
/// tora reads one byte and returns whether it is not zero.
#[verifier::external_body]
pub(crate) fn read_flag(bytes: &[u8], at: usize) -> (r: Result<bool, std::io::Error>)
    requires
        at <= bytes@.len(),
    ensures
        r is Ok <==> at < bytes@.len(),
        r matches Ok(b) ==> b == (bytes@[at as int] != 0),
{
    let mut rest = &bytes[at..];
    rest.reads::<bool>()
}

/// Reads the `u32` at `at`, through `tora::read::ToraRead::reads` at `u32`:
/// tora fills four bytes with `read_exact`, which fails when fewer are left,
/// and returns `u32::from_le_bytes` of them.
#[verifier::external_body]
pub(crate) fn read_u32(bytes: &[u8], at: usize) -> (r: Result<u32, std::io::Error>)
    requires
        at <= bytes@.len(),
    ensures
        r is Ok <==> at + 4 <= bytes@.len(),
        r matches Ok(v) ==> v == u32_from_le(bytes@.subrange(at as int, at + 4)),
{
    let mut rest = &bytes[at..];
    rest.reads::<u32>()
}

/// Reads the payload at `at`, through `tora::read::ToraRead::reads` at
/// `Vec<u8>`: tora reads a `u32` length, reserves as many bytes and reads
/// them one by one. It reserves before it knows that the bytes are there, so
/// only a payload that is wholly inside `bytes` is admitted; on such a one
/// every read succeeds.
#[verifier::external_body]
pub(crate) fn read_payload(bytes: &[u8], at: usize) -> (r: Result<Vec<u8>, std::io::Error>)
    requires
        parse_payload(bytes@, at as int) is Some,
    ensures
        r is Ok,
        r matches Ok(data) ==> parse_payload(bytes@, at as int) == Some((data@, at + 4 + data@.len())),
{
    let mut rest = &bytes[at..];
    rest.reads::<Vec<u8>>()
}

/// Turns bytes into a string with `String::from_utf8`, which succeeds exactly
/// on well-formed UTF-8 and then holds the characters that the bytes spell.
#[verifier::external_body]
pub(crate) fn text_from_utf8(data: Vec<u8>) -> (r: Result<String, std::string::FromUtf8Error>)
    ensures
        r is Ok <==> valid_utf8(data@),
        r matches Ok(text) ==> text@ == decode_utf8(data@),
{
    String::from_utf8(data)
}

// ---------------------------------------------------------------------------
// Encoders
// ---------------------------------------------------------------------------

/// Whether `data` can be written as a payload.
pub fn payload_fits_wire(data: &[u8]) -> (r: bool)
    ensures
        r == fits_prefix(data@.len()),
{
    data.len() <= 0xffff_ffff
}

/// Whether `text` can be written.
pub fn text_fits_wire(text: &str) -> (r: bool)
    ensures
        r == text_fits(text@),
{
    text.as_bytes().len() <= 0xffff_ffff
}

/// Whether every text of `items`, and their count, can be written.
pub fn texts_fit_wire(items: &Vec<String>) -> (r: bool)
    ensures
        r == texts_fit(texts_view(items@)),
{
    if items.len() > 0xffff_ffff {
        return false;
    }
    let mut i: usize = 0;
    while i < items.len()
        invariant
            i <= items.len(),
            items@.len() <= u32::MAX,
            forall|j: int| 0 <= j < i ==> text_fits(#[trigger] texts_view(items@)[j]),
        decreases items.len() - i,
    {
        if !text_fits_wire(items[i].as_str()) {
            assert(!text_fits(texts_view(items@)[i as int]));
            return false;
        }
        i += 1;
    }
    true
}

/// Appends the encoding of `text` to `out`.
pub(crate) fn put_text(out: &mut Vec<u8>, text: &str)
    requires
        text_fits(text@),
    ensures
        final(out)@ == old(out)@ + text_encoding(text@),
{
    write_payload(out, text.as_bytes());
}

/// Appends the encoding of the list `items` to `out`.
pub(crate) fn put_texts(out: &mut Vec<u8>, items: &Vec<String>)
    requires
        texts_fit(texts_view(items@)),
    ensures
        final(out)@ == old(out)@ + texts_encoding(texts_view(items@)),
{
    let ghost before = out@;
    let ghost texts = texts_view(items@);
    write_u32(out, items.len() as u32);
    let mut i: usize = 0;
    while i < items.len()
        invariant
            i <= items.len(),
            texts == texts_view(items@),
            texts_fit(texts),
            out@ == before + u32_le(texts.len() as u32) + texts_body(texts.take(i as int)),
        decreases items.len() - i,
    {
        assert(texts[i as int] == items@[i as int]@);
        put_text(out, items[i].as_str());
        proof {
            lemma_texts_body_push(texts.take(i as int), texts[i as int]);
            assert(texts.take(i as int).push(texts[i as int]) =~= texts.take(i + 1));
        }
        i += 1;
    }
    assert(texts.take(i as int) =~= texts);
}

/// The encoding of a payload, or `None` if it is too long for the wire.
pub fn encode_payload(data: &[u8]) -> (r: Option<Vec<u8>>)
    ensures
        r is Some <==> fits_prefix(data@.len()),
        r matches Some(bytes) ==> bytes@ == payload_encoding(data@),
{
    if !payload_fits_wire(data) {
        return None;
    }
    let mut out: Vec<u8> = Vec::new();
    write_payload(&mut out, data);
    Some(out)
}

/// The encoding of a text, or `None` if it is too long for the wire.
pub fn encode_text(text: &str) -> (r: Option<Vec<u8>>)
    ensures
        r is Some <==> text_fits(text@),
        r matches Some(bytes) ==> bytes@ == text_encoding(text@),
{
    if !text_fits_wire(text) {
        return None;
    }
    let mut out: Vec<u8> = Vec::new();
    put_text(&mut out, text);
    Some(out)
}

/// The encoding of a flag: one byte.
pub fn encode_flag(b: bool) -> (r: Vec<u8>)
    ensures
        r@ == seq![flag_byte(b)],
{
    let mut out: Vec<u8> = Vec::new();
    write_flag(&mut out, b);
    out
}

/// The encoding of a list of texts, or `None` if its count or one of the
/// texts is too long for the wire.
pub fn encode_texts(items: &Vec<String>) -> (r: Option<Vec<u8>>)
    ensures
        r is Some <==> texts_fit(texts_view(items@)),
        r matches Some(bytes) ==> bytes@ == texts_encoding(texts_view(items@)),
{
    if !texts_fit_wire(items) {
        return None;
    }
    let mut out: Vec<u8> = Vec::new();
    put_texts(&mut out, items);
    Some(out)
}

// ---------------------------------------------------------------------------
// Decoders
// ---------------------------------------------------------------------------

/// The byte at `at` and the position behind it.
pub fn decode_u8(bytes: &[u8], at: usize) -> (r: Option<(u8, usize)>)
    ensures
        r is Some <==> parse_u8(bytes@, at as int) is Some,
        r matches Some((_, next)) ==> at <= next <= bytes@.len(),
        r matches Some((v, next)) ==> parse_u8(bytes@, at as int) == Some((v, next as int)),
{
    if at > bytes.len() {
        return None;
    }
    match read_u8(bytes, at) {
        Ok(v) => Some((v, at + 1)),
        Err(_) => None,
    }
}

/// The flag at `at` and the position behind it.
pub fn decode_flag(bytes: &[u8], at: usize) -> (r: Option<(bool, usize)>)
    ensures
        r is Some <==> parse_flag(bytes@, at as int) is Some,
        r matches Some((_, next)) ==> at <= next <= bytes@.len(),
        r matches Some((b, next)) ==> parse_flag(bytes@, at as int) == Some((b, next as int)),
{
    if at > bytes.len() {
        return None;
    }
    match read_flag(bytes, at) {
        Ok(b) => Some((b, at + 1)),
        Err(_) => None,
    }
}

/// The `u32` at `at` and the position behind it.
pub fn decode_u32(bytes: &[u8], at: usize) -> (r: Option<(u32, usize)>)
    ensures
        r is Some <==> parse_u32(bytes@, at as int) is Some,
        r matches Some((_, next)) ==> at <= next <= bytes@.len(),
        r matches Some((v, next)) ==> parse_u32(bytes@, at as int) == Some((v, next as int)),
{
    if at > bytes.len() {
        return None;
    }
    match read_u32(bytes, at) {
        Ok(v) => Some((v, at + 4)),
        Err(_) => None,
    }
}

/// The payload at `at` and the position behind it. The length is checked
/// against what is left of `bytes` before anything is reserved for it.
pub fn decode_payload(bytes: &[u8], at: usize) -> (r: Option<(Vec<u8>, usize)>)
    ensures
        r is Some <==> parse_payload(bytes@, at as int) is Some,
        r matches Some((_, next)) ==> at <= next <= bytes@.len(),
        r matches Some((data, next)) ==> parse_payload(bytes@, at as int) == Some(
            (data@, next as int),
        ),
{
    match decode_u32(bytes, at) {
        None => None,
        Some((len, start)) => {
            if len as usize > bytes.len() - start {
                return None;
            }
            match read_payload(bytes, at) {
                Ok(data) => Some((data, start + len as usize)),
                Err(_) => None,
            }
        },
    }
}

/// The text at `at` and the position behind it.
pub fn decode_text(bytes: &[u8], at: usize) -> (r: Option<(String, usize)>)
    ensures
        r is Some <==> parse_text(bytes@, at as int) is Some,
        r matches Some((_, next)) ==> at <= next <= bytes@.len(),
        r matches Some((text, next)) ==> parse_text(bytes@, at as int) == Some(
            (text@, next as int),
        ),
{
    match decode_payload(bytes, at) {
        None => None,
        Some((data, next)) => match text_from_utf8(data) {
            Ok(text) => Some((text, next)),
            Err(_) => None,
        },
    }
}

/// The list of texts at `at` and the position behind it.
pub fn decode_texts(bytes: &[u8], at: usize) -> (r: Option<(Vec<String>, usize)>)
    ensures
        r is Some <==> parse_texts(bytes@, at as int) is Some,
        r matches Some((_, next)) ==> at <= next <= bytes@.len(),
        r matches Some((items, next)) ==> parse_texts(bytes@, at as int) == Some(
            (texts_view(items@), next as int),
        ),
{
    let (count, start) = match decode_u32(bytes, at) {
        None => { return None; },
        Some(found) => found,
    };
    let mut items: Vec<String> = Vec::new();
    let mut pos: usize = start;
    let mut i: u32 = 0;
    while i < count
        invariant
            i <= count,
            at <= start <= pos <= bytes@.len(),
            parse_texts(bytes@, at as int) == parse_text_run(bytes@, start as int, count as nat),
            match parse_text_run(bytes@, pos as int, (count - i) as nat) {
                Some((rest, end)) => parse_text_run(bytes@, start as int, count as nat) == Some(
                    (texts_view(items@) + rest, end),
                ),
                None => parse_text_run(bytes@, start as int, count as nat) is None,
            },
        decreases count - i,
    {
        match decode_text(bytes, pos) {
            None => { return None; },
            Some((text, next)) => {
                items.push(text);
                pos = next;
            },
        }
        i += 1;
    }
    Some((items, pos))
}

} // verus!
