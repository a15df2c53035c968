//! Byte and text encodings the protocol uses: base64, hex, UTF-8, percent
//! encoding, URLs and the JSON list of account ids. Each is done by a
//! well-known crate; this module states what each call gives.
use vstd::prelude::*;
use vstd::string::StringSliceAdditionalSpecFns;
use vstd::utf8::{decode_utf8, encode_utf8, is_ascii_chars, is_ascii_chars_encode_utf8, valid_utf8};

use base64::Engine;

verus! {

// ── base64 ──────────────────────────────────────────────────────────────────

/// The four base64 engines of the `base64` crate the SDK uses.
pub const ENGINE_STANDARD: u8 = 0;

pub const ENGINE_STANDARD_NO_PAD: u8 = 1;

pub const ENGINE_URL_SAFE: u8 = 2;

pub const ENGINE_URL_SAFE_NO_PAD: u8 = 3;

/// What `Engine::decode` of the `base64` crate gives for `text` with the
/// engine numbered `engine` (see the `ENGINE_*` numbers): the bytes, or
/// `None` where the crate reports an error.
pub uninterp spec fn base64_decoded(engine: u8, text: Seq<char>) -> Option<Seq<u8>>;

/// What `Engine::encode` of the `base64` crate's `STANDARD` engine gives.
pub uninterp spec fn base64_standard_encoded(bytes: Seq<u8>) -> Seq<char>;

/// `base64::engine::general_purpose::STANDARD.decode`: the decoded bytes, or
/// the text of the crate's error.
#[verifier::external_body]
pub(crate) fn b64_decode_standard(text: &str) -> (r: Result<Vec<u8>, String>)
    ensures
        match r {
            Ok(v) => base64_decoded(ENGINE_STANDARD, text@) == Some(v@),
            Err(_) => base64_decoded(ENGINE_STANDARD, text@) is None,
        },
{
    base64::engine::general_purpose::STANDARD.decode(text).map_err(|e| e.to_string())
}

/// `base64::engine::general_purpose::STANDARD_NO_PAD.decode`.
#[verifier::external_body]
pub(crate) fn b64_decode_standard_no_pad(text: &str) -> (r: Result<Vec<u8>, String>)
    ensures
        match r {
            Ok(v) => base64_decoded(ENGINE_STANDARD_NO_PAD, text@) == Some(v@),
            Err(_) => base64_decoded(ENGINE_STANDARD_NO_PAD, text@) is None,
        },
{
    base64::engine::general_purpose::STANDARD_NO_PAD.decode(text).map_err(|e| e.to_string())
}

/// `base64::engine::general_purpose::URL_SAFE.decode`.
#[verifier::external_body]
pub(crate) fn b64_decode_url_safe(text: &str) -> (r: Result<Vec<u8>, String>)
    ensures
        match r {
            Ok(v) => base64_decoded(ENGINE_URL_SAFE, text@) == Some(v@),
            Err(_) => base64_decoded(ENGINE_URL_SAFE, text@) is None,
        },
{
    base64::engine::general_purpose::URL_SAFE.decode(text).map_err(|e| e.to_string())
}

/// `base64::engine::general_purpose::URL_SAFE_NO_PAD.decode`.
#[verifier::external_body]
pub(crate) fn b64_decode_url_safe_no_pad(text: &str) -> (r: Result<Vec<u8>, String>)
    ensures
        match r {
            Ok(v) => base64_decoded(ENGINE_URL_SAFE_NO_PAD, text@) == Some(v@),
            Err(_) => base64_decoded(ENGINE_URL_SAFE_NO_PAD, text@) is None,
        },
{
    base64::engine::general_purpose::URL_SAFE_NO_PAD.decode(text).map_err(|e| e.to_string())
}

/// `base64::engine::general_purpose::STANDARD.encode`. The crate documents
/// decoding with the same engine as giving the bytes back.
#[verifier::external_body]
pub(crate) fn b64_encode_standard(bytes: &[u8]) -> (r: String)
    ensures
        r@ == base64_standard_encoded(bytes@),
        base64_decoded(ENGINE_STANDARD, r@) == Some(bytes@),
{
    base64::engine::general_purpose::STANDARD.encode(bytes)
}

// ── hex ─────────────────────────────────────────────────────────────────────

/// Value of one hex digit (`0-9`, `a-f`, `A-F`).
pub open spec fn hex_digit_value(c: u8) -> Option<u8> {
    if 48 <= c && c <= 57 {
        Some((c - 48) as u8)
    } else if 97 <= c && c <= 102 {
        Some((c - 87) as u8)
    } else if 65 <= c && c <= 70 {
        Some((c - 55) as u8)
    } else {
        None
    }
}

/// `hex::decode`: an even number of hex digits, two per byte, high first.
pub open spec fn spec_hex_decode(d: Seq<u8>) -> Option<Seq<u8>> {
    if d.len() % 2 == 0 && forall|i: int| 0 <= i < d.len() ==> #[trigger] hex_digit_value(d[i]) is Some {
        Some(
            Seq::new(
                (d.len() / 2) as nat,
                |i: int|
                    (hex_digit_value(d[2 * i])->0 * 16 + hex_digit_value(d[2 * i + 1])->0) as u8,
            ),
        )
    } else {
        None
    }
}

/// Lower-case hex digit of a value below 16.
pub open spec fn lower_hex_digit(v: int) -> char {
    if v < 10 {
        ((48 + v) as u8) as char
    } else {
        ((87 + v) as u8) as char
    }
}

/// `hex::encode`: two lower-case digits per byte, high first.
pub open spec fn spec_hex_encode(b: Seq<u8>) -> Seq<char> {
    Seq::new(
        2 * b.len(),
        |i: int|
            if i % 2 == 0 {
                lower_hex_digit((b[i / 2] / 16) as int)
            } else {
                lower_hex_digit((b[i / 2] % 16) as int)
            },
    )
}

proof fn lemma_lower_hex_digit(v: int)
    requires
        0 <= v < 16,
    ensures
        '\0' <= lower_hex_digit(v) <= '\u{7f}',
        hex_digit_value(lower_hex_digit(v) as u8) == Some(v as u8),
{
    if v < 10 {
        assert(((48 + v) as u8) as char as int == 48 + v);
    } else {
        assert(((87 + v) as u8) as char as int == 87 + v);
    }
}

/// Hex text as `hex::encode` writes it is ASCII, and `hex::decode` of its
/// bytes gives the encoded bytes back.
pub proof fn lemma_hex_roundtrip(b: Seq<u8>)
    ensures
        is_ascii_chars(spec_hex_encode(b)),
        spec_hex_decode(encode_utf8(spec_hex_encode(b))) == Some(b),
{
    let h = spec_hex_encode(b);
    assert forall|i: int| 0 <= i < h.len() implies '\0' <= #[trigger] h[i] <= '\u{7f}'
        && hex_digit_value(h[i] as u8) == Some(
        (if i % 2 == 0 {
            b[i / 2] / 16
        } else {
            b[i / 2] % 16
        }) as u8,
    ) by {
        if i % 2 == 0 {
            lemma_lower_hex_digit((b[i / 2] / 16) as int);
        } else {
            lemma_lower_hex_digit((b[i / 2] % 16) as int);
        }
    }
    is_ascii_chars_encode_utf8(h);
    let d = encode_utf8(h);
    assert(d.len() == 2 * b.len());
    assert forall|i: int| 0 <= i < d.len() implies #[trigger] hex_digit_value(d[i]) is Some by {
        assert(h[i] as u8 == d[i]);
    }
    let r = spec_hex_decode(d)->0;
    assert forall|i: int| 0 <= i < b.len() implies r[i] == b[i] by {
        assert(h[2 * i] as u8 == d[2 * i]);
        assert(h[2 * i + 1] as u8 == d[2 * i + 1]);
        assert((2 * i) % 2 == 0);
        assert((2 * i + 1) % 2 == 1);
        assert((2 * i) / 2 == i);
        assert((2 * i + 1) / 2 == i);
        assert((b[i] / 16) * 16 + b[i] % 16 == b[i]);
    }
    assert(r =~= b);
}

/// `hex::decode`: the bytes, or the text of the crate's error.
#[verifier::external_body]
pub(crate) fn hex_decode(data: &[u8]) -> (r: Result<Vec<u8>, String>)
    ensures
        match r {
            Ok(v) => spec_hex_decode(data@) == Some(v@),
            Err(_) => spec_hex_decode(data@) is None,
        },
{
    hex::decode(data).map_err(|e| e.to_string())
}

/// `hex::encode`.
#[verifier::external_body]
pub(crate) fn hex_encode(data: &[u8]) -> (r: String)
    ensures
        r@ == spec_hex_encode(data@),
{
    hex::encode(data)
}

// ── UTF-8 ───────────────────────────────────────────────────────────────────

/// `std::str::from_utf8`: the text where the bytes are valid UTF-8.
#[verifier::external_body]
pub(crate) fn utf8_text(bytes: &[u8]) -> (r: Option<&str>)
    ensures
        r is Some <==> valid_utf8(bytes@),
        r matches Some(s) ==> s@ == decode_utf8(bytes@),
{
    std::str::from_utf8(bytes).ok()
}

/// What `String::from_utf8_lossy` gives: the text, with each invalid UTF-8
/// sequence replaced by U+FFFD.
pub uninterp spec fn utf8_lossy(bytes: Seq<u8>) -> Seq<char>;

/// `String::from_utf8_lossy`. Valid UTF-8 is decoded as it is.
#[verifier::external_body]
pub(crate) fn utf8_lossy_text(bytes: &[u8]) -> (r: String)
    ensures
        r@ == utf8_lossy(bytes@),
        valid_utf8(bytes@) ==> r@ == decode_utf8(bytes@),
{
    String::from_utf8_lossy(bytes).to_string()
}

// ── Percent encoding ────────────────────────────────────────────────────────

/// Bytes `urlencoding::encode` leaves as they are.
pub open spec fn is_url_unreserved(b: u8) -> bool {
    (48 <= b && b <= 57) || (65 <= b && b <= 90) || (97 <= b && b <= 122) || b == 45 || b == 46
        || b == 95 || b == 126
}

/// Upper-case hex digit of a value below 16.
pub open spec fn upper_hex_digit(v: int) -> char {
    if v < 10 {
        ((48 + v) as u8) as char
    } else {
        ((55 + v) as u8) as char
    }
}

pub open spec fn pct_encode_byte(b: u8) -> Seq<char> {
    if is_url_unreserved(b) {
        seq![b as char]
    } else {
        seq!['%', upper_hex_digit((b / 16) as int), upper_hex_digit((b % 16) as int)]
    }
}

/// `urlencoding::encode` of the UTF-8 bytes of a text.
pub open spec fn spec_pct_encode(bytes: Seq<u8>) -> Seq<char>
    decreases bytes.len(),
{
    if bytes.len() == 0 {
        Seq::empty()
    } else {
        spec_pct_encode(bytes.drop_last()) + pct_encode_byte(bytes.last())
    }
}

/// `urlencoding::encode`: percent-encodes every byte of the UTF-8 text except
/// ASCII alphanumerics and `-`, `.`, `_`, `~`, with upper-case hex digits.
#[verifier::external_body]
pub(crate) fn url_encode(s: &str) -> (r: String)
    ensures
        r@ == spec_pct_encode(s.spec_bytes()),
{
    urlencoding::encode(s).into_owned()
}

// ── URLs ────────────────────────────────────────────────────────────────────

/// The serialization (`Url::as_str`) of what `url::Url::parse` gives for a
/// text, or `None` where it reports an error.
pub uninterp spec fn url_serialization(input: Seq<char>) -> Option<Seq<char>>;

/// The path (`Url::path`) of what `url::Url::parse` gives for a text, or
/// `None` where it reports an error.
pub uninterp spec fn url_path_of(input: Seq<char>) -> Option<Seq<char>>;

/// `url::Url::parse(input)`, kept as its serialization.
#[verifier::external_body]
pub(crate) fn parse_url(input: &str) -> (r: Option<String>)
    ensures
        match r {
            Some(s) => url_serialization(input@) == Some(s@),
            None => url_serialization(input@) is None,
        },
{
    match url::Url::parse(input) {
        Ok(u) => Some(u.as_str().to_string()),
        Err(_) => None,
    }
}

/// `url::Url::parse(input)`, kept as its path.
#[verifier::external_body]
pub(crate) fn parse_url_path(input: &str) -> (r: Option<String>)
    ensures
        match r {
            Some(s) => url_path_of(input@) == Some(s@),
            None => url_path_of(input@) is None,
        },
{
    match url::Url::parse(input) {
        Ok(u) => Some(u.path().to_string()),
        Err(_) => None,
    }
}

// ── JSON list of strings ────────────────────────────────────────────────────

/// What `serde_json::from_str::<Vec<String>>` gives for a text, or `None`
/// where it reports an error.
pub uninterp spec fn json_string_list(text: Seq<char>) -> Option<Seq<Seq<char>>>;

/// What `serde_json::to_string_pretty` gives for a list of strings.
pub uninterp spec fn json_pretty_string_list(items: Seq<Seq<char>>) -> Seq<char>;

/// `serde_json::from_str::<Vec<String>>`.
#[verifier::external_body]
pub(crate) fn parse_json_string_list(text: &str) -> (r: Option<Vec<String>>)
    ensures
        match r {
            Some(v) => json_string_list(text@) == Some(v.deep_view()),
            None => json_string_list(text@) is None,
        },
{
    serde_json::from_str::<Vec<String>>(text).ok()
}

/// `serde_json::to_string_pretty` of a list of strings (which the crate
/// cannot fail on: strings always serialize). Parsing the text back with
/// `serde_json::from_str::<Vec<String>>` gives the list again.
#[verifier::external_body]
pub(crate) fn json_pretty_strings(items: &Vec<String>) -> (r: String)
    ensures
        r@ == json_pretty_string_list(items.deep_view()),
        json_string_list(r@) == Some(items.deep_view()),
{
    match serde_json::to_string_pretty(items) {
        Ok(s) => s,
        Err(_) => String::new(),
    }
}

} // verus!
