//! Transport codec for SAML messages.
//!
//! The HTTP-Redirect binding carries a SAML document as
//! `percent-encode(base64(raw-deflate(xml)))`.  Encoding is total;
//! decoding reverses the three steps and reports the first stage that
//! fails.  The contracts below pin the round trip down: decoding any
//! value this codec produced returns the original document.
use vstd::prelude::*;
use std::io::Read;
use std::io::Write;
use base64::prelude::BASE64_STANDARD;
use base64::prelude::Engine;

verus! {

/// The stage of `EncodedSAML::to_raw_string` that rejected its input.
#[derive(Debug, Clone, Copy, PartialEq, Eq, Structural)]
pub enum DecodeError {
    /// The percent-encoded text could not be decoded.
    Percent,
    /// The percent-decoded text is not valid standard base64.
    Base64,
    /// The base64 payload is not a raw DEFLATE stream of UTF-8 text.
    Inflate,
}

/// True when every character of `s` is ASCII.
pub open spec fn ascii_chars(s: Seq<char>) -> bool {
    forall|i: int| 0 <= i < s.len() ==> (s[i] as u32) < 128
}

/// The raw-DEFLATE compression (default level, no zlib framing) of the
/// UTF-8 bytes of `s`.  The stream itself is left unspecified; only
/// the facts stated by the trusted items below are known of it.
pub uninterp spec fn deflate_of(s: Seq<char>) -> Seq<u8>;

/// What inflating `b` as a raw DEFLATE stream of UTF-8 text yields:
/// `Some` of the text, or `None` when the stream or its output is
/// malformed.  Inflation is a pure function of the bytes.
pub uninterp spec fn inflated_of(b: Seq<u8>) -> Option<Seq<char>>;

/// The standard base64 encoding (with padding) of `b`.  The alphabet
/// is left unspecified; the trusted items below state that it is
/// ASCII and that decoding inverts it.
pub uninterp spec fn b64_of(b: Seq<u8>) -> Seq<char>;

/// What standard base64 decoding of `s` yields: `Some` of the decoded
/// bytes, or `None` when `s` is not valid base64.
pub uninterp spec fn b64_decoded_of(s: Seq<char>) -> Option<Seq<u8>>;

/// What percent-decoding of `s` yields: `Some` of the decoded text, or
/// `None` when the decoded bytes are not valid UTF-8.
pub uninterp spec fn pct_decoded_of(s: Seq<char>) -> Option<Seq<char>>;

/// The uppercase hexadecimal digit for `n`, for `n < 16`.
pub open spec fn hex_digit(n: u8) -> char {
    match n {
        0 => '0',
        1 => '1',
        2 => '2',
        3 => '3',
        4 => '4',
        5 => '5',
        6 => '6',
        7 => '7',
        8 => '8',
        9 => '9',
        10 => 'A',
        11 => 'B',
        12 => 'C',
        13 => 'D',
        14 => 'E',
        _ => 'F',
    }
}

/// Characters that percent-encoding leaves unescaped.
pub open spec fn pct_unreserved(c: char) -> bool {
    ||| ('0' as u32) <= (c as u32) <= ('9' as u32)
    ||| ('A' as u32) <= (c as u32) <= ('Z' as u32)
    ||| ('a' as u32) <= (c as u32) <= ('z' as u32)
    ||| c == '-'
    ||| c == '.'
    ||| c == '_'
    ||| c == '~'
}

/// The percent-encoding of one character: unreserved characters stand
/// for themselves, every other ASCII character becomes `%` followed by
/// two uppercase hexadecimal digits.  Characters outside ASCII are
/// left as they are; the encoder below is only ever applied to ASCII
/// text, where this function coincides with byte-wise percent-encoding.
pub open spec fn pct_of_char(c: char) -> Seq<char> {
    if pct_unreserved(c) || (c as u32) >= 128 {
        seq![c]
    } else {
        seq!['%', hex_digit(((c as u32) / 16) as u8), hex_digit(((c as u32) % 16) as u8)]
    }
}

/// The percent-encoding of a whole string, character by character.
pub open spec fn pct_of(s: Seq<char>) -> Seq<char>
    decreases s.len(),
{
    if s.len() == 0 {
        Seq::empty()
    } else {
        pct_of_char(s[0]) + pct_of(s.drop_first())
    }
}

/// The full transport encoding of a raw document.
pub open spec fn transport_encoding_of(raw: Seq<char>) -> Seq<char> {
    pct_of(b64_of(deflate_of(raw)))
}

/// What decoding transport-encoded text yields: the raw document, or
/// the first stage that fails.
pub open spec fn transport_decoding_of(s: Seq<char>) -> Result<Seq<char>, DecodeError> {
    match pct_decoded_of(s) {
        None => Err(DecodeError::Percent),
        Some(unescaped) => match b64_decoded_of(unescaped) {
            None => Err(DecodeError::Base64),
            Some(bytes) => match inflated_of(bytes) {
                None => Err(DecodeError::Inflate),
                Some(raw) => Ok(raw),
            },
        },
    }
}

/// Relies on `flate2::write::DeflateEncoder` with `Compression::default()`:
/// a raw DEFLATE stream of the input bytes, a pure function of the
/// input, which `flate2::read::DeflateDecoder` inflates back to the
/// input.  Writing to a `Vec` sink cannot fail.
#[verifier::external_body]
fn deflate_raw(s: &str) -> (r: Vec<u8>)
    ensures
        r@ == deflate_of(s@),
        inflated_of(r@) == Some(s@),
{
    let mut deflater =
        flate2::write::DeflateEncoder::new(Vec::new(), flate2::Compression::default());
    match deflater.write_all(s.as_bytes()) {
        Ok(()) => {}
        Err(_) => return Vec::new(),
    }
    match deflater.finish() {
        Ok(v) => v,
        Err(_) => Vec::new(),
    }
}

/// Relies on `flate2::read::DeflateDecoder::read_to_string`: inflating
/// is a pure function of the input bytes, succeeding exactly where
/// `inflated_of` does.
#[verifier::external_body]
fn inflate_raw(b: &[u8]) -> (r: Option<String>)
    ensures
        r matches Some(x) ==> inflated_of(b@) == Some(x@),
        r is None ==> inflated_of(b@) is None,
{
    let mut inflater = flate2::read::DeflateDecoder::new(b);
    let mut out = String::new();
    match inflater.read_to_string(&mut out) {
        Ok(_) => Some(out),
        Err(_) => None,
    }
}

/// Relies on `base64::Engine::encode` with `BASE64_STANDARD`: the
/// standard base64 text of the input, a pure function of it, made of
/// ASCII characters only, which `base64::Engine::decode` decodes back
/// to the input.
#[verifier::external_body]
fn b64_encode(b: &[u8]) -> (r: String)
    ensures
        r@ == b64_of(b@),
        ascii_chars(r@),
        b64_decoded_of(r@) == Some(b@),
{
    BASE64_STANDARD.encode(b)
}

/// Relies on `base64::Engine::decode` with `BASE64_STANDARD`: decoding
/// is a pure function of the input text, succeeding exactly where
/// `b64_decoded_of` does.
#[verifier::external_body]
fn b64_decode(s: &str) -> (r: Option<Vec<u8>>)
    ensures
        r matches Some(v) ==> b64_decoded_of(s@) == Some(v@),
        r is None ==> b64_decoded_of(s@) is None,
{
    match BASE64_STANDARD.decode(s) {
        Ok(v) => Some(v),
        Err(_) => None,
    }
}

/// Relies on `urlencoding::encode`: every byte except ASCII
/// alphanumerics and `-`, `.`, `_`, `~` becomes `%` plus two uppercase
/// hexadecimal digits, so on ASCII input the result is exactly
/// `pct_of`, and `urlencoding::decode` decodes it back to the input.
#[verifier::external_body]
fn pct_encode(s: &str) -> (r: String)
    requires
        ascii_chars(s@),
    ensures
        r@ == pct_of(s@),
        pct_decoded_of(r@) == Some(s@),
{
    urlencoding::encode(s).into_owned()
}

/// Relies on `urlencoding::decode`: decoding is a pure function of the
/// input text, succeeding exactly where `pct_decoded_of` does.
#[verifier::external_body]
fn pct_decode(s: &str) -> (r: Option<String>)
    ensures
        r matches Some(x) ==> pct_decoded_of(s@) == Some(x@),
        r is None ==> pct_decoded_of(s@) is None,
{
    match urlencoding::decode(s) {
        Ok(x) => Some(x.into_owned()),
        Err(_) => None,
    }
}

/// A transport-safe encoding of a SAML document, as carried in the
/// `SAMLRequest` query parameter or the `SAMLResponse` form field.
#[derive(Debug)]
pub struct EncodedSAML {
    encoded: String,
}

impl View for EncodedSAML {
    type V = Seq<char>;

    closed spec fn view(&self) -> Seq<char> {
        self.encoded@
    }
}

impl EncodedSAML {
    /// Wraps text that already is in transport encoding, as captured
    /// from the wire.
    pub fn new(encoded: String) -> (r: Self)
        ensures
            r@ == encoded@,
    {
        EncodedSAML { encoded }
    }

    /// Encodes a raw XML document for transport: deflate, then base64,
    /// then percent-encode.  Decoding the result returns the document:
    /// the second clause states the round trip.
    pub fn from_raw_string(raw_string: String) -> (r: Self)
        ensures
            r@ == transport_encoding_of(raw_string@),
            transport_decoding_of(r@) == Ok::<Seq<char>, DecodeError>(raw_string@),
            forall|i: int| 0 <= i < r@.len() ==> r@[i] != '&' && r@[i] != '=' && r@[i] != ' ',
    {
        let deflated = deflate_raw(raw_string.as_str());
        let encoded = b64_encode(deflated.as_slice());
        let escaped = pct_encode(encoded.as_str());
        proof {
            lemma_pct_transport_safe(encoded@);
        }
        EncodedSAML { encoded: escaped }
    }

    /// Decodes back to the raw XML document, reversing the three
    /// encoding steps in order and naming the first one that fails.
    pub fn to_raw_string(&self) -> (r: Result<String, DecodeError>)
        ensures
            r matches Ok(v) ==> transport_decoding_of(self@) == Ok::<Seq<char>, DecodeError>(v@),
            r matches Err(e) ==> transport_decoding_of(self@) == Err::<Seq<char>, DecodeError>(e),
    {
        let unescaped = match pct_decode(self.encoded.as_str()) {
            Some(u) => u,
            None => {
                return Err(DecodeError::Percent);
            },
        };
        let bytes = match b64_decode(unescaped.as_str()) {
            Some(b) => b,
            None => {
                return Err(DecodeError::Base64);
            },
        };
        match inflate_raw(bytes.as_slice()) {
            Some(raw) => Ok(raw),
            None => Err(DecodeError::Inflate),
        }
    }

    /// The encoded text itself.
    pub fn to_string(&self) -> (r: String)
        ensures
            r@ == self@,
    {
        self.encoded.clone()
    }
}

/// Transport safety: percent-encoded text never contains a literal
/// `&`, `=` or space, so it can stand in a URL query component or a
/// form-urlencoded body without further escaping.
pub proof fn lemma_pct_transport_safe(s: Seq<char>)
    ensures
        forall|i: int|
            0 <= i < pct_of(s).len() ==> pct_of(s)[i] != '&' && pct_of(s)[i] != '='
                && pct_of(s)[i] != ' ',
    decreases s.len(),
{
    if s.len() == 0 {
    } else {
        lemma_pct_transport_safe(s.drop_first());
        assert(forall|i: int|
            0 <= i < pct_of_char(s[0]).len() ==> pct_of_char(s[0])[i] != '&' && pct_of_char(
                s[0],
            )[i] != '=' && pct_of_char(s[0])[i] != ' ');
        assert(pct_of(s) == pct_of_char(s[0]) + pct_of(s.drop_first()));
    }
}

} // verus!
