//! URLs as plain values, and percent-encoding, through the `url` and
//! `urlencoding` crates.
use vstd::prelude::*;
use vstd::utf8::{decode_utf8, encode_utf8, valid_utf8};
use crate::text::opt_view;

verus! {

/// What the library reads of a parsed URL.
pub struct ParsedUrl {
    pub scheme: String,
    pub host: Option<String>,
    pub port: Option<u16>,
    pub path: String,
    pub query_pairs: Vec<(String, String)>,
    pub fragment: Option<String>,
}

/// A parsed URL as mathematical values.
pub struct UrlParts {
    pub scheme: Seq<char>,
    pub host: Option<Seq<char>>,
    pub port: Option<u16>,
    pub path: Seq<char>,
    pub query_pairs: Seq<(Seq<char>, Seq<char>)>,
    pub fragment: Option<Seq<char>>,
}

/// A list of string pairs, by their views.
pub open spec fn pairs_view(v: Seq<(String, String)>) -> Seq<(Seq<char>, Seq<char>)> {
    v.map_values(|p: (String, String)| (p.0@, p.1@))
}

impl View for ParsedUrl {
    type V = UrlParts;

    open spec fn view(&self) -> UrlParts {
        UrlParts {
            scheme: self.scheme@,
            host: opt_view(self.host),
            port: self.port,
            path: self.path@,
            query_pairs: pairs_view(self.query_pairs@),
            fragment: opt_view(self.fragment),
        }
    }
}

/// The URL that `url::Url::parse` makes of `input` (scheme, host, explicit
/// non-default port, path, decoded query pairs in order, fragment), or `None`
/// where it refuses the input.
pub uninterp spec fn url_parse(input: Seq<char>) -> Option<UrlParts>;

/// The message of the error `url::Url::parse` gives for `input` (the
/// `Display` text of its `url::ParseError`), where it refuses the input.
pub uninterp spec fn url_error_text(input: Seq<char>) -> Seq<char>;

/// Parses `input` with `url::Url::parse` and reads its parts: `scheme()`,
/// `host_str()`, `port()`, `path()`, `query_pairs()` and `fragment()`; a
/// refusal gives the parse error's message. Claims only that the result is
/// the one `url_parse` and `url_error_text` name for this input.
#[verifier::external_body]
pub(crate) fn parse_url(input: &str) -> (r: Result<ParsedUrl, String>)
    ensures
        r is Ok <==> url_parse(input@) is Some,
        r matches Ok(u) ==> url_parse(input@) == Some(u@),
        r matches Err(m) ==> m@ == url_error_text(input@),
{
    let u = match ::url::Url::parse(input) {
        Ok(u) => u,
        Err(e) => return Err(e.to_string()),
    };
    Ok(ParsedUrl {
        scheme: u.scheme().to_string(),
        host: u.host_str().map(|h| h.to_string()),
        port: u.port(),
        path: u.path().to_string(),
        query_pairs: u.query_pairs().into_owned().collect(),
        fragment: u.fragment().map(|f| f.to_string()),
    })
}

/// Whether a byte is left as it is by percent-encoding: ASCII letters,
/// digits, `-`, `.`, `_` and `~`.
pub open spec fn is_unreserved(b: u8) -> bool {
    (48 <= b && b <= 57) || (65 <= b && b <= 90) || (97 <= b && b <= 122) || b == 45 || b == 46
        || b == 95 || b == 126
}

/// The upper-case hexadecimal digit for `d < 16`.
pub open spec fn hex_upper(d: u8) -> char {
    if d < 10 {
        ((48 + d) as u8) as char
    } else {
        ((55 + d) as u8) as char
    }
}

/// One byte, percent-encoded.
pub open spec fn encode_byte(b: u8) -> Seq<char> {
    if is_unreserved(b) {
        seq![b as char]
    } else {
        seq!['%', hex_upper(b / 16), hex_upper(b % 16)]
    }
}

/// A byte string, percent-encoded byte by byte.
pub open spec fn percent_encode_bytes(bytes: Seq<u8>) -> Seq<char>
    decreases bytes.len(),
{
    if bytes.len() == 0 {
        seq![]
    } else {
        encode_byte(bytes[0]) + percent_encode_bytes(bytes.drop_first())
    }
}

/// The percent-encoding of the UTF-8 bytes of `s`.
pub open spec fn percent_encode(s: Seq<char>) -> Seq<char> {
    percent_encode_bytes(encode_utf8(s))
}

/// Percent-encodes `s` with `urlencoding::encode`: every UTF-8 byte except
/// ASCII letters, digits, `-`, `_`, `.` and `~` becomes `%XX` with upper-case
/// hex digits, as the crate's documentation and source say.
#[verifier::external_body]
pub(crate) fn url_encode(s: &str) -> (r: String)
    ensures
        r@ == percent_encode(s@),
{
    ::urlencoding::encode(s).into_owned()
}

/// The value of an ASCII hexadecimal digit, either case.
pub open spec fn hex_digit_value(b: u8) -> Option<u8> {
    if 0x30 <= b <= 0x39 {
        Some((b - 0x30) as u8)
    } else if 0x41 <= b <= 0x46 {
        Some((b - 0x41 + 10) as u8)
    } else if 0x61 <= b <= 0x66 {
        Some((b - 0x61 + 10) as u8)
    } else {
        None
    }
}

/// `bytes` with each `%` followed by two hex digits replaced by the byte
/// they name; every other byte, a lone `%` among them, is kept.
pub open spec fn unescape_bytes(bytes: Seq<u8>) -> Seq<u8>
    decreases bytes.len(),
{
    if bytes.len() == 0 {
        Seq::<u8>::empty()
    } else if bytes[0] == 0x25 && bytes.len() >= 3 && hex_digit_value(bytes[1]) is Some
        && hex_digit_value(bytes[2]) is Some {
        seq![(hex_digit_value(bytes[1]).unwrap() * 16 + hex_digit_value(bytes[2]).unwrap()) as u8]
            + unescape_bytes(bytes.skip(3))
    } else {
        seq![bytes[0]] + unescape_bytes(bytes.skip(1))
    }
}

/// What `urlencoding::decode` makes of `s`: the UTF-8 bytes of `s` with
/// their `%XX` escapes decoded, read back as UTF-8, or `None` where they are
/// not valid UTF-8.
pub open spec fn percent_decode(s: Seq<char>) -> Option<Seq<char>> {
    let bytes = unescape_bytes(encode_utf8(s));
    if valid_utf8(bytes) {
        Some(decode_utf8(bytes))
    } else {
        None
    }
}

/// Decodes percent-escapes with `urlencoding::decode`. Claims what the
/// crate's source does: each `%` with two hex digits becomes the byte they
/// name, other bytes stay, and the result is that byte string read as UTF-8,
/// an error where it is not valid UTF-8 (`percent_decode`).
#[verifier::external_body]
pub(crate) fn url_decode(s: &str) -> (r: Option<String>)
    ensures
        opt_view(r) == percent_decode(s@),
{
    match ::urlencoding::decode(s) {
        Ok(d) => Some(d.into_owned()),
        Err(_) => None,
    }
}

} // verus!
