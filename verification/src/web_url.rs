//! The two services of the `url` crate that the browser logic uses: the
//! WHATWG URL parser (for hosts and validity) and the
//! `application/x-www-form-urlencoded` byte serializer.
use vstd::prelude::*;

verus! {

broadcast use vstd::string::group_string_axioms;

/// What the WHATWG URL parser makes of `input`: `None` when `url::Url::parse`
/// rejects it, otherwise `Some` of the host that `Url::host_str` reports
/// (`None` for URLs without a host, such as `about:blank`).
pub uninterp spec fn parsed_url_host(input: Seq<char>) -> Option<Option<Seq<char>>>;

/// Runs `url::Url::parse` on `input` and, on success, `Url::host_str`. The
/// contract claims only that the result is the one named by
/// `parsed_url_host`.
#[verifier::external_body]
pub(crate) fn parse_url(input: &str) -> (parsed: Option<Option<String>>)
    ensures
        match parsed {
            None => parsed_url_host(input@) is None,
            Some(None) => parsed_url_host(input@) == Some(None::<Seq<char>>),
            Some(Some(h)) => parsed_url_host(input@) == Some(Some(h@)),
        },
{
    match url::Url::parse(input) {
        Ok(u) => Some(u.host_str().map(|h| h.to_string())),
        Err(_) => None,
    }
}

/// Whether `input` parses as an absolute URL.
pub fn parses_as_url(input: &str) -> (ok: bool)
    ensures
        ok == parsed_url_host(input@) is Some,
{
    parse_url(input).is_some()
}

/// Bytes the form serializer copies unchanged: `*`, `-`, `.`, `_`, ASCII
/// digits and letters.
pub open spec fn form_byte_unchanged(b: u8) -> bool {
    ||| b == 0x2A
    ||| b == 0x2D
    ||| b == 0x2E
    ||| b == 0x5F
    ||| 0x30 <= b <= 0x39
    ||| 0x41 <= b <= 0x5A
    ||| 0x61 <= b <= 0x7A
}

/// Uppercase hexadecimal digit for `n < 16`.
pub open spec fn hex_digit_upper(n: int) -> char {
    if n < 10 {
        (0x30 + n) as char
    } else {
        (0x41 + n - 10) as char
    }
}

/// How the form serializer writes one byte: itself, `+` for a space,
/// `%XY` (uppercase hex) for everything else.
pub open spec fn form_encode_byte(b: u8) -> Seq<char> {
    if form_byte_unchanged(b) {
        seq![b as char]
    } else if b == 0x20 {
        seq!['+']
    } else {
        seq!['%', hex_digit_upper((b / 16) as int), hex_digit_upper((b % 16) as int)]
    }
}

/// The form serialization of a byte string.
pub open spec fn form_urlencode(bytes: Seq<u8>) -> Seq<char>
    decreases bytes.len(),
{
    if bytes.len() == 0 {
        Seq::empty()
    } else {
        form_encode_byte(bytes[0]) + form_urlencode(bytes.drop_first())
    }
}

/// `url::form_urlencoded::byte_serialize` over the UTF-8 bytes of `s`,
/// collected into a string: each byte written as `form_encode_byte` says,
/// which is what the crate's `byte_serialized_unchanged` and
/// `percent_encode_byte` do.
#[verifier::external_body]
pub(crate) fn form_urlencoded(s: &str) -> (encoded: String)
    ensures
        encoded@ == form_urlencode(vstd::utf8::encode_utf8(s@)),
{
    url::form_urlencoded::byte_serialize(s.as_bytes()).collect()
}

} // verus!
