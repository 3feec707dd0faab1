//! The shared request/response plumbing: the header collection of an
//! outgoing request, extraction of the platform's diagnostic error header,
//! and the classification of a completed reply into success or `ApiError`.
use vstd::prelude::*;

use crate::error::Error;
use crate::response::Warp10Response;

verus! {

#[verifier::external_type_specification]
#[verifier::external_body]
#[verifier::reject_recursive_types(T)]
pub struct ExHeaderMap<T>(http::HeaderMap<T>);

#[verifier::external_type_specification]
#[verifier::external_body]
pub struct ExHeaderValue(http::HeaderValue);

/// What a header collection holds: the value bytes under each (lowercase)
/// header name.
pub uninterp spec fn header_entries_of(m: http::HeaderMap<http::HeaderValue>) -> Map<
    Seq<char>,
    Seq<u8>,
>;

/// How many header slots the collection has filled, duplicates under one
/// name counted separately.  The collection refuses to grow its table past a
/// fixed limit, and an insert may double the table when it is three-quarters
/// full — or, under the collision shield that long probe sequences switch
/// on, already at a fifth of its size — so the insertion wrapper asks for
/// room below a fifth of the limit, where no growth path can fail.
pub uninterp spec fn header_slots_of(m: http::HeaderMap<http::HeaderValue>) -> nat;

/// The bytes that a header value built from a string carries: the string's
/// UTF-8 encoding.
pub uninterp spec fn str_bytes_of(s: Seq<char>) -> Seq<u8>;

/// What decoding a byte sequence as UTF-8 text yields: the text, or nothing
/// when the bytes are not valid UTF-8.
pub uninterp spec fn utf8_decoded(bs: Seq<u8>) -> Option<Seq<char>>;

/// True for the characters accepted inside an HTTP header value: everything
/// but the control characters, with the exception of the horizontal tab.
pub open spec fn spec_valid_header_value_char(c: char) -> bool {
    c == '\t' || ((c as u32) >= 32 && (c as u32) != 127)
}

/// True when every character of `s` may stand in an HTTP header value.
pub open spec fn spec_valid_header_value(s: Seq<char>) -> bool
    decreases s.len(),
{
    s.len() == 0 || (spec_valid_header_value_char(s[0]) && spec_valid_header_value(s.skip(1)))
}

/// True for the characters this library uses in header names: lowercase
/// letters, digits and the dash.
pub open spec fn spec_lower_header_name_char(c: char) -> bool {
    ('a' <= c && c <= 'z') || ('0' <= c && c <= '9') || c == '-'
}

/// True when every character of `s` is a lowercase header-name character.
pub open spec fn spec_lower_header_name(s: Seq<char>) -> bool
    decreases s.len(),
{
    s.len() == 0 || (spec_lower_header_name_char(s[0]) && spec_lower_header_name(s.skip(1)))
}

/// True when every byte of `bs` is ASCII.
pub open spec fn spec_all_ascii_bytes(bs: Seq<u8>) -> bool {
    forall|i: int| 0 <= i < bs.len() ==> (#[trigger] bs[i]) < 128
}

/// Each byte read as the ASCII character with that code.
pub open spec fn spec_bytes_as_chars(bs: Seq<u8>) -> Seq<char> {
    bs.map_values(|b: u8| b as char)
}

/// The entries of a header collection that holds nothing.
pub open spec fn spec_no_header_entries() -> Map<Seq<char>, Seq<u8>> {
    Map::empty()
}

/// Relies on `http::HeaderMap::new`: a fresh collection holds no entries.
#[verifier::external_body]
pub(crate) fn new_header_map() -> (m: http::HeaderMap)
    ensures
        header_entries_of(m) == spec_no_header_entries(),
        header_slots_of(m) == 0,
{
    http::HeaderMap::new()
}

/// Relies on `http::header::HeaderName::from_bytes`,
/// `http::HeaderValue::from_str` and `http::HeaderMap::insert`: a nonempty
/// lowercase name is taken verbatim, the value carries the string's UTF-8
/// bytes, and `insert` replaces whatever the collection held under that
/// name.
#[verifier::external_body]
pub(crate) fn insert_header(m: &mut http::HeaderMap, name: &str, value: &str)
    requires
        name@.len() > 0,
        spec_lower_header_name(name@),
        spec_valid_header_value(value@),
        header_slots_of(*old(m)) < 6553,
    ensures
        header_entries_of(*final(m)) == header_entries_of(*old(m)).insert(
            name@,
            str_bytes_of(value@),
        ),
        header_slots_of(*final(m)) <= header_slots_of(*old(m)) + 1,
{
    let n = http::header::HeaderName::from_bytes(name.as_bytes()).unwrap();
    let v = http::HeaderValue::from_str(value).unwrap();
    m.insert(n, v);
}

/// Relies on `http::HeaderValue::from_str`: it accepts exactly the strings
/// whose characters may stand in a header value.
#[verifier::external_body]
pub(crate) fn check_header_value(s: &str) -> (r: bool)
    ensures
        r == spec_valid_header_value(s@),
{
    http::HeaderValue::from_str(s).is_ok()
}

/// Relies on `http::HeaderMap::get` (lookup under a lowercase name) and
/// `http::HeaderValue::as_bytes`.
#[verifier::external_body]
pub(crate) fn get_header_bytes(m: &http::HeaderMap, name: &str) -> (r: Option<Vec<u8>>)
    requires
        spec_lower_header_name(name@),
    ensures
        match r {
            Some(b) => header_entries_of(*m).contains_key(name@) && b@ == header_entries_of(
                *m,
            )[name@],
            None => !header_entries_of(*m).contains_key(name@),
        },
{
    match m.get(name) {
        Some(hv) => Some(hv.as_bytes().to_vec()),
        None => None,
    }
}

/// Relies on `String::from_utf8`: it decodes exactly the valid UTF-8 byte
/// sequences, and a sequence of ASCII bytes decodes to those very
/// characters.
#[verifier::external_body]
pub(crate) fn utf8_to_string(bytes: Vec<u8>) -> (r: Option<String>)
    ensures
        match r {
            Some(s) => utf8_decoded(bytes@) == Some(s@) && (spec_all_ascii_bytes(bytes@)
                ==> s@ == spec_bytes_as_chars(bytes@)),
            None => utf8_decoded(bytes@) is None && !spec_all_ascii_bytes(bytes@),
        },
{
    match String::from_utf8(bytes) {
        Ok(s) => Some(s),
        Err(_) => None,
    }
}

/// One fully assembled outgoing request: the target URI, the body text and
/// the stamped headers.  The transport that sends it is a collaborator
/// outside this library.
pub struct Warp10Request {
    pub uri: String,
    pub body: String,
    pub headers: http::HeaderMap,
}

/// The name of the platform's diagnostic error header.
pub open spec fn spec_error_header_key() -> Seq<char> {
    "x-warp10-error-message"@
}

/// The decoded diagnostic header among the given entries: the UTF-8 decoding
/// of its bytes, or nothing when the header is absent or not UTF-8 text.
pub open spec fn spec_extract_header_err(entries: Map<Seq<char>, Seq<u8>>) -> Option<Seq<char>> {
    if entries.contains_key(spec_error_header_key()) {
        utf8_decoded(entries[spec_error_header_key()])
    } else {
        None
    }
}

/// Reads the platform's diagnostic error header from a reply's headers,
/// best-effort: a missing header or one whose bytes are not UTF-8 text both
/// yield `None`, never a failure.
pub fn extract_header_err(headers: &http::HeaderMap) -> (r: Option<String>)
    ensures
        r.deep_view() == spec_extract_header_err(header_entries_of(*headers)),
{
    proof {
        reveal_strlit("x-warp10-error-message");
        reveal_with_fuel(spec_lower_header_name, 24);
        assert(spec_lower_header_name("x-warp10-error-message"@));
    }
    match get_header_bytes(headers, "x-warp10-error-message") {
        Some(bytes) => utf8_to_string(bytes),
        None => None,
    }
}

/// How a completed reply is classified: HTTP 200 is success carrying the
/// response; every other status is an `ApiError` carrying the response and
/// the decoded diagnostic header, if any.
pub open spec fn spec_handle_response(err: Option<String>, status: u16, payload: String) -> Result<
    Warp10Response,
    Error,
> {
    let response = Warp10Response { status, payload };
    if status == 200 {
        Ok(response)
    } else {
        Err(Error::ApiError(response, err))
    }
}

/// Classifies a completed reply: success exactly on HTTP 200, an `ApiError`
/// carrying the full response and the diagnostic text otherwise.
pub fn handle_response(err: Option<String>, status: u16, payload: String) -> (r: Result<
    Warp10Response,
    Error,
>)
    ensures
        r == spec_handle_response(err, status, payload),
{
    let response = Warp10Response::new(status, payload);
    if response.status() == 200 {
        Ok(response)
    } else {
        Err(Error::api_error(response, err))
    }
}

} // verus!
