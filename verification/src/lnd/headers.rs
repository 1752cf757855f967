//! The headers of the one request that a manager sends.

use crate::lnd::credential::Credential;
use crate::lnd::hex::is_lower_hex;
use reqwest::header::{HeaderMap, HeaderValue, InvalidHeaderValue};
use vstd::prelude::*;
use vstd::string::StringSliceAdditionalSpecFns;

verus! {

/// `http::header::HeaderMap`, the map from header names to header values
/// that the HTTP client takes.
#[verifier::external_type_specification]
#[verifier::external_body]
#[verifier::reject_recursive_types(T)]
pub struct ExHeaderMap<T>(HeaderMap<T>);

/// `http::header::HeaderValue`, the bytes of one header value.
#[verifier::external_type_specification]
#[verifier::external_body]
pub struct ExHeaderValue(HeaderValue);

/// `http::header::InvalidHeaderValue`, the error of a refused header value.
#[verifier::external_type_specification]
#[verifier::external_body]
pub struct ExInvalidHeaderValue(InvalidHeaderValue);

/// What a header map holds: for each header name in it, written in lower
/// case as the map stores it, the bytes of the first value under that name.
pub uninterp spec fn header_entries(map: HeaderMap<HeaderValue>) -> Map<Seq<char>, Seq<u8>>;

/// The bytes of a header value.
pub uninterp spec fn header_value_bytes(value: HeaderValue) -> Seq<u8>;

/// Whether a byte may stand in a header value: anything from the space on
/// except DEL, and the tab.
pub open spec fn is_value_byte(b: u8) -> bool {
    (b >= 32 && b != 127) || b == 9
}

/// Whether every byte of `bytes` may stand in a header value.
pub open spec fn is_value_bytes(bytes: Seq<u8>) -> bool {
    forall|i: int| 0 <= i < bytes.len() ==> is_value_byte(#[trigger] bytes[i])
}

/// Whether a character is an ASCII letter, a digit or a hyphen.
pub open spec fn is_name_char(c: char) -> bool {
    ('a' <= c && c <= 'z') || ('A' <= c && c <= 'Z') || ('0' <= c && c <= '9') || c == '-'
}

/// Whether `name` is a header name made of letters, digits and hyphens, of
/// one to sixty-four characters.
pub open spec fn is_plain_name(name: Seq<char>) -> bool {
    &&& 1 <= name.len() <= 64
    &&& forall|i: int| 0 <= i < name.len() ==> is_name_char(#[trigger] name[i])
}

/// A character with an upper-case ASCII letter turned into its lower-case
/// form.
pub open spec fn lower_char(c: char) -> char {
    if 'A' <= c && c <= 'Z' {
        ((c as u8) + 32) as u8 as char
    } else {
        c
    }
}

/// A name as a header map stores it: in lower case.
pub open spec fn lower_name(name: Seq<char>) -> Seq<char> {
    name.map_values(|c: char| lower_char(c))
}

/// The contents of a header map that holds nothing.
pub open spec fn no_headers() -> Map<Seq<char>, Seq<u8>> {
    Map::empty()
}

/// The number of names below which an insertion never overflows a header
/// map.
pub const SAFE_HEADER_COUNT: usize = 1024;

/// `HeaderMap::new`: a map that holds nothing.
#[verifier::external_body]
fn new_header_map() -> (headers: HeaderMap<HeaderValue>)
    ensures
        header_entries(headers) == no_headers(),
{
    HeaderMap::new()
}

/// `HeaderValue::from_str`: accepts a text exactly when each of its bytes may
/// stand in a header value, and the value then holds the bytes of the text.
#[verifier::external_body]
fn header_value_from_str(src: &str) -> (result: Result<HeaderValue, InvalidHeaderValue>)
    ensures
        result is Ok <==> is_value_bytes(src.spec_bytes()),
        result matches Ok(value) ==> header_value_bytes(value) == src.spec_bytes(),
{
    HeaderValue::from_str(src)
}

/// `HeaderMap::insert` with a static name: the name is stored in lower
/// case, the value takes the place of whatever stood under that name, and
/// the first of the values that stood there comes back. The name must be a
/// valid one and the map far from full: the outside function panics
/// otherwise.
#[verifier::external_body]
fn header_insert(map: &mut HeaderMap<HeaderValue>, name: &'static str, value: HeaderValue) -> (previous: Option<HeaderValue>)
    requires
        is_plain_name(name@),
        header_entries(*old(map)).dom().finite(),
        header_entries(*old(map)).dom().len() < SAFE_HEADER_COUNT,
    ensures
        header_entries(*final(map)) == header_entries(*old(map)).insert(
            lower_name(name@),
            header_value_bytes(value),
        ),
        previous is Some <==> header_entries(*old(map)).contains_key(lower_name(name@)),
        previous matches Some(v) ==> header_value_bytes(v) == header_entries(*old(map))[lower_name(
            name@,
        )],
{
    map.insert(name, value)
}

/// The bytes of a text of ASCII characters: one byte for each character.
pub open spec fn ascii_bytes(text: Seq<char>) -> Seq<u8> {
    Seq::new(text.len(), |i: int| text[i] as u8)
}

/// The name of the header that says what the request body is.
pub open spec fn content_type_name() -> Seq<char> {
    "content-type"@
}

/// The name of the header that carries the credential.
pub open spec fn macaroon_name() -> Seq<char> {
    "grpc-metadata-macaroon"@
}

/// The headers of a request that authenticates with `credential`: the
/// content type, which is always JSON, and the credential itself.
pub open spec fn request_headers(credential: Seq<char>) -> Map<Seq<char>, Seq<u8>> {
    no_headers().insert(
        content_type_name(),
        ascii_bytes("application/json"@),
    ).insert(macaroon_name(), ascii_bytes(credential))
}

/// The bytes of an ASCII text are its characters, one byte each, and each
/// of them may stand in a header value unless it is a control character.
proof fn lemma_ascii_value_bytes(s: &str)
    requires
        forall|i: int| 0 <= i < s@.len() ==> ' ' <= #[trigger] s@[i] <= '~',
    ensures
        s.spec_bytes() == ascii_bytes(s@),
        is_value_bytes(s.spec_bytes()),
{
    assert(vstd::string::is_ascii(s));
    vstd::string::is_ascii_spec_bytes(s);
    assert(s.spec_bytes() =~= ascii_bytes(s@));
    assert forall|i: int| 0 <= i < s.spec_bytes().len() implies is_value_byte(
        #[trigger] s.spec_bytes()[i],
    ) by {
        let c = s@[i];
        assert(' ' <= c <= '~');
        assert(s.spec_bytes()[i] == c as u8);
    }
}

/// The two header names as a header map stores them.
proof fn lemma_header_names()
    ensures
        is_plain_name("Content-Type"@),
        is_plain_name("Grpc-Metadata-macaroon"@),
        lower_name("Content-Type"@) == content_type_name(),
        lower_name("Grpc-Metadata-macaroon"@) == macaroon_name(),
        content_type_name() != macaroon_name(),
{
    reveal_strlit("Content-Type");
    reveal_strlit("content-type");
    reveal_strlit("Grpc-Metadata-macaroon");
    reveal_strlit("grpc-metadata-macaroon");
    assert(lower_name("Content-Type"@) =~= "content-type"@);
    assert(lower_name("Grpc-Metadata-macaroon"@) =~= "grpc-metadata-macaroon"@);
    assert("content-type"@.len() != "grpc-metadata-macaroon"@.len());
}

/// Builds the headers of a request: `Content-Type: application/json` and
/// `Grpc-Metadata-macaroon` with the text of the credential.
pub fn build_headers(macaroon: &Credential) -> (headers: HeaderMap<HeaderValue>)
    ensures
        header_entries(headers) == request_headers(macaroon@),
{
    let mut headers = new_header_map();
    proof {
        lemma_header_names();
        reveal_strlit("application/json");
        lemma_ascii_value_bytes("application/json");
    }
    let type_header = match header_value_from_str("application/json") {
        Ok(value) => value,
        Err(_) => unreached(),
    };
    header_insert(&mut headers, "Content-Type", type_header);

    let text = macaroon.expose().as_str();
    proof {
        assert forall|i: int| 0 <= i < text@.len() implies ' ' <= #[trigger] text@[i] <= '~' by {
            assert(is_lower_hex(text@[i]));
        }
        lemma_ascii_value_bytes(text);
        assert(header_entries(headers).dom() =~= set![content_type_name()]);
    }
    let macaroon_header = match header_value_from_str(text) {
        Ok(value) => value,
        Err(_) => unreached(),
    };
    header_insert(&mut headers, "Grpc-Metadata-macaroon", macaroon_header);
    headers
}

} // verus!
