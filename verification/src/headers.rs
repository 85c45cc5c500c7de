//! Header names and values, and the header map of the HTTP client.

use reqwest::header::{HeaderMap, HeaderValue, InvalidHeaderValue};
use vstd::prelude::*;
use vstd::string::*;

verus! {

/// The most header names that a client is configured with. It lies well
/// below the size at which the header map refuses to grow.
pub const MAX_HEADERS: usize = 4096;

/// Whether `b` is a visible ASCII character, a space or a tab.
pub open spec fn is_visible_ascii(b: u8) -> bool {
    (32 <= b && b < 127) || b == 9
}

/// Whether `bytes` can be the value of a header of this client: visible
/// ASCII, spaces and tabs only.
pub open spec fn is_field_value(bytes: Seq<u8>) -> bool {
    forall|i: int| 0 <= i < bytes.len() ==> is_visible_ascii(#[trigger] bytes[i])
}

/// Whether `b` may stand in a header value on the wire: anything but a
/// control character other than the tab.
pub open spec fn is_wire_value_byte(b: u8) -> bool {
    (b >= 32 && b != 127) || b == 9
}

/// Whether `b` may stand in a header name.
pub open spec fn is_token_byte(b: u8) -> bool {
    ||| 48 <= b <= 57
    ||| 65 <= b <= 90
    ||| 97 <= b <= 122
    ||| b == 33
    ||| 35 <= b <= 39
    ||| b == 42
    ||| b == 43
    ||| b == 45
    ||| b == 46
    ||| 94 <= b <= 96
    ||| b == 124
    ||| b == 126
}

/// Whether `bytes` is a header name: one to 65535 token characters.
pub open spec fn is_header_name(bytes: Seq<u8>) -> bool {
    &&& 1 <= bytes.len() <= 65535
    &&& forall|i: int| 0 <= i < bytes.len() ==> is_token_byte(#[trigger] bytes[i])
}

/// `b` with an upper-case ASCII letter turned into its lower-case form.
pub open spec fn lower_byte(b: u8) -> u8 {
    if 65 <= b <= 90 {
        (b + 32) as u8
    } else {
        b
    }
}

/// The form under which a header map files a name: lower case.
pub open spec fn lower_name(name: Seq<u8>) -> Seq<u8> {
    Seq::new(name.len(), |i: int| lower_byte(name[i]))
}

/// Tests `is_field_value`.
pub fn check_field_value(bytes: &[u8]) -> (ok: bool)
    ensures
        ok == is_field_value(bytes@),
{
    let mut i: usize = 0;
    while i < bytes.len()
        invariant
            i <= bytes.len(),
            forall|j: int| 0 <= j < i ==> is_visible_ascii(#[trigger] bytes@[j]),
        decreases bytes.len() - i,
    {
        let b = bytes[i];
        if !((32 <= b && b < 127) || b == 9) {
            return false;
        }
        i += 1;
    }
    true
}

/// Tests `is_header_name`.
pub fn check_header_name(bytes: &[u8]) -> (ok: bool)
    ensures
        ok == is_header_name(bytes@),
{
    if bytes.len() < 1 || bytes.len() > 65535 {
        return false;
    }
    let mut i: usize = 0;
    while i < bytes.len()
        invariant
            i <= bytes.len(),
            forall|j: int| 0 <= j < i ==> is_token_byte(#[trigger] bytes@[j]),
        decreases bytes.len() - i,
    {
        let b = bytes[i];
        let token = (48 <= b && b <= 57) || (65 <= b && b <= 90) || (97 <= b && b <= 122) || b
            == 33 || (35 <= b && b <= 39) || b == 42 || b == 43 || b == 45 || b == 46 || (94 <= b
            && b <= 96) || b == 124 || b == 126;
        if !token {
            return false;
        }
        i += 1;
    }
    true
}

/// `reqwest::header::HeaderMap`: the header map of the HTTP client.
#[verifier::external_type_specification]
#[verifier::external_body]
#[verifier::reject_recursive_types(T)]
pub struct ExHeaderMap<T>(reqwest::header::HeaderMap<T>);

/// `reqwest::header::HeaderValue`: a header value that was checked.
#[verifier::external_type_specification]
#[verifier::external_body]
pub struct ExHeaderValue(reqwest::header::HeaderValue);

/// `reqwest::header::InvalidHeaderValue`: the refusal of a header value.
#[verifier::external_type_specification]
#[verifier::external_body]
pub struct ExInvalidHeaderValue(reqwest::header::InvalidHeaderValue);

/// What a header map holds: for each name, in lower case, the bytes of the
/// values filed under it, in the order in which the map hands them out.
pub uninterp spec fn header_entries(headers: HeaderMap) -> Map<Seq<u8>, Seq<Seq<u8>>>;

/// How many names a header map holds.
pub uninterp spec fn header_count(headers: HeaderMap) -> nat;

/// The bytes of a header value.
pub uninterp spec fn header_value_bytes(value: HeaderValue) -> Seq<u8>;

/// `HeaderMap::new`: a map that holds nothing.
#[verifier::external_body]
pub(crate) fn new_header_map() -> (headers: HeaderMap)
    ensures
        header_entries(headers) =~= Map::empty(),
        header_count(headers) == 0,
{
    HeaderMap::new()
}

/// `HeaderMap::keys_len`: the number of names in the map.
#[verifier::external_body]
pub(crate) fn header_count_of(headers: &HeaderMap) -> (count: usize)
    ensures
        count == header_count(*headers),
{
    headers.keys_len()
}

/// `HeaderValue::from_str`: the value made of the bytes of `value`. It is
/// refused exactly where a byte is a control character other than the tab.
#[verifier::external_body]
pub(crate) fn parse_header_value(value: &str) -> (parsed: Result<HeaderValue, InvalidHeaderValue>)
    ensures
        parsed is Ok <==> forall|i: int|
            0 <= i < value.spec_bytes().len() ==> is_wire_value_byte(
                #[trigger] value.spec_bytes()[i],
            ),
        parsed matches Ok(v) ==> header_value_bytes(v) == value.spec_bytes(),
{
    HeaderValue::from_str(value)
}

/// The `Display` text of `InvalidHeaderValue`, which is one fixed sentence.
#[verifier::external_body]
pub(crate) fn invalid_header_value_text(err: &InvalidHeaderValue) -> (text: String)
    ensures
        text@ == "failed to parse header value"@,
{
    err.to_string()
}

/// `HeaderMap::insert` with a name given as text: `value` becomes the one
/// value filed under the lower-case form of `name`, in place of any that
/// were there. The call panics on a name that is no header name and on a
/// map that cannot grow; both are left out.
#[verifier::external_body]
pub(crate) fn insert_header(headers: &mut HeaderMap, name: &'static str, value: HeaderValue)
    requires
        is_header_name(name.spec_bytes()),
        header_count(*old(headers)) < MAX_HEADERS,
    ensures
        header_entries(*final(headers)) == header_entries(*old(headers)).insert(
            lower_name(name.spec_bytes()),
            seq![header_value_bytes(value)],
        ),
        header_count(*old(headers)) <= header_count(*final(headers)) <= header_count(
            *old(headers),
        ) + 1,
{
    headers.insert(name, value);
}

} // verus!
