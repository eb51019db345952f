//! The headers of a request.

use vstd::prelude::*;

use crate::identifier;

verus! {

/// `axum::http::HeaderMap`, the headers of a request by name.
#[verifier::external_type_specification]
#[verifier::external_body]
#[verifier::reject_recursive_types(T)]
pub struct ExHeaderMap<T>(axum::http::HeaderMap<T>);

/// `axum::http::HeaderValue`, the bytes of one header.
#[verifier::external_type_specification]
#[verifier::external_body]
pub struct ExHeaderValue(axum::http::HeaderValue);

/// The headers of a request.
pub type RequestHeaders = axum::http::HeaderMap<axum::http::HeaderValue>;

/// The first value of each header, by the header's name in lower case.
pub uninterp spec fn first_values(headers: RequestHeaders) -> Map<Seq<char>, Seq<u8>>;

/// The bytes of a header value.
pub uninterp spec fn value_bytes(value: axum::http::HeaderValue) -> Seq<u8>;

/// A header name made of letters, digits and hyphens.
pub open spec fn is_plain_name(name: Seq<char>) -> bool {
    forall|i: int|
        0 <= i < name.len() ==> {
            ||| 'a' <= #[trigger] name[i] <= 'z'
            ||| 'A' <= name[i] <= 'Z'
            ||| '0' <= name[i] <= '9'
            ||| name[i] == '-'
        }
}

/// `HeaderMap::get`: the first value of a header, whatever the case of the
/// letters in its name.
#[verifier::external_body]
pub(crate) fn get<'a>(headers: &'a RequestHeaders, name: &str) -> (value: Option<
    &'a axum::http::HeaderValue,
>)
    requires
        is_plain_name(name@),
    ensures
        match value {
            Some(value) => first_values(*headers).contains_key(identifier::ascii_lowered(name@))
                && value_bytes(*value) == first_values(*headers)[identifier::ascii_lowered(name@)],
            None => !first_values(*headers).contains_key(identifier::ascii_lowered(name@)),
        },
{
    headers.get(name)
}

/// Only printable ASCII characters, blanks and tabs.
pub open spec fn is_visible(bytes: Seq<u8>) -> bool {
    forall|i: int| 0 <= i < bytes.len() ==> 32 <= #[trigger] bytes[i] < 127 || bytes[i] == 9
}

/// Bytes read as ASCII.
pub open spec fn ascii_text(bytes: Seq<u8>) -> Seq<char> {
    bytes.map_values(|b: u8| b as char)
}

/// `HeaderValue::to_str`: the text of a header value, if it is made of visible
/// ASCII characters only.
#[verifier::external_body]
pub(crate) fn to_str(value: &axum::http::HeaderValue) -> (text: Option<&str>)
    ensures
        match text {
            Some(text) => is_visible(value_bytes(*value)) && text@ == ascii_text(
                value_bytes(*value),
            ),
            None => !is_visible(value_bytes(*value)),
        },
{
    value.to_str().ok()
}

} // verus!
