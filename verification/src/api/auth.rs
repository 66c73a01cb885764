//! Whether a request comes from the control plane.

use vstd::prelude::*;

verus! {

/// The headers of a request, held by the `http` crate.
#[verifier::external_type_specification]
#[verifier::external_body]
#[verifier::reject_recursive_types(T)]
pub struct ExHeaderMap<T>(http::HeaderMap<T>);

/// One header value, held by the `http` crate.
#[verifier::external_type_specification]
#[verifier::external_body]
pub struct ExHeaderValue(http::HeaderValue);

/// For every text, the bytes of the first value that the headers hold under that name, where they
/// hold one.
pub uninterp spec fn stored_headers(headers: http::HeaderMap) -> Map<Seq<char>, Seq<u8>>;

/// `http::HeaderMap::get`: the first value under a name, as its bytes.
#[verifier::external_body]
fn header_bytes(headers: &http::HeaderMap, name: &str) -> (value: Option<Vec<u8>>)
    ensures
        match value {
            Some(value) => stored_headers(*headers).contains_key(name@)
                && stored_headers(*headers)[name@] == value@,
            None => !stored_headers(*headers).contains_key(name@),
        },
{
    match headers.get(name) {
        Some(value) => Some(value.as_bytes().to_vec()),
        None => None,
    }
}

/// Whether the bytes of a header value are readable text, and not empty.
pub open spec fn is_filled(value: Seq<u8>) -> bool {
    value.len() > 0 && forall|i: int|
        0 <= i < value.len() ==> ((32 <= #[trigger] value[i] && value[i] < 127) || value[i] == 9)
}

/// Whether a header is there and filled.
pub open spec fn is_given(headers: http::HeaderMap, name: Seq<char>) -> bool {
    stored_headers(headers).contains_key(name) && is_filled(stored_headers(headers)[name])
}

fn nonempty_header(headers: &http::HeaderMap, name: &str) -> (answer: bool)
    ensures
        answer == is_given(*headers, name@),
{
    let value = match header_bytes(headers, name) {
        Some(value) => value,
        None => return false,
    };
    if value.len() == 0 {
        return false;
    }
    let mut at: usize = 0;
    while at < value.len()
        invariant
            at <= value@.len(),
            stored_headers(*headers).contains_key(name@),
            stored_headers(*headers)[name@] == value@,
            forall|i: int|
                0 <= i < at ==> ((32 <= #[trigger] value@[i] && value@[i] < 127) || value@[i] == 9),
        decreases value@.len() - at,
    {
        let byte: u8 = value[at];
        if !((32 <= byte && byte < 127) || byte == 9) {
            return false;
        }
        at += 1;
    }
    true
}

/// Whether a request carries an API key or an administration token. What they are worth is
/// checked elsewhere.
pub fn has_control_plane_auth(headers: &http::HeaderMap) -> (answer: bool)
    ensures
        answer == (is_given(*headers, "x-api-key"@) || is_given(*headers, "x-admin-token"@)),
{
    nonempty_header(headers, "x-api-key") || nonempty_header(headers, "x-admin-token")
}

/// A header counts where it is there, is not empty and is all readable text; one control character
/// other than a tab, or one byte beyond ASCII, makes it count as missing.
pub proof fn unreadable_headers_do_not_count(
    headers: http::HeaderMap,
    name: Seq<char>,
    at: int,
)
    ensures
        !stored_headers(headers).contains_key(name) ==> !is_given(headers, name),
        stored_headers(headers).contains_key(name) ==> {
            let value = stored_headers(headers)[name];
            &&& value.len() == 0 ==> !is_given(headers, name)
            &&& 0 <= at < value.len() && value[at] < 32 && value[at] != 9 ==> !is_given(headers, name)
            &&& 0 <= at < value.len() && value[at] >= 127 ==> !is_given(headers, name)
            &&& value.len() > 0 && (forall|i: int|
                0 <= i < value.len() ==> (32 <= #[trigger] value[i] <= 126 || value[i] == 9))
                ==> is_given(headers, name)
        },
{
}

} // verus!
