//! Header fields of a request or a response.

use vstd::prelude::*;

verus! {

/// A header value as the `http` crate stores it.
#[verifier::external_type_specification]
#[verifier::external_body]
pub struct ExHeaderValue(http::HeaderValue);

/// A header map of the `http` crate.
#[verifier::external_type_specification]
#[verifier::external_body]
#[verifier::reject_recursive_types(T)]
pub struct ExHeaderMap<T>(http::HeaderMap<T>);

/// What a header map holds: for each name that occurs, in lower case, the bytes of its values in
/// the order in which they were added.
pub uninterp spec fn header_fields(headers: http::HeaderMap<http::HeaderValue>) -> Map<
    Seq<char>,
    Seq<Seq<u8>>,
>;

/// A byte that a header value may hold: a tab, or anything but the control characters.
pub open spec fn is_value_byte(b: u8) -> bool {
    b == 9 || (b >= 32 && b != 127)
}

/// The bytes that a header value may consist of.
pub open spec fn is_header_value(bytes: Seq<u8>) -> bool {
    forall|i: int| 0 <= i < bytes.len() ==> is_value_byte(#[trigger] bytes[i])
}

/// A character of a header name in lower case.
pub open spec fn is_name_char(c: char) -> bool {
    ('a' <= c && c <= 'z') || ('0' <= c && c <= '9') || c == '-'
}

/// A header name in lower case, made of letters, digits and hyphens.
pub open spec fn is_header_name(name: Seq<char>) -> bool {
    &&& 0 < name.len() <= 64
    &&& forall|i: int| 0 <= i < name.len() ==> is_name_char(#[trigger] name[i])
}

/// The first value of a header name, if it has one.
pub open spec fn first_value(
    fields: Map<Seq<char>, Seq<Seq<u8>>>,
    name: Seq<char>,
) -> Option<Seq<u8>> {
    if fields.dom().contains(name) {
        Some(fields[name].first())
    } else {
        None
    }
}

/// How many names a header map may hold so that one more is sure to fit.
pub const SAFE_NAME_COUNT: usize = 6553;

pub const AUTHORIZATION: &'static str = "authorization";

pub const X_FORWARDED_HOST: &'static str = "x-forwarded-host";

pub const X_REAL_IP: &'static str = "x-real-ip";

pub const X_REQUEST_ID: &'static str = "x-request-id";

/// Why a header could not be set.
#[derive(Clone, Copy, Debug, PartialEq, Eq)]
pub enum HeaderError {
    /// The value holds a byte that no header value may hold.
    InvalidValue,
    /// The header map cannot take another name.
    TooManyNames,
}

/// `http::HeaderMap::get`, which is trusted to return the first value under the name, here as
/// bytes, if the name occurs, and nothing otherwise.
#[verifier::external_body]
pub(crate) fn header_get(headers: &http::HeaderMap<http::HeaderValue>, name: &str) -> (value: Option<Vec<u8>>)
    requires
        is_header_name(name@),
    ensures
        match value {
            Some(v) => first_value(header_fields(*headers), name@) == Some(v@),
            None => first_value(header_fields(*headers), name@) is None,
        },
{
    headers.get(name).map(|v| v.as_bytes().to_vec())
}

/// `http::HeaderMap::try_insert`, which is trusted to put the value in the place of all former
/// values of the name, or to report that the map is full and leave it as it was. A map can be
/// full only if it holds more than `SAFE_NAME_COUNT` names: above that the map's own growth
/// decides, of which nothing is said here.
#[verifier::external_body]
fn header_try_insert(
    headers: &mut http::HeaderMap<http::HeaderValue>,
    name: &str,
    value: &str,
) -> (inserted: bool)
    requires
        is_header_name(name@),
        is_header_value(vstd::utf8::encode_utf8(value@)),
    ensures
        inserted ==> header_fields(*final(headers)) == header_fields(*old(headers)).insert(
            name@,
            seq![vstd::utf8::encode_utf8(value@)],
        ),
        !inserted ==> header_fields(*final(headers)) == header_fields(*old(headers)),
        header_fields(*old(headers)).dom().len() <= SAFE_NAME_COUNT ==> inserted,
{
    let name = http::HeaderName::from_bytes(name.as_bytes()).unwrap();
    let value = http::HeaderValue::from_maybe_shared(bytes::Bytes::from(value.to_owned())).unwrap();
    headers.try_insert(name, value).is_ok()
}

/// What setting a header does: the header has the one given value afterwards, and no other header
/// has changed. It fails on a value that no header can have. It can also fail where the map holds
/// more than `SAFE_NAME_COUNT` names. Where it fails, no header has changed.
pub open spec fn header_is_set(
    before: Map<Seq<char>, Seq<Seq<u8>>>,
    name: Seq<char>,
    value: Seq<char>,
    result: Result<(), HeaderError>,
    after: Map<Seq<char>, Seq<Seq<u8>>>,
) -> bool {
    let bytes = vstd::utf8::encode_utf8(value);
    match result {
        Ok(()) => is_header_value(bytes) && after == before.insert(name, seq![bytes]),
        Err(HeaderError::InvalidValue) => !is_header_value(bytes) && after == before,
        Err(HeaderError::TooManyNames) => {
            &&& is_header_value(bytes)
            &&& before.dom().len() > SAFE_NAME_COUNT
            &&& after == before
        },
    }
}

/// The names that the load balancer uses are header names.
pub(crate) proof fn known_names()
    ensures
        is_header_name(AUTHORIZATION@),
        is_header_name(X_FORWARDED_HOST@),
        is_header_name(X_REAL_IP@),
        is_header_name(X_REQUEST_ID@),
{
    reveal_strlit("authorization");
    reveal_strlit("x-forwarded-host");
    reveal_strlit("x-real-ip");
    reveal_strlit("x-request-id");
}

/// Whether a text can be the value of a header.
pub fn fits_header_value(value: &str) -> (fits: bool)
    ensures
        fits == is_header_value(vstd::utf8::encode_utf8(value@)),
{
    let bytes: &[u8] = value.as_bytes();
    let mut i: usize = 0;
    while i < bytes.len()
        invariant
            bytes@ == vstd::utf8::encode_utf8(value@),
            i <= bytes.len(),
            forall|j: int| 0 <= j < i ==> is_value_byte(#[trigger] bytes@[j]),
        decreases bytes.len() - i,
    {
        let b: u8 = bytes[i];
        if !(b == 9 || (b >= 32 && b != 127)) {
            assert(!is_value_byte(bytes@[i as int]));
            return false;
        }
        i += 1;
    }
    true
}

/// Sets a header, in the place of all its former values.
pub(crate) fn set_header(
    headers: &mut http::HeaderMap<http::HeaderValue>,
    name: &str,
    value: &str,
) -> (result: Result<(), HeaderError>)
    requires
        is_header_name(name@),
    ensures
        header_is_set(
            header_fields(*old(headers)),
            name@,
            value@,
            result,
            header_fields(*final(headers)),
        ),
{
    if !fits_header_value(value) {
        Err(HeaderError::InvalidValue)
    } else if header_try_insert(headers, name, value) {
        Ok(())
    } else {
        Err(HeaderError::TooManyNames)
    }
}

/// A header that was set is read back as it was given, it has no other value, and every other
/// header reads as before. Setting it fails only on a value with a control character other than a
/// tab, or on a map that holds more than `SAFE_NAME_COUNT` names, and then every header reads as
/// before.
pub proof fn set_headers_are_read_back(
    before: Map<Seq<char>, Seq<Seq<u8>>>,
    name: Seq<char>,
    value: Seq<char>,
    result: Result<(), HeaderError>,
    after: Map<Seq<char>, Seq<Seq<u8>>>,
    other: Seq<char>,
)
    requires
        header_is_set(before, name, value, result, after),
    ensures
        result is Ok ==> first_value(after, name) == Some(vstd::utf8::encode_utf8(value)),
        result is Ok ==> after[name].len() == 1,
        other != name ==> first_value(after, other) == first_value(before, other),
        other != name ==> after.dom().contains(other) == before.dom().contains(other),
        other != name && before.dom().contains(other) ==> after[other] == before[other],
        result is Err ==> after == before,
        result == Err::<(), HeaderError>(HeaderError::InvalidValue) <==> exists|i: int|
            0 <= i < vstd::utf8::encode_utf8(value).len() && {
                let b = #[trigger] vstd::utf8::encode_utf8(value)[i];
                (b < 32 && b != 9) || b == 127
            },
        result == Err::<(), HeaderError>(HeaderError::TooManyNames) ==> before.dom().len() > 6553,
{
    let bytes = vstd::utf8::encode_utf8(value);
    if !is_header_value(bytes) {
        let i = choose|i: int| 0 <= i < bytes.len() && !is_value_byte(#[trigger] bytes[i]);
        assert((bytes[i] < 32 && bytes[i] != 9) || bytes[i] == 127);
    } else {
        assert forall|i: int| 0 <= i < bytes.len() implies !((#[trigger] bytes[i] < 32 && bytes[i]
            != 9) || bytes[i] == 127) by {
            assert(is_value_byte(bytes[i]));
        }
    }
}

} // verus!
