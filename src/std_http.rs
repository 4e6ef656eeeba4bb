//! The items of the `http` crate that this library relies on, with the
//! contracts that the crate's source gives them.

use vstd::prelude::*;

use crate::convert::IncomingBody;

verus! {

#[verifier::external_type_specification]
#[verifier::external_body]
pub struct ExHttpError(http::Error);

#[verifier::external_type_specification]
#[verifier::external_body]
pub struct ExHttpMethod(http::Method);

/// A character that `http::Method` accepts in a method token.
pub open spec fn is_method_char(c: char) -> bool {
    c == '!' || c == '*' || c == '+' || c == '-' || c == '.' || ('0' <= c && c <= '9')
        || ('A' <= c && c <= 'Z') || c == '^' || c == '_' || c == '`' || ('a' <= c && c <= 'z')
        || c == '|' || c == '~'
}

/// A method token that `http::Method` accepts: not empty, and each character
/// one of `is_method_char`.
pub open spec fn is_method_token(s: Seq<char>) -> bool {
    s.len() > 0 && forall|i: int| 0 <= i < s.len() ==> is_method_char(#[trigger] s[i])
}

/// The `http::Method` that parsing the token gives.
pub uninterp spec fn std_method(token: Seq<char>) -> http::Method;

/// Relies on `<http::Method as FromStr>::from_str` (`Method::from_bytes`): it
/// accepts exactly the tokens that `is_method_token` describes, and the method
/// depends on the token alone.
#[verifier::external_body]
pub(crate) fn parse_method(s: &str) -> (r: Result<http::Method, http::Error>)
    ensures
        r is Ok <==> is_method_token(s@),
        r is Ok ==> r->Ok_0 == std_method(s@),
{
    s.parse::<http::Method>().map_err(http::Error::from)
}

#[verifier::external_type_specification]
#[verifier::external_body]
pub struct ExHttpScheme(http::uri::Scheme);

#[verifier::external_type_specification]
#[verifier::external_body]
pub struct ExHttpAuthority(http::uri::Authority);

#[verifier::external_type_specification]
#[verifier::external_body]
pub struct ExHttpPathAndQuery(http::uri::PathAndQuery);

#[verifier::external_type_specification]
#[verifier::external_body]
pub struct ExHttpUri(http::Uri);

#[verifier::external_type_specification]
#[verifier::external_body]
pub struct ExHttpHeaderName(http::HeaderName);

#[verifier::external_type_specification]
#[verifier::external_body]
pub struct ExHttpHeaderValue(http::HeaderValue);

#[verifier::external_type_specification]
#[verifier::external_body]
#[verifier::reject_recursive_types(T)]
pub struct ExHttpHeaderMap<T>(http::HeaderMap<T>);

#[verifier::external_type_specification]
#[verifier::external_body]
#[verifier::reject_recursive_types(T)]
pub struct ExHttpRequest<T>(http::Request<T>);

/// A character that `http::uri::Scheme` accepts in a scheme other than
/// `http` and `https`.
pub open spec fn is_scheme_char(c: char) -> bool {
    c == '+' || c == '-' || c == '.' || ('0' <= c && c <= '9') || ('A' <= c && c <= 'Z')
        || ('a' <= c && c <= 'z') || c == '~'
}

/// A scheme that `http::uri::Scheme` accepts: at most 64 characters, each one
/// of `is_scheme_char` (`http` and `https` are among them).
pub open spec fn is_scheme_token(s: Seq<char>) -> bool {
    s.len() <= 64 && forall|i: int| 0 <= i < s.len() ==> is_scheme_char(#[trigger] s[i])
}

/// The `http::uri::Scheme` that parsing the token gives.
pub uninterp spec fn std_scheme(token: Seq<char>) -> http::uri::Scheme;

/// Relies on `<http::uri::Scheme as FromStr>::from_str` (`Scheme2::parse_exact`):
/// it accepts exactly the tokens that `is_scheme_token` describes, and the
/// scheme depends on the token alone.
#[verifier::external_body]
pub(crate) fn parse_scheme(s: &str) -> (r: Result<http::uri::Scheme, http::Error>)
    ensures
        r is Ok <==> is_scheme_token(s@),
        r is Ok ==> r->Ok_0 == std_scheme(s@),
{
    s.parse::<http::uri::Scheme>().map_err(http::Error::from)
}

/// What parsing the text as an `http::uri::Authority` gives.
pub uninterp spec fn std_authority(s: Seq<char>) -> Result<http::uri::Authority, http::Error>;

/// Relies on `<http::uri::Authority as TryFrom<&str>>::try_from`: the outcome
/// depends on the text alone.
#[verifier::external_body]
pub(crate) fn parse_authority(s: &str) -> (r: Result<http::uri::Authority, http::Error>)
    ensures
        r == std_authority(s@),
{
    http::uri::Authority::try_from(s).map_err(http::Error::from)
}

/// A character that may stand unescaped in a path.
pub open spec fn is_path_char(c: char) -> bool {
    c == '!' || ('$' <= c && c <= ';') || c == '=' || ('@' <= c && c <= '_') || ('a' <= c
        && c <= 'z') || c == '|' || c == '~' || c == '"' || c == '{' || c == '}'
}

/// A character that may stand unescaped in a query.
pub open spec fn is_query_char(c: char) -> bool {
    c == '!' || ('$' <= c && c <= ';') || c == '=' || ('?' <= c && c <= '~')
}

/// A path and query that `http::uri::PathAndQuery` accepts: path characters up
/// to the first `?` or `#`, query characters from a `?` up to the first `#`,
/// and anything in the fragment after it.
pub open spec fn is_path_and_query(s: Seq<char>) -> bool {
    forall|i: int|
        0 <= i < s.len() ==> {
            let before = #[trigger] s.take(i);
            &&& (!before.contains('?') && !before.contains('#')) ==> (is_path_char(s[i]) || s[i]
                == '?' || s[i] == '#')
            &&& (before.contains('?') && !before.contains('#')) ==> (is_query_char(s[i]) || s[i]
                == '#')
        }
}

/// The `http::uri::PathAndQuery` that parsing the text gives.
pub uninterp spec fn std_path_and_query(s: Seq<char>) -> http::uri::PathAndQuery;

/// Relies on `<http::uri::PathAndQuery as TryFrom<&str>>::try_from`
/// (`PathAndQuery::from_shared`): it accepts all text that
/// `is_path_and_query` describes, and refuses the rest as long as it is
/// shorter than 65536 characters (the parser keeps the position of the `?` in
/// 16 bits, and a `?` at position 65535 reads as no query at all). The value
/// depends on the text alone.
#[verifier::external_body]
pub(crate) fn parse_path_and_query(s: &str) -> (r: Result<http::uri::PathAndQuery, http::Error>)
    ensures
        is_path_and_query(s@) ==> r is Ok,
        !is_path_and_query(s@) && s@.len() <= 65535 ==> r is Err,
        r is Ok ==> r->Ok_0 == std_path_and_query(s@),
{
    http::uri::PathAndQuery::try_from(s).map_err(http::Error::from)
}

/// Which combinations of present parts `http::Uri::from_parts` accepts: with a
/// scheme, an authority and a path are needed; without one, not both of them.
pub open spec fn uri_parts_fit(scheme: bool, authority: bool, path: bool) -> bool {
    if scheme {
        authority && path
    } else {
        !(authority && path)
    }
}

/// The `http::Uri` that `http::Uri::from_parts` makes of the parts.
pub uninterp spec fn std_uri(
    scheme: Option<http::uri::Scheme>,
    authority: Option<http::uri::Authority>,
    path_and_query: Option<http::uri::PathAndQuery>,
) -> http::Uri;

/// Relies on `http::Uri::from_parts`: it fails exactly where `uri_parts_fit`
/// does not hold, and the URI depends on the parts alone.
#[verifier::external_body]
pub(crate) fn uri_from_parts(
    scheme: Option<http::uri::Scheme>,
    authority: Option<http::uri::Authority>,
    path_and_query: Option<http::uri::PathAndQuery>,
) -> (r: Result<http::Uri, http::Error>)
    ensures
        r is Ok <==> uri_parts_fit(scheme is Some, authority is Some, path_and_query is Some),
        r is Ok ==> r->Ok_0 == std_uri(scheme, authority, path_and_query),
{
    let mut parts = http::uri::Parts::default();
    parts.scheme = scheme;
    parts.authority = authority;
    parts.path_and_query = path_and_query;
    http::Uri::from_parts(parts).map_err(http::Error::from)
}

/// A character that `http::HeaderName` accepts (upper-case letters are folded).
pub open spec fn is_header_name_char(c: char) -> bool {
    c == '!' || c == '"' || c == '#' || c == '$' || c == '%' || c == '&' || c == '\'' || c == '*'
        || c == '+' || c == '-' || c == '.' || ('0' <= c && c <= '9') || ('A' <= c && c <= 'Z')
        || c == '^' || c == '_' || c == '`' || ('a' <= c && c <= 'z') || c == '|' || c == '~'
}

/// A header name that `http::HeaderName` accepts: 1 to 65535 characters, each
/// one of `is_header_name_char`.
pub open spec fn is_header_name(s: Seq<char>) -> bool {
    1 <= s.len() <= 65535 && forall|i: int| 0 <= i < s.len() ==> is_header_name_char(#[trigger] s[i])
}

/// A character that `http::HeaderValue` accepts: a tab, or anything but a
/// control character.
pub open spec fn is_header_value_char(c: char) -> bool {
    (' ' <= c && c != '\u{7f}') || c == '\t'
}

/// A header value that `http::HeaderValue` accepts.
pub open spec fn is_header_value(s: Seq<char>) -> bool {
    forall|i: int| 0 <= i < s.len() ==> is_header_value_char(#[trigger] s[i])
}

/// The `http::HeaderName` that parsing the text gives.
pub uninterp spec fn std_header_name(s: Seq<char>) -> http::HeaderName;

/// The `http::HeaderValue` that parsing the text gives.
pub uninterp spec fn std_header_value(s: Seq<char>) -> http::HeaderValue;

/// Relies on `<http::HeaderName as TryFrom<String>>::try_from`
/// (`HeaderName::from_bytes`): it accepts exactly the names that
/// `is_header_name` describes, and the name depends on the text alone.
#[verifier::external_body]
pub(crate) fn parse_header_name(s: String) -> (r: Result<http::HeaderName, http::Error>)
    ensures
        r is Ok <==> is_header_name(s@),
        r is Ok ==> r->Ok_0 == std_header_name(s@),
{
    http::HeaderName::try_from(s).map_err(http::Error::from)
}

/// Relies on `<http::HeaderValue as TryFrom<String>>::try_from`
/// (`HeaderValue::from_shared`): it accepts exactly the values that
/// `is_header_value` describes, and the value depends on the text alone.
#[verifier::external_body]
pub(crate) fn parse_header_value(s: String) -> (r: Result<http::HeaderValue, http::Error>)
    ensures
        r is Ok <==> is_header_value(s@),
        r is Ok ==> r->Ok_0 == std_header_value(s@),
{
    http::HeaderValue::try_from(s).map_err(http::Error::from)
}

/// What a header map holds: for each name, its values in the order in which
/// they were added.
pub uninterp spec fn header_entries(m: http::HeaderMap) -> Map<http::HeaderName, Seq<http::HeaderValue>>;

/// The entries of an empty header map.
pub open spec fn no_headers() -> Map<http::HeaderName, Seq<http::HeaderValue>> {
    Map::empty()
}

/// The entries after one more value is added under a name.
pub open spec fn with_appended(
    entries: Map<http::HeaderName, Seq<http::HeaderValue>>,
    name: http::HeaderName,
    value: http::HeaderValue,
) -> Map<http::HeaderName, Seq<http::HeaderValue>> {
    if entries.contains_key(name) {
        entries.insert(name, entries[name].push(value))
    } else {
        entries.insert(name, seq![value])
    }
}

/// The number of distinct names below which `http::HeaderMap` never reaches
/// its size limit while it grows.
pub const HEADER_NAME_LIMIT: usize = 4096;

/// Relies on `http::HeaderMap::new`: the map is empty.
#[verifier::external_body]
pub(crate) fn new_header_map() -> (r: http::HeaderMap)
    ensures
        header_entries(r) == no_headers(),
{
    http::HeaderMap::new()
}

/// Relies on `http::HeaderMap::append`: the value goes after those that the
/// name already has. It panics only once the map outgrows its size limit,
/// which a map of fewer than `HEADER_NAME_LIMIT` names does not.
#[verifier::external_body]
pub(crate) fn append_header(m: &mut http::HeaderMap, name: http::HeaderName, value: http::HeaderValue)
    requires
        header_entries(*old(m)).dom().finite(),
        header_entries(*old(m)).dom().len() < HEADER_NAME_LIMIT,
    ensures
        header_entries(*final(m)) == with_appended(header_entries(*old(m)), name, value),
{
    m.append(name, value);
}

/// The method of a request.
pub uninterp spec fn request_method(r: http::Request<IncomingBody>) -> http::Method;

/// The URI of a request.
pub uninterp spec fn request_uri(r: http::Request<IncomingBody>) -> http::Uri;

/// The header map of a request.
pub uninterp spec fn request_headers(r: http::Request<IncomingBody>) -> http::HeaderMap;

/// The handle of the host stream that a request's body is read from.
pub uninterp spec fn request_body_handle(r: http::Request<IncomingBody>) -> u32;

/// Puts a request together from its parts with `http::Request::new` and the
/// request's `method_mut`, `uri_mut` and `headers_mut`: each part is stored as
/// given.
#[verifier::external_body]
pub(crate) fn assemble_request(
    method: http::Method,
    uri: http::Uri,
    headers: http::HeaderMap,
    body: IncomingBody,
) -> (r: http::Request<IncomingBody>)
    ensures
        request_method(r) == method,
        request_uri(r) == uri,
        request_headers(r) == headers,
        request_body_handle(r) == body.stream_handle_spec(),
{
    let mut request = http::Request::new(body);
    *request.method_mut() = method;
    *request.uri_mut() = uri;
    *request.headers_mut() = headers;
    request
}

} // verus!
