//! Conversions from the host's values to the `http` crate's types.

use vstd::prelude::*;

use crate::error::{AdapterError, StreamError};
use crate::std_http::{
    append_header, assemble_request, header_entries, is_header_name, is_header_value,
    is_method_token, is_path_and_query, is_scheme_char, is_scheme_token, new_header_map, no_headers,
    parse_authority, parse_header_name, parse_header_value, parse_method, parse_path_and_query,
    parse_scheme, request_body_handle, request_headers, request_method, request_uri,
    std_authority, std_header_name, std_header_value, std_method, std_path_and_query, std_scheme,
    std_uri, uri_from_parts, uri_parts_fit, with_appended, HEADER_NAME_LIMIT,
};
use crate::wasi_http::{CONSUME_FAILED, Fields, HostMethod, HostScheme, IncomingRequest, IncomingStream};
use crate::wasi_streams::read_into;
use vstd::utf8::is_ascii_chars;

verus! {

/// The token that names a method: the standard spelling for the closed set,
/// the host's own string for an extension method.
pub open spec fn method_token(m: HostMethod) -> Seq<char> {
    match m {
        HostMethod::Get => seq!['G', 'E', 'T'],
        HostMethod::Head => seq!['H', 'E', 'A', 'D'],
        HostMethod::Post => seq!['P', 'O', 'S', 'T'],
        HostMethod::Put => seq!['P', 'U', 'T'],
        HostMethod::Delete => seq!['D', 'E', 'L', 'E', 'T', 'E'],
        HostMethod::Connect => seq!['C', 'O', 'N', 'N', 'E', 'C', 'T'],
        HostMethod::Options => seq!['O', 'P', 'T', 'I', 'O', 'N', 'S'],
        HostMethod::Trace => seq!['T', 'R', 'A', 'C', 'E'],
        HostMethod::Patch => seq!['P', 'A', 'T', 'C', 'H'],
        HostMethod::Other(s) => s@,
    }
}

/// Converts a host method to `http::Method`. The closed set always converts;
/// an extension method converts exactly when its token is valid.
pub fn to_http_method(m: &HostMethod) -> (r: Result<http::Method, http::Error>)
    ensures
        r is Ok <==> is_method_token(method_token(*m)),
        r is Ok ==> r->Ok_0 == std_method(method_token(*m)),
        !(m is Other) ==> r is Ok,
{
    match m {
        HostMethod::Get => {
            proof {
                reveal_strlit("GET");
                assert("GET"@ =~= method_token(*m));
            }
            parse_method("GET")
        },
        HostMethod::Head => {
            proof {
                reveal_strlit("HEAD");
                assert("HEAD"@ =~= method_token(*m));
            }
            parse_method("HEAD")
        },
        HostMethod::Post => {
            proof {
                reveal_strlit("POST");
                assert("POST"@ =~= method_token(*m));
            }
            parse_method("POST")
        },
        HostMethod::Put => {
            proof {
                reveal_strlit("PUT");
                assert("PUT"@ =~= method_token(*m));
            }
            parse_method("PUT")
        },
        HostMethod::Delete => {
            proof {
                reveal_strlit("DELETE");
                assert("DELETE"@ =~= method_token(*m));
            }
            parse_method("DELETE")
        },
        HostMethod::Connect => {
            proof {
                reveal_strlit("CONNECT");
                assert("CONNECT"@ =~= method_token(*m));
            }
            parse_method("CONNECT")
        },
        HostMethod::Options => {
            proof {
                reveal_strlit("OPTIONS");
                assert("OPTIONS"@ =~= method_token(*m));
            }
            parse_method("OPTIONS")
        },
        HostMethod::Trace => {
            proof {
                reveal_strlit("TRACE");
                assert("TRACE"@ =~= method_token(*m));
            }
            parse_method("TRACE")
        },
        HostMethod::Patch => {
            proof {
                reveal_strlit("PATCH");
                assert("PATCH"@ =~= method_token(*m));
            }
            parse_method("PATCH")
        },
        HostMethod::Other(s) => parse_method(s.as_str()),
    }
}

/// The token that names a scheme.
pub open spec fn scheme_token(s: HostScheme) -> Seq<char> {
    match s {
        HostScheme::Http => seq!['h', 't', 't', 'p'],
        HostScheme::Https => seq!['h', 't', 't', 'p', 's'],
        HostScheme::Other(t) => t@,
    }
}

/// A character of the URI scheme syntax after the first letter.
pub open spec fn is_uri_scheme_char(c: char) -> bool {
    ('a' <= c && c <= 'z') || ('A' <= c && c <= 'Z') || ('0' <= c && c <= '9') || c == '+' || c
        == '-' || c == '.'
}

/// A token in the URI scheme syntax, `ALPHA *( ALPHA / DIGIT / "+" / "-" / "." )`,
/// of at most 64 characters.
pub open spec fn is_uri_scheme(s: Seq<char>) -> bool {
    &&& 1 <= s.len() <= 64
    &&& ('a' <= s[0] && s[0] <= 'z') || ('A' <= s[0] && s[0] <= 'Z')
    &&& forall|i: int| 0 <= i < s.len() ==> is_uri_scheme_char(#[trigger] s[i])
}

/// Tells whether the text is a token in the URI scheme syntax.
pub fn has_scheme_syntax(s: &str) -> (r: bool)
    ensures
        r == is_uri_scheme(s@),
{
    broadcast use vstd::string::is_ascii_spec_bytes;

    if !s.is_ascii() {
        proof {
            if is_uri_scheme(s@) {
                assert(is_ascii_chars(s@)) by {
                    assert forall|i: int| 0 <= i < s@.len() implies '\0' <= #[trigger] s@[i]
                        <= '\u{7f}' by {
                        assert(is_uri_scheme_char(s@[i]));
                    }
                }
            }
        }
        return false;
    }
    let b = s.as_bytes();
    let n = b.len();
    if n == 0 || n > 64 {
        return false;
    }
    // The bytes are ASCII here: letters 0x41..=0x5a and 0x61..=0x7a, digits
    // 0x30..=0x39, and `+`, `-`, `.` at 0x2b, 0x2d, 0x2e.
    let first = b[0];
    if !((0x61u8 <= first && first <= 0x7au8) || (0x41u8 <= first && first <= 0x5au8)) {
        return false;
    }
    let mut i: usize = 0;
    while i < n
        invariant
            n == b@.len(),
            b@.len() == s@.len(),
            is_ascii_chars(s@),
            forall|j: int| 0 <= j < b@.len() ==> #[trigger] b@[j] == s@[j] as u8,
            i <= n,
            forall|j: int| 0 <= j < i ==> is_uri_scheme_char(#[trigger] s@[j]),
        decreases n - i,
    {
        let c = b[i];
        let ok = (0x61u8 <= c && c <= 0x7au8) || (0x41u8 <= c && c <= 0x5au8) || (0x30u8 <= c && c <= 0x39u8)
            || c == 0x2bu8 || c == 0x2du8 || c == 0x2eu8;
        if !ok {
            assert(!is_uri_scheme_char(s@[i as int]));
            return false;
        }
        i = i + 1;
    }
    true
}

/// Converts a host scheme to `http::uri::Scheme`. `http` and `https` always
/// convert; another scheme converts exactly when it is a token in the URI
/// scheme syntax. A token outside that syntax gets the error that `http` gives
/// for a scheme with a `:`.
pub fn to_http_scheme(s: &HostScheme) -> (r: Result<http::uri::Scheme, http::Error>)
    ensures
        r is Ok <==> is_uri_scheme(scheme_token(*s)),
        r is Ok ==> r->Ok_0 == std_scheme(scheme_token(*s)),
        !(s is Other) ==> r is Ok,
{
    match s {
        HostScheme::Http => {
            proof {
                reveal_strlit("http");
                assert("http"@ =~= scheme_token(*s));
            }
            parse_scheme("http")
        },
        HostScheme::Https => {
            proof {
                reveal_strlit("https");
                assert("https"@ =~= scheme_token(*s));
            }
            parse_scheme("https")
        },
        HostScheme::Other(t) => {
            if has_scheme_syntax(t.as_str()) {
                assert(is_scheme_token(t@)) by {
                    assert forall|i: int| 0 <= i < t@.len() implies is_scheme_char(
                        #[trigger] t@[i],
                    ) by {
                        assert(is_uri_scheme_char(t@[i]));
                    }
                }
                parse_scheme(t.as_str())
            } else {
                proof {
                    reveal_strlit(":");
                    assert(!is_scheme_char(":"@[0]));
                }
                parse_scheme(":")
            }
        },
    }
}

/// The scheme of a request is present and invalid.
pub open spec fn scheme_part_fails(s: Option<HostScheme>) -> bool {
    s is Some && !is_uri_scheme(scheme_token(s->0))
}

/// The authority of a request is present and invalid.
pub open spec fn authority_part_fails(a: Option<String>) -> bool {
    a is Some && std_authority(a->0@) is Err
}

/// The path and query of a request is present and invalid.
pub open spec fn path_part_invalid(p: Option<String>) -> bool {
    p is Some && !is_path_and_query(p->0@)
}

/// The path and query of a request is present, invalid, and short enough
/// that `http` is sure to refuse it (see `parse_path_and_query`).
pub open spec fn path_part_fails(p: Option<String>) -> bool {
    path_part_invalid(p) && p->0@.len() <= 65535
}

pub open spec fn scheme_part(s: Option<HostScheme>) -> Option<http::uri::Scheme> {
    match s {
        Some(x) => Some(std_scheme(scheme_token(x))),
        None => None,
    }
}

pub open spec fn authority_part(a: Option<String>) -> Option<http::uri::Authority> {
    match a {
        Some(x) => Some(std_authority(x@)->Ok_0),
        None => None,
    }
}

pub open spec fn path_part(p: Option<String>) -> Option<http::uri::PathAndQuery> {
    match p {
        Some(x) => Some(std_path_and_query(x@)),
        None => None,
    }
}

/// A URI can be assembled from the parts: each present part is valid, and
/// together they fit.
pub open spec fn uri_assembles(s: Option<HostScheme>, a: Option<String>, p: Option<String>) -> bool {
    &&& !scheme_part_fails(s)
    &&& !authority_part_fails(a)
    &&& !path_part_invalid(p)
    &&& uri_parts_fit(s is Some, a is Some, p is Some)
}

/// Assembling a URI from the parts fails: a present part is invalid (a path
/// and query only up to the length at which `http` is sure to refuse it), or
/// the parts do not fit together.
pub open spec fn uri_fails(s: Option<HostScheme>, a: Option<String>, p: Option<String>) -> bool {
    scheme_part_fails(s) || authority_part_fails(a) || path_part_fails(p) || !uri_parts_fit(
        s is Some,
        a is Some,
        p is Some,
    )
}

/// The URI assembled from the parts that are present.
pub open spec fn assembled_uri(s: Option<HostScheme>, a: Option<String>, p: Option<String>) -> http::Uri {
    std_uri(scheme_part(s), authority_part(a), path_part(p))
}

/// Assembles the URI of a request from its scheme, authority and path and
/// query, skipping each part that is absent.
pub fn uri_of(req: &IncomingRequest) -> (r: Result<http::Uri, http::Error>)
    ensures
        uri_assembles(req.spec_scheme(), req.spec_authority(), req.spec_path_with_query())
            ==> r is Ok,
        uri_fails(req.spec_scheme(), req.spec_authority(), req.spec_path_with_query())
            ==> r is Err,
        r is Ok ==> r->Ok_0 == assembled_uri(
            req.spec_scheme(),
            req.spec_authority(),
            req.spec_path_with_query(),
        ),
{
    let scheme = match req.scheme() {
        Some(s) => match to_http_scheme(s) {
            Ok(v) => Some(v),
            Err(e) => return Err(e),
        },
        None => None,
    };
    let authority = match req.authority() {
        Some(a) => match parse_authority(a.as_str()) {
            Ok(v) => Some(v),
            Err(e) => return Err(e),
        },
        None => None,
    };
    let path_and_query = match req.path_with_query() {
        Some(p) => match parse_path_and_query(p.as_str()) {
            Ok(v) => Some(v),
            Err(e) => return Err(e),
        },
        None => None,
    };
    uri_from_parts(scheme, authority, path_and_query)
}

/// Assembling a URI from no parts succeeds, and a present path and query that
/// is invalid makes the assembly fail, whatever the other parts are (up to a
/// length of 65535 characters, beyond which `http` does not check a query).
pub proof fn lemma_uri_assembly(s: Option<HostScheme>, a: Option<String>, p: String)
    ensures
        uri_assembles(None, None, None),
        !is_path_and_query(p@) ==> !uri_assembles(s, a, Some(p)),
        !is_path_and_query(p@) && p@.len() <= 65535 ==> uri_fails(s, a, Some(p)),
{
}

/// Every name and every value of the pairs is valid.
pub open spec fn fields_valid(e: Seq<(Seq<char>, Seq<char>)>) -> bool {
    forall|i: int| 0 <= i < e.len() ==> is_header_name((#[trigger] e[i]).0) && is_header_value(e[i].1)
}

/// The header map that the pairs make, each appended in order.
pub open spec fn header_model(e: Seq<(Seq<char>, Seq<char>)>) -> Map<http::HeaderName, Seq<http::HeaderValue>>
    decreases e.len(),
{
    if e.len() == 0 {
        no_headers()
    } else {
        with_appended(
            header_model(e.drop_last()),
            std_header_name(e.last().0),
            std_header_value(e.last().1),
        )
    }
}

/// The values of the pairs whose name is `n`, in order.
pub open spec fn values_for(e: Seq<(Seq<char>, Seq<char>)>, n: http::HeaderName) -> Seq<http::HeaderValue>
    decreases e.len(),
{
    if e.len() == 0 {
        seq![]
    } else if std_header_name(e.last().0) == n {
        values_for(e.drop_last(), n).push(std_header_value(e.last().1))
    } else {
        values_for(e.drop_last(), n)
    }
}

proof fn lemma_header_model_size(e: Seq<(Seq<char>, Seq<char>)>)
    ensures
        header_model(e).dom().finite(),
        header_model(e).dom().len() <= e.len(),
    decreases e.len(),
{
    if e.len() > 0 {
        lemma_header_model_size(e.drop_last());
    }
}

/// Converting pairs to a header map keeps every pair: a name is in the map
/// exactly when some pair has it, and its values are those of the pairs with
/// that name, in the order of the pairs.
pub proof fn lemma_header_model_keeps_pairs(e: Seq<(Seq<char>, Seq<char>)>, n: http::HeaderName)
    ensures
        header_model(e).contains_key(n) <==> values_for(e, n).len() > 0,
        header_model(e).contains_key(n) ==> header_model(e)[n] == values_for(e, n),
    decreases e.len(),
{
    if e.len() > 0 {
        lemma_header_model_keeps_pairs(e.drop_last(), n);
    }
}

/// Converts header fields to an `http::HeaderMap`, pair by pair; the first
/// invalid name or value fails the whole conversion.
pub fn header_map_of(fields: &Fields) -> (r: Result<http::HeaderMap, http::Error>)
    requires
        fields@.len() < HEADER_NAME_LIMIT,
    ensures
        r is Ok <==> fields_valid(fields@),
        r is Ok ==> header_entries(r->Ok_0) == header_model(fields@),
{
    let entries = fields.entries();
    let ghost e = fields@;
    let mut map = new_header_map();
    let mut i: usize = 0;
    while i < entries.len()
        invariant
            e == fields@,
            text_pairs_eq(entries@, e),
            e.len() < HEADER_NAME_LIMIT,
            i <= e.len(),
            fields_valid(e.take(i as int)),
            header_entries(map) == header_model(e.take(i as int)),
        decreases e.len() - i,
    {
        proof {
            lemma_header_model_size(e.take(i as int));
        }
        let name = match parse_header_name(entries[i].0.clone()) {
            Ok(v) => v,
            Err(err) => {
                assert(!is_header_name(e[i as int].0));
                return Err(err);
            },
        };
        let value = match parse_header_value(entries[i].1.clone()) {
            Ok(v) => v,
            Err(err) => {
                assert(!is_header_value(e[i as int].1));
                return Err(err);
            },
        };
        append_header(&mut map, name, value);
        proof {
            assert(e.take(i + 1).drop_last() =~= e.take(i as int));
            assert(fields_valid(e.take(i + 1))) by {
                assert forall|j: int| 0 <= j < i + 1 implies is_header_name(
                    (#[trigger] e.take(i + 1)[j]).0,
                ) && is_header_value(e.take(i + 1)[j].1) by {
                    if j < i {
                        assert(e.take(i + 1)[j] == e.take(i as int)[j]);
                    }
                }
            }
        }
        i = i + 1;
    }
    assert(e.take(e.len() as int) =~= e);
    Ok(map)
}

pub open spec fn text_pairs_eq(v: Seq<(String, String)>, e: Seq<(Seq<char>, Seq<char>)>) -> bool {
    &&& v.len() == e.len()
    &&& forall|j: int| 0 <= j < v.len() ==> (#[trigger] v[j]).0@ == e[j].0 && v[j].1@ == e[j].1
}

/// The body of an incoming request, read through the host's input stream.
pub struct IncomingBody {
    stream: IncomingStream,
}

impl IncomingBody {
    pub fn new(stream: IncomingStream) -> (r: IncomingBody)
        ensures
            r.stream_handle_spec() == stream.stream.handle,
    {
        IncomingBody { stream }
    }

    pub closed spec fn stream_handle_spec(&self) -> u32 {
        self.stream.stream.handle
    }

    /// The handle of the host stream that the body is read from.
    pub fn stream_handle(&self) -> (r: u32)
        ensures
            r == self.stream_handle_spec(),
    {
        self.stream.stream.handle
    }

    /// Reads into `buf` what the host answered to a blocking read of
    /// `buf.len()` bytes.
    pub fn read(&self, buf: &mut [u8], outcome: Result<(Vec<u8>, bool), StreamError>) -> (r: Result<
        usize,
        AdapterError,
    >)
        ensures
            read_into(old(buf)@, final(buf)@, outcome, r),
            r == Ok::<usize, AdapterError>(0) && old(buf)@.len() > 0 ==> outcome matches Ok((_, true)),
    {
        self.stream.read(buf, outcome)
    }

    /// Ends the body, given the trailers that the host reported when the
    /// stream was finished: no trailers give `None`, trailers that are present
    /// (even none at all) give a header map.
    pub fn finish_trailers(self, trailers: Option<Fields>) -> (r: Result<
        Option<http::HeaderMap>,
        AdapterError,
    >)
        requires
            trailers matches Some(f) ==> f@.len() < HEADER_NAME_LIMIT,
        ensures
            trailers is None ==> r matches Ok(None),
            trailers matches Some(f) ==> {
                &&& r is Ok <==> fields_valid(f@)
                &&& r is Ok ==> (r->Ok_0 is Some && header_entries(r->Ok_0->0) == header_model(f@))
                &&& r is Err ==> r->Err_0 is Http
            },
    {
        match trailers {
            None => Ok(None),
            Some(fields) => match header_map_of(&fields) {
                Ok(map) => Ok(Some(map)),
                Err(e) => Err(AdapterError::Http(e)),
            },
        }
    }
}

/// The method of the request converts.
pub open spec fn method_converts(req: IncomingRequest) -> bool {
    is_method_token(method_token(req.spec_method()))
}

/// The URI of the request assembles.
pub open spec fn uri_converts(req: IncomingRequest) -> bool {
    uri_assembles(req.spec_scheme(), req.spec_authority(), req.spec_path_with_query())
}

/// The URI of the request fails to assemble.
pub open spec fn uri_refused(req: IncomingRequest) -> bool {
    uri_fails(req.spec_scheme(), req.spec_authority(), req.spec_path_with_query())
}

/// The request converts to exactly its converted method, URI and headers.
pub open spec fn converted_parts(
    req: IncomingRequest,
    method: http::Method,
    uri: http::Uri,
    headers: http::HeaderMap,
) -> bool {
    &&& method == std_method(method_token(req.spec_method()))
    &&& uri == assembled_uri(req.spec_scheme(), req.spec_authority(), req.spec_path_with_query())
    &&& header_entries(headers) == header_model(req.spec_headers()@)
}

/// The headers of the request convert.
pub open spec fn headers_convert(req: IncomingRequest) -> bool {
    fields_valid(req.spec_headers()@)
}

/// Converts the method, the URI and the headers of a request, in that order;
/// the first failure is the result.
pub fn request_parts(req: &IncomingRequest) -> (r: Result<
    (http::Method, http::Uri, http::HeaderMap),
    http::Error,
>)
    requires
        req.spec_headers()@.len() < HEADER_NAME_LIMIT,
    ensures
        method_converts(*req) && uri_converts(*req) && headers_convert(*req) ==> r is Ok,
        !method_converts(*req) || uri_refused(*req) || !headers_convert(*req) ==> r is Err,
        r is Ok ==> method_converts(*req) && headers_convert(*req) && converted_parts(
            *req,
            r->Ok_0.0,
            r->Ok_0.1,
            r->Ok_0.2,
        ),
{
    let method = match to_http_method(req.method()) {
        Ok(m) => m,
        Err(e) => return Err(e),
    };
    let uri = match uri_of(req) {
        Ok(u) => u,
        Err(e) => return Err(e),
    };
    let headers = match header_map_of(req.headers()) {
        Ok(h) => h,
        Err(e) => return Err(e),
    };
    Ok((method, uri, headers))
}

/// Converts an incoming request to an `http::Request` of the parts that
/// `request_parts` gives, given the host's answer to the request for its body.
/// The body is taken only when all parts converted, and the request holds
/// exactly those parts and the host stream of the body.
pub fn into_http_request(req: IncomingRequest, body: Result<u32, ()>) -> (r: Result<
    http::Request<IncomingBody>,
    AdapterError,
>)
    requires
        req.spec_headers()@.len() < HEADER_NAME_LIMIT,
    ensures
        ({
            let parts_ok = method_converts(req) && uri_converts(req) && headers_convert(req);
            let parts_refused = !method_converts(req) || uri_refused(req) || !headers_convert(req);
            &&& parts_refused ==> (r is Err && r->Err_0 is Http)
            &&& parts_ok && body is Err ==> r == Err::<
                http::Request<IncomingBody>,
                AdapterError,
            >(AdapterError::Other(CONSUME_FAILED))
            &&& parts_ok && body is Ok ==> r is Ok
            &&& r is Ok ==> {
                &&& body is Ok
                &&& converted_parts(
                    req,
                    request_method(r->Ok_0),
                    request_uri(r->Ok_0),
                    request_headers(r->Ok_0),
                )
                &&& request_body_handle(r->Ok_0) == body->Ok_0
            }
        }),
{
    let (method, uri, headers) = match request_parts(&req) {
        Ok(parts) => parts,
        Err(e) => return Err(AdapterError::Http(e)),
    };
    let stream = match req.consume(body) {
        Ok(s) => s,
        Err(e) => return Err(e),
    };
    Ok(assemble_request(method, uri, headers, IncomingBody::new(stream)))
}

} // verus!
