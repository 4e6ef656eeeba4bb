//! Owned values for the host's HTTP resources.

use vstd::prelude::*;

use crate::error::AdapterError;
use crate::wasi_streams::{InputStream, OutputStream};

verus! {

/// An HTTP method as the host reports it: one of the standard methods, or an
/// extension token.
pub enum HostMethod {
    Get,
    Head,
    Post,
    Put,
    Delete,
    Connect,
    Options,
    Trace,
    Patch,
    Other(String),
}

/// A URI scheme as the host reports it.
pub enum HostScheme {
    Http,
    Https,
    Other(String),
}

/// The text of each pair.
pub open spec fn text_pairs(v: Seq<(String, String)>) -> Seq<(Seq<char>, Seq<char>)> {
    v.map_values(|p: (String, String)| (p.0@, p.1@))
}

/// Header or trailer fields: name/value pairs in order, duplicates kept.
pub struct Fields {
    entries: Vec<(String, String)>,
}

impl View for Fields {
    type V = Seq<(Seq<char>, Seq<char>)>;

    closed spec fn view(&self) -> Seq<(Seq<char>, Seq<char>)> {
        text_pairs(self.entries@)
    }
}

impl Fields {
    /// Fields with the given pairs, in order.
    pub fn new(entries: &[(&str, &str)]) -> (r: Fields)
        ensures
            r@ == entries@.map_values(|p: (&str, &str)| (p.0@, p.1@)),
    {
        let mut out: Vec<(String, String)> = Vec::new();
        let mut i: usize = 0;
        while i < entries.len()
            invariant
                i <= entries@.len(),
                out@.len() == i,
                forall|j: int|
                    0 <= j < i ==> (#[trigger] out@[j]).0@ == entries@[j].0@ && out@[j].1@
                        == entries@[j].1@,
            decreases entries@.len() - i,
        {
            let (name, value) = entries[i];
            out.push((name.to_owned(), value.to_owned()));
            i = i + 1;
        }
        assert(text_pairs(out@) =~= entries@.map_values(|p: (&str, &str)| (p.0@, p.1@)));
        Fields { entries: out }
    }

    /// Fields that own the given pairs, in order.
    pub fn from_entries(entries: Vec<(String, String)>) -> (r: Fields)
        ensures
            r@ == text_pairs(entries@),
    {
        Fields { entries }
    }

    /// All pairs, in order.
    pub fn entries(&self) -> (r: Vec<(String, String)>)
        ensures
            text_pairs(r@) == self@,
    {
        let mut out: Vec<(String, String)> = Vec::new();
        let mut i: usize = 0;
        while i < self.entries.len()
            invariant
                i <= self.entries@.len(),
                out@.len() == i,
                forall|j: int|
                    0 <= j < i ==> (#[trigger] out@[j]).0@ == self.entries@[j].0@ && out@[j].1@
                        == self.entries@[j].1@,
            decreases self.entries@.len() - i,
        {
            let name = self.entries[i].0.clone();
            let value = self.entries[i].1.clone();
            out.push((name, value));
            i = i + 1;
        }
        assert(text_pairs(out@) =~= text_pairs(self.entries@));
        out
    }

    /// The number of pairs.
    pub fn len(&self) -> (r: usize)
        ensures
            r == self@.len(),
    {
        self.entries.len()
    }
}

/// The message of the error for a request whose body the host would not give.
pub const CONSUME_FAILED: &'static str = "incoming_request_consume failed";

/// The message of the error for a request whose body stream the host would
/// not open.
pub const REQUEST_WRITE_FAILED: &'static str = "outgoing_request_write failed";

/// The message of the error for a response whose body stream the host would
/// not open.
pub const RESPONSE_WRITE_FAILED: &'static str = "outgoing_response_write failed";

/// The message of the error for an out-parameter that the host would not set.
pub const SET_FAILED: &'static str = "set_response_outparam failed";

/// The body of an incoming message, until it has been read to its end.
pub struct IncomingStream {
    pub stream: InputStream,
}

impl IncomingStream {
    /// Reads into `buf` what the host answered to a blocking read of
    /// `buf.len()` bytes.
    pub fn read(&self, buf: &mut [u8], outcome: Result<(Vec<u8>, bool), crate::error::StreamError>) -> (r:
        Result<usize, AdapterError>)
        ensures
            crate::wasi_streams::read_into(old(buf)@, final(buf)@, outcome, r),
            r == Ok::<usize, AdapterError>(0) && old(buf)@.len() > 0 ==> outcome matches Ok((_, true)),
    {
        self.stream.read(buf, outcome)
    }
}

/// The body of an outgoing message, until it is finished.
pub struct OutgoingStream {
    pub stream: OutputStream,
}

impl OutgoingStream {
    /// How much of `buf` a write took, given the host's answer.
    pub fn write(&self, buf: &[u8], outcome: Result<u64, crate::error::StreamError>) -> (r: Result<
        usize,
        AdapterError,
    >)
        ensures
            match outcome {
                Ok(n) => r == Ok::<usize, AdapterError>(n as usize),
                Err(e) => r == Err::<usize, AdapterError>(AdapterError::WasiStream(e)),
            },
    {
        self.stream.blocking_write(buf, outcome)
    }

    /// Always succeeds: nothing is buffered here.
    pub fn flush(&self) -> (r: Result<(), AdapterError>)
        ensures
            r is Ok,
    {
        self.stream.flush()
    }
}

/// An incoming request: its handle and the metadata that the host reported.
pub struct IncomingRequest {
    handle: u32,
    method: HostMethod,
    path_with_query: Option<String>,
    scheme: Option<HostScheme>,
    authority: Option<String>,
    headers: Fields,
}

impl IncomingRequest {
    pub fn new(
        handle: u32,
        method: HostMethod,
        path_with_query: Option<String>,
        scheme: Option<HostScheme>,
        authority: Option<String>,
        headers: Fields,
    ) -> (r: IncomingRequest)
        ensures
            r.spec_handle() == handle,
            r.spec_method() == method,
            r.spec_path_with_query() == path_with_query,
            r.spec_scheme() == scheme,
            r.spec_authority() == authority,
            r.spec_headers() == headers,
    {
        IncomingRequest { handle, method, path_with_query, scheme, authority, headers }
    }

    pub closed spec fn spec_handle(&self) -> u32 {
        self.handle
    }

    pub closed spec fn spec_method(&self) -> HostMethod {
        self.method
    }

    pub closed spec fn spec_path_with_query(&self) -> Option<String> {
        self.path_with_query
    }

    pub closed spec fn spec_scheme(&self) -> Option<HostScheme> {
        self.scheme
    }

    pub closed spec fn spec_authority(&self) -> Option<String> {
        self.authority
    }

    pub closed spec fn spec_headers(&self) -> Fields {
        self.headers
    }

    pub fn handle(&self) -> (r: u32)
        ensures
            r == self.spec_handle(),
    {
        self.handle
    }

    pub fn method(&self) -> (r: &HostMethod)
        ensures
            *r == self.spec_method(),
    {
        &self.method
    }

    pub fn path_with_query(&self) -> (r: &Option<String>)
        ensures
            *r == self.spec_path_with_query(),
    {
        &self.path_with_query
    }

    pub fn scheme(&self) -> (r: &Option<HostScheme>)
        ensures
            *r == self.spec_scheme(),
    {
        &self.scheme
    }

    pub fn authority(&self) -> (r: &Option<String>)
        ensures
            *r == self.spec_authority(),
    {
        &self.authority
    }

    pub fn headers(&self) -> (r: &Fields)
        ensures
            *r == self.spec_headers(),
    {
        &self.headers
    }

    /// Gives up the request for its body stream, given the host's answer to
    /// the request for it.
    pub fn consume(self, body: Result<u32, ()>) -> (r: Result<IncomingStream, AdapterError>)
        ensures
            match body {
                Ok(h) => r matches Ok(s) && s.stream.handle == h,
                Err(_) => r == Err::<IncomingStream, AdapterError>(AdapterError::Other(CONSUME_FAILED)),
            },
    {
        match body {
            Ok(handle) => Ok(IncomingStream { stream: InputStream { handle } }),
            Err(()) => Err(AdapterError::other(CONSUME_FAILED)),
        }
    }
}

/// A request under construction, before the host sends it.
pub struct OutgoingRequest {
    pub method: HostMethod,
    pub path_with_query: Option<String>,
    pub scheme: Option<HostScheme>,
    pub authority: Option<String>,
    pub headers: Fields,
}

impl OutgoingRequest {
    pub fn new(
        method: HostMethod,
        path_with_query: Option<String>,
        scheme: Option<HostScheme>,
        authority: Option<String>,
        headers: Fields,
    ) -> (r: OutgoingRequest)
        ensures
            r.method == method,
            r.path_with_query == path_with_query,
            r.scheme == scheme,
            r.authority == authority,
            r.headers == headers,
    {
        OutgoingRequest { method, path_with_query, scheme, authority, headers }
    }

    /// Gives up the request for its body stream, given the host's answer to
    /// the request for it.
    pub fn into_stream(self, body: Result<u32, ()>) -> (r: Result<OutgoingStream, AdapterError>)
        ensures
            match body {
                Ok(h) => r matches Ok(s) && s.stream.handle == h,
                Err(_) => r == Err::<OutgoingStream, AdapterError>(
                    AdapterError::Other(REQUEST_WRITE_FAILED),
                ),
            },
    {
        match body {
            Ok(handle) => Ok(OutgoingStream { stream: OutputStream { handle } }),
            Err(()) => Err(AdapterError::other(REQUEST_WRITE_FAILED)),
        }
    }
}

/// The one-shot channel through which the host takes the response.
pub struct ResponseOutparam {
    pub handle: u32,
}

impl ResponseOutparam {
    pub fn new(handle: u32) -> (r: ResponseOutparam)
        ensures
            r.handle == handle,
    {
        ResponseOutparam { handle }
    }

    /// Uses up the out-parameter, given the host's answer to setting it.
    pub fn set(self, outcome: Result<(), ()>) -> (r: Result<(), AdapterError>)
        ensures
            outcome is Ok ==> r is Ok,
            outcome is Err ==> r == Err::<(), AdapterError>(AdapterError::Other(SET_FAILED)),
    {
        match outcome {
            Ok(()) => Ok(()),
            Err(()) => Err(AdapterError::other(SET_FAILED)),
        }
    }
}

/// A response under construction.
pub struct OutgoingResponse {
    pub status_code: u16,
    pub headers: Fields,
}

impl OutgoingResponse {
    pub fn new(status_code: u16, headers: Fields) -> (r: OutgoingResponse)
        ensures
            r.status_code == status_code,
            r.headers == headers,
    {
        OutgoingResponse { status_code, headers }
    }

    /// Gives up the response for its body stream, given the host's answer to
    /// the request for it.
    pub fn into_stream(self, body: Result<u32, ()>) -> (r: Result<OutgoingStream, AdapterError>)
        ensures
            match body {
                Ok(h) => r matches Ok(s) && s.stream.handle == h,
                Err(_) => r == Err::<OutgoingStream, AdapterError>(
                    AdapterError::Other(RESPONSE_WRITE_FAILED),
                ),
            },
    {
        match body {
            Ok(handle) => Ok(OutgoingStream { stream: OutputStream { handle } }),
            Err(()) => Err(AdapterError::other(RESPONSE_WRITE_FAILED)),
        }
    }
}

} // verus!
