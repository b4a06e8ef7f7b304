//! Responses and the builder that makes them. Building is a pure data
//! transformation: it never fails and never validates; an unusable status or
//! header only shows when the transport serialises the response.
use vstd::prelude::*;
use vstd::string::StrSliceExecFns;
use vstd::utf8::encode_utf8;
use crate::headers::{HeaderMap, HeaderSeq};

verus! {

/// The status a builder starts with: 200 OK.
pub const DEFAULT_STATUS: u16 = 200;

/// Abstract value of a response: status, header fields in order, body bytes.
pub struct ResponseView {
    pub status: u16,
    pub headers: HeaderSeq,
    pub body: Seq<u8>,
}

/// Abstract value of a builder: what has been set so far.
pub struct BuilderView {
    pub status: u16,
    pub headers: HeaderSeq,
}

/// A builder that has not been told anything yet.
pub open spec fn fresh_builder() -> BuilderView {
    BuilderView { status: DEFAULT_STATUS, headers: HeaderSeq::empty() }
}

impl BuilderView {
    pub open spec fn with_status(self, code: u16) -> BuilderView {
        BuilderView { status: code, ..self }
    }

    pub open spec fn with_header(self, name: Seq<char>, value: Seq<char>) -> BuilderView {
        BuilderView { headers: self.headers.push((name, value)), ..self }
    }

    /// The headers of `hs` added one by one, first to last.
    pub open spec fn with_headers(self, hs: HeaderSeq) -> BuilderView
        decreases hs.len(),
    {
        if hs.len() == 0 {
            self
        } else {
            self.with_headers(hs.drop_last()).with_header(hs.last().0, hs.last().1)
        }
    }

    pub open spec fn finish(self, body: Seq<u8>) -> ResponseView {
        ResponseView { status: self.status, headers: self.headers, body }
    }
}

proof fn lemma_with_headers_appends(b: BuilderView, hs: HeaderSeq)
    ensures
        b.with_headers(hs) == (BuilderView { status: b.status, headers: b.headers + hs }),
    decreases hs.len(),
{
    if hs.len() > 0 {
        lemma_with_headers_appends(b, hs.drop_last());
        assert((b.headers + hs.drop_last()).push(hs.last()) =~= b.headers + hs);
    } else {
        assert(b.headers + hs =~= b.headers);
    }
}

/// A response built with status `code`, then the header fields `hs` one by
/// one, then `body`, carries exactly that status, exactly those fields in
/// that order (repeated names included) and exactly that body.
pub proof fn lemma_built_response_keeps_parts(code: u16, hs: HeaderSeq, body: Seq<u8>)
    ensures
        fresh_builder().with_status(code).with_headers(hs).finish(body) == (ResponseView {
            status: code,
            headers: hs,
            body,
        }),
{
    lemma_with_headers_appends(fresh_builder().with_status(code), hs);
    assert(HeaderSeq::empty() + hs =~= hs);
}

/// Setting the status twice keeps only the second code, whatever headers
/// were added in between.
pub proof fn lemma_status_replaces(b: BuilderView, first: u16, hs: HeaderSeq, second: u16)
    ensures
        b.with_status(first).with_headers(hs).with_status(second) == b.with_headers(hs).with_status(
            second,
        ),
{
    lemma_with_headers_appends(b.with_status(first), hs);
    lemma_with_headers_appends(b, hs);
}

/// The protocol-level response handed to the transport for serialisation.
pub struct HttpResponse {
    status: u16,
    headers: HeaderMap,
    body: Vec<u8>,
}

impl View for HttpResponse {
    type V = ResponseView;

    closed spec fn view(&self) -> ResponseView {
        ResponseView { status: self.status, headers: self.headers@, body: self.body@ }
    }
}

impl HttpResponse {
    pub fn status(&self) -> (r: u16)
        ensures
            r == self@.status,
    {
        self.status
    }

    pub fn headers(&self) -> (r: &HeaderMap)
        ensures
            r@ == self@.headers,
    {
        &self.headers
    }

    pub fn body(&self) -> (r: &[u8])
        ensures
            r@ == self@.body,
    {
        self.body.as_slice()
    }
}

/// A finished response, as a handler returns it. It cannot be changed.
pub struct Response {
    inner: HttpResponse,
}

impl View for Response {
    type V = ResponseView;

    closed spec fn view(&self) -> ResponseView {
        self.inner@
    }
}

impl Response {
    /// A builder with status 200 and no headers.
    pub fn builder() -> (r: ResponseBuilder)
        ensures
            r@ == fresh_builder(),
    {
        ResponseBuilder::new()
    }

    /// The protocol-level response, with the same status, headers and body.
    pub fn into_inner(self) -> (r: HttpResponse)
        ensures
            r@ == self@,
    {
        self.inner
    }
}

/// Accumulates a status and header fields; a body finishes it into a
/// [`Response`].
pub struct ResponseBuilder {
    status: u16,
    headers: HeaderMap,
}

impl View for ResponseBuilder {
    type V = BuilderView;

    closed spec fn view(&self) -> BuilderView {
        BuilderView { status: self.status, headers: self.headers@ }
    }
}

impl ResponseBuilder {
    pub fn new() -> (r: ResponseBuilder)
        ensures
            r@ == fresh_builder(),
    {
        ResponseBuilder { status: DEFAULT_STATUS, headers: HeaderMap::new() }
    }

    /// Replaces the status code. The code is not checked here.
    pub fn status(self, code: u16) -> (r: ResponseBuilder)
        ensures
            r@ == self@.with_status(code),
    {
        ResponseBuilder { status: code, headers: self.headers }
    }

    /// Adds a header field after the present ones; one of the same name stays.
    pub fn header(self, name: &str, value: &str) -> (r: ResponseBuilder)
        ensures
            r@ == self@.with_header(name@, value@),
    {
        let mut headers = self.headers;
        headers.append(name, value);
        ResponseBuilder { status: self.status, headers }
    }

    /// Finishes the response with the given bytes as its body.
    pub fn body(self, bytes: Vec<u8>) -> (r: Response)
        ensures
            r@ == self@.finish(bytes@),
    {
        Response { inner: HttpResponse { status: self.status, headers: self.headers, body: bytes } }
    }

    /// Finishes the response with the UTF-8 encoding of `text` as its body.
    pub fn text(self, text: &str) -> (r: Response)
        ensures
            r@ == self@.finish(encode_utf8(text@)),
    {
        let bytes = text.as_bytes_vec();
        self.body(bytes)
    }
}

} // verus!
