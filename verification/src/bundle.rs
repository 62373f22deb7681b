//! The bundle and what it is made of: exchanges of one request and one
//! response each.
use crate::builder::Builder;
use crate::uri::Uri;
use crate::views::{option_view, seq_view};
use vstd::prelude::*;

verus! {

/// The version of the bundle format.
#[derive(Clone, Copy, Debug, PartialEq, Eq, Structural)]
pub enum Version {
    /// The version "b1".
    VersionB1,
    /// The version "1".
    Version1,
}

/// The method of a request.
#[derive(Clone, Copy, Debug, PartialEq, Eq, Structural)]
pub enum Method {
    Get,
    Head,
    Post,
    Put,
    Delete,
    Connect,
    Options,
    Trace,
    Patch,
}

/// The status of a response that carries what was asked for.
pub const STATUS_OK: u16 = 200;

/// A request without a body.
#[derive(Clone, Debug, PartialEq, Eq)]
pub struct Request {
    method: Method,
    uri: Uri,
}

/// The view of a [`Request`].
pub struct RequestView {
    pub method: Method,
    pub uri: Seq<char>,
}

impl View for Request {
    type V = RequestView;

    closed spec fn view(&self) -> RequestView {
        RequestView { method: self.method, uri: self.uri@ }
    }
}

impl RequestView {
    /// The GET request for `uri`.
    pub open spec fn get(uri: Seq<char>) -> RequestView {
        RequestView { method: Method::Get, uri }
    }
}

impl Request {
    /// The GET request for `uri`.
    pub fn get(uri: Uri) -> (request: Request)
        ensures
            request@ == RequestView::get(uri@),
    {
        Request { method: Method::Get, uri }
    }

    /// The method of the request.
    pub fn method(&self) -> (method: Method)
        ensures
            method == self@.method,
    {
        self.method
    }

    /// The address that the request asks for.
    pub fn uri(&self) -> (uri: &Uri)
        ensures
            uri@ == self@.uri,
    {
        &self.uri
    }
}

/// A response with the two headers that say how long its body is and what
/// it holds.
#[derive(Debug, PartialEq, Eq)]
pub struct Response {
    status: u16,
    content_length: u64,
    content_type: String,
    body: Vec<u8>,
}

/// The view of a [`Response`].
pub struct ResponseView {
    pub status: u16,
    pub content_length: nat,
    pub content_type: Seq<char>,
    pub body: Seq<u8>,
}

impl View for Response {
    type V = ResponseView;

    closed spec fn view(&self) -> ResponseView {
        ResponseView {
            status: self.status,
            content_length: self.content_length as nat,
            content_type: self.content_type@,
            body: self.body@,
        }
    }
}

impl ResponseView {
    /// The response with status `200` that carries `body` as content of
    /// the type `content_type`.
    pub open spec fn ok(content_type: Seq<char>, body: Seq<u8>) -> ResponseView {
        ResponseView { status: STATUS_OK, content_length: body.len(), content_type, body }
    }

    /// The length that the response announces is the length of its body.
    pub open spec fn wf(self) -> bool {
        self.content_length == self.body.len()
    }
}

impl Response {
    #[verifier::type_invariant]
    closed spec fn measured(self) -> bool {
        self.content_length == self.body@.len()
    }

    /// The response with status `200` that carries `body` as content of
    /// the type `content_type`. Its content length is the length of `body`.
    pub fn ok(content_type: String, body: Vec<u8>) -> (response: Response)
        ensures
            response@ == ResponseView::ok(content_type@, body@),
    {
        let content_length = body.len() as u64;
        Response { status: STATUS_OK, content_length, content_type, body }
    }

    /// The status code of the response.
    pub fn status(&self) -> (status: u16)
        ensures
            status == self@.status,
    {
        self.status
    }

    /// The value of the header `content-length`: always the length of the
    /// body.
    pub fn content_length(&self) -> (length: u64)
        ensures
            length == self@.content_length,
            length == self@.body.len(),
            self@.wf(),
    {
        proof {
            use_type_invariant(self);
        }
        self.content_length
    }

    /// The value of the header `content-type`.
    pub fn content_type(&self) -> (media_type: &str)
        ensures
            media_type@ == self@.content_type,
    {
        self.content_type.as_str()
    }

    /// The body of the response.
    pub fn body(&self) -> (body: &Vec<u8>)
        ensures
            body@ == self@.body,
    {
        &self.body
    }
}

impl Clone for Response {
    fn clone(&self) -> (copy: Response)
        ensures
            copy@ == self@,
    {
        proof {
            use_type_invariant(self);
        }
        let body = self.body.clone();
        assert(body@ =~= self.body@);
        Response {
            status: self.status,
            content_length: self.content_length,
            content_type: self.content_type.clone(),
            body,
        }
    }
}

/// One resource of a bundle: a request and the response to it.
#[derive(Clone, Debug, PartialEq, Eq)]
pub struct Exchange {
    pub request: Request,
    pub response: Response,
}

/// The view of an [`Exchange`].
pub struct ExchangeView {
    pub request: RequestView,
    pub response: ResponseView,
}

impl View for Exchange {
    type V = ExchangeView;

    open spec fn view(&self) -> ExchangeView {
        ExchangeView { request: self.request@, response: self.response@ }
    }
}

/// A bundle: its metadata and its exchanges, in the order in which they
/// were added.
#[derive(Clone, Debug, PartialEq, Eq)]
pub struct Bundle {
    pub version: Version,
    pub primary_url: Uri,
    pub manifest: Option<Uri>,
    pub exchanges: Vec<Exchange>,
}

/// The view of a [`Bundle`].
pub struct BundleView {
    pub version: Version,
    pub primary_url: Seq<char>,
    pub manifest: Option<Seq<char>>,
    pub exchanges: Seq<ExchangeView>,
}

impl View for Bundle {
    type V = BundleView;

    open spec fn view(&self) -> BundleView {
        BundleView {
            version: self.version,
            primary_url: self.primary_url@,
            manifest: option_view(self.manifest),
            exchanges: seq_view(self.exchanges@),
        }
    }
}

impl Bundle {
    /// A builder that holds nothing yet.
    pub fn builder() -> (builder: Builder)
        ensures
            builder@ == crate::builder::BuilderView::empty(),
    {
        Builder::new()
    }
}

} // verus!
