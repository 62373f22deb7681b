//! Turning the files below a directory into exchanges.
//!
//! The walk over the directory happens elsewhere. What it finds arrives
//! here as [`WalkEvent`] values, in the order of the walk, and an
//! [`ExchangeBuilder`] decides what each of them adds.
use crate::bundle::{Exchange, ExchangeView, Request, RequestView, Response, ResponseView};
use crate::error::{Error, ErrorView, IoFailure, IoFailureView};
use crate::media::{media_type, media_type_spec};
use crate::path::{diff_paths_spec, ensure_relative, ensure_relative_spec, found_or_error, relative_to};
use crate::uri::{parsed_or_error, uri_parse_spec, url_join_spec, Uri, Url};
use crate::views::{lemma_seq_view_empty, lemma_seq_view_push, result_view, seq_view};
use vstd::prelude::*;

verus! {

/// What reading a file gave: its bytes, or the failure.
pub open spec fn content_view(content: Result<Vec<u8>, IoFailure>) -> Result<
    Seq<u8>,
    IoFailureView,
> {
    match content {
        Ok(bytes) => Ok(bytes@),
        Err(failure) => Err(failure@),
    }
}

/// One step of a walk over a directory tree. Each entry comes with its
/// path as the walk reports it, the base directory included.
#[derive(Debug, PartialEq, Eq)]
pub enum WalkEvent {
    /// The walk found a directory.
    Directory(String),
    /// The walk found a symbolic link, to whatever.
    Symlink(String),
    /// The walk found something that is neither a directory, nor a
    /// symbolic link, nor a regular file.
    Other(String),
    /// The walk found a regular file. Holds what reading it gave.
    File(String, Result<Vec<u8>, IoFailure>),
    /// The walk could not go on. Holds what it reported.
    Failed(String),
}

/// The view of a [`WalkEvent`].
pub enum WalkEventView {
    Directory(Seq<char>),
    Symlink(Seq<char>),
    Other(Seq<char>),
    File(Seq<char>, Result<Seq<u8>, IoFailureView>),
    Failed(Seq<char>),
}

impl View for WalkEvent {
    type V = WalkEventView;

    open spec fn view(&self) -> WalkEventView {
        match *self {
            WalkEvent::Directory(path) => WalkEventView::Directory(path@),
            WalkEvent::Symlink(path) => WalkEventView::Symlink(path@),
            WalkEvent::Other(path) => WalkEventView::Other(path@),
            WalkEvent::File(path, content) => WalkEventView::File(path@, content_view(content)),
            WalkEvent::Failed(detail) => WalkEventView::Failed(detail@),
        }
    }
}

/// The URI of the request for the file at `relative_path` below a
/// directory that is served at `base_url`: the path joined onto the URL.
/// An absolute path is an error, and so is a path that gives no URL.
pub open spec fn request_uri(base_url: Seq<char>, relative_path: Seq<char>) -> Result<
    Seq<char>,
    ErrorView,
> {
    match ensure_relative_spec(relative_path) {
        Err(error) => Err(error),
        Ok(_) => match parsed_or_error(relative_path, url_join_spec(base_url, relative_path)) {
            Err(error) => Err(error),
            Ok(joined) => parsed_or_error(joined, uri_parse_spec(joined)),
        },
    }
}

/// The response for the file at `relative_path`, given what reading the
/// file gave: status `200`, the length of the content, the media type that
/// goes with the path, and the content as the body. An absolute path is an
/// error, and so is a failed read.
pub open spec fn file_response(
    relative_path: Seq<char>,
    content: Result<Seq<u8>, IoFailureView>,
) -> Result<ResponseView, ErrorView> {
    match ensure_relative_spec(relative_path) {
        Err(error) => Err(error),
        Ok(_) => match content {
            Err(failure) => Err(ErrorView::Io(relative_path, failure)),
            Ok(body) => Ok(ResponseView::ok(media_type_spec(relative_path), body)),
        },
    }
}

/// The exchange for the file at `relative_path`: the GET request for its
/// URI and the response that carries its content. The errors of the URI
/// come before those of the response.
pub open spec fn file_exchange(
    base_url: Seq<char>,
    relative_path: Seq<char>,
    content: Result<Seq<u8>, IoFailureView>,
) -> Result<ExchangeView, ErrorView> {
    match request_uri(base_url, relative_path) {
        Err(error) => Err(error),
        Ok(uri) => match file_response(relative_path, content) {
            Err(error) => Err(error),
            Ok(response) => Ok(ExchangeView { request: RequestView::get(uri), response }),
        },
    }
}

/// What one step of the walk adds: nothing, one exchange, or the error
/// that ends the walk. Only a regular file adds an exchange, under its
/// path as seen from `base_dir`.
pub open spec fn found(base_dir: Seq<char>, base_url: Seq<char>, event: WalkEventView) -> Result<
    Option<ExchangeView>,
    ErrorView,
> {
    match event {
        WalkEventView::Directory(_) => Ok(None),
        WalkEventView::Symlink(_) => Ok(None),
        WalkEventView::Other(_) => Ok(None),
        WalkEventView::Failed(detail) => Err(ErrorView::Traversal(detail)),
        WalkEventView::File(path, content) => match found_or_error(
            path,
            diff_paths_spec(path, base_dir),
        ) {
            Err(error) => Err(error),
            Ok(relative_path) => match file_exchange(base_url, relative_path, content) {
                Err(error) => Err(error),
                Ok(exchange) => Ok(Some(exchange)),
            },
        },
    }
}

/// Collects the exchanges for the files below one directory.
pub struct ExchangeBuilder {
    base_url: Url,
    base_dir: String,
    exchanges: Vec<Exchange>,
}

/// The view of an [`ExchangeBuilder`].
pub struct ExchangeBuilderView {
    pub base_url: Seq<char>,
    pub base_dir: Seq<char>,
    pub exchanges: Seq<ExchangeView>,
}

impl View for ExchangeBuilder {
    type V = ExchangeBuilderView;

    closed spec fn view(&self) -> ExchangeBuilderView {
        ExchangeBuilderView {
            base_url: self.base_url@,
            base_dir: self.base_dir@,
            exchanges: seq_view(self.exchanges@),
        }
    }
}

impl ExchangeBuilderView {
    /// The builder for `base_dir` and `base_url` that holds no exchange.
    pub open spec fn new(base_dir: Seq<char>, base_url: Seq<char>) -> ExchangeBuilderView {
        ExchangeBuilderView { base_url, base_dir, exchanges: Seq::empty() }
    }

    /// The builder with `exchange` added behind the exchanges it holds.
    pub open spec fn push(self, exchange: ExchangeView) -> ExchangeBuilderView {
        ExchangeBuilderView { exchanges: self.exchanges.push(exchange), ..self }
    }

    /// The builder after the file at `relative_path` was added, or the
    /// error that kept it out.
    pub open spec fn exchange(
        self,
        relative_path: Seq<char>,
        content: Result<Seq<u8>, IoFailureView>,
    ) -> Result<ExchangeBuilderView, ErrorView> {
        match file_exchange(self.base_url, relative_path, content) {
            Err(error) => Err(error),
            Ok(exchange) => Ok(self.push(exchange)),
        }
    }

    /// The builder after one step of the walk, or the error that ends the
    /// walk.
    pub open spec fn visit(self, event: WalkEventView) -> Result<ExchangeBuilderView, ErrorView> {
        match found(self.base_dir, self.base_url, event) {
            Err(error) => Err(error),
            Ok(None) => Ok(self),
            Ok(Some(exchange)) => Ok(self.push(exchange)),
        }
    }

    /// The builder after all the steps of a walk, taken in their order, or
    /// the error of the first step that fails.
    pub open spec fn walk(self, events: Seq<WalkEventView>) -> Result<
        ExchangeBuilderView,
        ErrorView,
    >
        decreases events.len(),
    {
        if events.len() == 0 {
            Ok(self)
        } else {
            match self.visit(events.first()) {
                Err(error) => Err(error),
                Ok(next) => next.walk(events.drop_first()),
            }
        }
    }
}

impl ExchangeBuilder {
    /// A builder for the files below `base_dir`, to be served below
    /// `base_url`. It holds no exchange yet.
    pub fn new(base_dir: String, base_url: Url) -> (builder: ExchangeBuilder)
        ensures
            builder@ == ExchangeBuilderView::new(base_dir@, base_url@),
    {
        proof {
            lemma_seq_view_empty::<Exchange>();
        }
        ExchangeBuilder { base_dir, base_url, exchanges: Vec::new() }
    }

    /// The directory below which the files lie.
    pub fn base_dir(&self) -> (base_dir: &str)
        ensures
            base_dir@ == self@.base_dir,
    {
        self.base_dir.as_str()
    }

    /// The URL below which the files are served.
    pub fn base_url(&self) -> (base_url: &Url)
        ensures
            base_url@ == self@.base_url,
    {
        &self.base_url
    }

    /// Takes the steps of a walk over the base directory, in their order.
    /// Each regular file adds one exchange; symbolic links, directories
    /// and other entries add nothing. The first step that fails ends the
    /// walk with its error: a failed step of the walk itself, a file
    /// outside the base directory, a path that gives no URL, or a file
    /// that could not be read.
    pub fn walk(self, events: Vec<WalkEvent>) -> (walked: Result<ExchangeBuilder, Error>)
        ensures
            result_view(walked) == self@.walk(seq_view(events@)),
    {
        let ghost all = seq_view(events@);
        let mut builder = self;
        assert(all.skip(0) == all);
        for event in it: events
            invariant
                it.seq() == events@,
                all == seq_view(events@),
                self@.walk(all) == builder@.walk(all.skip(it.index())),
        {
            let ghost rest = all.skip(it.index());
            assert(rest.first() == event@);
            assert(rest.drop_first() == all.skip(it.index() + 1));
            match builder.visit(event) {
                Ok(next) => {
                    builder = next;
                },
                Err(error) => {
                    return Err(error);
                },
            }
        }
        assert(all.skip(all.len() as int).len() == 0);
        Ok(builder)
    }

    /// Takes one step of a walk: see [`ExchangeBuilder::walk`].
    pub fn visit(self, event: WalkEvent) -> (visited: Result<ExchangeBuilder, Error>)
        ensures
            result_view(visited) == self@.visit(event@),
    {
        match event {
            WalkEvent::Directory(_) => Ok(self),
            WalkEvent::Symlink(_) => Ok(self),
            WalkEvent::Other(_) => Ok(self),
            WalkEvent::Failed(detail) => Err(Error::Traversal(detail)),
            WalkEvent::File(path, content) => {
                match relative_to(path.as_str(), self.base_dir.as_str()) {
                    Ok(relative_path) => self.exchange(relative_path.as_str(), content),
                    Err(error) => Err(error),
                }
            },
        }
    }

    /// The exchanges that were collected, in the order in which they were
    /// added.
    pub fn build(self) -> (exchanges: Vec<Exchange>)
        ensures
            seq_view(exchanges@) == self@.exchanges,
    {
        self.exchanges
    }

    /// The URI under which the file at `relative_path` is served: the path
    /// joined onto the base URL. Fails with [`Error::InvalidPath`] where
    /// the path is absolute, and with [`Error::Url`] where the path and
    /// the base URL give no valid URL.
    pub fn url_from_relative_path(&self, relative_path: &str) -> (uri: Result<Uri, Error>)
        ensures
            result_view(uri) == request_uri(self@.base_url, relative_path@),
    {
        match ensure_relative(relative_path) {
            Ok(_) => {},
            Err(error) => {
                return Err(error);
            },
        }
        match self.base_url.join(relative_path) {
            Ok(joined) => Uri::parse(joined.as_str()),
            Err(error) => Err(error),
        }
    }

    /// Adds the exchange for the file at `relative_path`, given what
    /// reading the file gave. The request is a GET request for the URI of
    /// the file; the response carries the content. Fails as
    /// [`ExchangeBuilder::url_from_relative_path`] does, and else as
    /// [`ExchangeBuilder::create_response`] does.
    pub fn exchange(self, relative_path: &str, content: Result<Vec<u8>, IoFailure>) -> (added:
        Result<ExchangeBuilder, Error>)
        ensures
            result_view(added) == self@.exchange(relative_path@, content_view(content)),
    {
        let uri = match self.url_from_relative_path(relative_path) {
            Ok(uri) => uri,
            Err(error) => {
                return Err(error);
            },
        };
        let response = match self.create_response(relative_path, content) {
            Ok(response) => response,
            Err(error) => {
                return Err(error);
            },
        };
        let exchange = Exchange { request: Request::get(uri), response };
        let mut builder = self;
        proof {
            lemma_seq_view_push(builder.exchanges@, exchange);
        }
        builder.exchanges.push(exchange);
        Ok(builder)
    }

    /// The response for the file at `relative_path`, given what reading
    /// the file gave: status `200`, the content as the body, its length as
    /// the content length, and the media type that goes with the
    /// extension of the path. Fails with [`Error::InvalidPath`] where the
    /// path is absolute, and else with [`Error::Io`] where the file could
    /// not be read.
    pub fn create_response(&self, relative_path: &str, content: Result<Vec<u8>, IoFailure>) -> (response:
        Result<Response, Error>)
        ensures
            result_view(response) == file_response(relative_path@, content_view(content)),
    {
        match ensure_relative(relative_path) {
            Ok(_) => {},
            Err(error) => {
                return Err(error);
            },
        }
        match content {
            Ok(body) => Ok(Response::ok(media_type(relative_path), body)),
            Err(failure) => Err(Error::Io(String::from_str(relative_path), failure)),
        }
    }
}

} // verus!
