//! URLs and URIs as validated text.
//!
//! A [`Url`] is what the `url` crate parses and joins; a [`Uri`] is what the
//! `http` crate accepts as the address of a request. Both are held as text:
//! the serialization that the crate gives back for the parsed value.
use crate::error::{Error, ErrorView};
use crate::views::result_view;
use vstd::prelude::*;

verus! {

/// `url::ParseError`, the error of `url::Url::parse` and `url::Url::join`.
/// It is carried from the call to the place that turns it into an
/// [`Error`], and never looked into.
#[verifier::external_type_specification]
#[verifier::external_body]
pub struct ExUrlParseError(url::ParseError);

/// `http::uri::InvalidUri`, the error of reading an `http::Uri` from text.
/// It is carried from the call to the place that turns it into an
/// [`Error`], and never looked into.
#[verifier::external_type_specification]
#[verifier::external_body]
pub struct ExInvalidUri(http::uri::InvalidUri);

/// The serialization of the URL that `url::Url::parse` reads from `input`,
/// or `None` where it rejects `input`.
pub uninterp spec fn url_parse_spec(input: Seq<char>) -> Option<Seq<char>>;

/// The serialization of the URL that `url::Url::join` gives for the
/// reference `input` on the base URL written as `base`, or `None` where
/// `base` is no URL or the reference cannot be resolved against it.
pub uninterp spec fn url_join_spec(base: Seq<char>, input: Seq<char>) -> Option<Seq<char>>;

/// The text of the URI that `http::Uri` reads from `input`, or `None` where
/// it rejects `input`.
pub uninterp spec fn uri_parse_spec(input: Seq<char>) -> Option<Seq<char>>;

/// Calls `url::Url::parse` on `input` and hands back the serialization of
/// the URL, or the crate's error. The contract only gives the outcome its
/// name, `url_parse_spec(input)`.
#[verifier::external_body]
fn parse_url(input: &str) -> (parsed: Result<String, url::ParseError>)
    ensures
        match parsed {
            Ok(text) => url_parse_spec(input@) == Some(text@),
            Err(_) => url_parse_spec(input@) is None,
        },
{
    match url::Url::parse(input) {
        Ok(url) => Ok(String::from(url)),
        Err(error) => Err(error),
    }
}

/// Calls `url::Url::join` with the reference `input` on the URL that
/// `url::Url::parse` reads from `base`, and hands back the serialization of
/// the joined URL, or the crate's error from either call. The contract only
/// gives the outcome its name, `url_join_spec(base, input)`.
#[verifier::external_body]
fn join_url(base: &str, input: &str) -> (joined: Result<String, url::ParseError>)
    ensures
        match joined {
            Ok(text) => url_join_spec(base@, input@) == Some(text@),
            Err(_) => url_join_spec(base@, input@) is None,
        },
{
    match url::Url::parse(base) {
        Ok(base_url) => match base_url.join(input) {
            Ok(url) => Ok(String::from(url)),
            Err(error) => Err(error),
        },
        Err(error) => Err(error),
    }
}

/// Calls `http::Uri`'s `from_str` on `input` and hands back the URI as the
/// text that its `Display` writes, or the crate's error. The contract only
/// gives the outcome its name, `uri_parse_spec(input)`.
#[verifier::external_body]
fn parse_uri(input: &str) -> (parsed: Result<String, http::uri::InvalidUri>)
    ensures
        match parsed {
            Ok(text) => uri_parse_spec(input@) == Some(text@),
            Err(_) => uri_parse_spec(input@) is None,
        },
{
    match input.parse::<http::Uri>() {
        Ok(uri) => Ok(uri.to_string()),
        Err(error) => Err(error),
    }
}

/// The outcome of reading a URL or a URI from `input`, given what the
/// parser made of it: the text it gave, or the error that holds `input`.
pub open spec fn parsed_or_error(input: Seq<char>, parsed: Option<Seq<char>>) -> Result<
    Seq<char>,
    ErrorView,
> {
    match parsed {
        Some(text) => Ok(text),
        None => Err(ErrorView::Url(input)),
    }
}

/// An absolute URL that relative references are resolved against.
#[derive(Clone, Debug, PartialEq, Eq)]
pub struct Url {
    text: String,
}

impl View for Url {
    type V = Seq<char>;

    closed spec fn view(&self) -> Seq<char> {
        self.text@
    }
}

impl Url {
    /// Reads an absolute URL from `input`. Fails with [`Error::Url`],
    /// holding `input`, exactly where `input` is no absolute URL.
    pub fn parse(input: &str) -> (url: Result<Url, Error>)
        ensures
            result_view(url) == parsed_or_error(input@, url_parse_spec(input@)),
    {
        match parse_url(input) {
            Ok(text) => Ok(Url { text }),
            Err(_) => Err(Error::Url(String::from_str(input))),
        }
    }

    /// Resolves the reference `input` against this URL. Fails with
    /// [`Error::Url`], holding `input`, exactly where the two give no URL.
    pub fn join(&self, input: &str) -> (url: Result<Url, Error>)
        ensures
            result_view(url) == parsed_or_error(input@, url_join_spec(self@, input@)),
    {
        match join_url(self.text.as_str(), input) {
            Ok(text) => Ok(Url { text }),
            Err(_) => Err(Error::Url(String::from_str(input))),
        }
    }

    /// The serialization of the URL.
    pub fn as_str(&self) -> (text: &str)
        ensures
            text@ == self@,
    {
        self.text.as_str()
    }
}

impl core::str::FromStr for Url {
    type Err = Error;

    /// Reads an absolute URL from `input`, as [`Url::parse`] does.
    fn from_str(input: &str) -> (url: Result<Url, Error>)
        ensures
            result_view(url) == parsed_or_error(input@, url_parse_spec(input@)),
    {
        Url::parse(input)
    }
}

/// The address of a resource: the URI of a request, or the primary URL or
/// the manifest URL of a bundle.
#[derive(Clone, Debug, PartialEq, Eq)]
pub struct Uri {
    text: String,
}

impl View for Uri {
    type V = Seq<char>;

    closed spec fn view(&self) -> Seq<char> {
        self.text@
    }
}

impl Uri {
    /// Reads a URI from `input`. Fails with [`Error::Url`], holding
    /// `input`, exactly where `input` is no URI.
    pub fn parse(input: &str) -> (uri: Result<Uri, Error>)
        ensures
            result_view(uri) == parsed_or_error(input@, uri_parse_spec(input@)),
    {
        match parse_uri(input) {
            Ok(text) => Ok(Uri { text }),
            Err(_) => Err(Error::Url(String::from_str(input))),
        }
    }

    /// The text of the URI.
    pub fn as_str(&self) -> (text: &str)
        ensures
            text@ == self@,
    {
        self.text.as_str()
    }
}

impl core::str::FromStr for Uri {
    type Err = Error;

    /// Reads a URI from `input`, as [`Uri::parse`] does.
    fn from_str(input: &str) -> (uri: Result<Uri, Error>)
        ensures
            result_view(uri) == parsed_or_error(input@, uri_parse_spec(input@)),
    {
        Uri::parse(input)
    }
}

} // verus!
