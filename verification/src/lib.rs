//! Assembling a web bundle from its metadata and from the files of a
//! directory tree.
//!
//! A [`Builder`] collects the version, the primary URL, an optional manifest
//! URL and a list of exchanges, and turns them into a [`Bundle`]. An
//! [`ExchangeBuilder`] turns the entries that a walk over a directory found
//! into exchanges: one GET request and one `200` response per regular file.
//!
//! The library never touches the file system. Whoever walks the directory
//! hands over what was found as [`WalkEvent`] values. Paths are text with
//! `/` between their components.
//!
//! What holds of every builder and of every walk is proved in [`laws`].
pub mod builder;
pub mod bundle;
pub mod error;
pub mod exchange_builder;
pub mod laws;
pub mod media;
pub mod path;
pub mod uri;
pub mod views;

pub use builder::{Builder, BuilderView};
pub use bundle::{
    Bundle, BundleView, Exchange, ExchangeView, Method, Request, RequestView, Response,
    ResponseView, Version, STATUS_OK,
};
pub use error::{Error, ErrorView, Field, IoErrorKind, IoFailure, IoFailureView};
pub use exchange_builder::{ExchangeBuilder, ExchangeBuilderView, WalkEvent, WalkEventView};
pub use uri::{Uri, Url};
