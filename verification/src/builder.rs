//! Assembling a bundle step by step.
use crate::bundle::{Bundle, BundleView, Exchange, ExchangeView, Version};
use crate::error::{Error, ErrorView, Field};
use crate::exchange_builder::{ExchangeBuilder, ExchangeBuilderView, WalkEvent, WalkEventView};
use crate::uri::{Uri, Url};
use crate::views::{
    lemma_seq_view_add, lemma_seq_view_empty, lemma_seq_view_push, option_view, result_view,
    seq_view,
};
use vstd::prelude::*;

verus! {

/// Collects the parts of a bundle. The version and the primary URL have to
/// be set before [`Builder::build`] succeeds.
pub struct Builder {
    version: Option<Version>,
    primary_url: Option<Uri>,
    manifest: Option<Uri>,
    exchanges: Vec<Exchange>,
}

/// The view of a [`Builder`]: what has been set and added so far.
pub struct BuilderView {
    pub version: Option<Version>,
    pub primary_url: Option<Seq<char>>,
    pub manifest: Option<Seq<char>>,
    pub exchanges: Seq<ExchangeView>,
}

impl View for Builder {
    type V = BuilderView;

    closed spec fn view(&self) -> BuilderView {
        BuilderView {
            version: self.version,
            primary_url: option_view(self.primary_url),
            manifest: option_view(self.manifest),
            exchanges: seq_view(self.exchanges@),
        }
    }
}

impl BuilderView {
    /// The builder in which nothing is set.
    pub open spec fn empty() -> BuilderView {
        BuilderView { version: None, primary_url: None, manifest: None, exchanges: Seq::empty() }
    }

    /// The builder with the version set to `version`.
    pub open spec fn version(self, version: Version) -> BuilderView {
        BuilderView { version: Some(version), ..self }
    }

    /// The builder with the primary URL set to `primary_url`.
    pub open spec fn primary_url(self, primary_url: Seq<char>) -> BuilderView {
        BuilderView { primary_url: Some(primary_url), ..self }
    }

    /// The builder with the manifest URL set to `manifest`.
    pub open spec fn manifest(self, manifest: Seq<char>) -> BuilderView {
        BuilderView { manifest: Some(manifest), ..self }
    }

    /// The builder with `exchange` added behind the exchanges it holds.
    pub open spec fn exchange(self, exchange: ExchangeView) -> BuilderView {
        BuilderView { exchanges: self.exchanges.push(exchange), ..self }
    }

    /// The builder with `exchanges` added, in their order, behind the
    /// exchanges it holds.
    pub open spec fn exchanges(self, exchanges: Seq<ExchangeView>) -> BuilderView {
        BuilderView { exchanges: self.exchanges + exchanges, ..self }
    }

    /// The builder with the exchanges added that a walk over the directory
    /// `dir`, served below `base_url`, gives for the steps `events`; or the
    /// error of that walk.
    pub open spec fn exchanges_from_dir(
        self,
        dir: Seq<char>,
        base_url: Seq<char>,
        events: Seq<WalkEventView>,
    ) -> Result<BuilderView, ErrorView> {
        match ExchangeBuilderView::new(dir, base_url).walk(events) {
            Err(error) => Err(error),
            Ok(walked) => Ok(self.exchanges(walked.exchanges)),
        }
    }

    /// The bundle that the builder gives, or the first required field that
    /// is missing: the version before the primary URL.
    pub open spec fn build(self) -> Result<BundleView, ErrorView> {
        match (self.version, self.primary_url) {
            (None, _) => Err(ErrorView::MissingField(Field::Version)),
            (Some(_), None) => Err(ErrorView::MissingField(Field::PrimaryUrl)),
            (Some(version), Some(primary_url)) => Ok(
                BundleView {
                    version,
                    primary_url,
                    manifest: self.manifest,
                    exchanges: self.exchanges,
                },
            ),
        }
    }
}

impl Builder {
    /// A builder that holds nothing yet.
    pub fn new() -> (builder: Builder)
        ensures
            builder@ == BuilderView::empty(),
    {
        proof {
            lemma_seq_view_empty::<Exchange>();
        }
        Builder { version: None, primary_url: None, manifest: None, exchanges: Vec::new() }
    }

    /// Sets the version.
    pub fn version(self, version: Version) -> (builder: Builder)
        ensures
            builder@ == self@.version(version),
    {
        let mut builder = self;
        builder.version = Some(version);
        builder
    }

    /// Sets the primary url.
    pub fn primary_url(self, primary_url: Uri) -> (builder: Builder)
        ensures
            builder@ == self@.primary_url(primary_url@),
    {
        let mut builder = self;
        builder.primary_url = Some(primary_url);
        builder
    }

    /// Sets the manifest url.
    pub fn manifest(self, manifest: Uri) -> (builder: Builder)
        ensures
            builder@ == self@.manifest(manifest@),
    {
        let mut builder = self;
        builder.manifest = Some(manifest);
        builder
    }

    /// Adds the exchange.
    pub fn exchange(self, exchange: Exchange) -> (builder: Builder)
        ensures
            builder@ == self@.exchange(exchange@),
    {
        let mut builder = self;
        proof {
            lemma_seq_view_push(builder.exchanges@, exchange);
        }
        builder.exchanges.push(exchange);
        builder
    }

    /// Appends exchanges from the files under the given directory.
    ///
    /// `events` holds what a walk over `dir` found, in the order of the
    /// walk. `base_url` is the prefix of each resource: the path from `dir`
    /// to each regular file is joined onto it. Symbolic links are left
    /// out. Fails with the error of the first step that fails, and then
    /// adds nothing.
    pub fn exchanges_from_dir(self, dir: &str, base_url: Url, events: Vec<WalkEvent>) -> (builder:
        Result<Builder, Error>)
        ensures
            result_view(builder) == self@.exchanges_from_dir(dir@, base_url@, seq_view(events@)),
    {
        let walked = match ExchangeBuilder::new(String::from_str(dir), base_url).walk(events) {
            Ok(walked) => walked,
            Err(error) => {
                return Err(error);
            },
        };
        let mut found = walked.build();
        let mut builder = self;
        proof {
            lemma_seq_view_add(builder.exchanges@, found@);
        }
        builder.exchanges.append(&mut found);
        Ok(builder)
    }

    /// Builds the bundle. Fails with [`Error::MissingField`] exactly where
    /// the version or the primary URL was never set, and names the version
    /// where both are missing.
    pub fn build(self) -> (bundle: Result<Bundle, Error>)
        ensures
            result_view(bundle) == self@.build(),
    {
        let version = match self.version {
            Some(version) => version,
            None => {
                return Err(Error::MissingField(Field::Version));
            },
        };
        let primary_url = match self.primary_url {
            Some(primary_url) => primary_url,
            None => {
                return Err(Error::MissingField(Field::PrimaryUrl));
            },
        };
        Ok(Bundle { version, primary_url, manifest: self.manifest, exchanges: self.exchanges })
    }
}

impl Default for Builder {
    fn default() -> (builder: Builder)
        ensures
            builder@ == BuilderView::empty(),
    {
        Builder::new()
    }
}

} // verus!
