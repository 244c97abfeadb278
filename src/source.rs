use vstd::prelude::*;

use crate::error::Error;
use crate::text::{has_infix, str_contains};

verus! {

/// How sure a provider is of a match.
#[derive(Debug, Clone, PartialEq)]
pub enum Similarity {
    /// A percentage-like score as the provider wrote it; the text reads as a
    /// float.
    Reported(String),
    /// The provider gives no score: a match with unknown confidence
    /// (conventionally shown as `100.0`).
    NotReported,
    /// The provider gave a score that could not be read (conventionally
    /// shown as a negative value).
    Unparsed,
}

/// The mathematical form of a [`Similarity`].
pub enum Score {
    Reported(Seq<char>),
    NotReported,
    Unparsed,
}

impl View for Similarity {
    type V = Score;

    open spec fn view(&self) -> Score {
        match self {
            Similarity::Reported(s) => Score::Reported(s@),
            Similarity::NotReported => Score::NotReported,
            Similarity::Unparsed => Score::Unparsed,
        }
    }
}

/// One candidate match.
#[derive(Debug, Clone, PartialEq)]
pub struct Item {
    /// Link to the match; not always a direct link to an image.
    pub link: String,
    pub similarity: Similarity,
}

/// The mathematical form of an [`Item`].
pub struct ItemModel {
    pub link: Seq<char>,
    pub score: Score,
}

impl View for Item {
    type V = ItemModel;

    open spec fn view(&self) -> ItemModel {
        ItemModel { link: self.link@, score: self.similarity@ }
    }
}

/// The items of a vector, each in its mathematical form.
pub open spec fn items_view(v: Seq<Item>) -> Seq<ItemModel> {
    v.map_values(|i: Item| i@)
}

/// The result of one successful search.
#[derive(Debug, Clone, PartialEq)]
pub struct Output {
    /// The address that was searched for, as it was given.
    pub original_url: String,
    /// The matches, in the provider's order.
    pub items: Vec<Item>,
}

/// The mathematical form of an [`Output`].
pub struct OutputModel {
    pub original_url: Seq<char>,
    pub items: Seq<ItemModel>,
}

impl View for Output {
    type V = OutputModel;

    open spec fn view(&self) -> OutputModel {
        OutputModel { original_url: self.original_url@, items: items_view(self.items@) }
    }
}

#[derive(Clone, Copy, Debug, PartialEq, Eq, Structural)]
pub enum Method {
    /// A metadata-only fetch.
    Head,
    Get,
}

/// A request that a provider asks the transport to perform.
#[derive(Debug, Clone, PartialEq)]
pub struct Request {
    pub method: Method,
    pub url: String,
    /// Query pairs to append to `url`, encoded by the transport.
    pub query: Vec<(String, String)>,
    pub headers: Vec<(String, String)>,
    /// A bound on the time the request may take, in seconds.
    pub timeout_secs: Option<u64>,
}

/// What a provider wants next during a search.
#[derive(Debug, Clone, PartialEq)]
pub enum Step {
    /// Perform this request and hand its reply back.
    Fetch(Request),
    /// The search ends with this error.
    Fail(Error),
}

/// The metadata fetch of `url`: a plain HEAD request with no extras.
pub open spec fn is_head_of(req: Request, url: Seq<char>) -> bool {
    &&& req.method == Method::Head
    &&& req.url@ == url
    &&& req.query@.len() == 0
    &&& req.headers@.len() == 0
    &&& req.timeout_secs is None
}

/// An optional text in its mathematical form.
pub open spec fn opt_view(o: Option<String>) -> Option<Seq<char>> {
    match o {
        Some(s) => Some(s@),
        None => None,
    }
}

/// A content type is present and names an image.
pub open spec fn is_image_type(content_type: Option<Seq<char>>) -> bool {
    match content_type {
        Some(t) => has_infix(t, "image"@),
        None => false,
    }
}

/// Whether a content-type header value (`None` when absent) names an image.
pub fn content_type_is_image(content_type: &Option<String>) -> (r: bool)
    ensures
        r == is_image_type(opt_view(*content_type)),
{
    match content_type {
        Some(t) => str_contains(t.as_str(), "image"),
        None => false,
    }
}

/// The request for a metadata fetch of `url`.
pub fn head_request(url: &str) -> (r: Request)
    ensures
        is_head_of(r, url@),
{
    Request {
        method: Method::Head,
        url: url.to_string(),
        query: Vec::new(),
        headers: Vec::new(),
        timeout_secs: None,
    }
}

/// A reverse image search provider.
///
/// A search for `url` runs as: `begin`; if it asks for a fetch, perform it and
/// pass the reply's content type to `after_head`; if that asks for a fetch,
/// perform it and pass the decoded reply to `finish`.
pub trait Source: Sized {
    /// The configuration that [`Source::create`] takes.
    type State;

    /// The search reply, in the form `finish` reads.
    type Reply;

    /// Every configuration value that a search needs is present.
    spec fn ready(&self) -> bool;

    /// This provider is configured by `argument`.
    spec fn holds(&self, argument: Self::State) -> bool;

    /// Makes a provider from its configuration; optional configuration that
    /// is absent is reported only when a search needs it.
    fn create(argument: Self::State) -> (r: Result<Self, Error>)
        ensures
            r matches Ok(s) && s.holds(argument),
    ;

    /// The first step of a search for `url`: the metadata fetch of `url`, or,
    /// where configuration that the search needs is missing, that error
    /// without any request.
    fn begin(&self, url: &str) -> (r: Step)
        ensures
            self.ready() ==> (r matches Step::Fetch(req) && is_head_of(req, url@)),
            !self.ready() ==> r == Step::Fail(Error::MissingConfiguration),
    ;

    /// The step after the metadata fetch, given the content type it reported.
    /// A target that is not an image ends the search before any search
    /// request.
    fn after_head(&self, url: &str, content_type: Option<String>) -> (r: Step)
        ensures
            !is_image_type(opt_view(content_type)) ==> r == Step::Fail(Error::LinkIsNotImage),
            is_image_type(opt_view(content_type)) && self.ready() ==> r is Fetch,
            is_image_type(opt_view(content_type)) && !self.ready() ==> r == Step::Fail(
                Error::MissingConfiguration,
            ),
            r matches Step::Fetch(req) ==> req.method == Method::Get,
    ;

    /// Turns the search reply into the result of the search for `url`.
    fn finish(&self, url: &str, reply: Self::Reply) -> (r: Result<Output, Error>)
        ensures
            r matches Ok(out) ==> out.original_url@ == url@,
    ;
}

/// A whole search for `url` against replies fixed in advance: the requests
/// that the provider issues, in order, and the outcome. The metadata fetch
/// reports `content_type` and the search request answers with `reply`.
///
/// The metadata fetch comes first and is skipped only where configuration
/// is missing; one search request follows exactly when the target is an
/// image (and the configuration is there); a result keeps the address it was
/// asked for.
pub fn check_with_replies<S: Source>(
    source: &S,
    url: &str,
    content_type: Option<String>,
    reply: S::Reply,
) -> (r: (Vec<Request>, Result<Output, Error>))
    ensures
        r.0@.len() <= 2,
        source.ready() ==> r.0@.len() >= 1,
        !source.ready() ==> r.0@.len() == 0 && r.1 == Err::<Output, Error>(
            Error::MissingConfiguration,
        ),
        r.0@.len() >= 1 ==> is_head_of(r.0@[0], url@),
        source.ready() && is_image_type(opt_view(content_type)) ==> r.0@.len() == 2,
        r.0@.len() == 2 ==> r.0@[1].method == Method::Get,
        r.0@.len() >= 1 && !is_image_type(opt_view(content_type)) ==> r.0@.len() == 1 && r.1
            == Err::<Output, Error>(Error::LinkIsNotImage),
        r.1 is Ok ==> r.0@.len() == 2,
        r.1 matches Ok(out) ==> out.original_url@ == url@,
{
    let mut issued: Vec<Request> = Vec::new();
    match source.begin(url) {
        Step::Fail(e) => {
            return (issued, Err(e));
        },
        Step::Fetch(head) => {
            issued.push(head);
        },
    }
    match source.after_head(url, content_type) {
        Step::Fail(e) => (issued, Err(e)),
        Step::Fetch(search) => {
            issued.push(search);
            let result = source.finish(url, reply);
            (issued, result)
        },
    }
}

} // verus!
