use vstd::prelude::*;

use crate::envelope::NewsAPIResponse;
use crate::envelope::NewsAPIResponseView;
use crate::envelope::from_json;
use crate::envelope::outcome_view;
use crate::envelope::spec_classify;
use crate::envelope::spec_decode;
use crate::envelope::spec_describe;
use crate::error::NewsApiError;
use crate::error::NewsApiErrorView;
use crate::json::parse_json;
use crate::json::parsed_json;

verus! {

/// The resource paths the client can call.
#[derive(Debug, Clone, Copy, PartialEq, Eq, Structural)]
pub enum Endpoint {
    TopHeadlines,
}

/// The path segment of each endpoint.
pub open spec fn spec_endpoint_segment(e: Endpoint) -> Seq<char> {
    match e {
        Endpoint::TopHeadlines => "top-headlines"@,
    }
}

impl Endpoint {
    /// The endpoint's path segment.
    pub fn to_string(&self) -> (r: String)
        ensures
            r@ == spec_endpoint_segment(*self),
    {
        match self {
            Endpoint::TopHeadlines => "top-headlines".to_owned(),
        }
    }
}

/// The regions headlines can be fetched for.
#[derive(Debug, Clone, Copy, PartialEq, Eq, Structural)]
pub enum Country {
    Us,
}

/// The two-letter code of each country.
pub open spec fn spec_country_code(c: Country) -> Seq<char> {
    match c {
        Country::Us => "us"@,
    }
}

/// The query string that selects each country.
pub open spec fn spec_country_query(c: Country) -> Seq<char> {
    match c {
        Country::Us => "country=us"@,
    }
}

impl Country {
    /// The country's two-letter code.
    pub fn to_string(&self) -> (r: String)
        ensures
            r@ == spec_country_code(*self),
    {
        match self {
            Country::Us => "us".to_owned(),
        }
    }
}

/// The query string that selects the given country.
fn country_query(c: &Country) -> (r: String)
    ensures
        r@ == spec_country_query(*c),
{
    match c {
        Country::Us => "country=us".to_owned(),
    }
}

/// What joining a URL yields: the serialization of the base, parsed as an
/// absolute URL, with the segment appended to its path and the query
/// replacing any previous one — or nothing, when the base does not parse
/// or cannot carry path segments. A function of the three texts alone.
pub uninterp spec fn joined_url(base: Seq<char>, segment: Seq<char>, query: Seq<char>) -> Option<
    Seq<char>,
>;

/// Relies on the URL crate: `Url::parse`, `PathSegmentsMut::push`,
/// `Url::set_query` and `Url::as_str`, each deterministic in its input.
#[verifier::external_body]
fn join_url(base: &str, segment: &str, query: &str) -> (r: Option<String>)
    ensures
        r is Some <==> joined_url(base@, segment@, query@) is Some,
        r is Some ==> r->Some_0@ == joined_url(base@, segment@, query@)->Some_0,
{
    let mut u = match url::Url::parse(base) {
        Ok(u) => u,
        Err(_) => return None,
    };
    match u.path_segments_mut() {
        Ok(mut segments) => {
            segments.push(segment);
        },
        Err(_) => return None,
    }
    u.set_query(Some(query));
    Some(u.as_str().to_owned())
}

/// The base of every request URL.
pub open spec fn spec_base_url() -> Seq<char> {
    "https://newsapi.org/v2"@
}

/// Build a request URL from a base, an endpoint and a country.
pub fn build_url(base: &str, endpoint: &Endpoint, country: &Country) -> (r: Result<
    String,
    NewsApiError,
>)
    ensures
        r is Ok <==> joined_url(
            base@,
            spec_endpoint_segment(*endpoint),
            spec_country_query(*country),
        ) is Some,
        r is Ok ==> r->Ok_0@ == joined_url(
            base@,
            spec_endpoint_segment(*endpoint),
            spec_country_query(*country),
        )->Some_0,
        r is Err ==> r->Err_0@ == NewsApiErrorView::UrlParsing,
{
    let segment = endpoint.to_string();
    let query = country_query(country);
    match join_url(base, segment.as_str(), query.as_str()) {
        Some(u) => Ok(u),
        None => Err(NewsApiError::UrlParsing),
    }
}

/// The client: an API key and the selected endpoint and country. It keeps
/// no other state; every fetch builds its own request and owns its own
/// response.
pub struct NewsAPI {
    api_key: String,
    endpoint: Endpoint,
    country: Country,
}

/// Mathematical image of a `NewsAPI`.
pub struct NewsAPIView {
    pub api_key: Seq<char>,
    pub endpoint: Endpoint,
    pub country: Country,
}

impl View for NewsAPI {
    type V = NewsAPIView;

    closed spec fn view(&self) -> NewsAPIView {
        NewsAPIView { api_key: self.api_key@, endpoint: self.endpoint, country: self.country }
    }
}

/// The URL a fetch would call: the base with the endpoint's segment
/// appended and the country's query set.
pub open spec fn spec_prepare_url(v: NewsAPIView) -> Option<Seq<char>> {
    joined_url(spec_base_url(), spec_endpoint_segment(v.endpoint), spec_country_query(v.country))
}

impl NewsAPI {
    /// A client for the given key, aimed at the default endpoint and
    /// country.
    pub fn new(api_key: &str) -> (r: NewsAPI)
        ensures
            r@.api_key == api_key@,
            r@.endpoint == Endpoint::TopHeadlines,
            r@.country == Country::Us,
    {
        NewsAPI {
            api_key: api_key.to_owned(),
            endpoint: Endpoint::TopHeadlines,
            country: Country::Us,
        }
    }

    /// The key sent as the request's authorization header value.
    pub fn api_key(&self) -> (r: &str)
        ensures
            r@ == self@.api_key,
    {
        self.api_key.as_str()
    }

    /// Select the endpoint; hands the client back for chaining.
    pub fn endpoint(&mut self, endpoint: Endpoint) -> (r: &mut NewsAPI)
        ensures
            (*r)@.endpoint == endpoint,
            (*r)@.api_key == old(self)@.api_key,
            (*r)@.country == old(self)@.country,
            *final(self) == *final(r),
    {
        self.endpoint = endpoint;
        self
    }

    /// Select the country; hands the client back for chaining.
    pub fn country_mut(&mut self, country: Country) -> (r: &mut NewsAPI)
        ensures
            (*r)@.country == country,
            (*r)@.api_key == old(self)@.api_key,
            (*r)@.endpoint == old(self)@.endpoint,
            *final(self) == *final(r),
    {
        self.country = country;
        self
    }

    /// Build the request URL for the selected endpoint and country.
    pub fn prepare_url(&self) -> (r: Result<String, NewsApiError>)
        ensures
            r is Ok <==> spec_prepare_url(self@) is Some,
            r is Ok ==> r->Ok_0@ == spec_prepare_url(self@)->Some_0,
            r is Err ==> r->Err_0@ == NewsApiErrorView::UrlParsing,
    {
        build_url("https://newsapi.org/v2", &self.endpoint, &self.country)
    }
}

/// What one transport attempt produced, as the HTTP layer hands it back: a
/// body read in full, a failure before any response arrived, or a failure
/// while reading the body.
#[derive(Debug)]
pub enum TransportEvent {
    /// The whole response body, as text.
    Body(String),
    /// The transport failed before a body arrived; its diagnostic.
    TransportFailed(String),
    /// The body could not be read as text; the diagnostic.
    BodyReadFailed(String),
}

/// The outcome of decoding and classifying one response body.
pub open spec fn spec_handle_body(body: Seq<char>) -> Result<
    NewsAPIResponseView,
    NewsApiErrorView,
> {
    match parsed_json(body) {
        Err(m) => Err(NewsApiErrorView::ArticleParseFailed(m)),
        Ok(v) => match spec_decode(v) {
            Err(de) => Err(NewsApiErrorView::ArticleParseFailed(spec_describe(de))),
            Ok(env) => spec_classify(env),
        },
    }
}

/// Decode a response body and classify the outcome.
pub fn handle_body(body: &str) -> (r: Result<NewsAPIResponse, NewsApiError>)
    ensures
        outcome_view(r) == spec_handle_body(body@),
{
    let value = match parse_json(body) {
        Ok(v) => v,
        Err(m) => {
            return Err(NewsApiError::ArticleParseFailed(m));
        },
    };
    let decoded = match from_json(&value) {
        Ok(env) => env,
        Err(de) => {
            return Err(NewsApiError::ArticleParseFailed(de.describe()));
        },
    };
    decoded.classify()
}

/// The outcome of the blocking path, for each transport event.
pub open spec fn spec_resolve_blocking(ev: TransportEvent) -> Result<
    NewsAPIResponseView,
    NewsApiErrorView,
> {
    match ev {
        TransportEvent::Body(b) => spec_handle_body(b@),
        TransportEvent::TransportFailed(m) => Err(NewsApiErrorView::RequestFailed(m@)),
        TransportEvent::BodyReadFailed(m) => Err(NewsApiErrorView::FailedResponseToString(m@)),
    }
}

/// The outcome of the suspending path, for each transport event.
pub open spec fn spec_resolve_nonblocking(ev: TransportEvent) -> Result<
    NewsAPIResponseView,
    NewsApiErrorView,
> {
    match ev {
        TransportEvent::Body(b) => spec_handle_body(b@),
        TransportEvent::TransportFailed(m) => Err(NewsApiErrorView::RequestFailed(m@)),
        TransportEvent::BodyReadFailed(m) => Err(NewsApiErrorView::FailedResponseToString(m@)),
    }
}

/// Resolve a blocking fetch from what its transport produced.
pub fn resolve_blocking(ev: TransportEvent) -> (r: Result<NewsAPIResponse, NewsApiError>)
    ensures
        outcome_view(r) == spec_resolve_blocking(ev),
{
    match ev {
        TransportEvent::Body(b) => handle_body(b.as_str()),
        TransportEvent::TransportFailed(m) => Err(NewsApiError::RequestFailed(m)),
        TransportEvent::BodyReadFailed(m) => Err(NewsApiError::FailedResponseToString(m)),
    }
}

/// Resolve a suspending fetch from what its transport produced.
pub fn resolve_nonblocking(ev: TransportEvent) -> (r: Result<NewsAPIResponse, NewsApiError>)
    ensures
        outcome_view(r) == spec_resolve_nonblocking(ev),
{
    match ev {
        TransportEvent::Body(b) => handle_body(b.as_str()),
        TransportEvent::TransportFailed(m) => Err(NewsApiError::RequestFailed(m)),
        TransportEvent::BodyReadFailed(m) => Err(NewsApiError::FailedResponseToString(m)),
    }
}

/// The two execution paths classify alike: for the same transport outcome
/// — in particular, for identical response envelopes — the blocking and
/// the suspending fetch produce the same result.
pub proof fn lemma_mode_equivalence(ev: TransportEvent)
    ensures
        spec_resolve_blocking(ev) == spec_resolve_nonblocking(ev),
{
}

} // verus!
