use vstd::prelude::*;

use crate::error::NewsApiError;
use crate::error::NewsApiErrorView;
use crate::json::JsonValue;
use crate::json::lookup;
use crate::json::spec_lookup;

verus! {

/// One decoded article: required title and link, optional description.
#[derive(Debug, PartialEq, Eq)]
pub struct Article {
    title: String,
    url: String,
    description: Option<String>,
}

/// Mathematical image of an `Article`.
pub struct ArticleView {
    pub title: Seq<char>,
    pub url: Seq<char>,
    pub description: Option<Seq<char>>,
}

impl View for Article {
    type V = ArticleView;

    closed spec fn view(&self) -> ArticleView {
        ArticleView {
            title: self.title@,
            url: self.url@,
            description: self.description.deep_view(),
        }
    }
}

impl Article {
    /// The article's title.
    pub fn title(&self) -> (r: &str)
        ensures
            r@ == self@.title,
    {
        self.title.as_str()
    }

    /// The article's link.
    pub fn url(&self) -> (r: &str)
        ensures
            r@ == self@.url,
    {
        self.url.as_str()
    }

    /// The article's description, when the envelope carried one.
    pub fn desc(&self) -> (r: Option<&String>)
        ensures
            r is Some <==> self@.description is Some,
            r is Some ==> r->Some_0@ == self@.description->Some_0,
    {
        self.description.as_ref()
    }
}

/// The decoded response envelope: the service's status, its error code on
/// failure, and the articles it carried.
#[derive(Debug, PartialEq, Eq)]
pub struct NewsAPIResponse {
    status: String,
    code: Option<String>,
    articles: Vec<Article>,
}

/// Mathematical image of a `NewsAPIResponse`.
pub struct NewsAPIResponseView {
    pub status: Seq<char>,
    pub code: Option<Seq<char>>,
    pub articles: Seq<ArticleView>,
}

impl View for NewsAPIResponse {
    type V = NewsAPIResponseView;

    closed spec fn view(&self) -> NewsAPIResponseView {
        NewsAPIResponseView {
            status: self.status@,
            code: self.code.deep_view(),
            articles: self.articles@.map_values(|a: Article| a@),
        }
    }
}

impl NewsAPIResponse {
    /// The articles the envelope carried.
    pub fn articles(&self) -> (r: &Vec<Article>)
        ensures
            r@.map_values(|a: Article| a@) == self@.articles,
    {
        &self.articles
    }
}

/// Why a parsed document failed to decode as the response envelope.
#[derive(Debug, PartialEq, Eq, Structural, Clone, Copy)]
pub enum DecodeError {
    /// The document is not an object.
    NotAnObject,
    /// The `status` member is missing or is not a string.
    BadStatus,
    /// The `code` member is present but neither a string nor null.
    BadCode,
    /// The `articles` member is missing or is not an array.
    BadArticles,
    /// An element of `articles` is not a well-formed article object.
    BadArticle,
}

/// The diagnostic text of each decoding defect.
pub open spec fn spec_describe(e: DecodeError) -> Seq<char> {
    match e {
        DecodeError::NotAnObject => "response is not a JSON object"@,
        DecodeError::BadStatus => "missing or malformed status field"@,
        DecodeError::BadCode => "malformed code field"@,
        DecodeError::BadArticles => "missing or malformed articles field"@,
        DecodeError::BadArticle => "malformed article object"@,
    }
}

impl DecodeError {
    /// The diagnostic text of the defect.
    pub fn describe(&self) -> (r: String)
        ensures
            r@ == spec_describe(*self),
    {
        match self {
            DecodeError::NotAnObject => "response is not a JSON object".to_owned(),
            DecodeError::BadStatus => "missing or malformed status field".to_owned(),
            DecodeError::BadCode => "malformed code field".to_owned(),
            DecodeError::BadArticles => "missing or malformed articles field".to_owned(),
            DecodeError::BadArticle => "malformed article object".to_owned(),
        }
    }
}

/// An optional string member: a missing member and a null member both mean
/// "no value", a string means that value, and any other shape is a defect.
pub open spec fn spec_opt_text(m: Option<JsonValue>) -> Option<Option<Seq<char>>> {
    match m {
        None => Some(None),
        Some(JsonValue::Null) => Some(None),
        Some(JsonValue::String(s)) => Some(Some(s@)),
        Some(_) => None,
    }
}

/// The article that a document decodes to, when it has the required shape:
/// an object whose `title` and `url` members are strings, and whose
/// `description` member, if any, is a string or null.
pub open spec fn spec_article(v: JsonValue) -> Option<ArticleView> {
    match v {
        JsonValue::Object(fields) => {
            let title = spec_lookup(fields@, "title"@);
            let link = spec_lookup(fields@, "url"@);
            let desc = spec_opt_text(spec_lookup(fields@, "description"@));
            if title matches Some(JsonValue::String(_)) && link matches Some(JsonValue::String(_))
                && desc is Some {
                Some(
                    ArticleView {
                        title: title->Some_0->String_0@,
                        url: link->Some_0->String_0@,
                        description: desc->Some_0,
                    },
                )
            } else {
                None
            }
        },
        _ => None,
    }
}

/// Every element of `items` decodes to an article.
pub open spec fn articles_ok(items: Seq<JsonValue>) -> bool {
    forall|i: int| 0 <= i < items.len() ==> spec_article(#[trigger] items[i]) is Some
}

/// The articles that the elements of `items` decode to, in order.
pub open spec fn spec_articles(items: Seq<JsonValue>) -> Seq<ArticleView> {
    Seq::new(items.len(), |i: int| spec_article(items[i])->Some_0)
}

/// The envelope that a document decodes to, or the first defect found:
/// the document must be an object with a string `status`, an optional
/// string `code`, and an `articles` array of article objects.
pub open spec fn spec_decode(v: JsonValue) -> Result<NewsAPIResponseView, DecodeError> {
    match v {
        JsonValue::Object(fields) => {
            let status = spec_lookup(fields@, "status"@);
            let code = spec_opt_text(spec_lookup(fields@, "code"@));
            let arts = spec_lookup(fields@, "articles"@);
            if !(status matches Some(JsonValue::String(_))) {
                Err(DecodeError::BadStatus)
            } else if code is None {
                Err(DecodeError::BadCode)
            } else if !(arts matches Some(JsonValue::Array(_))) {
                Err(DecodeError::BadArticles)
            } else if !articles_ok(arts->Some_0->Array_0@) {
                Err(DecodeError::BadArticle)
            } else {
                Ok(
                    NewsAPIResponseView {
                        status: status->Some_0->String_0@,
                        code: code->Some_0,
                        articles: spec_articles(arts->Some_0->Array_0@),
                    },
                )
            }
        },
        _ => Err(DecodeError::NotAnObject),
    }
}

/// Decode one element of the `articles` array.
fn article_from_json(v: &JsonValue) -> (r: Option<Article>)
    ensures
        r is Some <==> spec_article(*v) is Some,
        r is Some ==> r->Some_0@ == spec_article(*v)->Some_0,
{
    let fields = match v {
        JsonValue::Object(fields) => fields,
        _ => {
            return None;
        },
    };
    let title: String = match lookup(fields, "title") {
        Some(JsonValue::String(t)) => t.clone(),
        _ => {
            return None;
        },
    };
    let link: String = match lookup(fields, "url") {
        Some(JsonValue::String(u)) => u.clone(),
        _ => {
            return None;
        },
    };
    let description: Option<String> = match lookup(fields, "description") {
        None => None,
        Some(JsonValue::Null) => None,
        Some(JsonValue::String(d)) => Some(d.clone()),
        _ => {
            return None;
        },
    };
    Some(Article { title, url: link, description })
}

/// Decode a parsed document as the response envelope.
#[verifier::loop_isolation(false)]
pub fn from_json(v: &JsonValue) -> (r: Result<NewsAPIResponse, DecodeError>)
    ensures
        r is Ok <==> spec_decode(*v) is Ok,
        r is Ok ==> r->Ok_0@ == spec_decode(*v)->Ok_0,
        r is Err ==> r->Err_0 == spec_decode(*v)->Err_0,
{
    let fields = match v {
        JsonValue::Object(fields) => fields,
        _ => {
            return Err(DecodeError::NotAnObject);
        },
    };
    let status: String = match lookup(fields, "status") {
        Some(JsonValue::String(s)) => s.clone(),
        _ => {
            return Err(DecodeError::BadStatus);
        },
    };
    let code: Option<String> = match lookup(fields, "code") {
        None => None,
        Some(JsonValue::Null) => None,
        Some(JsonValue::String(c)) => Some(c.clone()),
        _ => {
            return Err(DecodeError::BadCode);
        },
    };
    let items = match lookup(fields, "articles") {
        Some(JsonValue::Array(items)) => items,
        _ => {
            return Err(DecodeError::BadArticles);
        },
    };
    let mut articles: Vec<Article> = Vec::new();
    let mut i: usize = 0;
    while i < items.len()
        invariant
            0 <= i <= items@.len(),
            articles@.len() == i,
            forall|j: int| 0 <= j < i ==> spec_article(#[trigger] items@[j]) is Some,
            forall|j: int| 0 <= j < i ==> #[trigger] articles@[j]@ == spec_article(
                items@[j],
            )->Some_0,
        decreases items@.len() - i,
    {
        match article_from_json(&items[i]) {
            Some(a) => {
                articles.push(a);
            },
            None => {
                proof {
                    assert(spec_article(items@[i as int]) is None);
                    assert(!articles_ok(items@));
                }
                return Err(DecodeError::BadArticle);
            },
        }
        i = i + 1;
    }
    proof {
        assert(articles_ok(items@));
        assert forall|j: int| 0 <= j < items@.len() implies articles@.map_values(|a: Article| a@)[j]
            == spec_articles(items@)[j] by {
            assert(articles@[j]@ == spec_article(items@[j])->Some_0);
        }
        assert(articles@.map_values(|a: Article| a@) =~= spec_articles(items@));
    }
    Ok(NewsAPIResponse { status, code, articles })
}

/// The reason reported for a failed envelope: the one disabled-key code has
/// its own reason, every other code, and a missing code, fall into the
/// generic bucket.
pub open spec fn spec_reason(code: Option<Seq<char>>) -> Seq<char> {
    match code {
        Some(c) => if c == "apiKeyDisabled"@ {
            "Your API key has been disabled"@
        } else {
            "Unknown error"@
        },
        None => "Unknown error"@,
    }
}

/// Map the error code of a failed envelope to its fixed reason.
pub fn map_response_err(code: Option<String>) -> (r: NewsApiError)
    ensures
        r@ == NewsApiErrorView::BadRequest(spec_reason(code.deep_view())),
{
    match code {
        Some(c) => {
            let disabled: String = "apiKeyDisabled".to_owned();
            if c == disabled {
                NewsApiError::BadRequest("Your API key has been disabled".to_owned())
            } else {
                NewsApiError::BadRequest("Unknown error".to_owned())
            }
        },
        None => NewsApiError::BadRequest("Unknown error".to_owned()),
    }
}

/// The outcome that classifying an envelope yields: success hands the
/// envelope on, any other status maps the code to its reason.
pub open spec fn spec_classify(env: NewsAPIResponseView) -> Result<
    NewsAPIResponseView,
    NewsApiErrorView,
> {
    if env.status == "ok"@ {
        Ok(env)
    } else {
        Err(NewsApiErrorView::BadRequest(spec_reason(env.code)))
    }
}

/// A fetch outcome, seen through the images of its two sides.
pub open spec fn outcome_view(r: Result<NewsAPIResponse, NewsApiError>) -> Result<
    NewsAPIResponseView,
    NewsApiErrorView,
> {
    match r {
        Ok(env) => Ok(env@),
        Err(e) => Err(e@),
    }
}

impl NewsAPIResponse {
    /// Inspect the envelope's status and classify the fetch outcome.
    pub fn classify(self) -> (r: Result<NewsAPIResponse, NewsApiError>)
        ensures
            outcome_view(r) == spec_classify(self@),
    {
        let ok: String = "ok".to_owned();
        if self.status == ok {
            Ok(self)
        } else {
            Err(map_response_err(self.code))
        }
    }
}

} // verus!
