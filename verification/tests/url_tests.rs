use newsapi::Country;
use newsapi::Endpoint;
use newsapi::NewsAPI;
use newsapi::NewsApiError;
use newsapi::build_url;

#[test]
fn it_works() {
    assert_eq!(2 + 2, 4);
}

#[test]
fn url_construction() {
    let api = NewsAPI::new("some-key");
    let first = api.prepare_url().unwrap();
    assert_eq!(first, "https://newsapi.org/v2/top-headlines?country=us");
    // Building the URL twice changes nothing: no duplicate query parameters.
    let second = api.prepare_url().unwrap();
    assert_eq!(second, "https://newsapi.org/v2/top-headlines?country=us");
}

#[test]
fn url_construction_after_setters() {
    let mut api = NewsAPI::new("some-key");
    api.endpoint(Endpoint::TopHeadlines).country_mut(Country::Us);
    assert_eq!(
        api.prepare_url().unwrap(),
        "https://newsapi.org/v2/top-headlines?country=us"
    );
    assert_eq!(api.api_key(), "some-key");
}

#[test]
fn url_parsing_failure_on_bad_base() {
    let e = build_url("not an absolute url", &Endpoint::TopHeadlines, &Country::Us).unwrap_err();
    assert!(matches!(e, NewsApiError::UrlParsing));
}

#[test]
fn url_parsing_failure_on_base_without_segments() {
    // A scheme without a host cannot carry path segments.
    let e = build_url("mailto:someone@example.com", &Endpoint::TopHeadlines, &Country::Us)
        .unwrap_err();
    assert!(matches!(e, NewsApiError::UrlParsing));
}

#[test]
fn endpoint_segment_text() {
    assert_eq!(Endpoint::TopHeadlines.to_string(), "top-headlines");
}

#[test]
fn country_code_text() {
    assert_eq!(Country::Us.to_string(), "us");
}
