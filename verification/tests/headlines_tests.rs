use newsapi::Headlines;
use newsapi::HeadlinesConfig;
use newsapi::NewCardData;
use newsapi::TransportEvent;
use newsapi::news_card;
use newsapi::resolve_blocking;
use newsapi::to_cards;

#[test]
fn config_new_prefers_dark_mode() {
    let config = HeadlinesConfig::new();
    assert!(config.dark_mode);
    assert_eq!(config.api_key, "");
}

#[test]
fn config_default_is_light_mode() {
    let config = HeadlinesConfig::default();
    assert!(!config.dark_mode);
    assert_eq!(config.api_key, "");
}

#[test]
fn cards_keep_title_url_and_description() {
    let body = r#"{"status":"ok","articles":[
        {"title":"A","url":"http://example.com/a","description":"first"},
        {"title":"B","url":"http://example.com/b"}
    ]}"#;
    let response = resolve_blocking(TransportEvent::Body(body.to_string())).unwrap();
    let cards = to_cards(response.articles());
    assert_eq!(cards.len(), 2);
    assert_eq!(cards[0].title, "A");
    assert_eq!(cards[0].url, "http://example.com/a");
    assert_eq!(cards[0].desc, "first");
    assert_eq!(cards[1].title, "B");
    // An absent description becomes the placeholder.
    assert_eq!(cards[1].desc, "...");
}

#[test]
fn card_of_single_article() {
    let body = r#"{"status":"ok","articles":[{"title":"T","url":"U"}]}"#;
    let response = resolve_blocking(TransportEvent::Body(body.to_string())).unwrap();
    let card = news_card(&response.articles()[0]);
    assert_eq!(
        card,
        NewCardData {
            title: "T".to_string(),
            desc: "...".to_string(),
            url: "U".to_string(),
        }
    );
}

#[test]
fn toggling_dark_mode_flips_only_the_theme() {
    let mut headlines = Headlines {
        articles: Vec::new(),
        config: HeadlinesConfig::new(),
        api_key_initialized: false,
    };
    headlines.toggle_dark_mode();
    assert!(!headlines.config.dark_mode);
    assert!(!headlines.api_key_initialized);
    assert!(headlines.articles.is_empty());
    headlines.toggle_dark_mode();
    assert!(headlines.config.dark_mode);
}
