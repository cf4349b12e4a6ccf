// A small client for a headline-aggregation web service: it builds the
// request URL, decodes the JSON envelope that comes back, and classifies
// every outcome into a typed result or a typed error.

pub mod client;
pub mod envelope;
pub mod error;
pub mod headlines;
pub mod json;

pub use client::Country;
pub use client::Endpoint;
pub use client::NewsAPI;
pub use client::TransportEvent;
pub use client::build_url;
pub use client::handle_body;
pub use client::resolve_blocking;
pub use client::resolve_nonblocking;
pub use envelope::Article;
pub use envelope::DecodeError;
pub use envelope::NewsAPIResponse;
pub use envelope::map_response_err;
pub use error::NewsApiError;
pub use error::NewsApiErrorView;
pub use headlines::Headlines;
pub use headlines::HeadlinesConfig;
pub use headlines::NewCardData;
pub use headlines::news_card;
pub use headlines::to_cards;
pub use json::JsonValue;
