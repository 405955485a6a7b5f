//! A typed client library for the API of a federated social network
//! instance: the requests of its endpoints, the decoding of its responses,
//! and the pages in which it hands out lists.

mod outside;
mod text;

pub mod client;
pub mod envelope;
pub mod errors;
pub mod link;
pub mod page;
pub mod request;
pub mod routes;
pub mod streaming;

pub use client::{Data, Mastodon, MastodonBuilder, Request};
pub use envelope::{deserialise, settle, Empty};
pub use errors::{check_status, ApiError, MastodonError};
pub use link::{find_link, parse_links, Links};
pub use page::{ItemStream, Page, Step};
pub use request::StatusesRequest;
pub use routes::{IdDeleteRoute, IdGetRoute, IdPostRoute, IdRoute, Method};
pub use streaming::websocket_url;
