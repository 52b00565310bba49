//! HTTP client for Yew applications with automatic state management.
//!
//! The client decides what a request does from its first attempt to its last: what
//! goes out, what the application's store is told, what a reply amounts to, when
//! the request is tried again, and when the health of the services is checked. It
//! performs nothing of that itself. Each decision is a value that says what to do
//! next, and whoever does it reports back.
//!
//! - [`HttpClient`] and [`RequestBuilder`] put requests together.
//! - [`RequestBuilder::send`](builder::RequestBuilder::send) starts a request, and
//!   [`send::SendStep`] says what to do next.
//! - [`health_manager`] decides about health checks.
//! - [`utils`] holds common operations.
//! - [`exchange_laws`] states what holds of one attempt, [`send_laws`] and
//!   [`health_laws`] what holds of whole runs, and [`view_laws`] that the views which
//!   the contracts speak of lose nothing.
//!
//! # Features
//!
//! - **Fluent API**: method calls are chained to put a request together
//! - **Automatic state management**: loader states, progress, and notifications
//! - **Multiple content types**: JSON, form data, raw text, and binary data
//! - **Timeouts**: for each request
//! - **Retries**: with exponential backoff
//! - **Upload progress**: the store is told how far an upload has come

pub mod builder;
pub mod client;
pub mod error;
pub mod exchange;
pub mod exchange_laws;
pub mod headers;
pub mod health_laws;
pub mod health_manager;
pub mod request;
pub mod response;
pub mod send;
pub mod send_laws;
pub mod store;
pub mod text;
pub mod utils;
pub mod view_laws;

pub use builder::RequestBuilder;
pub use client::{get_http_client, BuildProfile, HttpClient};
pub use error::HttpError;
pub use headers::Headers;
pub use request::{HttpMethod, RequestBody, RequestConfig};
pub use response::HttpResponse;
pub use store::{AppAction, HealthStatus, StoreDispatcher};
