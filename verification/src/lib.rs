//! Request building and bounded retry for an HTTP client, with the transport left to the caller.
//!
//! A [`HttpRequest`] holds a base address and describes requests against it as plain
//! [`RequestDescriptor`] values. Sending is done by a function that the caller supplies; the
//! client repeats a request under a [`RetryPolicy`], by [`execute`] or, for a transport that
//! cannot be called from here, by stepping a [`RetryState`].

pub mod address;
pub mod client;
pub mod encoding;
pub mod exception;
pub mod hooks;
pub mod interval;
pub mod logging;
pub mod request;
pub mod response;
pub mod retry;
pub mod transport;

pub use client::HttpRequest;
pub use exception::{BuildError, HttpRequestError};
pub use hooks::{HttpRequestHook, HttpResponseHook, RequestHook, ResponseHook};
pub use interval::Interval;
pub use logging::{format_record, DATE_FORMAT};
pub use request::{Header, Method, RequestDescriptor, AUTHORIZATION};
pub use response::HttpResponse;
pub use retry::{execute, RetryError, RetryEvent, RetryPolicy, RetryReport, RetryState, RetryStep};
