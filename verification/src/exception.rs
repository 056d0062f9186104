//! The errors of this library.

use vstd::prelude::*;
use vstd::string::StringExecFns;

verus! {

/// The error of `serde_json`. Nothing here looks inside one: it is handed to the caller.
#[verifier::external_type_specification]
#[verifier::external_body]
pub struct ExJsonError(serde_json::Error);

/// Why sending a request gave no usable answer. `E` is the transport's own error.
#[derive(Debug)]
pub enum HttpRequestError<E> {
    /// The transport failed to send the request or to receive the response.
    RequestBuilderError(E),
    /// The response arrived, but its body is not a JSON document.
    JsonError(serde_json::Error),
}

impl<E> From<serde_json::Error> for HttpRequestError<E> {
    fn from(error: serde_json::Error) -> (result: Self) {
        HttpRequestError::JsonError(error)
    }
}

impl<E> vstd::std_specs::convert::FromSpecImpl<serde_json::Error> for HttpRequestError<E> {
    open spec fn obeys_from_spec() -> bool {
        true
    }

    open spec fn from_spec(error: serde_json::Error) -> Self {
        HttpRequestError::JsonError(error)
    }
}

/// Why a request could not be described.
#[derive(Debug, PartialEq, Eq)]
pub enum BuildError {
    /// The base address is not an absolute URL; holds the parser's reason.
    InvalidBaseUrl(String),
    /// The path does not resolve against the base address; holds the parser's reason.
    InvalidUrl(String),
    /// The resolved address has the scheme `http`, which is not allowed.
    HttpScheme,
    /// The query parameters could not be encoded; holds the encoder's reason.
    QueryEncoding(String),
}

/// A [`BuildError`] as plain text.
pub enum BuildErrorView {
    InvalidBaseUrl(Seq<char>),
    InvalidUrl(Seq<char>),
    HttpScheme,
    QueryEncoding(Seq<char>),
}

impl View for BuildError {
    type V = BuildErrorView;

    open spec fn view(&self) -> BuildErrorView {
        match self {
            BuildError::InvalidBaseUrl(reason) => BuildErrorView::InvalidBaseUrl(reason@),
            BuildError::InvalidUrl(reason) => BuildErrorView::InvalidUrl(reason@),
            BuildError::HttpScheme => BuildErrorView::HttpScheme,
            BuildError::QueryEncoding(reason) => BuildErrorView::QueryEncoding(reason@),
        }
    }
}

impl BuildErrorView {
    /// The sentence that reports this error.
    pub open spec fn message(self) -> Seq<char> {
        match self {
            BuildErrorView::InvalidBaseUrl(reason) => "Given the invalid argument for Base URL: "@
                + reason,
            BuildErrorView::InvalidUrl(reason) => "Given the invalid argument for URL: "@ + reason,
            BuildErrorView::HttpScheme => "HTTP scheme currently is not allowed"@,
            BuildErrorView::QueryEncoding(reason) => "Failed to encode the query parameters: "@
                + reason,
        }
    }
}

impl BuildError {
    /// The sentence that reports this error.
    pub fn message(&self) -> (text: String)
        ensures
            text@ == self@.message(),
    {
        match self {
            BuildError::InvalidBaseUrl(reason) => {
                "Given the invalid argument for Base URL: ".to_owned().concat(reason.as_str())
            },
            BuildError::InvalidUrl(reason) => {
                "Given the invalid argument for URL: ".to_owned().concat(reason.as_str())
            },
            BuildError::HttpScheme => "HTTP scheme currently is not allowed".to_owned(),
            BuildError::QueryEncoding(reason) => {
                "Failed to encode the query parameters: ".to_owned().concat(reason.as_str())
            },
        }
    }
}

} // verus!
