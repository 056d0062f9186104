//! What a transport hands back for a request that was answered.

use vstd::prelude::*;
use crate::request::{Header, HeaderView};

verus! {

/// An HTTP response, read to its end.
#[derive(Debug, PartialEq, Eq)]
pub struct HttpResponse {
    /// The status code, such as 200.
    pub status_code: u16,
    /// The body as text.
    pub response_body: String,
    /// The headers, in the order received.
    pub headers: Vec<Header>,
}

/// An [`HttpResponse`] as plain values.
pub struct HttpResponseView {
    pub status_code: u16,
    pub response_body: Seq<char>,
    pub headers: Seq<HeaderView>,
}

impl View for HttpResponse {
    type V = HttpResponseView;

    open spec fn view(&self) -> HttpResponseView {
        HttpResponseView {
            status_code: self.status_code,
            response_body: self.response_body@,
            headers: self.headers.deep_view(),
        }
    }
}

} // verus!
