//! Callbacks around the sending of a request.

use vstd::prelude::*;
use vstd::string::StringExecFns;
use crate::request::RequestDescriptor;
use crate::response::HttpResponse;

verus! {

/// Called with each request once it is described, before it is sent.
pub trait RequestHook {
    fn apply(&self, request: &RequestDescriptor);
}

/// Called with each response, after the request was answered.
pub trait ResponseHook {
    fn apply(&self, response: &HttpResponse);
}

/// Announces each request before it is sent.
pub struct HttpRequestHook;

/// Announces each response after it arrived.
pub struct HttpResponseHook;

impl HttpRequestHook {
    /// The line that announces a request, given the request written out as text.
    pub fn message(&self, request: &str) -> (line: String)
        ensures
            line@ == "Request hook before sending the request: "@ + request@,
    {
        "Request hook before sending the request: ".to_owned().concat(request)
    }
}

impl HttpResponseHook {
    /// The line that announces a response, given the response written out as text.
    pub fn message(&self, response: &str) -> (line: String)
        ensures
            line@ == "Response hook after sending the request: "@ + response@,
    {
        "Response hook after sending the request: ".to_owned().concat(response)
    }
}

} // verus!
