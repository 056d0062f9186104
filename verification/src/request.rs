//! The description of one HTTP request, as plain data that a transport can send.

use vstd::prelude::*;
use crate::interval::Interval;

verus! {

/// A parsed JSON document of `serde_json`. Nothing here looks inside one: it is carried
/// from the caller to the transport.
#[verifier::external_type_specification]
#[verifier::external_body]
pub struct ExJsonValue(serde_json::Value);

/// Calls `Clone::clone` of `serde_json::Value`. Trusted: the copy equals the value it was made from.
#[verifier::external_body]
pub(crate) fn clone_json(value: &serde_json::Value) -> (copy: serde_json::Value)
    ensures
        copy == *value,
{
    value.clone()
}

/// The name of the header that carries credentials.
pub const AUTHORIZATION: &'static str = "authorization";

/// An HTTP request method.
#[derive(Clone, Copy, Debug, PartialEq, Eq, Structural)]
pub enum Method {
    Get,
    Post,
    Put,
    Delete,
    Head,
    Options,
    Connect,
    Patch,
    Trace,
}

/// One header: its name and its value.
#[derive(Debug, PartialEq, Eq)]
pub struct Header {
    pub name: String,
    pub value: String,
}

/// A [`Header`] as plain text.
pub struct HeaderView {
    pub name: Seq<char>,
    pub value: Seq<char>,
}

impl View for Header {
    type V = HeaderView;

    open spec fn view(&self) -> HeaderView {
        HeaderView { name: self.name@, value: self.value@ }
    }
}

/// Everything that makes up one request, before it is sent.
///
/// A transport applies the parts in the order of the fields: method and address, the time
/// limit, the query, the JSON body, the headers in their order, and last the file, which
/// replaces the body where both are given.
#[derive(Debug, PartialEq)]
pub struct RequestDescriptor {
    /// The request method.
    pub method: Method,
    /// The absolute address, as URL text.
    pub url: String,
    /// The time allowed from connecting to the end of the response body.
    pub timeout: Interval,
    /// The encoded query to hand to the transport.
    pub query: Option<String>,
    /// The document to send as JSON body.
    pub json_body: Option<serde_json::Value>,
    /// The headers to add, in order.
    pub headers: Vec<Header>,
    /// The path of a file whose content is streamed as the body.
    pub file_body: Option<String>,
}

/// A [`RequestDescriptor`] as plain values.
pub struct RequestView {
    pub method: Method,
    pub url: Seq<char>,
    pub timeout: Interval,
    pub headers: Seq<HeaderView>,
    pub query: Option<Seq<char>>,
    pub json_body: Option<serde_json::Value>,
    pub file_body: Option<Seq<char>>,
}

/// The text of an optional string.
pub open spec fn text_of(text: Option<String>) -> Option<Seq<char>> {
    match text {
        Some(s) => Some(s@),
        None => None,
    }
}

impl View for RequestDescriptor {
    type V = RequestView;

    open spec fn view(&self) -> RequestView {
        RequestView {
            method: self.method,
            url: self.url@,
            timeout: self.timeout,
            headers: self.headers.deep_view(),
            query: text_of(self.query),
            json_body: self.json_body,
            file_body: text_of(self.file_body),
        }
    }
}

impl DeepView for Header {
    type V = HeaderView;

    open spec fn deep_view(&self) -> HeaderView {
        self@
    }
}

impl RequestView {
    /// A request with a method, an address and a time limit, and nothing else.
    pub open spec fn plain(method: Method, url: Seq<char>, timeout: Interval) -> RequestView {
        RequestView {
            method,
            url,
            timeout,
            headers: Seq::empty(),
            query: None,
            json_body: None,
            file_body: None,
        }
    }

    /// This request with the headers `pairs`, as names and values, after those it has.
    pub open spec fn with_headers(self, pairs: Seq<(Seq<char>, Seq<char>)>) -> RequestView {
        RequestView {
            headers: self.headers + pairs.map_values(
                |pair: (Seq<char>, Seq<char>)| HeaderView { name: pair.0, value: pair.1 },
            ),
            ..self
        }
    }

    /// This request with one more header after those it has.
    pub open spec fn with_header(self, name: Seq<char>, value: Seq<char>) -> RequestView {
        RequestView { headers: self.headers.push(HeaderView { name, value }), ..self }
    }
}

impl RequestDescriptor {
    /// A request with a method, an address and a time limit, and nothing else.
    pub fn new(method: Method, url: String, timeout: Interval) -> (request: RequestDescriptor)
        ensures
            request@ == RequestView::plain(method, url@, timeout),
    {
        let request = RequestDescriptor {
            method,
            url,
            timeout,
            headers: Vec::new(),
            query: None,
            json_body: None,
            file_body: None,
        };
        assert(request.headers.deep_view() =~= Seq::empty());
        request
    }

    /// Adds a header after those already there.
    pub fn header(self, name: &str, value: &str) -> (request: RequestDescriptor)
        ensures
            request@ == self@.with_header(name@, value@),
    {
        let mut request = self;
        let ghost before = request.headers.deep_view();
        request.headers.push(Header { name: name.to_owned(), value: value.to_owned() });
        assert(request.headers.deep_view() =~= before.push(
            HeaderView { name: name@, value: value@ },
        ));
        request
    }
}

impl RequestDescriptor {
    /// Adds the headers `pairs`, as names and values, after those already there.
    pub fn headers(self, pairs: &Vec<(String, String)>) -> (request: RequestDescriptor)
        ensures
            request@ == self@.with_headers(crate::encoding::pairs_text(pairs@)),
    {
        let ghost start = self@;
        let ghost all = crate::encoding::pairs_text(pairs@);
        let mut request = self;
        let mut i: usize = 0;
        assert(start.with_headers(all.take(0)) == start) by {
            assert(start.with_headers(all.take(0)).headers =~= start.headers);
        }
        while i < pairs.len()
            invariant
                i <= pairs.len(),
                all == crate::encoding::pairs_text(pairs@),
                request@ == start.with_headers(all.take(i as int)),
            decreases pairs.len() - i,
        {
            let pair = &pairs[i];
            request = request.header(pair.0.as_str(), pair.1.as_str());
            assert(start.with_headers(all.take(i as int)).with_header(pair.0@, pair.1@)
                == start.with_headers(all.take(i + 1))) by {
                assert(all[i as int] == (pair.0@, pair.1@));
                assert(all.take(i + 1) =~= all.take(i as int).push(all[i as int]));
                assert(start.with_headers(all.take(i as int)).with_header(pair.0@, pair.1@).headers
                    =~= start.with_headers(all.take(i + 1)).headers);
            }
            i = i + 1;
        }
        assert(all.take(pairs.len() as int) =~= all);
        request
    }
}

} // verus!
