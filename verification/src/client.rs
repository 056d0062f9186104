//! The client: a base address and settings, from which requests are described.

use vstd::prelude::*;
use vstd::pervasive::unreached;
use crate::address::{join_url, parse_url, scheme_of_url, url_join, url_parse, url_scheme};
use vstd::string::StringExecFns;
use crate::encoding::{
    base64_encode, base64_standard, debug_quote, debug_quoted, encode_form, form_urlencoded,
    pairs_text,
};
use crate::exception::{BuildError, BuildErrorView};
use crate::hooks::{RequestHook, ResponseHook};
use crate::interval::Interval;
use crate::response::HttpResponse;
use crate::request::{clone_json, text_of, Method, RequestDescriptor, RequestView, AUTHORIZATION};

verus! {

/// Seconds allowed for one request, from connecting to the end of the response body.
pub const DEFAULT_TIMEOUT_SECS: u64 = 30;

/// Where `path` leads from `base`: the joined URL, unless joining fails or the joined URL
/// has the scheme `http`.
pub open spec fn resolve(base: Seq<char>, path: Seq<char>) -> Result<Seq<char>, BuildErrorView> {
    match url_join(base, path) {
        Err(reason) => Err(BuildErrorView::InvalidUrl(reason)),
        Ok(url) => match url_scheme(url) {
            Err(reason) => Err(BuildErrorView::InvalidUrl(reason)),
            Ok(scheme) => if scheme == "http"@ {
                Err(BuildErrorView::HttpScheme)
            } else {
                Ok(url)
            },
        },
    }
}

/// The value of the credentials header for a user name and a password: `Basic`, a space,
/// and the base64 form of the name, a colon and the password.
pub open spec fn basic_credentials(username: Seq<char>, password: Seq<char>) -> Seq<char> {
    "Basic "@ + base64_standard(username + ":"@ + password)
}

/// The value of the credentials header for a token: `Bearer`, a space, and the token in
/// double quotes with escapes.
pub open spec fn bearer_credentials(token: Seq<char>) -> Seq<char> {
    "Bearer "@ + debug_quoted(token)
}

/// The query that a request carries for the given parameters: none where there are no
/// parameters, else their encoded form, or the reason they cannot be encoded.
pub open spec fn query_for(query_params: Option<Seq<(Seq<char>, Seq<char>)>>) -> Result<
    Option<Seq<char>>,
    BuildErrorView,
> {
    match query_params {
        None => Ok(None),
        Some(pairs) => match form_urlencoded(pairs) {
            Ok(encoded) => Ok(Some(encoded)),
            Err(reason) => Err(BuildErrorView::QueryEncoding(reason)),
        },
    }
}

/// The file that a request streams as its body: `filename`, where both it and `form_data`
/// are given, whatever `form_data` holds.
pub open spec fn upload_for(form_data: Option<bool>, filename: Option<Seq<char>>) -> Option<
    Seq<char>,
> {
    if form_data is Some {
        filename
    } else {
        None
    }
}

/// The texts of an optional list of pairs.
pub open spec fn optional_pairs_text(pairs: Option<&Vec<(String, String)>>) -> Option<
    Seq<(Seq<char>, Seq<char>)>,
> {
    match pairs {
        Some(list) => Some(pairs_text(list@)),
        None => None,
    }
}

/// The value behind an optional reference.
pub open spec fn optional_value<T>(value: Option<&T>) -> Option<T> {
    match value {
        Some(v) => Some(*v),
        None => None,
    }
}

/// The text behind an optional string slice.
pub open spec fn optional_text(text: Option<&str>) -> Option<Seq<char>> {
    match text {
        Some(s) => Some(s@),
        None => None,
    }
}

/// `result` is `expected`, text for text.
pub open spec fn resolved_as(
    result: Result<String, BuildError>,
    expected: Result<Seq<char>, BuildErrorView>,
) -> bool {
    match result {
        Ok(url) => expected == Ok::<Seq<char>, BuildErrorView>(url@),
        Err(error) => expected == Err::<Seq<char>, BuildErrorView>(error@),
    }
}

/// `result` is `expected`, part for part.
pub open spec fn built_as(
    result: Result<RequestDescriptor, BuildError>,
    expected: Result<RequestView, BuildErrorView>,
) -> bool {
    match result {
        Ok(request) => expected == Ok::<RequestView, BuildErrorView>(request@),
        Err(error) => expected == Err::<RequestView, BuildErrorView>(error@),
    }
}

/// A client for one base address.
pub struct HttpRequest {
    base_url: String,
    timeout: Interval,
    logging: bool,
    request_hook: Option<Box<dyn RequestHook>>,
    response_hook: Option<Box<dyn ResponseHook>>,
}

impl HttpRequest {
    /// The base address, as URL text.
    pub closed spec fn base_url(self) -> Seq<char> {
        self.base_url@
    }

    /// The time allowed for each request.
    pub closed spec fn timeout(self) -> Interval {
        self.timeout
    }

    /// Whether requests and responses are to be logged.
    pub closed spec fn logging(self) -> bool {
        self.logging
    }

    /// Whether a request hook is set.
    pub closed spec fn has_request_hook(self) -> bool {
        self.request_hook is Some
    }

    /// Whether a response hook is set.
    pub closed spec fn has_response_hook(self) -> bool {
        self.response_hook is Some
    }

    /// The plain request that this client describes for `method` and `path`, or why it
    /// describes none.
    pub open spec fn plain_request(self, method: Method, path: Seq<char>) -> Result<
        RequestView,
        BuildErrorView,
    > {
        match resolve(self.base_url(), path) {
            Ok(url) => Ok(RequestView::plain(method, url, self.timeout())),
            Err(error) => Err(error),
        }
    }

    /// Whether `path` leads to an address that requests may go to.
    pub open spec fn accepts(self, path: Seq<char>) -> bool {
        resolve(self.base_url(), path) is Ok
    }

    /// A client for `base_url`, with a time limit of 30 seconds and no hooks.
    pub fn new(base_url: &str, logging: bool) -> (client: HttpRequest)
        requires
            url_parse(base_url@) is Ok,
        ensures
            client.base_url() == url_parse(base_url@)->Ok_0,
            client.timeout() == (Interval { secs: 30, nanos: 0 }),
            client.logging() == logging,
            !client.has_request_hook(),
            !client.has_response_hook(),
    {
        match parse_url(base_url) {
            Ok(url) => HttpRequest {
                base_url: url,
                timeout: Interval::from_secs(DEFAULT_TIMEOUT_SECS),
                logging,
                request_hook: None,
                response_hook: None,
            },
            Err(_) => unreached(),
        }
    }

    /// A client for `base_url` as [`HttpRequest::new`] makes it, or the reason `base_url` is
    /// not an absolute URL.
    pub fn try_new(base_url: &str, logging: bool) -> (result: Result<HttpRequest, BuildError>)
        ensures
            match result {
                Ok(client) => {
                    &&& url_parse(base_url@) == Ok::<Seq<char>, Seq<char>>(client.base_url())
                    &&& client.timeout() == (Interval { secs: 30, nanos: 0 })
                    &&& client.logging() == logging
                    &&& !client.has_request_hook()
                    &&& !client.has_response_hook()
                },
                Err(error) => {
                    &&& error matches BuildError::InvalidBaseUrl(reason)
                    &&& url_parse(base_url@) == Err::<Seq<char>, Seq<char>>(reason@)
                },
            },
    {
        match parse_url(base_url) {
            Ok(_) => Ok(HttpRequest::new(base_url, logging)),
            Err(reason) => Err(BuildError::InvalidBaseUrl(reason)),
        }
    }

    /// The base address, as URL text.
    pub fn get_base_url(&self) -> (url: &str)
        ensures
            url@ == self.base_url(),
    {
        self.base_url.as_str()
    }

    /// The time allowed for each request.
    pub fn get_timeout(&self) -> (timeout: Interval)
        ensures
            timeout == self.timeout(),
    {
        self.timeout
    }

    /// Whether requests and responses are to be logged.
    pub fn is_logging(&self) -> (logging: bool)
        ensures
            logging == self.logging(),
    {
        self.logging
    }

    /// Sets the hook that sees each request once it is described.
    pub fn set_request_hook(&mut self, request_hook: Box<dyn RequestHook>)
        ensures
            final(self).has_request_hook(),
            final(self).base_url() == old(self).base_url(),
            final(self).timeout() == old(self).timeout(),
            final(self).logging() == old(self).logging(),
            final(self).has_response_hook() == old(self).has_response_hook(),
    {
        self.request_hook = Some(request_hook);
    }

    /// Sets the hook that sees each response.
    pub fn set_response_hook(&mut self, response_hook: Box<dyn ResponseHook>)
        ensures
            final(self).has_response_hook(),
            final(self).base_url() == old(self).base_url(),
            final(self).timeout() == old(self).timeout(),
            final(self).logging() == old(self).logging(),
            final(self).has_request_hook() == old(self).has_request_hook(),
    {
        self.response_hook = Some(response_hook);
    }

    /// Where `path` leads from the base address, or why requests may not go there.
    pub fn resolve_path(&self, path: &str) -> (result: Result<String, BuildError>)
        ensures
            resolved_as(result, resolve(self.base_url(), path@)),
    {
        match join_url(self.base_url.as_str(), path) {
            Err(reason) => Err(BuildError::InvalidUrl(reason)),
            Ok(url) => match scheme_of_url(url.as_str()) {
                Err(reason) => Err(BuildError::InvalidUrl(reason)),
                Ok(scheme) => {
                    let http = "http".to_owned();
                    if scheme == http {
                        Err(BuildError::HttpScheme)
                    } else {
                        Ok(url)
                    }
                },
            },
        }
    }

    /// Describes the plain request for `method` to `path`, and shows it to the request
    /// hook, if one is set.
    pub fn build_request(&self, method: Method, path: &str) -> (request: RequestDescriptor)
        requires
            self.accepts(path@),
        ensures
            Ok::<RequestView, BuildErrorView>(request@) == self.plain_request(method, path@),
    {
        match self.resolve_path(path) {
            Ok(url) => {
                let request = RequestDescriptor::new(method, url, self.timeout);
                if let Some(request_hook) = &self.request_hook {
                    request_hook.apply(&request);
                }
                request
            },
            Err(_) => unreached(),
        }
    }

    /// Describes a `GET` request to `path`.
    pub fn get(&self, path: &str) -> (request: RequestDescriptor)
        requires
            self.accepts(path@),
        ensures
            Ok::<RequestView, BuildErrorView>(request@) == self.plain_request(Method::Get, path@),
    {
        self.build_request(Method::Get, path)
    }

    /// Describes a `POST` request to `path`.
    pub fn post(&self, path: &str) -> (request: RequestDescriptor)
        requires
            self.accepts(path@),
        ensures
            Ok::<RequestView, BuildErrorView>(request@) == self.plain_request(Method::Post, path@),
    {
        self.build_request(Method::Post, path)
    }

    /// Describes a `DELETE` request to `path`.
    pub fn delete(&self, path: &str) -> (request: RequestDescriptor)
        requires
            self.accepts(path@),
        ensures
            Ok::<RequestView, BuildErrorView>(request@) == self.plain_request(
                Method::Delete,
                path@,
            ),
    {
        self.build_request(Method::Delete, path)
    }

    /// Describes a `PATCH` request to `path`.
    pub fn patch(&self, path: &str) -> (request: RequestDescriptor)
        requires
            self.accepts(path@),
        ensures
            Ok::<RequestView, BuildErrorView>(request@) == self.plain_request(Method::Patch, path@),
    {
        self.build_request(Method::Patch, path)
    }

    /// Describes a `PUT` request to `path`.
    pub fn put(&self, path: &str) -> (request: RequestDescriptor)
        requires
            self.accepts(path@),
        ensures
            Ok::<RequestView, BuildErrorView>(request@) == self.plain_request(Method::Put, path@),
    {
        self.build_request(Method::Put, path)
    }

    /// Describes the plain request for `method` to `path`, or says why requests may not go
    /// to `path`.
    pub fn try_request(&self, method: Method, path: &str) -> (result: Result<
        RequestDescriptor,
        BuildError,
    >)
        ensures
            built_as(result, self.plain_request(method, path@)),
    {
        match self.resolve_path(path) {
            Err(error) => Err(error),
            Ok(_) => Ok(
                match method {
                    Method::Get => self.get(path),
                    Method::Post => self.post(path),
                    Method::Delete => self.delete(path),
                    Method::Patch => self.patch(path),
                    Method::Put => self.put(path),
                    _ => self.build_request(method, path),
                },
            ),
        }
    }

    /// The request with credentials that this client describes, or why it describes none.
    pub open spec fn authorized_request(self, method: Method, path: Seq<char>, credentials: Seq<char>) -> Result<
        RequestView,
        BuildErrorView,
    > {
        match self.plain_request(method, path) {
            Ok(plain) => Ok(plain.with_header(AUTHORIZATION@, credentials)),
            Err(error) => Err(error),
        }
    }

    /// The request that this client describes for the given parts, or why it describes
    /// none: the plain request, then the query, the JSON body, the headers and the file.
    pub open spec fn prepared_request(
        self,
        method: Method,
        path: Seq<char>,
        query_params: Option<Seq<(Seq<char>, Seq<char>)>>,
        json_body: Option<serde_json::Value>,
        headers: Option<Seq<(Seq<char>, Seq<char>)>>,
        form_data: Option<bool>,
        filename: Option<Seq<char>>,
    ) -> Result<RequestView, BuildErrorView> {
        match self.plain_request(method, path) {
            Err(error) => Err(error),
            Ok(plain) => match query_for(query_params) {
                Err(error) => Err(error),
                Ok(query) => Ok(
                    RequestView {
                        query,
                        json_body,
                        file_body: upload_for(form_data, filename),
                        ..match headers {
                            Some(pairs) => plain.with_headers(pairs),
                            None => plain,
                        }
                    },
                ),
            },
        }
    }

    /// Describes a request to `path` that carries `username` and `password` as basic
    /// credentials.
    pub fn basic_auth(&self, method: Method, username: &str, password: &str, path: &str) -> (request:
        RequestDescriptor)
        requires
            self.accepts(path@),
        ensures
            Ok::<RequestView, BuildErrorView>(request@) == self.authorized_request(
                method,
                path@,
                basic_credentials(username@, password@),
            ),
    {
        let pair = username.to_owned().concat(":").concat(password);
        let encoded = base64_encode(pair.as_str());
        let credentials = "Basic ".to_owned().concat(encoded.as_str());
        self.build_request(method, path).header(AUTHORIZATION, credentials.as_str())
    }

    /// Describes a request to `path` that carries `token` as bearer credentials.
    pub fn bearer_token(&self, method: Method, token: &str, path: &str) -> (request: RequestDescriptor)
        requires
            self.accepts(path@),
        ensures
            Ok::<RequestView, BuildErrorView>(request@) == self.authorized_request(
                method,
                path@,
                bearer_credentials(token@),
            ),
    {
        let quoted = debug_quote(token);
        let credentials = "Bearer ".to_owned().concat(quoted.as_str());
        self.build_request(method, path).header(AUTHORIZATION, credentials.as_str())
    }

    /// Describes a request to `path` with a query, a JSON body, headers and a file to
    /// stream, each where given. The file is taken where both `form_data` and `filename`
    /// are given, whatever `form_data` holds.
    pub fn prepare_request(
        &self,
        method: Method,
        path: &str,
        query_params: Option<&Vec<(String, String)>>,
        json_body: Option<&serde_json::Value>,
        headers: Option<&Vec<(String, String)>>,
        form_data: Option<&bool>,
        filename: Option<&str>,
    ) -> (request: RequestDescriptor)
        requires
            self.accepts(path@),
            query_for(optional_pairs_text(query_params)) is Ok,
        ensures
            Ok::<RequestView, BuildErrorView>(request@) == self.prepared_request(
                method,
                path@,
                optional_pairs_text(query_params),
                optional_value(json_body),
                optional_pairs_text(headers),
                optional_value(form_data),
                optional_text(filename),
            ),
    {
        let mut request = self.build_request(method, path);
        if let Some(params) = query_params {
            match encode_form(params) {
                Ok(encoded) => {
                    request.query = Some(encoded);
                },
                Err(_) => unreached(),
            }
        }
        if let Some(body) = json_body {
            request.json_body = Some(clone_json(body));
        }
        if let Some(pairs) = headers {
            request = request.headers(pairs);
        }
        if let (Some(_), Some(name)) = (form_data, filename) {
            request.file_body = Some(name.to_owned());
        }
        request
    }

    /// Describes the request that [`HttpRequest::basic_auth`] describes, or says why
    /// requests may not go to `path`.
    pub fn try_basic_auth(&self, method: Method, username: &str, password: &str, path: &str) -> (result:
        Result<RequestDescriptor, BuildError>)
        ensures
            built_as(
                result,
                self.authorized_request(method, path@, basic_credentials(username@, password@)),
            ),
    {
        match self.resolve_path(path) {
            Err(error) => Err(error),
            Ok(_) => Ok(self.basic_auth(method, username, password, path)),
        }
    }

    /// Describes the request that [`HttpRequest::bearer_token`] describes, or says why
    /// requests may not go to `path`.
    pub fn try_bearer_token(&self, method: Method, token: &str, path: &str) -> (result: Result<
        RequestDescriptor,
        BuildError,
    >)
        ensures
            built_as(result, self.authorized_request(method, path@, bearer_credentials(token@))),
    {
        match self.resolve_path(path) {
            Err(error) => Err(error),
            Ok(_) => Ok(self.bearer_token(method, token, path)),
        }
    }

    /// Describes the request that [`HttpRequest::prepare_request`] describes, or says why
    /// requests may not go to `path`, or why the query parameters cannot be encoded.
    pub fn try_prepare_request(
        &self,
        method: Method,
        path: &str,
        query_params: Option<&Vec<(String, String)>>,
        json_body: Option<&serde_json::Value>,
        headers: Option<&Vec<(String, String)>>,
        form_data: Option<&bool>,
        filename: Option<&str>,
    ) -> (result: Result<RequestDescriptor, BuildError>)
        ensures
            built_as(
                result,
                self.prepared_request(
                    method,
                    path@,
                    optional_pairs_text(query_params),
                    optional_value(json_body),
                    optional_pairs_text(headers),
                    optional_value(form_data),
                    optional_text(filename),
                ),
            ),
    {
        match self.resolve_path(path) {
            Err(error) => Err(error),
            Ok(_) => {
                if let Some(params) = query_params {
                    if let Err(reason) = encode_form(params) {
                        return Err(BuildError::QueryEncoding(reason));
                    }
                }
                Ok(
                    self.prepare_request(
                        method,
                        path,
                        query_params,
                        json_body,
                        headers,
                        form_data,
                        filename,
                    ),
                )
            },
        }
    }

    /// Shows `response` to the response hook, if one is set.
    pub fn show_response(&self, response: &HttpResponse) {
        if let Some(response_hook) = &self.response_hook {
            response_hook.apply(response);
        }
    }
}

} // verus!
