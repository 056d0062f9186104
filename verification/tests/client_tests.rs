use rs_http_request::{
    format_record, BuildError, Header, HttpRequest, HttpRequestError, HttpRequestHook,
    HttpResponse, HttpResponseHook, Interval, Method, RequestDescriptor, RequestHook,
    ResponseHook, RetryError, AUTHORIZATION, DATE_FORMAT,
};
use std::cell::{Cell, RefCell};
use std::rc::Rc;

#[derive(Debug, Clone, PartialEq, Eq)]
enum TransportError {
    Timeout,
    NoSuchFile(String),
}

fn response(status_code: u16, body: &str) -> HttpResponse {
    HttpResponse {
        status_code,
        response_body: body.to_string(),
        headers: vec![Header {
            name: "content-type".to_string(),
            value: "application/json".to_string(),
        }],
    }
}

/// Answers 200 to every request, but cannot open a file without a name.
fn answer(request: RequestDescriptor) -> Result<HttpResponse, TransportError> {
    match request.file_body {
        Some(name) if name.is_empty() => Err(TransportError::NoSuchFile(name)),
        _ => Ok(response(200, "{\"id\": 1}")),
    }
}

fn pairs(list: &[(&str, &str)]) -> Vec<(String, String)> {
    list.iter().map(|(k, v)| (k.to_string(), v.to_string())).collect()
}

fn title_foobar() -> serde_json::Value {
    let mut map = serde_json::Map::new();
    map.insert("title".to_string(), serde_json::Value::String("foobar".to_string()));
    serde_json::Value::Object(map)
}

#[test]
fn test_send_request() {
    let base_url = "https://jsonplaceholder.typicode.com";
    let request = HttpRequest::new(base_url, false);
    let get_request = request.get("/posts/1");
    assert_eq!(get_request.method, Method::Get);
    assert_eq!(get_request.url, "https://jsonplaceholder.typicode.com/posts/1");
    assert_eq!(get_request.timeout, Interval { secs: 30, nanos: 0 });
    assert!(get_request.headers.is_empty());
    assert_eq!(get_request.query, None);
    assert_eq!(get_request.json_body, None);
    assert_eq!(get_request.file_body, None);
    let response = request.send_request(get_request, &answer);
    assert!(response.is_ok());
}

#[test]
fn test_failure_request() {
    let base_url = "https://jsonplaceholder.typicode.com";
    let request = HttpRequest::new(base_url, false);
    let req_payload = title_foobar();
    let post_request = request.prepare_request(
        Method::Post,
        "/post",
        None,
        Some(&req_payload),
        None,
        Some(&false),
        Some(""),
    );
    assert_eq!(post_request.method, Method::Post);
    assert_eq!(post_request.url, "https://jsonplaceholder.typicode.com/post");
    assert_eq!(post_request.json_body, Some(title_foobar()));
    assert_eq!(post_request.file_body, Some(String::new()));
    let sent = request.send_request(post_request, &answer);
    assert!(sent.is_err());
}

#[test]
fn test_custom_headers() {
    let base_url = "https://jsonplaceholder.typicode.com";
    let request = HttpRequest::new(base_url, true);
    assert!(request.is_logging());
    let custom_headers = pairs(&[("key", "value1")]);
    let prepared = request.prepare_request(
        Method::Get,
        "/posts",
        None,
        None,
        Some(&custom_headers),
        Some(&false),
        Some(""),
    );
    assert_eq!(
        prepared.headers,
        vec![Header { name: "key".to_string(), value: "value1".to_string() }]
    );
    assert_eq!(prepared.file_body, Some(String::new()));
    let response = request.send_request(prepared, &answer);
    assert!(response.is_err());
}

#[test]
fn test_delete_existing_records() {
    let base_url = "https://jsonplaceholder.typicode.com";
    let del_request = HttpRequest::new(base_url, false);
    let described = del_request.delete("/posts/1");
    assert_eq!(described.method, Method::Delete);
    assert_eq!(described.url, "https://jsonplaceholder.typicode.com/posts/1");
    let response = del_request.send_request(described, &answer);
    assert!(response.is_ok());
}

#[test]
fn test_basic_auth() {
    let base_url = "https://httpbin.org/basic-auth/user/passwd";
    let request = HttpRequest::new(base_url, false);
    let username = "user";
    let password = "passwd";
    let mut described = request.basic_auth(Method::Get, username, password, "");
    described.timeout = Interval { secs: 5, nanos: 0 };
    assert_eq!(described.url, "https://httpbin.org/basic-auth/user/passwd");
    assert_eq!(
        described.headers,
        vec![Header {
            name: "authorization".to_string(),
            value: "Basic dXNlcjpwYXNzd2Q=".to_string(),
        }]
    );
    let response = request.send_request(described, &answer);
    assert!(response.is_ok());
}

#[test]
fn test_request_retry() {
    let base_url = "https://httpbin.org/status/";
    let request = HttpRequest::new(base_url, true);
    let max_retries = 3;
    let backoff = Interval { secs: 3, nanos: 0 };
    let pauses = Cell::new(0usize);
    let urls: RefCell<Vec<String>> = RefCell::new(Vec::new());
    let status_500 = |described: RequestDescriptor| -> Result<HttpResponse, TransportError> {
        urls.borrow_mut().push(described.url);
        Ok(response(500, ""))
    };

    let answered = request.retry_request_builder(
        || request.get("500"),
        &status_500,
        |_| pauses.set(pauses.get() + 1),
        Some(max_retries),
        Some(backoff),
    );
    let resp_body = answered.unwrap();
    assert_eq!(resp_body.status_code, 500);
    assert_eq!(*urls.borrow(), vec!["https://httpbin.org/status/500".to_string()]);
    assert_eq!(pauses.get(), 0);
}

#[test]
fn test_retry_builds_a_new_request_for_each_attempt() {
    let request = HttpRequest::new("https://example.com/api/", false);
    let built = Cell::new(0usize);
    let sent = Cell::new(0usize);
    let pauses: RefCell<Vec<Interval>> = RefCell::new(Vec::new());
    let failing = |_: RequestDescriptor| -> Result<HttpResponse, TransportError> {
        sent.set(sent.get() + 1);
        Err(TransportError::Timeout)
    };
    let outcome = request.retry_request_builder(
        || {
            built.set(built.get() + 1);
            request.post("items")
        },
        &failing,
        |pause| pauses.borrow_mut().push(pause),
        Some(3),
        Some(Interval::from_millis(100)),
    );
    match outcome {
        Err(RetryError::RetriesExhausted(HttpRequestError::RequestBuilderError(error))) => {
            assert_eq!(error, TransportError::Timeout);
        },
        other => panic!("unexpected outcome: {:?}", other),
    }
    assert_eq!(built.get(), 3);
    assert_eq!(sent.get(), 3);
    assert_eq!(*pauses.borrow(), vec![Interval::from_millis(100), Interval::from_millis(100)]);
}

#[test]
fn test_methods_and_joined_addresses() {
    let client = HttpRequest::new("https://example.com/v1/", false);
    assert_eq!(client.get_base_url(), "https://example.com/v1/");
    assert_eq!(client.get_timeout(), Interval { secs: 30, nanos: 0 });
    assert!(!client.is_logging());
    assert_eq!(client.get("users").method, Method::Get);
    assert_eq!(client.post("users").method, Method::Post);
    assert_eq!(client.put("users").method, Method::Put);
    assert_eq!(client.patch("users").method, Method::Patch);
    assert_eq!(client.delete("users").method, Method::Delete);
    assert_eq!(client.get("users").url, "https://example.com/v1/users");
    assert_eq!(client.get("/users").url, "https://example.com/users");
    assert_eq!(client.get("https://other.example/x").url, "https://other.example/x");
    assert_eq!(client.build_request(Method::Head, "a/b").method, Method::Head);
    assert_eq!(client.build_request(Method::Head, "a/b").url, "https://example.com/v1/a/b");

    let bare = HttpRequest::new("https://example.com", false);
    assert_eq!(bare.get_base_url(), "https://example.com/");
}

#[test]
fn test_try_request_matches_the_plain_functions() {
    let client = HttpRequest::new("https://example.com/v1/", false);
    for method in [
        Method::Get,
        Method::Post,
        Method::Put,
        Method::Delete,
        Method::Head,
        Method::Options,
        Method::Connect,
        Method::Patch,
        Method::Trace,
    ] {
        let described = client.try_request(method, "things").unwrap();
        assert_eq!(described, client.build_request(method, "things"));
        assert_eq!(described.method, method);
    }
}

#[test]
fn test_rejected_addresses() {
    match HttpRequest::try_new("jsonplaceholder.typicode.com", false) {
        Err(BuildError::InvalidBaseUrl(reason)) => assert_eq!(reason, "RelativeUrlWithoutBase"),
        _ => panic!("a relative base address was accepted"),
    }
    assert!(HttpRequest::try_new("https://example.com", true).is_ok());

    let client = HttpRequest::new("https://example.com", false);
    assert_eq!(client.try_request(Method::Get, "http://example.com/x"), Err(BuildError::HttpScheme));
    assert_eq!(client.resolve_path("http://example.com/x"), Err(BuildError::HttpScheme));
    assert_eq!(
        client.try_request(Method::Get, "https://example.com:99999/"),
        Err(BuildError::InvalidUrl("InvalidPort".to_string()))
    );
    assert_eq!(
        client.try_basic_auth(Method::Get, "u", "p", "http://example.com/"),
        Err(BuildError::HttpScheme)
    );
    assert_eq!(
        client.try_bearer_token(Method::Get, "t", "http://example.com/"),
        Err(BuildError::HttpScheme)
    );
    assert_eq!(
        client.try_prepare_request(Method::Get, "http://example.com/", None, None, None, None, None),
        Err(BuildError::HttpScheme)
    );
    assert_eq!(client.resolve_path("ok"), Ok("https://example.com/ok".to_string()));

    let plain = HttpRequest::new("http://example.com", false);
    assert_eq!(plain.try_request(Method::Get, "x"), Err(BuildError::HttpScheme));
    assert!(plain.try_request(Method::Get, "https://example.com/x").is_ok());
}

#[test]
fn test_error_messages() {
    assert_eq!(
        BuildError::InvalidBaseUrl("EmptyHost".to_string()).message(),
        "Given the invalid argument for Base URL: EmptyHost"
    );
    assert_eq!(
        BuildError::InvalidUrl("InvalidPort".to_string()).message(),
        "Given the invalid argument for URL: InvalidPort"
    );
    assert_eq!(BuildError::HttpScheme.message(), "HTTP scheme currently is not allowed");
    assert_eq!(
        BuildError::QueryEncoding("Custom(\"unsupported pair\")".to_string()).message(),
        "Failed to encode the query parameters: Custom(\"unsupported pair\")"
    );
}

#[test]
fn test_credentials() {
    let client = HttpRequest::new("https://httpbin.org", false);
    assert_eq!(AUTHORIZATION, "authorization");
    let bearer = client.bearer_token(Method::Get, "1234", "/bearer");
    assert_eq!(bearer.url, "https://httpbin.org/bearer");
    assert_eq!(
        bearer.headers,
        vec![Header { name: "authorization".to_string(), value: "Bearer \"1234\"".to_string() }]
    );
    let quoted = client.bearer_token(Method::Post, "a\"b\\c\n", "/bearer");
    assert_eq!(quoted.method, Method::Post);
    assert_eq!(quoted.headers[0].value, "Bearer \"a\\\"b\\\\c\\n\"");

    let basic = client.basic_auth(Method::Put, "Aladdin", "open sesame", "/x");
    assert_eq!(basic.method, Method::Put);
    assert_eq!(basic.headers[0].value, "Basic QWxhZGRpbjpvcGVuIHNlc2FtZQ==");
    let empty = client.basic_auth(Method::Get, "", "", "/x");
    assert_eq!(empty.headers[0].value, "Basic Og==");
    let wide = client.basic_auth(Method::Get, "ü", "€", "/x");
    assert_eq!(wide.headers[0].value, "Basic w7w64oKs");
    assert_eq!(
        client.try_basic_auth(Method::Put, "Aladdin", "open sesame", "/x"),
        Ok(basic)
    );
    assert_eq!(client.try_bearer_token(Method::Get, "1234", "/bearer"), Ok(bearer));
}

#[test]
fn test_prepare_request_parts() {
    let client = HttpRequest::new("https://example.com", false);
    let query = pairs(&[("key", "value1"), ("q", "a b&c"), ("é", "")]);
    let headers = pairs(&[("x-one", "1"), ("x-two", "2"), ("x-one", "3")]);
    let body = title_foobar();
    let prepared = client.prepare_request(
        Method::Patch,
        "/posts",
        Some(&query),
        Some(&body),
        Some(&headers),
        Some(&true),
        Some("upload.bin"),
    );
    assert_eq!(prepared.method, Method::Patch);
    assert_eq!(prepared.url, "https://example.com/posts");
    assert_eq!(prepared.query, Some("key=value1&q=a+b%26c&%C3%A9=".to_string()));
    assert_eq!(prepared.json_body, Some(title_foobar()));
    assert_eq!(
        prepared.headers,
        vec![
            Header { name: "x-one".to_string(), value: "1".to_string() },
            Header { name: "x-two".to_string(), value: "2".to_string() },
            Header { name: "x-one".to_string(), value: "3".to_string() },
        ]
    );
    assert_eq!(prepared.file_body, Some("upload.bin".to_string()));

    let same = client.try_prepare_request(
        Method::Patch,
        "/posts",
        Some(&query),
        Some(&body),
        Some(&headers),
        Some(&true),
        Some("upload.bin"),
    );
    assert_eq!(same, Ok(prepared));

    let none = client.prepare_request(Method::Get, "/posts", None, None, None, None, None);
    assert_eq!(none, client.get("/posts"));
    let no_flag =
        client.prepare_request(Method::Get, "/posts", None, None, None, None, Some("f.txt"));
    assert_eq!(no_flag.file_body, None);
    let no_name =
        client.prepare_request(Method::Get, "/posts", None, None, None, Some(&true), None);
    assert_eq!(no_name.file_body, None);
    let unset_flag =
        client.prepare_request(Method::Get, "/posts", None, None, None, Some(&false), Some("f"));
    assert_eq!(unset_flag.file_body, Some("f".to_string()));
    let empty_query =
        client.prepare_request(Method::Get, "/posts", Some(&Vec::new()), None, None, None, None);
    assert_eq!(empty_query.query, Some(String::new()));
}

#[test]
fn test_descriptor_builders() {
    let plain =
        RequestDescriptor::new(Method::Options, "https://e.org/".to_string(), Interval::from_secs(2));
    assert_eq!(plain.method, Method::Options);
    assert_eq!(plain.url, "https://e.org/");
    assert_eq!(plain.timeout, Interval { secs: 2, nanos: 0 });
    assert!(plain.headers.is_empty());
    let one = plain.header("a", "1");
    assert_eq!(one.headers, vec![Header { name: "a".to_string(), value: "1".to_string() }]);
    let more = one.headers(&pairs(&[("b", "2"), ("c", "3")]));
    assert_eq!(
        more.headers,
        vec![
            Header { name: "a".to_string(), value: "1".to_string() },
            Header { name: "b".to_string(), value: "2".to_string() },
            Header { name: "c".to_string(), value: "3".to_string() },
        ]
    );
    let same = RequestDescriptor::new(Method::Get, "https://e.org/".to_string(), Interval::from_secs(2))
        .headers(&Vec::new());
    assert!(same.headers.is_empty());
}

struct CountingHook {
    seen: Rc<RefCell<Vec<String>>>,
}

impl RequestHook for CountingHook {
    fn apply(&self, request: &RequestDescriptor) {
        self.seen.borrow_mut().push(request.url.clone());
    }
}

impl ResponseHook for CountingHook {
    fn apply(&self, response: &HttpResponse) {
        self.seen.borrow_mut().push(format!("{}", response.status_code));
    }
}

#[test]
fn test_hooks_see_requests_and_responses() {
    let requests = Rc::new(RefCell::new(Vec::new()));
    let responses = Rc::new(RefCell::new(Vec::new()));
    let mut client = HttpRequest::new("https://example.com", true);
    client.set_request_hook(Box::new(CountingHook { seen: requests.clone() }));
    client.set_response_hook(Box::new(CountingHook { seen: responses.clone() }));
    assert_eq!(client.get_base_url(), "https://example.com/");
    assert!(client.is_logging());

    let described = client.get("/a");
    assert_eq!(*requests.borrow(), vec!["https://example.com/a".to_string()]);
    assert!(responses.borrow().is_empty());
    let outcome = client.send_request(described, &answer);
    assert!(outcome.is_ok());
    assert_eq!(*responses.borrow(), vec!["200".to_string()]);

    let failing = |_: RequestDescriptor| -> Result<HttpResponse, TransportError> {
        Err(TransportError::Timeout)
    };
    let outcome = client.send_request(client.post("/b"), &failing);
    match outcome {
        Err(HttpRequestError::RequestBuilderError(error)) => assert_eq!(error, TransportError::Timeout),
        _ => panic!("a failed sending was reported otherwise"),
    }
    assert_eq!(requests.borrow().len(), 2);
    assert_eq!(responses.borrow().len(), 1);
}

#[test]
fn test_hook_lines() {
    assert_eq!(
        HttpRequestHook.message("GET https://example.com/"),
        "Request hook before sending the request: GET https://example.com/"
    );
    assert_eq!(
        HttpResponseHook.message("200"),
        "Response hook after sending the request: 200"
    );
    assert_eq!(HttpRequestHook.message(""), "Request hook before sending the request: ");
}

#[test]
fn test_response_getters() {
    let client = HttpRequest::new("https://example.com", false);
    assert_eq!(client.status_code(client.get("/a"), &answer).unwrap(), 200);
    assert_eq!(
        client.headers(client.get("/a"), &answer).unwrap(),
        vec![Header { name: "content-type".to_string(), value: "application/json".to_string() }]
    );
    let slow = |_: RequestDescriptor| -> Result<HttpResponse, TransportError> {
        let mut spins = 0u64;
        let started = std::time::Instant::now();
        while started.elapsed() < std::time::Duration::from_millis(20) {
            spins += 1;
        }
        assert!(spins > 0);
        Ok(response(204, ""))
    };
    let elapsed = client.elapsed_time(client.get("/a"), &slow).unwrap();
    assert!(elapsed >= std::time::Duration::from_millis(20));

    let document = client.json(client.get("/a"), &answer).unwrap();
    assert_eq!(document["id"], serde_json::Value::from(1));

    let not_json = |_: RequestDescriptor| -> Result<HttpResponse, TransportError> {
        Ok(response(200, "<html>"))
    };
    match client.json(client.get("/a"), &not_json) {
        Err(HttpRequestError::JsonError(error)) => assert!(error.is_syntax()),
        _ => panic!("a body that is no JSON was accepted"),
    }

    let failing = |_: RequestDescriptor| -> Result<HttpResponse, TransportError> {
        Err(TransportError::Timeout)
    };
    assert!(matches!(
        client.status_code(client.get("/a"), &failing),
        Err(HttpRequestError::RequestBuilderError(TransportError::Timeout))
    ));
    assert!(matches!(
        client.headers(client.get("/a"), &failing),
        Err(HttpRequestError::RequestBuilderError(TransportError::Timeout))
    ));
    assert!(matches!(
        client.elapsed_time(client.get("/a"), &failing),
        Err(HttpRequestError::RequestBuilderError(TransportError::Timeout))
    ));
    assert!(matches!(
        client.json(client.get("/a"), &failing),
        Err(HttpRequestError::RequestBuilderError(TransportError::Timeout))
    ));
}

#[test]
fn test_log_line() {
    assert_eq!(DATE_FORMAT, "%Y-%m-%dT%H:%M:%S");
    assert_eq!(
        format_record("2024-01-02T03:04:05", "INFO", "HTTP request: GET"),
        "2024-01-02T03:04:05 [INFO] - HTTP request: GET"
    );
    assert_eq!(format_record("", "", ""), " [] - ");
}
