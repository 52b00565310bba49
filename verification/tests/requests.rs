use httpcalls::text::{contains, decimal_text, joined, starts_with, trim_end, trim_start};
use httpcalls::utils::{
    downloaded_bytes, file_part, post_json_request, upload_file_request, UploadFailure,
};
use httpcalls::{
    get_http_client, BuildProfile, Headers, HttpClient, HttpError, HttpMethod, HttpResponse,
    RequestBody, RequestBuilder, RequestConfig, StoreDispatcher,
};
use wasm_bindgen::JsCast;

/// A form that stands for the browser's null value, which needs no browser.
fn form() -> web_sys::FormData {
    wasm_bindgen::JsValue::NULL.unchecked_into()
}

fn response(status: u16) -> HttpResponse {
    let mut headers = Headers::new();
    headers.insert("Content-Type".to_string(), "text/html".to_string());
    headers.insert("X-Trace".to_string(), "17".to_string());
    HttpResponse {
        status,
        headers,
        body: "caf\u{e9}".to_string(),
        url: "/page".to_string(),
        call_name: Some("page".to_string()),
    }
}

#[test]
fn text_operations() {
    assert!(contains("abcabd", "abd"));
    assert!(contains("abc", ""));
    assert!(contains("", ""));
    assert!(!contains("abc", "abcd"));
    assert!(!contains("abc", "ac"));
    assert!(starts_with("https://x", "https://"));
    assert!(!starts_with("http:/", "http://"));
    assert_eq!(trim_start("//a/b/", '/'), "a/b/");
    assert_eq!(trim_end("//a/b//", '/'), "//a/b");
    assert_eq!(trim_end("///", '/'), "");
    assert_eq!(trim_start("\u{e9}/", '/'), "\u{e9}/");
    assert_eq!(decimal_text(0), "0");
    assert_eq!(decimal_text(10), "10");
    assert_eq!(decimal_text(65535), "65535");
    assert_eq!(joined("a", "\u{e9}"), "a\u{e9}");
}

#[test]
fn headers_keep_one_value_for_a_name() {
    let mut headers = Headers::new();
    headers.insert("A".to_string(), "1".to_string());
    headers.insert("B".to_string(), "2".to_string());
    headers.insert("A".to_string(), "3".to_string());
    headers.insert("a".to_string(), "4".to_string());
    assert_eq!(headers.len(), 3);
    assert_eq!(headers.get("A"), Some(&"3".to_string()));
    assert_eq!(headers.get("a"), Some(&"4".to_string()));
    assert_eq!(headers.get("C"), None);
    assert_eq!(headers.entry(0), (&"A".to_string(), &"3".to_string()));
    assert_eq!(headers.entry(2), (&"a".to_string(), &"4".to_string()));
    assert_eq!(headers.get_ignoring_case("a"), Some(&"3".to_string()));
    let mut other = Headers::new();
    other.insert("B".to_string(), "5".to_string());
    other.insert("C".to_string(), "6".to_string());
    headers.extend(&other);
    assert_eq!(headers.len(), 4);
    assert_eq!(headers.get("B"), Some(&"5".to_string()));
    assert_eq!(headers.get("C"), Some(&"6".to_string()));
    assert_eq!(headers.clone().get("A"), Some(&"3".to_string()));
}

#[test]
fn response_headers_ignore_case() {
    let page = response(200);
    assert_eq!(page.header("content-type"), Some(&"text/html".to_string()));
    assert_eq!(page.header("CONTENT-TYPE"), Some(&"text/html".to_string()));
    assert_eq!(page.header("x-trace"), Some(&"17".to_string()));
    assert_eq!(page.header("content_type"), None);
}

#[test]
fn response_status_classes() {
    let classes = |status: u16| {
        let page = response(status);
        (page.is_success(), page.is_client_error(), page.is_server_error())
    };
    assert_eq!(classes(199), (false, false, false));
    assert_eq!(classes(200), (true, false, false));
    assert_eq!(classes(299), (true, false, false));
    assert_eq!(classes(300), (false, false, false));
    assert_eq!(classes(400), (false, true, false));
    assert_eq!(classes(499), (false, true, false));
    assert_eq!(classes(500), (false, false, true));
    assert_eq!(classes(599), (false, false, true));
    assert_eq!(classes(600), (false, false, false));
}

#[test]
fn response_json() {
    let page = response(200);
    assert_eq!(page.text(), "caf\u{e9}");
    assert_eq!(page.json(Ok(5)), Ok(5));
    let read: Result<u8, String> = serde_json::from_str("x").map_err(|e| e.to_string());
    let detail = read.clone().unwrap_err();
    assert_eq!(
        page.json(read),
        Err(HttpError::Serialization {
            message: format!("Failed to deserialize JSON: {}", detail),
        })
    );
    assert_eq!(page.clone().url, "/page");
}

#[test]
fn error_texts() {
    let text = |s: &str| s.to_string();
    let cases = [
        (HttpError::Network { message: text("m") }, "Network error: m"),
        (HttpError::Timeout, "Request timeout"),
        (HttpError::InvalidUrl { url: text("u") }, "Invalid URL: u"),
        (HttpError::Serialization { message: text("m") }, "Serialization error: m"),
        (HttpError::Http { status: 404, message: text("m"), body: None }, "HTTP 404: m"),
        (HttpError::Cancelled, "Cancelled by user"),
        (HttpError::InvalidResponse, "Invalid response format"),
        (HttpError::Configuration { message: text("m") }, "Configuration error: m"),
    ];
    for (error, shown) in cases {
        assert_eq!(error.to_string(), shown);
        assert_eq!(error.clone(), error);
    }
}

#[test]
fn final_errors() {
    let http = |status: u16| HttpError::Http { status, message: String::new(), body: None };
    assert!(HttpError::Cancelled.is_final());
    assert!(HttpError::InvalidUrl { url: String::new() }.is_final());
    assert!(HttpError::Configuration { message: String::new() }.is_final());
    assert!(http(400).is_final());
    assert!(http(499).is_final());
    assert!(!http(399).is_final());
    assert!(!http(500).is_final());
    assert!(!HttpError::Timeout.is_final());
    assert!(!HttpError::InvalidResponse.is_final());
    assert!(!HttpError::Network { message: String::new() }.is_final());
    assert!(!HttpError::Serialization { message: String::new() }.is_final());
}

#[test]
fn method_names() {
    let names = [
        (HttpMethod::Get, "GET"),
        (HttpMethod::Post, "POST"),
        (HttpMethod::Put, "PUT"),
        (HttpMethod::Delete, "DELETE"),
        (HttpMethod::Patch, "PATCH"),
        (HttpMethod::Head, "HEAD"),
        (HttpMethod::Options, "OPTIONS"),
    ];
    for (method, name) in names {
        assert_eq!(method.as_str(), name);
    }
}

#[test]
fn default_configuration() {
    let config = RequestConfig::default();
    assert_eq!(config.method, HttpMethod::Get);
    assert_eq!(config.url, "");
    assert_eq!(config.headers.len(), 0);
    assert!(matches!(config.body, RequestBody::Empty));
    assert_eq!(config.timeout_ms, Some(30000));
    assert!(!config.with_loader && !config.with_progress && !config.with_notifications);
    assert_eq!(config.call_name, None);
    assert_eq!((config.retry_count, config.retry_delay_ms), (3, 1000));
    assert!(!config.skip_health_check);
}

#[test]
fn builder_settings() {
    let store = StoreDispatcher { id: 4 };
    let mut more = Headers::new();
    more.insert("B".to_string(), "2".to_string());
    let builder = RequestBuilder::new(HttpMethod::Put, "/x")
        .with_dispatcher(store)
        .header("A", "1")
        .headers(more)
        .text("hello")
        .with_loader(true)
        .with_progress(true)
        .with_notifications(true)
        .call_name("put x")
        .timeout(7)
        .retry(5, 20)
        .skip_health_check();
    assert_eq!(builder.dispatcher(), Some(store));
    let config = builder.config();
    assert_eq!(config.method, HttpMethod::Put);
    assert_eq!(config.url, "/x");
    assert_eq!(config.headers.get("A"), Some(&"1".to_string()));
    assert_eq!(config.headers.get("B"), Some(&"2".to_string()));
    assert!(matches!(&config.body, RequestBody::Text(t) if t == "hello"));
    assert!(config.with_loader && config.with_progress && config.with_notifications);
    assert_eq!(config.call_name, Some("put x".to_string()));
    assert_eq!(config.timeout_ms, Some(7));
    assert_eq!((config.retry_count, config.retry_delay_ms), (5, 20));
    assert!(config.skip_health_check);
    let copy = builder.clone();
    assert_eq!(copy.config().call_name, Some("put x".to_string()));
    let builder = builder.no_timeout().binary(vec![1, 2]);
    assert_eq!(builder.config().timeout_ms, None);
    assert!(matches!(&builder.config().body, RequestBody::Binary(d) if *d == vec![1, 2]));
}

#[test]
fn builder_json() {
    let written = serde_json::to_string(&vec![1, 2]).map_err(|e| e.to_string());
    let builder = RequestBuilder::new(HttpMethod::Post, "/x").json(written).unwrap();
    assert_eq!(
        builder.config().headers.get("Content-Type"),
        Some(&"application/json".to_string())
    );
    assert!(matches!(&builder.config().body, RequestBody::Json(j) if j == "[1,2]"));
    let typed = RequestBuilder::new(HttpMethod::Post, "/x")
        .header("Content-Type", "text/plain")
        .header("A", "1")
        .json(Ok("{}".to_string()))
        .unwrap();
    assert_eq!(
        typed.config().headers.get("Content-Type"),
        Some(&"application/json".to_string())
    );
    assert_eq!(typed.config().headers.get("A"), Some(&"1".to_string()));
    let failed = RequestBuilder::new(HttpMethod::Post, "/x").json(Err("why".to_string()));
    assert_eq!(
        failed.err(),
        Some(HttpError::Serialization { message: "Failed to serialize JSON: why".to_string() })
    );
}

#[test]
fn builder_form() {
    let builder = RequestBuilder::new(HttpMethod::Post, "/x").form_data(form());
    assert!(matches!(builder.config().body, RequestBody::FormData(_)));
    assert!(matches!(builder.clone().config().body, RequestBody::FormData(_)));
}

#[test]
fn urls_are_joined_with_one_slash() {
    let client = HttpClient::new().base_url("https://api.example.com//");
    let want = "https://api.example.com/users";
    assert_eq!(client.build_url("users"), want);
    assert_eq!(client.build_url("/users"), want);
    assert_eq!(client.build_url("//users"), want);
    assert_eq!(HttpClient::new().base_url("https://api.example.com").build_url("users"), want);
    assert_eq!(client.build_url(&client.build_url("users")), want);
    assert_eq!(client.build_url(""), "https://api.example.com/");
    assert_eq!(client.build_url("http://other/x"), "http://other/x");
    assert_eq!(client.build_url("https://other/x"), "https://other/x");
    assert_eq!(client.build_url("ftp://other"), "https://api.example.com/ftp://other");
    assert_eq!(HttpClient::new().build_url("/users"), "/users");
}

#[test]
fn client_defaults_reach_every_request() {
    let store = StoreDispatcher { id: 1 };
    let client = HttpClient::with_dispatcher(store)
        .base_url("/api/")
        .default_header("X-Key", "k")
        .default_timeout(500);
    let requests = [
        (client.get("/a", BuildProfile::Debug), HttpMethod::Get),
        (client.post("/a"), HttpMethod::Post),
        (client.put("/a"), HttpMethod::Put),
        (client.delete("/a"), HttpMethod::Delete),
        (client.patch("/a"), HttpMethod::Patch),
        (client.head("/a"), HttpMethod::Head),
        (client.options("/a"), HttpMethod::Options),
    ];
    for (request, method) in requests {
        assert_eq!(request.config().method, method);
        assert_eq!(request.config().url, "/api/a");
        assert_eq!(request.config().headers.get("X-Key"), Some(&"k".to_string()));
        assert_eq!(request.config().timeout_ms, Some(500));
        assert_eq!(request.config().retry_count, 3);
        assert_eq!(request.dispatcher(), Some(store));
    }
    let own = client.clone().post("/a").header("X-Key", "mine");
    assert_eq!(own.config().headers.get("X-Key"), Some(&"mine".to_string()));
}

#[test]
fn get_in_a_released_application() {
    let request = HttpClient::default().get("/a", BuildProfile::Release);
    assert_eq!((request.config().retry_count, request.config().retry_delay_ms), (2, 1000));
    assert_eq!(request.config().timeout_ms, Some(30000));
    assert_eq!(get_http_client().post("/a").dispatcher(), None);
}

#[test]
fn utilities() {
    let request = post_json_request("/x", Ok("{}".to_string())).unwrap();
    assert_eq!(request.config().method, HttpMethod::Post);
    assert!(matches!(&request.config().body, RequestBody::Json(j) if j == "{}"));
    assert!(post_json_request("/x", Err("why".to_string())).is_err());

    let request = upload_file_request("/up", Ok(form()), true, None).unwrap();
    assert_eq!(request.dispatcher(), None);
    assert_eq!(request.config().url, "/up");
    assert!(request.config().with_progress);
    assert!(matches!(request.config().body, RequestBody::FormData(_)));
    let store = StoreDispatcher { id: 2 };
    let request = upload_file_request("/up", Ok(form()), false, Some(store)).unwrap();
    assert!(!request.config().with_progress);
    assert_eq!(request.dispatcher(), Some(store));
    let part = file_part(&[1, 2], "a.png", "image/png");
    assert_eq!(part.field, "file");
    assert_eq!(part.data, &[1, 2]);
    assert_eq!(part.filename, "a.png");
    assert_eq!(part.content_type, "image/png");
    let failures = [
        (UploadFailure::Form, "Failed to create FormData"),
        (UploadFailure::Blob, "Failed to create blob"),
        (UploadFailure::Append, "Failed to append file to FormData"),
    ];
    for (failure, message) in failures {
        assert_eq!(
            upload_file_request("/up", Err(failure), true, None).err(),
            Some(HttpError::Configuration { message: message.to_string() })
        );
    }

    assert_eq!(downloaded_bytes(Ok(response(200))), Ok(vec![b'c', b'a', b'f', 0xc3, 0xa9]));
    assert_eq!(downloaded_bytes(Err(HttpError::Timeout)), Err(HttpError::Timeout));
}
