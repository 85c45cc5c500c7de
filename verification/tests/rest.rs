use alpaca_sdk::client::RawResponse;
use alpaca_sdk::headers::{check_field_value, check_header_name, MAX_HEADERS};
use alpaca_sdk::{ApiClientError, RestClient, RestClientBuilder};

fn response(status: u16, retry_after: Option<&str>, body: &str) -> RawResponse {
    RawResponse {
        status,
        retry_after: retry_after.map(|text| text.as_bytes().to_vec()),
        body: Ok(body.to_string()),
    }
}

#[test]
fn builder_creates_client() {
    let client = RestClient::builder("https://example.com")
        .timeout(std::time::Duration::from_secs(10))
        .build();
    assert!(client.is_ok());
}

#[test]
fn builder_with_headers() {
    let client = RestClient::builder("https://example.com")
        .header("X-Custom", "value")
        .unwrap()
        .build();
    assert!(client.is_ok());
}

#[test]
fn url_concatenation() {
    let client = RestClient::builder("https://api.example.com")
        .build()
        .unwrap();
    assert_eq!(client.url("/v2/foo"), "https://api.example.com/v2/foo");
}

#[test]
fn client_keeps_its_base_url() {
    let client = RestClient::builder("https://api.example.com")
        .build()
        .unwrap();
    assert_eq!(client.base_url(), "https://api.example.com");
    assert_eq!(client.url(""), "https://api.example.com");
}

#[test]
fn builder_starts_empty_with_thirty_seconds() {
    let builder = RestClientBuilder::new("https://example.com");
    assert!(builder.headers().is_empty());
    assert_eq!(
        builder.request_timeout(),
        std::time::Duration::from_secs(30)
    );
    let builder = builder.timeout(std::time::Duration::from_millis(1500));
    assert_eq!(
        builder.request_timeout(),
        std::time::Duration::from_millis(1500)
    );
}

#[test]
fn header_is_filed_under_its_lower_case_name() {
    let builder = RestClient::builder("https://example.com")
        .header("X-Custom", "value")
        .unwrap();
    assert_eq!(builder.headers().keys_len(), 1);
    assert_eq!(builder.headers().get("x-custom").unwrap(), "value");
    let builder = builder.header("x-custom", "other\tvalue ~").unwrap();
    assert_eq!(builder.headers().keys_len(), 1);
    assert_eq!(builder.headers().len(), 1);
    assert_eq!(builder.headers().get("X-CUSTOM").unwrap(), "other\tvalue ~");
    let builder = builder.header("accept", "").unwrap();
    assert_eq!(builder.headers().keys_len(), 2);
    assert_eq!(builder.headers().get("accept").unwrap(), "");
}

#[test]
fn default_headers_replace_what_was_collected() {
    let mut headers = reqwest::header::HeaderMap::new();
    headers.insert("a", reqwest::header::HeaderValue::from_static("1"));
    headers.insert("b", reqwest::header::HeaderValue::from_static("2"));
    let builder = RestClient::builder("https://example.com")
        .header("c", "3")
        .unwrap()
        .default_headers(headers);
    assert_eq!(builder.headers().keys_len(), 2);
    assert!(builder.headers().get("c").is_none());
    assert_eq!(builder.headers().get("b").unwrap(), "2");
    assert!(builder.build().is_ok());
}

#[test]
fn header_value_with_newline_is_a_config_error() {
    let result = RestClient::builder("https://example.com").header("X-Custom", "bad\nvalue");
    match result {
        Err(ApiClientError::Config(detail)) => assert_eq!(detail, "failed to parse header value"),
        _ => panic!("expected Config"),
    }
}

#[test]
fn header_value_outside_ascii_is_a_config_error() {
    let result = RestClient::builder("https://example.com").header("X-Custom", "cl\u{e9}");
    match result {
        Err(ApiClientError::Config(detail)) => assert_eq!(detail, "failed to parse header value"),
        _ => panic!("expected Config"),
    }
    let result = RestClient::builder("https://example.com").header("X-Custom", "del\u{7f}");
    assert!(matches!(result, Err(ApiClientError::Config(_))));
}

#[test]
fn header_name_that_is_no_token_is_a_config_error() {
    for name in ["", "two words", "colon:", "caf\u{e9}"] {
        match RestClient::builder("https://example.com").header(name, "value") {
            Err(ApiClientError::Config(detail)) => assert_eq!(detail, "invalid HTTP header name"),
            _ => panic!("expected Config"),
        }
    }
    match RestClient::builder("https://example.com").header("two words", "bad\nvalue") {
        Err(ApiClientError::Config(detail)) => assert_eq!(detail, "failed to parse header value"),
        _ => panic!("the value is looked at first"),
    }
}

#[test]
fn field_value_and_header_name_checks() {
    assert!(check_field_value(b""));
    assert!(check_field_value(b"plain value\twith tab ~"));
    assert!(!check_field_value(b"\n"));
    assert!(!check_field_value(b"a\x1fb"));
    assert!(!check_field_value(b"a\x7f"));
    assert!(!check_field_value("\u{e9}".as_bytes()));
    assert!(check_header_name(b"APCA-API-KEY-ID"));
    assert!(check_header_name(b"x!#$%&'*+-.^_`|~09azAZ"));
    assert!(!check_header_name(b""));
    assert!(!check_header_name(b"a b"));
    assert!(!check_header_name(b"a(b"));
    assert!(!check_header_name(b"a@b"));
    assert!(check_header_name(&vec![b'a'; 65535]));
    assert!(!check_header_name(&vec![b'a'; 65536]));
}

#[test]
fn too_many_default_headers_are_a_config_error() {
    let mut headers = reqwest::header::HeaderMap::new();
    for i in 0..MAX_HEADERS {
        let name = reqwest::header::HeaderName::from_bytes(format!("h{i}").as_bytes()).unwrap();
        headers.insert(name, reqwest::header::HeaderValue::from_static("v"));
    }
    let full = RestClient::builder("https://example.com").default_headers(headers.clone());
    match full.header("one-more", "v") {
        Err(ApiClientError::Config(detail)) => assert_eq!(detail, "too many headers"),
        _ => panic!("expected Config"),
    }
    let full = RestClient::builder("https://example.com").default_headers(headers.clone());
    assert!(full.build().is_ok());

    let name = reqwest::header::HeaderName::from_static("one-more");
    headers.insert(name, reqwest::header::HeaderValue::from_static("v"));
    let over = RestClient::builder("https://example.com").default_headers(headers);
    match over.build() {
        Err(ApiClientError::Config(detail)) => assert_eq!(detail, "too many headers"),
        _ => panic!("expected Config"),
    }
}

#[test]
fn rate_limit_reads_retry_after() {
    match RestClient::handle_response(response(429, Some("7"), "slow down")) {
        Err(ApiClientError::RateLimited { retry_after_secs }) => assert_eq!(retry_after_secs, 7),
        _ => panic!("expected RateLimited"),
    }
}

#[test]
fn rate_limit_defaults_to_one_second() {
    for header in [None, Some("soon"), Some(""), Some("7s"), Some(" 7"), Some("-7"), Some("1.5")] {
        match RestClient::handle_response(response(429, header, "")) {
            Err(ApiClientError::RateLimited { retry_after_secs }) => {
                assert_eq!(retry_after_secs, 1)
            }
            _ => panic!("expected RateLimited"),
        }
    }
    let opaque = RawResponse {
        status: 429,
        retry_after: Some(vec![0xff, b'7']),
        body: Err("unread".to_string()),
    };
    match RestClient::handle_response(opaque) {
        Err(ApiClientError::RateLimited { retry_after_secs }) => assert_eq!(retry_after_secs, 1),
        _ => panic!("expected RateLimited"),
    }
}

#[test]
fn rate_limit_takes_any_unsigned_numeral() {
    let cases = [
        ("0", 0u64),
        ("+12", 12),
        ("007", 7),
        ("18446744073709551615", u64::MAX),
        ("18446744073709551616", 1),
        ("99999999999999999999999", 1),
        ("+", 1),
    ];
    for (header, expected) in cases {
        match RestClient::extract_rate_limit(&Some(header.as_bytes().to_vec())) {
            ApiClientError::RateLimited { retry_after_secs } => {
                assert_eq!(retry_after_secs, expected, "{header}")
            }
            _ => panic!("expected RateLimited"),
        }
    }
    match RestClient::extract_rate_limit(&None) {
        ApiClientError::RateLimited { retry_after_secs } => assert_eq!(retry_after_secs, 1),
        _ => panic!("expected RateLimited"),
    }
}

#[test]
fn not_found_is_an_api_error_with_its_body() {
    match RestClient::handle_response(response(404, None, "not found")) {
        Err(ApiClientError::Api { status, body }) => {
            assert_eq!(status, 404);
            assert_eq!(body, "not found");
        }
        _ => panic!("expected Api"),
    }
}

#[test]
fn statuses_outside_the_success_range_are_api_errors() {
    for status in [100u16, 199, 300, 301, 400, 428, 430, 500, 599, 999] {
        match RestClient::handle_response(response(status, Some("7"), "body")) {
            Err(ApiClientError::Api { status: got, body }) => {
                assert_eq!(got, status);
                assert_eq!(body, "body");
            }
            _ => panic!("expected Api for {status}"),
        }
    }
    for status in [200u16, 201, 204, 299] {
        assert_eq!(
            RestClient::handle_response(response(status, None, "{}")).unwrap(),
            "{}"
        );
    }
}

#[test]
fn unreadable_error_body_counts_as_empty() {
    let resp = RawResponse {
        status: 502,
        retry_after: None,
        body: Err("connection reset".to_string()),
    };
    match RestClient::handle_response(resp) {
        Err(ApiClientError::Api { status, body }) => {
            assert_eq!(status, 502);
            assert_eq!(body, "");
        }
        _ => panic!("expected Api"),
    }
}

#[test]
fn unreadable_success_body_is_a_transport_failure() {
    let resp = RawResponse {
        status: 200,
        retry_after: None,
        body: Err("connection reset".to_string()),
    };
    match RestClient::handle_response(resp) {
        Err(ApiClientError::Http(detail)) => assert_eq!(detail, "connection reset"),
        _ => panic!("expected Http"),
    }
}

#[test]
fn success_body_that_does_not_parse_is_a_deserialize_error() {
    let body = RestClient::handle_response(response(200, None, "{\"id\": 5")).unwrap();
    let parsed = serde_json::from_str::<serde_json::Value>(&body).map_err(|e| e.to_string());
    match RestClient::decoded(parsed) {
        Err(ApiClientError::Deserialize(detail)) => assert!(detail.contains("EOF")),
        _ => panic!("expected Deserialize"),
    }
}

#[test]
fn success_body_that_parses_is_handed_on() {
    let body = RestClient::handle_response(response(
        200,
        None,
        "{\"id\": \"abc-123\", \"daytrade_count\": 2, \"shorting_enabled\": true}",
    ))
    .unwrap();
    let parsed = serde_json::from_str::<serde_json::Value>(&body).map_err(|e| e.to_string());
    let value = RestClient::decoded(parsed).unwrap();
    assert_eq!(value["id"], "abc-123");
    assert_eq!(value["daytrade_count"], 2);
    assert_eq!(value["shorting_enabled"], true);
    assert_eq!(value.as_object().unwrap().len(), 3);
}

#[test]
fn empty_response_looks_at_the_status_only() {
    assert!(RestClient::handle_empty_response(response(204, None, "")).is_ok());
    assert!(RestClient::handle_empty_response(response(200, None, "not json")).is_ok());
    let unread = RawResponse {
        status: 200,
        retry_after: None,
        body: Err("reset".to_string()),
    };
    assert!(RestClient::handle_empty_response(unread).is_ok());
    match RestClient::handle_empty_response(response(429, Some("30"), "")) {
        Err(ApiClientError::RateLimited { retry_after_secs }) => assert_eq!(retry_after_secs, 30),
        _ => panic!("expected RateLimited"),
    }
    match RestClient::handle_empty_response(response(422, None, "unprocessable")) {
        Err(ApiClientError::Api { status, body }) => {
            assert_eq!(status, 422);
            assert_eq!(body, "unprocessable");
        }
        _ => panic!("expected Api"),
    }
}

#[test]
fn body_is_read_only_where_it_is_looked_at() {
    assert!(!RestClient::reads_body(429, true));
    assert!(!RestClient::reads_body(429, false));
    for status in [100u16, 199, 300, 404, 500, 999] {
        assert!(RestClient::reads_body(status, true));
        assert!(RestClient::reads_body(status, false));
    }
    for status in [200u16, 204, 299] {
        assert!(RestClient::reads_body(status, true));
        assert!(!RestClient::reads_body(status, false));
    }
}

#[test]
fn header_map_with_several_values_under_a_name() {
    let mut headers = reqwest::header::HeaderMap::new();
    headers.append("x-many", reqwest::header::HeaderValue::from_static("1"));
    headers.append("x-many", reqwest::header::HeaderValue::from_static("2"));
    let builder = RestClient::builder("https://example.com").default_headers(headers);
    assert_eq!(builder.headers().keys_len(), 1);
    assert_eq!(builder.headers().len(), 2);
    let builder = builder.header("X-Many", "3").unwrap();
    assert_eq!(builder.headers().len(), 1);
    assert_eq!(builder.headers().get("x-many").unwrap(), "3");
    assert!(builder.build().is_ok());
}
