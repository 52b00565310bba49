use httpcalls::health_manager::{
    check_report, conclude_health_check, finish_health_check, get_cached_status, health_check_request,
    health_response_body, health_update, is_health_check_running, is_health_check_trigger_error,
    parse_health_response, start_health_check, HealthCheckStart, HealthManagerState,
    HealthResponse, HEALTH_CHECK_COOLDOWN_MS,
};
use httpcalls::{
    AppAction, BuildProfile, Headers, HealthStatus, HttpError, HttpMethod, HttpResponse,
};

/// Reads the body of the health endpoint as a JSON object, with defaults for what is
/// not there. What is there has to be of the right type.
fn read(body: &str) -> Result<HealthResponse, String> {
    let value: serde_json::Value = serde_json::from_str(body).map_err(|e| e.to_string())?;
    let fields = value.as_object().ok_or("no object")?;
    let mut down_services: Vec<String> = Vec::new();
    if let Some(names) = fields.get("down_services") {
        for name in names.as_array().ok_or("no list")? {
            down_services.push(name.as_str().ok_or("no text")?.to_string());
        }
    }
    Ok(HealthResponse {
        all_services_down: match fields.get("all_services_down") {
            Some(down) => down.as_bool().ok_or("no truth value")?,
            None => false,
        },
        down_services,
        message: match fields.get("message") {
            Some(message) => message.as_str().ok_or("no text")?.to_string(),
            None => String::new(),
        },
    })
}

fn answer(status: u16, body: &str) -> Result<HttpResponse, HttpError> {
    Ok(HttpResponse {
        status,
        headers: Headers::new(),
        body: body.to_string(),
        url: "/health/".to_string(),
        call_name: None,
    })
}

fn well(now: i64) -> HealthStatus {
    HealthStatus {
        all_services_down: false,
        down_services: vec![],
        message: String::new(),
        last_updated: now,
    }
}

#[test]
fn test_is_health_check_trigger_error_502() {
    let err = HttpError::Http { status: 502, message: "Bad Gateway".to_string(), body: None };
    assert!(is_health_check_trigger_error(&err));
}

#[test]
fn test_is_health_check_trigger_error_503() {
    let err = HttpError::Http { status: 503, message: "Service Unavailable".to_string(), body: None };
    assert!(is_health_check_trigger_error(&err));
}

#[test]
fn test_is_health_check_trigger_error_504() {
    let err = HttpError::Http { status: 504, message: "Gateway Timeout".to_string(), body: None };
    assert!(is_health_check_trigger_error(&err));
}

#[test]
fn test_is_health_check_trigger_error_timeout() {
    assert!(is_health_check_trigger_error(&HttpError::Timeout));
}

#[test]
fn test_is_health_check_trigger_error_connection_refused() {
    let err = HttpError::Network { message: "Connection refused".to_string() };
    assert!(is_health_check_trigger_error(&err));
}

#[test]
fn test_is_health_check_trigger_error_400_not_triggered() {
    let err = HttpError::Http { status: 400, message: "Bad Request".to_string(), body: None };
    assert!(!is_health_check_trigger_error(&err));
}

#[test]
fn test_is_health_check_trigger_error_404_not_triggered() {
    let err = HttpError::Http { status: 404, message: "Not Found".to_string(), body: None };
    assert!(!is_health_check_trigger_error(&err));
}

#[test]
fn test_is_health_check_trigger_error_500_not_triggered() {
    let err = HttpError::Http { status: 500, message: "Internal Server Error".to_string(), body: None };
    assert!(!is_health_check_trigger_error(&err));
}

#[test]
fn test_parse_health_response_partial_outage() {
    let body = r#"{"all_services_down": false, "down_services": ["service1", "service2"], "message": ""}"#;
    let result = parse_health_response(read(body), 0).unwrap();
    assert!(!result.all_services_down);
    assert_eq!(result.down_services.len(), 2);
    assert!(result.message.contains("Some services are temporarily unavailable"));
}

#[test]
fn test_parse_health_response_complete_outage() {
    let body = r#"{"all_services_down": true, "down_services": [], "message": ""}"#;
    let result = parse_health_response(read(body), 0).unwrap();
    assert!(result.all_services_down);
    assert!(result.message.contains("System is temporarily unavailable"));
}

#[test]
fn test_parse_health_response_custom_message() {
    let body = r#"{"all_services_down": false, "down_services": [], "message": "Custom outage message"}"#;
    let result = parse_health_response(read(body), 0).unwrap();
    assert_eq!(result.message, "Custom outage message");
}

#[test]
fn healthy_services_have_no_message() {
    let status = parse_health_response(read("{}"), 42).unwrap();
    assert_eq!(status, well(42));
}

#[test]
fn an_unreadable_body_is_a_parse_error() {
    let detail = read("no json").unwrap_err();
    let want = format!("JSON parse error: {}", detail);
    assert_eq!(parse_health_response(Err(detail), 1).unwrap_err(), want);
    assert!(parse_health_response(read(r#"{"message": 5}"#), 1).is_err());
}

#[test]
fn network_messages_that_trigger() {
    let texts = [
        "Request failed: JsError(TypeError: Failed to fetch)",
        "x NetworkError when attempting to fetch resource",
        "Failed to fetch",
        "a TypeError",
    ];
    for text in texts {
        assert!(is_health_check_trigger_error(&HttpError::Network { message: text.to_string() }));
    }
    let err = HttpError::Network { message: "Failed to read response body".to_string() };
    assert!(!is_health_check_trigger_error(&err));
    let err = HttpError::Network { message: "connection refused".to_string() };
    assert!(!is_health_check_trigger_error(&err));
    let err = HttpError::Network { message: String::new() };
    assert!(!is_health_check_trigger_error(&err));
}

#[test]
fn other_errors_do_not_trigger() {
    assert!(!is_health_check_trigger_error(&HttpError::Cancelled));
    assert!(!is_health_check_trigger_error(&HttpError::InvalidResponse));
    assert!(!is_health_check_trigger_error(&HttpError::InvalidUrl { url: "NetworkError".to_string() }));
    let err = HttpError::Serialization { message: "TypeError".to_string() };
    assert!(!is_health_check_trigger_error(&err));
    let err = HttpError::Configuration { message: "Failed to fetch".to_string() };
    assert!(!is_health_check_trigger_error(&err));
}

#[test]
fn only_one_check_runs_at_a_time() {
    let mut state = HealthManagerState::new();
    assert!(!is_health_check_running(&state));
    assert_eq!(get_cached_status(&state), None);
    assert_eq!(start_health_check(&mut state, 5), HealthCheckStart::Started);
    assert!(is_health_check_running(&state));
    assert_eq!(start_health_check(&mut state, 500_000), HealthCheckStart::AlreadyRunning);
    assert!(is_health_check_running(&state));
    finish_health_check(&mut state, well(7), 8);
    assert!(!is_health_check_running(&state));
    assert_eq!(get_cached_status(&state), Some(well(7)));
}

#[test]
fn the_cooldown_answers_from_the_cache() {
    let mut state = HealthManagerState::new();
    assert!(start_health_check(&mut state, 1_000).initiated());
    finish_health_check(&mut state, well(2_000), 2_000);
    let skipped = start_health_check(&mut state, 3_500);
    assert!(!skipped.initiated());
    assert_eq!(
        skipped,
        HealthCheckStart::CoolingDown {
            remaining_s: 118,
            told_again: Some(AppAction::ServiceHealthUpdated(well(2_000))),
        }
    );
    let last = 2_000 + HEALTH_CHECK_COOLDOWN_MS - 1;
    assert!(!start_health_check(&mut state, last).initiated());
    assert!(!is_health_check_running(&state));
    assert!(start_health_check(&mut state, last + 1).initiated());
    assert!(is_health_check_running(&state));
    assert_eq!(get_cached_status(&state), Some(well(2_000)));
}

#[test]
fn a_clock_that_goes_back_stays_in_the_cooldown() {
    let mut state = HealthManagerState::new();
    finish_health_check(&mut state, well(1), i64::MAX);
    assert!(!start_health_check(&mut state, i64::MIN).initiated());
}

#[test]
fn without_a_clock_there_is_no_cooldown() {
    let mut state = HealthManagerState::new();
    finish_health_check(&mut state, well(0), 0);
    assert!(start_health_check(&mut state, 0).initiated());
}

#[test]
fn the_health_request_is_quiet() {
    let request = health_check_request(BuildProfile::Debug);
    assert_eq!(request.config().method, HttpMethod::Get);
    assert_eq!(request.config().url, "/health/");
    assert_eq!(request.config().timeout_ms, Some(10_000));
    assert!(request.config().skip_health_check);
    assert_eq!(request.config().retry_count, 3);
    assert_eq!(request.dispatcher(), None);
    assert_eq!(health_check_request(BuildProfile::Release).config().retry_count, 2);
}

#[test]
fn only_a_success_has_a_body_to_read() {
    assert_eq!(health_response_body(&answer(200, "{}")), Some("{}"));
    assert_eq!(health_response_body(&answer(503, "{}")), None);
    assert_eq!(health_response_body(&Err(HttpError::Timeout)), None);
}

#[test]
fn a_check_comes_to_what_the_endpoint_says() {
    let body = r#"{"down_services": ["mail"]}"#;
    let status = conclude_health_check(&answer(200, body), read(body), 9);
    assert!(!status.all_services_down);
    assert_eq!(status.down_services, vec!["mail".to_string()]);
    assert_eq!(
        status.message,
        "Some services are temporarily unavailable. You may experience issues in those modules. Our team has been notified."
    );
    assert_eq!(status.last_updated, 9);
}

#[test]
fn a_check_that_fails_is_an_outage() {
    let unread = conclude_health_check(&answer(200, ""), read(""), 3);
    assert!(!unread.all_services_down);
    assert_eq!(unread.down_services, vec!["unknown".to_string()]);
    let down = HealthStatus {
        all_services_down: true,
        down_services: vec!["health_endpoint".to_string()],
        message: "System is temporarily unavailable due to maintenance or technical issues."
            .to_string(),
        last_updated: 3,
    };
    assert_eq!(conclude_health_check(&Err(HttpError::Timeout), read("{}"), 3), down);
    assert_eq!(conclude_health_check(&answer(500, "{}"), read("{}"), 3), down);
    assert_eq!(health_update(&down), AppAction::ServiceHealthUpdated(down.clone()));
    let (action, status) = check_report(&Err(HttpError::Timeout), read("{}"), 3);
    assert_eq!(status, down);
    assert_eq!(action, AppAction::ServiceHealthUpdated(down));
}
