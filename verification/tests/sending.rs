use httpcalls::exchange::{notification_text, TransportReply};
use httpcalls::send::{backoff_ms, SendStep};
use httpcalls::utils::upload_file_request;
use httpcalls::{
    AppAction, Headers, HttpError, HttpMethod, HttpResponse, RequestBody, RequestBuilder,
    StoreDispatcher,
};
use wasm_bindgen::JsCast;

/// What happened when a request was sent.
struct Trace {
    told: Vec<AppAction>,
    waits: Vec<u32>,
    sent: usize,
    outcome: Result<HttpResponse, HttpError>,
    health_check: Option<StoreDispatcher>,
}

/// Sends a request to which `replies` come back.
fn run(builder: RequestBuilder, replies: Vec<TransportReply>) -> Trace {
    let mut told = Vec::new();
    let mut waits = Vec::new();
    let mut sent = 0;
    let mut replies = replies.into_iter();
    let mut step = builder.send();
    loop {
        step = match step {
            SendStep::Transmit { actions, in_flight } => {
                told.extend(actions);
                sent += 1;
                assert!(!in_flight.transmission().url.is_empty());
                in_flight.reply(replies.next().unwrap())
            }
            SendStep::Wait { actions, wait_ms, paused } => {
                told.extend(actions);
                waits.push(wait_ms);
                paused.resume()
            }
            SendStep::Finish { actions, outcome, health_check } => {
                told.extend(actions);
                assert!(replies.next().is_none());
                return Trace { told, waits, sent, outcome, health_check };
            }
        };
    }
}

fn received(status: u16) -> TransportReply {
    TransportReply::Received { status, url: "/final".to_string(), body: "body".to_string() }
}

fn failed(detail: &str) -> TransportReply {
    TransportReply::SendFailed { detail: detail.to_string() }
}

fn store() -> StoreDispatcher {
    StoreDispatcher { id: 9 }
}

fn request() -> RequestBuilder {
    RequestBuilder::new(HttpMethod::Get, "/x")
}

#[test]
fn success_at_once() {
    let trace = run(request().call_name("x"), vec![received(204)]);
    let response = trace.outcome.unwrap();
    assert_eq!(response.status, 204);
    assert_eq!(response.body, "body");
    assert_eq!(response.url, "/final");
    assert_eq!(response.call_name, Some("x".to_string()));
    assert_eq!(response.headers.len(), 0);
    assert_eq!((trace.sent, trace.waits.len(), trace.told.len()), (1, 0, 0));
    assert_eq!(trace.health_check, None);
}

#[test]
fn what_goes_out() {
    let builder = request().header("A", "1").text("t").timeout(5);
    match builder.send() {
        SendStep::Transmit { in_flight, .. } => {
            let out = in_flight.transmission();
            assert_eq!(out.method, HttpMethod::Get);
            assert_eq!(out.url, "/x");
            assert_eq!(out.headers.get("A"), Some(&"1".to_string()));
            assert!(matches!(out.body, RequestBody::Text(t) if t == "t"));
            assert_eq!(out.timeout_ms, Some(5));
        }
        _ => panic!("the request does not go out"),
    }
}

#[test]
fn retries_back_off_and_then_succeed() {
    let replies = vec![received(500), failed("x"), TransportReply::TimedOut, received(200)];
    let trace = run(request(), replies);
    assert!(trace.outcome.is_ok());
    assert_eq!(trace.waits, vec![1000, 2000, 4000]);
    assert_eq!(trace.sent, 4);
}

#[test]
fn backoff_values() {
    assert_eq!(backoff_ms(1000, 0), 0);
    assert_eq!(backoff_ms(1000, 1), 1000);
    assert_eq!(backoff_ms(1000, 2), 2000);
    assert_eq!(backoff_ms(1000, 5), 16000);
    assert_eq!(backoff_ms(1, 32), 1 << 31);
    assert_eq!(backoff_ms(1, 33), u32::MAX);
    assert_eq!(backoff_ms(3_000_000_000, 2), u32::MAX);
    assert_eq!(backoff_ms(0, u32::MAX), 0);
    assert_eq!(backoff_ms(u32::MAX, u32::MAX), u32::MAX);
}

#[test]
fn exhausted_retries_start_a_health_check() {
    let builder = request().with_dispatcher(store()).retry(2, 10);
    let trace = run(builder, vec![received(503), received(503), received(503)]);
    assert_eq!(trace.sent, 3);
    assert_eq!(trace.waits, vec![10, 20]);
    assert_eq!(
        trace.outcome.err(),
        Some(HttpError::Http {
            status: 503,
            message: "HTTP error 503".to_string(),
            body: Some("body".to_string()),
        })
    );
    assert_eq!(trace.health_check, Some(store()));
    assert_eq!(trace.told, vec![]);
}

#[test]
fn no_health_check_where_none_is_due() {
    let twice = |builder: RequestBuilder, first: TransportReply, last: TransportReply| {
        run(builder.retry(1, 10), vec![first, last]).health_check
    };
    let told = || request().with_dispatcher(store());
    assert_eq!(twice(told(), received(500), TransportReply::TimedOut), Some(store()));
    assert_eq!(twice(told(), failed("x"), failed("Connection refused")), Some(store()));
    assert_eq!(twice(told(), received(503), received(500)), None);
    assert_eq!(twice(told(), received(503), failed("lost")), None);
    assert_eq!(twice(told(), received(503), received(200)), None);
    assert_eq!(twice(request(), received(503), received(503)), None);
    assert_eq!(twice(told().skip_health_check(), received(503), received(503)), None);
}

#[test]
fn one_failure_starts_no_health_check() {
    let told = || request().with_dispatcher(store());
    assert_eq!(run(told().retry(0, 0), vec![received(503)]).health_check, None);
    assert_eq!(run(told().retry(0, 0), vec![TransportReply::TimedOut]).health_check, None);
    let again = run(told().retry(1, 0), vec![received(503), received(503)]);
    assert_eq!(again.health_check, Some(store()));
}

#[test]
fn client_errors_are_not_retried() {
    for status in [400, 404, 499] {
        let trace = run(request().with_dispatcher(store()), vec![received(status)]);
        assert_eq!(trace.sent, 1);
        assert!(trace.outcome.is_err());
        assert_eq!(trace.health_check, None);
    }
}

#[test]
fn replies_become_errors() {
    let error = |reply: TransportReply| run(request().retry(0, 0), vec![reply]).outcome.unwrap_err();
    assert_eq!(error(failed("d")), HttpError::Network { message: "Request failed: d".to_string() });
    assert_eq!(
        error(TransportReply::BodyFailed { detail: "d".to_string() }),
        HttpError::Network { message: "Failed to read response body: d".to_string() }
    );
    assert_eq!(error(TransportReply::TimedOut), HttpError::Timeout);
    assert_eq!(
        error(received(301)),
        HttpError::Http {
            status: 301,
            message: "HTTP error 301".to_string(),
            body: Some("body".to_string()),
        }
    );
}

#[test]
fn a_request_without_a_url_does_not_go_out() {
    let builder = RequestBuilder::new(HttpMethod::Get, "")
        .with_dispatcher(store())
        .with_loader(true)
        .with_progress(true)
        .with_notifications(true);
    let trace = run(builder, vec![]);
    assert_eq!(trace.sent, 0);
    assert_eq!(trace.outcome.err(), Some(HttpError::InvalidUrl { url: String::new() }));
    assert_eq!(trace.health_check, None);
    assert_eq!(
        trace.told,
        vec![
            AppAction::EnableLoader,
            AppAction::UpdateProgress(0),
            AppAction::ShowNotification("Request failed: Invalid URL: ".to_string()),
            AppAction::DisableLoader,
        ]
    );
}

#[test]
fn the_store_is_told_in_order() {
    let builder = request()
        .with_dispatcher(store())
        .with_loader(true)
        .with_progress(true)
        .with_notifications(true)
        .retry(1, 5);
    let trace = run(builder, vec![TransportReply::TimedOut, received(200)]);
    assert_eq!(
        trace.told,
        vec![
            AppAction::EnableLoader,
            AppAction::UpdateProgress(0),
            AppAction::UpdateProgress(50),
            AppAction::ShowNotification("Request failed: Request timeout".to_string()),
            AppAction::DisableLoader,
            AppAction::EnableLoader,
            AppAction::UpdateProgress(0),
            AppAction::UpdateProgress(50),
            AppAction::ShowNotification("Request completed successfully (200)".to_string()),
            AppAction::UpdateProgress(100),
            AppAction::DisableLoader,
        ]
    );
}

#[test]
fn without_a_store_nothing_is_told() {
    let builder = request().with_loader(true).with_progress(true).with_notifications(true);
    assert_eq!(run(builder, vec![received(200)]).told, vec![]);
}

#[test]
fn an_answer_that_is_no_success_is_shown_as_such() {
    let answer = HttpResponse {
        status: 302,
        headers: Headers::new(),
        body: String::new(),
        url: String::new(),
        call_name: None,
    };
    assert_eq!(notification_text(&Ok(answer)), "Request failed with status 302");
}

#[test]
fn uploads_report_their_progress() {
    let upload = |with_progress: bool, dispatch: Option<StoreDispatcher>| {
        let form: web_sys::FormData = wasm_bindgen::JsValue::NULL.unchecked_into();
        upload_file_request("/up", Ok(form), with_progress, dispatch).unwrap()
    };
    let trace = run(upload(true, Some(store())), vec![TransportReply::TimedOut, received(200)]);
    assert_eq!(
        trace.told,
        vec![
            AppAction::UpdateProgress(0),
            AppAction::UpdateProgress(50),
            AppAction::UpdateProgress(0),
            AppAction::UpdateProgress(50),
            AppAction::UpdateProgress(100),
        ]
    );
    assert_eq!(run(upload(false, Some(store())), vec![received(200)]).told, vec![]);
    assert_eq!(run(upload(true, None), vec![received(200)]).told, vec![]);
}
