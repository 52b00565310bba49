//! Centralized health manager for service health monitoring.
//!
//! It decides about health checks with:
//! - cooldown management (2-minute cache)
//! - recursion prevention (only one health check at a time)
//! - duplicate request prevention
//! - service status caching
//!
//! Health checks are only triggered after repeated failures: a request has been
//! tried again and has failed in all its attempts, the last time with one of:
//! - 502 Bad Gateway
//! - 503 Service Unavailable
//! - 504 Gateway Timeout
//! - timeout errors
//! - connection refused errors
//!
//! Times are milliseconds since the epoch. A time of zero stands for no time.

use crate::builder::{RequestBuilder, RequestBuilderView};
use crate::client::{new_client, BuildProfile, HttpClient};
use crate::error::{HttpError, HttpErrorView};
use crate::request::RequestConfigView;
use crate::response::{outcome_view, success_status, HttpResponse, HttpResponseView};
use crate::store::{texts_view, AppAction, AppActionView, HealthStatus, HealthStatusView};
use crate::text::{contains, joined, occurs_in};
use vstd::prelude::*;

verus! {

/// Cooldown duration before a new health check can be initiated (in milliseconds)
pub const HEALTH_CHECK_COOLDOWN_MS: i64 = 120_000;

/// State of the health manager
#[derive(Debug)]
pub struct HealthManagerState {
    /// Whether a health check is currently in progress
    health_check_in_progress: bool,
    /// Time of the last completed health check
    last_health_check_time: i64,
    /// Cached health status result
    cached_status: Option<HealthStatus>,
}

/// A [`HealthManagerState`] with its texts as sequences of characters.
pub struct HealthManagerView {
    pub running: bool,
    pub last_check: int,
    pub cached: Option<HealthStatusView>,
}

/// An optional status, by view.
pub open spec fn status_view(status: Option<HealthStatus>) -> Option<HealthStatusView> {
    match status {
        Some(status) => Some(status@),
        None => None,
    }
}

impl HealthManagerView {
    /// Where the time of a completed check is known, so is its result.
    pub open spec fn well_formed(self) -> bool {
        self.last_check > 0 ==> self.cached is Some
    }
}

impl View for HealthManagerState {
    type V = HealthManagerView;

    closed spec fn view(&self) -> HealthManagerView {
        HealthManagerView {
            running: self.health_check_in_progress,
            last_check: self.last_health_check_time as int,
            cached: status_view(self.cached_status),
        }
    }
}

impl HealthManagerState {
    #[verifier::type_invariant]
    spec fn result_goes_with_time(&self) -> bool {
        self@.well_formed()
    }

    /// No check is running and none has been completed.
    pub fn new() -> (state: Self)
        ensures
            state@ == initial_state(),
            state@.well_formed(),
    {
        HealthManagerState {
            health_check_in_progress: false,
            last_health_check_time: 0,
            cached_status: None,
        }
    }
}

/// No check is running and none has been completed.
pub open spec fn initial_state() -> HealthManagerView {
    HealthManagerView { running: false, last_check: 0, cached: None }
}

/// `error` warrants a health check.
pub open spec fn triggers_health_check(error: HttpErrorView) -> bool {
    match error {
        HttpErrorView::Http { status, message, body } => status == 502 || status == 503 || status
            == 504,
        HttpErrorView::Timeout => true,
        HttpErrorView::Network { message } => {
            ||| occurs_in(message, "Connection refused"@)
            ||| occurs_in(message, "NetworkError"@)
            ||| occurs_in(message, "Failed to fetch"@)
            ||| occurs_in(message, "TypeError"@)
        },
        _ => false,
    }
}

/// Determines if an error type warrants a health check
pub fn is_health_check_trigger_error(error: &HttpError) -> (trigger: bool)
    ensures
        trigger == triggers_health_check(error@),
        error is Timeout ==> trigger,
        *error matches HttpError::Http { status, .. } ==> trigger == (502 <= status <= 504),
{
    match error {
        HttpError::Http { status, .. } => { *status == 502 || *status == 503 || *status == 504 },
        HttpError::Timeout => true,
        HttpError::Network { message } => {
            // Connection refused or network errors
            contains(message.as_str(), "Connection refused") || contains(
                message.as_str(),
                "NetworkError",
            ) || contains(message.as_str(), "Failed to fetch") || contains(
                message.as_str(),
                "TypeError",
            )
        },
        _ => false,
    }
}

/// What becomes of the wish to start a health check.
#[derive(Debug, PartialEq)]
pub enum HealthCheckStart {
    /// One is running; this one is skipped.
    AlreadyRunning,
    /// The last one is recent enough: this one is skipped, and the store is told
    /// its result again. The cooldown ends in so many full seconds.
    CoolingDown { remaining_s: u64, told_again: Option<AppAction> },
    /// It is to be performed now.
    Started,
}

/// A [`HealthCheckStart`] with its texts as sequences of characters.
pub enum HealthCheckStartView {
    AlreadyRunning,
    CoolingDown { remaining_s: int, told_again: Option<AppActionView> },
    Started,
}

impl View for HealthCheckStart {
    type V = HealthCheckStartView;

    open spec fn view(&self) -> HealthCheckStartView {
        match *self {
            HealthCheckStart::AlreadyRunning => HealthCheckStartView::AlreadyRunning,
            HealthCheckStart::CoolingDown { remaining_s, told_again } =>
                HealthCheckStartView::CoolingDown {
                remaining_s: remaining_s as int,
                told_again: match told_again {
                    Some(action) => Some(action@),
                    None => None,
                },
            },
            HealthCheckStart::Started => HealthCheckStartView::Started,
        }
    }
}

impl HealthCheckStart {
    /// Whether a health check was initiated.
    pub fn initiated(&self) -> (initiated: bool)
        ensures
            initiated == (self@ is Started),
    {
        match self {
            HealthCheckStart::Started => true,
            _ => false,
        }
    }
}

/// The last check was completed less than the cooldown ago.
pub open spec fn cooling_down(state: HealthManagerView, now: int) -> bool {
    state.last_check > 0 && now - state.last_check < HEALTH_CHECK_COOLDOWN_MS
}

/// What becomes of the wish to start a health check at the time `now`.
pub open spec fn start_result(state: HealthManagerView, now: int) -> HealthCheckStartView {
    if state.running {
        HealthCheckStartView::AlreadyRunning
    } else if cooling_down(state, now) {
        HealthCheckStartView::CoolingDown {
            remaining_s: (state.last_check + HEALTH_CHECK_COOLDOWN_MS - now) / 1000,
            told_again: match state.cached {
                Some(status) => Some(AppActionView::ServiceHealthUpdated(status)),
                None => None,
            },
        }
    } else {
        HealthCheckStartView::Started
    }
}

/// The state after that.
pub open spec fn state_after_start(state: HealthManagerView, now: int) -> HealthManagerView {
    if start_result(state, now) is Started {
        HealthManagerView { running: true, ..state }
    } else {
        state
    }
}

/// The state after a health check has come to `status` at the time `now`.
pub open spec fn state_after_check(
    state: HealthManagerView,
    status: HealthStatusView,
    now: int,
) -> HealthManagerView {
    HealthManagerView { running: false, last_check: now, cached: Some(status) }
}

/// Start a health check if conditions are met.
pub fn start_health_check(state: &mut HealthManagerState, now: i64) -> (start: HealthCheckStart)
    ensures
        start@ == start_result(old(state)@, now as int),
        final(state)@ == state_after_start(old(state)@, now as int),
        final(state)@.well_formed(),
        start@ matches HealthCheckStartView::CoolingDown { remaining_s, told_again }
            ==> told_again is Some,
{
    proof {
        use_type_invariant(&*state);
    }
    // Prevent recursion: if a health check is already in progress, skip
    if state.health_check_in_progress {
        return HealthCheckStart::AlreadyRunning;
    }
    // Check cooldown: if last check was within 2 minutes, reuse cached result

    if state.last_health_check_time > 0 {
        let elapsed: i128 = now as i128 - state.last_health_check_time as i128;
        if elapsed < HEALTH_CHECK_COOLDOWN_MS as i128 {
            let remaining: i128 = HEALTH_CHECK_COOLDOWN_MS as i128 - elapsed;
            let told_again = match &state.cached_status {
                Some(cached) => Some(AppAction::ServiceHealthUpdated(cached.clone())),
                None => None,
            };
            return HealthCheckStart::CoolingDown {
                remaining_s: (remaining / 1000) as u64,
                told_again,
            };
        }
    }
    // Mark health check as in progress to prevent recursion

    state.health_check_in_progress = true;
    HealthCheckStart::Started
}

/// Check if a health check is currently running
pub fn is_health_check_running(state: &HealthManagerState) -> (running: bool)
    ensures
        running == state@.running,
{
    state.health_check_in_progress
}

/// Get the cached health status, if any
pub fn get_cached_status(state: &HealthManagerState) -> (status: Option<HealthStatus>)
    ensures
        status_view(status) == state@.cached,
{
    match &state.cached_status {
        Some(status) => Some(status.clone()),
        None => None,
    }
}

/// Records that a health check has come to `status`.
pub fn finish_health_check(state: &mut HealthManagerState, status: HealthStatus, now: i64)
    ensures
        final(state)@ == state_after_check(old(state)@, status@, now as int),
        final(state)@.well_formed(),
{
    *state =
    HealthManagerState {
        health_check_in_progress: false,
        last_health_check_time: now,
        cached_status: Some(status),
    };
}

/// What the store is told of a status.
pub fn health_update(status: &HealthStatus) -> (action: AppAction)
    ensures
        action@ == AppActionView::ServiceHealthUpdated(status@),
{
    AppAction::ServiceHealthUpdated(status.clone())
}

/// The request of a health check: it has ten seconds, tells no store, and starts
/// no further health check.
pub open spec fn health_request(profile: BuildProfile) -> RequestBuilderView {
    let request = new_client(None).get_request("/health/"@, profile);
    request.with_config(
        RequestConfigView { timeout_ms: Some(10_000), skip_health_check: true, ..request.config },
    )
}

/// The request of a health check.
pub fn health_check_request(profile: BuildProfile) -> (request: RequestBuilder)
    ensures
        request@ == health_request(profile),
{
    let client = HttpClient::new();
    client.get("/health/", profile).timeout(10_000).skip_health_check()
}

/// What the health endpoint says of the services.
#[derive(Debug, PartialEq)]
pub struct HealthResponse {
    pub all_services_down: bool,
    pub down_services: Vec<String>,
    pub message: String,
}

/// A [`HealthResponse`] with its texts as sequences of characters.
pub struct HealthResponseView {
    pub all_services_down: bool,
    pub down_services: Seq<Seq<char>>,
    pub message: Seq<char>,
}

impl View for HealthResponse {
    type V = HealthResponseView;

    open spec fn view(&self) -> HealthResponseView {
        HealthResponseView {
            all_services_down: self.all_services_down,
            down_services: texts_view(self.down_services@),
            message: self.message@,
        }
    }
}

/// What users are told when nothing works.
pub open spec fn complete_outage_message() -> Seq<char> {
    "System is temporarily unavailable due to maintenance or technical issues."@
}

/// What users are told when some services do not work.
pub open spec fn partial_outage_message() -> Seq<char> {
    "Some services are temporarily unavailable. You may experience issues in those modules. Our team has been notified."@
}

/// What users are told when nothing works.
fn complete_outage_text() -> (text: String)
    ensures
        text@ == complete_outage_message(),
{
    "System is temporarily unavailable due to maintenance or technical issues.".to_string()
}

/// What users are told when some services do not work.
fn partial_outage_text() -> (text: String)
    ensures
        text@ == partial_outage_message(),
{
    "Some services are temporarily unavailable. You may experience issues in those modules. Our team has been notified.".to_string()
}

/// The status that the health endpoint's words amount to. Where it sends no
/// message of its own, an outage gets one.
pub open spec fn reported_status(response: HealthResponseView, now: int) -> HealthStatusView {
    HealthStatusView {
        all_services_down: response.all_services_down,
        down_services: response.down_services,
        message: if response.message.len() > 0 {
            response.message
        } else if response.all_services_down {
            complete_outage_message()
        } else if response.down_services.len() > 0 {
            partial_outage_message()
        } else {
            Seq::empty()
        },
        last_updated: now,
    }
}

/// The status when the health endpoint cannot be reached or reports an error.
pub open spec fn complete_outage(now: int) -> HealthStatusView {
    HealthStatusView {
        all_services_down: true,
        down_services: seq!["health_endpoint"@],
        message: complete_outage_message(),
        last_updated: now,
    }
}

/// The status when the health endpoint's answer cannot be read.
pub open spec fn unknown_outage(now: int) -> HealthStatusView {
    HealthStatusView {
        all_services_down: false,
        down_services: seq!["unknown"@],
        message: partial_outage_message(),
        last_updated: now,
    }
}

/// The status that the health endpoint's words amount to, given what a JSON
/// reader made of its answer: the words, or the text of the reader's error.
pub fn parse_health_response(read: Result<HealthResponse, String>, now: i64) -> (status: Result<
    HealthStatus,
    String,
>)
    ensures
        match read {
            Ok(response) => status matches Ok(found) && found@ == reported_status(
                response@,
                now as int,
            ) && found.all_services_down == response.all_services_down && texts_view(
                found.down_services@,
            ) == texts_view(response.down_services@) && found.last_updated == now && (
            response.message@.len() > 0 ==> found.message@ == response.message@),
            Err(detail) => status matches Err(text) && text@ == "JSON parse error: "@ + detail@,
        },
{
    match read {
        Ok(response) => {
            let message = if response.message.as_str().is_empty() {
                if response.all_services_down {
                    complete_outage_text()
                } else if !response.down_services.is_empty() {
                    partial_outage_text()
                } else {
                    String::new()
                }
            } else {
                response.message
            };
            Ok(
                HealthStatus {
                    all_services_down: response.all_services_down,
                    down_services: response.down_services,
                    message,
                    last_updated: now,
                },
            )
        },
        Err(detail) => Err(joined("JSON parse error: ", detail.as_str())),
    }
}

/// The body of the health endpoint's answer, if it is there to be read: the
/// request succeeded.
pub fn health_response_body(result: &Result<HttpResponse, HttpError>) -> (body: Option<&str>)
    ensures
        match *result {
            Ok(response) => if success_status(response.status) {
                body matches Some(text) && text@ == response@.body
            } else {
                body is None
            },
            Err(_) => body is None,
        },
{
    match result {
        Ok(response) => if response.is_success() {
            Some(response.text())
        } else {
            None
        },
        Err(_) => None,
    }
}

/// The status that a health check comes to: what the health endpoint says if its
/// request succeeded, a complete outage otherwise. `read` is what a JSON reader
/// made of the body of a successful answer.
pub open spec fn check_result(
    result: Result<HttpResponseView, HttpErrorView>,
    read: Result<HealthResponse, String>,
    now: int,
) -> HealthStatusView {
    match result {
        Ok(response) => if success_status(response.status) {
            match read {
                Ok(words) => reported_status(words@, now),
                Err(_) => unknown_outage(now),
            }
        } else {
            complete_outage(now)
        },
        Err(_) => complete_outage(now),
    }
}

/// A list of one text.
fn one_text(text: &str) -> (texts: Vec<String>)
    ensures
        texts_view(texts@) == seq![text@],
{
    let mut texts: Vec<String> = Vec::new();
    texts.push(text.to_string());
    assert(texts_view(texts@) =~= seq![text@]);
    texts
}

/// The status that a health check comes to, given the result of its request and
/// what a JSON reader made of the body. Where there is no body to be read, `read`
/// is not looked at.
pub fn conclude_health_check(
    result: &Result<HttpResponse, HttpError>,
    read: Result<HealthResponse, String>,
    now: i64,
) -> (status: HealthStatus)
    ensures
        status@ == check_result(outcome_view(*result), read, now as int),
{
    match health_response_body(result) {
        Some(_) => match parse_health_response(read, now) {
            Ok(status) => status,
            // The endpoint answered, but not in words. Since real failures led
            // here, that is taken as a partial outage.
            Err(_) => HealthStatus {
                all_services_down: false,
                down_services: one_text("unknown"),
                message: partial_outage_text(),
                last_updated: now,
            },
        },
        None => HealthStatus {
            all_services_down: true,
            down_services: one_text("health_endpoint"),
            message: complete_outage_text(),
            last_updated: now,
        },
    }
}

/// What a health check reports, given the result of its request and what a JSON
/// reader made of the body: what the store is told, and the status to be recorded
/// by [`finish_health_check`]. The two are the same.
pub fn check_report(
    result: &Result<HttpResponse, HttpError>,
    read: Result<HealthResponse, String>,
    now: i64,
) -> (report: (AppAction, HealthStatus))
    ensures
        report.1@ == check_result(outcome_view(*result), read, now as int),
        report.0@ == AppActionView::ServiceHealthUpdated(report.1@),
{
    let status = conclude_health_check(result, read, now);
    (health_update(&status), status)
}

} // verus!
