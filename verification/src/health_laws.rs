//! What holds of the health manager whatever happens to it.

use crate::client::BuildProfile;
use crate::error::HttpErrorView;
use crate::health_manager::{
    check_result, complete_outage, complete_outage_message, cooling_down, health_request,
    initial_state, partial_outage_message, reported_status, start_result, state_after_check,
    state_after_start, triggers_health_check, unknown_outage, HealthCheckStartView,
    HealthManagerView, HealthResponse, HealthResponseView, HEALTH_CHECK_COOLDOWN_MS,
};
use crate::response::{success_status, HttpResponseView};
use crate::store::{texts_view, AppActionView, HealthStatusView};
use crate::text::law_pieces_lie_between_cuts;
use vstd::prelude::*;

verus! {

/// What can happen to the health manager.
pub enum HealthEvent {
    /// Somebody wishes to start a health check at the time `now`.
    Start { now: int },
    /// A health check comes to `status` at the time `now`.
    Finish { status: HealthStatusView, now: int },
}

/// The state after one event.
pub open spec fn state_after(state: HealthManagerView, event: HealthEvent) -> HealthManagerView {
    match event {
        HealthEvent::Start { now } => state_after_start(state, now),
        HealthEvent::Finish { status, now } => state_after_check(state, status, now),
    }
}

/// The state after `events`, from the start of the application on.
pub open spec fn state_after_all(events: Seq<HealthEvent>) -> HealthManagerView
    decreases events.len(),
{
    if events.len() == 0 {
        initial_state()
    } else {
        state_after(state_after_all(events.drop_last()), events.last())
    }
}

/// Whenever a health check comes to a status, one is running.
pub open spec fn only_running_checks_finish(events: Seq<HealthEvent>) -> bool
    decreases events.len(),
{
    events.len() > 0 ==> {
        &&& only_running_checks_finish(events.drop_last())
        &&& events.last() is Finish ==> state_after_all(events.drop_last()).running
    }
}

/// How many health checks have been started and have not come to a status.
pub open spec fn under_way(events: Seq<HealthEvent>) -> int
    decreases events.len(),
{
    if events.len() == 0 {
        0
    } else {
        let before = events.drop_last();
        under_way(before) + match events.last() {
            HealthEvent::Start { now } => if start_result(
                state_after_all(before),
                now,
            ) is Started {
                1int
            } else {
                0int
            },
            HealthEvent::Finish { .. } => -1int,
        }
    }
}

/// The status that the last finished health check came to.
pub open spec fn last_status(events: Seq<HealthEvent>) -> Option<HealthStatusView>
    decreases events.len(),
{
    if events.len() == 0 {
        None
    } else {
        match events.last() {
            HealthEvent::Start { .. } => last_status(events.drop_last()),
            HealthEvent::Finish { status, .. } => Some(status),
        }
    }
}

/// There is never more than one health check under way, and the manager says
/// that one is running exactly if there is one.
pub proof fn law_one_check_at_a_time(events: Seq<HealthEvent>)
    requires
        only_running_checks_finish(events),
    ensures
        0 <= under_way(events) <= 1,
        under_way(events) == 1 <==> state_after_all(events).running,
    decreases events.len(),
{
    if events.len() > 0 {
        law_one_check_at_a_time(events.drop_last());
    }
}

/// While a health check is running, the wish to start one changes nothing.
pub proof fn law_no_start_while_running(state: HealthManagerView, now: int)
    requires
        state.running,
    ensures
        start_result(state, now) == HealthCheckStartView::AlreadyRunning,
        state_after_start(state, now) == state,
{
}

/// The cached status is the one that the last finished health check came to, and
/// wherever the time of that check is known there is one.
pub proof fn law_cache_holds_the_last_status(events: Seq<HealthEvent>)
    ensures
        state_after_all(events).cached == last_status(events),
        state_after_all(events).well_formed(),
    decreases events.len(),
{
    if events.len() > 0 {
        law_cache_holds_the_last_status(events.drop_last());
    }
}

/// The events of wishes to start a health check at the times `times`.
pub open spec fn wishes(times: Seq<int>) -> Seq<HealthEvent> {
    times.map_values(|now: int| HealthEvent::Start { now })
}

/// Once a health check has come to `status`, none is started before the cooldown
/// is over, however often one is wished for: each wish is answered by telling the
/// store `status` again, and the state stays as it is.
pub proof fn law_cooldown_answers_from_the_cache(
    events: Seq<HealthEvent>,
    status: HealthStatusView,
    finished: int,
    times: Seq<int>,
)
    requires
        finished > 0,
        forall|i: int|
            0 <= i < times.len() ==> #[trigger] times[i] < finished + HEALTH_CHECK_COOLDOWN_MS,
    ensures
        ({
            let done = events.push(HealthEvent::Finish { status, now: finished });
            let state = state_after_all(done + wishes(times));
            &&& state == state_after_all(done)
            &&& forall|now: int|
                #![trigger start_result(state, now)]
                now < finished + HEALTH_CHECK_COOLDOWN_MS ==> (start_result(
                    state,
                    now,
                ) matches HealthCheckStartView::CoolingDown { remaining_s, told_again }
                    && told_again == Some(AppActionView::ServiceHealthUpdated(status))
                    && remaining_s * 1000 <= finished + HEALTH_CHECK_COOLDOWN_MS - now < (
                remaining_s + 1) * 1000)
        }),
    decreases times.len(),
{
    let done = events.push(HealthEvent::Finish { status, now: finished });
    assert(done.drop_last() =~= events);
    if times.len() == 0 {
        assert(done + wishes(times) =~= done);
    } else {
        let before = times.drop_last();
        law_cooldown_answers_from_the_cache(events, status, finished, before);
        assert((done + wishes(times)).drop_last() =~= done + wishes(before));
        assert((done + wishes(times)).last() == HealthEvent::Start { now: times.last() });
        assert(times.last() == times[times.len() - 1]);
    }
}

/// When the cooldown is over and no health check is running, the next one wished
/// for is started.
pub proof fn law_check_starts_after_the_cooldown(
    state: HealthManagerView,
    status: HealthStatusView,
    finished: int,
    now: int,
)
    requires
        now >= finished + HEALTH_CHECK_COOLDOWN_MS,
    ensures
        start_result(state_after_check(state, status, finished), now) is Started,
        state_after_start(state_after_check(state, status, finished), now).running,
{
}

/// The first health check wished for is started.
pub proof fn law_first_check_starts(now: int)
    ensures
        start_result(initial_state(), now) is Started,
{
}

/// Client errors, requests that the user gave up, invalid URLs, errors of
/// serialization, of configuration and of the form of an answer trigger no health
/// check, and of all statuses only 502, 503 and 504 do.
pub proof fn law_what_triggers_no_health_check(error: HttpErrorView)
    ensures
        error is Cancelled || error is InvalidUrl || error is Serialization || error is Configuration
            || error is InvalidResponse || error.is_final() ==> !triggers_health_check(error),
        error matches HttpErrorView::Http { status, message, body } ==> (triggers_health_check(
            error,
        ) <==> status == 502 || status == 503 || status == 504),
{
}

/// A message of the health endpoint's own is kept. Without one, an outage still
/// comes with a message, and only where all is well there is none.
pub proof fn law_outages_come_with_a_message(response: HealthResponseView, now: int)
    ensures
        response.message.len() > 0 ==> reported_status(response, now).message == response.message,
        response.all_services_down || response.down_services.len() > 0 ==> reported_status(
            response,
            now,
        ).message.len() > 0,
        response.message.len() == 0 && !response.all_services_down && response.down_services.len()
            == 0 ==> reported_status(response, now).message.len() == 0,
{
    lemma_messages_are_not_empty();
}

/// The messages of outages say something.
proof fn lemma_messages_are_not_empty()
    ensures
        complete_outage_message().len() > 0,
        partial_outage_message().len() > 0,
{
    reveal_strlit("System is temporarily unavailable due to maintenance or technical issues.");
    reveal_strlit(
        "Some services are temporarily unavailable. You may experience issues in those modules. Our team has been notified.",
    );
}

/// A health check that learns nothing from the health endpoint reports an outage:
/// a complete one where the endpoint was not reached or answered with an error, a
/// partial one where it could not be understood. Either comes with a message and
/// names a service.
pub proof fn law_failed_checks_report_an_outage(
    result: Result<HttpResponseView, HttpErrorView>,
    read: Result<HealthResponse, String>,
    now: int,
)
    requires
        result is Err || read is Err || (result matches Ok(response) && !success_status(
            response.status,
        )),
    ensures
        check_result(result, read, now).message.len() > 0,
        check_result(result, read, now).down_services.len() > 0,
        check_result(result, read, now).last_updated == now,
        result is Err ==> check_result(result, read, now).all_services_down,
        result matches Ok(response) ==> (check_result(result, read, now).all_services_down
            <==> !success_status(response.status)),
{
    lemma_messages_are_not_empty();
}

/// What the health endpoint says of the services is taken over as it is, at the time
/// of the check. Only where it has no message of its own it gets one: that of a
/// complete outage exactly if all services are down, that of a partial one exactly
/// if not all are but some are named.
pub proof fn law_reports_are_taken_over(response: HealthResponseView, now: int)
    ensures
        ({
            let status = reported_status(response, now);
            let complete =
                "System is temporarily unavailable due to maintenance or technical issues."@;
            let partial =
                "Some services are temporarily unavailable. You may experience issues in those modules. Our team has been notified."@;
            &&& status.all_services_down == response.all_services_down
            &&& status.down_services == response.down_services
            &&& status.last_updated == now
            &&& response.message.len() > 0 ==> status.message == response.message
            &&& response.message.len() == 0 ==> {
                &&& status.message == complete <==> response.all_services_down
                &&& status.message == partial <==> !response.all_services_down
                    && response.down_services.len() > 0
                &&& status.message.len() == 0 <==> !response.all_services_down
                    && response.down_services.len() == 0
            }
        }),
{
    lemma_messages_are_not_empty();
    lemma_messages_differ();
}

/// The messages of a complete and of a partial outage are different.
proof fn lemma_messages_differ()
    ensures
        "System is temporarily unavailable due to maintenance or technical issues."@
            != "Some services are temporarily unavailable. You may experience issues in those modules. Our team has been notified."@,
{
    reveal_strlit("System is temporarily unavailable due to maintenance or technical issues.");
    reveal_strlit(
        "Some services are temporarily unavailable. You may experience issues in those modules. Our team has been notified.",
    );
    assert("System is temporarily unavailable due to maintenance or technical issues."@[1] == 'y');
    assert("Some services are temporarily unavailable. You may experience issues in those modules. Our team has been notified."@[1]
        == 'o');
}

/// The status of a complete outage, and that of one of unknown extent.
pub proof fn law_outages(now: int)
    ensures
        complete_outage(now).all_services_down,
        complete_outage(now).down_services.len() == 1,
        complete_outage(now).down_services[0] == "health_endpoint"@,
        complete_outage(now).message
            == "System is temporarily unavailable due to maintenance or technical issues."@,
        complete_outage(now).last_updated == now,
        !unknown_outage(now).all_services_down,
        unknown_outage(now).down_services.len() == 1,
        unknown_outage(now).down_services[0] == "unknown"@,
        unknown_outage(now).message
            == "Some services are temporarily unavailable. You may experience issues in those modules. Our team has been notified."@,
        unknown_outage(now).last_updated == now,
{
}

/// What a health check comes to, whatever the result of its request. The services
/// are as the health endpoint says, if it answered with a success (2xx) and could be
/// understood. If it answered so but could not be understood, some unknown services
/// are down. If it was not reached or answered otherwise, all are.
pub proof fn law_what_a_check_comes_to(
    result: Result<HttpResponseView, HttpErrorView>,
    read: Result<HealthResponse, String>,
    now: int,
)
    ensures
        ({
            let status = check_result(result, read, now);
            let answered = result matches Ok(response) && 200 <= response.status < 300;
            &&& status.last_updated == now
            &&& answered ==> match read {
                Ok(words) => {
                    &&& status.all_services_down == words.all_services_down
                    &&& status.down_services == texts_view(words.down_services@)
                    &&& words.message@.len() > 0 ==> status.message == words.message@
                    &&& words.message@.len() == 0 && words.all_services_down ==> status.message
                        == "System is temporarily unavailable due to maintenance or technical issues."@
                    &&& words.message@.len() == 0 && !words.all_services_down
                        && words.down_services@.len() > 0 ==> status.message
                        == "Some services are temporarily unavailable. You may experience issues in those modules. Our team has been notified."@
                    &&& words.message@.len() == 0 && !words.all_services_down
                        && words.down_services@.len() == 0 ==> status.message.len() == 0
                },
                Err(_) => {
                    &&& !status.all_services_down
                    &&& status.down_services == seq!["unknown"@]
                    &&& status.message
                        == "Some services are temporarily unavailable. You may experience issues in those modules. Our team has been notified."@
                },
            }
            &&& !answered ==> {
                &&& status.all_services_down
                &&& status.down_services == seq!["health_endpoint"@]
                &&& status.message
                    == "System is temporarily unavailable due to maintenance or technical issues."@
            }
        }),
{
}

/// Timeouts trigger a health check. Of the errors of the network exactly those do
/// whose message can be cut so that the words of a refused or failed connection lie
/// between the cuts.
pub proof fn law_what_triggers_a_health_check(error: HttpErrorView)
    ensures
        error is Timeout ==> triggers_health_check(error),
        error matches HttpErrorView::Network { message } ==> (triggers_health_check(error)
            <==> exists|before: Seq<char>, after: Seq<char>|
            {
                ||| message == #[trigger] (before + "Connection refused"@ + after)
                ||| message == before + "NetworkError"@ + after
                ||| message == before + "Failed to fetch"@ + after
                ||| message == before + "TypeError"@ + after
            }),
{
    if let HttpErrorView::Network { message } = error {
        law_pieces_lie_between_cuts(message, "Connection refused"@);
        law_pieces_lie_between_cuts(message, "NetworkError"@);
        law_pieces_lie_between_cuts(message, "Failed to fetch"@);
        law_pieces_lie_between_cuts(message, "TypeError"@);
        lemma_cuts_carry_over(message, "NetworkError"@);
        lemma_cuts_carry_over(message, "Failed to fetch"@);
        lemma_cuts_carry_over(message, "TypeError"@);
    }
}

/// Cuts around a piece can be named beside those around the words of a refused
/// connection.
proof fn lemma_cuts_carry_over(message: Seq<char>, piece: Seq<char>)
    ensures
        (exists|before: Seq<char>, after: Seq<char>|
            message == #[trigger] (before + piece + after)) ==> exists|
            before: Seq<char>,
            after: Seq<char>,
        |
            {
                let other = #[trigger] (before + "Connection refused"@ + after);
                message == before + piece + after && other.len() >= 0
            },
{
    if exists|before: Seq<char>, after: Seq<char>| message == #[trigger] (before + piece + after) {
        let (before, after) = choose|before: Seq<char>, after: Seq<char>|
            message == #[trigger] (before + piece + after);
        assert((before + "Connection refused"@ + after).len() >= 0);
    }
}

/// At the start no check is running, none has been completed, and no result is
/// known.
pub proof fn law_how_the_manager_starts()
    ensures
        !initial_state().running,
        initial_state().last_check == 0,
        initial_state().cached is None,
        initial_state().well_formed(),
{
}

/// A state is well-formed exactly if the result of a completed check is known
/// wherever its time is.
pub proof fn law_well_formed_states(state: HealthManagerView)
    ensures
        state.well_formed() <==> state.cached is Some || state.last_check <= 0,
{
}

/// What becomes of a wish for a health check, in every state and at every time. It is
/// skipped while one is running. It is skipped for two minutes after a completed one,
/// whose result the store is told again. Otherwise the check is started.
pub proof fn law_what_becomes_of_a_wish(state: HealthManagerView, now: int)
    ensures
        ({
            let recent = state.last_check > 0 && now - state.last_check < 120_000;
            &&& cooling_down(state, now) <==> recent
            &&& start_result(state, now) is AlreadyRunning <==> state.running
            &&& start_result(state, now) is CoolingDown <==> !state.running && recent
            &&& start_result(state, now) is Started <==> !state.running && !recent
            &&& start_result(state, now) matches HealthCheckStartView::CoolingDown {
                remaining_s,
                told_again,
            } ==> {
                &&& remaining_s == (120_000 - (now - state.last_check)) / 1000
                &&& told_again is Some <==> state.cached is Some
                &&& state.cached matches Some(status) ==> told_again == Some(
                    AppActionView::ServiceHealthUpdated(status),
                )
            }
        }),
{
}

/// A wish for a health check changes nothing but that a check may be running, and
/// that exactly if one is started.
pub proof fn law_wishes_change_little(state: HealthManagerView, now: int)
    ensures
        state_after_start(state, now).running <==> state.running || start_result(
            state,
            now,
        ) is Started,
        state_after_start(state, now).last_check == state.last_check,
        state_after_start(state, now).cached == state.cached,
{
}

/// When a check has come to a status, none is running, the time is that of the check,
/// and the status is known, whatever the state was before.
pub proof fn law_checks_are_recorded(state: HealthManagerView, status: HealthStatusView, now: int)
    ensures
        !state_after_check(state, status, now).running,
        state_after_check(state, status, now).last_check == now,
        state_after_check(state, status, now).cached == Some(status),
        state_after_check(state, status, now).well_formed(),
{
}

/// A health check asks `/health/` and sends nothing but that. It has ten seconds, is
/// silent, starts no health check of its own, and is tried again like any GET
/// request.
pub proof fn law_requests_of_health_checks(profile: BuildProfile)
    ensures
        ({
            let request = health_request(profile);
            &&& request.config.method is Get
            &&& request.config.url == "/health/"@
            &&& forall|name: Seq<char>| !(#[trigger] request.config.headers.contains_key(name))
            &&& request.config.body is Empty
            &&& request.config.timeout_ms == Some(10_000u32)
            &&& !request.config.with_loader
            &&& !request.config.with_progress
            &&& !request.config.with_notifications
            &&& request.config.call_name is None
            &&& request.config.skip_health_check
            &&& request.dispatch is None
            &&& request.config.retry_delay_ms == 1000
            &&& profile is Release ==> request.config.retry_count == 2
            &&& profile is Debug ==> request.config.retry_count == 3
        }),
{
}

} // verus!
