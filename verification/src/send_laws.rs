//! What holds of a request from its first step to its last, whatever the replies.

use crate::builder::RequestBuilderView;
use crate::client::BuildProfile;
use crate::error::HttpErrorView;
use crate::exchange::{
    closing_actions, notification, opening_actions, reply_outcome, sending_actions, told_if,
    transmission_of, TransmissionView, TransportReplyView,
};
use crate::health_manager::{health_request, triggers_health_check};
use crate::response::HttpResponseView;
use crate::send::{
    backoff, begin_attempt, health_check_for, on_reply, AttemptView, SendStepView,
};
use crate::store::{AppActionView, StoreDispatcher};
use crate::utils::upload_request;
use vstd::arithmetic::power2::{lemma2_to64, lemma_pow2_unfold, pow2};
use vstd::prelude::*;

verus! {

/// What happens when a request is sent: what the store is told, in order; the
/// waits, in milliseconds; how many times the request goes out; and, if the
/// request has come to an end, its outcome and the store that a health check is
/// started for.
pub struct RunView {
    pub told: Seq<AppActionView>,
    pub waits: Seq<int>,
    pub sent: nat,
    pub end: Option<(Result<HttpResponseView, HttpErrorView>, Option<StoreDispatcher>)>,
}

/// How far a step is from one that needs no reply.
pub open spec fn rank(step: SendStepView) -> nat {
    match step {
        SendStepView::Finish { .. } => 0,
        SendStepView::Transmit { .. } => 1,
        SendStepView::Wait { .. } => 2,
    }
}

/// Carries out `step` and those that follow it, as far as there are replies.
pub open spec fn run_step(step: SendStepView, replies: Seq<TransportReplyView>) -> RunView
    decreases replies.len(), rank(step),
{
    match step {
        SendStepView::Finish { actions, outcome, health_check } => RunView {
            told: actions,
            waits: Seq::empty(),
            sent: 0,
            end: Some((outcome, health_check)),
        },
        SendStepView::Wait { actions, wait_ms, request } => {
            let rest = run_step(begin_attempt(request), replies);
            RunView { told: actions + rest.told, waits: seq![wait_ms] + rest.waits, ..rest }
        },
        SendStepView::Transmit { actions, request } => if replies.len() == 0 {
            RunView { told: actions, waits: Seq::empty(), sent: 1, end: None }
        } else {
            let rest = run_step(on_reply(request, replies.first()), replies.drop_first());
            RunView { told: actions + rest.told, sent: rest.sent + 1, ..rest }
        },
    }
}

/// Sends a request; `replies` are the replies that come back, in order.
pub open spec fn run(builder: RequestBuilderView, replies: Seq<TransportReplyView>) -> RunView {
    run_from(AttemptView { builder, attempt: 0 }, replies)
}

/// The same from some attempt on.
pub open spec fn run_from(request: AttemptView, replies: Seq<TransportReplyView>) -> RunView {
    run_step(begin_attempt(request), replies)
}

/// The outcome of the reply at `at`.
pub open spec fn outcome_at(
    builder: RequestBuilderView,
    replies: Seq<TransportReplyView>,
    at: int,
) -> Result<HttpResponseView, HttpErrorView> {
    reply_outcome(builder.config, replies[at])
}

/// A reply after which the request is tried again, if an attempt is left.
pub open spec fn calls_for_retry(outcome: Result<HttpResponseView, HttpErrorView>) -> bool {
    outcome matches Err(error) && !error.is_final()
}

/// How often `action` occurs.
pub open spec fn times(actions: Seq<AppActionView>, action: AppActionView) -> nat
    decreases actions.len(),
{
    if actions.len() == 0 {
        0
    } else {
        times(actions.drop_last(), action) + if actions.last() == action {
            1nat
        } else {
            0nat
        }
    }
}

/// One attempt of a request with a URL, and what follows it.
proof fn lemma_run_from(request: AttemptView, replies: Seq<TransportReplyView>)
    requires
        request.builder.config.url.len() > 0,
    ensures
        ({
            let b = request.builder;
            let opened = opening_actions(b) + sending_actions(b);
            let run = run_from(request, replies);
            if replies.len() == 0 {
                run == (RunView { told: opened, waits: Seq::empty(), sent: 1, end: None })
            } else {
                let outcome = outcome_at(b, replies, 0);
                let told = opened + closing_actions(b, outcome);
                if calls_for_retry(outcome) && request.attempt < b.config.retry_count {
                    let attempt = (request.attempt + 1) as u32;
                    let rest = run_from(AttemptView { builder: b, attempt }, replies.drop_first());
                    run == (RunView {
                        told: told + rest.told,
                        waits: seq![backoff(b.config.retry_delay_ms, attempt)] + rest.waits,
                        sent: rest.sent + 1,
                        end: rest.end,
                    })
                } else {
                    run == (RunView {
                        told,
                        waits: Seq::empty(),
                        sent: 1,
                        end: Some(
                            (
                                outcome,
                                match outcome {
                                    Ok(_) => None,
                                    Err(error) => if error.is_final() {
                                        None
                                    } else {
                                        health_check_for(b, error)
                                    },
                                },
                            ),
                        ),
                    })
                }
            }
        }),
{
    let b = request.builder;
    let opened = opening_actions(b) + sending_actions(b);
    reveal_with_fuel(run_step, 3);
    if replies.len() > 0 {
        let outcome = outcome_at(b, replies, 0);
        let closed = closing_actions(b, outcome);
        assert(Seq::<AppActionView>::empty() + closed =~= closed);
        if calls_for_retry(outcome) && request.attempt < b.config.retry_count {
            let attempt = (request.attempt + 1) as u32;
            let rest = run_from(AttemptView { builder: b, attempt }, replies.drop_first());
            assert(opened + (closed + rest.told) =~= opened + closed + rest.told);
        }
    }
}

/// A request without a URL never goes out: it ends at once, with no wait and no
/// health check.
pub proof fn law_no_url_never_goes_out(
    builder: RequestBuilderView,
    replies: Seq<TransportReplyView>,
)
    requires
        builder.config.url.len() == 0,
    ensures
        run(builder, replies).sent == 0,
        run(builder, replies).waits.len() == 0,
        run(builder, replies).end == Some(
            (
                Err::<HttpResponseView, _>(
                    HttpErrorView::InvalidUrl { url: builder.config.url },
                ),
                None::<StoreDispatcher>,
            ),
        ),
{
}

/// The bounds of a run that starts at some attempt.
proof fn lemma_bounds(request: AttemptView, replies: Seq<TransportReplyView>)
    requires
        request.attempt <= request.builder.config.retry_count,
    ensures
        ({
            let left = request.builder.config.retry_count - request.attempt;
            let run = run_from(request, replies);
            &&& run.sent <= left + 1
            &&& run.sent <= replies.len() + 1
            &&& replies.len() > left ==> run.end is Some
            &&& run.end is Some ==> run.sent <= replies.len()
            &&& run.sent > 0 ==> run.waits.len() == run.sent - 1
            &&& run.sent == 0 ==> run.waits.len() == 0
            &&& forall|i: int|
                0 <= i < run.waits.len() ==> #[trigger] run.waits[i] == backoff(
                    request.builder.config.retry_delay_ms,
                    (request.attempt + 1 + i) as u32,
                )
        }),
    decreases replies.len(),
{
    if request.builder.config.url.len() > 0 {
        lemma_run_from(request, replies);
        if replies.len() > 0 && calls_for_retry(outcome_at(request.builder, replies, 0))
            && request.attempt < request.builder.config.retry_count {
            let next = AttemptView { attempt: (request.attempt + 1) as u32, ..request };
            lemma_bounds(next, replies.drop_first());
            let rest = run_from(next, replies.drop_first());
            let run = run_from(request, replies);
            assert forall|i: int| 0 <= i < run.waits.len() implies #[trigger] run.waits[i]
                == backoff(
                request.builder.config.retry_delay_ms,
                (request.attempt + 1 + i) as u32,
            ) by {
                if i > 0 {
                    assert(run.waits[i] == rest.waits[i - 1]);
                }
            }
        }
    }
}

/// A request goes out at most once more often than it may be tried again, and
/// once that many replies have come it has come to an end.
pub proof fn law_sending_ends(builder: RequestBuilderView, replies: Seq<TransportReplyView>)
    ensures
        run(builder, replies).sent <= builder.config.retry_count + 1,
        replies.len() > builder.config.retry_count ==> run(builder, replies).end is Some,
{
    lemma_bounds(AttemptView { builder, attempt: 0 }, replies);
}

/// Between any two attempts lies one wait, and the waits back off.
pub proof fn law_waits_back_off(builder: RequestBuilderView, replies: Seq<TransportReplyView>)
    ensures
        run(builder, replies).sent > 0 ==> run(builder, replies).waits.len() == run(
            builder,
            replies,
        ).sent - 1,
        forall|i: int|
            0 <= i < run(builder, replies).waits.len() ==> #[trigger] run(builder, replies).waits[i]
                == backoff(builder.config.retry_delay_ms, (i + 1) as u32),
{
    lemma_bounds(AttemptView { builder, attempt: 0 }, replies);
}

/// The backoff is exponential: the first wait is the configured delay, and each
/// further one is twice the one before it, up to the largest number that a `u32` holds.
pub proof fn law_backoff_doubles(delay_ms: u32, attempt: u32)
    requires
        1 <= attempt < u32::MAX,
    ensures
        backoff(delay_ms, 0) == 0,
        backoff(delay_ms, 1) == delay_ms,
        2 * backoff(delay_ms, attempt) <= u32::MAX ==> backoff(delay_ms, (attempt + 1) as u32) == 2
            * backoff(delay_ms, attempt),
        2 * backoff(delay_ms, attempt) > u32::MAX ==> backoff(delay_ms, (attempt + 1) as u32)
            == u32::MAX,
{
    lemma2_to64();
    assert(delay_ms * pow2(0) == delay_ms);
    lemma_pow2_unfold(attempt as nat);
    let factor = pow2((attempt - 1) as nat) as int;
    assert(delay_ms * (2 * factor) == 2 * (delay_ms * factor)) by (nonlinear_arith);
}

/// An error that ends a request at once triggers no health check.
proof fn lemma_final_errors_trigger_nothing(error: HttpErrorView)
    requires
        error.is_final(),
    ensures
        !triggers_health_check(error),
{
}

/// How a run that starts at some attempt ends.
proof fn lemma_end(request: AttemptView, replies: Seq<TransportReplyView>)
    requires
        request.attempt <= request.builder.config.retry_count,
        request.builder.config.url.len() > 0,
    ensures
        ({
            let b = request.builder;
            let left = b.config.retry_count - request.attempt;
            let run = run_from(request, replies);
            &&& run.sent >= 1
            &&& forall|i: int|
                0 <= i < run.sent - 1 ==> calls_for_retry(#[trigger] outcome_at(b, replies, i))
            &&& run.end matches Some((outcome, health_check)) ==> {
                &&& run.sent <= replies.len()
                &&& outcome == outcome_at(b, replies, run.sent - 1)
                &&& calls_for_retry(outcome) ==> run.sent == left + 1
                &&& health_check == match outcome {
                    Ok(_) => None,
                    Err(error) => health_check_for(b, error),
                }
            }
        }),
    decreases replies.len(),
{
    let b = request.builder;
    lemma_run_from(request, replies);
    if replies.len() > 0 {
        let outcome = outcome_at(b, replies, 0);
        if let Err(error) = outcome {
            if error.is_final() {
                lemma_final_errors_trigger_nothing(error);
            }
        }
        if calls_for_retry(outcome) && request.attempt < b.config.retry_count {
            let next = AttemptView { attempt: (request.attempt + 1) as u32, ..request };
            let tail = replies.drop_first();
            lemma_end(next, tail);
            let rest = run_from(next, tail);
            let run = run_from(request, replies);
            assert forall|i: int| 0 <= i < run.sent - 1 implies calls_for_retry(
                #[trigger] outcome_at(b, replies, i),
            ) by {
                if i > 0 {
                    lemma_bounds(next, tail);
                    assert(outcome_at(b, tail, i - 1) == outcome_at(b, replies, i));
                }
            }
            if rest.end is Some {
                assert(outcome_at(b, tail, rest.sent - 1) == outcome_at(b, replies, rest.sent as int));
            }
        }
    }
}

/// A request comes to what its last reply amounts to. All replies before it are
/// errors that call for another attempt. The last one is a success, or an error
/// that calls for none, or no attempt is left.
pub proof fn law_outcome_is_that_of_the_last_reply(
    builder: RequestBuilderView,
    replies: Seq<TransportReplyView>,
)
    requires
        builder.config.url.len() > 0,
    ensures
        ({
            let run = run(builder, replies);
            &&& run.sent >= 1
            &&& forall|i: int|
                0 <= i < run.sent - 1 ==> calls_for_retry(
                    #[trigger] outcome_at(builder, replies, i),
                )
            &&& run.end matches Some((outcome, health_check)) ==> {
                &&& run.sent <= replies.len()
                &&& outcome == outcome_at(builder, replies, run.sent - 1)
                &&& calls_for_retry(outcome) ==> run.sent == builder.config.retry_count + 1
            }
        }),
{
    lemma_end(AttemptView { builder, attempt: 0 }, replies);
}

/// Where a run that starts at some attempt stops: at the reply `last`.
proof fn lemma_stops_at(request: AttemptView, replies: Seq<TransportReplyView>, last: int)
    requires
        request.builder.config.url.len() > 0,
        0 <= last < replies.len(),
        request.attempt + last <= request.builder.config.retry_count,
        forall|i: int|
            0 <= i < last ==> calls_for_retry(#[trigger] outcome_at(request.builder, replies, i)),
        calls_for_retry(outcome_at(request.builder, replies, last)) ==> request.attempt + last
            == request.builder.config.retry_count,
    ensures
        run_from(request, replies).sent == last + 1,
        run_from(request, replies).end matches Some((outcome, _)) && outcome == outcome_at(
            request.builder,
            replies,
            last,
        ),
    decreases last,
{
    let b = request.builder;
    lemma_run_from(request, replies);
    if last > 0 {
        assert(calls_for_retry(outcome_at(b, replies, 0)));
        let next = AttemptView { attempt: (request.attempt + 1) as u32, ..request };
        let tail = replies.drop_first();
        assert forall|i: int| 0 <= i < last - 1 implies calls_for_retry(
            #[trigger] outcome_at(b, tail, i),
        ) by {
            assert(calls_for_retry(outcome_at(b, replies, i + 1)));
        }
        assert(outcome_at(b, tail, last - 1) == outcome_at(b, replies, last));
        lemma_stops_at(next, tail, last - 1);
    }
}

/// As long as attempts are left, a request is tried again after every reply that
/// calls for it. The first one that does not settles the request, and where all
/// attempts are used up the last one does.
pub proof fn law_retried_until_settled(
    builder: RequestBuilderView,
    replies: Seq<TransportReplyView>,
    last: int,
)
    requires
        builder.config.url.len() > 0,
        0 <= last < replies.len(),
        last <= builder.config.retry_count,
        forall|i: int|
            0 <= i < last ==> calls_for_retry(#[trigger] outcome_at(builder, replies, i)),
        calls_for_retry(outcome_at(builder, replies, last)) ==> last == builder.config.retry_count,
    ensures
        run(builder, replies).sent == last + 1,
        run(builder, replies).end matches Some((outcome, _)) && outcome == outcome_at(
            builder,
            replies,
            last,
        ),
{
    lemma_stops_at(AttemptView { builder, attempt: 0 }, replies, last);
}

/// A client error (4xx) ends the request: it is not tried again.
pub proof fn law_client_errors_are_not_retried(
    builder: RequestBuilderView,
    replies: Seq<TransportReplyView>,
)
    requires
        builder.config.url.len() > 0,
        replies.len() > 0,
        replies[0] matches TransportReplyView::Received { status, url, body } && 400 <= status
            < 500,
    ensures
        run(builder, replies).sent == 1,
        run(builder, replies).end == Some(
            (outcome_at(builder, replies, 0), None::<StoreDispatcher>),
        ),
{
    lemma_run_from(AttemptView { builder, attempt: 0 }, replies);
}

/// A health check is started exactly if a request that may be tried again and
/// does not forbid it has come to an error that triggers one and has a store to be
/// told. It is started for that store, and only after repeated failures: no
/// attempt is left, there were at least two, and all of them failed.
pub proof fn law_health_checks_follow_exhausted_retries(
    builder: RequestBuilderView,
    replies: Seq<TransportReplyView>,
)
    ensures
        run(builder, replies).end matches Some((outcome, health_check)) ==> {
            &&& health_check is Some <==> (builder.dispatch is Some && builder.config.retry_count
                >= 1 && !builder.config.skip_health_check && (outcome matches Err(error)
                && triggers_health_check(error)))
            &&& health_check is Some ==> health_check == builder.dispatch
            &&& health_check is Some ==> run(builder, replies).sent == builder.config.retry_count
                + 1
            &&& health_check is Some ==> run(builder, replies).sent >= 2
            &&& health_check is Some ==> forall|i: int|
                0 <= i < run(builder, replies).sent ==> #[trigger] outcome_at(
                    builder,
                    replies,
                    i,
                ) is Err
        },
{
    if builder.config.url.len() > 0 {
        lemma_end(AttemptView { builder, attempt: 0 }, replies);
        if let Some((Err(error), health_check)) = run(builder, replies).end {
            if error.is_final() {
                lemma_final_errors_trigger_nothing(error);
            }
        }
    }
}

/// Without a store nothing is told.
proof fn lemma_silent(request: AttemptView, replies: Seq<TransportReplyView>)
    requires
        request.builder.dispatch is None,
    ensures
        run_from(request, replies).told.len() == 0,
    decreases replies.len(),
{
    if request.builder.config.url.len() > 0 {
        lemma_run_from(request, replies);
        if replies.len() > 0 && calls_for_retry(outcome_at(request.builder, replies, 0))
            && request.attempt < request.builder.config.retry_count {
            let next = AttemptView { attempt: (request.attempt + 1) as u32, ..request };
            lemma_silent(next, replies.drop_first());
        }
    }
}

/// A request without a store tells nothing and starts no health check.
pub proof fn law_no_store_no_actions(
    builder: RequestBuilderView,
    replies: Seq<TransportReplyView>,
)
    requires
        builder.dispatch is None,
    ensures
        run(builder, replies).told.len() == 0,
        run(builder, replies).end matches Some((outcome, health_check)) ==> health_check is None,
{
    lemma_silent(AttemptView { builder, attempt: 0 }, replies);
    law_health_checks_follow_exhausted_retries(builder, replies);
}

/// The request of a health check starts no health check and tells no store, so
/// health checks never lead to further ones.
pub proof fn law_health_checks_do_not_recurse(
    profile: BuildProfile,
    replies: Seq<TransportReplyView>,
)
    ensures
        run(health_request(profile), replies).told.len() == 0,
        run(health_request(profile), replies).end matches Some((outcome, health_check))
            ==> health_check is None,
        health_request(profile).config.skip_health_check,
{
    law_no_store_no_actions(health_request(profile), replies);
}

/// The occurrences in two lists add up.
proof fn lemma_times_add(a: Seq<AppActionView>, b: Seq<AppActionView>, action: AppActionView)
    ensures
        times(a + b, action) == times(a, action) + times(b, action),
    decreases b.len(),
{
    if b.len() == 0 {
        assert(a + b =~= a);
    } else {
        assert((a + b).drop_last() =~= a + b.drop_last());
        assert((a + b).last() == b.last());
        lemma_times_add(a, b.drop_last(), action);
    }
}

/// The occurrences in a list of at most one action.
proof fn lemma_times_told(told: bool, single: AppActionView, action: AppActionView)
    ensures
        times(told_if(told, single), action) == if told && single == action {
            1nat
        } else {
            0nat
        },
{
    reveal_with_fuel(times, 2);
    if told {
        assert(seq![single].drop_last() =~= Seq::<AppActionView>::empty());
    }
}

/// How often one attempt tells `action`.
proof fn lemma_times_in_attempt(
    b: RequestBuilderView,
    outcome: Result<HttpResponseView, HttpErrorView>,
    action: AppActionView,
)
    requires
        !(action is ShowNotification),
    ensures
        times(opening_actions(b), action) == if b.dispatch is Some && ((b.config.with_loader
            && action == AppActionView::EnableLoader) || (b.config.with_progress && action
            == AppActionView::UpdateProgress(0))) {
            1nat
        } else {
            0nat
        },
        times(sending_actions(b), action) == if b.dispatch is Some && b.config.with_progress
            && action == AppActionView::UpdateProgress(50) {
            1nat
        } else {
            0nat
        },
        times(closing_actions(b, outcome), action) == if b.dispatch is Some && ((
        b.config.with_loader && action == AppActionView::DisableLoader) || (b.config.with_progress
            && outcome is Ok && action == AppActionView::UpdateProgress(100))) {
            1nat
        } else {
            0nat
        },
{
    let told = b.dispatch is Some;
    let loader = told_if(told && b.config.with_loader, AppActionView::EnableLoader);
    let start = told_if(told && b.config.with_progress, AppActionView::UpdateProgress(0));
    lemma_times_told(told && b.config.with_loader, AppActionView::EnableLoader, action);
    lemma_times_told(told && b.config.with_progress, AppActionView::UpdateProgress(0), action);
    lemma_times_add(loader, start, action);
    lemma_times_told(told && b.config.with_progress, AppActionView::UpdateProgress(50), action);
    let note = AppActionView::ShowNotification(notification(outcome));
    let noted = told_if(told && b.config.with_notifications, note);
    let full = told && b.config.with_progress && outcome is Ok;
    let done = told_if(full, AppActionView::UpdateProgress(100));
    let hidden = told_if(told && b.config.with_loader, AppActionView::DisableLoader);
    lemma_times_told(told && b.config.with_notifications, note, action);
    lemma_times_told(full, AppActionView::UpdateProgress(100), action);
    lemma_times_told(told && b.config.with_loader, AppActionView::DisableLoader, action);
    lemma_times_add(noted, done, action);
    lemma_times_add(noted + done, hidden, action);
}

/// How often a finished run tells the loader and the progress to the store.
proof fn lemma_times_in_run(request: AttemptView, replies: Seq<TransportReplyView>)
    requires
        request.builder.config.url.len() > 0,
        request.attempt <= request.builder.config.retry_count,
        run_from(request, replies).end is Some,
    ensures
        ({
            let b = request.builder;
            let run = run_from(request, replies);
            let loads = if b.dispatch is Some && b.config.with_loader {
                run.sent
            } else {
                0
            };
            let progresses = b.dispatch is Some && b.config.with_progress;
            &&& times(run.told, AppActionView::EnableLoader) == loads
            &&& times(run.told, AppActionView::DisableLoader) == loads
            &&& times(run.told, AppActionView::UpdateProgress(0)) == if progresses {
                run.sent
            } else {
                0
            }
            &&& times(run.told, AppActionView::UpdateProgress(50)) == if progresses {
                run.sent
            } else {
                0
            }
            &&& times(run.told, AppActionView::UpdateProgress(100)) == if progresses
                && run.end.unwrap().0 is Ok {
                1nat
            } else {
                0
            }
            &&& loads > 0 ==> run.told.len() > 0 && run.told.last()
                == AppActionView::DisableLoader
        }),
    decreases replies.len(),
{
    let b = request.builder;
    lemma_run_from(request, replies);
    let outcome = outcome_at(b, replies, 0);
    let opening = opening_actions(b);
    let sending = sending_actions(b);
    let closing = closing_actions(b, outcome);
    assert forall|action: AppActionView| !(action is ShowNotification) implies #[trigger] times(
        opening + sending + closing,
        action,
    ) == times(opening, action) + times(sending, action) + times(closing, action) by {
        lemma_times_add(opening, sending, action);
        lemma_times_add(opening + sending, closing, action);
    }
    lemma_times_in_attempt(b, outcome, AppActionView::EnableLoader);
    lemma_times_in_attempt(b, outcome, AppActionView::DisableLoader);
    lemma_times_in_attempt(b, outcome, AppActionView::UpdateProgress(0));
    lemma_times_in_attempt(b, outcome, AppActionView::UpdateProgress(50));
    lemma_times_in_attempt(b, outcome, AppActionView::UpdateProgress(100));
    if b.dispatch is Some && b.config.with_loader {
        assert((opening + sending + closing).last() == closing.last());
    }
    if calls_for_retry(outcome) && request.attempt < b.config.retry_count {
        let next = AttemptView { attempt: (request.attempt + 1) as u32, ..request };
        let tail = replies.drop_first();
        lemma_times_in_run(next, tail);
        let rest = run_from(next, tail);
        lemma_end(next, tail);
        let told = opening + sending + closing;
        lemma_times_add(told, rest.told, AppActionView::EnableLoader);
        lemma_times_add(told, rest.told, AppActionView::DisableLoader);
        lemma_times_add(told, rest.told, AppActionView::UpdateProgress(0));
        lemma_times_add(told, rest.told, AppActionView::UpdateProgress(50));
        lemma_times_add(told, rest.told, AppActionView::UpdateProgress(100));
        if b.dispatch is Some && b.config.with_loader {
            assert((told + rest.told).last() == rest.told.last());
        }
    }
}

/// When a request has come to an end, the loader has been hidden as often as it
/// has been shown, and last of all: no request leaves it on. It is shown once for
/// each attempt of a request that asks for it.
pub proof fn law_loader_is_hidden_in_the_end(
    builder: RequestBuilderView,
    replies: Seq<TransportReplyView>,
)
    requires
        run(builder, replies).end is Some,
    ensures
        ({
            let run = run(builder, replies);
            let shown = times(run.told, AppActionView::EnableLoader);
            &&& times(run.told, AppActionView::DisableLoader) == shown
            &&& shown > 0 <==> builder.dispatch is Some && builder.config.with_loader
            &&& shown > 0 ==> run.told.last() == AppActionView::DisableLoader
            &&& shown > 0 && run.sent > 0 ==> shown == run.sent
        }),
{
    let request = AttemptView { builder, attempt: 0 };
    if builder.config.url.len() > 0 {
        lemma_times_in_run(request, replies);
        lemma_end(request, replies);
    } else {
        let outcome = Err(HttpErrorView::InvalidUrl { url: builder.config.url });
        let opening = opening_actions(builder);
        let closing = closing_actions(builder, outcome);
        lemma_times_in_attempt(builder, outcome, AppActionView::EnableLoader);
        lemma_times_in_attempt(builder, outcome, AppActionView::DisableLoader);
        lemma_times_add(opening, closing, AppActionView::EnableLoader);
        lemma_times_add(opening, closing, AppActionView::DisableLoader);
        assert(run(builder, replies).told == opening + closing);
        if builder.dispatch is Some && builder.config.with_loader {
            assert((opening + closing).last() == closing.last());
        }
    }
}

/// A request that tracks its progress starts from zero in each attempt, and is
/// reported complete exactly once if it succeeds and not at all if it fails.
pub proof fn law_progress_is_complete_on_success_only(
    builder: RequestBuilderView,
    replies: Seq<TransportReplyView>,
)
    requires
        builder.config.url.len() > 0,
        builder.dispatch is Some,
        builder.config.with_progress,
        run(builder, replies).end is Some,
    ensures
        ({
            let run = run(builder, replies);
            &&& times(run.told, AppActionView::UpdateProgress(0)) == run.sent
            &&& times(run.told, AppActionView::UpdateProgress(50)) == run.sent
            &&& times(run.told, AppActionView::UpdateProgress(100)) == if run.end.unwrap().0 is Ok {
                1nat
            } else {
                0nat
            }
        }),
{
    lemma_times_in_run(AttemptView { builder, attempt: 0 }, replies);
}

/// What a run that succeeds tells first and last where only progress is told.
proof fn lemma_progress_ends(request: AttemptView, replies: Seq<TransportReplyView>)
    requires
        request.builder.config.url.len() > 0,
        request.builder.dispatch is Some,
        request.builder.config.with_progress,
        !request.builder.config.with_loader,
        !request.builder.config.with_notifications,
        run_from(request, replies).end matches Some((outcome, _)) && outcome is Ok,
    ensures
        run_from(request, replies).told.len() > 0,
        run_from(request, replies).told.first() == AppActionView::UpdateProgress(0),
        run_from(request, replies).told.last() == AppActionView::UpdateProgress(100),
    decreases replies.len(),
{
    let b = request.builder;
    lemma_run_from(request, replies);
    let outcome = outcome_at(b, replies, 0);
    let told = opening_actions(b) + sending_actions(b) + closing_actions(b, outcome);
    assert(told.first() == AppActionView::UpdateProgress(0));
    if calls_for_retry(outcome) && request.attempt < b.config.retry_count {
        let next = AttemptView { attempt: (request.attempt + 1) as u32, ..request };
        lemma_progress_ends(next, replies.drop_first());
        let rest = run_from(next, replies.drop_first());
        assert((told + rest.told).first() == told.first());
        assert((told + rest.told).last() == rest.told.last());
    } else {
        assert(told.last() == AppActionView::UpdateProgress(100));
    }
}

/// An upload that tracks its progress reports it to the store: when it succeeds,
/// the store has been told progress from zero to complete.
pub proof fn law_uploads_report_their_progress(
    url: Seq<char>,
    form: web_sys::FormData,
    store: StoreDispatcher,
    replies: Seq<TransportReplyView>,
)
    requires
        run(upload_request(url, form, true, Some(store)), replies).end matches Some((outcome, _))
            && outcome is Ok,
    ensures
        run(upload_request(url, form, true, Some(store)), replies).told.len() > 0,
        run(upload_request(url, form, true, Some(store)), replies).told.first()
            == AppActionView::UpdateProgress(0),
        run(upload_request(url, form, true, Some(store)), replies).told.last()
            == AppActionView::UpdateProgress(100),
{
    let builder = upload_request(url, form, true, Some(store));
    if builder.config.url.len() == 0 {
        law_no_url_never_goes_out(builder, replies);
    } else {
        lemma_progress_ends(AttemptView { builder, attempt: 0 }, replies);
    }
}

/// What goes out, in order, when `step` and those that follow it are carried out as
/// far as there are replies.
pub open spec fn sent_from_step(
    step: SendStepView,
    replies: Seq<TransportReplyView>,
) -> Seq<TransmissionView>
    decreases replies.len(), rank(step),
{
    match step {
        SendStepView::Finish { .. } => Seq::empty(),
        SendStepView::Wait { request, .. } => sent_from_step(begin_attempt(request), replies),
        SendStepView::Transmit { request, .. } => {
            let out = seq![transmission_of(request.builder.config)];
            if replies.len() == 0 {
                out
            } else {
                out + sent_from_step(on_reply(request, replies.first()), replies.drop_first())
            }
        },
    }
}

/// What goes out, in order, when a request is sent and `replies` come back.
pub open spec fn sent_out(
    builder: RequestBuilderView,
    replies: Seq<TransportReplyView>,
) -> Seq<TransmissionView> {
    sent_from_step(begin_attempt(AttemptView { builder, attempt: 0 }), replies)
}

/// What goes out from some attempt on is the same each time.
proof fn lemma_sent_from(request: AttemptView, replies: Seq<TransportReplyView>)
    ensures
        ({
            let sent = sent_from_step(begin_attempt(request), replies);
            let config = request.builder.config;
            &&& sent.len() == run_from(request, replies).sent
            &&& forall|i: int|
                0 <= i < sent.len() ==> {
                    let out = #[trigger] sent[i];
                    &&& out.method == config.method
                    &&& out.url == config.url
                    &&& out.headers == config.headers
                    &&& out.body == config.body
                    &&& out.timeout_ms == config.timeout_ms
                }
        }),
    decreases replies.len(),
{
    reveal_with_fuel(sent_from_step, 3);
    reveal_with_fuel(run_step, 3);
    let b = request.builder;
    if b.config.url.len() > 0 {
        lemma_run_from(request, replies);
        if replies.len() > 0 && calls_for_retry(outcome_at(b, replies, 0)) && request.attempt
            < b.config.retry_count {
            let next = AttemptView { attempt: (request.attempt + 1) as u32, ..request };
            let tail = replies.drop_first();
            lemma_sent_from(next, tail);
            assert(sent_from_step(begin_attempt(request), replies) =~= seq![
                transmission_of(b.config),
            ] + sent_from_step(begin_attempt(next), tail));
        }
    }
}

/// In every attempt the same goes out: the method, the URL, the headers, the body
/// and the time limit that the request was built with.
pub proof fn law_every_attempt_sends_the_request(
    builder: RequestBuilderView,
    replies: Seq<TransportReplyView>,
)
    ensures
        sent_out(builder, replies).len() == run(builder, replies).sent,
        forall|i: int|
            0 <= i < sent_out(builder, replies).len() ==> {
                let out = #[trigger] sent_out(builder, replies)[i];
                &&& out.method == builder.config.method
                &&& out.url == builder.config.url
                &&& out.headers == builder.config.headers
                &&& out.body == builder.config.body
                &&& out.timeout_ms == builder.config.timeout_ms
            },
{
    lemma_sent_from(AttemptView { builder, attempt: 0 }, replies);
}

/// How an attempt of a request with a URL begins: it goes out, as the same attempt
/// of the same request, when the store has been told so.
pub proof fn law_attempts_begin_by_going_out(request: AttemptView)
    requires
        request.builder.config.url.len() > 0,
    ensures
        begin_attempt(request) matches SendStepView::Transmit { actions, request: out }
            && out.builder == request.builder && out.attempt == request.attempt && actions
            == opening_actions(request.builder) + sending_actions(request.builder),
{
}

/// A request without a URL ends as soon as it begins. The store is told what it is
/// told of any attempt, but for the going out.
pub proof fn law_attempts_without_a_url_end(request: AttemptView)
    requires
        request.builder.config.url.len() == 0,
    ensures
        begin_attempt(request) matches SendStepView::Finish { actions, outcome, health_check }
            && health_check is None && outcome == Err::<HttpResponseView, _>(
            HttpErrorView::InvalidUrl { url: request.builder.config.url },
        ) && actions == opening_actions(request.builder) + closing_actions(
            request.builder,
            outcome,
        ),
{
}

/// What follows a reply. A success (2xx) or a client error (4xx) ends the request,
/// and so does any reply to its last attempt. Any other one leads to the next
/// attempt of the same request after a wait. In each case the store is told what
/// the reply came to.
pub proof fn law_what_follows_a_reply(request: AttemptView, reply: TransportReplyView)
    ensures
        ({
            let builder = request.builder;
            let settled = reply matches TransportReplyView::Received { status, .. } && (200
                <= status < 300 || 400 <= status < 500);
            let came_to = reply_outcome(builder.config, reply);
            if !settled && request.attempt < builder.config.retry_count {
                on_reply(request, reply) matches SendStepView::Wait {
                    actions,
                    wait_ms,
                    request: next,
                } && actions == closing_actions(builder, came_to) && wait_ms == backoff(
                    builder.config.retry_delay_ms,
                    next.attempt,
                ) && next.builder == builder && next.attempt == request.attempt + 1
            } else {
                on_reply(request, reply) matches SendStepView::Finish {
                    actions,
                    outcome,
                    health_check,
                } && actions == closing_actions(builder, came_to) && outcome == came_to && (settled
                    ==> health_check is None)
            }
        }),
{
    let closed = closing_actions(request.builder, reply_outcome(request.builder.config, reply));
    assert(Seq::<AppActionView>::empty() + closed =~= closed);
}

/// Which replies call for another attempt: all but successes (2xx) and client errors
/// (4xx).
pub proof fn law_what_calls_for_another_attempt(
    builder: RequestBuilderView,
    reply: TransportReplyView,
)
    ensures
        calls_for_retry(reply_outcome(builder.config, reply)) <==> match reply {
            TransportReplyView::Received { status, .. } => status / 100 != 2 && status / 100 != 4,
            _ => true,
        },
{
}

/// A health check is started for the request's own store, if it has one, and only
/// where the request may be tried again, does not forbid it, and the error triggers
/// one.
pub proof fn law_whom_health_checks_are_for(builder: RequestBuilderView, error: HttpErrorView)
    ensures
        health_check_for(builder, error) is Some <==> builder.dispatch is Some
            && builder.config.retry_count > 0 && !builder.config.skip_health_check
            && triggers_health_check(error),
        health_check_for(builder, error) is Some ==> health_check_for(builder, error)
            == builder.dispatch,
{
}

/// A request whose attempts all get no answer in time, or an answer with the status
/// 502, 503 or 504, leads to a health check for its store, unless it forbids that or
/// is not tried again.
pub proof fn law_outages_lead_to_health_checks(
    builder: RequestBuilderView,
    replies: Seq<TransportReplyView>,
)
    requires
        builder.config.url.len() > 0,
        builder.config.retry_count >= 1,
        !builder.config.skip_health_check,
        replies.len() == builder.config.retry_count + 1,
        forall|i: int|
            0 <= i < replies.len() ==> ((#[trigger] replies[i]) is TimedOut || (
            replies[i] matches TransportReplyView::Received { status, .. } && 502 <= status
                <= 504)),
    ensures
        run(builder, replies).sent == builder.config.retry_count + 1,
        run(builder, replies).end matches Some((outcome, health_check)) && outcome is Err
            && health_check == builder.dispatch,
{
    let last = builder.config.retry_count as int;
    assert forall|i: int| 0 <= i <= last implies calls_for_retry(
        #[trigger] outcome_at(builder, replies, i),
    ) && triggers_health_check(outcome_at(builder, replies, i)->Err_0) by {
        assert(replies[i] is TimedOut || replies[i] is Received);
    }
    law_retried_until_settled(builder, replies, last);
    lemma_end(AttemptView { builder, attempt: 0 }, replies);
    assert(triggers_health_check(outcome_at(builder, replies, last)->Err_0));
}

/// How often an action is told is how often it occurs in the multiset of what is
/// told.
pub proof fn law_times(actions: Seq<AppActionView>, action: AppActionView)
    ensures
        times(actions, action) == actions.to_multiset().count(action),
    decreases actions.len(),
{
    broadcast use vstd::multiset::group_multiset_axioms;

    if actions.len() == 0 {
        actions.to_multiset_ensures();
        assert(!actions.contains(action));
    } else {
        let init = actions.drop_last();
        law_times(init, action);
        assert(init.push(actions.last()) =~= actions);
        init.to_multiset_ensures();
    }
}

/// The notifications in a list of at most one action.
proof fn lemma_notes_told(told: bool, single: AppActionView)
    ensures
        told_if(told, single).filter(|action: AppActionView| action is ShowNotification) == told_if(
            told && single is ShowNotification,
            single,
        ),
{
    reveal_with_fuel(Seq::filter, 2);
    if told {
        assert(seq![single].drop_last() =~= Seq::<AppActionView>::empty());
        assert(seq![single].last() == single);
        assert(Seq::<AppActionView>::empty().push(single) =~= seq![single]);
    }
}

/// The notifications of one attempt: what came of it, once, whatever it was.
proof fn lemma_notes_in_attempt(
    b: RequestBuilderView,
    outcome: Result<HttpResponseView, HttpErrorView>,
)
    ensures
        opening_actions(b).filter(|action: AppActionView| action is ShowNotification).len() == 0,
        sending_actions(b).filter(|action: AppActionView| action is ShowNotification).len() == 0,
        closing_actions(b, outcome).filter(|action: AppActionView| action is ShowNotification)
            == told_if(
            b.dispatch is Some && b.config.with_notifications,
            AppActionView::ShowNotification(notification(outcome)),
        ),
{
    let p = |action: AppActionView| action is ShowNotification;
    let told = b.dispatch is Some;
    let loader = told_if(told && b.config.with_loader, AppActionView::EnableLoader);
    let start = told_if(told && b.config.with_progress, AppActionView::UpdateProgress(0));
    lemma_notes_told(told && b.config.with_loader, AppActionView::EnableLoader);
    lemma_notes_told(told && b.config.with_progress, AppActionView::UpdateProgress(0));
    Seq::filter_distributes_over_add(loader, start, p);
    lemma_notes_told(told && b.config.with_progress, AppActionView::UpdateProgress(50));
    let note = AppActionView::ShowNotification(notification(outcome));
    let noted = told_if(told && b.config.with_notifications, note);
    let full = told && b.config.with_progress && outcome is Ok;
    let done = told_if(full, AppActionView::UpdateProgress(100));
    let hidden = told_if(told && b.config.with_loader, AppActionView::DisableLoader);
    lemma_notes_told(told && b.config.with_notifications, note);
    lemma_notes_told(full, AppActionView::UpdateProgress(100));
    lemma_notes_told(told && b.config.with_loader, AppActionView::DisableLoader);
    Seq::filter_distributes_over_add(noted, done, p);
    Seq::filter_distributes_over_add(noted + done, hidden, p);
    assert(noted + Seq::<AppActionView>::empty() + Seq::<AppActionView>::empty() =~= noted);
}

/// All that one attempt tells.
#[verifier::opaque]
spec fn told_in_attempt(
    b: RequestBuilderView,
    outcome: Result<HttpResponseView, HttpErrorView>,
) -> Seq<AppActionView> {
    opening_actions(b) + sending_actions(b) + closing_actions(b, outcome)
}

/// The same for all that one attempt tells.
proof fn lemma_notes_in_whole_attempt(
    b: RequestBuilderView,
    outcome: Result<HttpResponseView, HttpErrorView>,
)
    ensures
        told_in_attempt(b, outcome).filter(|action: AppActionView| action is ShowNotification)
            == told_if(
            b.dispatch is Some && b.config.with_notifications,
            AppActionView::ShowNotification(notification(outcome)),
        ),
{
    reveal(told_in_attempt);
    let p = |action: AppActionView| action is ShowNotification;
    let opening = opening_actions(b);
    let sending = sending_actions(b);
    let closing = closing_actions(b, outcome);
    lemma_notes_in_attempt(b, outcome);
    Seq::filter_distributes_over_add(opening, sending, p);
    Seq::filter_distributes_over_add(opening + sending, closing, p);
    assert((opening + sending + closing).filter(p) =~= closing.filter(p));
}

/// One more notification in front.
proof fn lemma_note_in_front(
    told: Seq<AppActionView>,
    rest: Seq<AppActionView>,
    note: AppActionView,
    noted: bool,
    at: int,
)
    requires
        told.filter(|action: AppActionView| action is ShowNotification) == told_if(noted, note),
    ensures
        ({
            let notes = (told + rest).filter(|action: AppActionView| action is ShowNotification);
            let others = rest.filter(|action: AppActionView| action is ShowNotification);
            if noted {
                &&& notes.len() == others.len() + 1
                &&& notes[0] == note
                &&& 0 < at < notes.len() ==> notes[at] == others[at - 1]
            } else {
                notes == others
            }
        }),
{
    let p = |action: AppActionView| action is ShowNotification;
    Seq::filter_distributes_over_add(told, rest, p);
    if !noted {
        assert(told_if(noted, note) + rest.filter(p) =~= rest.filter(p));
    }
}

/// What a finished run that starts at some attempt tells: what the attempt does, and
/// what follows.
proof fn lemma_told_in_run(request: AttemptView, replies: Seq<TransportReplyView>)
    requires
        request.builder.config.url.len() > 0,
        request.attempt <= request.builder.config.retry_count,
        run_from(request, replies).end is Some,
    ensures
        ({
            let b = request.builder;
            let outcome = outcome_at(b, replies, 0);
            let run = run_from(request, replies);
            &&& replies.len() > 0
            &&& if calls_for_retry(outcome) && request.attempt < b.config.retry_count {
                let next = AttemptView { attempt: (request.attempt + 1) as u32, ..request };
                let rest = run_from(next, replies.drop_first());
                &&& run.told == told_in_attempt(b, outcome) + rest.told
                &&& run.sent == rest.sent + 1
                &&& rest.end is Some
                &&& rest.sent < replies.len()
            } else {
                run.told == told_in_attempt(b, outcome) && run.sent == 1
            }
        }),
{
    reveal(told_in_attempt);
    lemma_run_from(request, replies);
    lemma_bounds(request, replies);
}

/// The notifications of a finished run that starts at some attempt: how many there
/// are, and the one at `at`.
proof fn lemma_notes_in_run(request: AttemptView, replies: Seq<TransportReplyView>, at: int)
    requires
        request.builder.config.url.len() > 0,
        request.attempt <= request.builder.config.retry_count,
        run_from(request, replies).end is Some,
    ensures
        ({
            let b = request.builder;
            let run = run_from(request, replies);
            let notes = run.told.filter(|action: AppActionView| action is ShowNotification);
            if b.dispatch is Some && b.config.with_notifications {
                &&& notes.len() == run.sent
                &&& 0 <= at < notes.len() ==> notes[at] == AppActionView::ShowNotification(
                    notification(outcome_at(b, replies, at)),
                )
            } else {
                notes.len() == 0
            }
        }),
    decreases replies.len(),
{
    let b = request.builder;
    let outcome = outcome_at(b, replies, 0);
    let told = told_in_attempt(b, outcome);
    lemma_told_in_run(request, replies);
    lemma_notes_in_whole_attempt(b, outcome);
    if calls_for_retry(outcome) && request.attempt < b.config.retry_count {
        let next = AttemptView { attempt: (request.attempt + 1) as u32, ..request };
        let tail = replies.drop_first();
        lemma_notes_in_run(next, tail, at - 1);
        let rest = run_from(next, tail);
        lemma_note_in_front(
            told,
            rest.told,
            AppActionView::ShowNotification(notification(outcome)),
            b.dispatch is Some && b.config.with_notifications,
            at,
        );
        if 0 < at <= rest.sent {
            assert(outcome_at(b, tail, at - 1) == outcome_at(b, replies, at));
        }
    }
}

/// After each attempt the user is shown exactly one notification, whatever came of
/// the attempt, if the request has a store and asks for notifications, and none
/// otherwise.
pub proof fn law_one_notification_in_each_attempt(
    builder: RequestBuilderView,
    outcome: Result<HttpResponseView, HttpErrorView>,
)
    ensures
        ({
            let told = opening_actions(builder) + sending_actions(builder) + closing_actions(
                builder,
                outcome,
            );
            let notes = told.filter(|action: AppActionView| action is ShowNotification);
            if builder.dispatch is Some && builder.config.with_notifications {
                notes.len() == 1 && notes[0] == AppActionView::ShowNotification(
                    notification(outcome),
                )
            } else {
                notes.len() == 0
            }
        }),
{
    reveal(told_in_attempt);
    lemma_notes_in_whole_attempt(builder, outcome);
}

/// When a request with a store that asks for notifications has come to an end, the
/// user has been shown as many as there were attempts: what came of each, in order.
/// One that never went out has been shown once to have no URL. Other requests show
/// none.
pub proof fn law_as_many_notifications_as_attempts(
    builder: RequestBuilderView,
    replies: Seq<TransportReplyView>,
)
    requires
        run(builder, replies).end is Some,
    ensures
        ({
            let run = run(builder, replies);
            let notes = run.told.filter(|action: AppActionView| action is ShowNotification);
            if builder.dispatch is Some && builder.config.with_notifications {
                if builder.config.url.len() > 0 {
                    &&& run.sent >= 1
                    &&& notes.len() == run.sent
                    &&& forall|i: int|
                        0 <= i < notes.len() ==> #[trigger] notes[i]
                            == AppActionView::ShowNotification(
                            notification(reply_outcome(builder.config, replies[i])),
                        )
                } else {
                    notes.len() == 1 && notes[0] == AppActionView::ShowNotification(
                        notification(
                            Err(HttpErrorView::InvalidUrl { url: builder.config.url }),
                        ),
                    )
                }
            } else {
                notes.len() == 0
            }
        }),
{
    let request = AttemptView { builder, attempt: 0 };
    if builder.config.url.len() > 0 {
        lemma_notes_in_run(request, replies, 0);
        lemma_end(request, replies);
        let p = |action: AppActionView| action is ShowNotification;
        let notes = run(builder, replies).told.filter(p);
        if builder.dispatch is Some && builder.config.with_notifications {
            assert forall|i: int| 0 <= i < notes.len() implies #[trigger] notes[i]
                == AppActionView::ShowNotification(
                notification(reply_outcome(builder.config, replies[i])),
            ) by {
                lemma_notes_in_run(request, replies, i);
            }
        }
    } else {
        let outcome = Err(HttpErrorView::InvalidUrl { url: builder.config.url });
        let p = |action: AppActionView| action is ShowNotification;
        lemma_notes_in_attempt(builder, outcome);
        Seq::filter_distributes_over_add(
            opening_actions(builder),
            closing_actions(builder, outcome),
            p,
        );
        assert(run(builder, replies).told == opening_actions(builder) + closing_actions(
            builder,
            outcome,
        ));
    }
}

} // verus!
