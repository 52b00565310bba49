//! Sending a request: attempts, the waits between them, and what follows when
//! none succeeds.
//!
//! A [`SendStep`] says what to do next. Whoever carries it out reports back to
//! the [`InFlight`] or [`Paused`] request that came with it, and gets the next
//! step.

use crate::builder::{RequestBuilder, RequestBuilderView};
use crate::error::{HttpError, HttpErrorView};
use crate::exchange::{
    closing_actions, opening_actions, outgoing, reply_outcome, sending_actions, transmission_of,
    Transmission, TransportReply, TransportReplyView,
};
use crate::health_manager::{is_health_check_trigger_error, triggers_health_check};
use crate::response::{outcome_view, HttpResponse, HttpResponseView};
use crate::store::{actions_view, AppAction, AppActionView, StoreDispatcher};
use vstd::arithmetic::power2::{lemma_pow2_pos, lemma_pow2_unfold, pow2};
use vstd::prelude::*;

verus! {

/// How long to wait before attempt `attempt`, in milliseconds: not at all before
/// the first, `delay_ms` before the second, and twice as long as before for each
/// further one, up to the largest number that a `u32` holds.
pub open spec fn backoff(delay_ms: u32, attempt: u32) -> int {
    if attempt == 0 {
        0
    } else {
        let wait = delay_ms * pow2((attempt - 1) as nat);
        if wait <= u32::MAX {
            wait
        } else {
            u32::MAX as int
        }
    }
}

/// How long to wait before attempt `attempt`, in milliseconds.
pub fn backoff_ms(delay_ms: u32, attempt: u32) -> (wait_ms: u32)
    ensures
        wait_ms == backoff(delay_ms, attempt),
        attempt == 0 ==> wait_ms == 0,
        attempt == 1 ==> wait_ms == delay_ms,
{
    if attempt == 0 {
        return 0;
    }
    let ghost whole = delay_ms * pow2((attempt - 1) as nat);
    let mut wait: u64 = delay_ms as u64;
    let mut left: u32 = attempt - 1;
    while left > 0 && 0 < wait && wait <= u32::MAX as u64
        invariant
            wait * pow2(left as nat) == whole,
            wait <= 2 * u32::MAX,
        decreases left,
    {
        proof {
            lemma_pow2_unfold(left as nat);
            let half = pow2((left - 1) as nat) as int;
            assert(wait * (2 * half) == (wait * 2) * half) by (nonlinear_arith);
        }
        wait = wait * 2;
        left = left - 1;
    }
    proof {
        lemma_pow2_pos(left as nat);
        let factor = pow2(left as nat) as int;
        assert(factor >= 1 ==> wait * factor >= wait) by (nonlinear_arith);
        assert(wait == 0 ==> wait * factor == 0) by (nonlinear_arith);
        assert(factor == 1 ==> wait * factor == wait) by (nonlinear_arith);
        vstd::arithmetic::power2::lemma2_to64();
        assert(attempt == 1 ==> whole == delay_ms * pow2(0));
    }
    if wait <= u32::MAX as u64 {
        wait as u32
    } else {
        u32::MAX
    }
}

/// A request that has gone out and waits for its reply.
#[derive(Debug)]
pub struct InFlight {
    builder: RequestBuilder,
    attempt: u32,
}

/// A request that waits for its next attempt.
#[derive(Debug)]
pub struct Paused {
    builder: RequestBuilder,
    attempt: u32,
}

/// What to do next. In each case the store is first told `actions`, in order.
#[derive(Debug)]
pub enum SendStep {
    /// Let the request go out, and hand its reply to `in_flight`.
    Transmit { actions: Vec<AppAction>, in_flight: InFlight },
    /// Wait for `wait_ms` milliseconds, and resume `paused`.
    Wait { actions: Vec<AppAction>, wait_ms: u32, paused: Paused },
    /// The request has come to `outcome`. Where there is a store to be told about
    /// it, a health check is to be started.
    Finish {
        actions: Vec<AppAction>,
        outcome: Result<HttpResponse, HttpError>,
        health_check: Option<StoreDispatcher>,
    },
}

/// A request and the number of the attempt that it is at, from zero on.
pub struct AttemptView {
    pub builder: RequestBuilderView,
    pub attempt: u32,
}

/// A [`SendStep`], by view.
pub enum SendStepView {
    Transmit { actions: Seq<AppActionView>, request: AttemptView },
    Wait { actions: Seq<AppActionView>, wait_ms: int, request: AttemptView },
    Finish {
        actions: Seq<AppActionView>,
        outcome: Result<HttpResponseView, HttpErrorView>,
        health_check: Option<StoreDispatcher>,
    },
}

impl View for InFlight {
    type V = AttemptView;

    closed spec fn view(&self) -> AttemptView {
        AttemptView { builder: self.builder@, attempt: self.attempt }
    }
}

impl View for Paused {
    type V = AttemptView;

    closed spec fn view(&self) -> AttemptView {
        AttemptView { builder: self.builder@, attempt: self.attempt }
    }
}

impl View for SendStep {
    type V = SendStepView;

    open spec fn view(&self) -> SendStepView {
        match *self {
            SendStep::Transmit { actions, in_flight } => SendStepView::Transmit {
                actions: actions_view(actions@),
                request: in_flight@,
            },
            SendStep::Wait { actions, wait_ms, paused } => SendStepView::Wait {
                actions: actions_view(actions@),
                wait_ms: wait_ms as int,
                request: paused@,
            },
            SendStep::Finish { actions, outcome, health_check } => SendStepView::Finish {
                actions: actions_view(actions@),
                outcome: outcome_view(outcome),
                health_check,
            },
        }
    }
}

/// The store that a health check is started for after `error` has ended the last
/// attempt. Only repeated failures lead to one, so none is started for a request
/// that is not tried again.
pub open spec fn health_check_for(builder: RequestBuilderView, error: HttpErrorView) -> Option<
    StoreDispatcher,
> {
    if builder.config.retry_count >= 1 && !builder.config.skip_health_check
        && triggers_health_check(error) {
        builder.dispatch
    } else {
        None
    }
}

/// What follows when an attempt has come to `outcome`; `told` is what the store
/// is told before that.
pub open spec fn after_attempt(
    request: AttemptView,
    told: Seq<AppActionView>,
    outcome: Result<HttpResponseView, HttpErrorView>,
) -> SendStepView {
    let builder = request.builder;
    let actions = told + closing_actions(builder, outcome);
    match outcome {
        Ok(response) => SendStepView::Finish { actions, outcome, health_check: None },
        Err(error) => if error.is_final() {
            SendStepView::Finish { actions, outcome, health_check: None }
        } else if request.attempt < builder.config.retry_count {
            let attempt = (request.attempt + 1) as u32;
            SendStepView::Wait {
                actions,
                wait_ms: backoff(builder.config.retry_delay_ms, attempt),
                request: AttemptView { builder, attempt },
            }
        } else {
            SendStepView::Finish {
                actions,
                outcome,
                health_check: health_check_for(builder, error),
            }
        },
    }
}

/// How an attempt begins: the request goes out, unless it has no URL.
pub open spec fn begin_attempt(request: AttemptView) -> SendStepView {
    let builder = request.builder;
    if builder.config.url.len() == 0 {
        after_attempt(
            request,
            opening_actions(builder),
            Err(HttpErrorView::InvalidUrl { url: builder.config.url }),
        )
    } else {
        SendStepView::Transmit {
            actions: opening_actions(builder) + sending_actions(builder),
            request,
        }
    }
}

/// What follows a reply.
pub open spec fn on_reply(request: AttemptView, reply: TransportReplyView) -> SendStepView {
    after_attempt(request, Seq::empty(), reply_outcome(request.builder.config, reply))
}

/// What follows when an attempt has come to `outcome`; `told` is what the store
/// is told before that.
fn conclude_attempt(
    builder: RequestBuilder,
    attempt: u32,
    told: Vec<AppAction>,
    outcome: Result<HttpResponse, HttpError>,
) -> (step: SendStep)
    ensures
        step@ == after_attempt(
            AttemptView { builder: builder@, attempt },
            actions_view(told@),
            outcome_view(outcome),
        ),
{
    let mut actions = told;
    builder.add_closing_actions(&outcome, &mut actions);
    let mut health_check: Option<StoreDispatcher> = None;
    if let Err(error) = &outcome {
        if !error.is_final() {
            if attempt < builder.config().retry_count {
                let next: u32 = attempt + 1;
                let wait_ms = backoff_ms(builder.config().retry_delay_ms, next);
                return SendStep::Wait {
                    actions,
                    wait_ms,
                    paused: Paused { builder, attempt: next },
                };
            }
            // All retries exhausted: check if we should trigger health monitoring
            if builder.config().retry_count >= 1 && !builder.config().skip_health_check
                && is_health_check_trigger_error(error) {
                health_check = builder.dispatcher();
            }
        }
    }
    SendStep::Finish { actions, outcome, health_check }
}

/// How an attempt begins.
fn start_attempt(builder: RequestBuilder, attempt: u32) -> (step: SendStep)
    ensures
        step@ == begin_attempt(AttemptView { builder: builder@, attempt }),
{
    let mut actions = builder.opening_actions();
    let refused = match builder.transmission() {
        Ok(_) => None,
        Err(error) => Some(error),
    };
    match refused {
        Some(error) => conclude_attempt(builder, attempt, actions, Err(error)),
        None => {
            builder.add_sending_actions(&mut actions);
            SendStep::Transmit { actions, in_flight: InFlight { builder, attempt } }
        },
    }
}

impl RequestBuilder {
    /// Send the request: the first step.
    pub fn send(self) -> (step: SendStep)
        ensures
            step@ == begin_attempt(AttemptView { builder: self@, attempt: 0 }),
    {
        start_attempt(self, 0)
    }
}

impl InFlight {
    #[verifier::type_invariant]
    spec fn has_url(&self) -> bool {
        self.builder@.config.url.len() > 0
    }

    /// What goes out.
    pub fn transmission(&self) -> (transmission: Transmission<'_>)
        ensures
            transmission@ == transmission_of(self@.builder.config),
            transmission@.url.len() > 0,
            transmission.method == self@.builder.config.method,
            transmission.url@ == self@.builder.config.url,
            transmission.headers@ == self@.builder.config.headers,
            transmission.body@ == self@.builder.config.body,
            transmission.timeout_ms == self@.builder.config.timeout_ms,
    {
        proof {
            use_type_invariant(self);
        }
        outgoing(self.builder.config())
    }

    /// The step that follows the reply to the request.
    pub fn reply(self, reply: TransportReply) -> (step: SendStep)
        ensures
            step@ == on_reply(self@, reply@),
    {
        let outcome = self.builder.outcome(reply);
        let told: Vec<AppAction> = Vec::new();
        assert(actions_view(told@) =~= Seq::<AppActionView>::empty());
        conclude_attempt(self.builder, self.attempt, told, outcome)
    }
}

impl Paused {
    /// The step that follows the wait.
    pub fn resume(self) -> (step: SendStep)
        ensures
            step@ == begin_attempt(self@),
    {
        start_attempt(self.builder, self.attempt)
    }
}

} // verus!
