//! What holds of one attempt, whatever the request and the reply.

use crate::builder::RequestBuilderView;
use crate::error::HttpErrorView;
use crate::exchange::{
    closing_actions, notification, opening_actions, reply_outcome, sending_actions, told_if,
    transmission_of, TransportReplyView,
};
use crate::request::RequestConfigView;
use crate::response::HttpResponseView;
use crate::store::AppActionView;
use crate::text::decimal;
use vstd::prelude::*;

verus! {

/// What goes out has the method, the URL, the headers, the body and the time limit
/// that the request was built with.
pub proof fn law_requests_go_out_as_built(config: RequestConfigView)
    ensures
        transmission_of(config).method == config.method,
        transmission_of(config).url == config.url,
        transmission_of(config).headers == config.headers,
        transmission_of(config).body == config.body,
        transmission_of(config).timeout_ms == config.timeout_ms,
{
}

/// Nothing of an answer is lost. One with a success status (2xx) becomes a response
/// with its status, body and URL, under the name of the call. One with any other
/// status becomes an error with its status and body.
pub proof fn law_answers_are_kept(
    config: RequestConfigView,
    status: u16,
    url: Seq<char>,
    body: Seq<char>,
)
    ensures
        ({
            let outcome = reply_outcome(
                config,
                TransportReplyView::Received { status, url, body },
            );
            &&& outcome is Ok <==> 200 <= status < 300
            &&& outcome matches Ok(response) ==> {
                &&& response.status == status
                &&& response.body == body
                &&& response.url == url
                &&& response.call_name == config.call_name
                &&& forall|name: Seq<char>| !(#[trigger] response.headers.contains_key(name))
            }
            &&& outcome matches Err(error) ==> {
                &&& error is Http
                &&& error->status == status
                &&& error->body == Some(body)
                &&& "HTTP error "@.is_prefix_of(error->Http_message)
                &&& decimal(status as nat).is_suffix_of(error->Http_message)
                &&& error->Http_message.len() == "HTTP error "@.len() + decimal(
                    status as nat,
                ).len()
            }
        }),
{
}

/// A request that got no answer is an error: of the time limit where it ran out, of
/// the network otherwise, with the words that say why at the end.
pub proof fn law_missing_answers_are_errors(config: RequestConfigView, detail: Seq<char>)
    ensures
        reply_outcome(config, TransportReplyView::TimedOut) == Err::<HttpResponseView, _>(
            HttpErrorView::Timeout,
        ),
        reply_outcome(config, TransportReplyView::SendFailed { detail }) matches Err(
            HttpErrorView::Network { message },
        ) && "Request failed: "@.is_prefix_of(message) && detail.is_suffix_of(message)
            && message.len() == "Request failed: "@.len() + detail.len(),
        reply_outcome(config, TransportReplyView::BodyFailed { detail }) matches Err(
            HttpErrorView::Network { message },
        ) && "Failed to read response body: "@.is_prefix_of(message) && detail.is_suffix_of(message)
            && message.len() == "Failed to read response body: "@.len() + detail.len(),
{
}

/// What the user is shown names the status of a response, and of an error it has
/// the error's own text.
pub proof fn law_what_the_user_is_shown(outcome: Result<HttpResponseView, HttpErrorView>)
    ensures
        match outcome {
            Ok(response) => if 200 <= response.status < 300 {
                notification(outcome) == "Request completed successfully ("@ + decimal(
                    response.status as nat,
                ) + ")"@
            } else {
                &&& "Request failed with status "@.is_prefix_of(notification(outcome))
                &&& decimal(response.status as nat).is_suffix_of(notification(outcome))
                &&& notification(outcome).len() == "Request failed with status "@.len() + decimal(
                    response.status as nat,
                ).len()
            },
            Err(error) => {
                &&& "Request failed: "@.is_prefix_of(notification(outcome))
                &&& error.shown().is_suffix_of(notification(outcome))
                &&& notification(outcome).len() == "Request failed: "@.len() + error.shown().len()
            },
        },
{
}

/// Before a request goes out, a store that asks for it is told to show the loader,
/// then that the progress is zero, then that it is fifty percent. Nothing else is
/// told, and nothing without a store.
pub proof fn law_told_before_going_out(builder: RequestBuilderView)
    ensures
        ({
            let told = opening_actions(builder) + sending_actions(builder);
            let loader = if builder.dispatch is Some && builder.config.with_loader {
                1int
            } else {
                0int
            };
            let progress = if builder.dispatch is Some && builder.config.with_progress {
                1int
            } else {
                0int
            };
            &&& opening_actions(builder).len() == loader + progress
            &&& told.len() == loader + 2 * progress
            &&& loader == 1 ==> told[0] == AppActionView::EnableLoader
            &&& progress == 1 ==> told[loader] == AppActionView::UpdateProgress(0)
            &&& progress == 1 ==> told[loader + 1] == AppActionView::UpdateProgress(50)
        }),
{
}

/// After an attempt, whatever its outcome, a store that asks for it is shown what
/// came of it, then told that the progress is complete, if it succeeded, and last to
/// hide the loader. Nothing else is told, and nothing without a store.
pub proof fn law_told_after_an_attempt(
    builder: RequestBuilderView,
    outcome: Result<HttpResponseView, HttpErrorView>,
)
    ensures
        ({
            let told = closing_actions(builder, outcome);
            let note = if builder.dispatch is Some && builder.config.with_notifications {
                1int
            } else {
                0int
            };
            let progress = if builder.dispatch is Some && builder.config.with_progress && outcome is Ok {
                1int
            } else {
                0int
            };
            let loader = if builder.dispatch is Some && builder.config.with_loader {
                1int
            } else {
                0int
            };
            &&& told.len() == note + progress + loader
            &&& note == 1 ==> told[0] == AppActionView::ShowNotification(notification(outcome))
            &&& progress == 1 ==> told[note] == AppActionView::UpdateProgress(100)
            &&& loader == 1 ==> told[note + progress] == AppActionView::DisableLoader
        }),
{
}

/// A list of at most one action.
pub proof fn law_told_if(told: bool, action: AppActionView)
    ensures
        told_if(told, action).len() == if told {
            1nat
        } else {
            0nat
        },
        told ==> told_if(told, action)[0] == action,
{
}

} // verus!
