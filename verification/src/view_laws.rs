//! Views lose nothing: what a value holds can be read from its view.

use crate::error::{HttpError, HttpErrorView};
use crate::exchange::{Transmission, TransportReply, TransportReplyView};
use crate::health_manager::{
    status_view, HealthCheckStart, HealthCheckStartView, HealthResponse,
};
use crate::request::{RequestBody, RequestBodyView, RequestConfig};
use crate::response::{outcome_view, HttpResponse};
use crate::send::{SendStep, SendStepView};
use crate::store::{
    actions_view, texts_view, AppAction, AppActionView, HealthStatus,
};
use crate::text::text_view;
use vstd::prelude::*;

verus! {

/// The view of an optional text is there exactly if the text is, and is its
/// characters.
pub proof fn law_view_of_a_text(text: Option<String>)
    ensures
        text_view(text) is Some <==> text is Some,
        text is Some ==> text_view(text).unwrap() == text.unwrap()@,
{
}

/// The view of a list of texts has the characters of each text in its place.
pub proof fn law_view_of_texts(texts: Seq<String>)
    ensures
        texts_view(texts).len() == texts.len(),
        forall|i: int| 0 <= i < texts.len() ==> #[trigger] texts_view(texts)[i] == texts[i]@,
{
}

/// The view of a list of actions has the view of each action in its place.
pub proof fn law_view_of_actions(actions: Seq<AppAction>)
    ensures
        actions_view(actions).len() == actions.len(),
        forall|i: int| 0 <= i < actions.len() ==> #[trigger] actions_view(actions)[i] == actions[i]@,
{
}

/// The view of an error is of the same kind and holds the same.
pub proof fn law_view_of_an_error(error: HttpError)
    ensures
        error is Network <==> error@ is Network,
        error is Timeout <==> error@ is Timeout,
        error is InvalidUrl <==> error@ is InvalidUrl,
        error is Serialization <==> error@ is Serialization,
        error is Http <==> error@ is Http,
        error is Cancelled <==> error@ is Cancelled,
        error is InvalidResponse <==> error@ is InvalidResponse,
        error is Configuration <==> error@ is Configuration,
        match error {
            HttpError::Network { message: text } => error@ matches HttpErrorView::Network {
                message,
            } && message == text@,
            HttpError::InvalidUrl { url: text } => error@ matches HttpErrorView::InvalidUrl { url }
                && url == text@,
            HttpError::Serialization { message: text } =>
                error@ matches HttpErrorView::Serialization { message } && message == text@,
            HttpError::Http { status: code, message: text, body: content } =>
                error@ matches HttpErrorView::Http { status, message, body } && status == code
                    && message == text@ && body == text_view(content),
            HttpError::Configuration { message: text } =>
                error@ matches HttpErrorView::Configuration { message } && message == text@,
            _ => true,
        },
{
}

/// The view of a response holds the same in each field.
pub proof fn law_view_of_a_response(response: HttpResponse)
    ensures
        response@.status == response.status,
        response@.headers == response.headers@,
        response@.body == response.body@,
        response@.url == response.url@,
        response@.call_name == text_view(response.call_name),
{
}

/// The view of an outcome is a response exactly if the outcome is.
pub proof fn law_view_of_an_outcome(outcome: Result<HttpResponse, HttpError>)
    ensures
        outcome_view(outcome) is Ok <==> outcome is Ok,
        outcome matches Ok(response) ==> outcome_view(outcome)->Ok_0 == response@,
        outcome matches Err(error) ==> outcome_view(outcome)->Err_0 == error@,
{
}

/// The view of a body is of the same kind and holds the same.
pub proof fn law_view_of_a_body(body: RequestBody)
    ensures
        match body {
            RequestBody::Empty => body@ is Empty,
            RequestBody::Text(text) => body@ matches RequestBodyView::Text(held) && held == text@,
            RequestBody::Json(text) => body@ matches RequestBodyView::Json(held) && held == text@,
            RequestBody::FormData(form) => body@ matches RequestBodyView::FormData(held) && held
                == form,
            RequestBody::Binary(data) => body@ matches RequestBodyView::Binary(held) && held
                == data@,
        },
{
}

/// The view of a configuration holds the same in each field.
pub proof fn law_view_of_a_configuration(config: RequestConfig)
    ensures
        config@.method == config.method,
        config@.url == config.url@,
        config@.headers == config.headers@,
        config@.body == config.body@,
        config@.timeout_ms == config.timeout_ms,
        config@.with_loader == config.with_loader,
        config@.with_progress == config.with_progress,
        config@.with_notifications == config.with_notifications,
        config@.call_name == text_view(config.call_name),
        config@.retry_count == config.retry_count,
        config@.retry_delay_ms == config.retry_delay_ms,
        config@.skip_health_check == config.skip_health_check,
{
}

/// The view of a transmission holds the same in each field.
pub proof fn law_view_of_a_transmission(out: Transmission<'_>)
    ensures
        out@.method == out.method,
        out@.url == out.url@,
        out@.headers == out.headers@,
        out@.body == out.body@,
        out@.timeout_ms == out.timeout_ms,
{
}

/// The view of a reply is of the same kind and holds the same.
pub proof fn law_view_of_a_reply(reply: TransportReply)
    ensures
        match reply {
            TransportReply::Received { status: code, url: from, body: content } =>
                reply@ matches TransportReplyView::Received { status, url, body } && status == code
                    && url == from@ && body == content@,
            TransportReply::SendFailed { detail: text } =>
                reply@ matches TransportReplyView::SendFailed { detail } && detail == text@,
            TransportReply::BodyFailed { detail: text } =>
                reply@ matches TransportReplyView::BodyFailed { detail } && detail == text@,
            TransportReply::TimedOut => reply@ is TimedOut,
        },
{
}

/// The view of a health status holds the same in each field.
pub proof fn law_view_of_a_status(status: HealthStatus)
    ensures
        status@.all_services_down == status.all_services_down,
        status@.down_services == texts_view(status.down_services@),
        status@.message == status.message@,
        status@.last_updated == status.last_updated,
        status_view(Some(status)) == Some(status@),
        status_view(None) is None,
{
}

/// The view of the health endpoint's words holds the same in each field.
pub proof fn law_view_of_a_health_response(response: HealthResponse)
    ensures
        response@.all_services_down == response.all_services_down,
        response@.down_services == texts_view(response.down_services@),
        response@.message == response.message@,
{
}

/// The view of an action is of the same kind and holds the same.
pub proof fn law_view_of_an_action(action: AppAction)
    ensures
        match action {
            AppAction::EnableLoader => action@ is EnableLoader,
            AppAction::DisableLoader => action@ is DisableLoader,
            AppAction::UpdateProgress(percent) => action@ matches AppActionView::UpdateProgress(held)
                && held == percent,
            AppAction::ShowNotification(text) => action@ matches AppActionView::ShowNotification(
                held,
            ) && held == text@,
            AppAction::ServiceHealthUpdated(status) =>
                action@ matches AppActionView::ServiceHealthUpdated(held) && held == status@,
        },
{
}

/// The view of what becomes of a wish for a health check is of the same kind and
/// holds the same.
pub proof fn law_view_of_a_start(start: HealthCheckStart)
    ensures
        match start {
            HealthCheckStart::AlreadyRunning => start@ is AlreadyRunning,
            HealthCheckStart::Started => start@ is Started,
            HealthCheckStart::CoolingDown { remaining_s: seconds, told_again: action } =>
                start@ matches HealthCheckStartView::CoolingDown { remaining_s, told_again }
                    && remaining_s == seconds && (told_again is Some <==> action is Some) && (
                action matches Some(told) ==> told_again == Some(told@)),
        },
{
}

/// The view of a step is of the same kind and holds the same.
pub proof fn law_view_of_a_step(step: SendStep)
    ensures
        match step {
            SendStep::Transmit { actions: told, in_flight } =>
                step@ matches SendStepView::Transmit { actions, request } && actions
                    == actions_view(told@) && request == in_flight@,
            SendStep::Wait { actions: told, wait_ms: wait, paused } =>
                step@ matches SendStepView::Wait { actions, wait_ms, request } && actions
                    == actions_view(told@) && wait_ms == wait && request == paused@,
            SendStep::Finish { actions: told, outcome: result, health_check: store } =>
                step@ matches SendStepView::Finish { actions, outcome, health_check } && actions
                    == actions_view(told@) && outcome == outcome_view(result) && health_check
                    == store,
        },
{
}

} // verus!
