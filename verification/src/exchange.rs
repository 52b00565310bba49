//! One attempt at a request: what the store is told, what goes out, and what is
//! made of what comes back.

use crate::builder::{RequestBuilder, RequestBuilderView};
use crate::error::{HttpError, HttpErrorView};
use crate::headers::Headers;
use crate::request::{HttpMethod, RequestBody, RequestBodyView, RequestConfig, RequestConfigView};
use crate::response::{outcome_view, success_status, HttpResponse, HttpResponseView};
use crate::store::{actions_view, AppAction, AppActionView};
use crate::text::{copy_text, decimal, decimal_text, joined, text_view};
use vstd::prelude::*;
use vstd::string::*;

verus! {

/// What goes out in one attempt.
#[derive(Debug)]
pub struct Transmission<'a> {
    pub method: HttpMethod,
    pub url: &'a str,
    pub headers: &'a Headers,
    pub body: &'a RequestBody,
    /// How long the answer may take, in milliseconds.
    pub timeout_ms: Option<u32>,
}

/// A [`Transmission`] with its texts as sequences of characters.
pub struct TransmissionView {
    pub method: HttpMethod,
    pub url: Seq<char>,
    pub headers: Map<Seq<char>, Seq<char>>,
    pub body: RequestBodyView,
    pub timeout_ms: Option<u32>,
}

impl<'a> View for Transmission<'a> {
    type V = TransmissionView;

    open spec fn view(&self) -> TransmissionView {
        TransmissionView {
            method: self.method,
            url: self.url@,
            headers: self.headers@,
            body: self.body@,
            timeout_ms: self.timeout_ms,
        }
    }
}

/// What comes back in one attempt.
#[derive(Debug)]
pub enum TransportReply {
    /// An answer, read to its end.
    Received { status: u16, url: String, body: String },
    /// The request did not get through; the text says why.
    SendFailed { detail: String },
    /// The body of the answer could not be read; the text says why.
    BodyFailed { detail: String },
    /// The time for the answer ran out.
    TimedOut,
}

/// A [`TransportReply`] with its texts as sequences of characters.
pub enum TransportReplyView {
    Received { status: u16, url: Seq<char>, body: Seq<char> },
    SendFailed { detail: Seq<char> },
    BodyFailed { detail: Seq<char> },
    TimedOut,
}

impl View for TransportReply {
    type V = TransportReplyView;

    open spec fn view(&self) -> TransportReplyView {
        match *self {
            TransportReply::Received { status, url, body } => TransportReplyView::Received {
                status,
                url: url@,
                body: body@,
            },
            TransportReply::SendFailed { detail } => TransportReplyView::SendFailed {
                detail: detail@,
            },
            TransportReply::BodyFailed { detail } => TransportReplyView::BodyFailed {
                detail: detail@,
            },
            TransportReply::TimedOut => TransportReplyView::TimedOut,
        }
    }
}

/// What goes out for a configuration.
pub open spec fn transmission_of(config: RequestConfigView) -> TransmissionView {
    TransmissionView {
        method: config.method,
        url: config.url,
        headers: config.headers,
        body: config.body,
        timeout_ms: config.timeout_ms,
    }
}

/// What a reply amounts to: a response if its status is a success, an error
/// otherwise.
pub open spec fn reply_outcome(config: RequestConfigView, reply: TransportReplyView) -> Result<
    HttpResponseView,
    HttpErrorView,
> {
    match reply {
        TransportReplyView::Received { status, url, body } => if success_status(status) {
            Ok(
                HttpResponseView {
                    status,
                    headers: Map::empty(),
                    body,
                    url,
                    call_name: config.call_name,
                },
            )
        } else {
            Err(
                HttpErrorView::Http {
                    status,
                    message: "HTTP error "@ + decimal(status as nat),
                    body: Some(body),
                },
            )
        },
        TransportReplyView::SendFailed { detail } => Err(
            HttpErrorView::Network { message: "Request failed: "@ + detail },
        ),
        TransportReplyView::BodyFailed { detail } => Err(
            HttpErrorView::Network { message: "Failed to read response body: "@ + detail },
        ),
        TransportReplyView::TimedOut => Err(HttpErrorView::Timeout),
    }
}

/// `action` alone if `told`, nothing otherwise.
pub open spec fn told_if(told: bool, action: AppActionView) -> Seq<AppActionView> {
    if told {
        seq![action]
    } else {
        Seq::empty()
    }
}

/// What the store is told before an attempt.
pub open spec fn opening_actions(builder: RequestBuilderView) -> Seq<AppActionView> {
    let told = builder.dispatch is Some;
    told_if(told && builder.config.with_loader, AppActionView::EnableLoader) + told_if(
        told && builder.config.with_progress,
        AppActionView::UpdateProgress(0),
    )
}

/// What the store is told when the request is about to go out.
pub open spec fn sending_actions(builder: RequestBuilderView) -> Seq<AppActionView> {
    told_if(
        builder.dispatch is Some && builder.config.with_progress,
        AppActionView::UpdateProgress(50),
    )
}

/// What the user is shown of an outcome.
pub open spec fn notification(outcome: Result<HttpResponseView, HttpErrorView>) -> Seq<char> {
    match outcome {
        Ok(response) => if success_status(response.status) {
            "Request completed successfully ("@ + decimal(response.status as nat) + ")"@
        } else {
            "Request failed with status "@ + decimal(response.status as nat)
        },
        Err(error) => "Request failed: "@ + error.shown(),
    }
}

/// What the store is told after an attempt.
pub open spec fn closing_actions(
    builder: RequestBuilderView,
    outcome: Result<HttpResponseView, HttpErrorView>,
) -> Seq<AppActionView> {
    let told = builder.dispatch is Some;
    told_if(
        told && builder.config.with_notifications,
        AppActionView::ShowNotification(notification(outcome)),
    ) + told_if(
        told && builder.config.with_progress && outcome is Ok,
        AppActionView::UpdateProgress(100),
    ) + told_if(told && builder.config.with_loader, AppActionView::DisableLoader)
}

/// What goes out for a configuration.
pub(crate) fn outgoing(config: &RequestConfig) -> (transmission: Transmission<'_>)
    ensures
        transmission@ == transmission_of(config@),
        transmission.method == config.method,
        transmission.url@ == config.url@,
        transmission.headers@ == config.headers@,
        transmission.body@ == config.body@,
        transmission.timeout_ms == config.timeout_ms,
{
    Transmission {
        method: config.method,
        url: config.url.as_str(),
        headers: &config.headers,
        body: &config.body,
        timeout_ms: config.timeout_ms,
    }
}

/// Appends `action`.
fn tell(actions: &mut Vec<AppAction>, action: AppAction)
    ensures
        actions_view(final(actions)@) == actions_view(old(actions)@).push(action@),
        actions_view(final(actions)@) == actions_view(old(actions)@) + seq![action@],
{
    let ghost before = actions@;
    actions.push(action);
    assert(actions_view(actions@) =~= actions_view(before).push(action@));
    assert(actions_view(actions@) =~= actions_view(before) + seq![action@]);
}

/// What the user is shown of an outcome.
pub fn notification_text(outcome: &Result<HttpResponse, HttpError>) -> (text: String)
    ensures
        text@ == notification(outcome_view(*outcome)),
{
    match outcome {
        Ok(response) => {
            let status = decimal_text(response.status);
            if response.is_success() {
                let mut text = joined("Request completed successfully (", status.as_str());
                text.append(")");
                text
            } else {
                joined("Request failed with status ", status.as_str())
            }
        },
        Err(error) => joined("Request failed: ", error.to_string().as_str()),
    }
}

impl RequestBuilder {
    /// What goes out. A request without a URL is refused.
    pub fn transmission(&self) -> (transmission: Result<Transmission<'_>, HttpError>)
        ensures
            if self@.config.url.len() == 0 {
                transmission matches Err(error) && error@ == (HttpErrorView::InvalidUrl {
                    url: self@.config.url,
                })
            } else {
                transmission matches Ok(out) && out@ == transmission_of(self@.config) && out.method
                    == self@.config.method && out.url@ == self@.config.url && out.headers@
                    == self@.config.headers && out.body@ == self@.config.body && out.timeout_ms
                    == self@.config.timeout_ms
            },
    {
        let config = self.config();
        if config.url.as_str().is_empty() {
            return Err(HttpError::InvalidUrl { url: config.url.clone() });
        }
        Ok(outgoing(config))
    }

    /// What a reply amounts to: a response if its status is a success, an error
    /// otherwise.
    pub fn outcome(&self, reply: TransportReply) -> (outcome: Result<HttpResponse, HttpError>)
        ensures
            outcome_view(outcome) == reply_outcome(self@.config, reply@),
            match reply {
                TransportReply::Received { status: code, url, body: content } => match outcome {
                    Ok(response) => {
                        &&& 200 <= code < 300
                        &&& response.status == code
                        &&& response.body@ == content@
                        &&& response.url@ == url@
                        &&& text_view(response.call_name) == self@.config.call_name
                    },
                    Err(error) => {
                        &&& !(200 <= code < 300)
                        &&& error matches HttpError::Http { status, message, body } && status
                            == code && message@ == "HTTP error "@ + decimal(code as nat) && (
                        body matches Some(text) && text@ == content@)
                    },
                },
                TransportReply::SendFailed { detail } => outcome matches Err(
                    HttpError::Network { message },
                ) && message@ == "Request failed: "@ + detail@,
                TransportReply::BodyFailed { detail } => outcome matches Err(
                    HttpError::Network { message },
                ) && message@ == "Failed to read response body: "@ + detail@,
                TransportReply::TimedOut => outcome matches Err(HttpError::Timeout),
            },
    {
        match reply {
            TransportReply::Received { status, url, body } => {
                let response = HttpResponse {
                    status,
                    headers: Headers::new(),
                    body,
                    url,
                    call_name: copy_text(&self.config().call_name),
                };
                if !response.is_success() {
                    return Err(
                        HttpError::Http {
                            status,
                            message: joined("HTTP error ", decimal_text(status).as_str()),
                            body: Some(response.body),
                        },
                    );
                }
                Ok(response)
            },
            TransportReply::SendFailed { detail } => Err(
                HttpError::Network { message: joined("Request failed: ", detail.as_str()) },
            ),
            TransportReply::BodyFailed { detail } => Err(
                HttpError::Network {
                    message: joined("Failed to read response body: ", detail.as_str()),
                },
            ),
            TransportReply::TimedOut => Err(HttpError::Timeout),
        }
    }

    /// What the store is told before an attempt.
    pub fn opening_actions(&self) -> (actions: Vec<AppAction>)
        ensures
            actions_view(actions@) == opening_actions(self@),
    {
        let mut actions: Vec<AppAction> = Vec::new();
        assert(actions_view(actions@) =~= Seq::<AppActionView>::empty());
        if self.dispatcher().is_some() {
            if self.config().with_loader {
                tell(&mut actions, AppAction::EnableLoader);
            }
            if self.config().with_progress {
                tell(&mut actions, AppAction::UpdateProgress(0));
            }
        }
        assert(actions_view(actions@) =~= opening_actions(self@));
        actions
    }

    /// Adds to `actions` what the store is told when the request is about to go
    /// out.
    pub fn add_sending_actions(&self, actions: &mut Vec<AppAction>)
        ensures
            actions_view(final(actions)@) == actions_view(old(actions)@) + sending_actions(self@),
    {
        if self.dispatcher().is_some() && self.config().with_progress {
            tell(actions, AppAction::UpdateProgress(50));
        }
        assert(actions_view(actions@) =~= actions_view(old(actions)@) + sending_actions(self@));
    }

    /// Adds to `actions` what the store is told after an attempt.
    pub fn add_closing_actions(
        &self,
        outcome: &Result<HttpResponse, HttpError>,
        actions: &mut Vec<AppAction>,
    )
        ensures
            actions_view(final(actions)@) == actions_view(old(actions)@) + closing_actions(
                self@,
                outcome_view(*outcome),
            ),
    {
        if self.dispatcher().is_some() {
            if self.config().with_notifications {
                tell(actions, AppAction::ShowNotification(notification_text(outcome)));
            }
            if self.config().with_progress && outcome.is_ok() {
                tell(actions, AppAction::UpdateProgress(100));
            }
            if self.config().with_loader {
                tell(actions, AppAction::DisableLoader);
            }
        }
        assert(actions_view(actions@) =~= actions_view(old(actions)@) + closing_actions(
            self@,
            outcome_view(*outcome),
        ));
    }
}

} // verus!
