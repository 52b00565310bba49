//! What can go wrong with a request.

use crate::text::{copy_text, decimal, decimal_text, joined, text_view};
use vstd::prelude::*;
use vstd::string::*;

verus! {

/// HTTP client errors
#[derive(Debug, PartialEq)]
pub enum HttpError {
    /// The request or its answer did not get through.
    Network { message: String },
    /// No answer came in the time allowed for it.
    Timeout,
    /// The request has no usable URL.
    InvalidUrl { url: String },
    /// A value could not be written as JSON, or JSON not read as a value.
    Serialization { message: String },
    /// The server answered with a status that is no success.
    Http { status: u16, message: String, body: Option<String> },
    /// The user gave the request up.
    Cancelled,
    /// The answer has a form that cannot be used.
    InvalidResponse,
    /// The request could not be set up.
    Configuration { message: String },
}

/// An [`HttpError`] with its texts as sequences of characters.
pub enum HttpErrorView {
    Network { message: Seq<char> },
    Timeout,
    InvalidUrl { url: Seq<char> },
    Serialization { message: Seq<char> },
    Http { status: u16, message: Seq<char>, body: Option<Seq<char>> },
    Cancelled,
    InvalidResponse,
    Configuration { message: Seq<char> },
}

impl View for HttpError {
    type V = HttpErrorView;

    open spec fn view(&self) -> HttpErrorView {
        match *self {
            HttpError::Network { message } => HttpErrorView::Network { message: message@ },
            HttpError::Timeout => HttpErrorView::Timeout,
            HttpError::InvalidUrl { url } => HttpErrorView::InvalidUrl { url: url@ },
            HttpError::Serialization { message } => HttpErrorView::Serialization {
                message: message@,
            },
            HttpError::Http { status, message, body } => HttpErrorView::Http {
                status,
                message: message@,
                body: text_view(body),
            },
            HttpError::Cancelled => HttpErrorView::Cancelled,
            HttpError::InvalidResponse => HttpErrorView::InvalidResponse,
            HttpError::Configuration { message } => HttpErrorView::Configuration {
                message: message@,
            },
        }
    }
}

impl HttpErrorView {
    /// The text that shows the error to a user.
    pub open spec fn shown(self) -> Seq<char> {
        match self {
            HttpErrorView::Network { message } => "Network error: "@ + message,
            HttpErrorView::Timeout => "Request timeout"@,
            HttpErrorView::InvalidUrl { url } => "Invalid URL: "@ + url,
            HttpErrorView::Serialization { message } => "Serialization error: "@ + message,
            HttpErrorView::Http { status, message, body } => "HTTP "@ + decimal(status as nat)
                + ": "@ + message,
            HttpErrorView::Cancelled => "Cancelled by user"@,
            HttpErrorView::InvalidResponse => "Invalid response format"@,
            HttpErrorView::Configuration { message } => "Configuration error: "@ + message,
        }
    }

    /// The error would come again: it lies with the request or with the user, so
    /// no further attempt is made.
    pub open spec fn is_final(self) -> bool {
        match self {
            HttpErrorView::Cancelled => true,
            HttpErrorView::InvalidUrl { url } => true,
            HttpErrorView::Configuration { message } => true,
            HttpErrorView::Http { status, message, body } => 400 <= status < 500,
            _ => false,
        }
    }
}

impl HttpError {
    /// The text that shows the error to a user.
    pub fn to_string(&self) -> (text: String)
        ensures
            text@ == self@.shown(),
    {
        match self {
            HttpError::Network { message } => joined("Network error: ", message.as_str()),
            HttpError::Timeout => "Request timeout".to_string(),
            HttpError::InvalidUrl { url } => joined("Invalid URL: ", url.as_str()),
            HttpError::Serialization { message } => joined(
                "Serialization error: ",
                message.as_str(),
            ),
            HttpError::Http { status, message, body: _ } => {
                let mut text = joined("HTTP ", decimal_text(*status).as_str());
                text.append(": ");
                text.append(message.as_str());
                text
            },
            HttpError::Cancelled => "Cancelled by user".to_string(),
            HttpError::InvalidResponse => "Invalid response format".to_string(),
            HttpError::Configuration { message } => joined(
                "Configuration error: ",
                message.as_str(),
            ),
        }
    }

    /// Whether no further attempt is made after this error.
    pub fn is_final(&self) -> (last: bool)
        ensures
            last == self@.is_final(),
    {
        match self {
            HttpError::Cancelled => true,
            HttpError::InvalidUrl { .. } => true,
            HttpError::Configuration { .. } => true,
            HttpError::Http { status, .. } => *status >= 400 && *status < 500,
            _ => false,
        }
    }
}

impl Clone for HttpError {
    fn clone(&self) -> (copy: Self)
        ensures
            copy == *self,
    {
        match self {
            HttpError::Network { message } => HttpError::Network { message: message.clone() },
            HttpError::Timeout => HttpError::Timeout,
            HttpError::InvalidUrl { url } => HttpError::InvalidUrl { url: url.clone() },
            HttpError::Serialization { message } => HttpError::Serialization {
                message: message.clone(),
            },
            HttpError::Http { status, message, body } => HttpError::Http {
                status: *status,
                message: message.clone(),
                body: copy_text(body),
            },
            HttpError::Cancelled => HttpError::Cancelled,
            HttpError::InvalidResponse => HttpError::InvalidResponse,
            HttpError::Configuration { message } => HttpError::Configuration {
                message: message.clone(),
            },
        }
    }
}

/// The text of an error starts with what kind of error it is and ends with the
/// words that it carries, with nothing between them but the status of an answer.
pub proof fn law_texts_of_errors(error: HttpErrorView)
    ensures
        match error {
            HttpErrorView::Network { message } => {
                &&& "Network error: "@.is_prefix_of(error.shown())
                &&& message.is_suffix_of(error.shown())
                &&& error.shown().len() == "Network error: "@.len() + message.len()
            },
            HttpErrorView::InvalidUrl { url } => {
                &&& "Invalid URL: "@.is_prefix_of(error.shown())
                &&& url.is_suffix_of(error.shown())
                &&& error.shown().len() == "Invalid URL: "@.len() + url.len()
            },
            HttpErrorView::Serialization { message } => {
                &&& "Serialization error: "@.is_prefix_of(error.shown())
                &&& message.is_suffix_of(error.shown())
                &&& error.shown().len() == "Serialization error: "@.len() + message.len()
            },
            HttpErrorView::Configuration { message } => {
                &&& "Configuration error: "@.is_prefix_of(error.shown())
                &&& message.is_suffix_of(error.shown())
                &&& error.shown().len() == "Configuration error: "@.len() + message.len()
            },
            HttpErrorView::Http { status, message, body } => {
                &&& ("HTTP "@ + decimal(status as nat) + ": "@).is_prefix_of(error.shown())
                &&& message.is_suffix_of(error.shown())
                &&& error.shown().len() == "HTTP "@.len() + decimal(status as nat).len()
                    + ": "@.len() + message.len()
            },
            HttpErrorView::Timeout => error.shown() == "Request timeout"@,
            HttpErrorView::Cancelled => error.shown() == "Cancelled by user"@,
            HttpErrorView::InvalidResponse => error.shown() == "Invalid response format"@,
        },
{
}

/// Exactly the errors that lie with the request or with the user are final: it was
/// given up, it has no URL, it could not be set up, or the server refused it with
/// a client error (4xx).
pub proof fn law_final_errors(error: HttpErrorView)
    ensures
        error is Cancelled || error is InvalidUrl || error is Configuration ==> error.is_final(),
        error is Network || error is Timeout || error is Serialization || error is InvalidResponse
            ==> !error.is_final(),
        error is Http ==> (error.is_final() <==> error->status / 100 == 4),
{
}

} // verus!
