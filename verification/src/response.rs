//! Answers of a server.

use crate::error::{HttpError, HttpErrorView};
use crate::headers::{find_ignoring_case, Headers};
use crate::text::{all_ascii, ascii_lowered, copy_text, joined, lowercase, text_view};
use vstd::prelude::*;

verus! {

/// HTTP response wrapper with additional metadata
#[derive(Debug)]
pub struct HttpResponse {
    pub status: u16,
    pub headers: Headers,
    pub body: String,
    pub url: String,
    pub call_name: Option<String>,
}

/// An [`HttpResponse`] with its texts as sequences of characters.
pub struct HttpResponseView {
    pub status: u16,
    pub headers: Map<Seq<char>, Seq<char>>,
    pub body: Seq<char>,
    pub url: Seq<char>,
    pub call_name: Option<Seq<char>>,
}

impl View for HttpResponse {
    type V = HttpResponseView;

    open spec fn view(&self) -> HttpResponseView {
        HttpResponseView {
            status: self.status,
            headers: self.headers@,
            body: self.body@,
            url: self.url@,
            call_name: text_view(self.call_name),
        }
    }
}

/// The outcome of a request, by view.
pub open spec fn outcome_view(outcome: Result<HttpResponse, HttpError>) -> Result<
    HttpResponseView,
    HttpErrorView,
> {
    match outcome {
        Ok(response) => Ok(response@),
        Err(error) => Err(error@),
    }
}

/// `status` is a success (2xx).
pub open spec fn success_status(status: u16) -> bool {
    200 <= status < 300
}

impl HttpResponse {
    /// What the body holds as JSON, given what a JSON reader made of it: the
    /// value, or the text of the reader's error.
    pub fn json<T>(&self, read: Result<T, String>) -> (value: Result<T, HttpError>)
        ensures
            match read {
                Ok(found) => value == Ok::<T, HttpError>(found),
                Err(detail) => value matches Err(error) && error@ == (
                HttpErrorView::Serialization {
                    message: "Failed to deserialize JSON: "@ + detail@,
                }),
            },
    {
        match read {
            Ok(found) => Ok(found),
            Err(detail) => Err(
                HttpError::Serialization {
                    message: joined("Failed to deserialize JSON: ", detail.as_str()),
                },
            ),
        }
    }

    /// Get response body as text
    pub fn text(&self) -> (body: &str)
        ensures
            body@ == self@.body,
    {
        self.body.as_str()
    }

    /// Check if request was successful (2xx status)
    pub fn is_success(&self) -> (success: bool)
        ensures
            success == success_status(self.status),
            success == (200 <= self.status < 300),
    {
        self.status >= 200 && self.status < 300
    }

    /// Check if request was a client error (4xx status)
    pub fn is_client_error(&self) -> (client_error: bool)
        ensures
            client_error == (400 <= self.status < 500),
    {
        self.status >= 400 && self.status < 500
    }

    /// Check if request was a server error (5xx status)
    pub fn is_server_error(&self) -> (server_error: bool)
        ensures
            server_error == (500 <= self.status < 600),
    {
        self.status >= 500 && self.status < 600
    }

    /// Get header value by name (case-insensitive). Where several names are the
    /// same but for case, the one that was set first counts.
    pub fn header(&self, name: &str) -> (value: Option<&String>)
        ensures
            match value {
                Some(text) => find_ignoring_case(self.headers.entries(), name@) == Some(text@),
                None => find_ignoring_case(self.headers.entries(), name@) is None,
            },
            value is Some <==> exists|key: Seq<char>| #[trigger]
                self.headers@.contains_key(key) && lowercase(key) == lowercase(name@),
            value matches Some(text) ==> exists|key: Seq<char>| #[trigger]
                self.headers@.contains_key(key) && lowercase(key) == lowercase(name@)
                    && self.headers@[key] == text@,
            all_ascii(name@) && (forall|key: Seq<char>| #[trigger]
                self.headers@.contains_key(key) ==> all_ascii(key)) ==> (value is Some <==> exists|
                key: Seq<char>,
            | #[trigger]
                self.headers@.contains_key(key) && ascii_lowered(key) == ascii_lowered(name@)),
    {
        self.headers.get_ignoring_case(name)
    }
}

impl Clone for HttpResponse {
    fn clone(&self) -> (copy: Self)
        ensures
            copy@ == self@,
            copy.headers.entries() == self.headers.entries(),
    {
        HttpResponse {
            status: self.status,
            headers: self.headers.clone(),
            body: self.body.clone(),
            url: self.url.clone(),
            call_name: copy_text(&self.call_name),
        }
    }
}

/// The successes are the statuses whose hundreds are two, and no success is an
/// error of the client or of the server.
pub proof fn law_successes(status: u16)
    ensures
        success_status(status) <==> status / 100 == 2,
        success_status(status) ==> !(400 <= status < 600),
{
}

} // verus!
