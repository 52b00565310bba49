//! Common HTTP operations: the requests that they send, and what they make of
//! what comes back.

use crate::builder::{json_write_error, with_json, RequestBuilder, RequestBuilderView};
use crate::client::{get_http_client, new_client, HttpClient};
use crate::error::{HttpError, HttpErrorView};
use crate::request::{HttpMethod, RequestBodyView, RequestConfigView};
use crate::response::HttpResponse;
use crate::store::StoreDispatcher;
use vstd::prelude::*;
use vstd::string::*;

verus! {

/// The request of a simple POST with a JSON payload, given what a JSON writer
/// made of the payload: the JSON, or the text of the writer's error.
pub fn post_json_request(url: &str, written: Result<String, String>) -> (request: Result<
    RequestBuilder,
    HttpError,
>)
    ensures
        match written {
            Ok(json) => request matches Ok(built) && built@ == with_json(
                new_client(None).request(HttpMethod::Post, url@),
                json@,
            ),
            Err(detail) => request matches Err(error) && error@ == json_write_error(detail@),
        },
{
    get_http_client().post(url).json(written)
}

/// Where making a form of a file can fail.
#[derive(Debug, Clone, Copy, PartialEq, Eq, Structural)]
pub enum UploadFailure {
    /// There is no form.
    Form,
    /// The file's bytes make no blob.
    Blob,
    /// The form does not take the file.
    Append,
}

impl UploadFailure {
    /// What is said of the failure.
    pub open spec fn message(self) -> Seq<char> {
        match self {
            UploadFailure::Form => "Failed to create FormData"@,
            UploadFailure::Blob => "Failed to create blob"@,
            UploadFailure::Append => "Failed to append file to FormData"@,
        }
    }
}

/// A file as a part of a form.
#[derive(Debug)]
pub struct FilePart<'a> {
    /// The name of the form's field.
    pub field: &'static str,
    pub data: &'a [u8],
    pub content_type: &'a str,
    pub filename: &'a str,
}

/// The part that a file makes of the form that uploads it.
pub fn file_part<'a>(file_data: &'a [u8], filename: &'a str, content_type: &'a str) -> (part:
    FilePart<'a>)
    ensures
        part.field@ == "file"@,
        part.data@ == file_data@,
        part.content_type@ == content_type@,
        part.filename@ == filename@,
{
    FilePart { field: "file", data: file_data, content_type, filename }
}

/// The request that uploads a form. The store, if there is one, is told how far
/// it has come.
pub open spec fn upload_request(
    url: Seq<char>,
    form: web_sys::FormData,
    with_progress: bool,
    dispatch: Option<StoreDispatcher>,
) -> RequestBuilderView {
    let request = new_client(dispatch).request(HttpMethod::Post, url);
    request.with_config(
        RequestConfigView {
            body: RequestBodyView::FormData(form),
            with_progress,
            ..request.config
        },
    )
}

/// The request that uploads a file, given the form that was made of it, or where
/// making it failed. The store, if there is one, is told how far it has come.
pub fn upload_file_request(
    url: &str,
    form: Result<web_sys::FormData, UploadFailure>,
    with_progress: bool,
    dispatch: Option<StoreDispatcher>,
) -> (request: Result<RequestBuilder, HttpError>)
    ensures
        match form {
            Ok(form) => request matches Ok(built) && built@ == upload_request(
                url@,
                form,
                with_progress,
                dispatch,
            ),
            Err(failure) => request matches Err(error) && error@ == (
            HttpErrorView::Configuration { message: failure.message() }),
        },
{
    match form {
        Ok(form) => {
            let client = match dispatch {
                Some(dispatch) => HttpClient::with_dispatcher(dispatch),
                None => get_http_client(),
            };
            Ok(client.post(url).form_data(form).with_progress(with_progress))
        },
        Err(failure) => {
            let message = match failure {
                UploadFailure::Form => "Failed to create FormData",
                UploadFailure::Blob => "Failed to create blob",
                UploadFailure::Append => "Failed to append file to FormData",
            };
            Err(HttpError::Configuration { message: message.to_string() })
        },
    }
}

/// The bytes of a downloaded file: those of the body as UTF-8.
pub fn downloaded_bytes(outcome: Result<HttpResponse, HttpError>) -> (bytes: Result<
    Vec<u8>,
    HttpError,
>)
    ensures
        match outcome {
            Ok(response) => bytes matches Ok(data) && data@ == vstd::utf8::encode_utf8(
                response@.body,
            ),
            Err(error) => bytes == Err::<Vec<u8>, _>(error),
        },
{
    match outcome {
        Ok(response) => Ok(response.text().as_bytes_vec()),
        Err(error) => Err(error),
    }
}

/// An upload posts the form to the URL, tracks its progress if it is asked to, and
/// tells the store that it is given. All else is as in any request of a client.
pub proof fn law_uploads_post_the_form(
    url: Seq<char>,
    form: web_sys::FormData,
    with_progress: bool,
    dispatch: Option<StoreDispatcher>,
)
    ensures
        ({
            let request = upload_request(url, form, with_progress, dispatch);
            &&& request.config.method is Post
            &&& request.config.url == url
            &&& request.config.body == RequestBodyView::FormData(form)
            &&& request.config.with_progress == with_progress
            &&& request.dispatch == dispatch
            &&& forall|name: Seq<char>| !(#[trigger] request.config.headers.contains_key(name))
            &&& request.config.timeout_ms == Some(30000u32)
            &&& !request.config.with_loader
            &&& !request.config.with_notifications
            &&& request.config.call_name is None
            &&& request.config.retry_count == 3
            &&& request.config.retry_delay_ms == 1000
            &&& !request.config.skip_health_check
        }),
{
}

/// What is said of a failed upload tells which step failed.
pub proof fn law_messages_of_failed_uploads(failure: UploadFailure)
    ensures
        failure.message() == "Failed to create FormData"@ <==> failure is Form,
        failure.message() == "Failed to create blob"@ <==> failure is Blob,
        failure.message() == "Failed to append file to FormData"@ <==> failure is Append,
{
    reveal_strlit("Failed to create FormData");
    reveal_strlit("Failed to create blob");
    reveal_strlit("Failed to append file to FormData");
    assert("Failed to create FormData"@.len() != "Failed to create blob"@.len());
}

} // verus!
