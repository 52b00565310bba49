//! Requests under construction.

use crate::error::{HttpError, HttpErrorView};
use crate::headers::Headers;
use crate::request::{
    default_config, HttpMethod, RequestBody, RequestBodyView, RequestConfig, RequestConfigView,
};
use crate::store::StoreDispatcher;
use crate::text::joined;
use vstd::prelude::*;

verus! {

/// HTTP request builder with fluent API
#[derive(Debug)]
pub struct RequestBuilder {
    config: RequestConfig,
    dispatch: Option<StoreDispatcher>,
}

/// A [`RequestBuilder`] by the view of its configuration.
pub struct RequestBuilderView {
    pub config: RequestConfigView,
    pub dispatch: Option<StoreDispatcher>,
}

impl View for RequestBuilder {
    type V = RequestBuilderView;

    closed spec fn view(&self) -> RequestBuilderView {
        RequestBuilderView { config: self.config@, dispatch: self.dispatch }
    }
}

impl RequestBuilderView {
    /// The same request with another configuration.
    pub open spec fn with_config(self, config: RequestConfigView) -> RequestBuilderView {
        RequestBuilderView { config, ..self }
    }
}

/// The request by `method` to `url` that nothing else has been said of.
pub open spec fn new_request(method: HttpMethod, url: Seq<char>) -> RequestBuilderView {
    RequestBuilderView {
        config: RequestConfigView { method, url, ..default_config() },
        dispatch: None,
    }
}

/// `builder` with `json` as its body.
pub open spec fn with_json(builder: RequestBuilderView, json: Seq<char>) -> RequestBuilderView {
    builder.with_config(
        RequestConfigView {
            headers: builder.config.headers.insert("Content-Type"@, "application/json"@),
            body: RequestBodyView::Json(json),
            ..builder.config
        },
    )
}

/// The error of a value that could not be written as JSON.
pub open spec fn json_write_error(detail: Seq<char>) -> HttpErrorView {
    HttpErrorView::Serialization { message: "Failed to serialize JSON: "@ + detail }
}

impl RequestBuilder {
    /// A request by `method` to `url`, with the default configuration.
    pub fn new(method: HttpMethod, url: &str) -> (builder: Self)
        ensures
            builder@ == new_request(method, url@),
    {
        let mut config = RequestConfig::default();
        config.method = method;
        config.url = url.to_string();
        RequestBuilder { config, dispatch: None }
    }

    /// The configuration of the request.
    pub fn config(&self) -> (config: &RequestConfig)
        ensures
            config@ == self@.config,
    {
        &self.config
    }

    /// The store that is told about the request.
    pub fn dispatcher(&self) -> (dispatch: Option<StoreDispatcher>)
        ensures
            dispatch == self@.dispatch,
    {
        self.dispatch
    }

    /// Set dispatcher for state management
    pub fn with_dispatcher(self, dispatch: StoreDispatcher) -> (builder: Self)
        ensures
            builder@ == (RequestBuilderView { dispatch: Some(dispatch), ..self@ }),
    {
        let mut built = self;
        built.dispatch = Some(dispatch);
        built
    }

    /// Add a header to the request
    pub fn header(self, name: &str, value: &str) -> (builder: Self)
        ensures
            builder@ == self@.with_config(
                RequestConfigView {
                    headers: self@.config.headers.insert(name@, value@),
                    ..self@.config
                },
            ),
    {
        let mut built = self;
        built.config.headers.insert(name.to_string(), value.to_string());
        built
    }

    /// Add multiple headers
    pub fn headers(self, headers: Headers) -> (builder: Self)
        ensures
            builder@ == self@.with_config(
                RequestConfigView {
                    headers: self@.config.headers.union_prefer_right(headers@),
                    ..self@.config
                },
            ),
    {
        let mut built = self;
        built.config.headers.extend(&headers);
        built
    }

    /// Set Content-Type header to application/json and the body to `written`,
    /// what a JSON writer made of a value. Where the writer failed, `written` is
    /// the text of its error.
    pub fn json(self, written: Result<String, String>) -> (builder: Result<Self, HttpError>)
        ensures
            match written {
                Ok(json) => builder matches Ok(built) && built@ == with_json(self@, json@),
                Err(detail) => builder matches Err(error) && error@ == json_write_error(detail@),
            },
    {
        let mut built = self;
        match written {
            Ok(json) => {
                built.config.headers.insert(
                    "Content-Type".to_string(),
                    "application/json".to_string(),
                );
                built.config.body = RequestBody::Json(json);
                Ok(built)
            },
            Err(detail) => Err(
                HttpError::Serialization {
                    message: joined("Failed to serialize JSON: ", detail.as_str()),
                },
            ),
        }
    }

    /// Set body as form data
    pub fn form_data(self, form: web_sys::FormData) -> (builder: Self)
        ensures
            builder@ == self@.with_config(
                RequestConfigView { body: RequestBodyView::FormData(form), ..self@.config },
            ),
    {
        let mut built = self;
        built.config.body = RequestBody::FormData(form);
        built
    }

    /// Set body as plain text
    pub fn text(self, text: &str) -> (builder: Self)
        ensures
            builder@ == self@.with_config(
                RequestConfigView { body: RequestBodyView::Text(text@), ..self@.config },
            ),
    {
        let mut built = self;
        built.config.body = RequestBody::Text(text.to_string());
        built
    }

    /// Set body as binary data
    pub fn binary(self, data: Vec<u8>) -> (builder: Self)
        ensures
            builder@ == self@.with_config(
                RequestConfigView { body: RequestBodyView::Binary(data@), ..self@.config },
            ),
    {
        let mut built = self;
        built.config.body = RequestBody::Binary(data);
        built
    }

    /// Enable automatic loader state management
    pub fn with_loader(self, enabled: bool) -> (builder: Self)
        ensures
            builder@ == self@.with_config(
                RequestConfigView { with_loader: enabled, ..self@.config },
            ),
    {
        let mut built = self;
        built.config.with_loader = enabled;
        built
    }

    /// Enable progress tracking
    pub fn with_progress(self, enabled: bool) -> (builder: Self)
        ensures
            builder@ == self@.with_config(
                RequestConfigView { with_progress: enabled, ..self@.config },
            ),
    {
        let mut built = self;
        built.config.with_progress = enabled;
        built
    }

    /// Enable automatic notifications on success/error
    pub fn with_notifications(self, enabled: bool) -> (builder: Self)
        ensures
            builder@ == self@.with_config(
                RequestConfigView { with_notifications: enabled, ..self@.config },
            ),
    {
        let mut built = self;
        built.config.with_notifications = enabled;
        built
    }

    /// Set a call name for tracking purposes
    pub fn call_name(self, name: &str) -> (builder: Self)
        ensures
            builder@ == self@.with_config(
                RequestConfigView { call_name: Some(name@), ..self@.config },
            ),
    {
        let mut built = self;
        built.config.call_name = Some(name.to_string());
        built
    }

    /// Set request timeout in milliseconds
    pub fn timeout(self, ms: u32) -> (builder: Self)
        ensures
            builder@ == self@.with_config(
                RequestConfigView { timeout_ms: Some(ms), ..self@.config },
            ),
    {
        let mut built = self;
        built.config.timeout_ms = Some(ms);
        built
    }

    /// Disable timeout
    pub fn no_timeout(self) -> (builder: Self)
        ensures
            builder@ == self@.with_config(RequestConfigView { timeout_ms: None, ..self@.config }),
    {
        let mut built = self;
        built.config.timeout_ms = None;
        built
    }

    /// Set retry configuration
    pub fn retry(self, count: u32, delay_ms: u32) -> (builder: Self)
        ensures
            builder@ == self@.with_config(
                RequestConfigView {
                    retry_count: count,
                    retry_delay_ms: delay_ms,
                    ..self@.config
                },
            ),
    {
        let mut built = self;
        built.config.retry_count = count;
        built.config.retry_delay_ms = delay_ms;
        built
    }

    /// Skip triggering health checks on failure (used internally by health check requests)
    pub fn skip_health_check(self) -> (builder: Self)
        ensures
            builder@ == self@.with_config(
                RequestConfigView { skip_health_check: true, ..self@.config },
            ),
    {
        let mut built = self;
        built.config.skip_health_check = true;
        built
    }
}

/// A new request has the method and the URL that it is made with. It has no
/// headers, no body, no name and no store, says nothing, has thirty seconds, and
/// is tried again three times, the first time after a second.
pub proof fn law_new_requests(method: HttpMethod, url: Seq<char>)
    ensures
        ({
            let request = new_request(method, url);
            &&& request.config.method == method
            &&& request.config.url == url
            &&& forall|name: Seq<char>| !(#[trigger] request.config.headers.contains_key(name))
            &&& request.config.body is Empty
            &&& request.config.timeout_ms == Some(30000u32)
            &&& !request.config.with_loader
            &&& !request.config.with_progress
            &&& !request.config.with_notifications
            &&& request.config.call_name is None
            &&& request.config.retry_count == 3
            &&& request.config.retry_delay_ms == 1000
            &&& !request.config.skip_health_check
            &&& request.dispatch is None
        }),
{
}

/// Another configuration leaves the store as it is.
pub proof fn law_configuring_keeps_the_store(
    builder: RequestBuilderView,
    config: RequestConfigView,
)
    ensures
        builder.with_config(config).config == config,
        builder.with_config(config).dispatch == builder.dispatch,
{
}

/// A JSON body changes the body and one header of a request and nothing else.
pub proof fn law_json_keeps_the_rest(builder: RequestBuilderView, json: Seq<char>)
    ensures
        ({
            let built = with_json(builder, json);
            &&& built.config.method == builder.config.method
            &&& built.config.url == builder.config.url
            &&& built.config.timeout_ms == builder.config.timeout_ms
            &&& built.config.with_loader == builder.config.with_loader
            &&& built.config.with_progress == builder.config.with_progress
            &&& built.config.with_notifications == builder.config.with_notifications
            &&& built.config.call_name == builder.config.call_name
            &&& built.config.retry_count == builder.config.retry_count
            &&& built.config.retry_delay_ms == builder.config.retry_delay_ms
            &&& built.config.skip_health_check == builder.config.skip_health_check
            &&& built.dispatch == builder.dispatch
        }),
{
}

/// A value that cannot be written as JSON is an error of serialization, which
/// ends with the writer's own words.
pub proof fn law_json_write_errors(detail: Seq<char>)
    ensures
        json_write_error(detail) matches HttpErrorView::Serialization { message }
            && "Failed to serialize JSON: "@.is_prefix_of(message) && detail.is_suffix_of(message)
            && message.len() == "Failed to serialize JSON: "@.len() + detail.len(),
{
}

/// A request with a JSON body says so in its headers, whatever they said before,
/// and keeps all its other headers.
pub proof fn law_json_sets_the_content_type(
    builder: RequestBuilderView,
    json: Seq<char>,
    name: Seq<char>,
)
    ensures
        with_json(builder, json).config.headers["Content-Type"@] == "application/json"@,
        with_json(builder, json).config.body == RequestBodyView::Json(json),
        name != "Content-Type"@ ==> (with_json(builder, json).config.headers.contains_key(name)
            <==> builder.config.headers.contains_key(name)),
        name != "Content-Type"@ && builder.config.headers.contains_key(name) ==> with_json(
            builder,
            json,
        ).config.headers[name] == builder.config.headers[name],
{
}

impl Clone for RequestBuilder {
    fn clone(&self) -> (copy: Self)
        ensures
            copy@ == self@,
    {
        RequestBuilder { config: self.config.clone(), dispatch: self.dispatch }
    }
}

} // verus!
