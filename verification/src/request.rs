//! What a request consists of.

use crate::headers::Headers;
use crate::text::{copy_text, text_view};
use vstd::prelude::*;

verus! {

/// The browser's `FormData`, from the crate `web_sys`. A form is only carried
/// along: nothing here looks into it.
#[verifier::external_type_specification]
#[verifier::external_body]
pub struct ExFormData(web_sys::FormData);

/// `clone` of `web_sys::FormData`, which gives a second handle of the same object
/// of the browser. A handle stands for its object, so the two are equal.
pub assume_specification[ <web_sys::FormData as Clone>::clone ](
    form: &web_sys::FormData,
) -> (copy: web_sys::FormData)
    ensures
        copy == *form,
;

/// HTTP method enumeration
#[derive(Debug, Clone, Copy, PartialEq, Eq, Structural)]
pub enum HttpMethod {
    Get,
    Post,
    Put,
    Delete,
    Patch,
    Head,
    Options,
}

impl HttpMethod {
    /// The name of the method as it goes over the wire.
    pub open spec fn name(self) -> Seq<char> {
        match self {
            HttpMethod::Get => "GET"@,
            HttpMethod::Post => "POST"@,
            HttpMethod::Put => "PUT"@,
            HttpMethod::Delete => "DELETE"@,
            HttpMethod::Patch => "PATCH"@,
            HttpMethod::Head => "HEAD"@,
            HttpMethod::Options => "OPTIONS"@,
        }
    }

    /// The name of the method as it goes over the wire.
    pub fn as_str(&self) -> (name: &'static str)
        ensures
            name@ == self.name(),
    {
        match self {
            HttpMethod::Get => "GET",
            HttpMethod::Post => "POST",
            HttpMethod::Put => "PUT",
            HttpMethod::Delete => "DELETE",
            HttpMethod::Patch => "PATCH",
            HttpMethod::Head => "HEAD",
            HttpMethod::Options => "OPTIONS",
        }
    }
}

/// Different methods have different names.
pub proof fn law_method_names_differ(a: HttpMethod, b: HttpMethod)
    ensures
        a.name() == b.name() <==> a == b,
{
    reveal_strlit("GET");
    reveal_strlit("POST");
    reveal_strlit("PUT");
    reveal_strlit("DELETE");
    reveal_strlit("PATCH");
    reveal_strlit("HEAD");
    reveal_strlit("OPTIONS");
    if a != b {
        assert(a.name().len() != b.name().len() || a.name()[0] != b.name()[0] || a.name()[1]
            != b.name()[1]);
    }
}

/// Request body types
#[derive(Debug)]
pub enum RequestBody {
    Empty,
    Text(String),
    Json(String),
    FormData(web_sys::FormData),
    Binary(Vec<u8>),
}

/// A [`RequestBody`] with its contents as sequences.
pub enum RequestBodyView {
    Empty,
    Text(Seq<char>),
    Json(Seq<char>),
    FormData(web_sys::FormData),
    Binary(Seq<u8>),
}

impl View for RequestBody {
    type V = RequestBodyView;

    open spec fn view(&self) -> RequestBodyView {
        match *self {
            RequestBody::Empty => RequestBodyView::Empty,
            RequestBody::Text(text) => RequestBodyView::Text(text@),
            RequestBody::Json(json) => RequestBodyView::Json(json@),
            RequestBody::FormData(form) => RequestBodyView::FormData(form),
            RequestBody::Binary(data) => RequestBodyView::Binary(data@),
        }
    }
}

impl Clone for RequestBody {
    fn clone(&self) -> (copy: Self)
        ensures
            copy@ == self@,
    {
        match self {
            RequestBody::Empty => RequestBody::Empty,
            RequestBody::Text(text) => RequestBody::Text(text.clone()),
            RequestBody::Json(json) => RequestBody::Json(json.clone()),
            RequestBody::FormData(form) => RequestBody::FormData(form.clone()),
            RequestBody::Binary(data) => {
                let copy = data.clone();
                assert(copy@ =~= data@);
                RequestBody::Binary(copy)
            },
        }
    }
}

/// Request configuration
#[derive(Debug)]
pub struct RequestConfig {
    pub method: HttpMethod,
    pub url: String,
    pub headers: Headers,
    pub body: RequestBody,
    pub timeout_ms: Option<u32>,
    pub with_loader: bool,
    pub with_progress: bool,
    pub with_notifications: bool,
    pub call_name: Option<String>,
    pub retry_count: u32,
    pub retry_delay_ms: u32,
    /// When true, skips triggering health checks on failure (used by health check requests
    /// themselves)
    pub skip_health_check: bool,
}

/// A [`RequestConfig`] with its texts as sequences of characters.
pub struct RequestConfigView {
    pub method: HttpMethod,
    pub url: Seq<char>,
    pub headers: Map<Seq<char>, Seq<char>>,
    pub body: RequestBodyView,
    pub timeout_ms: Option<u32>,
    pub with_loader: bool,
    pub with_progress: bool,
    pub with_notifications: bool,
    pub call_name: Option<Seq<char>>,
    pub retry_count: u32,
    pub retry_delay_ms: u32,
    pub skip_health_check: bool,
}

impl View for RequestConfig {
    type V = RequestConfigView;

    open spec fn view(&self) -> RequestConfigView {
        RequestConfigView {
            method: self.method,
            url: self.url@,
            headers: self.headers@,
            body: self.body@,
            timeout_ms: self.timeout_ms,
            with_loader: self.with_loader,
            with_progress: self.with_progress,
            with_notifications: self.with_notifications,
            call_name: text_view(self.call_name),
            retry_count: self.retry_count,
            retry_delay_ms: self.retry_delay_ms,
            skip_health_check: self.skip_health_check,
        }
    }
}

/// The configuration that a request starts from: it is silent, is given thirty
/// seconds, and is tried again three times.
pub open spec fn default_config() -> RequestConfigView {
    RequestConfigView {
        method: HttpMethod::Get,
        url: Seq::empty(),
        headers: Map::empty(),
        body: RequestBodyView::Empty,
        timeout_ms: Some(30000),
        with_loader: false,
        with_progress: false,
        with_notifications: false,
        call_name: None,
        retry_count: 3,
        retry_delay_ms: 1000,
        skip_health_check: false,
    }
}

impl Default for RequestConfig {
    fn default() -> (config: Self)
        ensures
            config@ == default_config(),
    {
        RequestConfig {
            method: HttpMethod::Get,
            url: String::new(),
            headers: Headers::new(),
            body: RequestBody::Empty,
            timeout_ms: Some(30000),
            with_loader: false,
            with_progress: false,
            with_notifications: false,
            call_name: None,
            retry_count: 3,
            retry_delay_ms: 1000,
            skip_health_check: false,
        }
    }
}

impl Clone for RequestConfig {
    fn clone(&self) -> (copy: Self)
        ensures
            copy@ == self@,
    {
        RequestConfig {
            method: self.method,
            url: self.url.clone(),
            headers: self.headers.clone(),
            body: self.body.clone(),
            timeout_ms: self.timeout_ms,
            with_loader: self.with_loader,
            with_progress: self.with_progress,
            with_notifications: self.with_notifications,
            call_name: copy_text(&self.call_name),
            retry_count: self.retry_count,
            retry_delay_ms: self.retry_delay_ms,
            skip_health_check: self.skip_health_check,
        }
    }
}

/// Each method goes by the name that the protocol gives it, and no other method
/// does.
pub proof fn law_names_of_methods(method: HttpMethod)
    ensures
        method.name() == "GET"@ <==> method is Get,
        method.name() == "POST"@ <==> method is Post,
        method.name() == "PUT"@ <==> method is Put,
        method.name() == "DELETE"@ <==> method is Delete,
        method.name() == "PATCH"@ <==> method is Patch,
        method.name() == "HEAD"@ <==> method is Head,
        method.name() == "OPTIONS"@ <==> method is Options,
{
    law_method_names_differ(method, HttpMethod::Get);
    law_method_names_differ(method, HttpMethod::Post);
    law_method_names_differ(method, HttpMethod::Put);
    law_method_names_differ(method, HttpMethod::Delete);
    law_method_names_differ(method, HttpMethod::Patch);
    law_method_names_differ(method, HttpMethod::Head);
    law_method_names_differ(method, HttpMethod::Options);
}

/// Before anything is said of a request, it is a GET request to nowhere without
/// headers, body and name. It says nothing, has thirty seconds, and is tried again
/// three times, the first time after a second.
pub proof fn law_default_configuration()
    ensures
        default_config().method is Get,
        default_config().url.len() == 0,
        forall|name: Seq<char>| !(#[trigger] default_config().headers.contains_key(name)),
        default_config().body is Empty,
        default_config().timeout_ms == Some(30000u32),
        !default_config().with_loader,
        !default_config().with_progress,
        !default_config().with_notifications,
        default_config().call_name is None,
        default_config().retry_count == 3,
        default_config().retry_delay_ms == 1000,
        !default_config().skip_health_check,
{
}

} // verus!
