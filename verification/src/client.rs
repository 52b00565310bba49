//! Clients: what a series of requests has in common.

use crate::builder::{RequestBuilder, RequestBuilderView};
use crate::headers::Headers;
use crate::request::{default_config, HttpMethod, RequestConfigView};
use crate::store::StoreDispatcher;
use crate::text::{
    copy_text, joined, starts_with, text_view, trim_end, trim_start, without_leading,
    without_trailing,
};
use vstd::prelude::*;
use vstd::string::*;

verus! {

/// How the application was built.
#[derive(Debug, Clone, Copy, PartialEq, Eq, Structural)]
pub enum BuildProfile {
    Debug,
    Release,
}

/// Main HTTP client with fluent API
#[derive(Debug)]
pub struct HttpClient {
    base_url: Option<String>,
    default_headers: Headers,
    default_timeout_ms: Option<u32>,
    dispatch: Option<StoreDispatcher>,
}

/// An [`HttpClient`] with its texts as sequences of characters.
pub struct HttpClientView {
    pub base_url: Option<Seq<char>>,
    pub default_headers: Map<Seq<char>, Seq<char>>,
    pub default_timeout_ms: Option<u32>,
    pub dispatch: Option<StoreDispatcher>,
}

impl View for HttpClient {
    type V = HttpClientView;

    closed spec fn view(&self) -> HttpClientView {
        HttpClientView {
            base_url: text_view(self.base_url),
            default_headers: self.default_headers@,
            default_timeout_ms: self.default_timeout_ms,
            dispatch: self.dispatch,
        }
    }
}

/// The client that nothing has been said of.
pub open spec fn new_client(dispatch: Option<StoreDispatcher>) -> HttpClientView {
    HttpClientView {
        base_url: None,
        default_headers: Map::empty(),
        default_timeout_ms: Some(30000),
        dispatch,
    }
}

/// `path` is a URL of its own.
pub open spec fn is_absolute(path: Seq<char>) -> bool {
    "http://"@.is_prefix_of(path) || "https://"@.is_prefix_of(path)
}

/// The URL of `path` for a base URL: an absolute path as it is, any other one
/// behind the base, with one slash between them.
pub open spec fn url_of(base_url: Option<Seq<char>>, path: Seq<char>) -> Seq<char> {
    match base_url {
        Some(base) => if is_absolute(path) {
            path
        } else {
            without_trailing(base, '/') + "/"@ + without_leading(path, '/')
        },
        None => path,
    }
}

impl HttpClientView {
    /// The request by `method` to `path` with the defaults of the client.
    pub open spec fn request(self, method: HttpMethod, path: Seq<char>) -> RequestBuilderView {
        RequestBuilderView {
            config: RequestConfigView {
                method,
                url: url_of(self.base_url, path),
                headers: self.default_headers,
                timeout_ms: if self.default_timeout_ms is Some {
                    self.default_timeout_ms
                } else {
                    default_config().timeout_ms
                },
                ..default_config()
            },
            dispatch: self.dispatch,
        }
    }

    /// The GET request to `url`. A released application tries it again twice, any
    /// other one as often as any request.
    pub open spec fn get_request(self, url: Seq<char>, profile: BuildProfile) -> RequestBuilderView {
        let request = self.request(HttpMethod::Get, url);
        match profile {
            BuildProfile::Debug => request,
            BuildProfile::Release => request.with_config(
                RequestConfigView { retry_count: 2, retry_delay_ms: 1000, ..request.config },
            ),
        }
    }
}

impl HttpClient {
    /// Create a new HTTP client
    pub fn new() -> (client: Self)
        ensures
            client@ == new_client(None),
    {
        HttpClient {
            base_url: None,
            default_headers: Headers::new(),
            default_timeout_ms: Some(30000),
            dispatch: None,
        }
    }

    /// Create HTTP client with dispatcher for automatic state management
    pub fn with_dispatcher(dispatch: StoreDispatcher) -> (client: Self)
        ensures
            client@ == new_client(Some(dispatch)),
    {
        HttpClient {
            base_url: None,
            default_headers: Headers::new(),
            default_timeout_ms: Some(30000),
            dispatch: Some(dispatch),
        }
    }

    /// Set base URL for all requests
    pub fn base_url(self, url: &str) -> (client: Self)
        ensures
            client@ == (HttpClientView { base_url: Some(url@), ..self@ }),
    {
        let mut client = self;
        client.base_url = Some(url.to_string());
        client
    }

    /// Add default header for all requests
    pub fn default_header(self, name: &str, value: &str) -> (client: Self)
        ensures
            client@ == (HttpClientView {
                default_headers: self@.default_headers.insert(name@, value@),
                ..self@
            }),
    {
        let mut client = self;
        client.default_headers.insert(name.to_string(), value.to_string());
        client
    }

    /// Set default timeout for all requests
    pub fn default_timeout(self, ms: u32) -> (client: Self)
        ensures
            client@ == (HttpClientView { default_timeout_ms: Some(ms), ..self@ }),
    {
        let mut client = self;
        client.default_timeout_ms = Some(ms);
        client
    }

    /// Build URL with optional base URL
    pub fn build_url(&self, path: &str) -> (url: String)
        ensures
            url@ == url_of(self@.base_url, path@),
    {
        match &self.base_url {
            Some(base) => {
                if starts_with(path, "http://") || starts_with(path, "https://") {
                    path.to_string()
                } else {
                    let mut url = joined(trim_end(base.as_str(), '/'), "/");
                    url.append(trim_start(path, '/'));
                    url
                }
            },
            None => path.to_string(),
        }
    }

    /// Create request builder with defaults applied
    fn create_builder(&self, method: HttpMethod, path: &str) -> (builder: RequestBuilder)
        ensures
            builder@ == self@.request(method, path@),
    {
        let url = self.build_url(path);
        let mut builder = RequestBuilder::new(method, url.as_str());
        builder = builder.headers(self.default_headers.clone());
        assert(builder@.config.headers =~= self@.default_headers);
        if let Some(timeout) = self.default_timeout_ms {
            builder = builder.timeout(timeout);
        }
        if let Some(dispatch) = self.dispatch {
            builder = builder.with_dispatcher(dispatch);
        }
        builder
    }

    /// Create GET request
    pub fn get(&self, url: &str, profile: BuildProfile) -> (builder: RequestBuilder)
        ensures
            builder@ == self@.get_request(url@, profile),
            builder@.config.method is Get,
            builder@.config.url == url_of(self@.base_url, url@),
            builder@.config.headers == self@.default_headers,
            builder@.dispatch == self@.dispatch,
    {
        let builder = self.create_builder(HttpMethod::Get, url);
        match profile {
            BuildProfile::Debug => builder,
            BuildProfile::Release => builder.retry(2, 1000),
        }
    }

    /// Create POST request
    pub fn post(&self, path: &str) -> (builder: RequestBuilder)
        ensures
            builder@ == self@.request(HttpMethod::Post, path@),
    {
        self.create_builder(HttpMethod::Post, path)
    }

    /// Create PUT request
    pub fn put(&self, path: &str) -> (builder: RequestBuilder)
        ensures
            builder@ == self@.request(HttpMethod::Put, path@),
    {
        self.create_builder(HttpMethod::Put, path)
    }

    /// Create DELETE request
    pub fn delete(&self, path: &str) -> (builder: RequestBuilder)
        ensures
            builder@ == self@.request(HttpMethod::Delete, path@),
    {
        self.create_builder(HttpMethod::Delete, path)
    }

    /// Create PATCH request
    pub fn patch(&self, path: &str) -> (builder: RequestBuilder)
        ensures
            builder@ == self@.request(HttpMethod::Patch, path@),
    {
        self.create_builder(HttpMethod::Patch, path)
    }

    /// Create HEAD request
    pub fn head(&self, path: &str) -> (builder: RequestBuilder)
        ensures
            builder@ == self@.request(HttpMethod::Head, path@),
    {
        self.create_builder(HttpMethod::Head, path)
    }

    /// Create OPTIONS request
    pub fn options(&self, path: &str) -> (builder: RequestBuilder)
        ensures
            builder@ == self@.request(HttpMethod::Options, path@),
    {
        self.create_builder(HttpMethod::Options, path)
    }
}

impl Default for HttpClient {
    fn default() -> (client: Self)
        ensures
            client@ == new_client(None),
    {
        Self::new()
    }
}

impl Clone for HttpClient {
    fn clone(&self) -> (copy: Self)
        ensures
            copy@ == self@,
    {
        HttpClient {
            base_url: copy_text(&self.base_url),
            default_headers: self.default_headers.clone(),
            default_timeout_ms: self.default_timeout_ms,
            dispatch: self.dispatch,
        }
    }
}

/// Get a global HTTP client instance
pub fn get_http_client() -> (client: HttpClient)
    ensures
        client@ == new_client(None),
{
    HttpClient::new()
}

/// What is left of a text without a leading run does not start with it and is
/// the end of the text.
proof fn lemma_without_leading(text: Seq<char>, c: char)
    ensures
        without_leading(text, c).is_suffix_of(text),
        without_leading(text, c).len() > 0 ==> without_leading(text, c).first() != c,
    decreases text.len(),
{
    if text.len() > 0 && text.first() == c {
        lemma_without_leading(text.drop_first(), c);
        let rest = without_leading(text, c);
        assert(rest =~= text.subrange(text.len() - rest.len(), text.len() as int)) by {
            let tail = text.drop_first();
            assert(rest =~= tail.subrange(tail.len() - rest.len(), tail.len() as int));
        }
    }
}

/// What is left of a text without a trailing run does not end with it and is the
/// start of the text.
proof fn lemma_without_trailing(text: Seq<char>, c: char)
    ensures
        without_trailing(text, c).is_prefix_of(text),
        without_trailing(text, c).len() > 0 ==> without_trailing(text, c).last() != c,
    decreases text.len(),
{
    if text.len() > 0 && text.last() == c {
        lemma_without_trailing(text.drop_last(), c);
        let rest = without_trailing(text, c);
        assert(rest =~= text.subrange(0, rest.len() as int)) by {
            let head = text.drop_last();
            assert(rest =~= head.subrange(0, rest.len() as int));
        }
    }
}

/// A path that is not absolute is joined to a base URL with exactly one slash:
/// what stands before it is the base without the slashes at its end, what stands
/// behind it is the path without the slashes at its start.
pub proof fn law_one_slash_at_the_seam(base: Seq<char>, path: Seq<char>)
    requires
        !is_absolute(path),
    ensures
        url_of(Some(base), path) == without_trailing(base, '/').push('/') + without_leading(
            path,
            '/',
        ),
        without_trailing(base, '/').is_prefix_of(base),
        without_leading(path, '/').is_suffix_of(path),
        without_trailing(base, '/').len() > 0 ==> without_trailing(base, '/').last() != '/',
        without_leading(path, '/').len() > 0 ==> without_leading(path, '/').first() != '/',
{
    reveal_strlit("/");
    lemma_without_trailing(base, '/');
    lemma_without_leading(path, '/');
    assert(without_trailing(base, '/') + "/"@ =~= without_trailing(base, '/').push('/'));
}

/// A slash at the end of the base URL, or at the start of a path that is not
/// absolute, makes no difference.
pub proof fn law_slashes_at_the_seam_do_not_matter(base: Seq<char>, path: Seq<char>)
    requires
        !is_absolute(path),
    ensures
        url_of(Some(base.push('/')), path) == url_of(Some(base), path),
        url_of(Some(base), seq!['/'] + path) == url_of(Some(base), path),
{
    reveal_strlit("http://");
    reveal_strlit("https://");
    let slashed = seq!['/'] + path;
    assert(base.push('/').drop_last() =~= base);
    assert(slashed.drop_first() =~= path);
    assert(slashed[0] == '/');
    assert(!is_absolute(slashed)) by {
        if "http://"@.is_prefix_of(slashed) {
            assert(slashed[0] == "http://"@[0]);
        }
        if "https://"@.is_prefix_of(slashed) {
            assert(slashed[0] == "https://"@[0]);
        }
    }
}

/// A URL that the client has built is absolute where the base URL without the
/// slashes at its end is, and it stays the same when it is built again.
pub proof fn law_built_urls_stay(base: Seq<char>, path: Seq<char>)
    requires
        is_absolute(without_trailing(base, '/')),
    ensures
        is_absolute(url_of(Some(base), path)),
        url_of(Some(base), url_of(Some(base), path)) == url_of(Some(base), path),
{
    let stem = without_trailing(base, '/');
    let rest = "/"@ + without_leading(path, '/');
    assert(stem + "/"@ + without_leading(path, '/') =~= stem + rest);
    if "http://"@.is_prefix_of(stem) {
        assert("http://"@ =~= (stem + rest).subrange(0, "http://"@.len() as int)) by {
            assert("http://"@ =~= stem.subrange(0, "http://"@.len() as int));
        }
    }
    if "https://"@.is_prefix_of(stem) {
        assert("https://"@ =~= (stem + rest).subrange(0, "https://"@.len() as int)) by {
            assert("https://"@ =~= stem.subrange(0, "https://"@.len() as int));
        }
    }
}

/// A new client has no base URL and no headers, gives its requests thirty seconds,
/// and has the store that it is made with.
pub proof fn law_new_clients(dispatch: Option<StoreDispatcher>)
    ensures
        new_client(dispatch).base_url is None,
        forall|name: Seq<char>| !(#[trigger] new_client(dispatch).default_headers.contains_key(name)),
        new_client(dispatch).default_timeout_ms == Some(30000u32),
        new_client(dispatch).dispatch == dispatch,
{
}

/// The absolute paths are those that name the protocol in front.
pub proof fn law_absolute_paths(path: Seq<char>)
    ensures
        is_absolute(path) <==> exists|rest: Seq<char>|
            path == #[trigger] ("http://"@ + rest) || path == "https://"@ + rest,
{
    if "http://"@.is_prefix_of(path) {
        assert(path =~= "http://"@ + path.skip("http://"@.len() as int));
    }
    if "https://"@.is_prefix_of(path) {
        let rest = path.skip("https://"@.len() as int);
        assert(path =~= "https://"@ + rest);
        assert(("http://"@ + rest).len() >= 0);
    }
    if exists|rest: Seq<char>|
        path == #[trigger] ("http://"@ + rest) || path == "https://"@ + rest {
        let rest = choose|rest: Seq<char>|
            path == #[trigger] ("http://"@ + rest) || path == "https://"@ + rest;
        if path == "http://"@ + rest {
            assert("http://"@ =~= path.subrange(0, "http://"@.len() as int));
        } else {
            assert("https://"@ =~= path.subrange(0, "https://"@.len() as int));
        }
    }
}

/// Without a base URL every path goes out as it is.
pub proof fn law_paths_stay_without_a_base(path: Seq<char>)
    ensures
        url_of(None, path) == path,
{
}

/// A request has the method that it is made by, the URL of its path, and the
/// client's headers, time limit and store. All else is as in a new request.
pub proof fn law_requests_of_a_client(client: HttpClientView, method: HttpMethod, path: Seq<char>)
    ensures
        ({
            let request = client.request(method, path);
            let new = crate::builder::new_request(method, url_of(client.base_url, path));
            &&& request.config.method == method
            &&& request.config.url == url_of(client.base_url, path)
            &&& request.config.headers == client.default_headers
            &&& client.default_timeout_ms is Some ==> request.config.timeout_ms
                == client.default_timeout_ms
            &&& client.default_timeout_ms is None ==> request.config.timeout_ms == Some(30000u32)
            &&& request.dispatch == client.dispatch
            &&& request.config.body == new.config.body
            &&& request.config.with_loader == new.config.with_loader
            &&& request.config.with_progress == new.config.with_progress
            &&& request.config.with_notifications == new.config.with_notifications
            &&& request.config.call_name == new.config.call_name
            &&& request.config.retry_count == new.config.retry_count
            &&& request.config.retry_delay_ms == new.config.retry_delay_ms
            &&& request.config.skip_health_check == new.config.skip_health_check
        }),
{
}

/// A GET request has the client's defaults, however the application was built. The
/// build matters for the retries only: a released application makes two, any other
/// one three, the first after a second.
pub proof fn law_get_requests_have_the_defaults(
    client: HttpClientView,
    url: Seq<char>,
    profile: BuildProfile,
)
    ensures
        ({
            let request = client.get_request(url, profile);
            let other = client.get_request(
                url,
                match profile {
                    BuildProfile::Debug => BuildProfile::Release,
                    BuildProfile::Release => BuildProfile::Debug,
                },
            );
            &&& request.config.method is Get
            &&& request.config.url == url_of(client.base_url, url)
            &&& request.config.headers == client.default_headers
            &&& client.default_timeout_ms is Some ==> request.config.timeout_ms
                == client.default_timeout_ms
            &&& client.default_timeout_ms is None ==> request.config.timeout_ms == Some(30000u32)
            &&& request.dispatch == client.dispatch
            &&& request.config.body is Empty
            &&& !request.config.with_loader
            &&& !request.config.with_progress
            &&& !request.config.with_notifications
            &&& request.config.call_name is None
            &&& !request.config.skip_health_check
            &&& request.config.retry_delay_ms == 1000
            &&& profile is Release ==> request.config.retry_count == 2
            &&& profile is Debug ==> request.config.retry_count == 3
            &&& other.dispatch == request.dispatch
            &&& other.config == (RequestConfigView {
                retry_count: other.config.retry_count,
                retry_delay_ms: other.config.retry_delay_ms,
                ..request.config
            })
        }),
{
}

/// Every request of a client has a time limit, and it has the headers of the
/// client until a header of its own takes their place.
pub proof fn law_requests_have_the_defaults(
    client: HttpClientView,
    method: HttpMethod,
    path: Seq<char>,
    name: Seq<char>,
    value: Seq<char>,
)
    ensures
        client.request(method, path).config.timeout_ms is Some,
        client.request(method, path).config.headers == client.default_headers,
        client.request(method, path).dispatch == client.dispatch,
        ({
            let own = client.request(method, path).config.headers.insert(name, value);
            own[name] == value && forall|other: Seq<char>|
                other != name && #[trigger] client.default_headers.contains_key(other)
                    ==> own[other] == client.default_headers[other]
        }),
{
}

/// An absolute path goes out as it is, whatever the base URL.
pub proof fn law_absolute_paths_stay(base_url: Option<Seq<char>>, path: Seq<char>)
    requires
        is_absolute(path),
    ensures
        url_of(base_url, path) == path,
{
}

} // verus!
