//! The Local API client's configuration, the requests it builds, and the
//! decisions it takes on responses: where a request goes, which headers it
//! carries, when a failed attempt is retried, and how a status is read.
//!
//! Sending is left to the transport; each decision here is a function of
//! plain values.
use vstd::prelude::*;
use crate::errors::ZoteroApiError;
use crate::json::JsonValue;
use crate::objects::LocalApiStatus;
use crate::keys::LibraryVersion;
use crate::status::{status_line, status_line_spec};
use crate::text::{
    chars_of, contains, contains_exec, decimal, parse_unsigned, parse_unsigned_exec, push_decimal,
    push_str, starts_with, starts_with_exec, string_of,
};

verus! {

/// The base URL used when none is given.
pub open spec fn default_base_url() -> Seq<char> {
    "http://127.0.0.1:23119/api"@
}

/// A library of the Local API: the local user's or a group's.
#[derive(Copy, Clone, Debug, Eq, PartialEq, Hash)]
pub enum LibraryTarget {
    /// A user library (`User(0)` is the active local user).
    User(u64),
    /// A group library.
    Group(u64),
}

impl Default for LibraryTarget {
    fn default() -> (r: Self)
        ensures
            r == LibraryTarget::User(0),
    {
        LibraryTarget::User(0)
    }
}

/// The URL path prefix of a library.
pub open spec fn target_prefix_spec(t: LibraryTarget) -> Seq<char> {
    match t {
        LibraryTarget::User(id) => "/users/"@ + decimal(id as nat),
        LibraryTarget::Group(id) => "/groups/"@ + decimal(id as nat),
    }
}

impl LibraryTarget {
    /// The URL path prefix of the library: `/users/{id}` or `/groups/{id}`.
    pub fn target_prefix(&self) -> (r: String)
        ensures
            r@ == target_prefix_spec(*self),
    {
        let (mut s, id) = match self {
            LibraryTarget::User(id) => ("/users/".to_owned(), *id),
            LibraryTarget::Group(id) => ("/groups/".to_owned(), *id),
        };
        push_decimal(&mut s, id);
        s
    }
}

/// A decoded response with the Zotero headers that came with it.
#[derive(Debug, Clone, PartialEq, Eq)]
pub struct ZoteroResponse<T> {
    pub data: T,
    /// `Total-Results`, when present and numeric.
    pub total_results: Option<usize>,
    /// `Last-Modified-Version`, when present and numeric.
    pub last_modified_version: Option<u64>,
    /// `Zotero-Server-ID`, when present.
    pub server_id: Option<String>,
}

/// Answer of `POST /api/local/authorize`.
#[derive(Clone, Debug, PartialEq, Eq)]
pub struct LocalAuthResponse {
    /// The write key granted.
    pub secret: String,
    /// Seconds to wait while the user has not answered yet.
    pub backoff: Option<u64>,
}

/// HTTP methods of the Local API.
#[derive(Copy, Clone, Debug, PartialEq, Eq)]
pub enum HttpMethod {
    Get,
    Post,
    Put,
    Patch,
    Delete,
}

/// A request to the Local API, ready to be sent.
#[derive(Debug)]
pub struct ApiRequest {
    pub method: HttpMethod,
    /// Path under the base URL, or an absolute `http(s)://` URL.
    pub path: String,
    /// Whether the path is taken relative to the library prefix.
    pub target_scoped: bool,
    /// Query parameters, in order.
    pub query: Vec<(String, String)>,
    /// `If-Unmodified-Since-Version`, for writes.
    pub unmodified_since_version: Option<u64>,
    pub json_body: Option<JsonValue>,
}

/// The views of query parameters.
pub open spec fn pairs_view(q: Seq<(String, String)>) -> Seq<(Seq<char>, Seq<char>)> {
    q.map_values(|p: (String, String)| (p.0@, p.1@))
}

/// `r` is a library-scoped request for `path` without parameters or body.
pub open spec fn fresh_request(r: ApiRequest, method: HttpMethod, path: Seq<char>) -> bool {
    &&& r.method == method
    &&& r.path@ == path
    &&& r.target_scoped
    &&& r.query@.len() == 0
    &&& r.unmodified_since_version is None
    &&& r.json_body is None
}

impl ApiRequest {
    /// A library-scoped request without parameters or body.
    pub fn new(method: HttpMethod, path: String) -> (r: Self)
        ensures
            fresh_request(r, method, path@),
    {
        ApiRequest {
            method,
            path,
            target_scoped: true,
            query: Vec::new(),
            unmodified_since_version: None,
            json_body: None,
        }
    }

    /// Sets whether the path is relative to the library prefix.
    pub fn target_scoped(self, scoped: bool) -> (r: Self)
        ensures
            r == (ApiRequest { target_scoped: scoped, ..self }),
    {
        ApiRequest { target_scoped: scoped, ..self }
    }

    /// Appends a query parameter.
    pub fn query(self, key: &str, value: &str) -> (r: Self)
        ensures
            r.method == self.method && r.path == self.path && r.target_scoped == self.target_scoped,
            r.unmodified_since_version == self.unmodified_since_version && r.json_body == self.json_body,
            pairs_view(r.query@) == pairs_view(self.query@).push((key@, value@)),
    {
        let mut s = self;
        let ghost before = s.query@;
        s.query.push((key.to_owned(), value.to_owned()));
        assert(pairs_view(s.query@) =~= pairs_view(before).push((key@, value@)));
        s
    }

    /// Appends a query parameter when `value` is present.
    pub fn query_opt(self, key: &str, value: Option<&str>) -> (r: Self)
        ensures
            r.method == self.method && r.path == self.path && r.target_scoped == self.target_scoped,
            r.unmodified_since_version == self.unmodified_since_version && r.json_body == self.json_body,
            pairs_view(r.query@) == match value {
                Some(v) => pairs_view(self.query@).push((key@, v@)),
                None => pairs_view(self.query@),
            },
    {
        match value {
            Some(v) => self.query(key, v),
            None => self,
        }
    }

    /// Sets `If-Unmodified-Since-Version`.
    pub fn unmodified_since_version(self, version: u64) -> (r: Self)
        ensures
            r == (ApiRequest { unmodified_since_version: Some(version), ..self }),
    {
        ApiRequest { unmodified_since_version: Some(version), ..self }
    }

    /// Sets the JSON body.
    pub fn json(self, body: JsonValue) -> (r: Self)
        ensures
            r == (ApiRequest { json_body: Some(body), ..self }),
    {
        ApiRequest { json_body: Some(body), ..self }
    }
}

/// Number of trailing `/` of `s`.
pub open spec fn trailing_slashes(s: Seq<char>) -> nat
    decreases s.len(),
{
    if s.len() > 0 && s.last() == '/' {
        1 + trailing_slashes(s.drop_last())
    } else {
        0
    }
}

/// `s` without its trailing slashes, as `trim_end_matches('/')` gives it.
pub open spec fn trim_slashes(s: Seq<char>) -> Seq<char> {
    s.take(s.len() - trailing_slashes(s))
}

/// `s` without its trailing slashes.
pub fn trim_end_slashes(s: &str) -> (r: String)
    ensures
        r@ == trim_slashes(s@),
{
    let cs = chars_of(s);
    let mut end: usize = cs.len();
    assert(cs@.take(cs@.len() as int) == cs@);
    while end > 0 && cs[end - 1] == '/'
        invariant
            end <= cs@.len(),
            trailing_slashes(cs@) == (cs@.len() - end) + trailing_slashes(cs@.take(end as int)),
        decreases end,
    {
        assert(cs@.take(end as int).drop_last() == cs@.take(end - 1));
        end = end - 1;
    }
    string_of(&cs.as_slice()[0..end])
}

/// The URL that a request goes to: an absolute path as it is, else the base
/// URL without trailing slashes, the library prefix when the request is
/// scoped, and the path.
pub open spec fn request_url_spec(base: Seq<char>, target: LibraryTarget, path: Seq<char>, scoped: bool) -> Seq<char> {
    if starts_with(path, "http://"@) || starts_with(path, "https://"@) {
        path
    } else if scoped {
        trim_slashes(base) + target_prefix_spec(target) + path
    } else {
        trim_slashes(base) + path
    }
}

/// `url` with `start` and `limit` parameters appended.
pub open spec fn add_pagination_spec(url: Seq<char>, start: usize, limit: usize) -> Seq<char> {
    url + (if contains(url, "?"@) {
        "&"@
    } else {
        "?"@
    }) + "start="@ + decimal(start as nat) + "&limit="@ + decimal(limit as nat)
}

/// Appends `start` and `limit` parameters to `url`, after its query string if
/// it has one.
pub fn add_pagination(url: &str, start: usize, limit: usize) -> (r: String)
    ensures
        r@ == add_pagination_spec(url@, start, limit),
{
    let mut s = url.to_owned();
    let cs = chars_of(url);
    if contains_exec(cs.as_slice(), chars_of("?").as_slice()) {
        push_str(&mut s, "&");
    } else {
        push_str(&mut s, "?");
    }
    push_str(&mut s, "start=");
    push_decimal(&mut s, start as u64);
    push_str(&mut s, "&limit=");
    push_decimal(&mut s, limit as u64);
    s
}

/// `2^n`.
pub open spec fn two_pow(n: nat) -> nat
    decreases n,
{
    if n == 0 {
        1
    } else {
        2 * two_pow((n - 1) as nat)
    }
}

/// The backoff before retry number `attempt` (counted from 1): 200 ms,
/// doubling each time, the doubling capped at 2^16.
pub open spec fn retry_delay_spec(attempt: u32) -> nat {
    let e: nat = if attempt == 0 {
        0
    } else if attempt - 1 < 16 {
        (attempt - 1) as nat
    } else {
        16
    };
    200 * two_pow(e)
}

/// Backoff in milliseconds before retrying attempt `attempt` (counted from
/// 1): 200, 400, 800, ...
pub fn retry_delay_ms(attempt: u32) -> (r: u64)
    ensures
        r == retry_delay_spec(attempt),
{
    let e: u32 = if attempt == 0 {
        0
    } else if attempt - 1 < 16 {
        attempt - 1
    } else {
        16
    };
    let mut f: u64 = 1;
    let mut k: u32 = 0;
    while k < e
        invariant
            k <= e <= 16,
            f == two_pow(k as nat),
            f <= 65536,
        decreases e - k,
    {
        assert(two_pow((k + 1) as nat) == 2 * two_pow(k as nat));
        proof {
            lemma_two_pow_bound(k as nat + 1);
        }
        f = f * 2;
        k = k + 1;
    }
    200 * f
}

proof fn lemma_two_pow_bound(n: nat)
    requires
        n <= 16,
    ensures
        two_pow(n) <= 65536,
{
    lemma_two_pow_mono(n, 16);
    assert(two_pow(16) == 65536) by {
        reveal_with_fuel(two_pow, 17);
    }
}

proof fn lemma_two_pow_mono(n: nat, m: nat)
    requires
        n <= m,
    ensures
        two_pow(n) <= two_pow(m),
    decreases m,
{
    if n < m {
        lemma_two_pow_mono(n, (m - 1) as nat);
    }
}

/// What one attempt to send a request produced.
#[derive(Copy, Clone, Debug, PartialEq, Eq)]
pub enum SendOutcome {
    /// A response with this status code.
    Status(u16),
    /// A transport failure.
    TransportError,
}

/// What to do after an attempt.
#[derive(Copy, Clone, Debug, PartialEq, Eq)]
pub enum RetryStep {
    /// Hand the response to the caller.
    Finish,
    /// Wait this many milliseconds, then try again.
    Retry(u64),
    /// Report the transport failure.
    Fail,
}

/// A status on which a request is worth retrying: a server error or
/// `429 Too Many Requests`.
pub open spec fn retryable_status(status: u16) -> bool {
    (500 <= status && status <= 599) || status == 429
}

/// The step after attempt number `attempts` (counted from 1) ended in
/// `outcome`: retryable outcomes are retried while fewer than three attempts
/// were made.
pub open spec fn next_step_spec(outcome: SendOutcome, attempts: u32) -> RetryStep {
    match outcome {
        SendOutcome::Status(s) => if retryable_status(s) && attempts < 3 {
            RetryStep::Retry(retry_delay_spec(attempts) as u64)
        } else {
            RetryStep::Finish
        },
        SendOutcome::TransportError => if attempts < 3 {
            RetryStep::Retry(retry_delay_spec(attempts) as u64)
        } else {
            RetryStep::Fail
        },
    }
}

/// Decides what follows attempt number `attempts` (counted from 1). A
/// request is never attempted more than three times.
pub fn next_step(outcome: SendOutcome, attempts: u32) -> (r: RetryStep)
    ensures
        r == next_step_spec(outcome, attempts),
        attempts >= 3 ==> !(r is Retry),
{
    match outcome {
        SendOutcome::Status(s) => {
            if ((500 <= s && s <= 599) || s == 429) && attempts < 3 {
                RetryStep::Retry(retry_delay_ms(attempts))
            } else {
                RetryStep::Finish
            }
        },
        SendOutcome::TransportError => {
            if attempts < 3 {
                RetryStep::Retry(retry_delay_ms(attempts))
            } else {
                RetryStep::Fail
            }
        },
    }
}

/// The backoff starts at 200 ms and doubles with each retry up to the
/// seventeenth, where it stays: 200, 400, 800, ..., 200 * 2^16.
pub proof fn lemma_backoff_doubles(attempt: u32)
    ensures
        retry_delay_spec(1) == 200,
        retry_delay_spec(2) == 400,
        retry_delay_spec(3) == 800,
        1 <= attempt <= 16 ==> retry_delay_spec((attempt + 1) as u32) == 2 * retry_delay_spec(attempt),
        attempt >= 17 ==> retry_delay_spec(attempt) == 200 * 65536,
{
    reveal_with_fuel(two_pow, 3);
    if attempt >= 17 {
        assert(two_pow(16) == 65536) by {
            reveal_with_fuel(two_pow, 17);
        }
    }
    if 1 <= attempt <= 16 {
        assert(two_pow(attempt as nat) == 2 * two_pow((attempt - 1) as nat));
    }
}

/// The retry policy: a response with a success or an ordinary client error
/// status is handed over at once; a server error, `429` or a transport
/// failure is retried after the first and the second attempt, waiting
/// 200 ms and then 400 ms; after the third attempt a response is handed
/// over and a transport failure reported.
pub proof fn lemma_retry_policy(status: u16, attempts: u32)
    ensures
        !(500 <= status <= 599) && status != 429 ==> next_step_spec(SendOutcome::Status(status), attempts)
            == RetryStep::Finish,
        (500 <= status <= 599) || status == 429 ==> next_step_spec(SendOutcome::Status(status), 1)
            == RetryStep::Retry(200),
        (500 <= status <= 599) || status == 429 ==> next_step_spec(SendOutcome::Status(status), 2)
            == RetryStep::Retry(400),
        next_step_spec(SendOutcome::TransportError, 1) == RetryStep::Retry(200),
        next_step_spec(SendOutcome::TransportError, 2) == RetryStep::Retry(400),
        attempts >= 3 ==> next_step_spec(SendOutcome::Status(status), attempts) == RetryStep::Finish,
        attempts >= 3 ==> next_step_spec(SendOutcome::TransportError, attempts) == RetryStep::Fail,
{
    lemma_backoff_doubles(1);
}

/// A 2xx status.
pub open spec fn is_success(status: u16) -> bool {
    200 <= status && status <= 299
}

/// The error of a response whose status is not 2xx, with its body as the
/// message; `None` for a 2xx response.
pub fn status_error(status: u16, body: String) -> (r: Option<ZoteroApiError>)
    ensures
        is_success(status) ==> r is None,
        !is_success(status) ==> r == Some(ZoteroApiError::LocalApi { status, message: body }),
{
    if 200 <= status && status <= 299 {
        None
    } else {
        Some(ZoteroApiError::LocalApi { status, message: body })
    }
}

/// The error of a response to a request for one object: a missing object
/// (404) is not found under `label`, another status outside 2xx is a Local
/// API error with the body as its message; `None` for a 2xx response.
pub fn status_error_or_not_found(status: u16, body: String, label: String) -> (r: Option<ZoteroApiError>)
    ensures
        is_success(status) ==> r is None,
        status == 404 ==> r == Some(ZoteroApiError::NotFound(label)),
        !is_success(status) && status != 404 ==> r == Some(ZoteroApiError::LocalApi { status, message: body }),
{
    if status == 404 {
        Some(ZoteroApiError::NotFound(label))
    } else {
        status_error(status, body)
    }
}

/// A numeric header value, as `str::parse` reads it for `usize`.
pub fn parse_usize_header(value: Option<&str>) -> (r: Option<usize>)
    ensures
        r == match value {
            Some(v) => match parse_unsigned(v@, usize::MAX as nat) {
                Some(n) => Some(n as usize),
                None => None,
            },
            None => None,
        },
{
    match value {
        Some(v) => match parse_unsigned_exec(v, usize::MAX as u64) {
            Some(n) => Some(n as usize),
            None => None,
        },
        None => None,
    }
}

/// A numeric header value, as `str::parse` reads it for `u64`.
pub fn parse_u64_header(value: Option<&str>) -> (r: Option<u64>)
    ensures
        r == match value {
            Some(v) => match parse_unsigned(v@, u64::MAX as nat) {
                Some(n) => Some(n as u64),
                None => None,
            },
            None => None,
        },
{
    match value {
        Some(v) => parse_unsigned_exec(v, u64::MAX),
        None => None,
    }
}

/// Connection settings of the Local API client.
#[derive(Clone, Debug)]
pub struct ZoteroClient {
    base_url: String,
    api_key: Option<String>,
    server_id: Option<String>,
    target: LibraryTarget,
}

/// The settings of a [`ZoteroClient`].
pub struct ClientView {
    pub base_url: Seq<char>,
    pub api_key: Option<Seq<char>>,
    pub server_id: Option<Seq<char>>,
    pub target: LibraryTarget,
}

impl View for ZoteroClient {
    type V = ClientView;

    closed spec fn view(&self) -> ClientView {
        ClientView {
            base_url: self.base_url@,
            api_key: crate::objects::opt_view(self.api_key),
            server_id: crate::objects::opt_view(self.server_id),
            target: self.target,
        }
    }
}

impl Default for ZoteroClient {
    /// A client of the Local API at its default local address.
    fn default() -> (r: Self)
        ensures
            r@.base_url == default_base_url(),
            r@.api_key is None,
            r@.server_id is None,
            r@.target == LibraryTarget::User(0),
    {
        ZoteroClient::new("http://127.0.0.1:23119/api".to_owned())
    }
}

/// The headers of a request: the API version, the key under both names,
/// the server ID and the version precondition, each where it applies.
pub open spec fn headers_spec(c: ClientView, unmodified_since: Option<u64>) -> Seq<(Seq<char>, Seq<char>)> {
    seq![("Zotero-API-Version"@, "3"@)] + (match c.api_key {
        Some(k) => seq![("Zotero-API-Key"@, k), ("Zotero-Write-Key"@, k)],
        None => Seq::empty(),
    }) + (match c.server_id {
        Some(id) => seq![("Zotero-Server-ID"@, id)],
        None => Seq::empty(),
    }) + (match unmodified_since {
        Some(v) => seq![("If-Unmodified-Since-Version"@, decimal(v as nat))],
        None => Seq::empty(),
    })
}

impl ZoteroClient {
    /// A client of the Local API at `base_url` (the default local address
    /// when it is empty), for the local user's library.
    pub fn new(base_url: String) -> (r: Self)
        ensures
            r@.base_url == if base_url@.len() == 0 {
                default_base_url()
            } else {
                base_url@
            },
            r@.api_key is None,
            r@.server_id is None,
            r@.target == LibraryTarget::User(0),
    {
        let base = if base_url.as_str().is_empty() {
            "http://127.0.0.1:23119/api".to_owned()
        } else {
            base_url
        };
        ZoteroClient { base_url: base, api_key: None, server_id: None, target: LibraryTarget::User(0) }
    }

    /// The same client with an API key.
    pub fn with_api_key(self, key: String) -> (r: Self)
        ensures
            r@ == (ClientView { api_key: Some(key@), ..self@ }),
    {
        ZoteroClient { api_key: Some(key), ..self }
    }

    /// The same client expecting a server ID.
    pub fn with_server_id(self, server_id: String) -> (r: Self)
        ensures
            r@ == (ClientView { server_id: Some(server_id@), ..self@ }),
    {
        ZoteroClient { server_id: Some(server_id), ..self }
    }

    /// The same client scoped to another library.
    pub fn with_target(self, target: LibraryTarget) -> (r: Self)
        ensures
            r@ == (ClientView { target, ..self@ }),
    {
        ZoteroClient { target, ..self }
    }

    pub fn base_url(&self) -> (r: &str)
        ensures
            r@ == self@.base_url,
    {
        self.base_url.as_str()
    }

    pub fn api_key(&self) -> (r: Option<&str>)
        ensures
            match self@.api_key {
                Some(k) => r matches Some(s) && s@ == k,
                None => r is None,
            },
    {
        match &self.api_key {
            Some(k) => Some(k.as_str()),
            None => None,
        }
    }

    pub fn target(&self) -> (r: LibraryTarget)
        ensures
            r == self@.target,
    {
        self.target
    }

    /// The URL prefix of the client's library.
    pub fn target_prefix(&self) -> (r: String)
        ensures
            r@ == target_prefix_spec(self@.target),
    {
        self.target.target_prefix()
    }

    /// A `GET` request for `path`.
    pub fn get(&self, path: &str) -> (r: ApiRequest)
        ensures
            fresh_request(r, HttpMethod::Get, path@),
    {
        ApiRequest::new(HttpMethod::Get, path.to_owned())
    }

    /// A `POST` request for `path`.
    pub fn post(&self, path: &str) -> (r: ApiRequest)
        ensures
            fresh_request(r, HttpMethod::Post, path@),
    {
        ApiRequest::new(HttpMethod::Post, path.to_owned())
    }

    /// A `PUT` request for `path`.
    pub fn put(&self, path: &str) -> (r: ApiRequest)
        ensures
            fresh_request(r, HttpMethod::Put, path@),
    {
        ApiRequest::new(HttpMethod::Put, path.to_owned())
    }

    /// A `PATCH` request for `path`.
    pub fn patch(&self, path: &str) -> (r: ApiRequest)
        ensures
            fresh_request(r, HttpMethod::Patch, path@),
    {
        ApiRequest::new(HttpMethod::Patch, path.to_owned())
    }

    /// A `DELETE` request for `path`.
    pub fn delete_req(&self, path: &str) -> (r: ApiRequest)
        ensures
            fresh_request(r, HttpMethod::Delete, path@),
    {
        ApiRequest::new(HttpMethod::Delete, path.to_owned())
    }

    /// The URL that `req` goes to.
    pub fn request_url(&self, req: &ApiRequest) -> (r: String)
        ensures
            r@ == request_url_spec(self@.base_url, self@.target, req.path@, req.target_scoped),
    {
        let p = chars_of(req.path.as_str());
        if starts_with_exec(p.as_slice(), chars_of("http://").as_slice()) || starts_with_exec(
            p.as_slice(),
            chars_of("https://").as_slice(),
        ) {
            return req.path.clone();
        }
        let mut url = trim_end_slashes(self.base_url.as_str());
        if req.target_scoped {
            let prefix = self.target.target_prefix();
            push_str(&mut url, prefix.as_str());
        }
        push_str(&mut url, req.path.as_str());
        url
    }

    /// The headers that `req` is sent with.
    pub fn request_headers(&self, req: &ApiRequest) -> (r: Vec<(String, String)>)
        ensures
            pairs_view(r@) == headers_spec(self@, req.unmodified_since_version),
    {
        let mut h: Vec<(String, String)> = Vec::new();
        h.push(("Zotero-API-Version".to_owned(), "3".to_owned()));
        let ghost mut expect: Seq<(Seq<char>, Seq<char>)> = seq![("Zotero-API-Version"@, "3"@)];
        assert(pairs_view(h@) =~= expect);
        if let Some(k) = &self.api_key {
            h.push(("Zotero-API-Key".to_owned(), k.clone()));
            h.push(("Zotero-Write-Key".to_owned(), k.clone()));
            proof {
                expect = expect + seq![("Zotero-API-Key"@, k@), ("Zotero-Write-Key"@, k@)];
            }
        } else {
            assert(expect + Seq::<(Seq<char>, Seq<char>)>::empty() =~= expect);
        }
        assert(pairs_view(h@) =~= expect);
        if let Some(id) = &self.server_id {
            h.push(("Zotero-Server-ID".to_owned(), id.clone()));
            proof {
                expect = expect + seq![("Zotero-Server-ID"@, id@)];
            }
        } else {
            assert(expect + Seq::<(Seq<char>, Seq<char>)>::empty() =~= expect);
        }
        assert(pairs_view(h@) =~= expect);
        if let Some(v) = req.unmodified_since_version {
            let mut d = String::new();
            push_decimal(&mut d, v);
            assert(d@ == decimal(v as nat));
            h.push(("If-Unmodified-Since-Version".to_owned(), d));
            proof {
                expect = expect + seq![("If-Unmodified-Since-Version"@, decimal(v as nat))];
            }
        } else {
            assert(expect + Seq::<(Seq<char>, Seq<char>)>::empty() =~= expect);
        }
        assert(pairs_view(h@) =~= expect);
        h
    }

    /// The request that probes the Local API: one item.
    pub fn status_probe_request(&self) -> (r: ApiRequest)
        ensures
            r.method == HttpMethod::Get && r.path@ == "/items"@ && r.target_scoped,
            r.unmodified_since_version is None && r.json_body is None,
            pairs_view(r.query@) == seq![("limit"@, "1"@)],
    {
        let req = self.get("/items");
        assert(pairs_view(req.query@) =~= Seq::empty());
        let req = req.query("limit", "1");
        assert(pairs_view(req.query@) =~= seq![("limit"@, "1"@)]);
        req
    }

    /// The status record of a probe of the Local API: online on a 2xx
    /// answer, with the API version it reported; offline with the status
    /// line otherwise.
    pub fn probe_status(&self, status: u16, api_version: Option<String>) -> (r: LocalApiStatus)
        requires
            100 <= status <= 999,
        ensures
            r.url@ == self@.base_url,
            r.online == is_success(status),
            is_success(status) ==> r.version == api_version && r.error is None,
            !is_success(status) ==> r.version is None,
            !is_success(status) ==> (r.error matches Some(e) && e@ == "HTTP status "@ + status_line_spec(status)),
    {
        if 200 <= status && status <= 299 {
            LocalApiStatus { online: true, url: self.base_url.clone(), version: api_version, error: None }
        } else {
            let mut e = "HTTP status ".to_owned();
            let line = status_line(status);
            push_str(&mut e, line.as_str());
            LocalApiStatus { online: false, url: self.base_url.clone(), version: None, error: Some(e) }
        }
    }

    /// The request that asks Zotero to authorize an application: `POST
    /// /local/authorize`, outside the library prefix, with its name.
    pub fn local_authorization_request(&self, app_name: &str) -> (r: ApiRequest)
        ensures
            r.method == HttpMethod::Post && r.path@ == "/local/authorize"@ && !r.target_scoped,
            r.query@.len() == 0 && r.unmodified_since_version is None,
            r.json_body matches Some(JsonValue::Object(ms)) && ms@.len() == 1 && ms@[0].0@ == "appName"@
                && ms@[0].1.str_spec() == Some(app_name@),
    {
        let mut ms: Vec<(String, JsonValue)> = Vec::new();
        ms.push(("appName".to_owned(), JsonValue::String(app_name.to_owned())));
        self.post("/local/authorize").target_scoped(false).json(JsonValue::Object(ms))
    }

    /// The status record of a probe that failed in transport with `message`.
    pub fn probe_failed(&self, message: String) -> (r: LocalApiStatus)
        ensures
            r.url@ == self@.base_url,
            !r.online && r.version is None,
            r.error matches Some(e) && e@ == message@,
    {
        LocalApiStatus { online: false, url: self.base_url.clone(), version: None, error: Some(message) }
    }
}

/// Where the next page of a paged fetch starts: nowhere after a page shorter
/// than the page size (the last one), else after this page, held at
/// `usize::MAX`.
pub fn next_page_start(start: usize, page_len: usize, page_size: usize) -> (r: Option<usize>)
    ensures
        page_len < page_size ==> r is None,
        page_len >= page_size ==> r == Some(
            if start + page_size > usize::MAX {
                usize::MAX
            } else {
                (start + page_size) as usize
            },
        ),
{
    if page_len < page_size {
        None
    } else {
        Some(start.saturating_add(page_size))
    }
}

/// The library version that a reply's `Last-Modified-Version` header gives,
/// or the error that it is missing or invalid.
pub fn library_version_from(header: Option<u64>) -> (r: Result<LibraryVersion, ZoteroApiError>)
    ensures
        match header {
            Some(v) => r matches Ok(x) && x@ == v,
            None => r matches Err(ZoteroApiError::LocalApi { status, message }) && status == 0 && message@
                == "Missing or invalid Last-Modified-Version header"@,
        },
{
    match header {
        Some(v) => Ok(LibraryVersion::new(v)),
        None => Err(
            ZoteroApiError::LocalApi {
                status: 0,
                message: "Missing or invalid Last-Modified-Version header".to_owned(),
            },
        ),
    }
}

} // verus!
