//! The REST layer: a client bound to one base URL, and the one routine that
//! classifies every response.

use crate::error::{ApiClientError, Failure};
use crate::headers::{
    check_field_value, check_header_name, header_count, header_count_of, header_entries,
    insert_header, invalid_header_value_text, is_field_value, is_header_name, lower_name,
    new_header_map, parse_header_value, MAX_HEADERS,
};
use crate::text::{joined, parse_u64, parsed_u64};
use reqwest::header::HeaderMap;
use std::time::Duration;
use vstd::prelude::*;
use vstd::string::*;

verus! {

/// Seconds after which a request is given up, unless the builder is told
/// otherwise.
pub const DEFAULT_TIMEOUT_SECS: u64 = 30;

/// `reqwest::Client`: the HTTP client, carried through as it is.
#[verifier::external_type_specification]
#[verifier::external_body]
pub struct ExHttpClient(reqwest::Client);

/// `reqwest::Error`: why an HTTP client could not be built.
#[verifier::external_type_specification]
#[verifier::external_body]
pub struct ExHttpError(reqwest::Error);

/// The duration of a whole number of seconds.
pub uninterp spec fn whole_seconds(secs: u64) -> Duration;

/// `Duration::from_secs` of std.
#[verifier::external_body]
fn seconds(secs: u64) -> (duration: Duration)
    ensures
        duration == whole_seconds(secs),
{
    Duration::from_secs(secs)
}

/// The headers that an HTTP client adds to every request that does not
/// set them itself: for each name, in lower case, the bytes of its value.
pub uninterp spec fn client_headers(client: reqwest::Client) -> Map<Seq<u8>, Seq<u8>>;

/// The time after which an HTTP client gives a request up, where it was
/// built with one.
pub uninterp spec fn client_timeout(client: reqwest::Client) -> Duration;

/// `reqwest::Client::builder`, `default_headers`, `timeout` and `build`: an
/// HTTP client that sends `headers` with every request and gives a request
/// up after `timeout`. Whether it can be built depends on the machine (the
/// TLS backend, the resolver), so nothing is said of which way it goes.
/// Inside, each value of `headers` is inserted, in order, into a map that
/// already holds one header, so under each name the last value stays; that
/// map and the timeout are what the client keeps. A map too large to take
/// them makes the call panic and is left out.
#[verifier::external_body]
fn build_http_client(headers: HeaderMap, timeout: Duration) -> (built: Result<
    reqwest::Client,
    reqwest::Error,
>)
    requires
        header_count(headers) <= MAX_HEADERS,
    ensures
        built matches Ok(client) ==> client_timeout(client) == timeout,
        built matches Ok(client) ==> forall|name: Seq<u8>| #[trigger]
            header_entries(headers).dom().contains(name) ==> client_headers(client).dom().contains(
                name,
            ) && client_headers(client)[name] == header_entries(headers)[name].last(),
{
    reqwest::Client::builder().default_headers(headers).timeout(timeout).build()
}

/// The `Display` text of a `reqwest::Error`.
#[verifier::external_body]
fn http_error_text(err: &reqwest::Error) -> (text: String) {
    err.to_string()
}

/// What a builder holds.
pub struct BuilderModel {
    pub base_url: Seq<char>,
    /// For each header name, in lower case, the bytes of its values.
    pub headers: Map<Seq<u8>, Seq<Seq<u8>>>,
    pub header_count: nat,
    pub timeout: Duration,
}

/// Collects what a `RestClient` is made of.
pub struct RestClientBuilder {
    base_url: String,
    headers: HeaderMap,
    timeout: Duration,
}

impl View for RestClientBuilder {
    type V = BuilderModel;

    closed spec fn view(&self) -> BuilderModel {
        BuilderModel {
            base_url: self.base_url@,
            headers: header_entries(self.headers),
            header_count: header_count(self.headers),
            timeout: self.timeout,
        }
    }
}

/// A header map that holds nothing.
pub open spec fn no_headers() -> Map<Seq<u8>, Seq<Seq<u8>>> {
    Map::empty()
}

/// Whether an HTTP client was built from what a builder held: it gives a
/// request up after the builder's timeout, and under each name of the
/// builder it sends the last value that the builder held for it.
pub open spec fn built_from(http: reqwest::Client, builder: BuilderModel) -> bool {
    &&& client_timeout(http) == builder.timeout
    &&& forall|name: Seq<u8>| #[trigger]
        builder.headers.dom().contains(name) ==> client_headers(http).dom().contains(name)
            && client_headers(http)[name] == builder.headers[name].last()
}

/// Why a header is refused, if it is: the value is looked at first, then
/// the name, then the room that is left.
pub open spec fn header_refusal(name: Seq<u8>, value: Seq<u8>, count: nat) -> Option<Seq<char>> {
    if !is_field_value(value) {
        Some("failed to parse header value"@)
    } else if !is_header_name(name) {
        Some("invalid HTTP header name"@)
    } else if count >= MAX_HEADERS {
        Some("too many headers"@)
    } else {
        None
    }
}

impl RestClientBuilder {
    /// A builder for `base_url`, with no default headers and a timeout of
    /// thirty seconds.
    pub fn new(base_url: &str) -> (builder: Self)
        ensures
            builder@.base_url == base_url@,
            builder@.headers == no_headers(),
            builder@.header_count == 0,
            builder@.timeout == whole_seconds(DEFAULT_TIMEOUT_SECS),
    {
        RestClientBuilder {
            base_url: base_url.to_owned(),
            headers: new_header_map(),
            timeout: seconds(DEFAULT_TIMEOUT_SECS),
        }
    }

    /// Replaces the default headers by `headers`.
    pub fn default_headers(self, headers: HeaderMap) -> (builder: Self)
        ensures
            builder@ == (BuilderModel {
                headers: header_entries(headers),
                header_count: header_count(headers),
                ..self@
            }),
    {
        RestClientBuilder { base_url: self.base_url, headers, timeout: self.timeout }
    }

    /// Adds one default header, in place of any that had the same name.
    ///
    /// The header is refused with `Config` where the value holds anything
    /// but visible ASCII, spaces and tabs, where the name is no header
    /// name, and where the builder is full.
    pub fn header(self, name: &'static str, value: &str) -> (added: Result<Self, ApiClientError>)
        ensures
            match header_refusal(name.spec_bytes(), value.spec_bytes(), self@.header_count) {
                Some(reason) => added matches Err(err) && err@ == Failure::Config(reason),
                None => added matches Ok(builder) && builder@.base_url == self@.base_url
                    && builder@.timeout == self@.timeout && builder@.headers
                    == self@.headers.insert(
                    lower_name(name.spec_bytes()),
                    seq![value.spec_bytes()],
                ) && self@.header_count <= builder@.header_count <= self@.header_count + 1,
            },
    {
        let parsed = match parse_header_value(value) {
            Ok(parsed) => parsed,
            Err(err) => {
                return Err(ApiClientError::Config(invalid_header_value_text(&err)));
            },
        };
        if !check_field_value(value.as_bytes()) {
            return Err(ApiClientError::Config("failed to parse header value".to_owned()));
        }
        if !check_header_name(name.as_bytes()) {
            return Err(ApiClientError::Config("invalid HTTP header name".to_owned()));
        }
        if header_count_of(&self.headers) >= MAX_HEADERS {
            return Err(ApiClientError::Config("too many headers".to_owned()));
        }
        let mut headers = self.headers;
        insert_header(&mut headers, name, parsed);
        Ok(RestClientBuilder { base_url: self.base_url, headers, timeout: self.timeout })
    }

    /// The default headers collected so far.
    pub fn headers(&self) -> (headers: &HeaderMap)
        ensures
            header_entries(*headers) == self@.headers,
            header_count(*headers) == self@.header_count,
    {
        &self.headers
    }

    /// The time after which a request is given up.
    pub fn request_timeout(&self) -> (timeout: Duration)
        ensures
            timeout == self@.timeout,
    {
        self.timeout
    }

    /// Sets the time after which a request is given up.
    pub fn timeout(self, timeout: Duration) -> (builder: Self)
        ensures
            builder@ == (BuilderModel { timeout, ..self@ }),
    {
        RestClientBuilder { base_url: self.base_url, headers: self.headers, timeout }
    }

    /// Builds the client.
    ///
    /// A builder with more than `MAX_HEADERS` header names is refused with
    /// `Config`. Otherwise the HTTP client is built, which the machine may
    /// refuse; that failure is reported as `Http`. A client that was built
    /// has the builder's base URL, and its HTTP client has the builder's
    /// headers and timeout.
    pub fn build(self) -> (built: Result<RestClient, ApiClientError>)
        ensures
            match built {
                Ok(client) => self@.header_count <= MAX_HEADERS && client.base_url_of()
                    == self@.base_url && built_from(client.http_of(), self@),
                Err(err) => if self@.header_count > MAX_HEADERS {
                    err@ == Failure::Config("too many headers"@)
                } else {
                    err@ is Http
                },
            },
    {
        if header_count_of(&self.headers) > MAX_HEADERS {
            return Err(ApiClientError::Config("too many headers".to_owned()));
        }
        match build_http_client(self.headers, self.timeout) {
            Ok(http) => Ok(RestClient { http, base_url: self.base_url }),
            Err(err) => Err(ApiClientError::Http(http_error_text(&err))),
        }
    }
}

/// A client for the endpoints under one base URL. Nothing in it changes
/// once it is built.
pub struct RestClient {
    http: reqwest::Client,
    base_url: String,
}

/// One HTTP response, as far as the classification looks at it.
pub struct RawResponse {
    pub status: u16,
    /// The bytes of the `retry-after` header, if there is one.
    pub retry_after: Option<Vec<u8>>,
    /// The body as text, or why it could not be read.
    pub body: Result<String, String>,
}

/// `RawResponse` with its texts as sequences.
pub struct ResponseModel {
    pub status: u16,
    pub retry_after: Option<Seq<u8>>,
    pub body: Result<Seq<char>, Seq<char>>,
}

impl View for RawResponse {
    type V = ResponseModel;

    open spec fn view(&self) -> ResponseModel {
        ResponseModel {
            status: self.status,
            retry_after: match self.retry_after {
                Some(bytes) => Some(bytes@),
                None => None,
            },
            body: match self.body {
                Ok(text) => Ok(text@),
                Err(detail) => Err(detail@),
            },
        }
    }
}

/// The seconds to wait that a `retry-after` header names: its value where
/// that is an unsigned decimal numeral, one second where the header is
/// missing or says anything else.
pub open spec fn retry_after_secs(header: Option<Seq<u8>>) -> u64 {
    match header {
        Some(bytes) => match parsed_u64(bytes) {
            Some(secs) => secs,
            None => 1,
        },
        None => 1,
    }
}

/// Whether `status` is in the success range, 200 to 299.
pub open spec fn is_success(status: u16) -> bool {
    200 <= status <= 299
}

/// The body of a response that could not be read counts as empty.
pub open spec fn body_or_empty(body: Result<Seq<char>, Seq<char>>) -> Seq<char> {
    match body {
        Ok(text) => text,
        Err(_) => Seq::empty(),
    }
}

/// The failure that a response stands for, if it stands for one, without
/// looking at what a successful body says.
pub open spec fn response_failure(resp: ResponseModel) -> Option<Failure> {
    if resp.status == 429 {
        Some(Failure::RateLimited { retry_after_secs: retry_after_secs(resp.retry_after) })
    } else if !is_success(resp.status) {
        Some(Failure::Api { status: resp.status, body: body_or_empty(resp.body) })
    } else {
        None
    }
}

/// Whether the body of a response with this status is read: never on 429,
/// always on any other status outside the success range, and on a success
/// only where the caller wants the body.
pub open spec fn body_is_read(status: u16, wanted: bool) -> bool {
    status != 429 && (!is_success(status) || wanted)
}

/// The classification of a response whose body is wanted: the body text of
/// a success, or the failure. A success whose body could not be read is a
/// transport failure.
pub open spec fn classified(resp: ResponseModel) -> Result<Seq<char>, Failure> {
    match response_failure(resp) {
        Some(failure) => Err(failure),
        None => match resp.body {
            Ok(text) => Ok(text),
            Err(detail) => Err(Failure::Http(detail)),
        },
    }
}

/// The outcome of a classification, with its texts as sequences.
pub open spec fn text_outcome_view(outcome: Result<String, ApiClientError>) -> Result<
    Seq<char>,
    Failure,
> {
    match outcome {
        Ok(text) => Ok(text@),
        Err(err) => Err(err@),
    }
}

impl RestClient {
    /// The base URL that this client prefixes to every path.
    pub closed spec fn base_url_of(&self) -> Seq<char> {
        self.base_url@
    }

    /// The HTTP client that this client holds.
    pub closed spec fn http_of(&self) -> reqwest::Client {
        self.http
    }

    /// Starts building a client for `base_url`.
    pub fn builder(base_url: &str) -> (builder: RestClientBuilder)
        ensures
            builder@.base_url == base_url@,
            builder@.headers == no_headers(),
            builder@.header_count == 0,
            builder@.timeout == whole_seconds(DEFAULT_TIMEOUT_SECS),
    {
        RestClientBuilder::new(base_url)
    }

    /// The absolute URL of `path`: the base URL with `path` after it.
    pub fn url(&self, path: &str) -> (url: String)
        ensures
            url@ == self.base_url_of() + path@,
    {
        joined(self.base_url.as_str(), path)
    }

    /// The base URL.
    pub fn base_url(&self) -> (base: &str)
        ensures
            base@ == self.base_url_of(),
    {
        self.base_url.as_str()
    }

    /// The HTTP client that carries this client's requests: the one that
    /// was built with the builder's headers and timeout.
    pub fn http(&self) -> (http: &reqwest::Client)
        ensures
            *http == self.http_of(),
    {
        &self.http
    }

    /// Whether to read the body of a response with this status, where
    /// `wanted` says whether the caller wants the body of a success.
    pub fn reads_body(status: u16, wanted: bool) -> (read: bool)
        ensures
            read == body_is_read(status, wanted),
    {
        status != 429 && (!(200 <= status && status <= 299) || wanted)
    }

    /// The rate-limit failure that a 429 response with this `retry-after`
    /// header stands for.
    pub fn extract_rate_limit(retry_after: &Option<Vec<u8>>) -> (err: ApiClientError)
        ensures
            err@ == (Failure::RateLimited {
                retry_after_secs: retry_after_secs(
                    match retry_after {
                        Some(bytes) => Some(bytes@),
                        None => None,
                    },
                ),
            }),
    {
        let secs = match retry_after {
            Some(bytes) => match parse_u64(bytes.as_slice()) {
                Some(secs) => secs,
                None => 1,
            },
            None => 1,
        };
        ApiClientError::RateLimited { retry_after_secs: secs }
    }

    /// Classifies a response whose body is wanted.
    ///
    /// 429 is a rate limit, whatever the body. Any other status outside
    /// 200 to 299 is an API error that carries the body text. A success
    /// yields its body text, for the caller to parse.
    pub fn handle_response(resp: RawResponse) -> (outcome: Result<String, ApiClientError>)
        ensures
            text_outcome_view(outcome) == classified(resp@),
    {
        if resp.status == 429 {
            return Err(Self::extract_rate_limit(&resp.retry_after));
        }
        if !(200 <= resp.status && resp.status <= 299) {
            let body = match resp.body {
                Ok(text) => text,
                Err(_) => String::new(),
            };
            return Err(ApiClientError::Api { status: resp.status, body });
        }
        match resp.body {
            Ok(text) => Ok(text),
            Err(detail) => Err(ApiClientError::Http(detail)),
        }
    }

    /// Classifies a response of which only the status matters: the same
    /// failures as `handle_response`, and a success whatever its body.
    pub fn handle_empty_response(resp: RawResponse) -> (outcome: Result<(), ApiClientError>)
        ensures
            match response_failure(resp@) {
                Some(failure) => outcome matches Err(err) && err@ == failure,
                None => outcome is Ok,
            },
    {
        if resp.status == 429 {
            return Err(Self::extract_rate_limit(&resp.retry_after));
        }
        if !(200 <= resp.status && resp.status <= 299) {
            let body = match resp.body {
                Ok(text) => text,
                Err(_) => String::new(),
            };
            return Err(ApiClientError::Api { status: resp.status, body });
        }
        Ok(())
    }

    /// What a request reports whose response body was parsed with
    /// `parsed` as the result: the value, or `Deserialize` with the
    /// parser's complaint.
    pub fn decoded<T>(parsed: Result<T, String>) -> (outcome: Result<T, ApiClientError>)
        ensures
            match parsed {
                Ok(value) => outcome == Ok::<T, ApiClientError>(value),
                Err(detail) => outcome matches Err(err) && err@ == Failure::Deserialize(detail@),
            },
    {
        match parsed {
            Ok(value) => Ok(value),
            Err(detail) => Err(ApiClientError::Deserialize(detail)),
        }
    }
}

/// A body that is not read is not looked at: two responses with the same
/// status and the same `retry-after` header are classified alike, whatever
/// stands in the place of the body.
pub proof fn unread_body_is_not_looked_at(first: ResponseModel, second: ResponseModel)
    requires
        first.status == second.status,
        first.retry_after == second.retry_after,
    ensures
        !body_is_read(first.status, true) ==> classified(first) == classified(second),
        !body_is_read(first.status, false) ==> response_failure(first) == response_failure(
            second,
        ),
{
}

} // verus!
