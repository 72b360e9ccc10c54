//! OpenAI-compatible chat-completions backend.
//!
//! Works against the local hy-RTMT server, OpenAI, OpenRouter and other
//! providers of `/v1/chat/completions`. The library decides what is sent (the
//! URL, the prompt, the credentials) and what a reply means; the caller
//! performs the HTTP exchange with the client held here and hands the
//! outcome back.

use vstd::prelude::*;
use std::time::Duration;
use crate::language::{Language, code};
use crate::clock::{duration_from_secs, secs_duration};
use crate::text::{trim, trim_end_char, trim_str, trim_end_char_str};
use crate::translation::{
    TranslationRequest, TranslationResult, TranslationError, ErrorView, ResultView,
    validate_request, request_error,
};

verus! {

/// `reqwest::Client`, the HTTP client the exchanges are made with.
#[verifier::external_type_specification]
#[verifier::external_body]
pub struct ExClient(reqwest::Client);

/// `reqwest::Error`, a failed HTTP exchange.
#[verifier::external_type_specification]
#[verifier::external_body]
pub struct ExReqwestError(reqwest::Error);

/// `serde_json::Error`, a failed JSON (de)serialisation.
#[verifier::external_type_specification]
#[verifier::external_body]
pub struct ExSerdeJsonError(serde_json::Error);

/// Calls `reqwest::Client::builder()`, sets `ClientBuilder::timeout`,
/// `ClientBuilder::connect_timeout` and `ClientBuilder::no_proxy`, and calls
/// `ClientBuilder::build`. `build` returns an error only when a setting
/// recorded one (among the builder's settings only `user_agent` does, and it
/// is not used here) or when a TLS backend fails to start (TLS is compiled
/// out: the crate is used without its default features). So the build is
/// claimed to succeed; of the client itself nothing is claimed.
#[verifier::external_body]
fn build_client(timeout: Duration, connect_timeout: Duration) -> (r: Result<reqwest::Client, reqwest::Error>)
    ensures
        r is Ok,
{
    reqwest::Client::builder().timeout(timeout).connect_timeout(connect_timeout).no_proxy().build()
}

/// Calls `reqwest::Client::builder()`, sets `ClientBuilder::timeout` and
/// calls `ClientBuilder::build`. Such a builder records no error, TLS is
/// compiled out, and the system proxy settings it reads from the environment
/// are taken as far as they parse (what does not parse is skipped), so the
/// build is claimed to succeed; of the client itself nothing is claimed.
#[verifier::external_body]
fn build_timeout_client(timeout: Duration) -> (r: Result<reqwest::Client, reqwest::Error>)
    ensures
        r is Ok,
{
    reqwest::Client::builder().timeout(timeout).build()
}

/// Calls `reqwest::Error::is_timeout`; it inspects the error's source chain,
/// which the library cannot see, so nothing is claimed of the answer.
#[verifier::external_body]
fn reqwest_is_timeout(e: &reqwest::Error) -> bool {
    e.is_timeout()
}

/// Calls `reqwest::Error::is_connect` (source chain, opaque: no claim).
#[verifier::external_body]
fn reqwest_is_connect(e: &reqwest::Error) -> bool {
    e.is_connect()
}

/// Calls `reqwest::Error::is_request` (error kind, opaque: no claim).
#[verifier::external_body]
fn reqwest_is_request(e: &reqwest::Error) -> bool {
    e.is_request()
}

/// Calls `ToString::to_string` on a `reqwest::Error` (its `Display` text;
/// opaque: no claim).
#[verifier::external_body]
fn reqwest_error_text(e: &reqwest::Error) -> String {
    e.to_string()
}

/// Calls `ToString::to_string` on a `serde_json::Error` (its `Display`
/// text; opaque: no claim).
#[verifier::external_body]
fn serde_json_error_text(e: &serde_json::Error) -> String {
    e.to_string()
}

/// How a transport failure is reported, from what is known of it.
pub open spec fn transport_error_spec(timed_out: bool, connect_or_request: bool, message: Seq<char>) -> ErrorView {
    if timed_out {
        ErrorView::Timeout
    } else if connect_or_request {
        ErrorView::BackendUnavailable(message)
    } else {
        ErrorView::Other(message)
    }
}

/// Whether an error is one a transport failure can become.
pub open spec fn is_transport_error(e: ErrorView) -> bool {
    e is Timeout || e is BackendUnavailable || e is Other
}

impl TranslationError {
    /// A transport failure: a timeout, a failure to connect or to send the
    /// request (the backend is unavailable), or anything else.
    pub fn from_transport(timed_out: bool, connect_or_request: bool, message: String) -> (r: Self)
        ensures
            r@ == transport_error_spec(timed_out, connect_or_request, message@),
    {
        if timed_out {
            TranslationError::Timeout
        } else if connect_or_request {
            TranslationError::BackendUnavailable(message)
        } else {
            TranslationError::Other(message)
        }
    }

    /// The error a failed HTTP exchange is reported as.
    pub fn from_reqwest(e: reqwest::Error) -> (r: Self)
        ensures
            is_transport_error(r@),
    {
        let timed_out = reqwest_is_timeout(&e);
        let connect_or_request = reqwest_is_connect(&e) || reqwest_is_request(&e);
        let message = reqwest_error_text(&e);
        Self::from_transport(timed_out, connect_or_request, message)
    }

    /// The error a failed JSON (de)serialisation is reported as.
    pub fn from_serde_json(e: serde_json::Error) -> (r: Self)
        ensures
            r@ is Serde,
    {
        TranslationError::Serde(serde_json_error_text(&e))
    }
}

/// A failed HTTP exchange, reported as [`TranslationError::from_reqwest`]
/// says.
impl From<reqwest::Error> for TranslationError {
    fn from(e: reqwest::Error) -> (r: TranslationError)
        ensures
            is_transport_error(r@),
    {
        TranslationError::from_reqwest(e)
    }
}

/// The generic conversion contract is not used; the impl states its result.
impl vstd::std_specs::convert::FromSpecImpl<reqwest::Error> for TranslationError {
    open spec fn obeys_from_spec() -> bool {
        false
    }

    open spec fn from_spec(v: reqwest::Error) -> TranslationError {
        arbitrary()
    }
}

/// A failed JSON (de)serialisation, reported as a `Serde` error.
impl From<serde_json::Error> for TranslationError {
    fn from(e: serde_json::Error) -> (r: TranslationError)
        ensures
            r@ is Serde,
    {
        TranslationError::from_serde_json(e)
    }
}

/// The generic conversion contract is not used; the impl states its result.
impl vstd::std_specs::convert::FromSpecImpl<serde_json::Error> for TranslationError {
    open spec fn obeys_from_spec() -> bool {
        false
    }

    open spec fn from_spec(v: serde_json::Error) -> TranslationError {
        arbitrary()
    }
}

/// `base` without trailing slashes, followed by `path`.
pub open spec fn endpoint(base: Seq<char>, path: Seq<char>) -> Seq<char> {
    trim_end_char(base, '/') + path
}

/// Only the trailing slashes of a base URL are dropped before the path is
/// added: the URL is the base up to and including its last character that
/// is not a slash, then the path. A base that does not end with a slash is
/// kept whole.
pub proof fn lemma_endpoint_drops_only_trailing_slashes(base: Seq<char>, path: Seq<char>)
    ensures
        exists|k: int|
            0 <= k <= base.len() && endpoint(base, path) == base.subrange(0, k) + path && (forall|
                j: int,
            | k <= j < base.len() ==> base[j] == '/') && (k == 0 || base[k - 1] != '/'),
        base.len() == 0 || base.last() != '/' ==> endpoint(base, path) == base + path,
{
    let k = crate::text::lemma_trim_end_char_shape(base, '/');
    if base.len() == 0 || base.last() != '/' {
        assert(k == base.len());
        assert(base.subrange(0, k) =~= base);
    }
}

/// A status is a server error exactly when its hundreds digit is 5: every
/// status from 500 through 599 makes the health check fail, every other
/// status shows the server alive.
pub proof fn lemma_server_error_is_5xx(status: u16)
    ensures
        is_server_error(status) <==> status / 100 == 5,
        is_server_error(status) ==> 500 <= status && status < 600,
{
}

/// The system prompt for a language pair.
pub open spec fn system_prompt(source: Language, target: Language) -> Seq<char> {
    "You are a translation engine. Translate the user's text from "@ + code(source) + " to "@
        + code(target)
        + ". Reply with ONLY the translated text, no quotes, no commentary, no explanation."@
}

/// A chat-completions call to make: POST `url` with a JSON body of `model`,
/// a system message and a user message, temperature 0, and `bearer` as the
/// bearer token when present.
pub struct ChatCall {
    pub url: String,
    pub model: String,
    pub system: String,
    pub user: String,
    pub bearer: Option<String>,
}

/// A GET to make, with an optional bearer token.
pub struct HttpGet {
    pub url: String,
    pub bearer: Option<String>,
}

/// What came back from a chat-completions call.
pub enum ChatReply {
    /// Sending failed.
    SendFailed(reqwest::Error),
    /// The server answered with a non-success status and this body (empty
    /// when the body could not be read).
    Status { status: u16, body: String },
    /// The success body could not be decoded.
    DecodeFailed(reqwest::Error),
    /// The message contents of the choices, in order.
    Choices(Vec<String>),
}

/// What came back from a health-check GET.
pub enum HealthReply {
    /// Sending failed.
    SendFailed(reqwest::Error),
    /// The server answered with this status.
    Responded(u16),
}

/// Whether an HTTP status is a success (2xx).
pub open spec fn is_success(status: u16) -> bool {
    200 <= status <= 299
}

/// Whether an HTTP status is a server error (5xx).
pub open spec fn is_server_error(status: u16) -> bool {
    500 <= status <= 599
}

/// Whether an HTTP status is a success (2xx).
pub fn status_is_success(status: u16) -> (b: bool)
    ensures
        b == is_success(status),
{
    200 <= status && status <= 299
}

/// The views of an optional text.
pub open spec fn opt_text(o: Option<String>) -> Option<Seq<char>> {
    match o {
        Some(s) => Some(s@),
        None => None,
    }
}

fn clone_opt(o: &Option<String>) -> (r: Option<String>)
    ensures
        opt_text(r) == opt_text(*o),
{
    match o {
        Some(s) => Some(s.clone()),
        None => None,
    }
}

/// Chat-completions translation backend.
pub struct CloudTranslator {
    base_url: String,
    model: String,
    api_key: Option<String>,
    client: reqwest::Client,
    timeout: Duration,
}

impl CloudTranslator {
    pub closed spec fn spec_base_url(&self) -> Seq<char> {
        self.base_url@
    }

    pub closed spec fn spec_model(&self) -> Seq<char> {
        self.model@
    }

    pub closed spec fn spec_api_key(&self) -> Option<Seq<char>> {
        opt_text(self.api_key)
    }

    /// The HTTP client the exchanges are made with.
    pub closed spec fn spec_client(&self) -> reqwest::Client {
        self.client
    }

    /// The request timeout the client was built with.
    pub closed spec fn spec_timeout(&self) -> Duration {
        self.timeout
    }

    /// A backend for `base_url` and `model`, with a client that times out
    /// requests after 15 s and connections after 5 s and uses no proxy.
    /// Building such a client does not fail, so neither does this.
    pub fn new(base_url: &str, model: &str, api_key: Option<String>) -> (r: Result<Self, TranslationError>)
        ensures
            r matches Ok(t) && t.spec_base_url() == base_url@ && t.spec_model() == model@
                && t.spec_api_key() == opt_text(api_key) && t.spec_timeout() == secs_duration(15),
    {
        let timeout = duration_from_secs(15);
        let built = build_client(timeout, duration_from_secs(5));
        Self::from_built_client(base_url, model, api_key, built, timeout)
    }

    /// A backend from the outcome of building its client.
    pub fn from_built_client(
        base_url: &str,
        model: &str,
        api_key: Option<String>,
        built: Result<reqwest::Client, reqwest::Error>,
        timeout: Duration,
    ) -> (r: Result<Self, TranslationError>)
        ensures
            built is Ok <==> r is Ok,
            r matches Ok(t) ==> t.spec_base_url() == base_url@ && t.spec_model() == model@
                && t.spec_api_key() == opt_text(api_key) && (built matches Ok(c)
                && t.spec_client() == c) && t.spec_timeout() == timeout,
            r matches Err(e) ==> e@ is BackendUnavailable,
    {
        match built {
            Ok(client) => Ok(
                CloudTranslator {
                    base_url: String::from_str(base_url),
                    model: String::from_str(model),
                    api_key,
                    client,
                    timeout,
                },
            ),
            Err(e) => Err(TranslationError::BackendUnavailable(reqwest_error_text(&e))),
        }
    }

    /// The same backend with a new client that times out requests after
    /// `timeout` (and otherwise has the default settings).
    pub fn with_timeout(self, timeout: Duration) -> (r: Self)
        ensures
            r.spec_base_url() == self.spec_base_url(),
            r.spec_model() == self.spec_model(),
            r.spec_api_key() == self.spec_api_key(),
            r.spec_timeout() == timeout,
    {
        let client = build_timeout_client(timeout).unwrap();
        self.with_client(client, timeout)
    }

    /// The same backend with another client and request timeout.
    pub fn with_client(self, client: reqwest::Client, timeout: Duration) -> (r: Self)
        ensures
            r.spec_base_url() == self.spec_base_url(),
            r.spec_model() == self.spec_model(),
            r.spec_api_key() == self.spec_api_key(),
            r.spec_client() == client,
            r.spec_timeout() == timeout,
    {
        CloudTranslator { client, timeout, ..self }
    }

    /// The HTTP client the exchanges are made with.
    pub fn client(&self) -> (r: &reqwest::Client)
        ensures
            *r == self.spec_client(),
    {
        &self.client
    }

    /// Backend identifier for logs / metrics.
    pub fn backend_name(&self) -> (r: &'static str)
        ensures
            r@ == "cloud"@,
    {
        "cloud"
    }

    /// The call that translates `request`: the shared request checks (with
    /// the global catalog), then a POST to `<base>/v1/chat/completions` with
    /// the system prompt and the text as the user message.
    pub fn chat_call(&self, request: &TranslationRequest) -> (r: Result<ChatCall, TranslationError>)
        ensures
            match request_error(request@, None) {
                Some(e) => r matches Err(err) && err@ == e,
                None => r matches Ok(c) && c.url@ == endpoint(
                    self.spec_base_url(),
                    "/v1/chat/completions"@,
                ) && c.model@ == self.spec_model() && c.system@ == system_prompt(
                    request@.source,
                    request@.target,
                ) && c.user@ == request@.text && opt_text(c.bearer) == self.spec_api_key(),
            },
    {
        match validate_request(request, &None) {
            Err(e) => {
                return Err(e);
            },
            Ok(()) => {},
        }
        let base = trim_end_char_str(self.base_url.as_str(), '/');
        let url = String::from_str(base).concat("/v1/chat/completions");
        let system = String::from_str(
            "You are a translation engine. Translate the user's text from ",
        ).concat(request.source.as_str()).concat(" to ").concat(request.target.as_str()).concat(
            ". Reply with ONLY the translated text, no quotes, no commentary, no explanation.",
        );
        Ok(
            ChatCall {
                url,
                model: self.model.clone(),
                system,
                user: request.text.clone(),
                bearer: clone_opt(&self.api_key),
            },
        )
    }

    /// What a chat-completions reply means for `request`: a transport or
    /// decoding failure, an HTTP error with its status and body, no choice
    /// at all, or the trimmed content of the first choice.
    pub fn finish_translation(&self, request: TranslationRequest, reply: ChatReply) -> (r: Result<
        TranslationResult,
        TranslationError,
    >)
        ensures
            match reply {
                ChatReply::SendFailed(_) => r matches Err(e) && is_transport_error(e@),
                ChatReply::DecodeFailed(_) => r matches Err(e) && is_transport_error(e@),
                ChatReply::Status { status, body } => r matches Err(e) && e@ == (ErrorView::Http {
                    status,
                    body: body@,
                }),
                ChatReply::Choices(v) => if v@.len() == 0 {
                    r matches Err(e) && e@ == ErrorView::Other(
                        "chat completion returned no choices"@,
                    )
                } else {
                    r matches Ok(res) && res@ == (ResultView {
                        original: request@.text,
                        translated: trim(v@[0]@),
                        source: request@.source,
                        target: request@.target,
                        backend: "cloud"@,
                    })
                },
            },
    {
        match reply {
            ChatReply::SendFailed(e) => Err(TranslationError::from_reqwest(e)),
            ChatReply::DecodeFailed(e) => Err(TranslationError::from_reqwest(e)),
            ChatReply::Status { status, body } => Err(TranslationError::Http { status, body }),
            ChatReply::Choices(v) => {
                if v.len() == 0 {
                    Err(
                        TranslationError::Other(
                            String::from_str("chat completion returned no choices"),
                        ),
                    )
                } else {
                    let first = trim_str(v[0].as_str());
                    Ok(
                        TranslationResult {
                            original: request.text,
                            translated: String::from_str(first),
                            source: request.source,
                            target: request.target,
                            backend: String::from_str("cloud"),
                        },
                    )
                }
            },
        }
    }

    /// The readiness probe to make: a GET of `<base>/v1/models`.
    pub fn health_check_request(&self) -> (r: HttpGet)
        ensures
            r.url@ == endpoint(self.spec_base_url(), "/v1/models"@),
            opt_text(r.bearer) == self.spec_api_key(),
    {
        let base = trim_end_char_str(self.base_url.as_str(), '/');
        HttpGet {
            url: String::from_str(base).concat("/v1/models"),
            bearer: clone_opt(&self.api_key),
        }
    }

    /// What a readiness probe's reply means: any answer but a server error
    /// (5xx) shows the server alive.
    pub fn finish_health_check(&self, reply: HealthReply) -> (r: Result<(), TranslationError>)
        ensures
            match reply {
                HealthReply::SendFailed(_) => r matches Err(e) && is_transport_error(e@),
                HealthReply::Responded(status) => if is_server_error(status) {
                    r matches Err(e) && e@ == (ErrorView::Http {
                        status,
                        body: "server error during health check"@,
                    })
                } else {
                    r is Ok
                },
            },
    {
        match reply {
            HealthReply::SendFailed(e) => Err(TranslationError::from_reqwest(e)),
            HealthReply::Responded(status) => {
                if 500 <= status && status <= 599 {
                    Err(
                        TranslationError::Http {
                            status,
                            body: String::from_str("server error during health check"),
                        },
                    )
                } else {
                    Ok(())
                }
            },
        }
    }
}

} // verus!
