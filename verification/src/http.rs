//! The requests to the device service: what is sent, and how each kind of
//! answer becomes a value or an error.

use vstd::prelude::*;
use vstd::string::StringExecFns;

use crate::errors::{err_view, CliError, CliErrorView, ErrorCode};
use crate::proxy::{
    bypasses_proxy, format_request_error, request_error_message, should_bypass_proxy,
    ProxyMode, TransportFailure,
};
use crate::record::{
    body_error_message, body_value, extract_error_message, parse_json_or_string, Record,
    RecordView, Scalar, ScalarView,
};
use crate::text::{
    blank, decimal, is_blank, lemma_strip_trailing, push_decimal, strip_trailing, trim_end_char,
};

verus! {

/// The HTTP methods the client uses.
#[derive(Debug, Clone, Copy, PartialEq, Eq, Structural)]
pub enum HttpMethod {
    Get,
    Post,
}

/// The name of a method on the wire.
pub open spec fn spec_method_name(m: HttpMethod) -> Seq<char> {
    match m {
        HttpMethod::Get => "GET"@,
        HttpMethod::Post => "POST"@,
    }
}

impl HttpMethod {
    /// `GET` or `POST`.
    pub fn as_str(self) -> (r: &'static str)
        ensures
            r@ == spec_method_name(self),
    {
        match self {
            HttpMethod::Get => "GET",
            HttpMethod::Post => "POST",
        }
    }
}

/// The settings every request of a run shares.
#[derive(Debug)]
pub struct RuntimeConfig {
    /// The service address, without trailing `/`.
    pub base_url: String,
    pub token: Option<String>,
    pub timeout_ms: u64,
    pub proxy_mode: ProxyMode,
    pub session: String,
}

/// Checks and normalises the global options: the base URL must hold more
/// than white space, and loses its trailing `/` characters.
pub fn build_config(
    base_url: &str,
    token: Option<String>,
    timeout_ms: u64,
    proxy_mode: ProxyMode,
    session: String,
) -> (r: Result<RuntimeConfig, CliError>)
    ensures
        match r {
            Err(e) => is_blank(base_url@) && e@ == err_view(
                ErrorCode::InvalidParams,
                "base-url is required"@,
            ),
            Ok(c) => {
                &&& !is_blank(base_url@)
                &&& c.base_url@ == strip_trailing(base_url@, '/')
                &&& !(c.base_url@.len() > 0 && c.base_url@.last() == '/')
                &&& c.token.deep_view() == token.deep_view()
                &&& c.timeout_ms == timeout_ms
                &&& c.proxy_mode == proxy_mode
                &&& c.session@ == session@
            },
        },
{
    if blank(base_url) {
        return Err(CliError::with_text(ErrorCode::InvalidParams, "base-url is required"));
    }
    proof {
        lemma_strip_trailing(base_url@, '/');
    }
    Ok(
        RuntimeConfig {
            base_url: trim_end_char(base_url, '/'),
            token,
            timeout_ms,
            proxy_mode,
            session,
        },
    )
}

/// One request a command makes.
#[derive(Debug)]
pub struct ApiCall {
    pub method: HttpMethod,
    /// The path below the base URL, with its query.
    pub path: String,
    /// The JSON object sent as the body, if any.
    pub body: Option<Record>,
    /// A call to the `/api` endpoints: it needs the token, and its answer is
    /// an envelope `{ok, data, error}`.
    pub api: bool,
}

/// The mathematical content of an `ApiCall`.
pub struct ApiCallView {
    pub method: HttpMethod,
    pub path: Seq<char>,
    pub body: Option<RecordView>,
    pub api: bool,
}

/// The content of an optional record.
pub open spec fn opt_record_view(r: Option<Record>) -> Option<RecordView> {
    match r {
        Some(x) => Some(x@),
        None => None,
    }
}

impl View for ApiCall {
    type V = ApiCallView;

    open spec fn view(&self) -> ApiCallView {
        ApiCallView {
            method: self.method,
            path: self.path@,
            body: opt_record_view(self.body),
            api: self.api,
        }
    }
}

/// A request ready to go out.
#[derive(Debug)]
pub struct PreparedRequest {
    pub method: HttpMethod,
    pub url: String,
    /// Whether the client without proxy carries it.
    pub direct: bool,
    /// The value of the `Content-Type` header.
    pub content_type: String,
    /// The value of the `Authorization` header, if one is sent.
    pub authorization: Option<String>,
    pub body: Option<Record>,
}

/// Whether a request to `url` goes without proxy.
pub open spec fn uses_direct_client(mode: ProxyMode, url: Seq<char>) -> bool {
    match mode {
        ProxyMode::Direct => true,
        ProxyMode::System => false,
        ProxyMode::Auto => bypasses_proxy(url),
    }
}

/// The error of an `/api` call made without a token.
pub open spec fn missing_token_error() -> CliErrorView {
    err_view(ErrorCode::InvalidParams, "token is required for this command"@)
}

/// The `Authorization` header: the token as a bearer credential.
pub open spec fn bearer(token: Option<String>) -> Option<Seq<char>> {
    match token {
        Some(t) => Some("Bearer "@ + t@),
        None => None,
    }
}

/// Builds the request for `call`: the URL is the base URL followed by the
/// path, the body is sent as JSON, the token goes along whenever there is one, and an `/api` call
/// without a token is refused before anything is sent.
pub fn prepare_request(cfg: &RuntimeConfig, call: ApiCall) -> (r: Result<PreparedRequest, CliError>)
    ensures
        match r {
            Err(e) => call.api && cfg.token is None && e@ == missing_token_error(),
            Ok(p) => {
                &&& !(call.api && cfg.token is None)
                &&& p.method == call.method
                &&& p.url@ == cfg.base_url@ + call.path@
                &&& p.content_type@ == "application/json"@
                &&& p.direct == uses_direct_client(cfg.proxy_mode, p.url@)
                &&& p.authorization.deep_view() == bearer(cfg.token)
                &&& opt_record_view(p.body) == opt_record_view(call.body)
            },
        },
{
    if call.api && cfg.token.is_none() {
        return Err(
            CliError::with_text(ErrorCode::InvalidParams, "token is required for this command"),
        );
    }
    let mut url = cfg.base_url.clone();
    url.append(call.path.as_str());
    let direct = match cfg.proxy_mode {
        ProxyMode::Direct => true,
        ProxyMode::System => false,
        ProxyMode::Auto => should_bypass_proxy(url.as_str()),
    };
    let authorization = match &cfg.token {
        Some(t) => {
            let mut h = String::from_str("Bearer ");
            h.append(t.as_str());
            Some(h)
        },
        None => None,
    };
    Ok(
        PreparedRequest {
            method: call.method,
            url,
            direct,
            content_type: String::from_str("application/json"),
            authorization,
            body: call.body,
        },
    )
}

/// What became of a request that was sent.
pub enum Transport {
    /// The service answered with this status and body.
    Response { status: u16, text: String },
    /// No answer could be had.
    Failed(TransportFailure),
    /// The user interrupted the wait.
    Interrupted,
    /// The worker that carried the request vanished without an answer.
    WorkerLost,
}

/// The reason phrase that `http::StatusCode::canonical_reason` (re-exported
/// as `reqwest::StatusCode`) gives for a status code, if it knows one.
pub uninterp spec fn status_reason(code: u16) -> Option<Seq<char>>;

/// Calls `reqwest::StatusCode::from_u16` and `canonical_reason`. The result
/// is named `status_reason`; nothing else is claimed.
#[verifier::external_body]
fn canonical_reason(code: u16) -> (r: Option<String>)
    ensures
        r.deep_view() == status_reason(code),
{
    let status = reqwest::StatusCode::from_u16(code).ok();
    status.and_then(|s| s.canonical_reason()).map(|s| s.to_string())
}

/// A status in `200..300`.
pub open spec fn is_success_status(status: u16) -> bool {
    200 <= status < 300
}

/// The message of a failed status: the body's own message, else the code
/// and its reason phrase.
pub open spec fn status_error_message(status: u16, text: Seq<char>) -> Seq<char> {
    match body_error_message(text) {
        Some(m) => m,
        None => decimal(status as nat) + " "@ + match status_reason(status) {
            Some(p) => p,
            None => Seq::empty(),
        },
    }
}

/// What a request ends in.
pub open spec fn request_result(
    cfg: &RuntimeConfig,
    req: &PreparedRequest,
    proxy_env: bool,
    outcome: Transport,
) -> Result<ScalarView, CliErrorView> {
    match outcome {
        Transport::Failed(f) => Err(
            err_view(
                ErrorCode::NetworkError,
                request_error_message(
                    spec_method_name(req.method),
                    req.url@,
                    &f,
                    cfg.proxy_mode,
                    proxy_env,
                ),
            ),
        ),
        Transport::Interrupted => Err(
            err_view(ErrorCode::Interrupted, "Interrupted by SIGINT (Ctrl+C)"@),
        ),
        Transport::WorkerLost => Err(
            err_view(ErrorCode::InternalError, "worker channel closed unexpectedly"@),
        ),
        Transport::Response { status, text } => if status == 401 {
            Err(
                err_view(
                    ErrorCode::AuthError,
                    "Unauthorized: invalid or missing bearer token"@,
                ),
            )
        } else if !is_success_status(status) {
            Err(err_view(ErrorCode::ServerError, status_error_message(status, text@)))
        } else {
            Ok(body_value(text@))
        },
    }
}

/// The content of a result whose value is a scalar.
pub open spec fn scalar_result_view(r: Result<Scalar, CliError>) -> Result<
    ScalarView,
    CliErrorView,
> {
    match r {
        Ok(v) => Ok(v@),
        Err(e) => Err(e@),
    }
}

/// Turns what became of a request into its value or its error: 401 is an
/// authentication error, another status outside `200..300` a server error,
/// and a success gives the body read as JSON or text. `proxy_env` tells
/// whether the environment configures a proxy.
pub fn complete_request(
    cfg: &RuntimeConfig,
    req: &PreparedRequest,
    proxy_env: bool,
    outcome: Transport,
) -> (r: Result<Scalar, CliError>)
    ensures
        scalar_result_view(r) == request_result(cfg, req, proxy_env, outcome),
{
    match outcome {
        Transport::Failed(f) => Err(
            CliError::new(
                ErrorCode::NetworkError,
                format_request_error(
                    &f,
                    req.method.as_str(),
                    req.url.as_str(),
                    cfg.proxy_mode,
                    proxy_env,
                ),
            ),
        ),
        Transport::Interrupted => Err(
            CliError::with_text(ErrorCode::Interrupted, "Interrupted by SIGINT (Ctrl+C)"),
        ),
        Transport::WorkerLost => Err(
            CliError::with_text(ErrorCode::InternalError, "worker channel closed unexpectedly"),
        ),
        Transport::Response { status, text } => {
            if status == 401 {
                return Err(
                    CliError::with_text(
                        ErrorCode::AuthError,
                        "Unauthorized: invalid or missing bearer token",
                    ),
                );
            }
            if !(200 <= status && status < 300) {
                let msg = match extract_error_message(text.as_str()) {
                    Some(m) => m,
                    None => {
                        let mut m = String::new();
                        push_decimal(&mut m, status as u64);
                        m.append(" ");
                        match canonical_reason(status) {
                            Some(p) => m.append(p.as_str()),
                            None => {},
                        }
                        proof {
                            let reason = match status_reason(status) {
                                Some(p) => p,
                                None => Seq::<char>::empty(),
                            };
                            assert(m@ =~= decimal(status as nat) + " "@ + reason);
                        }
                        m
                    },
                };
                return Err(CliError::new(ErrorCode::ServerError, msg));
            }
            Ok(parse_json_or_string(text.as_str()))
        },
    }
}

/// The envelope of an `/api` answer.
#[derive(Debug)]
pub struct ApiEnvelope {
    pub ok: bool,
    pub data: Option<String>,
    pub error: Option<String>,
}

/// The data of an `/api` answer whose body is the envelope `env` (`None`
/// when the body is no envelope), for the endpoint `op`.
pub open spec fn envelope_result(op: Seq<char>, env: Option<ApiEnvelope>) -> Result<
    Seq<char>,
    CliErrorView,
> {
    match env {
        None => Err(err_view(ErrorCode::ServerError, "Unexpected "@ + op + " response format"@)),
        Some(e) => if !e.ok {
            Err(
                err_view(
                    ErrorCode::ServerError,
                    match e.error {
                        Some(m) => m@,
                        None => op + " failed"@,
                    },
                ),
            )
        } else {
            Ok(
                match e.data {
                    Some(d) => d@,
                    None => Seq::empty(),
                },
            )
        },
    }
}

/// The content of a result whose value is a string.
pub open spec fn text_result_view(r: Result<String, CliError>) -> Result<Seq<char>, CliErrorView> {
    match r {
        Ok(s) => Ok(s@),
        Err(e) => Err(e@),
    }
}

/// The data an `/api` answer carries, or the error it reports.
pub fn unwrap_envelope(op: &str, env: Option<ApiEnvelope>) -> (r: Result<String, CliError>)
    ensures
        text_result_view(r) == envelope_result(op@, env),
{
    match env {
        None => {
            let mut m = String::from_str("Unexpected ");
            m.append(op);
            m.append(" response format");
            Err(CliError::new(ErrorCode::ServerError, m))
        },
        Some(e) => {
            if !e.ok {
                let m = match e.error {
                    Some(m) => m,
                    None => {
                        let mut m = String::from_str(op);
                        m.append(" failed");
                        m
                    },
                };
                return Err(CliError::new(ErrorCode::ServerError, m));
            }
            match e.data {
                Some(d) => Ok(d),
                None => Ok(String::new()),
            }
        },
    }
}

} // verus!
