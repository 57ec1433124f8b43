//! The commands of the client and what each of them does: which requests it
//! makes, in which order, and what it reports. A command runs as a sequence
//! of steps: `start_command` gives the first request (or the result, when the
//! arguments are refused), and `advance_command` takes the answer to the last
//! request and gives the next request or the result.

use vstd::prelude::*;
use vstd::string::StringExecFns;

use crate::errors::{err_view, CliError, CliErrorView, ErrorCode};
use crate::http::{
    envelope_result, unwrap_envelope, ApiCall, ApiCallView, ApiEnvelope, HttpMethod,
    RuntimeConfig,
};
use crate::record::{
    fields2, fields3, fields4, fields5, fields6, text_of, Record, RecordView, Scalar, ScalarView,
};
use crate::text::{
    contains, lowercase, occurs_in, push_signed_decimal, same_text, signed_decimal, starts_with,
    to_lowercase,
};

verus! {

/// Input actions on the device.
#[derive(Debug)]
pub enum ActCommands {
    /// Tap at a point; coordinates are bit patterns of binary64 values.
    Tap { x: u64, y: u64 },
    /// Swipe between two points (binary64 bit patterns) in `duration` ms.
    Swipe { x1: u64, y1: u64, x2: u64, y2: u64, duration: i64 },
    Back,
    Home,
    Text { text: String },
    Launch { package_name: String },
    Stop { package_name: String },
    Key { key_code: i32 },
}

/// Reads of the device state.
#[derive(Debug)]
pub enum ObserveCommands {
    Screen,
    Screenshot { max_dim: i64, quality: i64 },
    Top,
}

/// Checks of the device state.
#[derive(Debug)]
pub enum VerifyCommands {
    TextContains { text: String, ignore_case: bool },
    TopActivity { expected: String, mode: String },
    NodeExists { by: String, value: String, exact_match: bool },
}

/// Ways back to a known state.
#[derive(Debug)]
pub enum RecoverCommands {
    Back { times: u32 },
    Home,
    Relaunch { package_name: String },
}

/// A command of the client.
#[derive(Debug)]
#[allow(inconsistent_fields)]
pub enum Commands {
    Preflight,
    Act { command: ActCommands },
    Observe { command: ObserveCommands },
    Verify { command: VerifyCommands },
    Recover { command: RecoverCommands },
}

// ---------------------------------------------------------------------------
// What each command asks of the service.
// ---------------------------------------------------------------------------

/// A call with the given parts.
pub open spec fn call_view(
    method: HttpMethod,
    path: Seq<char>,
    body: Option<RecordView>,
    api: bool,
) -> ApiCallView {
    ApiCallView { method, path, body, api }
}

/// An `/api` POST with an empty object as body.
pub open spec fn press_call(path: Seq<char>) -> ApiCallView {
    call_view(HttpMethod::Post, path, Some(Seq::empty()), true)
}

/// An `/api` GET without body.
pub open spec fn read_call(path: Seq<char>) -> ApiCallView {
    call_view(HttpMethod::Get, path, None, true)
}

/// The health check, which needs no token and is no envelope.
pub open spec fn health_call() -> ApiCallView {
    call_view(HttpMethod::Get, "/health"@, None, false)
}

/// The launch of an app.
pub open spec fn launch_call(package_name: Seq<char>) -> ApiCallView {
    call_view(
        HttpMethod::Post,
        "/api/app/launch"@,
        Some(seq![("package_name"@, ScalarView::Str(package_name))]),
        true,
    )
}

/// The screenshot endpoint with its query.
pub open spec fn screenshot_path(max_dim: i64, quality: i64) -> Seq<char> {
    "/api/screenshot?max_dim="@ + signed_decimal(max_dim as int) + "&quality="@ + signed_decimal(
        quality as int,
    )
}

/// The `by` values the node search accepts, compared after lower-casing.
pub open spec fn is_node_field(by: Seq<char>) -> bool {
    ||| by == "id"@
    ||| by == "text"@
    ||| by == "desc"@
    ||| by == "class"@
    ||| by == "resource_id"@
}

/// The requests a command makes, in order, when every one of them succeeds;
/// `token` tells whether a token is configured.
pub open spec fn planned_calls(cmd: &Commands, token: bool) -> Seq<ApiCallView> {
    match cmd {
        Commands::Preflight => if token {
            seq![health_call(), read_call("/api/app/top"@)]
        } else {
            seq![health_call()]
        },
        Commands::Act { command } => match command {
            ActCommands::Tap { x, y } => seq![
                call_view(
                    HttpMethod::Post,
                    "/api/tap"@,
                    Some(fields2(("x"@, ScalarView::Float(*x)), ("y"@, ScalarView::Float(*y)))),
                    true,
                ),
            ],
            ActCommands::Swipe { x1, y1, x2, y2, duration } => seq![
                call_view(
                    HttpMethod::Post,
                    "/api/swipe"@,
                    Some(
                        fields5(
                            ("x1"@, ScalarView::Float(*x1)),
                            ("y1"@, ScalarView::Float(*y1)),
                            ("x2"@, ScalarView::Float(*x2)),
                            ("y2"@, ScalarView::Float(*y2)),
                            ("duration"@, ScalarView::Int(*duration)),
                        ),
                    ),
                    true,
                ),
            ],
            ActCommands::Back => seq![press_call("/api/press/back"@)],
            ActCommands::Home => seq![press_call("/api/press/home"@)],
            ActCommands::Text { text } => seq![
                call_view(
                    HttpMethod::Post,
                    "/api/text"@,
                    Some(seq![("text"@, ScalarView::Str(text@))]),
                    true,
                ),
            ],
            ActCommands::Launch { package_name } => seq![launch_call(package_name@)],
            ActCommands::Stop { package_name } => seq![
                call_view(
                    HttpMethod::Post,
                    "/api/app/stop"@,
                    Some(seq![("package_name"@, ScalarView::Str(package_name@))]),
                    true,
                ),
            ],
            ActCommands::Key { key_code } => seq![
                call_view(
                    HttpMethod::Post,
                    "/api/press/key"@,
                    Some(seq![("key_code"@, ScalarView::Int(*key_code as i64))]),
                    true,
                ),
            ],
        },
        Commands::Observe { command } => match command {
            ObserveCommands::Screen => seq![read_call("/api/screen"@)],
            ObserveCommands::Screenshot { max_dim, quality } => seq![
                read_call(screenshot_path(*max_dim, *quality)),
            ],
            ObserveCommands::Top => seq![read_call("/api/app/top"@)],
        },
        Commands::Verify { command } => match command {
            VerifyCommands::TextContains { .. } => seq![read_call("/api/screen"@)],
            VerifyCommands::TopActivity { .. } => seq![read_call("/api/app/top"@)],
            VerifyCommands::NodeExists { by, value, exact_match } => seq![
                call_view(
                    HttpMethod::Post,
                    "/api/nodes/find"@,
                    Some(
                        fields3(
                            ("by"@, ScalarView::Str(lowercase(by@))),
                            ("value"@, ScalarView::Str(value@)),
                            ("exact_match"@, ScalarView::Bool(*exact_match)),
                        ),
                    ),
                    true,
                ),
            ],
        },
        Commands::Recover { command } => match command {
            RecoverCommands::Back { times } => Seq::new(
                *times as nat,
                |i: int| press_call("/api/press/back"@),
            ),
            RecoverCommands::Home => seq![press_call("/api/press/home"@)],
            RecoverCommands::Relaunch { package_name } => seq![
                press_call("/api/press/home"@),
                launch_call(package_name@),
            ],
        },
    }
}

/// The error for arguments a command refuses before it sends anything.
pub open spec fn precheck(cmd: &Commands) -> Option<CliErrorView> {
    match cmd {
        Commands::Act { command: ActCommands::Text { text } } => if text@.len() == 0 {
            Some(err_view(ErrorCode::InvalidParams, "text must not be empty"@))
        } else {
            None
        },
        Commands::Verify { command: VerifyCommands::TopActivity { mode, .. } } => if mode@
            != "contains"@ && mode@ != "equals"@ {
            Some(err_view(ErrorCode::InvalidParams, "mode must be contains or equals"@))
        } else {
            None
        },
        Commands::Verify { command: VerifyCommands::NodeExists { by, .. } } => if !is_node_field(
            lowercase(by@),
        ) {
            Some(
                err_view(
                    ErrorCode::InvalidParams,
                    "by must be one of: id,text,desc,class,resource_id"@,
                ),
            )
        } else {
            None
        },
        Commands::Recover { command: RecoverCommands::Back { times } } => if *times == 0 {
            Some(err_view(ErrorCode::InvalidParams, "times must be >= 1"@))
        } else {
            None
        },
        _ => None,
    }
}

// ---------------------------------------------------------------------------
// What each command reports.
// ---------------------------------------------------------------------------

/// The report of `preflight`.
pub open spec fn preflight_record(
    cfg: &RuntimeConfig,
    health: ScalarView,
    auth: Seq<char>,
    top: ScalarView,
) -> RecordView {
    fields6(
        ("baseUrl"@, ScalarView::Str(cfg.base_url@)),
        ("timeoutMs"@, ScalarView::UInt(cfg.timeout_ms)),
        ("tokenProvided"@, ScalarView::Bool(cfg.token is Some)),
        ("health"@, health),
        ("auth"@, ScalarView::Str(auth)),
        ("topActivity"@, top),
    )
}

/// The report of an input action.
pub open spec fn action_record(action: Seq<char>, result: Seq<char>) -> RecordView {
    fields2(("action"@, ScalarView::Str(action)), ("result"@, ScalarView::Str(result)))
}

/// Whether the screen text matches for `verify text-contains`.
pub open spec fn screen_matches(screen: Seq<char>, text: Seq<char>, ignore_case: bool) -> bool {
    if ignore_case {
        occurs_in(lowercase(text), lowercase(screen))
    } else {
        occurs_in(text, screen)
    }
}

/// Whether the top activity matches for `verify top-activity`.
pub open spec fn top_matches(top: Seq<char>, expected: Seq<char>, mode: Seq<char>) -> bool {
    if mode == "equals"@ {
        top == expected
    } else {
        occurs_in(expected, top)
    }
}

/// The answer of the node search when nothing matched.
pub open spec fn no_node_answer(found: Seq<char>) -> bool {
    "No nodes found"@.is_prefix_of(found)
}

/// The result of a `verify` command once the service answered `msg`.
pub open spec fn verify_result(cmd: &VerifyCommands, msg: Seq<char>) -> Result<
    RecordView,
    CliErrorView,
> {
    match cmd {
        VerifyCommands::TextContains { text, ignore_case } => if !screen_matches(
            msg,
            text@,
            *ignore_case,
        ) {
            Err(err_view(ErrorCode::AssertionFailed, "text not found in screen: "@ + text@))
        } else {
            Ok(
                fields3(
                    ("verify"@, ScalarView::Str("text-contains"@)),
                    ("matched"@, ScalarView::Bool(true)),
                    ("text"@, ScalarView::Str(text@)),
                ),
            )
        },
        VerifyCommands::TopActivity { expected, mode } => if !top_matches(
            msg,
            expected@,
            mode@,
        ) {
            Err(
                err_view(
                    ErrorCode::AssertionFailed,
                    "top activity mismatch: expected "@ + mode@ + " "@ + expected@ + ", got "@
                        + msg,
                ),
            )
        } else {
            Ok(
                fields5(
                    ("verify"@, ScalarView::Str("top-activity"@)),
                    ("matched"@, ScalarView::Bool(true)),
                    ("expected"@, ScalarView::Str(expected@)),
                    ("actual"@, ScalarView::Str(msg)),
                    ("mode"@, ScalarView::Str(mode@)),
                ),
            )
        },
        VerifyCommands::NodeExists { by, value, exact_match } => if no_node_answer(msg) {
            Err(
                err_view(
                    ErrorCode::AssertionFailed,
                    "node not found: by="@ + by@ + ", value="@ + value@,
                ),
            )
        } else {
            Ok(
                fields6(
                    ("verify"@, ScalarView::Str("node-exists"@)),
                    ("matched"@, ScalarView::Bool(true)),
                    ("by"@, ScalarView::Str(by@)),
                    ("value"@, ScalarView::Str(value@)),
                    ("exactMatch"@, ScalarView::Bool(*exact_match)),
                    ("resultText"@, ScalarView::Str(msg)),
                ),
            )
        },
    }
}

/// The result of a command whose requests all succeeded: `first` is the value
/// of the first request, `last` that of the last one (for an `/api` call, its
/// data as a string).
pub open spec fn success_result(
    cmd: &Commands,
    cfg: &RuntimeConfig,
    first: ScalarView,
    last: ScalarView,
) -> Result<RecordView, CliErrorView> {
    let msg = text_of(last);
    match cmd {
        Commands::Preflight => if cfg.token is Some {
            Ok(preflight_record(cfg, first, "ok"@, ScalarView::Str(msg)))
        } else {
            Ok(preflight_record(cfg, first, "skipped"@, ScalarView::Null))
        },
        Commands::Act { command } => match command {
            ActCommands::Tap { .. } => Ok(action_record("tap"@, msg)),
            ActCommands::Swipe { .. } => Ok(action_record("swipe"@, msg)),
            ActCommands::Back => Ok(action_record("back"@, msg)),
            ActCommands::Home => Ok(action_record("home"@, msg)),
            ActCommands::Text { .. } => Ok(action_record("text"@, msg)),
            ActCommands::Launch { .. } => Ok(action_record("launch"@, msg)),
            ActCommands::Stop { .. } => Ok(action_record("stop"@, msg)),
            ActCommands::Key { key_code } => Ok(
                fields3(
                    ("action"@, ScalarView::Str("key"@)),
                    ("keyCode"@, ScalarView::Int(*key_code as i64)),
                    ("result"@, ScalarView::Str(msg)),
                ),
            ),
        },
        Commands::Observe { command } => match command {
            ObserveCommands::Screen => Ok(
                fields2(
                    ("observation"@, ScalarView::Str("screen"@)),
                    ("screen"@, ScalarView::Str(msg)),
                ),
            ),
            ObserveCommands::Screenshot { max_dim, quality } => Ok(
                fields4(
                    ("observation"@, ScalarView::Str("screenshot"@)),
                    ("screenshotBase64"@, ScalarView::Str(msg)),
                    ("maxDim"@, ScalarView::Int(*max_dim)),
                    ("quality"@, ScalarView::Int(*quality)),
                ),
            ),
            ObserveCommands::Top => Ok(
                fields2(
                    ("observation"@, ScalarView::Str("top"@)),
                    ("topActivity"@, ScalarView::Str(msg)),
                ),
            ),
        },
        Commands::Verify { command } => verify_result(command, msg),
        Commands::Recover { command } => match command {
            RecoverCommands::Back { times } => Ok(
                fields2(
                    ("recover"@, ScalarView::Str("back"@)),
                    ("times"@, ScalarView::UInt(*times as u64)),
                ),
            ),
            RecoverCommands::Home => Ok(seq![("recover"@, ScalarView::Str("home"@))]),
            RecoverCommands::Relaunch { package_name } => Ok(
                fields3(
                    ("recover"@, ScalarView::Str("relaunch"@)),
                    ("packageName"@, ScalarView::Str(package_name@)),
                    ("launchResult"@, ScalarView::Str(msg)),
                ),
            ),
        },
    }
}

/// The result of a command whose request number `k` (from 0) failed with
/// `e`: the error itself, except that `preflight` reports a refused token as
/// `unauthorized` rather than failing.
pub open spec fn error_result(
    cmd: &Commands,
    cfg: &RuntimeConfig,
    k: nat,
    first: ScalarView,
    e: CliErrorView,
) -> Result<RecordView, CliErrorView> {
    if cmd is Preflight && k == 1 && e.code == ErrorCode::AuthError {
        Ok(preflight_record(cfg, first, "unauthorized"@, ScalarView::Null))
    } else {
        Err(e)
    }
}

// ---------------------------------------------------------------------------
// Running a command step by step.
// ---------------------------------------------------------------------------

/// The answer to a request: its value, and that value read as an `/api`
/// envelope (`None` when it is none).
#[derive(Debug)]
pub struct ApiReply {
    pub value: Scalar,
    pub envelope: Option<ApiEnvelope>,
}

/// What a call yields from its answer: the envelope's data for an `/api`
/// call, the value itself otherwise.
pub open spec fn call_outcome(call: ApiCallView, reply: Result<ApiReply, CliError>) -> Result<
    ScalarView,
    CliErrorView,
> {
    match reply {
        Err(e) => Err(e@),
        Ok(r) => if call.api {
            match envelope_result(call.path, r.envelope) {
                Ok(d) => Ok(ScalarView::Str(d)),
                Err(e) => Err(e),
            }
        } else {
            Ok(r.value@)
        },
    }
}

/// Where a command run stands.
#[derive(Debug)]
pub struct RunState {
    /// How many requests have been answered.
    pub done: u64,
    /// The value of the first request, once it is answered.
    pub first: Scalar,
}

/// The next thing a command run does.
#[derive(Debug)]
pub enum Action {
    /// Send this request and hand its answer to `advance_command`.
    Call(ApiCall),
    /// The run is over, with this result.
    Finish(Result<Record, CliError>),
}

/// The mathematical content of an `Action`.
pub enum ActionView {
    Call(ApiCallView),
    Finish(Result<RecordView, CliErrorView>),
}

impl View for Action {
    type V = ActionView;

    open spec fn view(&self) -> ActionView {
        match self {
            Action::Call(c) => ActionView::Call(c@),
            Action::Finish(Ok(r)) => ActionView::Finish(Ok(r@)),
            Action::Finish(Err(e)) => ActionView::Finish(Err(e@)),
        }
    }
}

fn make_call(method: HttpMethod, path: &str, body: Option<Record>, api: bool) -> (c: ApiCall)
    ensures
        c@ == call_view(method, path@, match body {
            Some(b) => Some(b@),
            None => None,
        }, api),
{
    ApiCall { method, path: String::from_str(path), body, api }
}

fn press(path: &str) -> (c: ApiCall)
    ensures
        c@ == press_call(path@),
{
    make_call(HttpMethod::Post, path, Some(Record::new()), true)
}

fn read(path: &str) -> (c: ApiCall)
    ensures
        c@ == read_call(path@),
{
    make_call(HttpMethod::Get, path, None, true)
}

fn one_field(key: &str, value: Scalar) -> (r: Record)
    ensures
        r@ == seq![(key@, value@)],
{
    let mut r = Record::new();
    r.put(key, value);
    r
}

fn launch(package_name: &String) -> (c: ApiCall)
    ensures
        c@ == launch_call(package_name@),
{
    make_call(
        HttpMethod::Post,
        "/api/app/launch",
        Some(one_field("package_name", Scalar::Str(package_name.clone()))),
        true,
    )
}

/// The number of requests `cmd` makes when all succeed.
pub fn planned_count(cmd: &Commands, token: bool) -> (n: u64)
    ensures
        n == planned_calls(cmd, token).len(),
{
    match cmd {
        Commands::Preflight => if token {
            2
        } else {
            1
        },
        Commands::Recover { command: RecoverCommands::Back { times } } => *times as u64,
        Commands::Recover { command: RecoverCommands::Relaunch { .. } } => 2,
        _ => 1,
    }
}

/// Request number `k` of `cmd`.
pub fn planned_call(cmd: &Commands, token: bool, k: u64) -> (c: ApiCall)
    requires
        k < planned_calls(cmd, token).len(),
    ensures
        c@ == planned_calls(cmd, token)[k as int],
{
    match cmd {
        Commands::Preflight => if k == 0 {
            make_call(HttpMethod::Get, "/health", None, false)
        } else {
            read("/api/app/top")
        },
        Commands::Act { command } => match command {
            ActCommands::Tap { x, y } => {
                let mut b = Record::new();
                b.put("x", Scalar::Float(*x));
                b.put("y", Scalar::Float(*y));
                make_call(HttpMethod::Post, "/api/tap", Some(b), true)
            },
            ActCommands::Swipe { x1, y1, x2, y2, duration } => {
                let mut b = Record::new();
                b.put("x1", Scalar::Float(*x1));
                b.put("y1", Scalar::Float(*y1));
                b.put("x2", Scalar::Float(*x2));
                b.put("y2", Scalar::Float(*y2));
                b.put("duration", Scalar::Int(*duration));
                make_call(HttpMethod::Post, "/api/swipe", Some(b), true)
            },
            ActCommands::Back => press("/api/press/back"),
            ActCommands::Home => press("/api/press/home"),
            ActCommands::Text { text } => make_call(
                HttpMethod::Post,
                "/api/text",
                Some(one_field("text", Scalar::Str(text.clone()))),
                true,
            ),
            ActCommands::Launch { package_name } => launch(package_name),
            ActCommands::Stop { package_name } => make_call(
                HttpMethod::Post,
                "/api/app/stop",
                Some(one_field("package_name", Scalar::Str(package_name.clone()))),
                true,
            ),
            ActCommands::Key { key_code } => make_call(
                HttpMethod::Post,
                "/api/press/key",
                Some(one_field("key_code", Scalar::Int(*key_code as i64))),
                true,
            ),
        },
        Commands::Observe { command } => match command {
            ObserveCommands::Screen => read("/api/screen"),
            ObserveCommands::Screenshot { max_dim, quality } => {
                let mut path = String::from_str("/api/screenshot?max_dim=");
                push_signed_decimal(&mut path, *max_dim);
                path.append("&quality=");
                push_signed_decimal(&mut path, *quality);
                ApiCall { method: HttpMethod::Get, path, body: None, api: true }
            },
            ObserveCommands::Top => read("/api/app/top"),
        },
        Commands::Verify { command } => match command {
            VerifyCommands::TextContains { .. } => read("/api/screen"),
            VerifyCommands::TopActivity { .. } => read("/api/app/top"),
            VerifyCommands::NodeExists { by, value, exact_match } => {
                let mut b = Record::new();
                b.put("by", Scalar::Str(to_lowercase(by.as_str())));
                b.put("value", Scalar::Str(value.clone()));
                b.put("exact_match", Scalar::Bool(*exact_match));
                make_call(HttpMethod::Post, "/api/nodes/find", Some(b), true)
            },
        },
        Commands::Recover { command } => match command {
            RecoverCommands::Back { .. } => press("/api/press/back"),
            RecoverCommands::Home => press("/api/press/home"),
            RecoverCommands::Relaunch { package_name } => if k == 0 {
                press("/api/press/home")
            } else {
                launch(package_name)
            },
        },
    }
}

/// The content of an optional error.
pub open spec fn opt_error_view(e: Option<CliError>) -> Option<CliErrorView> {
    match e {
        Some(x) => Some(x@),
        None => None,
    }
}

/// The error for arguments that `cmd` refuses, if any.
pub fn check_arguments(cmd: &Commands) -> (r: Option<CliError>)
    ensures
        opt_error_view(r) == precheck(cmd),
{
    match cmd {
        Commands::Act { command: ActCommands::Text { text } } => if text.as_str().is_empty() {
            Some(CliError::with_text(ErrorCode::InvalidParams, "text must not be empty"))
        } else {
            None
        },
        Commands::Verify { command: VerifyCommands::TopActivity { mode, .. } } => if !same_text(
            mode.as_str(),
            "contains",
        ) && !same_text(mode.as_str(), "equals") {
            Some(CliError::with_text(ErrorCode::InvalidParams, "mode must be contains or equals"))
        } else {
            None
        },
        Commands::Verify { command: VerifyCommands::NodeExists { by, .. } } => {
            let by_norm = to_lowercase(by.as_str());
            let b = by_norm.as_str();
            if !(same_text(b, "id") || same_text(b, "text") || same_text(b, "desc") || same_text(
                b,
                "class",
            ) || same_text(b, "resource_id")) {
                Some(
                    CliError::with_text(
                        ErrorCode::InvalidParams,
                        "by must be one of: id,text,desc,class,resource_id",
                    ),
                )
            } else {
                None
            }
        },
        Commands::Recover { command: RecoverCommands::Back { times } } => if *times == 0 {
            Some(CliError::with_text(ErrorCode::InvalidParams, "times must be >= 1"))
        } else {
            None
        },
        _ => None,
    }
}

/// The text of a string value; empty for other values.
fn text_value(v: &Scalar) -> (r: String)
    ensures
        r@ == text_of(v@),
{
    match v {
        Scalar::Str(s) => s.clone(),
        _ => String::new(),
    }
}

/// The content of a result whose value is a record.
pub open spec fn record_result_view(r: Result<Record, CliError>) -> Result<
    RecordView,
    CliErrorView,
> {
    match r {
        Ok(x) => Ok(x@),
        Err(e) => Err(e@),
    }
}

fn preflight_report(cfg: &RuntimeConfig, health: &Scalar, auth: &str, top: Scalar) -> (r: Record)
    ensures
        r@ == preflight_record(cfg, health@, auth@, top@),
{
    let mut r = Record::new();
    r.put("baseUrl", Scalar::Str(cfg.base_url.clone()));
    r.put("timeoutMs", Scalar::UInt(cfg.timeout_ms));
    r.put("tokenProvided", Scalar::Bool(cfg.token.is_some()));
    r.put("health", health.clone());
    r.put_text("auth", auth);
    r.put("topActivity", top);
    r
}

fn action_report(action: &str, result: String) -> (r: Record)
    ensures
        r@ == action_record(action@, result@),
{
    let mut r = Record::new();
    r.put_text("action", action);
    r.put("result", Scalar::Str(result));
    r
}

fn finish_verify(cmd: &VerifyCommands, msg: String) -> (r: Result<Record, CliError>)
    ensures
        record_result_view(r) == verify_result(cmd, msg@),
{
    match cmd {
        VerifyCommands::TextContains { text, ignore_case } => {
            let matched = if *ignore_case {
                let screen_lower = to_lowercase(msg.as_str());
                let text_lower = to_lowercase(text.as_str());
                contains(screen_lower.as_str(), text_lower.as_str())
            } else {
                contains(msg.as_str(), text.as_str())
            };
            if !matched {
                let mut m = String::from_str("text not found in screen: ");
                m.append(text.as_str());
                return Err(CliError::new(ErrorCode::AssertionFailed, m));
            }
            let mut r = Record::new();
            r.put_text("verify", "text-contains");
            r.put("matched", Scalar::Bool(matched));
            r.put("text", Scalar::Str(text.clone()));
            Ok(r)
        },
        VerifyCommands::TopActivity { expected, mode } => {
            let matched = if same_text(mode.as_str(), "equals") {
                same_text(msg.as_str(), expected.as_str())
            } else {
                contains(msg.as_str(), expected.as_str())
            };
            if !matched {
                let mut m = String::from_str("top activity mismatch: expected ");
                m.append(mode.as_str());
                m.append(" ");
                m.append(expected.as_str());
                m.append(", got ");
                m.append(msg.as_str());
                return Err(CliError::new(ErrorCode::AssertionFailed, m));
            }
            let mut r = Record::new();
            r.put_text("verify", "top-activity");
            r.put("matched", Scalar::Bool(matched));
            r.put("expected", Scalar::Str(expected.clone()));
            r.put("actual", Scalar::Str(msg));
            r.put("mode", Scalar::Str(mode.clone()));
            Ok(r)
        },
        VerifyCommands::NodeExists { by, value, exact_match } => {
            if starts_with(msg.as_str(), "No nodes found") {
                let mut m = String::from_str("node not found: by=");
                m.append(by.as_str());
                m.append(", value=");
                m.append(value.as_str());
                return Err(CliError::new(ErrorCode::AssertionFailed, m));
            }
            let mut r = Record::new();
            r.put_text("verify", "node-exists");
            r.put("matched", Scalar::Bool(true));
            r.put("by", Scalar::Str(by.clone()));
            r.put("value", Scalar::Str(value.clone()));
            r.put("exactMatch", Scalar::Bool(*exact_match));
            r.put("resultText", Scalar::Str(msg));
            Ok(r)
        },
    }
}

/// The result of a command whose requests all succeeded, from the values of
/// its first and last requests.
fn finish_command(cmd: &Commands, cfg: &RuntimeConfig, first: &Scalar, last: &Scalar) -> (r: Result<
    Record,
    CliError,
>)
    ensures
        record_result_view(r) == success_result(cmd, cfg, first@, last@),
{
    let msg = text_value(last);
    match cmd {
        Commands::Preflight => if cfg.token.is_some() {
            Ok(preflight_report(cfg, first, "ok", Scalar::Str(msg)))
        } else {
            Ok(preflight_report(cfg, first, "skipped", Scalar::Null))
        },
        Commands::Act { command } => match command {
            ActCommands::Tap { .. } => Ok(action_report("tap", msg)),
            ActCommands::Swipe { .. } => Ok(action_report("swipe", msg)),
            ActCommands::Back => Ok(action_report("back", msg)),
            ActCommands::Home => Ok(action_report("home", msg)),
            ActCommands::Text { .. } => Ok(action_report("text", msg)),
            ActCommands::Launch { .. } => Ok(action_report("launch", msg)),
            ActCommands::Stop { .. } => Ok(action_report("stop", msg)),
            ActCommands::Key { key_code } => {
                let mut r = Record::new();
                r.put_text("action", "key");
                r.put("keyCode", Scalar::Int(*key_code as i64));
                r.put("result", Scalar::Str(msg));
                Ok(r)
            },
        },
        Commands::Observe { command } => match command {
            ObserveCommands::Screen => {
                let mut r = Record::new();
                r.put_text("observation", "screen");
                r.put("screen", Scalar::Str(msg));
                Ok(r)
            },
            ObserveCommands::Screenshot { max_dim, quality } => {
                let mut r = Record::new();
                r.put_text("observation", "screenshot");
                r.put("screenshotBase64", Scalar::Str(msg));
                r.put("maxDim", Scalar::Int(*max_dim));
                r.put("quality", Scalar::Int(*quality));
                Ok(r)
            },
            ObserveCommands::Top => {
                let mut r = Record::new();
                r.put_text("observation", "top");
                r.put("topActivity", Scalar::Str(msg));
                Ok(r)
            },
        },
        Commands::Verify { command } => finish_verify(command, msg),
        Commands::Recover { command } => match command {
            RecoverCommands::Back { times } => {
                let mut r = Record::new();
                r.put_text("recover", "back");
                r.put("times", Scalar::UInt(*times as u64));
                Ok(r)
            },
            RecoverCommands::Home => {
                let mut r = Record::new();
                r.put_text("recover", "home");
                Ok(r)
            },
            RecoverCommands::Relaunch { package_name } => {
                let mut r = Record::new();
                r.put_text("recover", "relaunch");
                r.put("packageName", Scalar::Str(package_name.clone()));
                r.put("launchResult", Scalar::Str(msg));
                Ok(r)
            },
        },
    }
}

/// The value a call yields from its answer.
fn outcome_of(call: &ApiCall, reply: Result<ApiReply, CliError>) -> (r: Result<Scalar, CliError>)
    ensures
        crate::http::scalar_result_view(r) == call_outcome(call@, reply),
{
    match reply {
        Err(e) => Err(e),
        Ok(rep) => if call.api {
            match unwrap_envelope(call.path.as_str(), rep.envelope) {
                Ok(d) => Ok(Scalar::Str(d)),
                Err(e) => Err(e),
            }
        } else {
            Ok(rep.value)
        },
    }
}

/// The next action of a run, as a view.
pub open spec fn first_action(cmd: &Commands, token: bool) -> ActionView {
    match precheck(cmd) {
        Some(e) => ActionView::Finish(Err(e)),
        None => ActionView::Call(planned_calls(cmd, token)[0]),
    }
}

/// Starts `cmd`: refuses its arguments, or gives its first request. Every
/// command whose arguments pass makes at least one request.
pub fn start_command(cmd: &Commands, cfg: &RuntimeConfig) -> (r: (RunState, Action))
    ensures
        r.0.done == 0,
        r.1@ == first_action(cmd, cfg.token is Some),
        precheck(cmd) is None ==> planned_calls(cmd, cfg.token is Some).len() >= 1,
{
    let st = RunState { done: 0, first: Scalar::Null };
    match check_arguments(cmd) {
        Some(e) => (st, Action::Finish(Err(e))),
        None => (st, Action::Call(planned_call(cmd, cfg.token.is_some(), 0))),
    }
}

/// What a run does after the answer `reply` to its request number
/// `state.done`: on failure it ends (with the error, or for `preflight` with
/// a refused token, with its report); otherwise it makes the next planned
/// request, or ends with the command's report after the last one.
pub open spec fn next_step(
    cmd: &Commands,
    cfg: &RuntimeConfig,
    state: &RunState,
    reply: Result<ApiReply, CliError>,
    next: &RunState,
    action: ActionView,
) -> bool {
    let calls = planned_calls(cmd, cfg.token is Some);
    let k = state.done as nat;
    match call_outcome(calls[k as int], reply) {
        Err(e) => next.done == state.done && action == ActionView::Finish(
            error_result(cmd, cfg, k, state.first@, e),
        ),
        Ok(v) => {
            let first = if k == 0 {
                v
            } else {
                state.first@
            };
            &&& next.done == k + 1
            &&& next.first@ == first
            &&& action == if k + 1 < calls.len() {
                ActionView::Call(calls[(k + 1) as int])
            } else {
                ActionView::Finish(success_result(cmd, cfg, first, v))
            }
        },
    }
}

/// Hands the answer to the last request of a run to the run.
pub fn advance_command(
    cmd: &Commands,
    cfg: &RuntimeConfig,
    state: RunState,
    reply: Result<ApiReply, CliError>,
) -> (r: (RunState, Action))
    requires
        state.done < planned_calls(cmd, cfg.token is Some).len(),
    ensures
        next_step(cmd, cfg, &state, reply, &r.0, r.1@),
{
    let token = cfg.token.is_some();
    let n = planned_count(cmd, token);
    let k = state.done;
    let call = planned_call(cmd, token, k);
    match outcome_of(&call, reply) {
        Err(e) => {
            if k == 1 && e.code == ErrorCode::AuthError {
                if let Commands::Preflight = cmd {
                    let rep = preflight_report(cfg, &state.first, "unauthorized", Scalar::Null);
                    return (state, Action::Finish(Ok(rep)));
                }
            }
            (state, Action::Finish(Err(e)))
        },
        Ok(v) => {
            let first = if k == 0 {
                v.clone()
            } else {
                state.first
            };
            let done = k + 1;
            if done < n {
                let call = planned_call(cmd, token, done);
                (RunState { done, first }, Action::Call(call))
            } else {
                let result = finish_command(cmd, cfg, &first, &v);
                (RunState { done, first }, Action::Finish(result))
            }
        },
    }
}

/// The name of a command in the logs and its arguments as logged.
pub open spec fn spec_command_meta(cmd: &Commands) -> (Seq<char>, RecordView) {
    match cmd {
        Commands::Preflight => ("preflight"@, Seq::empty()),
        Commands::Act { command } => match command {
            ActCommands::Tap { x, y } => (
                "act:tap"@,
                fields2(("x"@, ScalarView::Float(*x)), ("y"@, ScalarView::Float(*y))),
            ),
            ActCommands::Swipe { x1, y1, x2, y2, duration } => (
                "act:swipe"@,
                fields5(
                    ("x1"@, ScalarView::Float(*x1)),
                    ("y1"@, ScalarView::Float(*y1)),
                    ("x2"@, ScalarView::Float(*x2)),
                    ("y2"@, ScalarView::Float(*y2)),
                    ("duration"@, ScalarView::Int(*duration)),
                ),
            ),
            ActCommands::Back => ("act:back"@, Seq::empty()),
            ActCommands::Home => ("act:home"@, Seq::empty()),
            ActCommands::Text { text } => ("act:text"@, seq![("text"@, ScalarView::Str(text@))]),
            ActCommands::Launch { package_name } => (
                "act:launch"@,
                seq![("package"@, ScalarView::Str(package_name@))],
            ),
            ActCommands::Stop { package_name } => (
                "act:stop"@,
                seq![("package"@, ScalarView::Str(package_name@))],
            ),
            ActCommands::Key { key_code } => (
                "act:key"@,
                seq![("keyCode"@, ScalarView::Int(*key_code as i64))],
            ),
        },
        Commands::Observe { command } => match command {
            ObserveCommands::Screen => ("observe:screen"@, Seq::empty()),
            ObserveCommands::Screenshot { max_dim, quality } => (
                "observe:screenshot"@,
                fields2(
                    ("maxDim"@, ScalarView::Int(*max_dim)),
                    ("quality"@, ScalarView::Int(*quality)),
                ),
            ),
            ObserveCommands::Top => ("observe:top"@, Seq::empty()),
        },
        Commands::Verify { command } => match command {
            VerifyCommands::TextContains { text, ignore_case } => (
                "verify:text-contains"@,
                fields2(
                    ("text"@, ScalarView::Str(text@)),
                    ("ignoreCase"@, ScalarView::Bool(*ignore_case)),
                ),
            ),
            VerifyCommands::TopActivity { expected, mode } => (
                "verify:top-activity"@,
                fields2(
                    ("expected"@, ScalarView::Str(expected@)),
                    ("mode"@, ScalarView::Str(mode@)),
                ),
            ),
            VerifyCommands::NodeExists { by, value, exact_match } => (
                "verify:node-exists"@,
                fields3(
                    ("by"@, ScalarView::Str(by@)),
                    ("value"@, ScalarView::Str(value@)),
                    ("exactMatch"@, ScalarView::Bool(*exact_match)),
                ),
            ),
        },
        Commands::Recover { command } => match command {
            RecoverCommands::Back { times } => (
                "recover:back"@,
                seq![("times"@, ScalarView::UInt(*times as u64))],
            ),
            RecoverCommands::Home => ("recover:home"@, Seq::empty()),
            RecoverCommands::Relaunch { package_name } => (
                "recover:relaunch"@,
                seq![("package"@, ScalarView::Str(package_name@))],
            ),
        },
    }
}

/// The name of `cmd` and its arguments, as the session log records them.
pub fn command_meta(cmd: &Commands) -> (r: (&'static str, Record))
    ensures
        (r.0@, r.1@) == spec_command_meta(cmd),
{
    let mut args = Record::new();
    let name = match cmd {
        Commands::Preflight => "preflight",
        Commands::Act { command } => match command {
            ActCommands::Tap { x, y } => {
                args.put("x", Scalar::Float(*x));
                args.put("y", Scalar::Float(*y));
                "act:tap"
            },
            ActCommands::Swipe { x1, y1, x2, y2, duration } => {
                args.put("x1", Scalar::Float(*x1));
                args.put("y1", Scalar::Float(*y1));
                args.put("x2", Scalar::Float(*x2));
                args.put("y2", Scalar::Float(*y2));
                args.put("duration", Scalar::Int(*duration));
                "act:swipe"
            },
            ActCommands::Back => "act:back",
            ActCommands::Home => "act:home",
            ActCommands::Text { text } => {
                args.put("text", Scalar::Str(text.clone()));
                "act:text"
            },
            ActCommands::Launch { package_name } => {
                args.put("package", Scalar::Str(package_name.clone()));
                "act:launch"
            },
            ActCommands::Stop { package_name } => {
                args.put("package", Scalar::Str(package_name.clone()));
                "act:stop"
            },
            ActCommands::Key { key_code } => {
                args.put("keyCode", Scalar::Int(*key_code as i64));
                "act:key"
            },
        },
        Commands::Observe { command } => match command {
            ObserveCommands::Screen => "observe:screen",
            ObserveCommands::Screenshot { max_dim, quality } => {
                args.put("maxDim", Scalar::Int(*max_dim));
                args.put("quality", Scalar::Int(*quality));
                "observe:screenshot"
            },
            ObserveCommands::Top => "observe:top",
        },
        Commands::Verify { command } => match command {
            VerifyCommands::TextContains { text, ignore_case } => {
                args.put("text", Scalar::Str(text.clone()));
                args.put("ignoreCase", Scalar::Bool(*ignore_case));
                "verify:text-contains"
            },
            VerifyCommands::TopActivity { expected, mode } => {
                args.put("expected", Scalar::Str(expected.clone()));
                args.put("mode", Scalar::Str(mode.clone()));
                "verify:top-activity"
            },
            VerifyCommands::NodeExists { by, value, exact_match } => {
                args.put("by", Scalar::Str(by.clone()));
                args.put("value", Scalar::Str(value.clone()));
                args.put("exactMatch", Scalar::Bool(*exact_match));
                "verify:node-exists"
            },
        },
        Commands::Recover { command } => match command {
            RecoverCommands::Back { times } => {
                args.put("times", Scalar::UInt(*times as u64));
                "recover:back"
            },
            RecoverCommands::Home => "recover:home",
            RecoverCommands::Relaunch { package_name } => {
                args.put("package", Scalar::Str(package_name.clone()));
                "recover:relaunch"
            },
        },
    };
    (name, args)
}

/// `recover back --times n` with `n >= 1` presses back exactly `n` times,
/// whether or not a token is configured.
pub proof fn lemma_recover_back_presses_back_n_times(times: u32, token: bool)
    requires
        times >= 1,
    ensures
        precheck(&Commands::Recover { command: RecoverCommands::Back { times } }) is None,
        planned_calls(&Commands::Recover { command: RecoverCommands::Back { times } }, token).len()
            == times,
        forall|i: int|
            0 <= i < times ==> #[trigger] planned_calls(
                &Commands::Recover { command: RecoverCommands::Back { times } },
                token,
            )[i] == press_call("/api/press/back"@),
{
}

/// Every command but `preflight` talks only to the `/api` endpoints, which
/// need the token; `preflight` first checks `/health`, which needs none, and
/// asks `/api/app/top` only when a token is configured. Apart from that the
/// requests of a command do not depend on the token.
pub proof fn lemma_only_preflight_runs_without_token(cmd: &Commands)
    ensures
        !(cmd is Preflight) ==> planned_calls(cmd, false) == planned_calls(cmd, true),
        !(cmd is Preflight) ==> forall|i: int|
            0 <= i < planned_calls(cmd, false).len() ==> (#[trigger] planned_calls(
                cmd,
                false,
            )[i]).api,
        cmd is Preflight ==> planned_calls(cmd, false) == seq![health_call()],
        cmd is Preflight ==> !health_call().api,
{
    match cmd {
        Commands::Recover { command: RecoverCommands::Back { times } } => {
            assert(planned_calls(cmd, false) =~= planned_calls(cmd, true));
        },
        _ => {},
    }
}

/// A command whose arguments pass its checks makes at least one request and
/// at most two, except `recover back`, which makes as many as it is told.
pub proof fn lemma_requests_per_command(cmd: &Commands, token: bool)
    requires
        precheck(cmd) is None,
    ensures
        1 <= planned_calls(cmd, token).len(),
        !(cmd matches Commands::Recover { command: RecoverCommands::Back { .. } })
            ==> planned_calls(cmd, token).len() <= 2,
{
}

} // verus!
