//! What a run leaves behind: the JSON line on standard output, the exit
//! status, and the files of the session log.

use vstd::prelude::*;
use vstd::string::StringExecFns;

use crate::commands::{spec_command_meta, command_meta, record_result_view, Commands};
use crate::errors::{exit_code, spec_exit_code, CliError, CliErrorView, ErrorCode};
use crate::http::RuntimeConfig;
use crate::proxy::spec_proxy_mode_name;
use crate::record::{fields5, Record, RecordView, Scalar, ScalarView};
use crate::text::chars_of;

verus! {

/// The line printed for a finished command.
#[derive(Debug)]
pub struct CliResult {
    pub ok: bool,
    pub code: ErrorCode,
    pub command: String,
    pub data: Option<Record>,
    pub error: Option<String>,
    pub timestamp: String,
}

/// The code a result reports.
pub open spec fn reported_code(result: Result<RecordView, CliErrorView>) -> ErrorCode {
    match result {
        Ok(_) => ErrorCode::Success,
        Err(e) => e.code,
    }
}

/// The exit status a result ends the process with.
pub open spec fn spec_exit_status(result: Result<RecordView, CliErrorView>) -> i32 {
    match result {
        Ok(_) => 0,
        Err(e) => spec_exit_code(e.code),
    }
}

/// The output line for `command` finished with `result` at `timestamp`: the
/// data on success, the code and message otherwise.
pub fn cli_result(command: &str, result: &Result<Record, CliError>, timestamp: String) -> (r:
    CliResult)
    ensures
        r.ok == result is Ok,
        r.code == reported_code(record_result_view(*result)),
        r.command@ == command@,
        r.timestamp@ == timestamp@,
        match *result {
            Ok(d) => r.data matches Some(x) && x@ == d@ && r.error is None,
            Err(e) => r.data is None && (r.error matches Some(m) && m@ == e.message@),
        },
{
    match result {
        Ok(d) => CliResult {
            ok: true,
            code: ErrorCode::Success,
            command: String::from_str(command),
            data: Some(d.clone()),
            error: None,
            timestamp,
        },
        Err(e) => CliResult {
            ok: false,
            code: e.code,
            command: String::from_str(command),
            data: None,
            error: Some(e.message.clone()),
            timestamp,
        },
    }
}

/// The exit status for a finished command: 0 on success, else the status of
/// its error code.
pub fn exit_status(result: &Result<Record, CliError>) -> (r: i32)
    ensures
        r == spec_exit_status(record_result_view(*result)),
{
    match result {
        Ok(_) => 0,
        Err(e) => exit_code(e.code),
    }
}

/// The output line, the exit status and the reported code agree: the line
/// says `ok` exactly when the code is `OK` and the process exits with 0. An
/// error whose code is `OK` is the one case left out; no command makes one.
pub proof fn lemma_output_agrees_with_exit_status(result: Result<RecordView, CliErrorView>)
    requires
        result matches Err(e) ==> e.code != ErrorCode::Success,
    ensures
        (result is Ok) <==> reported_code(result) == ErrorCode::Success,
        (result is Ok) <==> spec_exit_status(result) == 0,
        spec_exit_status(result) == spec_exit_code(reported_code(result)),
{
}

/// A file of the session log.
#[derive(Debug)]
pub enum SessionPayload {
    /// The command as it was asked, before it runs.
    Input { command: String, args: Record, options: Record, timestamp: String },
    /// The report of a command that succeeded.
    Output { command: String, result: Record, timestamp: String },
    /// The error of a command that failed.
    Error { command: String, error: String, code: ErrorCode, timestamp: String },
}

/// The options as the session log records them; the token itself is never
/// written, only `***` in its place.
pub open spec fn logged_options(cfg: &RuntimeConfig) -> RecordView {
    fields5(
        ("baseUrl"@, ScalarView::Str(cfg.base_url@)),
        ("timeoutMs"@, ScalarView::UInt(cfg.timeout_ms)),
        ("proxyMode"@, ScalarView::Str(spec_proxy_mode_name(cfg.proxy_mode))),
        ("sessionId"@, ScalarView::Str(cfg.session@)),
        (
            "token"@,
            if cfg.token is Some {
                ScalarView::Str("***"@)
            } else {
                ScalarView::Null
            },
        ),
    )
}

/// The input record of a command: its name, its arguments and the options.
pub fn input_payload(cmd: &Commands, cfg: &RuntimeConfig, timestamp: String) -> (r: SessionPayload)
    ensures
        r matches SessionPayload::Input { command, args, options, timestamp: t } && (
            command@,
            args@,
        ) == spec_command_meta(cmd) && options@ == logged_options(cfg) && t@ == timestamp@,
{
    let (name, args) = command_meta(cmd);
    let mut options = Record::new();
    options.put("baseUrl", Scalar::Str(cfg.base_url.clone()));
    options.put("timeoutMs", Scalar::UInt(cfg.timeout_ms));
    options.put_text("proxyMode", cfg.proxy_mode.as_str());
    options.put("sessionId", Scalar::Str(cfg.session.clone()));
    if cfg.token.is_some() {
        options.put_text("token", "***");
    } else {
        options.put("token", Scalar::Null);
    }
    SessionPayload::Input { command: String::from_str(name), args, options, timestamp }
}

/// The session record of a finished command: its report, or its error and
/// code.
pub fn result_payload(command: &str, result: &Result<Record, CliError>, timestamp: String) -> (r:
    SessionPayload)
    ensures
        match *result {
            Ok(d) => r matches SessionPayload::Output { command: c, result: x, timestamp: t } && c@
                == command@ && x@ == d@ && t@ == timestamp@,
            Err(e) => r matches SessionPayload::Error { command: c, error: m, code, timestamp: t }
                && c@ == command@ && m@ == e.message@ && code == e.code && t@ == timestamp@,
        },
{
    match result {
        Ok(d) => SessionPayload::Output {
            command: String::from_str(command),
            result: d.clone(),
            timestamp,
        },
        Err(e) => SessionPayload::Error {
            command: String::from_str(command),
            error: e.message.clone(),
            code: e.code,
            timestamp,
        },
    }
}

/// The phase under which the session log files the record of a finished
/// command.
pub open spec fn spec_session_phase(result: Result<RecordView, CliErrorView>) -> Seq<char> {
    match result {
        Ok(_) => "output"@,
        Err(_) => "error"@,
    }
}

/// `output` for a command that succeeded, `error` for one that failed.
pub fn session_phase(result: &Result<Record, CliError>) -> (r: &'static str)
    ensures
        r@ == spec_session_phase(record_result_view(*result)),
{
    match result {
        Ok(_) => "output",
        Err(_) => "error",
    }
}

/// A letter or digit of ASCII.
pub open spec fn is_ascii_alnum(c: char) -> bool {
    ||| '0' <= c <= '9'
    ||| 'a' <= c <= 'z'
    ||| 'A' <= c <= 'Z'
}

/// The characters a log file name keeps as they are.
pub open spec fn is_name_char(c: char) -> bool {
    is_ascii_alnum(c) || c == ':' || c == '_' || c == '-'
}

/// A character as it appears in a log file name: itself, or `_`.
pub open spec fn name_char(c: char) -> char {
    if is_name_char(c) {
        c
    } else {
        '_'
    }
}

/// `s` with every character outside letters, digits, `:`, `_` and `-`
/// replaced by `_`.
pub open spec fn sanitized(s: Seq<char>) -> Seq<char> {
    s.map_values(|c: char| name_char(c))
}

/// Makes a command name safe for a file name.
pub fn sanitize(raw: &str) -> (r: String)
    ensures
        r@ == sanitized(raw@),
{
    let v = chars_of(raw);
    let mut r = String::new();
    let n: usize = v.len();
    let mut i: usize = 0;
    while i < n
        invariant
            n == v@.len(),
            v@ == raw@,
            i <= n,
            r@ == sanitized(v@.take(i as int)),
        decreases n - i,
    {
        let c = v[i];
        let keep = ('0' <= c && c <= '9') || ('a' <= c && c <= 'z') || ('A' <= c && c <= 'Z') || c
            == ':' || c == '_' || c == '-';
        r.push(
            if keep {
                c
            } else {
                '_'
            },
        );
        proof {
            assert(sanitized(v@.take(i + 1)) =~= sanitized(v@.take(i as int)).push(name_char(c)));
        }
        i = i + 1;
    }
    proof {
        assert(v@.take(n as int) =~= v@);
    }
    r
}

/// A sanitised name holds only letters, digits, `:`, `_` and `-`, has the
/// length of the original, and sanitising it again changes nothing.
pub proof fn lemma_sanitize_is_safe_and_idempotent(s: Seq<char>)
    ensures
        sanitized(s).len() == s.len(),
        forall|i: int| 0 <= i < s.len() ==> is_name_char(#[trigger] sanitized(s)[i]),
        sanitized(sanitized(s)) == sanitized(s),
{
    assert(sanitized(sanitized(s)) =~= sanitized(s));
}

/// A timestamp with `:` and `.` turned into `-`.
pub open spec fn dashed(s: Seq<char>) -> Seq<char> {
    s.map_values(|c: char| if c == ':' || c == '.' { '-' } else { c })
}

/// Where a session record goes: the directory, and the file in it.
pub open spec fn session_location(
    session: Seq<char>,
    command: Seq<char>,
    phase: Seq<char>,
    timestamp: Seq<char>,
) -> (Seq<char>, Seq<char>) {
    let dir = ".amctl-sessions/"@ + session + "/commands"@;
    (dir, dir + "/"@ + dashed(timestamp) + "_"@ + sanitized(command) + "_"@ + phase + ".json"@)
}

/// The directory and file of the session record of `command` in `phase`
/// (`input`, `output` or `error`) written at `timestamp`.
pub fn session_paths(session: &str, command: &str, phase: &str, timestamp: &str) -> (r: (
    String,
    String,
))
    ensures
        (r.0@, r.1@) == session_location(session@, command@, phase@, timestamp@),
{
    let mut dir = String::from_str(".amctl-sessions/");
    dir.append(session);
    dir.append("/commands");
    let t = chars_of(timestamp);
    let mut ts = String::new();
    let n: usize = t.len();
    let mut i: usize = 0;
    while i < n
        invariant
            n == t@.len(),
            t@ == timestamp@,
            i <= n,
            ts@ == dashed(t@.take(i as int)),
        decreases n - i,
    {
        let c = t[i];
        ts.push(
            if c == ':' || c == '.' {
                '-'
            } else {
                c
            },
        );
        proof {
            assert(dashed(t@.take(i + 1)) =~= dashed(t@.take(i as int)).push(
                if c == ':' || c == '.' {
                    '-'
                } else {
                    c
                },
            ));
        }
        i = i + 1;
    }
    proof {
        assert(t@.take(n as int) =~= t@);
    }
    let safe = sanitize(command);
    let mut file = dir.clone();
    file.append("/");
    file.append(ts.as_str());
    file.append("_");
    file.append(safe.as_str());
    file.append("_");
    file.append(phase);
    file.append(".json");
    (dir, file)
}

} // verus!
