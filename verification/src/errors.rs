//! Result codes of a command and the error that carries one.

use vstd::prelude::*;
use vstd::string::StringExecFns;

verus! {

/// The outcome class of a command, reported in the `code` field of every
/// output line.
#[derive(Debug, Clone, Copy, PartialEq, Eq, Structural)]
pub enum ErrorCode {
    Success,
    Interrupted,
    InvalidParams,
    AuthError,
    NetworkError,
    ServerError,
    AssertionFailed,
    InternalError,
}

/// The process exit status for each code.
pub open spec fn spec_exit_code(code: ErrorCode) -> i32 {
    match code {
        ErrorCode::Interrupted => 130,
        ErrorCode::InvalidParams => 2,
        ErrorCode::AuthError => 3,
        ErrorCode::NetworkError => 4,
        ErrorCode::ServerError => 5,
        ErrorCode::AssertionFailed => 6,
        ErrorCode::InternalError => 10,
        ErrorCode::Success => 0,
    }
}

/// The exit status the process ends with for `code`.
pub fn exit_code(code: ErrorCode) -> (r: i32)
    ensures
        r == spec_exit_code(code),
{
    match code {
        ErrorCode::Interrupted => 130,
        ErrorCode::InvalidParams => 2,
        ErrorCode::AuthError => 3,
        ErrorCode::NetworkError => 4,
        ErrorCode::ServerError => 5,
        ErrorCode::AssertionFailed => 6,
        ErrorCode::InternalError => 10,
        ErrorCode::Success => 0,
    }
}

/// The name under which a code appears in the JSON output.
pub open spec fn spec_code_name(code: ErrorCode) -> Seq<char> {
    match code {
        ErrorCode::Success => "OK"@,
        ErrorCode::Interrupted => "INTERRUPTED"@,
        ErrorCode::InvalidParams => "INVALID_PARAMS"@,
        ErrorCode::AuthError => "AUTH_ERROR"@,
        ErrorCode::NetworkError => "NETWORK_ERROR"@,
        ErrorCode::ServerError => "SERVER_ERROR"@,
        ErrorCode::AssertionFailed => "ASSERTION_FAILED"@,
        ErrorCode::InternalError => "INTERNAL_ERROR"@,
    }
}

impl ErrorCode {
    /// The name of the code in the JSON output (screaming snake case).
    pub fn name(self) -> (r: &'static str)
        ensures
            r@ == spec_code_name(self),
    {
        match self {
            ErrorCode::Success => "OK",
            ErrorCode::Interrupted => "INTERRUPTED",
            ErrorCode::InvalidParams => "INVALID_PARAMS",
            ErrorCode::AuthError => "AUTH_ERROR",
            ErrorCode::NetworkError => "NETWORK_ERROR",
            ErrorCode::ServerError => "SERVER_ERROR",
            ErrorCode::AssertionFailed => "ASSERTION_FAILED",
            ErrorCode::InternalError => "INTERNAL_ERROR",
        }
    }
}

/// A failed command: its code and a message for the user.
#[derive(Debug)]
pub struct CliError {
    pub code: ErrorCode,
    pub message: String,
}

/// The mathematical content of a `CliError`.
pub struct CliErrorView {
    pub code: ErrorCode,
    pub message: Seq<char>,
}

impl View for CliError {
    type V = CliErrorView;

    open spec fn view(&self) -> CliErrorView {
        CliErrorView { code: self.code, message: self.message@ }
    }
}

/// The error with `code` and `message`.
pub open spec fn err_view(code: ErrorCode, message: Seq<char>) -> CliErrorView {
    CliErrorView { code, message }
}

impl Clone for CliError {
    fn clone(&self) -> (r: Self)
        ensures
            r@ == self@,
    {
        CliError { code: self.code, message: self.message.clone() }
    }
}

impl CliError {
    /// An error with the given code and message.
    pub fn new(code: ErrorCode, message: String) -> (e: Self)
        ensures
            e.code == code,
            e.message@ == message@,
    {
        Self { code, message }
    }

    /// An error whose message is the text `message`.
    pub fn with_text(code: ErrorCode, message: &str) -> (e: Self)
        ensures
            e@ == err_view(code, message@),
    {
        Self::new(code, String::from_str(message))
    }
}

/// Exit status 0 is reserved for success, and no two codes share an exit
/// status, so the status alone tells which code a run ended with.
pub proof fn lemma_exit_code_identifies_code(a: ErrorCode, b: ErrorCode)
    ensures
        spec_exit_code(a) == 0 <==> a == ErrorCode::Success,
        spec_exit_code(a) == spec_exit_code(b) ==> a == b,
{
}

} // verus!
