use af_cli::output::session_phase;
use af_cli::commands::Commands;
use af_cli::errors::{exit_code, CliError, ErrorCode};
use af_cli::http::build_config;
use af_cli::memory::{version_from_sql, version_to_sql, TraceRecord};
use af_cli::output::{
    cli_result, exit_status, input_payload, result_payload, sanitize, session_paths,
    SessionPayload,
};
use af_cli::proxy::ProxyMode;
use af_cli::record::{Record, Scalar};

#[test]
fn exit_codes_per_error_code() {
    assert_eq!(exit_code(ErrorCode::Success), 0);
    assert_eq!(exit_code(ErrorCode::Interrupted), 130);
    assert_eq!(exit_code(ErrorCode::InvalidParams), 2);
    assert_eq!(exit_code(ErrorCode::AuthError), 3);
    assert_eq!(exit_code(ErrorCode::NetworkError), 4);
    assert_eq!(exit_code(ErrorCode::ServerError), 5);
    assert_eq!(exit_code(ErrorCode::AssertionFailed), 6);
    assert_eq!(exit_code(ErrorCode::InternalError), 10);
}

#[test]
fn code_names_in_json() {
    assert_eq!(ErrorCode::Success.name(), "OK");
    assert_eq!(ErrorCode::InvalidParams.name(), "INVALID_PARAMS");
    assert_eq!(ErrorCode::AssertionFailed.name(), "ASSERTION_FAILED");
}

#[test]
fn cli_error_new_keeps_code_and_message() {
    let e = CliError::new(ErrorCode::ServerError, "bad".to_string());
    assert_eq!(e.code, ErrorCode::ServerError);
    assert_eq!(e.message, "bad");
}

#[test]
fn sanitize_replaces_unsafe_characters() {
    assert_eq!(sanitize("verify:text-contains"), "verify:text-contains");
    assert_eq!(sanitize("a/b c.d_e"), "a_b_c_d_e");
    assert_eq!(sanitize("ünï"), "_n_");
    assert_eq!(sanitize(""), "");
    let once = sanitize("../x y");
    assert_eq!(sanitize(&once), once);
}

#[test]
fn session_files() {
    let (dir, file) = session_paths("s1", "act:tap", "input", "2024-05-01T10:20:30.123+00:00");
    assert_eq!(dir, ".amctl-sessions/s1/commands");
    assert_eq!(file, ".amctl-sessions/s1/commands/2024-05-01T10-20-30-123+00-00_act:tap_input.json");
}

#[test]
fn success_and_failure_lines() {
    let mut d = Record::new();
    d.put_text("action", "home");
    let ok: Result<Record, CliError> = Ok(d);
    let line = cli_result("act:home", &ok, "t0".to_string());
    assert!(line.ok);
    assert_eq!(line.code, ErrorCode::Success);
    assert_eq!(line.command, "act:home");
    assert!(line.data.is_some());
    assert!(line.error.is_none());
    assert_eq!(line.timestamp, "t0");
    assert_eq!(exit_status(&ok), 0);

    let err: Result<Record, CliError> = Err(CliError::new(ErrorCode::AuthError, "denied".to_string()));
    let line = cli_result("observe:top", &err, "t1".to_string());
    assert!(!line.ok);
    assert_eq!(line.code, ErrorCode::AuthError);
    assert!(line.data.is_none());
    assert_eq!(line.error.as_deref(), Some("denied"));
    assert_eq!(exit_status(&err), 3);

    match result_payload("observe:top", &err, "t2".to_string()) {
        SessionPayload::Error { command, error, code, timestamp } => {
            assert_eq!(command, "observe:top");
            assert_eq!(error, "denied");
            assert_eq!(code, ErrorCode::AuthError);
            assert_eq!(timestamp, "t2");
        }
        other => panic!("unexpected {:?}", other),
    }
    match result_payload("act:home", &ok, "t3".to_string()) {
        SessionPayload::Output { command, result, .. } => {
            assert_eq!(command, "act:home");
            assert_eq!(result.fields.len(), 1);
        }
        other => panic!("unexpected {:?}", other),
    }
}

#[test]
fn the_token_is_masked_in_the_input_log() {
    let cfg = build_config("http://h", Some("s3cr3t".into()), 7, ProxyMode::Direct, "s".into()).unwrap();
    match input_payload(&Commands::Preflight, &cfg, "t".into()) {
        SessionPayload::Input { command, options, .. } => {
            assert_eq!(command, "preflight");
            let token = &options.fields.iter().find(|(k, _)| k == "token").unwrap().1;
            assert!(matches!(token, Scalar::Str(s) if s == "***"));
            assert!(options.fields.iter().all(|(_, v)| !matches!(v, Scalar::Str(s) if s == "s3cr3t")));
            let mode = &options.fields.iter().find(|(k, _)| k == "proxyMode").unwrap().1;
            assert!(matches!(mode, Scalar::Str(s) if s == "direct"));
        }
        other => panic!("unexpected {:?}", other),
    }
    let cfg = build_config("http://h", None, 7, ProxyMode::Auto, "s".into()).unwrap();
    match input_payload(&Commands::Preflight, &cfg, "t".into()) {
        SessionPayload::Input { options, .. } => {
            let token = &options.fields.iter().find(|(k, _)| k == "token").unwrap().1;
            assert!(matches!(token, Scalar::Null));
        }
        other => panic!("unexpected {:?}", other),
    }
}

#[test]
fn trace_store_conversions() {
    let r = TraceRecord {
        created_at: "c".into(),
        session: "s".into(),
        trace_id: "t".into(),
        command: "x".into(),
        status: "ok".into(),
        output_json: "{}".into(),
        duration_ms: 1234,
    };
    assert_eq!(r.duration_ms_sql(), 1234);
    let big = TraceRecord { duration_ms: (1u128 << 64) + 5, ..r.clone() };
    assert_eq!(big.duration_ms_sql(), 5);
    assert_eq!(version_to_sql(42), 42);
    assert_eq!(version_to_sql(u64::MAX), -1);
    assert_eq!(version_from_sql(-7), 0);
    assert_eq!(version_from_sql(9), 9);
}

#[test]
fn session_phases() {
    let ok: Result<Record, CliError> = Ok(Record::new());
    assert_eq!(session_phase(&ok), "output");
    let err: Result<Record, CliError> = Err(CliError::new(ErrorCode::ServerError, "x".to_string()));
    assert_eq!(session_phase(&err), "error");
}
