use af_cli::commands::{
    advance_command, command_meta, start_command, Action, ActCommands, ApiReply, Commands,
    ObserveCommands, RecoverCommands, RunState, VerifyCommands,
};
use af_cli::errors::{CliError, ErrorCode};
use af_cli::http::{build_config, prepare_request, ApiCall, ApiEnvelope, HttpMethod, RuntimeConfig};
use af_cli::proxy::ProxyMode;
use af_cli::record::{Record, Scalar};

fn config(token: Option<&str>) -> RuntimeConfig {
    build_config(
        "http://127.0.0.1:8081",
        token.map(|t| t.to_string()),
        5000,
        ProxyMode::Auto,
        "s1".to_string(),
    )
    .unwrap()
}

fn data(d: &str) -> Result<ApiReply, CliError> {
    Ok(ApiReply {
        value: Scalar::Json(format!("{{\"ok\":true,\"data\":{:?}}}", d)),
        envelope: Some(ApiEnvelope { ok: true, data: Some(d.to_string()), error: None }),
    })
}

fn expect_call(a: &Action) -> &ApiCall {
    match a {
        Action::Call(c) => c,
        Action::Finish(r) => panic!("finished early: {:?}", r),
    }
}

fn expect_finish(a: Action) -> Result<Record, CliError> {
    match a {
        Action::Finish(r) => r,
        Action::Call(c) => panic!("another call: {:?}", c),
    }
}

fn field<'a>(r: &'a Record, key: &str) -> &'a Scalar {
    &r.fields.iter().find(|(k, _)| k == key).expect("missing field").1
}

fn text_field<'a>(r: &'a Record, key: &str) -> &'a str {
    match field(r, key) {
        Scalar::Str(s) => s,
        other => panic!("not a string: {:?}", other),
    }
}

/// Runs `cmd` answering every request with the data of `answers`, in order.
fn run(cmd: &Commands, cfg: &RuntimeConfig, answers: Vec<Result<ApiReply, CliError>>) -> (Vec<String>, Result<Record, CliError>) {
    let (mut state, mut action) = start_command(cmd, cfg);
    let mut paths = Vec::new();
    let mut answers = answers.into_iter();
    loop {
        match action {
            Action::Finish(r) => return (paths, r),
            Action::Call(c) => {
                paths.push(c.path.clone());
                let reply = answers.next().expect("more requests than answers");
                let (s, a) = advance_command(cmd, cfg, state, reply);
                state = s;
                action = a;
            }
        }
    }
}

#[test]
fn empty_text_is_refused_before_any_request() {
    let cmd = Commands::Act { command: ActCommands::Text { text: String::new() } };
    let (_, a) = start_command(&cmd, &config(Some("t")));
    let e = expect_finish(a).unwrap_err();
    assert_eq!(e.code, ErrorCode::InvalidParams);
    assert_eq!(e.message, "text must not be empty");
}

#[test]
fn bad_mode_and_bad_field_and_zero_times_are_refused() {
    let cfg = config(Some("t"));
    let cmd = Commands::Verify {
        command: VerifyCommands::TopActivity { expected: "x".into(), mode: "regex".into() },
    };
    let e = expect_finish(start_command(&cmd, &cfg).1).unwrap_err();
    assert_eq!(e.message, "mode must be contains or equals");
    let cmd = Commands::Verify {
        command: VerifyCommands::NodeExists { by: "xpath".into(), value: "v".into(), exact_match: false },
    };
    let e = expect_finish(start_command(&cmd, &cfg).1).unwrap_err();
    assert_eq!(e.code, ErrorCode::InvalidParams);
    assert_eq!(e.message, "by must be one of: id,text,desc,class,resource_id");
    let cmd = Commands::Recover { command: RecoverCommands::Back { times: 0 } };
    let e = expect_finish(start_command(&cmd, &cfg).1).unwrap_err();
    assert_eq!(e.message, "times must be >= 1");
}

#[test]
fn tap_posts_the_point_and_reports_the_answer() {
    let cfg = config(Some("t"));
    let cmd = Commands::Act {
        command: ActCommands::Tap { x: 540.0f64.to_bits(), y: 1200.0f64.to_bits() },
    };
    let (state, a) = start_command(&cmd, &cfg);
    let c = expect_call(&a);
    assert_eq!(c.method, HttpMethod::Post);
    assert_eq!(c.path, "/api/tap");
    assert!(c.api);
    let body = c.body.as_ref().unwrap();
    assert!(matches!(field(body, "x"), Scalar::Float(b) if *b == 540.0f64.to_bits()));
    let (_, a) = advance_command(&cmd, &cfg, state, data("tapped"));
    let r = expect_finish(a).unwrap();
    assert_eq!(text_field(&r, "action"), "tap");
    assert_eq!(text_field(&r, "result"), "tapped");
}

#[test]
fn recover_back_presses_back_the_given_number_of_times() {
    let cfg = config(Some("t"));
    let cmd = Commands::Recover { command: RecoverCommands::Back { times: 3 } };
    let (paths, r) = run(&cmd, &cfg, vec![data("a"), data("b"), data("c")]);
    assert_eq!(paths, vec!["/api/press/back"; 3]);
    let r = r.unwrap();
    assert_eq!(text_field(&r, "recover"), "back");
    assert!(matches!(field(&r, "times"), Scalar::UInt(3)));
}

#[test]
fn the_first_failure_ends_the_run() {
    let cfg = config(Some("t"));
    let cmd = Commands::Recover { command: RecoverCommands::Back { times: 3 } };
    let failed = Err(CliError::new(ErrorCode::NetworkError, "down".to_string()));
    let (paths, r) = run(&cmd, &cfg, vec![data("a"), failed]);
    assert_eq!(paths.len(), 2);
    let e = r.unwrap_err();
    assert_eq!(e.code, ErrorCode::NetworkError);
    assert_eq!(e.message, "down");
}

#[test]
fn an_envelope_that_reports_failure_ends_the_run() {
    let cfg = config(Some("t"));
    let cmd = Commands::Observe { command: ObserveCommands::Top };
    let reply = Ok(ApiReply {
        value: Scalar::Json("{\"ok\":false}".to_string()),
        envelope: Some(ApiEnvelope { ok: false, data: None, error: None }),
    });
    let (_, r) = run(&cmd, &cfg, vec![reply]);
    let e = r.unwrap_err();
    assert_eq!(e.code, ErrorCode::ServerError);
    assert_eq!(e.message, "/api/app/top failed");
}

#[test]
fn preflight_without_token_only_checks_health() {
    let cfg = config(None);
    let cmd = Commands::Preflight;
    let health = Ok(ApiReply { value: Scalar::Json("{\"status\":\"up\"}".into()), envelope: None });
    let (paths, r) = run(&cmd, &cfg, vec![health]);
    assert_eq!(paths, vec!["/health"]);
    let r = r.unwrap();
    assert_eq!(text_field(&r, "auth"), "skipped");
    assert_eq!(text_field(&r, "baseUrl"), "http://127.0.0.1:8081");
    assert!(matches!(field(&r, "timeoutMs"), Scalar::UInt(5000)));
    assert!(matches!(field(&r, "tokenProvided"), Scalar::Bool(false)));
    assert!(matches!(field(&r, "topActivity"), Scalar::Null));
    assert!(matches!(field(&r, "health"), Scalar::Json(t) if t == "{\"status\":\"up\"}"));
}

#[test]
fn preflight_reports_a_refused_token_as_unauthorized() {
    let cfg = config(Some("bad"));
    let cmd = Commands::Preflight;
    let health = Ok(ApiReply { value: Scalar::Null, envelope: None });
    let refused = Err(CliError::new(ErrorCode::AuthError, "Unauthorized".to_string()));
    let (paths, r) = run(&cmd, &cfg, vec![health, refused]);
    assert_eq!(paths, vec!["/health", "/api/app/top"]);
    let r = r.unwrap();
    assert_eq!(text_field(&r, "auth"), "unauthorized");
    assert!(matches!(field(&r, "tokenProvided"), Scalar::Bool(true)));

    let health = Ok(ApiReply { value: Scalar::Null, envelope: None });
    let (_, r) = run(&cmd, &cfg, vec![health, data("com.app/.Main")]);
    let r = r.unwrap();
    assert_eq!(text_field(&r, "auth"), "ok");
    assert_eq!(text_field(&r, "topActivity"), "com.app/.Main");

    let health = Ok(ApiReply { value: Scalar::Null, envelope: None });
    let other = Err(CliError::new(ErrorCode::ServerError, "oops".to_string()));
    let (_, r) = run(&cmd, &cfg, vec![health, other]);
    assert_eq!(r.unwrap_err().code, ErrorCode::ServerError);
}

#[test]
fn preflight_health_failure_is_the_result() {
    let cfg = config(Some("t"));
    let failed = Err(CliError::new(ErrorCode::AuthError, "x".to_string()));
    let (paths, r) = run(&Commands::Preflight, &cfg, vec![failed]);
    assert_eq!(paths.len(), 1);
    assert_eq!(r.unwrap_err().code, ErrorCode::AuthError);
}

#[test]
fn text_contains_ignores_case_when_asked() {
    let cfg = config(Some("t"));
    let cmd = Commands::Verify {
        command: VerifyCommands::TextContains { text: "SETTINGS".into(), ignore_case: true },
    };
    let (paths, r) = run(&cmd, &cfg, vec![data("Open Settings now")]);
    assert_eq!(paths, vec!["/api/screen"]);
    let r = r.unwrap();
    assert!(matches!(field(&r, "matched"), Scalar::Bool(true)));
    assert_eq!(text_field(&r, "text"), "SETTINGS");

    let cmd = Commands::Verify {
        command: VerifyCommands::TextContains { text: "SETTINGS".into(), ignore_case: false },
    };
    let (_, r) = run(&cmd, &cfg, vec![data("Open Settings now")]);
    let e = r.unwrap_err();
    assert_eq!(e.code, ErrorCode::AssertionFailed);
    assert_eq!(e.message, "text not found in screen: SETTINGS");
}

#[test]
fn top_activity_equals_and_contains() {
    let cfg = config(Some("t"));
    let cmd = Commands::Verify {
        command: VerifyCommands::TopActivity { expected: "com.app".into(), mode: "equals".into() },
    };
    let (_, r) = run(&cmd, &cfg, vec![data("com.app/.Main")]);
    let e = r.unwrap_err();
    assert_eq!(e.message, "top activity mismatch: expected equals com.app, got com.app/.Main");
    let cmd = Commands::Verify {
        command: VerifyCommands::TopActivity { expected: "com.app".into(), mode: "contains".into() },
    };
    let (_, r) = run(&cmd, &cfg, vec![data("com.app/.Main")]);
    let r = r.unwrap();
    assert_eq!(text_field(&r, "actual"), "com.app/.Main");
    assert_eq!(text_field(&r, "mode"), "contains");
}

#[test]
fn node_search_lowercases_the_field_and_detects_no_match() {
    let cfg = config(Some("t"));
    let cmd = Commands::Verify {
        command: VerifyCommands::NodeExists { by: "Text".into(), value: "OK".into(), exact_match: true },
    };
    let (state, a) = start_command(&cmd, &cfg);
    let c = expect_call(&a);
    assert_eq!(c.path, "/api/nodes/find");
    assert_eq!(text_field(c.body.as_ref().unwrap(), "by"), "text");
    let (_, a) = advance_command(&cmd, &cfg, state, data("No nodes found for text=OK"));
    let e = expect_finish(a).unwrap_err();
    assert_eq!(e.code, ErrorCode::AssertionFailed);
    assert_eq!(e.message, "node not found: by=Text, value=OK");

    let (_, r) = run(&cmd, &cfg, vec![data("Found 1 node")]);
    let r = r.unwrap();
    assert_eq!(text_field(&r, "by"), "Text");
    assert_eq!(text_field(&r, "resultText"), "Found 1 node");
    assert!(matches!(field(&r, "exactMatch"), Scalar::Bool(true)));
}

#[test]
fn screenshot_path_carries_its_query() {
    let cfg = config(Some("t"));
    let cmd = Commands::Observe { command: ObserveCommands::Screenshot { max_dim: 700, quality: 80 } };
    let (_, a) = start_command(&cmd, &cfg);
    assert_eq!(expect_call(&a).path, "/api/screenshot?max_dim=700&quality=80");
    assert_eq!(expect_call(&a).method, HttpMethod::Get);
    let cmd = Commands::Observe { command: ObserveCommands::Screenshot { max_dim: -5, quality: 0 } };
    let (_, a) = start_command(&cmd, &cfg);
    assert_eq!(expect_call(&a).path, "/api/screenshot?max_dim=-5&quality=0");
    let cmd = Commands::Observe {
        command: ObserveCommands::Screenshot { max_dim: i64::MIN, quality: i64::MAX },
    };
    let (_, a) = start_command(&cmd, &cfg);
    assert_eq!(
        expect_call(&a).path,
        "/api/screenshot?max_dim=-9223372036854775808&quality=9223372036854775807"
    );
}

#[test]
fn relaunch_goes_home_then_launches() {
    let cfg = config(Some("t"));
    let cmd = Commands::Recover { command: RecoverCommands::Relaunch { package_name: "com.x".into() } };
    let (paths, r) = run(&cmd, &cfg, vec![data("home"), data("launched")]);
    assert_eq!(paths, vec!["/api/press/home", "/api/app/launch"]);
    let r = r.unwrap();
    assert_eq!(text_field(&r, "packageName"), "com.x");
    assert_eq!(text_field(&r, "launchResult"), "launched");
}

#[test]
fn key_reports_its_code() {
    let cfg = config(Some("t"));
    let cmd = Commands::Act { command: ActCommands::Key { key_code: 66 } };
    let (_, r) = run(&cmd, &cfg, vec![data("pressed")]);
    let r = r.unwrap();
    assert!(matches!(field(&r, "keyCode"), Scalar::Int(66)));
}

#[test]
fn commands_without_token_fail_at_the_request() {
    let cfg = config(None);
    let cmd = Commands::Act { command: ActCommands::Home };
    let (_, a) = start_command(&cmd, &cfg);
    let call = match a {
        Action::Call(c) => c,
        _ => panic!(),
    };
    let e = prepare_request(&cfg, call).unwrap_err();
    assert_eq!(e.code, ErrorCode::InvalidParams);
}

#[test]
fn command_names_and_arguments() {
    let (name, args) = command_meta(&Commands::Preflight);
    assert_eq!(name, "preflight");
    assert!(args.fields.is_empty());
    let (name, args) = command_meta(&Commands::Act {
        command: ActCommands::Launch { package_name: "com.y".into() },
    });
    assert_eq!(name, "act:launch");
    assert_eq!(text_field(&args, "package"), "com.y");
    let (name, args) = command_meta(&Commands::Verify {
        command: VerifyCommands::TextContains { text: "a".into(), ignore_case: false },
    });
    assert_eq!(name, "verify:text-contains");
    assert!(matches!(field(&args, "ignoreCase"), Scalar::Bool(false)));
    let (name, _) = command_meta(&Commands::Recover { command: RecoverCommands::Home });
    assert_eq!(name, "recover:home");
    let _ = RunState { done: 0, first: Scalar::Null };
}
