use kagi_mcp::command::{CommandSpec, OutputMode};
use kagi_mcp::runner::{
    command_line, failure_message, finish_output, jitter_delay_ms, json_display_text, json_output,
    request_interval, retry_spawn, settings_from_env, stream_text, throttle_delay, CommandOutput,
    RateLimiter, RunnerError, StealthConfig,
};

fn call(args: &[&str], stealth: bool) -> CommandSpec {
    CommandSpec {
        args: strings(args),
        stdin: None,
        output_mode: OutputMode::Json,
        profile_override: None,
        stealth,
    }
}

fn strings(items: &[&str]) -> Vec<String> {
    items.iter().map(|item| (*item).to_string()).collect()
}

fn some(s: &str) -> Option<String> {
    Some(s.to_string())
}

#[test]
fn settings_default_when_environment_is_empty() {
    let settings = settings_from_env(None, None, None, None).expect("defaults are valid");
    assert_eq!(settings.cli_path, "kagi");
    assert_eq!(settings.profile, None);
    assert_eq!(settings.timeout_ms, 30_000);
    assert!(!settings.stealth.enabled);
    assert_eq!(settings.stealth.jitter_base_ms, 800);
    assert_eq!(settings.stealth.jitter_spread_ms, 1200);
    assert_eq!(settings.stealth.min_interval_ms, 1500);
    assert_eq!(settings.stealth.default_cache_ttl_secs, 600);
    assert_eq!(settings.min_interval_ms, 0);
}

#[test]
fn settings_take_path_profile_and_timeout() {
    let settings =
        settings_from_env(some("/opt/kagi"), some("work"), some("1500"), None).expect("valid");
    assert_eq!(settings.cli_path, "/opt/kagi");
    assert_eq!(settings.profile, some("work"));
    assert_eq!(settings.timeout_ms, 1500);
    let plus = settings_from_env(None, None, some("+42"), None).expect("valid");
    assert_eq!(plus.timeout_ms, 42);
}

#[test]
fn settings_drop_blank_profile() {
    let settings = settings_from_env(None, some(" \t\n"), None, None).expect("valid");
    assert_eq!(settings.profile, None);
    let empty = settings_from_env(None, some(""), None, None).expect("valid");
    assert_eq!(empty.profile, None);
    let padded = settings_from_env(None, some(" work "), None, None).expect("valid");
    assert_eq!(padded.profile, some(" work "));
}

#[test]
fn settings_reject_bad_timeouts() {
    let not_number = settings_from_env(None, None, some("soon"), None).unwrap_err();
    assert_eq!(
        not_number,
        RunnerError::Config(
            "KAGI_MCP_TIMEOUT_MS must be a positive integer in milliseconds".to_string()
        )
    );
    assert_eq!(
        not_number.message(),
        "configuration error: KAGI_MCP_TIMEOUT_MS must be a positive integer in milliseconds"
    );
    let zero = settings_from_env(None, None, some("0"), None).unwrap_err();
    assert_eq!(
        zero,
        RunnerError::Config("KAGI_MCP_TIMEOUT_MS must be greater than 0".to_string())
    );
    for bad in ["", "+", "-5", "12a", "18446744073709551616", " 5"] {
        assert!(settings_from_env(None, None, some(bad), None).is_err(), "{bad:?}");
    }
    let max = settings_from_env(None, None, some("18446744073709551615"), None).expect("fits");
    assert_eq!(max.timeout_ms, u64::MAX);
}

#[test]
fn settings_stealth_switch() {
    for on in ["1", "true", "yes", "on"] {
        let settings = settings_from_env(None, None, None, some(on)).expect("valid");
        assert!(settings.stealth.enabled, "{on:?}");
        assert_eq!(settings.min_interval_ms, 1500);
    }
    for off in ["", "0", "false", "FALSE", "False"] {
        let settings = settings_from_env(None, None, None, some(off)).expect("valid");
        assert!(!settings.stealth.enabled, "{off:?}");
        assert_eq!(settings.min_interval_ms, 0);
    }
}

#[test]
fn command_line_prefixes_the_chosen_profile() {
    let mut spec = CommandSpec {
        args: strings(&["search", "rust"]),
        stdin: None,
        output_mode: OutputMode::Json,
        profile_override: None,
        stealth: false,
    };
    assert_eq!(command_line(&spec, &None), strings(&["search", "rust"]));
    assert_eq!(
        command_line(&spec, &some("work")),
        strings(&["--profile", "work", "search", "rust"])
    );
    spec.profile_override = some("alt");
    assert_eq!(
        command_line(&spec, &some("work")),
        strings(&["--profile", "alt", "search", "rust"])
    );
}

#[test]
fn jitter_is_deterministic_and_bounded() {
    let mut stealth = StealthConfig::disabled();
    let args = call(&["search", "rust"], false);
    assert_eq!(jitter_delay_ms(&stealth, &args), None);
    stealth.enabled = true;
    // The bytes of "search" sum to 630 and those of "rust" to 462.
    assert_eq!(jitter_delay_ms(&stealth, &args), Some(1892));
    assert_eq!(jitter_delay_ms(&stealth, &args), jitter_delay_ms(&stealth, &args));
    stealth.jitter_spread_ms = 0;
    assert_eq!(jitter_delay_ms(&stealth, &args), None);
    stealth.jitter_spread_ms = 1;
    stealth.jitter_base_ms = 1;
    assert_eq!(jitter_delay_ms(&stealth, &args), Some(1));
}

#[test]
fn jitter_sum_wraps_around_at_64_bits() {
    let mut stealth = StealthConfig::disabled();
    stealth.enabled = true;
    stealth.jitter_base_ms = u64::MAX;
    stealth.jitter_spread_ms = 2;
    // The byte of "a" is 97, which is odd.
    assert_eq!(jitter_delay_ms(&stealth, &call(&["a"], false)), Some(0));
    assert_eq!(jitter_delay_ms(&stealth, &call(&["b"], false)), Some(u64::MAX));
}

#[test]
fn stealth_request_is_jittered_with_runner_stealth_off() {
    let stealth = StealthConfig::disabled();
    assert_eq!(jitter_delay_ms(&stealth, &call(&["search", "rust"], true)), Some(1892));
    assert_eq!(jitter_delay_ms(&stealth, &call(&["search", "rust"], false)), None);
    let mut flat = StealthConfig::disabled();
    flat.jitter_spread_ms = 0;
    assert_eq!(jitter_delay_ms(&flat, &call(&["search", "rust"], true)), None);
}

#[test]
fn stealth_request_is_paced_with_runner_stealth_off() {
    let stealth = StealthConfig::disabled();
    assert_eq!(request_interval(&stealth, false), 0);
    assert_eq!(request_interval(&stealth, true), 1_500_000_000);
    let mut limiter = RateLimiter::new(0);
    assert_eq!(limiter.delay(100, request_interval(&stealth, true)), 0);
    limiter.record(100);
    assert_eq!(limiter.delay(100, request_interval(&stealth, false)), 0);
    assert_eq!(limiter.delay(100, request_interval(&stealth, true)), 1_500_000_000);
    assert_eq!(limiter.delay(500_000_100, request_interval(&stealth, true)), 1_000_000_000);
    assert_eq!(limiter.delay(1_500_000_100, request_interval(&stealth, true)), 0);
}

#[test]
fn throttle_waits_for_the_rest_of_the_interval() {
    assert_eq!(throttle_delay(None, 1_500), 0);
    assert_eq!(throttle_delay(Some(400), 1_500), 1_100);
    assert_eq!(throttle_delay(Some(1_500), 1_500), 0);
    assert_eq!(throttle_delay(Some(9_000), 1_500), 0);
    assert_eq!(throttle_delay(Some(0), 0), 0);
}

#[test]
fn spawn_retries_only_while_busy() {
    assert!(retry_spawn(Some(26), 0));
    assert!(retry_spawn(Some(26), 4));
    assert!(!retry_spawn(Some(26), 5));
    assert!(!retry_spawn(Some(2), 0));
    assert!(!retry_spawn(None, 0));
}

#[test]
fn failure_message_prefers_stderr_then_stdout_then_status() {
    assert_eq!(
        failure_message("out".to_string(), "err".to_string(), Some(1), "kagi"),
        "err"
    );
    assert_eq!(
        failure_message("out".to_string(), String::new(), Some(1), "kagi"),
        "out"
    );
    assert_eq!(
        failure_message(String::new(), String::new(), Some(3), "/bin/kagi"),
        "`/bin/kagi` exited with status 3"
    );
    assert_eq!(
        failure_message(String::new(), String::new(), Some(-12), "kagi"),
        "`kagi` exited with status -12"
    );
    assert_eq!(
        failure_message(String::new(), String::new(), Some(i32::MIN), "kagi"),
        "`kagi` exited with status -2147483648"
    );
    assert_eq!(
        failure_message(String::new(), String::new(), None, "kagi"),
        "`kagi` terminated by signal"
    );
}

#[test]
fn stream_text_decodes_and_trims_the_end() {
    assert_eq!(stream_text(b"data\n  \t\n"), "data");
    assert_eq!(stream_text(b"  lead"), "  lead");
    assert_eq!(stream_text(b""), "");
    assert_eq!(stream_text(b"a\xffb\n"), "a\u{fffd}b");
    assert_eq!(stream_text("caf\u{e9}\u{3000}".as_bytes()), "caf\u{e9}");
}

#[test]
fn finish_output_reports_failures() {
    let failed = finish_output(
        OutputMode::Json,
        false,
        Some(1),
        b"",
        b"authentication error: invalid token\n",
        "kagi",
    )
    .unwrap_err();
    assert_eq!(
        failed,
        RunnerError::CommandFailed {
            message: "authentication error: invalid token".to_string()
        }
    );
    assert!(failed
        .message()
        .contains("authentication error: invalid token"));
}

#[test]
fn finish_output_reads_json() {
    let output = finish_output(
        OutputMode::Json,
        true,
        Some(0),
        b"{\"ok\":true,\"args\":[\"search\",\"rust\"]}\n",
        b"",
        "kagi",
    )
    .expect("json parses");
    let CommandOutput::Json(value) = output else {
        panic!("expected JSON output");
    };
    assert_eq!(value["ok"], serde_json::Value::Bool(true));
    assert_eq!(value["args"][1], serde_json::Value::String("rust".to_string()));
}

#[test]
fn finish_output_converts_json_to_toon() {
    let output = finish_output(
        OutputMode::JsonToToon,
        true,
        Some(0),
        b"{\"ok\":true,\"results\":[{\"title\":\"Rust\"}]}\n",
        b"",
        "kagi",
    )
    .expect("json converts");
    let CommandOutput::Toon(text) = output else {
        panic!("expected TOON output");
    };
    assert!(text.contains("ok: true"));
    assert!(text.contains("Rust"));
}

#[test]
fn finish_output_passes_text_through() {
    assert_eq!(
        finish_output(OutputMode::Toon, true, Some(0), b"data[1]{title}:\n  Rust\n", b"", "kagi"),
        Ok(CommandOutput::Toon("data[1]{title}:\n  Rust".to_string()))
    );
    assert_eq!(
        finish_output(OutputMode::Text, true, Some(0), b"# Title\n\n", b"warn", "kagi"),
        Ok(CommandOutput::Text("# Title".to_string()))
    );
}

#[test]
fn finish_output_rejects_invalid_json() {
    for mode in [OutputMode::Json, OutputMode::JsonToToon] {
        let error = finish_output(mode, true, Some(0), b"not json", b"", "kagi").unwrap_err();
        let RunnerError::Parse(detail) = &error else {
            panic!("expected a parse error");
        };
        assert!(!detail.is_empty());
        assert!(error.message().starts_with("failed to parse CLI JSON output: "));
    }
}

#[test]
fn json_output_keeps_the_value_or_encodes_it() {
    let value: serde_json::Value = serde_json::from_str("{\"name\":\"Ada\",\"active\":true}").unwrap();
    assert_eq!(
        json_output(Ok(value.clone()), false),
        Ok(CommandOutput::Json(value.clone()))
    );
    assert_eq!(
        json_output(Ok(value), true),
        Ok(CommandOutput::Toon("active: true\nname: Ada".to_string()))
    );
    let error = serde_json::from_str::<serde_json::Value>("{").unwrap_err();
    let expected = error.to_string();
    assert_eq!(json_output(Err(error), true), Err(RunnerError::Parse(expected)));
}

#[test]
fn finish_output_toon_is_the_encoding_of_stdout() {
    let stdout = b"{\"name\":\"Ada\",\"active\":true}\n";
    assert_eq!(
        finish_output(OutputMode::JsonToToon, true, Some(0), stdout, b"{\"other\":1}", "kagi"),
        Ok(CommandOutput::Toon("active: true\nname: Ada".to_string()))
    );
    let value: serde_json::Value = serde_json::from_str("{\"name\":\"Ada\",\"active\":true}").unwrap();
    assert_eq!(
        finish_output(OutputMode::Json, true, Some(0), stdout, b"{\"other\":1}", "kagi"),
        Ok(CommandOutput::Json(value))
    );
}

#[test]
fn finish_output_parse_error_carries_the_parser_message() {
    let expected = serde_json::from_str::<serde_json::Value>("not json").unwrap_err().to_string();
    assert_eq!(
        finish_output(OutputMode::Json, true, Some(0), b"not json\n", b"", "kagi"),
        Err(RunnerError::Parse(expected))
    );
}

#[test]
fn runner_error_messages() {
    assert_eq!(
        RunnerError::Spawn { path: "kagi".to_string(), message: "not found".to_string() }.message(),
        "failed to start `kagi`: not found"
    );
    assert_eq!(
        RunnerError::Timeout { path: "kagi".to_string(), timeout_ms: 500 }.message(),
        "`kagi` timed out after 500ms"
    );
    assert_eq!(
        RunnerError::CommandFailed { message: "boom".to_string() }.message(),
        "boom"
    );
}

#[test]
fn rate_limiter_spaces_calls() {
    let mut limiter = RateLimiter::new(1_500);
    assert_eq!(limiter.delay(10, 0), 0);
    limiter.record(10);
    assert_eq!(limiter.last_call, Some(10));
    assert_eq!(limiter.delay(10, 0), 1_500);
    assert_eq!(limiter.delay(510, 0), 1_000);
    assert_eq!(limiter.delay(1_510, 0), 0);
    assert_eq!(limiter.delay(5, 0), 1_500);
    assert_eq!(limiter.delay(10, 500), 1_500);
    assert_eq!(limiter.delay(10, 2_000), 2_000);
    let mut open = RateLimiter::new(0);
    open.record(7);
    assert_eq!(open.delay(7, 0), 0);
}

#[test]
fn json_display_text_pretty_prints() {
    let value: serde_json::Value = serde_json::from_str("{\"b\":[1,2],\"a\":\"x\"}").unwrap();
    assert_eq!(json_display_text(&value), "{\n  \"a\": \"x\",\n  \"b\": [\n    1,\n    2\n  ]\n}");
    assert_eq!(json_display_text(&serde_json::Value::Null), "null");
}
