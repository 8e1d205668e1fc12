use spinneret::config::{ExtrusionConfig, DEFAULT_FUEL_LIMIT, DEFAULT_MEMORY_LIMIT_BYTES};
use spinneret::daemon::{error_reply, start, DaemonAction, DaemonEvent, DaemonState};
use spinneret::egress::SpinneretHttpHooks;
use spinneret::env::EnvVars;
use spinneret::hosted::{
    extrusion_config_for, orb_file_name, orb_not_found_message, success_response,
    LocalExecutionRequest,
};
use spinneret::execution::{
    Execution, ExecutionAction, ExecutionEvent, ExecutionPhase, OrbSearch, SearchStep,
};
use spinneret::limits::{fuel_consumed, memory_cap_message, MemoryBudget};
use spinneret::text::trim;

fn plain_request(name: &str) -> LocalExecutionRequest {
    LocalExecutionRequest {
        orb_name: name.to_string(),
        input_json: "{}".to_string(),
        fuel_limit: None,
        memory_limit: None,
        workspace_path: None,
        allowed_domains: None,
        env_vars: None,
    }
}

fn reply_of(action: DaemonAction) -> String {
    match action {
        DaemonAction::Reply(line) => line,
        other => panic!("expected a reply, got {:?}", other),
    }
}

#[test]
fn default_config_values() {
    let config = ExtrusionConfig::default();
    assert_eq!(config.fuel_limit, 10_000_000);
    assert_eq!(config.memory_limit_bytes, 50 * 1024 * 1024);
    assert_eq!(DEFAULT_FUEL_LIMIT, 10_000_000);
    assert_eq!(DEFAULT_MEMORY_LIMIT_BYTES, 52_428_800);
    assert!(config.worktree_mount_path.is_none());
    assert!(config.environment_variables.is_empty());
    assert!(config.allowed_egress_domains.is_empty());
}

#[test]
fn default_config_denies_all_egress() {
    let hooks = ExtrusionConfig::default().http_hooks();
    assert!(hooks.check_request(Some("example.com"), "https://example.com/").is_err());
    assert!(hooks.check_request(None, "/").is_err());
    assert!(hooks.check_request(Some(""), "/").is_err());
}

#[test]
fn allowed_host_is_let_through() {
    let mut config = ExtrusionConfig::default();
    config.allowed_egress_domains = vec!["example.com".to_string()];
    config
        .environment_variables
        .insert("TARGET_HOST".to_string(), "example.com".to_string());
    let hooks = config.http_hooks();
    assert_eq!(hooks.check_request(Some("example.com"), "https://example.com/"), Ok(()));
    assert!(hooks.is_allowed("example.com"));
}

#[test]
fn blocked_host_is_refused_with_message() {
    let hooks = SpinneretHttpHooks::new(vec!["example.com".to_string()]);
    let result = hooks.check_request(Some("blocked.com"), "https://blocked.com/");
    assert_eq!(result, Err("URL not allowed: https://blocked.com/".to_string()));
    assert!(format!("{:?}", result.unwrap_err()).contains("URL not allowed"));
}

#[test]
fn subdomain_of_allowed_host_is_refused() {
    let hooks = SpinneretHttpHooks::new(vec!["example.com".to_string()]);
    assert!(hooks.check_request(Some("api.example.com"), "https://api.example.com/x").is_err());
    assert!(hooks.check_request(Some("EXAMPLE.COM"), "https://EXAMPLE.COM/").is_err());
}

#[test]
fn request_without_host_needs_empty_domain() {
    let hooks = SpinneretHttpHooks::new(vec!["".to_string()]);
    assert!(hooks.check_request(None, "/path").is_ok());
    let hooks = SpinneretHttpHooks::new(vec!["example.com".to_string()]);
    assert_eq!(hooks.check_request(None, "/path"), Err("URL not allowed: /path".to_string()));
}

#[test]
fn adding_a_domain_keeps_permissions() {
    let one = SpinneretHttpHooks::new(vec!["a.com".to_string()]);
    let two = SpinneretHttpHooks::new(vec!["a.com".to_string(), "b.com".to_string()]);
    assert!(one.is_allowed("a.com"));
    assert!(two.is_allowed("a.com"));
    assert!(two.is_allowed("b.com"));
    assert!(!one.is_allowed("b.com"));
}

#[test]
fn env_vars_insert_and_get() {
    let mut env = EnvVars::new();
    assert_eq!(env.insert("A".to_string(), "1".to_string()), None);
    assert_eq!(env.insert("B".to_string(), "2".to_string()), None);
    assert_eq!(env.insert("A".to_string(), "3".to_string()), Some("1".to_string()));
    assert_eq!(env.len(), 2);
    assert_eq!(env.get("A"), Some(&"3".to_string()));
    assert_eq!(env.get("B"), Some(&"2".to_string()));
    assert_eq!(env.get("C"), None);
    assert!(env.contains_key("B"));
    assert!(!env.contains_key("C"));
    let pairs: Vec<(String, String)> = env.entries().clone();
    assert_eq!(
        pairs,
        vec![("A".to_string(), "3".to_string()), ("B".to_string(), "2".to_string())]
    );
}

#[test]
fn env_vars_clone_is_equal() {
    let mut env = EnvVars::new();
    env.insert("K".to_string(), "V".to_string());
    let copy = env.clone();
    assert_eq!(copy.entries(), env.entries());
}

#[test]
fn plain_request_uses_defaults() {
    let config = extrusion_config_for(&plain_request("hello-wasm"));
    assert_eq!(config.fuel_limit, DEFAULT_FUEL_LIMIT);
    assert_eq!(config.memory_limit_bytes, DEFAULT_MEMORY_LIMIT_BYTES);
    assert!(config.worktree_mount_path.is_none());
    assert!(config.allowed_egress_domains.is_empty());
    assert_eq!(config.environment_variables.len(), 1);
    assert_eq!(config.environment_variables.get("SPINNERET_INPUT"), Some(&"{}".to_string()));
}

#[test]
fn request_overrides_defaults() {
    let mut env = EnvVars::new();
    env.insert("TEST_MODE".to_string(), "env".to_string());
    env.insert("MY_VAR".to_string(), "MY_VALUE".to_string());
    env.insert("SPINNERET_INPUT".to_string(), "user".to_string());
    let req = LocalExecutionRequest {
        orb_name: "hello-wasm".to_string(),
        input_json: "{\"some_key\":\"some_value\"}".to_string(),
        fuel_limit: Some(1_000_000),
        memory_limit: Some(50 * 1024 * 1024),
        workspace_path: Some("/tmp/ws".to_string()),
        allowed_domains: Some(vec!["example.com".to_string()]),
        env_vars: Some(env),
    };
    let config = extrusion_config_for(&req);
    assert_eq!(config.fuel_limit, 1_000_000);
    assert_eq!(config.memory_limit_bytes, 50 * 1024 * 1024);
    assert_eq!(config.worktree_mount_path, Some("/tmp/ws".to_string()));
    assert_eq!(config.allowed_egress_domains, vec!["example.com".to_string()]);
    assert_eq!(config.environment_variables.len(), 3);
    assert_eq!(config.environment_variables.get("MY_VAR"), Some(&"MY_VALUE".to_string()));
    assert_eq!(
        config.environment_variables.get("SPINNERET_INPUT"),
        Some(&"{\"some_key\":\"some_value\"}".to_string())
    );
    let mount = config.worktree_mount().unwrap();
    assert_eq!(mount.host_path, "/tmp/ws");
    assert_eq!(mount.guest_path, "/worktree");
}

#[test]
fn no_worktree_no_mount() {
    assert!(ExtrusionConfig::default().worktree_mount().is_none());
}

#[test]
fn orb_names_and_messages() {
    assert_eq!(orb_file_name("dummy-orb"), "dummy-orb.wasm");
    let msg = orb_not_found_message("missing-orb");
    assert_eq!(msg, "Orb 'missing-orb' not found in search directories");
    assert!(msg.contains("Orb 'missing-orb' not found"));
}

#[test]
fn success_response_output() {
    let resp = success_response("hello-wasm", 1234);
    assert_eq!(resp.fuel_consumed, 1234);
    assert_eq!(
        resp.output_json,
        "{\"status\":\"success\",\"message\":\"Executed Orb 'hello-wasm' programmatically.\"}"
    );
    let value: serde_json::Value = serde_json::from_str(&resp.output_json).unwrap();
    assert_eq!(value["status"], "success");
}

#[test]
fn success_response_escapes_name() {
    let resp = success_response("a\"b", 0);
    let value: serde_json::Value = serde_json::from_str(&resp.output_json).unwrap();
    assert_eq!(value["message"], "Executed Orb 'a\"b' programmatically.");
}

#[test]
fn error_reply_escapes_control_characters() {
    assert_eq!(error_reply("plain"), "{\"error\":\"plain\"}");
    assert_eq!(error_reply("a\"b\\c\nd"), "{\"error\":\"a\\\"b\\\\c\\nd\"}");
}

#[test]
fn trim_removes_unicode_white_space() {
    assert_eq!(trim("  abc \t\r\n"), "abc");
    assert_eq!(trim("\u{a0}\u{3000}x y\u{2003}"), "x y");
    assert_eq!(trim(" \n\t "), "");
    assert_eq!(trim(""), "");
    assert_eq!(trim("ä"), "ä");
}

#[test]
fn error_reply_is_json_object() {
    let line = error_reply("bad \"thing\"");
    assert_eq!(line, "{\"error\":\"bad \\\"thing\\\"\"}");
    let value: serde_json::Value = serde_json::from_str(&line).unwrap();
    assert_eq!(value["error"], "bad \"thing\"");
}

#[test]
fn daemon_blank_line_is_skipped() {
    let (state, action) = start().step(DaemonEvent::LineRead("   \t".to_string()));
    assert_eq!(state, DaemonState::AwaitLine);
    assert!(matches!(action, DaemonAction::ReadNext));
}

#[test]
fn daemon_invalid_json_reply() {
    let (state, action) = start().step(DaemonEvent::LineRead(" this-is-not-json ".to_string()));
    assert_eq!(state, DaemonState::AwaitParse);
    match action {
        DaemonAction::Parse(text) => assert_eq!(text, "this-is-not-json"),
        other => panic!("expected a parse, got {:?}", other),
    }
    let (state, action) = state.step(DaemonEvent::ParseFailed("expected value".to_string()));
    assert_eq!(state, DaemonState::AwaitLine);
    let line = reply_of(action);
    let value: serde_json::Value = serde_json::from_str(&line).unwrap();
    assert!(value["error"].as_str().unwrap().contains("Invalid JSON request"));
    assert_eq!(value["error"], "Invalid JSON request: expected value");
}

#[test]
fn daemon_execution_error_reply() {
    let (state, _) = start().step(DaemonEvent::LineRead("{}".to_string()));
    let (state, action) = state.step(DaemonEvent::Parsed);
    assert_eq!(state, DaemonState::AwaitExecution);
    assert!(matches!(action, DaemonAction::Execute));
    let (state, action) = state.step(DaemonEvent::ExecutionFailed(
        "Orb 'missing-orb' not found in search directories".to_string(),
    ));
    assert_eq!(state, DaemonState::AwaitLine);
    let line = reply_of(action);
    let value: serde_json::Value = serde_json::from_str(&line).unwrap();
    assert!(value["error"].as_str().unwrap().contains("Execution failed"));
}

#[test]
fn daemon_success_reply_and_serialize_error() {
    let (state, _) = start().step(DaemonEvent::LineRead("{}".to_string()));
    let (state, _) = state.step(DaemonEvent::Parsed);
    let (state, action) = state.step(DaemonEvent::Executed);
    assert_eq!(state, DaemonState::AwaitSerialization);
    assert!(matches!(action, DaemonAction::Serialize));
    let (next, action) = state.step(DaemonEvent::Serialized("{\"ok\":1}".to_string()));
    assert_eq!(next, DaemonState::AwaitLine);
    assert_eq!(reply_of(action), "{\"ok\":1}");
    let (next, action) = state.step(DaemonEvent::SerializeFailed("boom".to_string()));
    assert_eq!(next, DaemonState::AwaitLine);
    assert_eq!(reply_of(action), "{\"error\":\"Failed to serialize response: boom\"}");
}

#[test]
fn daemon_stops_at_end_of_input() {
    let state = start();
    assert!(state.accepts(&DaemonEvent::InputEnded));
    assert!(!state.accepts(&DaemonEvent::Parsed));
    let (state, action) = state.step(DaemonEvent::InputEnded);
    assert_eq!(state, DaemonState::Finished);
    assert!(matches!(action, DaemonAction::Stop));
    assert!(!state.accepts(&DaemonEvent::LineRead("x".to_string())));
    assert!(!state.accepts(&DaemonEvent::InputEnded));
}

#[test]
fn daemon_one_reply_per_request_line() {
    let lines = ["", "a", "  ", "b", "c"];
    let mut state = start();
    let mut replies = 0;
    let mut requests = 0;
    for line in lines.iter() {
        let (next, action) = state.step(DaemonEvent::LineRead(line.to_string()));
        state = next;
        if let DaemonAction::Parse(_) = action {
            requests += 1;
            let (next, action) = state.step(DaemonEvent::ParseFailed("x".to_string()));
            state = next;
            if let DaemonAction::Reply(_) = action {
                replies += 1;
            }
        }
    }
    assert_eq!(requests, 3);
    assert_eq!(replies, 3);
    assert_eq!(state, DaemonState::AwaitLine);
}

#[test]
fn fuel_consumed_is_budget_minus_remaining() {
    assert_eq!(fuel_consumed(1_000_000, 999_000), 1_000);
    assert_eq!(fuel_consumed(10, 10), 0);
    assert_eq!(fuel_consumed(10, 0), 10);
    assert_eq!(fuel_consumed(10, 20), 0);
}

#[test]
fn memory_budget_caps_all_memories_together() {
    let mut budget = MemoryBudget::new(100);
    assert!(budget.memory_growing(0, 60));
    assert_eq!(budget.reserved_bytes(), 60);
    assert!(!budget.memory_growing(0, 50));
    assert_eq!(budget.reserved_bytes(), 60);
    assert!(budget.memory_growing(60, 100));
    assert_eq!(budget.reserved_bytes(), 100);
    assert!(!budget.memory_growing(100, 101));
    assert!(budget.memory_growing(100, 100));
    assert_eq!(budget.limit_bytes(), 100);
}

#[test]
fn memory_budget_releases_failed_growth() {
    let mut budget = MemoryBudget::new(100);
    assert!(budget.memory_growing(10, 50));
    assert_eq!(budget.reserved_bytes(), 40);
    budget.memory_grow_failed();
    assert_eq!(budget.reserved_bytes(), 0);
    budget.memory_grow_failed();
    assert_eq!(budget.reserved_bytes(), 0);
}

#[test]
fn memory_budget_from_config() {
    let mut config = ExtrusionConfig::default();
    let budget = config.memory_budget();
    assert_eq!(budget.limit_bytes(), 50 * 1024 * 1024);
    assert_eq!(budget.reserved_bytes(), 0);
    config.memory_limit_bytes = 65536;
    let mut budget = config.memory_budget();
    assert!(budget.memory_growing(0, 65536));
    assert!(!budget.memory_growing(65536, 131072));
    assert_eq!(memory_cap_message(), "linear memory limit exceeded");
}

#[test]
fn orb_search_takes_first_match() {
    let (mut search, step) = OrbSearch::start(3);
    assert_eq!(step, SearchStep::Probe(0));
    assert_eq!(search.record(false), SearchStep::Probe(1));
    assert_eq!(search.record(true), SearchStep::Found(1));
    assert!(!search.is_searching());
}

#[test]
fn orb_search_without_match() {
    let (_, step) = OrbSearch::start(0);
    assert_eq!(step, SearchStep::NotFound);
    let (mut search, _) = OrbSearch::start(2);
    assert_eq!(search.record(false), SearchStep::Probe(1));
    assert_eq!(search.record(false), SearchStep::NotFound);
}

#[test]
fn execution_missing_orb() {
    let req = plain_request("missing-orb");
    let (mut exec, action) = Execution::start(&req, 1);
    assert!(matches!(action, ExecutionAction::Probe(0)));
    match exec.step(ExecutionEvent::Probed(false)) {
        ExecutionAction::Fail(m) => {
            assert!(m.contains("Orb 'missing-orb' not found"));
        }
        other => panic!("expected a failure, got {:?}", other),
    }
    assert_eq!(exec.current_phase(), ExecutionPhase::Finished);
    let (_, action) = Execution::start(&req, 0);
    assert!(matches!(action, ExecutionAction::Fail(_)));
}

#[test]
fn execution_success_reports_fuel() {
    let mut req = plain_request("hello-wasm");
    req.fuel_limit = Some(1_000_000);
    let (mut exec, _) = Execution::start(&req, 3);
    assert!(matches!(exec.step(ExecutionEvent::Probed(false)), ExecutionAction::Probe(1)));
    assert!(matches!(exec.step(ExecutionEvent::Probed(true)), ExecutionAction::Load(1)));
    assert!(exec.accepts(&ExecutionEvent::Loaded));
    assert!(!exec.accepts(&ExecutionEvent::Probed(true)));
    assert!(matches!(exec.step(ExecutionEvent::Loaded), ExecutionAction::Launch));
    match exec.step(ExecutionEvent::Ran(400_000)) {
        ExecutionAction::Respond(resp) => {
            assert_eq!(resp.fuel_consumed, 600_000);
            let value: serde_json::Value = serde_json::from_str(&resp.output_json).unwrap();
            assert_eq!(value["status"], "success");
        }
        other => panic!("expected a response, got {:?}", other),
    }
}

#[test]
fn execution_default_budget_and_failures() {
    let req = plain_request("hello-wasm");
    let (mut exec, _) = Execution::start(&req, 1);
    exec.step(ExecutionEvent::Probed(true));
    exec.step(ExecutionEvent::Loaded);
    match exec.step(ExecutionEvent::Ran(9_999_000)) {
        ExecutionAction::Respond(resp) => assert_eq!(resp.fuel_consumed, 1_000),
        other => panic!("expected a response, got {:?}", other),
    }
    let (mut exec, _) = Execution::start(&req, 1);
    exec.step(ExecutionEvent::Probed(true));
    assert!(matches!(exec.step(ExecutionEvent::LoadFailed), ExecutionAction::Abort));
    let (mut exec, _) = Execution::start(&req, 1);
    exec.step(ExecutionEvent::Probed(true));
    exec.step(ExecutionEvent::Loaded);
    assert!(matches!(exec.step(ExecutionEvent::RunFailed), ExecutionAction::Abort));
}

#[test]
fn daemon_padding_keeps_answer() {
    let (s1, a1) = start().step(DaemonEvent::LineRead("{\"k\":1}".to_string()));
    let (s2, a2) = start().step(DaemonEvent::LineRead(" \t{\"k\":1}\u{a0} ".to_string()));
    assert_eq!(s1, s2);
    match (a1, a2) {
        (DaemonAction::Parse(x), DaemonAction::Parse(y)) => assert_eq!(x, y),
        other => panic!("expected two parses, got {:?}", other),
    }
}

#[test]
fn env_vars_len_grows_only_for_new_names() {
    let mut env = EnvVars::new();
    env.insert("A".to_string(), "1".to_string());
    assert_eq!(env.len(), 1);
    env.insert("A".to_string(), "2".to_string());
    assert_eq!(env.len(), 1);
    env.insert("B".to_string(), "3".to_string());
    assert_eq!(env.len(), 2);
}

#[test]
fn trim_agrees_with_std_on_every_char() {
    for code in 0u32..=0x10FFFF {
        if let Some(c) = char::from_u32(code) {
            let padded = format!("{}x{}", c, c);
            assert_eq!(trim(&padded), padded.trim(), "character U+{:04X}", code);
        }
    }
}

#[test]
fn error_reply_escapes_ascii_controls() {
    let line = error_reply("a\u{1}\u{1f}\u{7f}\u{8}\u{c}\r\té");
    assert_eq!(line, "{\"error\":\"a\\u0001\\u001f\u{7f}\\b\\f\\r\\té\"}");
    assert!(!line.contains('\n'));
}
