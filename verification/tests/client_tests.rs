use codex::capabilities::{
    capability_cache_ttl_decision, BinaryFingerprint, CapabilityCacheKey, CapabilityCachePolicy,
    CapabilityProbePlan, CapabilitySupport, CodexCapabilities, CodexFeatureFlags,
};
use codex::auth::{parse_login_success, CapturedOutput, CodexAuthMethod, CodexAuthStatus, CodexLogoutStatus};
use codex::client::{
    default_binary_path, default_rust_log_value, default_timeout, reasoning_config_for, CodexClient,
    ColorMode, ExecStreamRequest,
};
use codex::features::parse_help_output;
use codex::home::CodexHomeLayout;
use codex::time::{TimeSpan, Timestamp};
use codex::version::{parse_version_output, CodexReleaseChannel};

fn at(secs: u64) -> Timestamp {
    Timestamp::from_unix_secs(secs)
}

fn capability_snapshot_with_metadata(
    collected_at: Timestamp,
    fingerprint: Option<BinaryFingerprint>,
) -> CodexCapabilities {
    CodexCapabilities {
        cache_key: CapabilityCacheKey { binary_path: "/tmp/codex".to_string() },
        fingerprint,
        version: None,
        features: CodexFeatureFlags::default(),
        probe_plan: CapabilityProbePlan::default(),
        collected_at,
    }
}

fn capabilities_with_feature_flags(features: CodexFeatureFlags) -> CodexCapabilities {
    CodexCapabilities {
        cache_key: CapabilityCacheKey { binary_path: "codex".to_string() },
        fingerprint: None,
        version: None,
        features,
        probe_plan: CapabilityProbePlan::default(),
        collected_at: at(0),
    }
}

fn strings(v: &[&str]) -> Vec<String> {
    v.iter().map(|s| s.to_string()).collect()
}

#[test]
fn builder_defaults_are_sane() {
    let builder = CodexClient::builder();
    assert!(builder.model.is_none());
    assert_eq!(builder.timeout, default_timeout());
    assert_eq!(builder.color_mode, ColorMode::Never);
    assert!(builder.codex_home.is_none());
    assert!(builder.create_home_dirs);
    assert!(builder.working_dir.is_none());
    assert!(builder.images.is_empty());
    assert!(!builder.json_output);
    assert!(!builder.quiet);
    assert!(builder.json_event_log.is_none());
    assert!(builder.capability_overrides.is_empty());
    assert_eq!(builder.capability_cache_policy, CapabilityCachePolicy::PreferCache);
}

#[test]
fn builder_collects_images() {
    let client = CodexClient::builder().image("foo.png").image("bar.jpg").build();
    assert_eq!(client.images.len(), 2);
    assert_eq!(client.images[0], "foo.png");
    assert_eq!(client.images[1], "bar.jpg");
}

#[test]
fn builder_sets_json_flag() {
    let client = CodexClient::builder().json(true).build();
    assert!(client.json_output);
}

#[test]
fn builder_sets_json_event_log() {
    let client = CodexClient::builder().json_event_log("events.log").build();
    assert_eq!(client.json_event_log, Some("events.log".to_string()));
}

#[test]
fn builder_sets_quiet_flag() {
    let client = CodexClient::builder().quiet(true).build();
    assert!(client.quiet);
}

#[test]
fn builder_mirrors_stdout_by_default() {
    let client = CodexClient::builder().build();
    assert!(client.mirror_stdout);
}

#[test]
fn builder_can_disable_stdout_mirroring() {
    let client = CodexClient::builder().mirror_stdout(false).build();
    assert!(!client.mirror_stdout);
}

#[test]
fn default_timeout_is_two_minutes() {
    assert_eq!(default_timeout(), TimeSpan::from_secs(120));
}

#[test]
fn default_binary_prefers_environment_value() {
    assert_eq!(default_binary_path(Some("custom_codex")), "custom_codex");
    assert_eq!(default_binary_path(None), "codex");
}

#[test]
fn default_rust_log_only_when_unset() {
    assert_eq!(default_rust_log_value(false), Some("error"));
    assert_eq!(default_rust_log_value(true), None);
}

#[test]
fn command_env_lists_binary_home_and_rust_log() {
    let client = CodexClient::builder()
        .binary("/app/bundled/codex")
        .codex_home("/custom/codex")
        .build();
    let envs = client.command_env.environment_overrides(false);
    assert_eq!(
        envs,
        vec![
            ("CODEX_BINARY".to_string(), "/app/bundled/codex".to_string()),
            ("CODEX_HOME".to_string(), "/custom/codex".to_string()),
            ("RUST_LOG".to_string(), "error".to_string()),
        ]
    );
    let envs = CodexClient::builder().build().command_env.environment_overrides(true);
    assert_eq!(envs, vec![("CODEX_BINARY".to_string(), "codex".to_string())]);
}

#[test]
fn codex_home_layout_exposes_paths() {
    let root = "/tmp/codex_layout_root";
    let layout = CodexHomeLayout::new(root);

    assert_eq!(layout.root(), root);
    assert_eq!(layout.config_path(), "/tmp/codex_layout_root/config.toml");
    assert_eq!(layout.auth_path(), "/tmp/codex_layout_root/auth.json");
    assert_eq!(layout.credentials_path(), "/tmp/codex_layout_root/.credentials.json");
    assert_eq!(layout.history_path(), "/tmp/codex_layout_root/history.jsonl");
    assert_eq!(layout.conversations_dir(), "/tmp/codex_layout_root/conversations");
    assert_eq!(layout.logs_dir(), "/tmp/codex_layout_root/logs");
}

#[test]
fn codex_client_returns_configured_home_layout() {
    let client = CodexClient::builder().codex_home("app_codex_home").build();
    let layout = client.codex_home_layout().expect("layout missing");
    assert_eq!(layout.root(), "app_codex_home");
    assert_eq!(layout.conversations_dir(), "app_codex_home/conversations");
    assert!(CodexClient::builder().build().codex_home_layout().is_none());
}

#[test]
fn parses_version_output_fields() {
    let parsed = parse_version_output("codex v3.4.5-nightly (commit abc1234)");
    assert_eq!(parsed.semantic, Some((3, 4, 5)));
    assert_eq!(parsed.channel, CodexReleaseChannel::Nightly);
    assert_eq!(parsed.commit.as_deref(), Some("abc1234"));
    assert_eq!(parsed.raw, "codex v3.4.5-nightly (commit abc1234)".to_string());
}

#[test]
fn capability_ttl_decision_reuses_fresh_snapshot() {
    let snapshot = capability_snapshot_with_metadata(
        at(10),
        Some(BinaryFingerprint {
            canonical_path: Some("/tmp/codex".to_string()),
            modified: Some(at(1)),
            len: Some(123),
        }),
    );
    let decision = capability_cache_ttl_decision(Some(&snapshot), TimeSpan::from_secs(300), at(100));
    assert!(!decision.should_probe);
    assert_eq!(decision.policy, CapabilityCachePolicy::PreferCache);
}

#[test]
fn capability_ttl_decision_refreshes_after_ttl_with_fingerprint() {
    let snapshot = capability_snapshot_with_metadata(
        at(1),
        Some(BinaryFingerprint {
            canonical_path: Some("/tmp/codex".to_string()),
            modified: Some(at(1)),
            len: Some(321),
        }),
    );
    let decision = capability_cache_ttl_decision(Some(&snapshot), TimeSpan::from_secs(5), at(10));
    assert!(decision.should_probe);
    assert_eq!(decision.policy, CapabilityCachePolicy::Refresh);
}

#[test]
fn capability_ttl_decision_bypasses_when_metadata_missing() {
    let snapshot = capability_snapshot_with_metadata(at(2), None);
    let decision = capability_cache_ttl_decision(Some(&snapshot), TimeSpan::from_secs(5), at(10));
    assert!(decision.should_probe);
    assert_eq!(decision.policy, CapabilityCachePolicy::Bypass);
}

#[test]
fn capability_ttl_decision_probes_without_snapshot_and_before_collection() {
    let decision = capability_cache_ttl_decision(None, TimeSpan::from_secs(5), at(10));
    assert!(decision.should_probe);
    assert_eq!(decision.policy, CapabilityCachePolicy::PreferCache);
    let snapshot = capability_snapshot_with_metadata(at(50), None);
    let decision = capability_cache_ttl_decision(Some(&snapshot), TimeSpan::from_secs(500), at(10));
    assert!(decision.should_probe);
    assert_eq!(decision.policy, CapabilityCachePolicy::Bypass);
}

#[test]
fn parses_help_output_flags() {
    let help = "Usage: codex --output-schema ... add-dir ... login --mcp. See `codex features list`.";
    let parsed = parse_help_output(help);
    assert!(parsed.supports_output_schema);
    assert!(parsed.supports_add_dir);
    assert!(parsed.supports_mcp_login);
    assert!(parsed.supports_features_list);
}

#[test]
fn capability_guard_reports_detected_support() {
    let mut flags = CodexFeatureFlags::default();
    flags.supports_features_list = true;
    flags.supports_output_schema = true;
    flags.supports_add_dir = true;
    flags.supports_mcp_login = true;
    let capabilities = capabilities_with_feature_flags(flags);

    let output_schema = capabilities.guard_output_schema();
    assert_eq!(output_schema.support, CapabilitySupport::Supported);
    assert!(output_schema.is_supported());

    let add_dir = capabilities.guard_add_dir();
    assert_eq!(add_dir.support, CapabilitySupport::Supported);
    assert!(add_dir.is_supported());

    let mcp_login = capabilities.guard_mcp_login();
    assert_eq!(mcp_login.support, CapabilitySupport::Supported);

    let features_list = capabilities.guard_features_list();
    assert_eq!(features_list.support, CapabilitySupport::Supported);
}

#[test]
fn capability_guard_marks_absent_feature_as_unsupported() {
    let mut flags = CodexFeatureFlags::default();
    flags.supports_features_list = true;
    let capabilities = capabilities_with_feature_flags(flags);

    let output_schema = capabilities.guard_output_schema();
    assert_eq!(output_schema.support, CapabilitySupport::Unsupported);
    assert!(!output_schema.is_supported());
    assert!(output_schema.notes.iter().any(|note| note.contains("features list")));

    let mcp_login = capabilities.guard_mcp_login();
    assert_eq!(mcp_login.support, CapabilitySupport::Unsupported);
}

#[test]
fn capability_guard_returns_unknown_without_feature_list() {
    let capabilities = capabilities_with_feature_flags(CodexFeatureFlags::default());

    let add_dir = capabilities.guard_add_dir();
    assert_eq!(add_dir.support, CapabilitySupport::Unknown);
    assert!(add_dir.is_unknown());
    assert!(add_dir
        .notes
        .iter()
        .any(|note| note.contains("unknown") || note.contains("unavailable")));

    let features_list = capabilities.guard_features_list();
    assert_eq!(features_list.support, CapabilitySupport::Unknown);
}

#[test]
fn reasoning_config_by_model() {
    let gpt5 = vec![
        ("model_reasoning_effort".to_string(), "medium".to_string()),
        ("model_reasoning_summary".to_string(), "auto".to_string()),
        ("model_verbosity".to_string(), "low".to_string()),
    ];
    assert_eq!(reasoning_config_for(Some("gpt-5")).unwrap(), gpt5);
    assert_eq!(reasoning_config_for(Some("gpt-5.1-codex-max")).unwrap(), gpt5);
    assert_eq!(reasoning_config_for(Some("gpt-5-codex")).unwrap(), gpt5);
    assert_eq!(reasoning_config_for(None).unwrap(), gpt5);
}

#[test]
fn color_mode_strings_are_stable() {
    assert_eq!(ColorMode::Auto.as_str(), "auto");
    assert_eq!(ColorMode::Always.as_str(), "always");
    assert_eq!(ColorMode::Never.as_str(), "never");
}

#[test]
fn parses_chatgpt_login() {
    let message = "Logged in using ChatGPT";
    let parsed = parse_login_success(message);
    assert!(matches!(parsed, Some(CodexAuthStatus::LoggedIn(CodexAuthMethod::ChatGpt))));
}

#[test]
fn parses_api_key_login() {
    let message = "Logged in using an API key - sk-1234***abcd";
    let parsed = parse_login_success(message);
    match parsed {
        Some(CodexAuthStatus::LoggedIn(CodexAuthMethod::ApiKey { masked_key })) => {
            assert_eq!(masked_key.as_deref(), Some("sk-1234***abcd"));
        }
        other => panic!("unexpected status: {other:?}"),
    }
}

#[test]
fn api_key_login_without_separator_takes_last_word() {
    let parsed = parse_login_success("Logged in with APIKEY sk-9");
    match parsed {
        Some(CodexAuthStatus::LoggedIn(CodexAuthMethod::ApiKey { masked_key })) => {
            assert_eq!(masked_key.as_deref(), Some("sk-9"));
        }
        other => panic!("unexpected status: {other:?}"),
    }
    assert!(parse_login_success("something else").is_none());
}

#[test]
fn login_status_and_logout_read_outputs() {
    let client = CodexClient::builder().build();
    let out = CapturedOutput {
        success: false,
        stdout: String::new(),
        stderr: "Not logged in".to_string(),
    };
    assert!(matches!(client.login_status(&out), Ok(CodexAuthStatus::LoggedOut)));
    let out = CapturedOutput {
        success: true,
        stdout: "Logged in using ChatGPT".to_string(),
        stderr: "  ".to_string(),
    };
    assert!(matches!(
        client.login_status(&out),
        Ok(CodexAuthStatus::LoggedIn(CodexAuthMethod::ChatGpt))
    ));
    let out = CapturedOutput { success: false, stdout: String::new(), stderr: "boom".to_string() };
    assert_eq!(client.login_status(&out).unwrap_err(), "boom");

    let out = CapturedOutput { success: true, stdout: "Not logged in".to_string(), stderr: String::new() };
    assert_eq!(client.logout(&out), Ok(CodexLogoutStatus::AlreadyLoggedOut));
    let out = CapturedOutput {
        success: true,
        stdout: "Successfully logged out".to_string(),
        stderr: String::new(),
    };
    assert_eq!(client.logout(&out), Ok(CodexLogoutStatus::LoggedOut));
}

#[test]
fn send_prompt_builds_exec_arguments() {
    let client = CodexClient::builder().model("gpt-5").image("a.png").build();
    assert!(client.send_prompt("   ", &None).is_err());
    let inv = client.send_prompt("hello", &None).unwrap();
    assert!(!inv.prompt_via_stdin);
    assert_eq!(
        inv.args,
        strings(&[
            "exec",
            "--color",
            "never",
            "--skip-git-repo-check",
            "hello",
            "--config",
            "model_reasoning_effort=medium",
            "--config",
            "model_reasoning_summary=auto",
            "--config",
            "model_verbosity=low",
            "--model",
            "gpt-5",
            "--image",
            "a.png",
        ])
    );
}

#[test]
fn exec_applies_guarded_flags_when_supported() {
    let client = CodexClient::builder().output_schema(true).add_dir("src").json(true).build();
    assert!(client.needs_capabilities());
    let mut flags = CodexFeatureFlags::default();
    flags.supports_output_schema = true;
    flags.supports_add_dir = true;
    let caps = Some(capabilities_with_feature_flags(flags));
    let inv = client.send_prompt("hello", &caps).unwrap();
    assert!(inv.prompt_via_stdin);
    assert!(inv.args.contains(&"--output-schema".to_string()));
    assert!(inv.args.contains(&"--add-dir".to_string()));
    assert!(inv.args.contains(&"src".to_string()));
    assert!(!inv.args.contains(&"hello".to_string()));
    assert_eq!(inv.args.last().map(String::as_str), Some("--json"));

    let unknown = Some(capabilities_with_feature_flags(CodexFeatureFlags::default()));
    let inv = client.send_prompt("hello", &unknown).unwrap();
    assert!(!inv.args.contains(&"--output-schema".to_string()));
    assert!(!inv.args.contains(&"--add-dir".to_string()));
}

#[test]
fn exec_output_trims_plain_and_falls_back_to_stderr_in_json() {
    let plain = CodexClient::builder().build();
    assert_eq!(plain.exec_output("  answer \n", "err"), "answer");
    let json = CodexClient::builder().json(true).build();
    assert_eq!(json.exec_output("", "{\"a\":1}\n"), "{\"a\":1}\n");
    assert_eq!(json.exec_output(" x ", "y"), " x ");
}

#[test]
fn stream_exec_arguments_and_log_choice() {
    let client = CodexClient::builder().json_event_log("client.log").build();
    let request = ExecStreamRequest {
        prompt: "go".to_string(),
        idle_timeout: None,
        output_last_message: None,
        output_schema: Some("schema.json".to_string()),
        json_event_log: None,
    };
    let args = client.stream_exec(&request, "/tmp/last.txt").unwrap();
    assert_eq!(&args[..5], &strings(&["exec", "--color", "never", "--skip-git-repo-check", "--json"])[..]);
    assert_eq!(
        &args[args.len() - 4..],
        &strings(&["--output-last-message", "/tmp/last.txt", "--output-schema", "schema.json"])[..]
    );
    assert_eq!(client.stream_json_log(&request), Some("client.log".to_string()));
    let request = ExecStreamRequest { json_event_log: Some(String::new()), ..request };
    assert_eq!(client.stream_json_log(&request), None);
    let blank = ExecStreamRequest { prompt: " ".to_string(), ..request };
    assert!(client.stream_exec(&blank, "/tmp/last.txt").is_err());
}
