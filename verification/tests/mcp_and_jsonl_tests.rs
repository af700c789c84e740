use codex::json::JsonValue;
use codex::jsonl::{
    thread_event_jsonl_reader, JsonlLineError, JsonlRecordError, JsonlThreadEventParser, LineRead,
    ReaderStep,
};
use codex::mcp_config::{
    AddServerRequest, McpConfigError, McpConfigManager, McpServerDefinition, McpServerEntry,
    McpTransport, StdioServerDefinition, StreamableHttpDefinition,
};
use codex::mcp_runtime::{
    merge_stdio_env, prepare_http_runtime, spawn_retry_start, spawn_retry_step, McpRuntimeServer,
    McpRuntimeTransport, SpawnStep,
};
use codex::mcp_config::{AddAppRuntimeRequest, AppRuntimeEntry};
use codex::mcp_runtime::{McpRuntimeApi, McpRuntimeError, McpRuntimeSummaryTransport};
use std::collections::BTreeMap;
use std::io::{Read, Write};

fn member<'a>(v: &'a JsonValue, key: &str) -> Option<&'a JsonValue> {
    match v {
        JsonValue::Object(m) => m.iter().rev().find(|(k, _)| k == key).map(|(_, v)| v),
        _ => None,
    }
}

fn string_member(v: &JsonValue, key: &str) -> Option<String> {
    match member(v, key) {
        Some(JsonValue::String(s)) => Some(s.clone()),
        _ => None,
    }
}

fn stdio_definition(command: &str) -> McpServerDefinition {
    McpServerDefinition {
        transport: McpTransport::Stdio(StdioServerDefinition {
            command: command.to_string(),
            args: Vec::new(),
            env: Vec::new(),
            timeout_ms: None,
        }),
        description: None,
        tags: Vec::new(),
        tools: None,
    }
}

fn http_definition(url: &str, var: Option<&str>, headers: Vec<(String, String)>) -> McpServerDefinition {
    McpServerDefinition {
        transport: McpTransport::StreamableHttp(StreamableHttpDefinition {
            url: url.to_string(),
            headers,
            bearer_env_var: var.map(|s| s.to_string()),
            connect_timeout_ms: Some(1200),
            request_timeout_ms: Some(3400),
        }),
        description: None,
        tags: Vec::new(),
        tools: None,
    }
}

fn add(
    manager: &McpConfigManager,
    servers: Vec<McpServerEntry>,
    name: &str,
    definition: McpServerDefinition,
) -> Vec<McpServerEntry> {
    let prepared = manager
        .prepare_add_server(AddServerRequest {
            name: name.into(),
            definition,
            overwrite: false,
            env: Vec::new(),
            bearer_token: None,
        })
        .expect("prepare");
    manager.add_server(servers, prepared).expect("add").0
}

fn persist(file: &mut tempfile::NamedTempFile, servers: &[McpServerEntry]) {
    let mut table = toml::Table::new();
    let mut entries = toml::Table::new();
    for entry in servers {
        let mut server = toml::Table::new();
        if let McpTransport::Stdio(def) = &entry.definition.transport {
            server.insert("transport".into(), toml::Value::String("stdio".into()));
            server.insert("command".into(), toml::Value::String(def.command.clone()));
        }
        entries.insert(entry.name.clone(), toml::Value::Table(server));
    }
    if !entries.is_empty() {
        table.insert("mcp_servers".into(), toml::Value::Table(entries));
    }
    let text = toml::to_string_pretty(&table).expect("serialize");
    file.as_file_mut().set_len(0).expect("truncate");
    file.write_all(text.as_bytes()).expect("write");
    file.flush().expect("flush");
}

fn read_back(file: &tempfile::NamedTempFile) -> String {
    let mut text = String::new();
    file.reopen().expect("reopen").read_to_string(&mut text).expect("read config");
    text
}

#[test]
fn remove_server_prunes_config() {
    let mut file = tempfile::NamedTempFile::new().expect("config file");
    let manager = McpConfigManager::new(file.path().to_str().unwrap());

    let servers = add(&manager, Vec::new(), "one", stdio_definition("one"));
    let servers = add(&manager, servers, "two", stdio_definition("two"));

    let (servers, removed) = manager.remove_server(servers, "one");
    assert!(removed.is_some());
    persist(&mut file, &servers);

    let listed = manager.list_servers(servers);
    assert_eq!(listed.len(), 1);
    assert_eq!(listed[0].name, "two");

    let config = read_back(&file);
    let value: toml::Value = config.parse().expect("parse config");
    let table = value.as_table().expect("table root");
    let servers_value = table.get("mcp_servers").cloned().expect("servers");
    let servers: BTreeMap<String, toml::Value> = servers_value.try_into().expect("decode servers");
    assert!(!servers.contains_key("one"));
    assert!(servers.contains_key("two"));
}

#[test]
fn config_manager_paths_and_lookup_errors() {
    let manager = McpConfigManager::from_code_home("/tmp/home");
    assert_eq!(manager.config_path(), "/tmp/home/config.toml");
    assert!(matches!(
        manager.get_server(Vec::new(), "x"),
        Err(McpConfigError::ServerNotFound(n)) if n == "x"
    ));
    let servers = add(&manager, Vec::new(), "one", stdio_definition("one"));
    let prepared = manager
        .prepare_add_server(AddServerRequest {
            name: "one".into(),
            definition: stdio_definition("again"),
            overwrite: false,
            env: Vec::new(),
            bearer_token: None,
        })
        .unwrap();
    assert!(matches!(
        manager.add_server(servers, prepared),
        Err(McpConfigError::ServerAlreadyExists(n)) if n == "one"
    ));
    assert!(matches!(
        manager.prepare_add_server(AddServerRequest {
            name: "  ".into(),
            definition: stdio_definition("x"),
            overwrite: false,
            env: Vec::new(),
            bearer_token: None,
        }),
        Err(McpConfigError::InvalidServerName)
    ));
}

#[test]
fn add_stdio_server_injects_env() {
    let manager = McpConfigManager::new("/tmp/config.toml");
    let prepared = manager
        .prepare_add_server(AddServerRequest {
            name: "local".into(),
            definition: stdio_definition("my-mcp"),
            overwrite: false,
            env: vec![("MCP_STDIO_TEST_KEY".into(), "secret".into())],
            bearer_token: None,
        })
        .expect("add server");
    assert_eq!(prepared.env, vec![("MCP_STDIO_TEST_KEY".to_string(), "secret".to_string())]);
    match &prepared.entry.definition.transport {
        McpTransport::Stdio(def) => {
            assert_eq!(def.env, vec![("MCP_STDIO_TEST_KEY".to_string(), "secret".to_string())]);
        }
        _ => panic!("expected stdio transport"),
    }
    let bad = manager.prepare_add_server(AddServerRequest {
        name: "local".into(),
        definition: stdio_definition("my-mcp"),
        overwrite: false,
        env: vec![("BAD=KEY".into(), "x".into())],
        bearer_token: None,
    });
    assert!(matches!(bad, Err(McpConfigError::InvalidEnvVarName { name }) if name == "BAD=KEY"));
    let stdio_token = manager.prepare_add_server(AddServerRequest {
        name: "local".into(),
        definition: stdio_definition("my-mcp"),
        overwrite: false,
        env: Vec::new(),
        bearer_token: Some("t".into()),
    });
    assert!(matches!(stdio_token, Err(McpConfigError::UnsupportedAuthTransport { .. })));
}

#[test]
fn add_streamable_http_sets_token_and_allows_login_logout() {
    let manager = McpConfigManager::new("/tmp/config.toml");
    let prepared = manager
        .prepare_add_server(AddServerRequest {
            name: "remote".into(),
            definition: http_definition("https://example.test/mcp", Some("MCP_HTTP_TOKEN_E5"), Vec::new()),
            overwrite: false,
            env: Vec::new(),
            bearer_token: Some("token-a".into()),
        })
        .expect("add server");
    assert_eq!(prepared.env, vec![("MCP_HTTP_TOKEN_E5".to_string(), "token-a".to_string())]);
    let (servers, _) = manager.add_server(Vec::new(), prepared).unwrap();

    let login = manager.login(servers, "remote").expect("login");
    assert_eq!(login.env_var.as_deref(), Some("MCP_HTTP_TOKEN_E5"));

    let servers = add(
        &manager,
        Vec::new(),
        "remote",
        http_definition("https://example.test/mcp", Some("MCP_HTTP_TOKEN_E5"), Vec::new()),
    );
    let logout = manager
        .logout(servers, "remote", &vec!["MCP_HTTP_TOKEN_E5".to_string()])
        .expect("logout");
    assert!(logout.cleared);
    assert_eq!(logout.server, "remote");
}

#[test]
fn runtime_http_resolves_bearer_and_sets_header() {
    let def = http_definition(
        "https://example.test/mcp",
        Some("MCP_HTTP_TOKEN_E6"),
        vec![("X-Test".to_string(), "true".to_string())],
    );
    let env = vec![("MCP_HTTP_TOKEN_E6".to_string(), "token-123".to_string())];
    let server = McpRuntimeServer::from_definition("remote", def, &env);
    match &server.transport {
        McpRuntimeTransport::StreamableHttp(http) => {
            assert_eq!(http.bearer_token.as_deref(), Some("token-123"));
            assert!(http
                .headers
                .contains(&("Authorization".to_string(), "Bearer token-123".to_string())));
            assert!(http.headers.contains(&("X-Test".to_string(), "true".to_string())));
        }
        other => panic!("expected streamable_http transport, got {other:?}"),
    }
    let runtime = prepare_http_runtime(server).expect("http runtime");
    assert_eq!(runtime.connector.connect_timeout.map(|t| t.nanos), Some(1_200_000_000));
    assert_eq!(runtime.connector.request_timeout.map(|t| t.nanos), Some(3_400_000_000));
}

#[test]
fn runtime_http_preserves_existing_auth_header() {
    let def = http_definition(
        "https://example.test/custom",
        Some("MCP_HTTP_TOKEN_E6B"),
        vec![("authorization".to_string(), "Custom 123".to_string())],
    );
    let env = vec![("MCP_HTTP_TOKEN_E6B".to_string(), "token-override".to_string())];
    let server = McpRuntimeServer::from_definition("remote-custom", def, &env);
    match &server.transport {
        McpRuntimeTransport::StreamableHttp(http) => {
            assert_eq!(http.headers, vec![("authorization".to_string(), "Custom 123".to_string())]);
            assert_eq!(http.bearer_token.as_deref(), Some("token-override"));
        }
        other => panic!("expected streamable_http transport, got {other:?}"),
    }
}

#[test]
fn stdio_env_merges_with_later_values_winning() {
    let merged = merge_stdio_env(
        &Some("/code_home".to_string()),
        &vec![("BASE_ONLY".into(), "base".into()), ("OVERRIDE_ME".into(), "base".into())],
        &vec![("OVERRIDE_ME".into(), "runtime".into()), ("RUNTIME_ONLY".into(), "runtime-env".into())],
    );
    let map: BTreeMap<String, String> = merged.into_iter().collect();
    assert_eq!(map.get("CODEX_HOME").map(String::as_str), Some("/code_home"));
    assert_eq!(map.get("BASE_ONLY").map(String::as_str), Some("base"));
    assert_eq!(map.get("OVERRIDE_ME").map(String::as_str), Some("runtime"));
    assert_eq!(map.get("RUNTIME_ONLY").map(String::as_str), Some("runtime-env"));
    assert_eq!(map.len(), 4);
}

#[test]
fn spawn_retries_busy_binary_with_capped_backoff() {
    let mut state = spawn_retry_start();
    let mut waits = Vec::new();
    loop {
        match spawn_retry_step(&mut state, true) {
            SpawnStep::Retry(d) => waits.push(d.nanos / 1_000_000),
            SpawnStep::Fail => break,
        }
    }
    assert_eq!(waits, vec![2, 4, 8, 16]);
    let mut state = spawn_retry_start();
    assert!(matches!(spawn_retry_step(&mut state, false), SpawnStep::Fail));
}

#[test]
fn jsonl_parser_tracks_thread_and_turn_context() {
    let mut parser = JsonlThreadEventParser::new();
    assert!(matches!(parser.parse_line("   \r"), Ok(None)));
    let started = parser
        .parse_line("{\"type\":\"thread.started\",\"thread_id\":\"thread-1\"}")
        .unwrap()
        .unwrap();
    assert_eq!(string_member(&started, "thread_id").as_deref(), Some("thread-1"));
    let turn = parser.parse_line("{\"type\":\"turn.started\"}").unwrap().unwrap();
    assert_eq!(string_member(&turn, "turn_id").as_deref(), Some("synthetic-turn-1"));
    assert_eq!(string_member(&turn, "thread_id").as_deref(), Some("thread-1"));
    let item = parser
        .parse_line(
            "{\"type\":\"item.delta\",\"item_id\":\"item-1\",\"item_type\":\"agent_message\",\"content\":\"hi\"}",
        )
        .unwrap()
        .unwrap();
    assert_eq!(string_member(&item, "turn_id").as_deref(), Some("synthetic-turn-1"));
    match member(&item, "delta") {
        Some(delta) => assert_eq!(string_member(delta, "text_delta").as_deref(), Some("hi")),
        None => panic!("delta missing"),
    }
    let completed = parser.parse_line("{\"type\":\"turn.completed\"}").unwrap().unwrap();
    assert_eq!(string_member(&completed, "turn_id").as_deref(), Some("synthetic-turn-1"));
    let orphan = parser.parse_line("{\"type\":\"item.started\",\"item\":{\"id\":\"x\",\"type\":\"reasoning\",\"text\":\"t\"}}");
    match orphan {
        Err(JsonlLineError::Normalize { message, .. }) => {
            assert_eq!(message, "item.started missing `turn_id` and no prior context to infer it")
        }
        other => panic!("unexpected {other:?}"),
    }
    parser.reset();
    let again = parser.parse_line("{\"type\":\"turn.started\",\"thread_id\":\"t2\"}").unwrap().unwrap();
    assert_eq!(string_member(&again, "turn_id").as_deref(), Some("synthetic-turn-1"));
}

#[test]
fn jsonl_item_payload_is_flattened() {
    let mut parser = JsonlThreadEventParser::new();
    let line = "{\"type\":\"item.started\",\"thread_id\":\"th\",\"turn_id\":\"tu\",\"item\":{\"id\":\"i1\",\"type\":\"command_execution\",\"command\":\"ls\",\"aggregated_output\":\"out\",\"exit_code\":0}}";
    let event = parser.parse_line(line).unwrap().unwrap();
    assert!(member(&event, "item").is_none());
    assert_eq!(string_member(&event, "item_type").as_deref(), Some("command_execution"));
    assert_eq!(string_member(&event, "type").as_deref(), Some("item.started"));
    let content = member(&event, "content").expect("content");
    assert_eq!(string_member(content, "command").as_deref(), Some("ls"));
    assert_eq!(string_member(content, "stdout").as_deref(), Some("out"));
    assert!(member(&event, "aggregated_output").is_none());
}

#[test]
fn json_stream_propagates_parse_errors() {
    let mut parser = JsonlThreadEventParser::new();
    parser.parse_line("{\"type\":\"thread.started\",\"thread_id\":\"thread-err\"}").unwrap();
    match parser.parse_line("this is not json") {
        Err(JsonlLineError::Parse { line }) => assert_eq!(line, "this is not json"),
        other => panic!("expected parse error, got {other:?}"),
    }
    match parser.parse_line("{\"thread_id\":\"x\"}") {
        Err(JsonlLineError::Normalize { message, .. }) => assert_eq!(message, "event missing `type`"),
        other => panic!("unexpected {other:?}"),
    }
}

#[test]
fn jsonl_reader_numbers_lines_and_skips_blanks() {
    let mut reader = thread_event_jsonl_reader();
    assert!(matches!(reader.on_read(LineRead::Line("\n".into())), ReaderStep::Skip));
    match reader.on_read(LineRead::Line("{\"type\":\"thread.started\",\"thread_id\":\"a\"}\n".into())) {
        ReaderStep::Yield(rec) => {
            assert_eq!(rec.line_number, 2);
            assert!(rec.outcome.is_ok());
        }
        other => panic!("unexpected {other:?}"),
    }
    match reader.on_read(LineRead::Failed) {
        ReaderStep::Yield(rec) => {
            assert_eq!(rec.line_number, 3);
            assert!(matches!(rec.outcome, Err(JsonlRecordError::Read)));
        }
        other => panic!("unexpected {other:?}"),
    }
    assert!(matches!(reader.on_read(LineRead::Line("x".into())), ReaderStep::End));
}

fn app_definition(binary: Option<&str>) -> codex::mcp_config::AppRuntimeDefinition {
    codex::mcp_config::AppRuntimeDefinition {
        description: Some("app".into()),
        tags: vec!["dev".into()],
        env: vec![("RUNTIME_ONLY".into(), "x".into())],
        code_home: None,
        current_dir: None,
        mirror_stdio: Some(true),
        startup_timeout_ms: Some(1500),
        binary: binary.map(String::from),
        metadata: JsonValue::Null,
    }
}

fn defaults() -> codex::mcp_runtime::StdioServerConfig {
    codex::mcp_runtime::StdioServerConfig {
        binary: "codex".into(),
        code_home: Some("/code_home".into()),
        current_dir: Some("/cwd".into()),
        env: vec![("BASE_ONLY".into(), "base".into())],
        app_server_analytics_default_enabled: true,
        mirror_stdio: false,
        startup_timeout: codex::time::TimeSpan::from_secs(3),
    }
}

#[test]
fn app_runtimes_add_get_and_launch() {
    let manager = McpConfigManager::new("/tmp/config.toml");
    let table = manager
        .add_app_runtime(
            Vec::new(),
            AddAppRuntimeRequest { name: "alpha".into(), definition: app_definition(None), overwrite: false },
        )
        .expect("add runtime");
    assert!(matches!(
        manager.add_app_runtime(
            Vec::new(),
            AddAppRuntimeRequest { name: " ".into(), definition: app_definition(None), overwrite: false },
        ),
        Err(McpConfigError::InvalidAppRuntimeName)
    ));
    let entry: AppRuntimeEntry = manager.get_app_runtime(table, "alpha").expect("get runtime");
    let launcher = codex::mcp_runtime::AppRuntime::from_entry(entry).into_launcher(&defaults());
    assert_eq!(launcher.config.binary, "codex");
    assert_eq!(launcher.config.code_home.as_deref(), Some("/code_home"));
    assert!(launcher.config.mirror_stdio);
    assert_eq!(launcher.config.startup_timeout, codex::time::TimeSpan::from_millis(1500));
    let map: BTreeMap<String, String> = launcher.config.env.into_iter().collect();
    assert_eq!(map.get("BASE_ONLY").map(String::as_str), Some("base"));
    assert_eq!(map.get("RUNTIME_ONLY").map(String::as_str), Some("x"));
    assert_eq!(map.get("CODEX_HOME").map(String::as_str), Some("/code_home"));
}

#[test]
fn streamable_http_connector_converts_timeouts_and_headers() {
    let def = http_definition(
        "https://example.test/stream",
        Some("MCP_HTTP_TOKEN_E7"),
        vec![("X-Test".to_string(), "true".to_string())],
    );
    let env = vec![("MCP_HTTP_TOKEN_E7".to_string(), "token-launcher".to_string())];
    let launcher = McpRuntimeServer::from_definition("remote", def, &env).into_launcher(&defaults());
    let connector = codex::mcp_runtime::http_connector_of(launcher).expect("http connector");
    assert_eq!(connector.url, "https://example.test/stream");
    assert!(connector
        .headers
        .contains(&("Authorization".to_string(), "Bearer token-launcher".to_string())));
    assert_eq!(connector.connect_timeout, Some(codex::time::TimeSpan::from_millis(1200)));
    assert_eq!(connector.request_timeout, Some(codex::time::TimeSpan::from_millis(3400)));

    let stdio = McpRuntimeServer::from_definition("local", stdio_definition("my-mcp"), &env).into_launcher(&defaults());
    let launch = codex::mcp_runtime::stdio_launcher_of(stdio).expect("stdio launcher");
    assert_eq!(launch.command, "my-mcp");
    assert_eq!(launch.timeout, codex::time::TimeSpan::from_secs(3));
}

#[test]
fn runtime_manager_orders_by_name_and_keeps_last() {
    let env: Vec<(String, String)> = Vec::new();
    let mk = |name: &str, command: &str| {
        McpRuntimeServer::from_definition(name, stdio_definition(command), &env).into_launcher(&defaults())
    };
    let http = McpRuntimeServer::from_definition(
        "alpha",
        http_definition("https://example.test/a", None, Vec::new()),
        &env,
    )
    .into_launcher(&defaults());
    let api = McpRuntimeApi::new(vec![mk("zeta", "z1"), http, mk("beta", "b1"), mk("zeta", "z2")]);
    let names: Vec<String> = api.manager.available().into_iter().map(|s| s.name).collect();
    assert_eq!(names, vec!["alpha".to_string(), "beta".to_string(), "zeta".to_string()]);
    assert_eq!(api.manager.available()[0].transport, McpRuntimeSummaryTransport::StreamableHttp);
    let zeta = api.stdio_launcher("zeta").expect("stdio launcher");
    assert_eq!(zeta.command, "z2");
    assert!(matches!(api.launcher("missing"), Err(McpRuntimeError::NotFound(n)) if n == "missing"));
    assert!(matches!(
        api.stdio_launcher("alpha"),
        Err(McpRuntimeError::UnsupportedTransport { .. })
    ));
    assert!(api.http_connector("alpha").is_ok());
    // lookups leave the manager untouched
    assert_eq!(api.manager.available().len(), 3);
}

#[test]
fn normalizes_a_parsed_event_value() {
    let mut context = codex::jsonl::StreamContext::new();
    let started = JsonValue::Object(vec![
        ("type".to_string(), JsonValue::String("thread.started".to_string())),
        ("thread_id".to_string(), JsonValue::String("th-1".to_string())),
    ]);
    let out = codex::jsonl::normalize_thread_event_value("line-a", started, &mut context).unwrap();
    assert_eq!(string_member(&out, "thread_id").as_deref(), Some("th-1"));
    assert_eq!(context.current_thread_id.as_deref(), Some("th-1"));
    let turn = JsonValue::Object(vec![("type".to_string(), JsonValue::String("turn.started".to_string()))]);
    let out = codex::jsonl::normalize_thread_event_value("line-b", turn, &mut context).unwrap();
    assert_eq!(string_member(&out, "turn_id").as_deref(), Some("synthetic-turn-1"));
    assert_eq!(string_member(&out, "thread_id").as_deref(), Some("th-1"));
    let untyped = JsonValue::Object(Vec::new());
    match codex::jsonl::normalize_thread_event_value("line-c", untyped, &mut context) {
        Err(JsonlLineError::Normalize { line, message }) => {
            assert_eq!(line, "line-c");
            assert_eq!(message, "event missing `type`");
        }
        other => panic!("unexpected {other:?}"),
    }
}

#[test]
fn listed_servers_come_in_name_order_one_per_name() {
    let manager = McpConfigManager::new("/tmp/unused-config.toml");
    let servers = vec![
        McpServerEntry { name: "zeta".to_string(), definition: stdio_definition("z") },
        McpServerEntry { name: "alpha".to_string(), definition: stdio_definition("a1") },
        McpServerEntry { name: "mid".to_string(), definition: stdio_definition("m") },
        McpServerEntry { name: "alpha".to_string(), definition: stdio_definition("a2") },
    ];
    let listed = manager.list_servers(servers);
    let names: Vec<&str> = listed.iter().map(|e| e.name.as_str()).collect();
    assert_eq!(names, vec!["alpha", "mid", "zeta"]);
    match &listed[0].definition.transport {
        McpTransport::Stdio(def) => assert_eq!(def.command, "a2"),
        _ => panic!("expected stdio transport"),
    }
}

#[test]
fn listed_app_runtimes_come_in_name_order_one_per_name() {
    let manager = McpConfigManager::new("/tmp/unused-config.toml");
    let runtimes = vec![
        AppRuntimeEntry { name: "b".to_string(), definition: app_definition(Some("first")) },
        AppRuntimeEntry { name: "a".to_string(), definition: app_definition(None) },
        AppRuntimeEntry { name: "b".to_string(), definition: app_definition(Some("second")) },
    ];
    let listed = manager.list_app_runtimes(runtimes);
    let names: Vec<&str> = listed.iter().map(|e| e.name.as_str()).collect();
    assert_eq!(names, vec!["a", "b"]);
    assert_eq!(listed[1].definition.binary.as_deref(), Some("second"));
}
