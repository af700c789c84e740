use codex::mcp_config::{
    AddAppRuntimeRequest, AppRuntimeDefinition, AddServerRequest, McpConfigManager, McpServerDefinition, McpServerEntry, McpToolConfig,
    McpTransport, StdioServerDefinition, StreamableHttpDefinition,
};
use codex::mcp_runtime::{
    McpRuntimeApi, McpRuntimeError, McpRuntimeHandle, McpRuntimeManager, McpRuntimeServer,
    McpRuntimeSummaryTransport, McpRuntimeTransport, McpServerLauncherTransport, StdioServerConfig,
};
use codex::time::TimeSpan;
use std::collections::BTreeMap;
use std::io::{Read, Write};

fn stdio_definition(command: &str) -> McpServerDefinition {
    McpServerDefinition {
        transport: McpTransport::Stdio(StdioServerDefinition {
            command: command.to_string(),
            args: Vec::new(),
            env: Vec::new(),
            timeout_ms: None,
        }),
        description: None,
        tags: Vec::new(),
        tools: None,
    }
}

fn streamable_definition(url: &str, env_var: &str) -> McpServerDefinition {
    McpServerDefinition {
        transport: McpTransport::StreamableHttp(StreamableHttpDefinition {
            url: url.to_string(),
            headers: Vec::new(),
            bearer_env_var: Some(env_var.to_string()),
            connect_timeout_ms: None,
            request_timeout_ms: None,
        }),
        description: None,
        tags: Vec::new(),
        tools: None,
    }
}

fn tools(enabled: &[&str], disabled: &[&str]) -> Option<McpToolConfig> {
    Some(McpToolConfig {
        enabled: enabled.iter().map(|s| s.to_string()).collect(),
        disabled: disabled.iter().map(|s| s.to_string()).collect(),
    })
}

fn lookup<'a>(pairs: &'a [(String, String)], key: &str) -> Option<&'a str> {
    pairs.iter().rev().find(|(k, _)| k == key).map(|(_, v)| v.as_str())
}

fn copy_table(servers: &[McpServerEntry]) -> Vec<McpServerEntry> {
    servers
        .iter()
        .map(|e| McpServerEntry { name: e.name.clone(), definition: e.definition.duplicate() })
        .collect()
}

fn add_server(
    manager: &McpConfigManager,
    servers: Vec<McpServerEntry>,
    request: AddServerRequest,
) -> (Vec<McpServerEntry>, McpServerEntry, Vec<(String, String)>) {
    let prepared = manager.prepare_add_server(request).expect("add server");
    let env = prepared.env.clone();
    let (table, added) = manager.add_server(servers, prepared).expect("add server");
    (table, added, env)
}

fn persist(file: &mut tempfile::NamedTempFile, servers: &[McpServerEntry]) {
    let mut entries = toml::Table::new();
    for entry in servers {
        let mut server = toml::Table::new();
        match &entry.definition.transport {
            McpTransport::Stdio(def) => {
                server.insert("transport".into(), toml::Value::String("stdio".into()));
                server.insert("command".into(), toml::Value::String(def.command.clone()));
                let mut env = toml::Table::new();
                for (k, v) in &def.env {
                    env.insert(k.clone(), toml::Value::String(v.clone()));
                }
                server.insert("env".into(), toml::Value::Table(env));
            }
            McpTransport::StreamableHttp(def) => {
                server.insert("transport".into(), toml::Value::String("streamable_http".into()));
                server.insert("url".into(), toml::Value::String(def.url.clone()));
            }
        }
        entries.insert(entry.name.clone(), toml::Value::Table(server));
    }
    let mut table = toml::Table::new();
    table.insert("mcp_servers".into(), toml::Value::Table(entries));
    let text = toml::to_string_pretty(&table).expect("serialize");
    file.as_file_mut().set_len(0).expect("truncate");
    file.write_all(text.as_bytes()).expect("write");
    file.flush().expect("flush");
}

fn read_back(file: &tempfile::NamedTempFile) -> String {
    let mut text = String::new();
    file.reopen().expect("reopen").read_to_string(&mut text).expect("read config");
    text
}

fn no_defaults(timeout_secs: u64) -> StdioServerConfig {
    StdioServerConfig {
        binary: "codex".into(),
        code_home: None,
        current_dir: None,
        env: Vec::new(),
        app_server_analytics_default_enabled: false,
        mirror_stdio: false,
        startup_timeout: TimeSpan::from_secs(timeout_secs),
    }
}

#[test]
fn add_stdio_server_injects_env_and_persists() {
    let mut file = tempfile::NamedTempFile::new().expect("config file");
    let manager = McpConfigManager::new(file.path().to_str().unwrap());
    let env_key = "MCP_STDIO_TEST_KEY";

    let (servers, added, to_set) = add_server(
        &manager,
        Vec::new(),
        AddServerRequest {
            name: "local".into(),
            definition: stdio_definition("my-mcp"),
            overwrite: false,
            env: vec![(env_key.to_string(), "secret".to_string())],
            bearer_token: None,
        },
    );

    match &added.definition.transport {
        McpTransport::Stdio(def) => {
            assert_eq!(def.command, "my-mcp");
            assert_eq!(lookup(&def.env, env_key), Some("secret"));
        }
        _ => panic!("expected stdio transport"),
    }

    let listed = manager.list_servers(copy_table(&servers));
    assert_eq!(listed.len(), 1);
    assert_eq!(listed[0].name, "local");

    let fetched = manager.get_server(copy_table(&servers), "local").expect("get server");
    match &fetched.definition.transport {
        McpTransport::Stdio(def) => assert_eq!(lookup(&def.env, env_key), Some("secret")),
        _ => panic!("expected stdio transport"),
    }

    persist(&mut file, &servers);
    let serialized = read_back(&file);
    let value: toml::Value = serialized.parse().expect("parse toml");
    let table = value.as_table().expect("table root");
    let servers_table = table.get("mcp_servers").expect("mcp_servers");
    let decoded: BTreeMap<String, toml::Value> =
        servers_table.clone().try_into().expect("decode mcp_servers");
    let stored = decoded.get("local").expect("stored server");
    assert_eq!(
        stored.get("env").and_then(|e| e.get(env_key)).and_then(|v| v.as_str()),
        Some("secret")
    );

    // The variable is handed back for the process environment.
    assert_eq!(lookup(&to_set, env_key), Some("secret"));
}

#[test]
fn runtime_stdio_server_resolves_env_and_tools() {
    let manager = McpConfigManager::new("/tmp/config.toml");
    let mut definition = stdio_definition("my-mcp");
    definition.description = Some("local mcp".into());
    definition.tags = vec!["dev".into(), "local".into()];
    definition.tools = tools(&["tool-a"], &["tool-b"]);
    if let McpTransport::Stdio(ref mut stdio) = definition.transport {
        stdio.args = vec!["--flag".into()];
        stdio.env.push(("EXAMPLE".into(), "value".into()));
        stdio.timeout_ms = Some(2500);
    }

    let (servers, _, _) = add_server(
        &manager,
        Vec::new(),
        AddServerRequest {
            name: "local".into(),
            definition,
            overwrite: false,
            env: vec![("MCP_STDIO_INJECT_E6".into(), "yes".into())],
            bearer_token: None,
        },
    );

    let process_env = vec![("MCP_STDIO_INJECT_E6".to_string(), "yes".to_string())];
    let runtime = manager.runtime_server(servers, "local", &process_env).expect("runtime server");
    assert_eq!(runtime.name, "local");
    assert_eq!(runtime.description.as_deref(), Some("local mcp"));
    assert_eq!(runtime.tags, vec!["dev".to_string(), "local".to_string()]);

    let tool_hints = runtime.tools.as_ref().expect("tool hints");
    assert_eq!(tool_hints.enabled, vec!["tool-a".to_string()]);
    assert_eq!(tool_hints.disabled, vec!["tool-b".to_string()]);

    match &runtime.transport {
        McpRuntimeTransport::Stdio(def) => {
            assert_eq!(def.command, "my-mcp");
            assert_eq!(def.args, vec!["--flag".to_string()]);
            assert_eq!(def.timeout_ms, Some(2500));
            assert_eq!(lookup(&def.env, "EXAMPLE"), Some("value"));
            assert_eq!(lookup(&def.env, "MCP_STDIO_INJECT_E6"), Some("yes"));
        }
        other => panic!("expected stdio transport, got {other:?}"),
    }
}

#[test]
fn runtime_stdio_launcher_merges_env_timeout_and_tools() {
    let base_dir = tempfile::tempdir().expect("tempdir");
    let base = base_dir.path().to_string_lossy().into_owned();
    let code_home = format!("{base}/code_home");

    let defaults = StdioServerConfig {
        binary: "codex".into(),
        code_home: Some(code_home.clone()),
        current_dir: Some(base.clone()),
        env: vec![
            ("BASE_ONLY".to_string(), "base".to_string()),
            ("OVERRIDE_ME".to_string(), "base".to_string()),
        ],
        app_server_analytics_default_enabled: false,
        mirror_stdio: true,
        startup_timeout: TimeSpan::from_secs(5),
    };

    let definition = StdioServerDefinition {
        command: "my-mcp".into(),
        args: vec!["--flag".into()],
        env: vec![
            ("OVERRIDE_ME".to_string(), "runtime".to_string()),
            ("RUNTIME_ONLY".to_string(), "runtime-env".to_string()),
        ],
        timeout_ms: Some(1500),
    };

    let runtime = McpRuntimeServer {
        name: "local".into(),
        transport: McpRuntimeTransport::Stdio(definition),
        description: Some("example".into()),
        tags: vec!["dev".into()],
        tools: tools(&["tool-1"], &["tool-2"]),
    };

    let launcher = runtime.into_launcher(&defaults);
    assert_eq!(launcher.name, "local");
    assert_eq!(launcher.description.as_deref(), Some("example"));
    assert_eq!(launcher.tags, vec!["dev".to_string()]);

    let tool_hints = launcher.tools.as_ref().expect("tool hints");
    assert_eq!(tool_hints.enabled, vec!["tool-1".to_string()]);
    assert_eq!(tool_hints.disabled, vec!["tool-2".to_string()]);

    match launcher.transport {
        McpServerLauncherTransport::Stdio(launch) => {
            assert_eq!(launch.command, "my-mcp");
            assert_eq!(launch.args, vec!["--flag".to_string()]);
            assert_eq!(launch.current_dir.as_ref(), defaults.current_dir.as_ref());
            assert_eq!(launch.timeout, TimeSpan::from_millis(1500));
            assert!(launch.mirror_stdio);
            assert_eq!(lookup(&launch.env, "BASE_ONLY"), Some("base"));
            assert_eq!(lookup(&launch.env, "OVERRIDE_ME"), Some("runtime"));
            assert_eq!(lookup(&launch.env, "RUNTIME_ONLY"), Some("runtime-env"));
            assert_eq!(lookup(&launch.env, "CODEX_HOME"), Some(code_home.as_str()));
        }
        other => panic!("expected stdio launcher, got {other:?}"),
    }
}

#[test]
fn runtime_manager_propagates_tool_hints_for_http() {
    let env_var = "MCP_HTTP_TOKEN_E8_HINTS";
    let process_env = vec![(env_var.to_string(), "token-hints".to_string())];

    let http = StreamableHttpDefinition {
        url: "https://example.test/hints".into(),
        headers: vec![("X-Test".to_string(), "true".to_string())],
        bearer_env_var: Some(env_var.to_string()),
        connect_timeout_ms: Some(1200),
        request_timeout_ms: Some(2400),
    };

    let runtime = McpRuntimeServer::from_definition(
        "remote-http",
        McpServerDefinition {
            transport: McpTransport::StreamableHttp(http),
            description: Some("http runtime".into()),
            tags: vec!["http".into()],
            tools: tools(&["alpha"], &["beta"]),
        },
        &process_env,
    );

    let launcher = runtime.into_launcher(&no_defaults(2));
    let manager = McpRuntimeManager::new(vec![launcher]);

    let available = manager.available();
    assert_eq!(available.len(), 1);
    let summary = &available[0];
    assert_eq!(summary.name, "remote-http");
    assert_eq!(summary.transport, McpRuntimeSummaryTransport::StreamableHttp);
    let summary_tools = summary.tools.as_ref().expect("tool hints present");
    assert_eq!(summary_tools.enabled, vec!["alpha".to_string()]);
    assert_eq!(summary_tools.disabled, vec!["beta".to_string()]);

    match manager.prepare("remote-http").expect("prepare http") {
        McpRuntimeHandle::StreamableHttp(http_handle) => {
            let hints = http_handle.tools.as_ref().expect("tool hints on handle");
            assert_eq!(hints.enabled, vec!["alpha".to_string()]);
            assert_eq!(hints.disabled, vec!["beta".to_string()]);
            assert_eq!(http_handle.connector.bearer_token.as_deref(), Some("token-hints"));
        }
        other => panic!("expected http handle, got {other:?}"),
    }
}

#[test]
fn http_connector_retrieval_is_non_destructive() {
    let env_var = "MCP_HTTP_TOKEN_E8_REUSE";
    let process_env = vec![(env_var.to_string(), "token-reuse".to_string())];

    let runtime = McpRuntimeServer::from_definition(
        "remote-reuse",
        McpServerDefinition {
            transport: McpTransport::StreamableHttp(StreamableHttpDefinition {
                url: "https://example.test/reuse".into(),
                headers: Vec::new(),
                bearer_env_var: Some(env_var.to_string()),
                connect_timeout_ms: Some(1500),
                request_timeout_ms: Some(3200),
            }),
            description: None,
            tags: vec!["http".into()],
            tools: tools(&["one"], &[]),
        },
        &process_env,
    );

    let launcher = runtime.into_launcher(&no_defaults(2));
    let manager = McpRuntimeManager::new(vec![launcher]);

    let first = manager.prepare("remote-reuse").expect("first prepare");
    let second = manager.prepare("remote-reuse").expect("second prepare");

    let first_token = match first {
        McpRuntimeHandle::StreamableHttp(handle) => handle.connector.bearer_token,
        other => panic!("expected http handle, got {other:?}"),
    };
    let second_token = match second {
        McpRuntimeHandle::StreamableHttp(handle) => handle.connector.bearer_token,
        other => panic!("expected http handle, got {other:?}"),
    };

    assert_eq!(first_token.as_deref(), Some("token-reuse"));
    assert_eq!(second_token.as_deref(), Some("token-reuse"));

    let summary = manager
        .available()
        .into_iter()
        .find(|s| s.name == "remote-reuse")
        .expect("summary present");
    assert_eq!(summary.transport, McpRuntimeSummaryTransport::StreamableHttp);
    let hints = summary.tools.as_ref().expect("tool hints preserved");
    assert_eq!(hints.enabled, vec!["one".to_string()]);
}

#[test]
fn runtime_api_lists_launchers_without_changing_config() {
    let mut file = tempfile::NamedTempFile::new().expect("config file");
    let manager = McpConfigManager::new(file.path().to_str().unwrap());
    let stdio_env_key = "MCP_RUNTIME_API_STDIO_ENV";
    let request_env_key = "MCP_RUNTIME_API_REQUEST_ENV";
    let http_env_key = "MCP_RUNTIME_API_HTTP_ENV";

    let mut stdio = stdio_definition("runtime-api-stdio");
    stdio.description = Some("stdio runtime".into());
    stdio.tags = vec!["local".into()];
    stdio.tools = tools(&["fmt"], &["lint"]);
    if let McpTransport::Stdio(ref mut stdio_def) = stdio.transport {
        stdio_def.args.push("--flag".into());
        stdio_def.env.push((stdio_env_key.into(), "runtime-env".into()));
        stdio_def.timeout_ms = Some(2400);
    }

    let (servers, _, _) = add_server(
        &manager,
        Vec::new(),
        AddServerRequest {
            name: "local-api".into(),
            definition: stdio,
            overwrite: false,
            env: vec![(request_env_key.to_string(), "injected".to_string())],
            bearer_token: None,
        },
    );

    let mut http = streamable_definition("https://example.test/runtime-api", http_env_key);
    http.description = Some("http runtime".into());
    http.tags = vec!["remote".into()];
    http.tools = tools(&["alpha"], &["beta"]);
    if let McpTransport::StreamableHttp(ref mut http_def) = http.transport {
        http_def.headers.push(("X-Req".into(), "true".into()));
        http_def.request_timeout_ms = Some(2200);
    }

    let (servers, _, _) = add_server(
        &manager,
        servers,
        AddServerRequest {
            name: "remote-api".into(),
            definition: http,
            overwrite: false,
            env: Vec::new(),
            bearer_token: None,
        },
    );

    persist(&mut file, &servers);
    let before = read_back(&file);
    let dir = tempfile::tempdir().expect("tempdir");
    let home = dir.path().to_string_lossy().into_owned();
    let cwd = format!("{home}/cwd");

    let defaults = StdioServerConfig {
        binary: "codex".into(),
        code_home: Some(home.clone()),
        current_dir: Some(cwd.clone()),
        env: vec![
            ("DEFAULT_ONLY".to_string(), "default".to_string()),
            (request_env_key.to_string(), "base-default".to_string()),
        ],
        app_server_analytics_default_enabled: false,
        mirror_stdio: true,
        startup_timeout: TimeSpan::from_secs(3),
    };

    let process_env = vec![
        (http_env_key.to_string(), "token-api".to_string()),
        (request_env_key.to_string(), "injected".to_string()),
    ];
    let api = McpRuntimeApi::from_config(&manager, servers, &process_env, &defaults);

    let available = api.available();
    assert_eq!(available.len(), 2);

    let stdio_summary =
        available.iter().find(|entry| entry.name == "local-api").expect("stdio summary");
    assert_eq!(stdio_summary.transport, McpRuntimeSummaryTransport::Stdio);
    let stdio_tools = stdio_summary.tools.as_ref().expect("stdio tools");
    assert_eq!(stdio_tools.enabled, vec!["fmt".to_string()]);
    assert_eq!(stdio_tools.disabled, vec!["lint".to_string()]);

    let stdio_launcher = api.stdio_launcher("local-api").expect("stdio launcher");
    assert_eq!(stdio_launcher.args, vec!["--flag".to_string()]);
    assert_eq!(stdio_launcher.timeout, TimeSpan::from_millis(2400));
    assert!(stdio_launcher.mirror_stdio);
    assert_eq!(stdio_launcher.current_dir.as_deref(), Some(cwd.as_str()));
    assert_eq!(lookup(&stdio_launcher.env, "CODEX_HOME"), Some(home.as_str()));
    assert_eq!(lookup(&stdio_launcher.env, "DEFAULT_ONLY"), Some("default"));
    assert_eq!(lookup(&stdio_launcher.env, request_env_key), Some("injected"));
    assert_eq!(lookup(&stdio_launcher.env, stdio_env_key), Some("runtime-env"));

    let http_connector = api.http_connector("remote-api").expect("http connector");
    assert_eq!(http_connector.bearer_token.as_deref(), Some("token-api"));
    assert_eq!(lookup(&http_connector.headers, "Authorization"), Some("Bearer token-api"));
    assert_eq!(lookup(&http_connector.headers, "X-Req"), Some("true"));
    assert_eq!(http_connector.request_timeout, Some(TimeSpan::from_millis(2200)));

    let http_tools = available
        .iter()
        .find(|entry| entry.name == "remote-api")
        .and_then(|entry| entry.tools.as_ref())
        .expect("http tools");
    assert_eq!(http_tools.enabled, vec!["alpha".to_string()]);
    assert_eq!(http_tools.disabled, vec!["beta".to_string()]);

    match api.stdio_launcher("remote-api") {
        Err(McpRuntimeError::UnsupportedTransport { name, expected, actual }) => {
            assert_eq!(name, "remote-api");
            assert_eq!(expected, "stdio");
            assert_eq!(actual, "streamable_http");
        }
        other => panic!("unexpected result: {other:?}"),
    }

    match api.http_connector("local-api") {
        Err(McpRuntimeError::UnsupportedTransport { name, expected, actual }) => {
            assert_eq!(name, "local-api");
            assert_eq!(expected, "streamable_http");
            assert_eq!(actual, "stdio");
        }
        other => panic!("unexpected http result: {other:?}"),
    }

    let after = read_back(&file);
    assert_eq!(before, after);
}

#[test]
fn runtime_api_prepare_http_is_non_destructive() {
    let mut file = tempfile::NamedTempFile::new().expect("config file");
    let manager = McpConfigManager::new(file.path().to_str().unwrap());
    let env_var = "MCP_RUNTIME_API_PREPARE";

    let mut http = streamable_definition("https://example.test/prepare", env_var);
    http.tags = vec!["prepare".into()];
    http.tools = tools(&["delta"], &[]);

    let (servers, _, _) = add_server(
        &manager,
        Vec::new(),
        AddServerRequest {
            name: "prepare-http".into(),
            definition: http,
            overwrite: false,
            env: Vec::new(),
            bearer_token: None,
        },
    );

    persist(&mut file, &servers);
    let before = read_back(&file);

    let dir = tempfile::tempdir().expect("tempdir");
    let defaults = StdioServerConfig {
        binary: "codex".into(),
        code_home: Some(dir.path().to_string_lossy().into_owned()),
        current_dir: None,
        env: Vec::new(),
        app_server_analytics_default_enabled: false,
        mirror_stdio: false,
        startup_timeout: TimeSpan::from_secs(2),
    };

    let process_env = vec![(env_var.to_string(), "prepare-token".to_string())];
    let api = McpRuntimeApi::from_config(&manager, servers, &process_env, &defaults);
    let handle = api.prepare("prepare-http").expect("prepare http");

    match handle {
        McpRuntimeHandle::StreamableHttp(http_handle) => {
            assert_eq!(http_handle.name, "prepare-http");
            assert_eq!(http_handle.connector.bearer_token.as_deref(), Some("prepare-token"));
            assert_eq!(
                lookup(&http_handle.connector.headers, "Authorization"),
                Some("Bearer prepare-token")
            );
            let hints = http_handle.tools.expect("tool hints");
            assert_eq!(hints.enabled, vec!["delta".to_string()]);
        }
        other => panic!("expected http handle, got {other:?}"),
    }

    let after = read_back(&file);
    assert_eq!(before, after);
}

#[test]
fn runtime_launchers_and_prepare_cover_every_server() {
    let manager = McpConfigManager::new("/tmp/config.toml");
    let (servers, _, _) = add_server(
        &manager,
        Vec::new(),
        AddServerRequest {
            name: "local".into(),
            definition: stdio_definition("my-mcp"),
            overwrite: false,
            env: Vec::new(),
            bearer_token: None,
        },
    );
    let defaults = no_defaults(4);
    let env: Vec<(String, String)> = Vec::new();

    let launchers = manager.runtime_launchers(copy_table(&servers), &env, &defaults);
    assert_eq!(launchers.len(), 1);
    assert_eq!(launchers[0].name, "local");

    let one = manager.runtime_launcher(copy_table(&servers), "local", &env, &defaults).expect("launcher");
    match one.transport {
        McpServerLauncherTransport::Stdio(l) => {
            assert_eq!(l.command, "my-mcp");
            assert_eq!(l.timeout, TimeSpan::from_secs(4));
        }
        other => panic!("expected stdio launcher, got {other:?}"),
    }
    assert!(manager.runtime_launcher(copy_table(&servers), "missing", &env, &defaults).is_err());

    let api = McpRuntimeApi::from_config(&manager, servers, &env, &defaults);
    match api.prepare("local").expect("prepare stdio") {
        McpRuntimeHandle::Stdio(pending) => {
            assert_eq!(pending.name, "local");
            assert_eq!(pending.launcher.command, "my-mcp");
            assert!(McpRuntimeHandle::Stdio(pending).tools().is_none());
        }
        other => panic!("expected stdio handle, got {other:?}"),
    }
    assert!(matches!(api.prepare("missing"), Err(McpRuntimeError::NotFound(n)) if n == "missing"));

    let runtime = McpRuntimeServer::from_definition("again", stdio_definition("x"), &env);
    let first = runtime.to_launcher(&defaults);
    let second = runtime.to_launcher(&defaults);
    assert_eq!(first.name, second.name);
    assert_eq!(runtime.name, "again");
}

#[test]
fn app_runtime_launchers_follow_the_table() {
    let manager = McpConfigManager::new("/tmp/config.toml");
    let definition = |binary: Option<&str>| AppRuntimeDefinition {
        description: None,
        tags: Vec::new(),
        env: vec![("OWN".to_string(), "1".to_string())],
        code_home: None,
        current_dir: None,
        mirror_stdio: None,
        startup_timeout_ms: Some(700),
        binary: binary.map(String::from),
        metadata: codex::json::JsonValue::Null,
    };
    let table = manager
        .add_app_runtime(
            Vec::new(),
            AddAppRuntimeRequest { name: "a".into(), definition: definition(None), overwrite: false },
        )
        .expect("add a");
    let table = manager
        .add_app_runtime(
            table,
            AddAppRuntimeRequest { name: "b".into(), definition: definition(Some("/bin/b")), overwrite: false },
        )
        .expect("add b");
    let copy = |t: &Vec<codex::mcp_config::AppRuntimeEntry>| {
        t.iter()
            .map(|e| codex::mcp_config::AppRuntimeEntry {
                name: e.name.clone(),
                definition: AppRuntimeDefinition {
                    description: e.definition.description.clone(),
                    tags: e.definition.tags.clone(),
                    env: e.definition.env.clone(),
                    code_home: e.definition.code_home.clone(),
                    current_dir: e.definition.current_dir.clone(),
                    mirror_stdio: e.definition.mirror_stdio,
                    startup_timeout_ms: e.definition.startup_timeout_ms,
                    binary: e.definition.binary.clone(),
                    metadata: codex::json::JsonValue::Null,
                },
            })
            .collect::<Vec<_>>()
    };
    let defaults = no_defaults(9);

    let runtimes = manager.app_runtimes(copy(&table));
    assert_eq!(runtimes.len(), 2);
    assert_eq!(runtimes[1].binary.as_deref(), Some("/bin/b"));

    let launchers = manager.app_runtime_launchers(copy(&table), &defaults);
    assert_eq!(launchers[0].config.binary, "codex");
    assert_eq!(launchers[1].config.binary, "/bin/b");
    assert_eq!(launchers[0].config.startup_timeout, TimeSpan::from_millis(700));
    assert_eq!(lookup(&launchers[0].config.env, "OWN"), Some("1"));

    let b = manager.app_runtime_launcher(copy(&table), "b", &defaults).expect("launcher b");
    assert_eq!(b.name, "b");
    assert!(matches!(
        manager.app_runtime(table, "zzz"),
        Err(codex::mcp_config::McpConfigError::AppRuntimeNotFound(n)) if n == "zzz"
    ));
}
