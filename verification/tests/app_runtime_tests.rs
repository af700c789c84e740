use codex::app_runtime::{
    first_stop_error, AppRuntimeApi, AppRuntimeError, AppRuntimeManager, AppRuntimePool,
    AppRuntimePoolApi, AppRuntimeStart,
};
use codex::json::JsonValue;
use codex::mcp_config::{AppRuntimeDefinition, AppRuntimeEntry, McpConfigManager};
use codex::mcp_runtime::{AppRuntime, AppRuntimeLauncher, StdioServerConfig};
use codex::time::TimeSpan;

fn defaults() -> StdioServerConfig {
    StdioServerConfig {
        binary: "codex".into(),
        code_home: Some("/home/codex".into()),
        current_dir: None,
        env: vec![("BASE".to_string(), "1".to_string())],
        app_server_analytics_default_enabled: true,
        mirror_stdio: false,
        startup_timeout: TimeSpan::from_secs(5),
    }
}

fn launcher(name: &str, binary: &str) -> AppRuntimeLauncher {
    AppRuntimeLauncher {
        name: name.into(),
        description: Some(format!("{name} runtime")),
        tags: vec!["app".into()],
        metadata: JsonValue::String(format!("meta-{binary}")),
        config: StdioServerConfig { binary: binary.into(), ..defaults() },
    }
}

fn entry(name: &str, timeout_ms: Option<u64>) -> AppRuntimeEntry {
    AppRuntimeEntry {
        name: name.into(),
        definition: AppRuntimeDefinition {
            description: None,
            tags: Vec::new(),
            env: vec![("OWN".to_string(), name.to_string())],
            code_home: None,
            current_dir: Some("/work".into()),
            mirror_stdio: Some(true),
            startup_timeout_ms: timeout_ms,
            binary: None,
            metadata: JsonValue::Bool(true),
        },
    }
}

#[test]
fn app_manager_keeps_last_launcher_per_name_in_name_order() {
    let manager = AppRuntimeManager::new(vec![
        launcher("zeta", "/bin/z1"),
        launcher("alpha", "/bin/a"),
        launcher("zeta", "/bin/z2"),
    ]);
    let names: Vec<String> = manager.available().into_iter().map(|s| s.name).collect();
    assert_eq!(names, vec!["alpha".to_string(), "zeta".to_string()]);
    let zeta = manager.launcher("zeta").expect("zeta");
    assert_eq!(zeta.config.binary, "/bin/z2");
    assert!(manager.launcher("missing").is_none());

    let handle = manager.prepare("alpha").expect("prepare alpha");
    assert_eq!(handle.name, "alpha");
    assert_eq!(handle.config.binary, "/bin/a");
    assert!(matches!(handle.metadata, JsonValue::String(ref s) if s == "meta-/bin/a"));
    assert!(matches!(manager.prepare("nope"), Err(AppRuntimeError::NotFound(n)) if n == "nope"));
}

#[test]
fn app_runtime_to_launcher_keeps_the_runtime() {
    let runtime = AppRuntime::from_entry(entry("svc", Some(250)));
    let first = runtime.to_launcher(&defaults());
    let second = runtime.to_launcher(&defaults());
    assert_eq!(first.name, "svc");
    assert_eq!(first.config.startup_timeout, TimeSpan::from_millis(250));
    assert_eq!(first.config.current_dir.as_deref(), Some("/work"));
    assert!(first.config.mirror_stdio);
    assert_eq!(first.config.code_home.as_deref(), Some("/home/codex"));
    assert_eq!(second.config.env, first.config.env);
    assert_eq!(runtime.name, "svc");
}

#[test]
fn app_api_from_config_merges_defaults() {
    let config = McpConfigManager::new("/tmp/config.toml");
    let api = AppRuntimeApi::from_config(&config, vec![entry("b", None), entry("a", Some(10))], &defaults());
    let names: Vec<String> = api.available().into_iter().map(|s| s.name).collect();
    assert_eq!(names, vec!["a".to_string(), "b".to_string()]);
    let cfg = api.stdio_config("b").expect("config b");
    assert_eq!(cfg.startup_timeout, TimeSpan::from_secs(5));
    assert!(cfg.env.contains(&("OWN".to_string(), "b".to_string())));
    assert!(cfg.env.contains(&("BASE".to_string(), "1".to_string())));
    assert!(cfg.env.contains(&("CODEX_HOME".to_string(), "/home/codex".to_string())));
    assert!(matches!(api.launcher("c"), Err(AppRuntimeError::NotFound(n)) if n == "c"));

    let pool = api.pool();
    assert_eq!(pool.available().len(), 2);
    assert!(pool.running().is_empty());
}

#[test]
fn app_pool_reuses_running_runtimes_and_stops_them() {
    let manager = AppRuntimeManager::new(vec![launcher("one", "/bin/one"), launcher("two", "/bin/two")]);
    let mut pool = AppRuntimePool::new(manager);

    match pool.start("one").expect("start one") {
        AppRuntimeStart::Launch(handle) => assert_eq!(handle.config.binary, "/bin/one"),
        other => panic!("expected a launch, got {other:?}"),
    }
    assert!(pool.record_started("one"));
    // A second start reuses the running runtime.
    assert!(matches!(pool.start("one"), Ok(AppRuntimeStart::Running)));
    // A racing second record is refused, so the caller keeps the first instance.
    assert!(!pool.record_started("one"));
    // Unknown runtimes are neither started nor recorded.
    assert!(matches!(pool.start("ghost"), Err(AppRuntimeError::NotFound(n)) if n == "ghost"));
    assert!(!pool.record_started("ghost"));

    assert!(pool.record_started("two"));
    let running: Vec<String> = pool.running().into_iter().map(|s| s.name).collect();
    assert_eq!(running, vec!["one".to_string(), "two".to_string()]);

    assert!(pool.stop("one").is_ok());
    assert!(matches!(pool.stop("one"), Err(AppRuntimeError::NotFound(n)) if n == "one"));
    let running: Vec<String> = pool.running().into_iter().map(|s| s.name).collect();
    assert_eq!(running, vec!["two".to_string()]);

    let stopped = pool.stop_all();
    assert_eq!(stopped, vec!["two".to_string()]);
    assert!(pool.running().is_empty());
    assert_eq!(pool.available().len(), 2);
}

#[test]
fn app_pool_api_wraps_the_pool() {
    let mut api = AppRuntimePoolApi::new(vec![launcher("svc", "/bin/svc")]);
    assert!(matches!(api.start("svc"), Ok(AppRuntimeStart::Launch(_))));
    assert!(api.record_started("svc"));
    assert!(matches!(api.start("svc"), Ok(AppRuntimeStart::Running)));
    assert_eq!(api.running().len(), 1);
    assert_eq!(api.stdio_config("svc").expect("config").binary, "/bin/svc");
    assert_eq!(api.stop_all(), vec!["svc".to_string()]);
    assert!(api.running().is_empty());
}

#[test]
fn stop_all_reports_the_first_failure() {
    assert!(first_stop_error(vec![("a".into(), None), ("b".into(), None)]).is_none());
    match first_stop_error(vec![
        ("a".into(), None),
        ("b".into(), Some("boom".into())),
        ("c".into(), Some("later".into())),
    ]) {
        Some(AppRuntimeError::Stop { name, message }) => {
            assert_eq!(name, "b");
            assert_eq!(message, "boom");
        }
        other => panic!("unexpected {other:?}"),
    }
}
