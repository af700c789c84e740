use codex::cache::{
    capability_cache_entries, capability_cache_entry, clear_capability_cache,
    clear_capability_cache_entry, CapabilityCache,
};
use codex::capabilities::{
    BinaryFingerprint, CapabilityCacheKey, CapabilityProbePlan, CapabilityProbeStep,
    CodexCapabilities, CodexFeatureFlags,
};
use codex::client::{
    default_binary_path, default_rust_log_value, CodexClientBuilder, CommandEnvironment,
};
use codex::home::CodexHomeLayout;
use codex::time::Timestamp;
use codex::version::parse_version_output;

fn lookup<'a>(pairs: &'a [(String, String)], key: &str) -> Option<&'a str> {
    pairs.iter().find(|(k, _)| k == key).map(|(_, v)| v.as_str())
}

#[test]
fn builder_uses_env_binary_when_set() {
    let builder = CodexClientBuilder::with_binary(default_binary_path(Some("custom_codex")));
    assert_eq!(builder.binary, "custom_codex");
}

#[test]
fn default_binary_falls_back_when_env_missing() {
    assert_eq!(default_binary_path(None), "codex");
}

#[test]
fn default_rust_log_is_error_when_unset() {
    assert_eq!(default_rust_log_value(false), Some("error"));
}

#[test]
fn default_rust_log_respects_existing_env() {
    assert_eq!(default_rust_log_value(true), None);
}

#[test]
fn command_env_sets_expected_overrides() {
    let temp = tempfile::tempdir().unwrap();
    let home = temp.path().join("codex_home").to_string_lossy().into_owned();
    let env_prep = CommandEnvironment {
        binary: "/custom/codex".to_string(),
        codex_home: Some(CodexHomeLayout::new(&home)),
        create_home_dirs: true,
    };
    let overrides = env_prep.environment_overrides(false);

    assert_eq!(lookup(&overrides, "CODEX_BINARY"), Some("/custom/codex"));
    assert_eq!(lookup(&overrides, "CODEX_HOME"), Some(home.as_str()));
    assert_eq!(lookup(&overrides, "RUST_LOG"), Some("error"));

    let layout = env_prep.codex_home.as_ref().unwrap();
    let dirs = layout.materialize_dirs(env_prep.create_home_dirs);
    assert_eq!(dirs[0], home);
    assert_eq!(dirs[1], format!("{home}/conversations"));
    assert_eq!(dirs[2], format!("{home}/logs"));
}

#[test]
fn command_env_applies_home_and_binary_per_command() {
    // The ambient CODEX_BINARY (/tmp/ignored_codex) and CODEX_HOME (/tmp/ambient_home) are not
    // consulted: the command gets the configured values.
    let temp = tempfile::tempdir().unwrap();
    let home = temp.path().join("scoped_home").to_string_lossy().into_owned();
    let env_prep = CommandEnvironment {
        binary: "/app/bundled/codex".to_string(),
        codex_home: Some(CodexHomeLayout::new(&home)),
        create_home_dirs: true,
    };
    let envs = env_prep.environment_overrides(false);

    assert_eq!(lookup(&envs, "CODEX_BINARY"), Some("/app/bundled/codex"));
    assert_eq!(lookup(&envs, "CODEX_HOME"), Some(home.as_str()));
    assert_eq!(lookup(&envs, "RUST_LOG"), Some("error"));
    assert_ne!(lookup(&envs, "CODEX_HOME"), Some("/tmp/ambient_home"));
    assert_ne!(lookup(&envs, "CODEX_BINARY"), Some("/tmp/ignored_codex"));

    let dirs = env_prep.codex_home.as_ref().unwrap().materialize_dirs(true);
    assert_eq!(dirs, vec![home.clone(), format!("{home}/conversations"), format!("{home}/logs")]);
}

#[test]
fn command_env_respects_existing_rust_log() {
    let env_prep = CommandEnvironment {
        binary: "codex".to_string(),
        codex_home: None,
        create_home_dirs: true,
    };
    let overrides = env_prep.environment_overrides(true);

    assert_eq!(lookup(&overrides, "CODEX_BINARY"), Some("codex"));
    assert!(lookup(&overrides, "RUST_LOG").is_none());
}

#[test]
fn command_env_can_skip_home_creation() {
    let temp = tempfile::tempdir().unwrap();
    let home = temp.path().join("codex_home").to_string_lossy().into_owned();
    let env_prep = CommandEnvironment {
        binary: "codex".to_string(),
        codex_home: Some(CodexHomeLayout::new(&home)),
        create_home_dirs: false,
    };
    let overrides = env_prep.environment_overrides(false);

    let dirs = env_prep.codex_home.as_ref().unwrap().materialize_dirs(env_prep.create_home_dirs);
    assert!(dirs.is_empty());
    assert!(!temp.path().join("codex_home").exists());
    assert_eq!(lookup(&overrides, "CODEX_HOME"), Some(home.as_str()));
}

#[test]
fn codex_home_layout_respects_materialization_flag() {
    let temp = tempfile::tempdir().unwrap();
    let root = temp.path().join("codex_home_layout").to_string_lossy().into_owned();
    let layout = CodexHomeLayout::new(&root);

    assert!(layout.materialize_dirs(false).is_empty());

    let dirs = layout.materialize_dirs(true);
    assert_eq!(dirs[0], root);
    assert_eq!(dirs[1], layout.conversations_dir());
    assert_eq!(dirs[2], layout.logs_dir());
}

#[test]
fn capability_cache_entries_exposes_cache_state() {
    let mut cache = CapabilityCache::new();
    clear_capability_cache(&mut cache);

    let cache_key = CapabilityCacheKey { binary_path: "/tmp/fake/codex".to_string() };
    let fingerprint = Some(BinaryFingerprint {
        canonical_path: Some("/tmp/fake/codex".to_string()),
        modified: Some(Timestamp::from_unix_secs(5)),
        len: Some(20),
    });

    let snapshot = CodexCapabilities {
        cache_key: cache_key.clone(),
        fingerprint,
        version: Some(parse_version_output("codex 0.0.1")),
        features: CodexFeatureFlags {
            supports_features_list: true,
            supports_output_schema: true,
            supports_add_dir: false,
            supports_mcp_login: false,
        },
        probe_plan: CapabilityProbePlan { steps: vec![CapabilityProbeStep::VersionFlag] },
        collected_at: Timestamp::from_unix_secs(0),
    };

    cache.update(snapshot);

    let entries = capability_cache_entries(&cache);
    assert!(entries.iter().any(|entry| entry.cache_key.binary_path == cache_key.binary_path));

    let fetched = capability_cache_entry(&cache, &cache_key).expect("expected cache entry");
    assert_eq!(fetched.cache_key.binary_path, cache_key.binary_path);
    assert!(clear_capability_cache_entry(&mut cache, &cache_key));
    assert!(capability_cache_entry(&cache, &cache_key).is_none());
    assert!(capability_cache_entries(&cache).is_empty());
    clear_capability_cache(&mut cache);
}
