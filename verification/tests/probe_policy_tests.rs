use codex::cache::{capability_cache_entry, CapabilityCache};
use codex::capabilities::{
    BinaryFingerprint, CapabilityCacheKey, CapabilityCachePolicy, CapabilityFeatureOverrides,
    CapabilityOverrides, CapabilityProbePlan, CapabilityProbeStep, CapabilitySupport,
    CodexCapabilities, CodexFeatureFlags,
};
use codex::client::CodexClient;
use codex::features::parse_features_from_json;
use codex::time::Timestamp;
use codex::version::{parse_version_output, CodexReleaseChannel};

fn key() -> CapabilityCacheKey {
    CapabilityCacheKey { binary_path: "/tmp/fake/codex".to_string() }
}

fn fingerprint(len: u64) -> Option<BinaryFingerprint> {
    Some(BinaryFingerprint {
        canonical_path: Some("/tmp/fake/codex".to_string()),
        modified: Some(Timestamp::from_unix_secs(100)),
        len: Some(len),
    })
}

fn snapshot(fp: Option<BinaryFingerprint>, output_schema: bool) -> CodexCapabilities {
    CodexCapabilities {
        cache_key: key(),
        fingerprint: fp,
        version: Some(parse_version_output("codex 1.0.0")),
        features: CodexFeatureFlags {
            supports_features_list: true,
            supports_output_schema: output_schema,
            supports_add_dir: false,
            supports_mcp_login: false,
        },
        probe_plan: CapabilityProbePlan { steps: vec![CapabilityProbeStep::VersionFlag] },
        collected_at: Timestamp::from_unix_secs(0),
    }
}

#[test]
fn cached_entry_without_fingerprint_is_probed_again() {
    let mut cache = CapabilityCache::new();
    cache.update(snapshot(None, true));
    let overrides = CapabilityOverrides::default();

    // Neither a missing current fingerprint nor a cached entry without one is reused.
    assert!(cache
        .resolve_without_probe(&key(), &None, &overrides, CapabilityCachePolicy::PreferCache)
        .is_none());
    assert!(cache
        .resolve_without_probe(&key(), &fingerprint(7), &overrides, CapabilityCachePolicy::PreferCache)
        .is_none());
}

#[test]
fn refresh_policy_probes_and_overwrites_the_entry() {
    let mut cache = CapabilityCache::new();
    cache.update(snapshot(fingerprint(7), false));
    let overrides = CapabilityOverrides::default();

    let reused = cache.resolve_without_probe(
        &key(),
        &fingerprint(7),
        &overrides,
        CapabilityCachePolicy::PreferCache,
    );
    assert!(reused.is_some());

    assert!(cache
        .resolve_without_probe(&key(), &fingerprint(7), &overrides, CapabilityCachePolicy::Refresh)
        .is_none());
    let stored = cache.store_probe(
        snapshot(None, true),
        &key(),
        &fingerprint(7),
        &overrides,
        CapabilityCachePolicy::Refresh,
    );
    assert!(stored.features.supports_output_schema);
    let cached = capability_cache_entry(&cache, &key()).expect("refreshed entry");
    assert!(cached.features.supports_output_schema);
}

#[test]
fn bypass_policy_neither_reads_nor_writes_the_cache() {
    let mut cache = CapabilityCache::new();
    let overrides = CapabilityOverrides::default();
    let probed = cache.store_probe(
        snapshot(None, true),
        &key(),
        &fingerprint(3),
        &overrides,
        CapabilityCachePolicy::Bypass,
    );
    assert!(probed.features.supports_output_schema);
    assert!(capability_cache_entry(&cache, &key()).is_none());

    cache.update(snapshot(fingerprint(3), true));
    assert!(cache
        .resolve_without_probe(&key(), &fingerprint(3), &overrides, CapabilityCachePolicy::Bypass)
        .is_none());
}

#[test]
fn manual_snapshot_short_circuits_probes() {
    let mut cache = CapabilityCache::new();
    let mut manual = snapshot(None, true);
    manual.cache_key = CapabilityCacheKey { binary_path: "codex".to_string() };
    manual.version = Some(parse_version_output("codex 9.9.9-custom"));
    manual.features.supports_mcp_login = true;
    let overrides = CapabilityOverrides { snapshot: Some(manual), ..CapabilityOverrides::default() };

    let resolved = cache
        .resolve_without_probe(&key(), &fingerprint(11), &overrides, CapabilityCachePolicy::PreferCache)
        .expect("manual snapshot");
    assert_eq!(resolved.cache_key.binary_path, "/tmp/fake/codex");
    assert!(resolved.fingerprint.is_some());
    assert!(resolved.features.supports_output_schema);
    assert!(resolved.features.supports_mcp_login);
    assert_eq!(resolved.version.as_ref().and_then(|v| v.semantic), Some((9, 9, 9)));
    assert!(resolved.probe_plan.steps.contains(&CapabilityProbeStep::ManualOverride));
}

#[test]
fn feature_and_version_overrides_apply_to_probed_snapshots() {
    let mut cache = CapabilityCache::new();
    let overrides = CapabilityOverrides {
        features: CapabilityFeatureOverrides::enabling(CodexFeatureFlags {
            supports_features_list: false,
            supports_output_schema: true,
            supports_add_dir: false,
            supports_mcp_login: true,
        }),
        version: Some(parse_version_output("codex 9.9.9-nightly (commit beefcafe)")),
        ..CapabilityOverrides::default()
    };
    let capabilities = cache.store_probe(
        snapshot(None, false),
        &key(),
        &fingerprint(5),
        &overrides,
        CapabilityCachePolicy::PreferCache,
    );
    assert!(capabilities.features.supports_output_schema);
    assert!(capabilities.features.supports_mcp_login);
    assert!(capabilities.features.supports_features_list);
    assert!(capabilities.probe_plan.steps.contains(&CapabilityProbeStep::ManualOverride));
    assert_eq!(capabilities.guard_output_schema().support, CapabilitySupport::Supported);
    assert_eq!(capabilities.version.as_ref().and_then(|v| v.semantic), Some((9, 9, 9)));
    assert_eq!(capabilities.version.as_ref().map(|v| v.channel), Some(CodexReleaseChannel::Nightly));

    // The cached entry carries the overrides too.
    let cached = cache
        .resolve_without_probe(
            &key(),
            &fingerprint(5),
            &CapabilityOverrides::default(),
            CapabilityCachePolicy::PreferCache,
        )
        .expect("cached");
    assert!(cached.features.supports_mcp_login);
}

#[test]
fn mcp_login_skips_when_unsupported_and_runs_when_supported() {
    let client = CodexClient::builder().binary("/tmp/fake/codex").build();

    let without = parse_features_from_json(r#"{"features":["output_schema","add_dir"]}"#).expect("flags");
    let mut caps = snapshot(fingerprint(1), true);
    caps.features = without;
    assert!(client.mcp_login_args(&caps).is_none());

    let with = parse_features_from_json(r#"{"features":["output_schema","add_dir"],"mcp_login":true}"#)
        .expect("flags");
    caps.features = with;
    assert_eq!(
        client.mcp_login_args(&caps),
        Some(vec!["login".to_string(), "--mcp".to_string()])
    );
}
