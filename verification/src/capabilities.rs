//! Capability snapshots of a Codex binary, feature overrides, guards that gate optional
//! flags, the TTL decision for cached snapshots and the in-process snapshot cache.

use vstd::prelude::*;
use crate::text::{chars_of, eq_chars, lit, lower, lower_chars, push_all, string_of};
use vstd::string::StringExecFns;
use crate::time::{TimeSpan, Timestamp};
use crate::version::{clone_opt_string, CodexVersionInfo};
use crate::path::{path_key, same_path, PathKey};

verus! {

/// Cache key for capability snapshots derived from a specific Codex binary path.
#[derive(Debug)]
pub struct CapabilityCacheKey {
    /// Canonical binary path when resolvable; otherwise the path as given.
    pub binary_path: String,
}

impl Clone for CapabilityCacheKey {
    fn clone(&self) -> (r: Self)
        ensures
            r == *self,
    {
        CapabilityCacheKey { binary_path: self.binary_path.clone() }
    }
}

impl CapabilityCacheKey {
    /// The key's path by component: two keys name the same binary when these are equal.
    pub open spec fn components(self) -> PathKey {
        path_key(self.binary_path@)
    }
}

/// File metadata used to invalidate cached capability snapshots when the binary changes.
#[derive(Debug)]
pub struct BinaryFingerprint {
    /// Canonical path if the binary resolves through symlinks.
    pub canonical_path: Option<String>,
    /// Last modification time of the binary on disk.
    pub modified: Option<Timestamp>,
    /// File length, useful for cheap change detection.
    pub len: Option<u64>,
}

impl Clone for BinaryFingerprint {
    fn clone(&self) -> (r: Self)
        ensures
            r == *self,
    {
        BinaryFingerprint {
            canonical_path: clone_opt_string(&self.canonical_path),
            modified: self.modified,
            len: self.len,
        }
    }
}

/// Plain view of a fingerprint, its canonical path by component.
pub type FingerprintView = (Option<PathKey>, Option<Timestamp>, Option<u64>);

impl BinaryFingerprint {
    pub open spec fn view_of(self) -> FingerprintView {
        (
            match self.canonical_path {
                Some(p) => Some(path_key(p@)),
                None => None,
            },
            self.modified,
            self.len,
        )
    }
}

pub open spec fn fingerprint_view(f: Option<BinaryFingerprint>) -> Option<FingerprintView> {
    match f {
        Some(fp) => Some(fp.view_of()),
        None => None,
    }
}

pub fn clone_fingerprint(f: &Option<BinaryFingerprint>) -> (r: Option<BinaryFingerprint>)
    ensures
        r == *f,
{
    match f {
        Some(fp) => Some(fp.clone()),
        None => None,
    }
}

/// Two optional fingerprints describe the same binary state (`==` on the options, the
/// canonical paths compared by component).
pub fn fingerprints_match(a: &Option<BinaryFingerprint>, b: &Option<BinaryFingerprint>) -> (r:
    bool)
    ensures
        r == (fingerprint_view(*a) == fingerprint_view(*b)),
{
    match (a, b) {
        (None, None) => true,
        (Some(x), Some(y)) => {
            let paths = match (&x.canonical_path, &y.canonical_path) {
                (None, None) => true,
                (Some(p), Some(q)) => same_path(p.as_str(), q.as_str()),
                _ => false,
            };
            let modified = match (x.modified, y.modified) {
                (None, None) => true,
                (Some(m), Some(n)) => m == n,
                _ => false,
            };
            let lens = match (x.len, y.len) {
                (None, None) => true,
                (Some(m), Some(n)) => m == n,
                _ => false,
            };
            paths && modified && lens
        },
        _ => false,
    }
}

/// Serialization formats for capability snapshots and overrides.
#[derive(Clone, Copy, Debug, PartialEq, Eq, Structural)]
pub enum CapabilitySnapshotFormat {
    Json,
    Toml,
}

/// The format named by a file extension, compared without regard to case.
pub open spec fn format_for_extension(ext: Seq<char>) -> Option<CapabilitySnapshotFormat> {
    if lower(ext) == "json"@ {
        Some(CapabilitySnapshotFormat::Json)
    } else if lower(ext) == "toml"@ {
        Some(CapabilitySnapshotFormat::Toml)
    } else {
        None
    }
}

impl CapabilitySnapshotFormat {
    /// The format for a path's extension: `json` or `toml` in any case. (No character outside
    /// ASCII lowercases to one of these letters, so ASCII case folding decides as the full
    /// Unicode lowercase would.)
    pub fn from_extension(ext: &str) -> (r: Option<CapabilitySnapshotFormat>)
        ensures
            r == format_for_extension(ext@),
    {
        let l = lower_chars(chars_of(ext).as_slice());
        let json = lit("json");
        let toml = lit("toml");
        if eq_chars(l.as_slice(), json.as_slice()) {
            Some(CapabilitySnapshotFormat::Json)
        } else if eq_chars(l.as_slice(), toml.as_slice()) {
            Some(CapabilitySnapshotFormat::Toml)
        } else {
            None
        }
    }
}

/// Feature gates for Codex CLI flags; every field is `false` unless a probe proves support.
#[derive(Clone, Copy, Debug, PartialEq, Eq, Structural)]
pub struct CodexFeatureFlags {
    /// `codex features list` is available.
    pub supports_features_list: bool,
    /// `--output-schema` is accepted by `codex exec`.
    pub supports_output_schema: bool,
    /// `codex add-dir` is available.
    pub supports_add_dir: bool,
    /// `codex login --mcp` is recognized.
    pub supports_mcp_login: bool,
}

impl CodexFeatureFlags {
    /// All flags unset.
    pub fn none() -> (r: CodexFeatureFlags)
        ensures
            r == no_features(),
    {
        CodexFeatureFlags {
            supports_features_list: false,
            supports_output_schema: false,
            supports_add_dir: false,
            supports_mcp_login: false,
        }
    }
}

pub open spec fn no_features() -> CodexFeatureFlags {
    CodexFeatureFlags {
        supports_features_list: false,
        supports_output_schema: false,
        supports_add_dir: false,
        supports_mcp_login: false,
    }
}

impl Default for CodexFeatureFlags {
    fn default() -> (r: CodexFeatureFlags)
        ensures
            r == no_features(),
    {
        CodexFeatureFlags::none()
    }
}

/// Optional overrides for feature detection layered onto probe results.
#[derive(Clone, Copy, Debug, PartialEq, Eq, Structural)]
pub struct CapabilityFeatureOverrides {
    pub supports_features_list: Option<bool>,
    pub supports_output_schema: Option<bool>,
    pub supports_add_dir: Option<bool>,
    pub supports_mcp_login: Option<bool>,
}

pub open spec fn no_feature_overrides() -> CapabilityFeatureOverrides {
    CapabilityFeatureOverrides {
        supports_features_list: None,
        supports_output_schema: None,
        supports_add_dir: None,
        supports_mcp_login: None,
    }
}

impl Default for CapabilityFeatureOverrides {
    fn default() -> (r: CapabilityFeatureOverrides)
        ensures
            r == no_feature_overrides(),
    {
        CapabilityFeatureOverrides {
            supports_features_list: None,
            supports_output_schema: None,
            supports_add_dir: None,
            supports_mcp_login: None,
        }
    }
}

impl CapabilityFeatureOverrides {
    pub open spec fn spec_is_empty(self) -> bool {
        self.supports_features_list is None && self.supports_output_schema is None
            && self.supports_add_dir is None && self.supports_mcp_login is None
    }

    /// Returns true when no overrides are set.
    pub fn is_empty(&self) -> (r: bool)
        ensures
            r == self.spec_is_empty(),
    {
        self.supports_features_list.is_none() && self.supports_output_schema.is_none()
            && self.supports_add_dir.is_none() && self.supports_mcp_login.is_none()
    }

    /// Overrides that mirror every provided flag, including false values.
    pub fn from_flags(flags: CodexFeatureFlags) -> (r: Self)
        ensures
            r == mirror_overrides(flags),
    {
        CapabilityFeatureOverrides {
            supports_features_list: Some(flags.supports_features_list),
            supports_output_schema: Some(flags.supports_output_schema),
            supports_add_dir: Some(flags.supports_add_dir),
            supports_mcp_login: Some(flags.supports_mcp_login),
        }
    }

    /// Overrides that only force-enable the flags that are true in the input.
    pub fn enabling(flags: CodexFeatureFlags) -> (r: Self)
        ensures
            r == enabling_overrides(flags),
    {
        CapabilityFeatureOverrides {
            supports_features_list: if flags.supports_features_list { Some(true) } else { None },
            supports_output_schema: if flags.supports_output_schema { Some(true) } else { None },
            supports_add_dir: if flags.supports_add_dir { Some(true) } else { None },
            supports_mcp_login: if flags.supports_mcp_login { Some(true) } else { None },
        }
    }
}

/// Overrides that set every flag to its value in `flags`.
pub open spec fn mirror_overrides(flags: CodexFeatureFlags) -> CapabilityFeatureOverrides {
    CapabilityFeatureOverrides {
        supports_features_list: Some(flags.supports_features_list),
        supports_output_schema: Some(flags.supports_output_schema),
        supports_add_dir: Some(flags.supports_add_dir),
        supports_mcp_login: Some(flags.supports_mcp_login),
    }
}

/// Overrides that force-enable exactly the flags set in `flags`.
pub open spec fn enabling_overrides(flags: CodexFeatureFlags) -> CapabilityFeatureOverrides {
    CapabilityFeatureOverrides {
        supports_features_list: if flags.supports_features_list { Some(true) } else { None },
        supports_output_schema: if flags.supports_output_schema { Some(true) } else { None },
        supports_add_dir: if flags.supports_add_dir { Some(true) } else { None },
        supports_mcp_login: if flags.supports_mcp_login { Some(true) } else { None },
    }
}

/// Flags after overrides: each `Some` override replaces the probed value.
pub open spec fn overridden(flags: CodexFeatureFlags, o: CapabilityFeatureOverrides) -> CodexFeatureFlags {
    CodexFeatureFlags {
        supports_features_list: match o.supports_features_list {
            Some(v) => v,
            None => flags.supports_features_list,
        },
        supports_output_schema: match o.supports_output_schema {
            Some(v) => v,
            None => flags.supports_output_schema,
        },
        supports_add_dir: match o.supports_add_dir {
            Some(v) => v,
            None => flags.supports_add_dir,
        },
        supports_mcp_login: match o.supports_mcp_login {
            Some(v) => v,
            None => flags.supports_mcp_login,
        },
    }
}

/// Applies feature overrides in place; true when at least one override was set.
pub fn apply_feature_overrides(
    features: &mut CodexFeatureFlags,
    overrides: &CapabilityFeatureOverrides,
) -> (applied: bool)
    ensures
        *final(features) == overridden(*old(features), *overrides),
        applied == !overrides.spec_is_empty(),
{
    let mut applied = false;
    if let Some(value) = overrides.supports_features_list {
        features.supports_features_list = value;
        applied = true;
    }
    if let Some(value) = overrides.supports_output_schema {
        features.supports_output_schema = value;
        applied = true;
    }
    if let Some(value) = overrides.supports_add_dir {
        features.supports_add_dir = value;
        applied = true;
    }
    if let Some(value) = overrides.supports_mcp_login {
        features.supports_mcp_login = value;
        applied = true;
    }
    applied
}

/// Command-level probes used to infer feature support.
#[derive(Clone, Copy, Debug, PartialEq, Eq, Structural)]
pub enum CapabilityProbeStep {
    /// `codex --version`.
    VersionFlag,
    /// `codex features list --json`.
    FeaturesListJson,
    /// `codex features list`.
    FeaturesListText,
    /// `codex --help`.
    HelpFallback,
    /// Caller-supplied overrides were applied.
    ManualOverride,
}

/// Steps attempted while interrogating the binary, in order.
#[derive(Debug)]
pub struct CapabilityProbePlan {
    pub steps: Vec<CapabilityProbeStep>,
}

impl Clone for CapabilityProbePlan {
    fn clone(&self) -> (r: Self)
        ensures
            r.steps@ == self.steps@,
    {
        let mut steps: Vec<CapabilityProbeStep> = Vec::new();
        let mut i: usize = 0;
        while i < self.steps.len()
            invariant
                i <= self.steps.len(),
                steps@ =~= self.steps@.subrange(0, i as int),
            decreases self.steps.len() - i,
        {
            steps.push(self.steps[i]);
            i = i + 1;
        }
        CapabilityProbePlan { steps }
    }
}

impl Default for CapabilityProbePlan {
    fn default() -> (r: Self)
        ensures
            r.steps@.len() == 0,
    {
        CapabilityProbePlan { steps: Vec::new() }
    }
}

/// Snapshot of Codex CLI capabilities derived from probing a specific binary.
#[derive(Debug)]
pub struct CodexCapabilities {
    pub cache_key: CapabilityCacheKey,
    pub fingerprint: Option<BinaryFingerprint>,
    pub version: Option<CodexVersionInfo>,
    pub features: CodexFeatureFlags,
    pub probe_plan: CapabilityProbePlan,
    pub collected_at: Timestamp,
}

pub fn clone_opt_version(v: &Option<CodexVersionInfo>) -> (r: Option<CodexVersionInfo>)
    ensures
        r == *v,
{
    match v {
        Some(x) => Some(x.clone()),
        None => None,
    }
}

impl CodexCapabilities {
    /// A copy with the same contents.
    pub fn duplicate(&self) -> (r: Self)
        ensures
            r.cache_key == self.cache_key,
            r.fingerprint == self.fingerprint,
            r.version == self.version,
            r.features == self.features,
            r.probe_plan.steps@ == self.probe_plan.steps@,
            r.collected_at == self.collected_at,
    {
        CodexCapabilities {
            cache_key: self.cache_key.clone(),
            fingerprint: clone_fingerprint(&self.fingerprint),
            version: clone_opt_version(&self.version),
            features: self.features,
            probe_plan: self.probe_plan.clone(),
            collected_at: self.collected_at,
        }
    }
}

/// Caller-supplied capability data that can short-circuit or adjust probing.
#[derive(Debug)]
pub struct CapabilityOverrides {
    /// Manual snapshot returned instead of probing (after feature/version overrides).
    pub snapshot: Option<CodexCapabilities>,
    /// Version override applied after probing.
    pub version: Option<CodexVersionInfo>,
    /// Feature-level overrides merged into probed or manual capabilities.
    pub features: CapabilityFeatureOverrides,
}

impl Default for CapabilityOverrides {
    fn default() -> (r: Self)
        ensures
            r.snapshot is None,
            r.version is None,
            r.features == no_feature_overrides(),
    {
        CapabilityOverrides { snapshot: None, version: None, features: CapabilityFeatureOverrides::default() }
    }
}

impl CapabilityOverrides {
    pub open spec fn spec_is_empty(&self) -> bool {
        self.snapshot is None && self.version is None && self.features.spec_is_empty()
    }

    /// Returns true when no override data is present.
    pub fn is_empty(&self) -> (r: bool)
        ensures
            r == self.spec_is_empty(),
    {
        self.snapshot.is_none() && self.version.is_none() && self.features.is_empty()
    }

    /// A copy with the same contents.
    pub fn duplicate(&self) -> (r: Self)
        ensures
            match (r.snapshot, self.snapshot) {
                (Some(a), Some(b)) => a.cache_key == b.cache_key && a.fingerprint == b.fingerprint
                    && a.version == b.version && a.features == b.features && a.probe_plan.steps@
                    == b.probe_plan.steps@ && a.collected_at == b.collected_at,
                (None, None) => true,
                _ => false,
            },
            r.version == self.version,
            r.features == self.features,
    {
        CapabilityOverrides {
            snapshot: match &self.snapshot {
                Some(s) => Some(s.duplicate()),
                None => None,
            },
            version: clone_opt_version(&self.version),
            features: self.features,
        }
    }
}

/// Cache interaction policy for capability probes.
#[derive(Clone, Copy, Debug, PartialEq, Eq, Structural)]
pub enum CapabilityCachePolicy {
    /// Reuse cached entries whose fingerprints match; probe and write back otherwise.
    PreferCache,
    /// Always probe, overwriting any cache entry for the binary.
    Refresh,
    /// Skip cache reads and writes.
    Bypass,
}

impl Default for CapabilityCachePolicy {
    fn default() -> (r: Self)
        ensures
            r == CapabilityCachePolicy::PreferCache,
    {
        CapabilityCachePolicy::PreferCache
    }
}

/// Result of applying a TTL/backoff window to a capability snapshot.
#[derive(Clone, Copy, Debug, PartialEq, Eq, Structural)]
pub struct CapabilityTtlDecision {
    /// The snapshot is outside the TTL window and probes should run again.
    pub should_probe: bool,
    /// Recommended cache policy for the next probe.
    pub policy: CapabilityCachePolicy,
}

/// The TTL decision: no snapshot means probe with the default policy; a snapshot collected
/// less than `ttl` before `now` is reused; otherwise (expired, or collected after `now`)
/// probe with `Refresh` when it has a fingerprint and `Bypass` when it has none.
pub open spec fn ttl_decision(snapshot: Option<(bool, Timestamp)>, ttl: TimeSpan, now: Timestamp) -> CapabilityTtlDecision {
    match snapshot {
        None => CapabilityTtlDecision { should_probe: true, policy: CapabilityCachePolicy::PreferCache },
        Some((has_fingerprint, collected_at)) => {
            let expired = now.unix_nanos() < collected_at.unix_nanos() || now.unix_nanos()
                - collected_at.unix_nanos() >= ttl.nanos;
            if !expired {
                CapabilityTtlDecision { should_probe: false, policy: CapabilityCachePolicy::PreferCache }
            } else if has_fingerprint {
                CapabilityTtlDecision { should_probe: true, policy: CapabilityCachePolicy::Refresh }
            } else {
                CapabilityTtlDecision { should_probe: true, policy: CapabilityCachePolicy::Bypass }
            }
        },
    }
}

/// Decides whether a cached capability snapshot should be refreshed based on `collected_at`.
pub fn capability_cache_ttl_decision(
    snapshot: Option<&CodexCapabilities>,
    ttl: TimeSpan,
    now: Timestamp,
) -> (r: CapabilityTtlDecision)
    ensures
        r == ttl_decision(
            match snapshot {
                Some(s) => Some((s.fingerprint is Some, s.collected_at)),
                None => None,
            },
            ttl,
            now,
        ),
{
    let default_policy = CapabilityCachePolicy::PreferCache;
    let snapshot = match snapshot {
        Some(s) => s,
        None => {
            return CapabilityTtlDecision { should_probe: true, policy: default_policy };
        },
    };
    let expired = match now.duration_since(snapshot.collected_at) {
        Some(elapsed) => elapsed.nanos >= ttl.nanos,
        None => true,
    };
    if !expired {
        return CapabilityTtlDecision { should_probe: false, policy: default_policy };
    }
    let policy = if snapshot.fingerprint.is_some() {
        CapabilityCachePolicy::Refresh
    } else {
        CapabilityCachePolicy::Bypass
    };
    CapabilityTtlDecision { should_probe: true, policy }
}


/// High-level view of whether a specific feature can be used safely.
#[derive(Clone, Copy, Debug, PartialEq, Eq, Structural)]
pub enum CapabilitySupport {
    Supported,
    Unsupported,
    Unknown,
}

impl CapabilitySupport {
    /// True when it is safe to enable the guarded feature or flag.
    pub fn is_supported(self) -> (r: bool)
        ensures
            r == (self == CapabilitySupport::Supported),
    {
        matches!(self, CapabilitySupport::Supported)
    }

    /// True when support could not be confirmed due to missing probes.
    pub fn is_unknown(self) -> (r: bool)
        ensures
            r == (self == CapabilitySupport::Unknown),
    {
        matches!(self, CapabilitySupport::Unknown)
    }
}

/// Feature/flag tokens that can be guarded based on probed capabilities.
#[derive(Clone, Copy, Debug, PartialEq, Eq, Structural)]
pub enum CapabilityFeature {
    OutputSchema,
    AddDir,
    McpLogin,
    FeaturesList,
}

pub open spec fn feature_label(f: CapabilityFeature) -> Seq<char> {
    match f {
        CapabilityFeature::OutputSchema => "--output-schema"@,
        CapabilityFeature::AddDir => "codex add-dir"@,
        CapabilityFeature::McpLogin => "codex login --mcp"@,
        CapabilityFeature::FeaturesList => "codex features list"@,
    }
}

impl CapabilityFeature {
    /// The flag or subcommand the feature stands for.
    pub fn label(self) -> (r: Vec<char>)
        ensures
            r@ == feature_label(self),
    {
        match self {
            CapabilityFeature::OutputSchema => lit("--output-schema"),
            CapabilityFeature::AddDir => lit("codex add-dir"),
            CapabilityFeature::McpLogin => lit("codex login --mcp"),
            CapabilityFeature::FeaturesList => lit("codex features list"),
        }
    }
}

/// Result of gating a Codex feature/flag against probed capabilities.
#[derive(Debug)]
pub struct CapabilityGuard {
    pub feature: CapabilityFeature,
    pub support: CapabilitySupport,
    /// Notes explaining how the guard was derived.
    pub notes: Vec<String>,
}

impl CapabilityGuard {
    /// Convenience wrapper for `support.is_supported()`.
    pub fn is_supported(&self) -> (r: bool)
        ensures
            r == (self.support == CapabilitySupport::Supported),
    {
        self.support.is_supported()
    }

    /// Convenience wrapper for `support.is_unknown()`.
    pub fn is_unknown(&self) -> (r: bool)
        ensures
            r == (self.support == CapabilitySupport::Unknown),
    {
        self.support.is_unknown()
    }
}

pub open spec fn string_views(v: Seq<String>) -> Seq<Seq<char>> {
    v.map_values(|s: String| s@)
}

/// The flag of `flags` that a feature reads.
pub open spec fn feature_flag(f: CapabilityFeature, flags: CodexFeatureFlags) -> bool {
    match f {
        CapabilityFeature::OutputSchema => flags.supports_output_schema,
        CapabilityFeature::AddDir => flags.supports_add_dir,
        CapabilityFeature::McpLogin => flags.supports_mcp_login,
        CapabilityFeature::FeaturesList => flags.supports_features_list,
    }
}

/// Support level of a guard: detected flags are supported; a missing `features list` is
/// unknown; other features are unsupported when the feature list exists and omits them,
/// and unknown when there is no feature list to consult.
pub open spec fn guard_support(f: CapabilityFeature, flags: CodexFeatureFlags) -> CapabilitySupport {
    if feature_flag(f, flags) {
        CapabilitySupport::Supported
    } else if f == CapabilityFeature::FeaturesList {
        CapabilitySupport::Unknown
    } else if flags.supports_features_list {
        CapabilitySupport::Unsupported
    } else {
        CapabilitySupport::Unknown
    }
}

/// The notes a guard carries.
pub open spec fn guard_notes(f: CapabilityFeature, flags: CodexFeatureFlags, has_version: bool) -> Seq<Seq<char>> {
    let label = feature_label(f);
    if feature_flag(f, flags) {
        seq!["Support for "@ + label + " reported by Codex probe."@]
    } else if f == CapabilityFeature::FeaturesList {
        seq!["Support for "@ + label + " could not be confirmed; feature list probes failed or were unavailable."@]
            + if has_version {
            Seq::empty()
        } else {
            seq!["Version was unavailable; assuming compatibility with older Codex builds."@]
        }
    } else if flags.supports_features_list {
        seq!["`"@ + feature_label(CapabilityFeature::FeaturesList) + "` did not advertise "@ + label
            + "; skipping related flag to stay compatible."@]
    } else {
        seq!["Support for "@ + label + " is unknown because "@ + feature_label(CapabilityFeature::FeaturesList)
            + " is unavailable; disable the flag for compatibility."@] + if has_version {
            Seq::empty()
        } else {
            seq!["Version could not be parsed; treating feature support conservatively to avoid CLI errors."@]
        }
    }
}

fn note2(a: &str, b: &[char], c: &str) -> (r: String)
    ensures
        r@ == a@ + b@ + c@,
{
    let mut v = lit(a);
    push_all(&mut v, b);
    let cv = lit(c);
    push_all(&mut v, cv.as_slice());
    string_of(v.as_slice())
}

/// Guards one feature against probed flags and the presence of version data.
pub fn guard_feature_support(
    feature: CapabilityFeature,
    flags: &CodexFeatureFlags,
    has_version: bool,
) -> (r: CapabilityGuard)
    ensures
        r.feature == feature,
        r.support == guard_support(feature, *flags),
        string_views(r.notes@) == guard_notes(feature, *flags, has_version),
{
    let supported = match feature {
        CapabilityFeature::OutputSchema => flags.supports_output_schema,
        CapabilityFeature::AddDir => flags.supports_add_dir,
        CapabilityFeature::McpLogin => flags.supports_mcp_login,
        CapabilityFeature::FeaturesList => flags.supports_features_list,
    };
    let label = feature.label();
    let mut notes: Vec<String> = Vec::new();
    if supported {
        notes.push(note2("Support for ", label.as_slice(), " reported by Codex probe."));
        assert(string_views(notes@) =~= guard_notes(feature, *flags, has_version));
        return CapabilityGuard { feature, support: CapabilitySupport::Supported, notes };
    }
    if feature == CapabilityFeature::FeaturesList {
        notes.push(
            note2(
                "Support for ",
                label.as_slice(),
                " could not be confirmed; feature list probes failed or were unavailable.",
            ),
        );
        if !has_version {
            notes.push(
                String::from_str(
                    "Version was unavailable; assuming compatibility with older Codex builds.",
                ),
            );
        }
        assert(string_views(notes@) =~= guard_notes(feature, *flags, has_version));
        return CapabilityGuard { feature, support: CapabilitySupport::Unknown, notes };
    }
    let list_label = CapabilityFeature::FeaturesList.label();
    if flags.supports_features_list {
        let mut v = lit("`");
        push_all(&mut v, list_label.as_slice());
        let mid = lit("` did not advertise ");
        push_all(&mut v, mid.as_slice());
        push_all(&mut v, label.as_slice());
        let tail = lit("; skipping related flag to stay compatible.");
        push_all(&mut v, tail.as_slice());
        notes.push(string_of(v.as_slice()));
        assert(string_views(notes@) =~= guard_notes(feature, *flags, has_version));
        return CapabilityGuard { feature, support: CapabilitySupport::Unsupported, notes };
    }
    let mut v = lit("Support for ");
    push_all(&mut v, label.as_slice());
    let mid = lit(" is unknown because ");
    push_all(&mut v, mid.as_slice());
    push_all(&mut v, list_label.as_slice());
    let tail = lit(" is unavailable; disable the flag for compatibility.");
    push_all(&mut v, tail.as_slice());
    notes.push(string_of(v.as_slice()));
    if !has_version {
        notes.push(
            String::from_str(
                "Version could not be parsed; treating feature support conservatively to avoid CLI errors.",
            ),
        );
    }
    assert(string_views(notes@) =~= guard_notes(feature, *flags, has_version));
    CapabilityGuard { feature, support: CapabilitySupport::Unknown, notes }
}

impl CodexCapabilities {
    /// Guards whether `--output-schema` should be passed to `codex exec`.
    pub fn guard_output_schema(&self) -> (r: CapabilityGuard)
        ensures
            r.feature == CapabilityFeature::OutputSchema,
            r.support == guard_support(CapabilityFeature::OutputSchema, self.features),
            string_views(r.notes@) == guard_notes(
                CapabilityFeature::OutputSchema,
                self.features,
                self.version is Some,
            ),
    {
        self.guard_feature(CapabilityFeature::OutputSchema)
    }

    /// Guards whether `codex add-dir` can be invoked safely.
    pub fn guard_add_dir(&self) -> (r: CapabilityGuard)
        ensures
            r.feature == CapabilityFeature::AddDir,
            r.support == guard_support(CapabilityFeature::AddDir, self.features),
            string_views(r.notes@) == guard_notes(
                CapabilityFeature::AddDir,
                self.features,
                self.version is Some,
            ),
    {
        self.guard_feature(CapabilityFeature::AddDir)
    }

    /// Guards whether `codex login --mcp` is available.
    pub fn guard_mcp_login(&self) -> (r: CapabilityGuard)
        ensures
            r.feature == CapabilityFeature::McpLogin,
            r.support == guard_support(CapabilityFeature::McpLogin, self.features),
            string_views(r.notes@) == guard_notes(
                CapabilityFeature::McpLogin,
                self.features,
                self.version is Some,
            ),
    {
        self.guard_feature(CapabilityFeature::McpLogin)
    }

    /// Guards whether `codex features list` is supported by the probed binary.
    pub fn guard_features_list(&self) -> (r: CapabilityGuard)
        ensures
            r.feature == CapabilityFeature::FeaturesList,
            r.support == guard_support(CapabilityFeature::FeaturesList, self.features),
            string_views(r.notes@) == guard_notes(
                CapabilityFeature::FeaturesList,
                self.features,
                self.version is Some,
            ),
    {
        self.guard_feature(CapabilityFeature::FeaturesList)
    }

    /// Guard describing whether a feature/flag is supported by the probed binary.
    pub fn guard_feature(&self, feature: CapabilityFeature) -> (r: CapabilityGuard)
        ensures
            r.feature == feature,
            r.support == guard_support(feature, self.features),
            string_views(r.notes@) == guard_notes(feature, self.features, self.version is Some),
    {
        guard_feature_support(feature, &self.features, self.version.is_some())
    }
}

/// Whether `steps` already records a manual override.
fn has_manual_override(steps: &Vec<CapabilityProbeStep>) -> (r: bool)
    ensures
        r == steps@.contains(CapabilityProbeStep::ManualOverride),
{
    let mut i: usize = 0;
    while i < steps.len()
        invariant
            i <= steps.len(),
            forall|j: int| 0 <= j < i ==> steps@[j] != CapabilityProbeStep::ManualOverride,
        decreases steps.len() - i,
    {
        if steps[i] == CapabilityProbeStep::ManualOverride {
            assert(steps@[i as int] == CapabilityProbeStep::ManualOverride);
            return true;
        }
        i = i + 1;
    }
    false
}

/// Whether overrides change a snapshot, counting a manual snapshot as a change.
pub open spec fn overrides_applied(overrides: &CapabilityOverrides, manual_source: bool) -> bool {
    manual_source || overrides.version is Some || !overrides.features.spec_is_empty()
}

/// Probe plan after overrides: `ManualOverride` appended once when overrides applied.
pub open spec fn plan_after_overrides(steps: Seq<CapabilityProbeStep>, applied: bool) -> Seq<CapabilityProbeStep> {
    if applied && !steps.contains(CapabilityProbeStep::ManualOverride) {
        steps.push(CapabilityProbeStep::ManualOverride)
    } else {
        steps
    }
}

/// Re-keys a snapshot to the binary, applies version and feature overrides, and records a
/// `ManualOverride` step when anything was overridden (or the snapshot is caller-supplied).
pub fn finalize_capabilities_with_overrides(
    capabilities: CodexCapabilities,
    overrides: &CapabilityOverrides,
    cache_key: CapabilityCacheKey,
    fingerprint: Option<BinaryFingerprint>,
    manual_source: bool,
) -> (r: CodexCapabilities)
    ensures
        r.cache_key == cache_key,
        r.fingerprint == fingerprint,
        r.version == (match overrides.version {
            Some(v) => Some(v),
            None => capabilities.version,
        }),
        r.features == overridden(capabilities.features, overrides.features),
        r.probe_plan.steps@ == plan_after_overrides(
            capabilities.probe_plan.steps@,
            overrides_applied(overrides, manual_source),
        ),
        r.collected_at == capabilities.collected_at,
{
    let mut capabilities = capabilities;
    capabilities.cache_key = cache_key;
    capabilities.fingerprint = fingerprint;
    let mut applied = manual_source;
    match &overrides.version {
        Some(v) => {
            capabilities.version = Some(v.clone());
            applied = true;
        },
        None => {},
    }
    if apply_feature_overrides(&mut capabilities.features, &overrides.features) {
        applied = true;
    }
    if applied && !has_manual_override(&capabilities.probe_plan.steps) {
        capabilities.probe_plan.steps.push(CapabilityProbeStep::ManualOverride);
    }
    capabilities
}


/// Overrides built from a set of flags reproduce those flags, whatever was probed.
pub proof fn law_mirrored_overrides_reproduce_flags(probed: CodexFeatureFlags, flags: CodexFeatureFlags)
    ensures
        overridden(probed, mirror_overrides(flags)) == flags,
{
}

/// Enabling overrides only add support: the result is the probed flags or-ed with the hints.
pub proof fn law_enabling_overrides_only_add(probed: CodexFeatureFlags, hints: CodexFeatureFlags)
    ensures
        overridden(probed, enabling_overrides(hints)) == crate::features::or_flags(probed, hints),
{
}

/// Empty overrides leave probed flags unchanged.
pub proof fn law_empty_overrides_are_identity(probed: CodexFeatureFlags)
    ensures
        overridden(probed, no_feature_overrides()) == probed,
        no_feature_overrides().spec_is_empty(),
{
}

/// A guard reports support exactly when the probe detected the feature; without a feature
/// list an undetected feature is unknown rather than unsupported, and `features list`
/// itself is never reported unsupported.
pub proof fn law_guard_support(f: CapabilityFeature, flags: CodexFeatureFlags)
    ensures
        (guard_support(f, flags) == CapabilitySupport::Supported) == feature_flag(f, flags),
        !flags.supports_features_list && !feature_flag(f, flags) ==> guard_support(f, flags)
            == CapabilitySupport::Unknown,
        guard_support(CapabilityFeature::FeaturesList, flags) != CapabilitySupport::Unsupported,
{
}

/// Once a snapshot is due for a probe it stays due as time goes on (for snapshots not
/// collected after the first instant); a reused snapshot keeps the default policy, and an
/// expired one is refreshed when it has a fingerprint and bypassed when it has none.
pub proof fn law_ttl_decision(snapshot: Option<(bool, Timestamp)>, ttl: TimeSpan, t1: Timestamp, t2: Timestamp)
    requires
        t1.unix_nanos() <= t2.unix_nanos(),
        snapshot matches Some((_, c)) ==> c.unix_nanos() <= t1.unix_nanos(),
    ensures
        ttl_decision(snapshot, ttl, t1).should_probe ==> ttl_decision(snapshot, ttl, t2).should_probe,
        !ttl_decision(snapshot, ttl, t1).should_probe ==> ttl_decision(snapshot, ttl, t1).policy
            == CapabilityCachePolicy::PreferCache,
        match snapshot {
            Some((fp, _)) => ttl_decision(snapshot, ttl, t1).should_probe ==> ttl_decision(snapshot, ttl, t1).policy
                == if fp {
                CapabilityCachePolicy::Refresh
            } else {
                CapabilityCachePolicy::Bypass
            },
            None => ttl_decision(snapshot, ttl, t1).should_probe,
        },
{
}

} // verus!
