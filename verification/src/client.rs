//! The client configuration: its builder, the environment every command runs with, and the
//! argument vectors of `codex exec` (buffered and streaming).

use vstd::prelude::*;
use crate::capabilities::{
    guard_support, string_views, CapabilityCachePolicy, CapabilityFeature,
    CapabilityFeatureOverrides, CapabilityOverrides, CapabilitySupport, CodexCapabilities,
    CodexFeatureFlags,
};
use crate::cli::{opt_flag, opt_pair, push_arg, push_flag, push_opt_pair, RequestError};
use crate::home::CodexHomeLayout;
use crate::overrides::{non_blank, non_blank_view, opt_string_view};
use crate::text::{blank, chars_of, is_blank, lit, lower, lower_chars, starts_with, starts_with_chars, eq_chars, string_of, trim, trim_chars, CharClass};
use crate::time::TimeSpan;
use crate::version::CodexVersionInfo;

verus! {

/// Seconds `codex exec` may run before it is abandoned, unless the caller chose otherwise.
pub const DEFAULT_TIMEOUT_SECS: u64 = 120;

/// The default timeout: two minutes.
pub fn default_timeout() -> (r: TimeSpan)
    ensures
        r.nanos == DEFAULT_TIMEOUT_SECS * 1_000_000_000,
{
    TimeSpan::from_secs(DEFAULT_TIMEOUT_SECS)
}

/// ANSI color behavior for `codex exec` output.
#[derive(Clone, Copy, Debug, PartialEq, Eq, Structural)]
pub enum ColorMode {
    /// Use color codes when stdout/stderr look like terminals.
    Auto,
    /// Force colorful output even when piping.
    Always,
    /// Disable ANSI sequences for deterministic parsing and logging (the default).
    Never,
}

pub open spec fn color_label(c: ColorMode) -> Seq<char> {
    match c {
        ColorMode::Auto => "auto"@,
        ColorMode::Always => "always"@,
        ColorMode::Never => "never"@,
    }
}

impl ColorMode {
    /// The value passed to `--color`.
    pub fn as_str(self) -> (r: &'static str)
        ensures
            r@ == color_label(self),
    {
        match self {
            ColorMode::Auto => "auto",
            ColorMode::Always => "always",
            ColorMode::Never => "never",
        }
    }
}

/// Families of models that get their own reasoning defaults.
#[derive(Clone, Copy, Debug, PartialEq, Eq, Structural)]
pub enum ReasoningPreset {
    Gpt5,
    Gpt5Codex,
    Gpt51,
}

/// The preset for a model name, matched on its ASCII-lowercased form; no model, or an
/// unknown one, gets the GPT-5 defaults.
pub open spec fn preset_for(model: Option<Seq<char>>) -> ReasoningPreset {
    match model {
        Some(m) => {
            let name = lower(m);
            if starts_with(name, "gpt-5.1-codex"@) || starts_with(name, "gpt-5.1"@) {
                ReasoningPreset::Gpt51
            } else if name == "gpt-5-codex"@ {
                ReasoningPreset::Gpt5Codex
            } else {
                ReasoningPreset::Gpt5
            }
        },
        None => ReasoningPreset::Gpt5,
    }
}

/// The `--config` pairs of a preset. The three families currently share one table.
pub open spec fn preset_pairs(p: ReasoningPreset) -> Seq<(Seq<char>, Seq<char>)> {
    match p {
        ReasoningPreset::Gpt5 | ReasoningPreset::Gpt5Codex | ReasoningPreset::Gpt51 => seq![
            ("model_reasoning_effort"@, "medium"@),
            ("model_reasoning_summary"@, "auto"@),
            ("model_verbosity"@, "low"@),
        ],
    }
}

pub open spec fn pair_views(v: Seq<(String, String)>) -> Seq<(Seq<char>, Seq<char>)> {
    v.map_values(|p: (String, String)| (p.0@, p.1@))
}

fn pair(k: &str, v: &str) -> (r: (String, String))
    ensures
        r.0@ == k@ && r.1@ == v@,
{
    (k.to_owned(), v.to_owned())
}

/// The reasoning preset of a model name.
pub fn reasoning_preset_for(model: Option<&str>) -> (r: ReasoningPreset)
    ensures
        r == preset_for(match model {
            Some(m) => Some(m@),
            None => None,
        }),
{
    match model {
        Some(m) => {
            let name = lower_chars(chars_of(m).as_slice());
            let p1 = lit("gpt-5.1-codex");
            let p2 = lit("gpt-5.1");
            let p3 = lit("gpt-5-codex");
            if starts_with_chars(name.as_slice(), p1.as_slice()) || starts_with_chars(
                name.as_slice(),
                p2.as_slice(),
            ) {
                ReasoningPreset::Gpt51
            } else if eq_chars(name.as_slice(), p3.as_slice()) {
                ReasoningPreset::Gpt5Codex
            } else {
                ReasoningPreset::Gpt5
            }
        },
        None => ReasoningPreset::Gpt5,
    }
}

/// The `--config key=value` pairs passed to `codex exec` for `model`; every model gets a table.
pub fn reasoning_config_for(model: Option<&str>) -> (r: Option<Vec<(String, String)>>)
    ensures
        r matches Some(v) && pair_views(v@) == preset_pairs(preset_for(match model {
            Some(m) => Some(m@),
            None => None,
        })),
{
    let preset = reasoning_preset_for(model);
    let mut v: Vec<(String, String)> = Vec::new();
    match preset {
        ReasoningPreset::Gpt5 | ReasoningPreset::Gpt5Codex | ReasoningPreset::Gpt51 => {
            v.push(pair("model_reasoning_effort", "medium"));
            v.push(pair("model_reasoning_summary", "auto"));
            v.push(pair("model_verbosity", "low"));
        },
    }
    assert(pair_views(v@) =~= preset_pairs(preset));
    Some(v)
}

/// `--config key=value` for each pair, in order.
pub open spec fn config_args(pairs: Seq<(Seq<char>, Seq<char>)>) -> Seq<Seq<char>>
    decreases pairs.len(),
{
    if pairs.len() == 0 {
        Seq::empty()
    } else {
        config_args(pairs.drop_last()) + seq![
            "--config"@,
            pairs.last().0 + "="@ + pairs.last().1,
        ]
    }
}

/// `flag item` for each item, in order.
pub open spec fn repeat_flag(flag: Seq<char>, items: Seq<Seq<char>>) -> Seq<Seq<char>>
    decreases items.len(),
{
    if items.len() == 0 {
        Seq::empty()
    } else {
        repeat_flag(flag, items.drop_last()) + seq![flag, items.last()]
    }
}

/// Appends `--config key=value` for each pair.
pub fn push_config_args(args: &mut Vec<String>, pairs: &Vec<(String, String)>)
    ensures
        string_views(final(args)@) == string_views(old(args)@) + config_args(pair_views(pairs@)),
{
    let ghost start = string_views(args@);
    let mut i: usize = 0;
    while i < pairs.len()
        invariant
            i <= pairs.len(),
            string_views(args@) == start + config_args(pair_views(pairs@).take(i as int)),
        decreases pairs.len() - i,
    {
        let (k, v) = &pairs[i];
        let mut kv: Vec<char> = chars_of(k.as_str());
        kv.push('=');
        let vc = chars_of(v.as_str());
        crate::text::push_all(&mut kv, vc.as_slice());
        let ghost before = string_views(args@);
        push_arg(args, "--config");
        let ghost mid = string_views(args@);
        let kvs = string_of(kv.as_slice());
        assert(kvs@ == kv@);
        args.push(kvs);
        assert(string_views(args@) =~= mid.push(kv@));
        proof {
            let t = pair_views(pairs@).take(i + 1);
            assert(t.drop_last() =~= pair_views(pairs@).take(i as int));
            assert(kv@ =~= k@ + "="@ + v@) by {
                reveal_strlit("=");
            }
            assert(string_views(args@) =~= before + seq!["--config"@, k@ + "="@ + v@]);
        }
        i = i + 1;
    }
    assert(pair_views(pairs@).take(pairs@.len() as int) =~= pair_views(pairs@));
}

/// Appends `flag item` for each item.
pub fn push_repeated(args: &mut Vec<String>, flag: &str, items: &Vec<String>)
    ensures
        string_views(final(args)@) == string_views(old(args)@) + repeat_flag(flag@, string_views(items@)),
{
    let ghost start = string_views(args@);
    let mut i: usize = 0;
    while i < items.len()
        invariant
            i <= items.len(),
            string_views(args@) == start + repeat_flag(flag@, string_views(items@).take(i as int)),
        decreases items.len() - i,
    {
        let ghost before = string_views(args@);
        push_arg(args, flag);
        push_arg(args, items[i].as_str());
        proof {
            let t = string_views(items@).take(i + 1);
            assert(t.drop_last() =~= string_views(items@).take(i as int));
            assert(string_views(args@) =~= before + seq![flag@, items@[i as int]@]);
        }
        i = i + 1;
    }
    assert(string_views(items@).take(items@.len() as int) =~= string_views(items@));
}

/// Builder for [`CodexClient`].
#[derive(Debug)]
pub struct CodexClientBuilder {
    pub binary: String,
    pub codex_home: Option<String>,
    pub create_home_dirs: bool,
    pub model: Option<String>,
    pub timeout: TimeSpan,
    pub color_mode: ColorMode,
    pub working_dir: Option<String>,
    pub add_dirs: Vec<String>,
    pub images: Vec<String>,
    pub json_output: bool,
    pub output_schema: bool,
    pub quiet: bool,
    pub mirror_stdout: bool,
    pub json_event_log: Option<String>,
    pub capability_overrides: CapabilityOverrides,
    pub capability_cache_policy: CapabilityCachePolicy,
}

/// The binary used when none is configured: the `CODEX_BINARY` value when the environment
/// has one, else `codex` on `PATH`.
pub fn default_binary_path(env_value: Option<&str>) -> (r: String)
    ensures
        r@ == match env_value {
            Some(v) => v@,
            None => "codex"@,
        },
{
    match env_value {
        Some(v) => v.to_owned(),
        None => "codex".to_owned(),
    }
}

/// The `RUST_LOG` value injected for child commands: `error` unless the environment already
/// sets the variable.
pub fn default_rust_log_value(rust_log_set: bool) -> (r: Option<&'static str>)
    ensures
        match r {
            Some(v) => !rust_log_set && v@ == "error"@,
            None => rust_log_set,
        },
{
    if rust_log_set {
        None
    } else {
        Some("error")
    }
}

/// The defaults of a fresh builder, with `binary` as the binary path.
pub open spec fn builder_defaults(b: CodexClientBuilder, binary: Seq<char>) -> bool {
    &&& b.binary@ == binary
    &&& b.codex_home is None
    &&& b.create_home_dirs
    &&& b.model is None
    &&& b.timeout.nanos == DEFAULT_TIMEOUT_SECS * 1_000_000_000
    &&& b.color_mode == ColorMode::Never
    &&& b.working_dir is None
    &&& b.add_dirs@.len() == 0
    &&& b.images@.len() == 0
    &&& !b.json_output
    &&& !b.output_schema
    &&& !b.quiet
    &&& b.mirror_stdout
    &&& b.json_event_log is None
    &&& b.capability_overrides.spec_is_empty()
    &&& b.capability_cache_policy == CapabilityCachePolicy::PreferCache
}

impl CodexClientBuilder {
    /// A builder with default values and the given binary (see [`default_binary_path`]).
    pub fn with_binary(binary: String) -> (r: Self)
        ensures
            builder_defaults(r, binary@),
    {
        CodexClientBuilder {
            binary,
            codex_home: None,
            create_home_dirs: true,
            model: None,
            timeout: default_timeout(),
            color_mode: ColorMode::Never,
            working_dir: None,
            add_dirs: Vec::new(),
            images: Vec::new(),
            json_output: false,
            output_schema: false,
            quiet: false,
            mirror_stdout: true,
            json_event_log: None,
            capability_overrides: CapabilityOverrides::default(),
            capability_cache_policy: CapabilityCachePolicy::PreferCache,
        }
    }

    /// A builder with default values and `codex` as the binary; the environment is not read
    /// here (pass `CODEX_BINARY` through [`default_binary_path`] and [`Self::with_binary`]).
    pub fn new() -> (r: Self)
        ensures
            builder_defaults(r, "codex"@),
    {
        CodexClientBuilder::with_binary(default_binary_path(None))
    }

    /// Sets the path to the Codex binary.
    pub fn binary(self, binary: &str) -> (r: Self)
        ensures
            r.binary@ == binary@,
            r == (CodexClientBuilder { binary: r.binary, ..self }),
    {
        CodexClientBuilder { binary: binary.to_owned(), ..self }
    }

    /// Sets the `CODEX_HOME` applied to every command.
    pub fn codex_home(self, home: &str) -> (r: Self)
        ensures
            opt_string_view(r.codex_home) == Some(home@),
            r == (CodexClientBuilder { codex_home: r.codex_home, ..self }),
    {
        CodexClientBuilder { codex_home: Some(home.to_owned()), ..self }
    }

    /// Whether the `CODEX_HOME` tree is created when missing.
    pub fn create_home_dirs(self, enable: bool) -> (r: Self)
        ensures
            r == (CodexClientBuilder { create_home_dirs: enable, ..self }),
    {
        CodexClientBuilder { create_home_dirs: enable, ..self }
    }

    /// Sets the model for every `codex exec` call; a blank name clears it.
    pub fn model(self, model: &str) -> (r: Self)
        ensures
            opt_string_view(r.model) == non_blank_view(model@),
            r == (CodexClientBuilder { model: r.model, ..self }),
    {
        CodexClientBuilder { model: non_blank(model), ..self }
    }

    /// Sets how long to wait for Codex (zero waits without limit).
    pub fn timeout(self, timeout: TimeSpan) -> (r: Self)
        ensures
            r == (CodexClientBuilder { timeout, ..self }),
    {
        CodexClientBuilder { timeout, ..self }
    }

    /// Sets `--color`.
    pub fn color_mode(self, color_mode: ColorMode) -> (r: Self)
        ensures
            r == (CodexClientBuilder { color_mode, ..self }),
    {
        CodexClientBuilder { color_mode, ..self }
    }

    /// Runs Codex in `dir` instead of a fresh temporary directory.
    pub fn working_dir(self, dir: &str) -> (r: Self)
        ensures
            opt_string_view(r.working_dir) == Some(dir@),
            r == (CodexClientBuilder { working_dir: r.working_dir, ..self }),
    {
        CodexClientBuilder { working_dir: Some(dir.to_owned()), ..self }
    }

    /// Appends an `--add-dir` directory (passed only when the binary supports the flag).
    pub fn add_dir(self, path: &str) -> (r: Self)
        ensures
            string_views(r.add_dirs@) == string_views(self.add_dirs@).push(path@),
            r == (CodexClientBuilder { add_dirs: r.add_dirs, ..self }),
    {
        let CodexClientBuilder {
            binary,
            codex_home,
            create_home_dirs,
            model,
            timeout,
            color_mode,
            working_dir,
            add_dirs,
            images,
            json_output,
            output_schema,
            quiet,
            mirror_stdout,
            json_event_log,
            capability_overrides,
            capability_cache_policy,
        } = self;
        let mut add_dirs = add_dirs;
        let ghost before = string_views(add_dirs@);
        add_dirs.push(path.to_owned());
        assert(string_views(add_dirs@) =~= before.push(path@));
        CodexClientBuilder {
            binary,
            codex_home,
            create_home_dirs,
            model,
            timeout,
            color_mode,
            working_dir,
            add_dirs,
            images,
            json_output,
            output_schema,
            quiet,
            mirror_stdout,
            json_event_log,
            capability_overrides,
            capability_cache_policy,
        }
    }

    /// Replaces the `--add-dir` list.
    pub fn add_dirs(self, dirs: Vec<String>) -> (r: Self)
        ensures
            r == (CodexClientBuilder { add_dirs: dirs, ..self }),
    {
        CodexClientBuilder { add_dirs: dirs, ..self }
    }

    /// Appends an `--image` path.
    pub fn image(self, path: &str) -> (r: Self)
        ensures
            string_views(r.images@) == string_views(self.images@).push(path@),
            r == (CodexClientBuilder { images: r.images, ..self }),
    {
        let CodexClientBuilder {
            binary,
            codex_home,
            create_home_dirs,
            model,
            timeout,
            color_mode,
            working_dir,
            add_dirs,
            images,
            json_output,
            output_schema,
            quiet,
            mirror_stdout,
            json_event_log,
            capability_overrides,
            capability_cache_policy,
        } = self;
        let mut images = images;
        let ghost before = string_views(images@);
        images.push(path.to_owned());
        assert(string_views(images@) =~= before.push(path@));
        CodexClientBuilder {
            binary,
            codex_home,
            create_home_dirs,
            model,
            timeout,
            color_mode,
            working_dir,
            add_dirs,
            images,
            json_output,
            output_schema,
            quiet,
            mirror_stdout,
            json_event_log,
            capability_overrides,
            capability_cache_policy,
        }
    }

    /// Replaces the `--image` list.
    pub fn images(self, images: Vec<String>) -> (r: Self)
        ensures
            r == (CodexClientBuilder { images, ..self }),
    {
        CodexClientBuilder { images, ..self }
    }

    /// Enables JSONL output (`--json`); the prompt then goes through stdin.
    pub fn json(self, enable: bool) -> (r: Self)
        ensures
            r == (CodexClientBuilder { json_output: enable, ..self }),
    {
        CodexClientBuilder { json_output: enable, ..self }
    }

    /// Requests `--output-schema` when the binary supports it.
    pub fn output_schema(self, enable: bool) -> (r: Self)
        ensures
            r == (CodexClientBuilder { output_schema: enable, ..self }),
    {
        CodexClientBuilder { output_schema: enable, ..self }
    }

    /// Suppresses mirroring Codex stderr to the console.
    pub fn quiet(self, enable: bool) -> (r: Self)
        ensures
            r == (CodexClientBuilder { quiet: enable, ..self }),
    {
        CodexClientBuilder { quiet: enable, ..self }
    }

    /// Whether Codex stdout is mirrored to the console while being captured.
    pub fn mirror_stdout(self, enable: bool) -> (r: Self)
        ensures
            r == (CodexClientBuilder { mirror_stdout: enable, ..self }),
    {
        CodexClientBuilder { mirror_stdout: enable, ..self }
    }

    /// Tees each JSONL event line of a streamed exec into `path`.
    pub fn json_event_log(self, path: &str) -> (r: Self)
        ensures
            opt_string_view(r.json_event_log) == Some(path@),
            r == (CodexClientBuilder { json_event_log: r.json_event_log, ..self }),
    {
        CodexClientBuilder { json_event_log: Some(path.to_owned()), ..self }
    }

    /// Supplies manual capability data.
    pub fn capability_overrides(self, overrides: CapabilityOverrides) -> (r: Self)
        ensures
            r == (CodexClientBuilder { capability_overrides: overrides, ..self }),
    {
        CodexClientBuilder { capability_overrides: overrides, ..self }
    }

    /// Replaces the feature overrides, keeping the snapshot and version overrides.
    pub fn capability_feature_overrides(self, overrides: CapabilityFeatureOverrides) -> (r: Self)
        ensures
            r.capability_overrides.features == overrides,
            r.capability_overrides.snapshot == self.capability_overrides.snapshot,
            r.capability_overrides.version == self.capability_overrides.version,
            r == (CodexClientBuilder { capability_overrides: r.capability_overrides, ..self }),
    {
        let mut b = self;
        b.capability_overrides.features = overrides;
        b
    }

    /// Opts into the given feature flags (as overrides that only enable).
    pub fn capability_feature_hints(self, features: CodexFeatureFlags) -> (r: Self)
        ensures
            r.capability_overrides.features == crate::capabilities::enabling_overrides(features),
            r.capability_overrides.snapshot == self.capability_overrides.snapshot,
            r.capability_overrides.version == self.capability_overrides.version,
            r == (CodexClientBuilder { capability_overrides: r.capability_overrides, ..self }),
    {
        let mut b = self;
        b.capability_overrides.features = CapabilityFeatureOverrides::enabling(features);
        b
    }

    /// Supplies a precomputed capability snapshot.
    pub fn capability_snapshot(self, snapshot: CodexCapabilities) -> (r: Self)
        ensures
            r.capability_overrides.snapshot == Some(snapshot),
            r.capability_overrides.version == self.capability_overrides.version,
            r.capability_overrides.features == self.capability_overrides.features,
            r == (CodexClientBuilder { capability_overrides: r.capability_overrides, ..self }),
    {
        let mut b = self;
        b.capability_overrides.snapshot = Some(snapshot);
        b
    }

    /// Overrides the probed version data.
    pub fn capability_version_override(self, version: CodexVersionInfo) -> (r: Self)
        ensures
            r.capability_overrides.version == Some(version),
            r.capability_overrides.snapshot == self.capability_overrides.snapshot,
            r.capability_overrides.features == self.capability_overrides.features,
            r == (CodexClientBuilder { capability_overrides: r.capability_overrides, ..self }),
    {
        let mut b = self;
        b.capability_overrides.version = Some(version);
        b
    }

    /// Sets how probes use the capability cache.
    pub fn capability_cache_policy(self, policy: CapabilityCachePolicy) -> (r: Self)
        ensures
            r == (CodexClientBuilder { capability_cache_policy: policy, ..self }),
    {
        CodexClientBuilder { capability_cache_policy: policy, ..self }
    }

    /// `Bypass` when `bypass`, else `PreferCache`.
    pub fn bypass_capability_cache(self, bypass: bool) -> (r: Self)
        ensures
            r == (CodexClientBuilder {
                capability_cache_policy: if bypass {
                    CapabilityCachePolicy::Bypass
                } else {
                    CapabilityCachePolicy::PreferCache
                },
                ..self
            }),
    {
        let policy = if bypass {
            CapabilityCachePolicy::Bypass
        } else {
            CapabilityCachePolicy::PreferCache
        };
        CodexClientBuilder { capability_cache_policy: policy, ..self }
    }

    /// Builds the client.
    pub fn build(self) -> (r: CodexClient)
        ensures
            r.command_env.binary == self.binary,
            match self.codex_home {
                Some(h) => r.command_env.codex_home matches Some(l) && l.root_view() == h@,
                None => r.command_env.codex_home is None,
            },
            r.command_env.create_home_dirs == self.create_home_dirs,
            r.model == self.model && r.timeout == self.timeout && r.color_mode == self.color_mode,
            r.working_dir == self.working_dir && r.add_dirs == self.add_dirs && r.images == self.images,
            r.json_output == self.json_output && r.output_schema == self.output_schema,
            r.quiet == self.quiet && r.mirror_stdout == self.mirror_stdout,
            r.json_event_log == self.json_event_log,
            r.capability_overrides == self.capability_overrides,
            r.capability_cache_policy == self.capability_cache_policy,
    {
        let home = match &self.codex_home {
            Some(h) => Some(CodexHomeLayout::new(h.as_str())),
            None => None,
        };
        CodexClient {
            command_env: CommandEnvironment {
                binary: self.binary,
                codex_home: home,
                create_home_dirs: self.create_home_dirs,
            },
            model: self.model,
            timeout: self.timeout,
            color_mode: self.color_mode,
            working_dir: self.working_dir,
            add_dirs: self.add_dirs,
            images: self.images,
            json_output: self.json_output,
            output_schema: self.output_schema,
            quiet: self.quiet,
            mirror_stdout: self.mirror_stdout,
            json_event_log: self.json_event_log,
            capability_overrides: self.capability_overrides,
            capability_cache_policy: self.capability_cache_policy,
        }
    }
}

impl Default for CodexClientBuilder {
    fn default() -> (r: Self)
        ensures
            builder_defaults(r, "codex"@),
    {
        CodexClientBuilder::new()
    }
}

/// The binary and `CODEX_HOME` every command runs with.
#[derive(Debug)]
pub struct CommandEnvironment {
    pub binary: String,
    pub codex_home: Option<CodexHomeLayout>,
    pub create_home_dirs: bool,
}

/// The environment variables set on a child command.
pub open spec fn env_overrides_view(env: CommandEnvironment, rust_log_set: bool) -> Seq<
    (Seq<char>, Seq<char>),
> {
    seq![("CODEX_BINARY"@, env.binary@)] + match env.codex_home {
        Some(h) => seq![("CODEX_HOME"@, h.root_view())],
        None => Seq::empty(),
    } + if rust_log_set {
        Seq::empty()
    } else {
        seq![("RUST_LOG"@, "error"@)]
    }
}

impl CommandEnvironment {
    /// `CODEX_BINARY`, then `CODEX_HOME` when a home is configured, then `RUST_LOG=error`
    /// unless the environment already sets `RUST_LOG`. (Creating the home directories is the
    /// caller's part; see `CodexHomeLayout::materialize_dirs`.)
    pub fn environment_overrides(&self, rust_log_set: bool) -> (r: Vec<(String, String)>)
        ensures
            pair_views(r@) == env_overrides_view(*self, rust_log_set),
    {
        let mut envs: Vec<(String, String)> = Vec::new();
        envs.push(pair("CODEX_BINARY", self.binary.as_str()));
        match &self.codex_home {
            Some(h) => {
                envs.push(pair("CODEX_HOME", h.root()));
            },
            None => {},
        }
        match default_rust_log_value(rust_log_set) {
            Some(v) => {
                envs.push(pair("RUST_LOG", v));
            },
            None => {},
        }
        assert(pair_views(envs@) =~= env_overrides_view(*self, rust_log_set));
        envs
    }
}

/// High-level client for `codex exec` and the other subcommands.
#[derive(Debug)]
pub struct CodexClient {
    pub command_env: CommandEnvironment,
    pub model: Option<String>,
    pub timeout: TimeSpan,
    pub color_mode: ColorMode,
    pub working_dir: Option<String>,
    pub add_dirs: Vec<String>,
    pub images: Vec<String>,
    pub json_output: bool,
    pub output_schema: bool,
    pub quiet: bool,
    pub mirror_stdout: bool,
    pub json_event_log: Option<String>,
    pub capability_overrides: CapabilityOverrides,
    pub capability_cache_policy: CapabilityCachePolicy,
}

/// The flags that need a capability probe before `codex exec`: `--output-schema` and
/// `--add-dir`.
pub open spec fn spec_needs_capabilities(c: CodexClient) -> bool {
    c.output_schema || c.add_dirs@.len() > 0
}

/// `--output-schema` when requested and supported.
pub open spec fn schema_args(c: CodexClient, flags: CodexFeatureFlags) -> Seq<Seq<char>> {
    if c.output_schema && guard_support(CapabilityFeature::OutputSchema, flags)
        == CapabilitySupport::Supported {
        seq!["--output-schema"@]
    } else {
        Seq::empty()
    }
}

/// `--add-dir DIR` for each directory, when any are requested and the flag is supported.
pub open spec fn add_dir_args(c: CodexClient, flags: CodexFeatureFlags) -> Seq<Seq<char>> {
    if c.add_dirs@.len() > 0 && guard_support(CapabilityFeature::AddDir, flags)
        == CapabilitySupport::Supported {
        repeat_flag("--add-dir"@, string_views(c.add_dirs@))
    } else {
        Seq::empty()
    }
}

/// The arguments of `codex exec` for `prompt`, given the probed flags (when a probe ran).
pub open spec fn exec_args_view(c: CodexClient, prompt: Seq<char>, flags: Option<CodexFeatureFlags>) -> Seq<
    Seq<char>,
> {
    seq!["exec"@, "--color"@, color_label(c.color_mode), "--skip-git-repo-check"@] + (if c.json_output {
        Seq::empty()
    } else {
        seq![prompt]
    }) + config_args(preset_pairs(preset_for(opt_string_view(c.model)))) + opt_pair(
        "--model"@,
        opt_string_view(c.model),
    ) + match flags {
        Some(f) => schema_args(c, f) + add_dir_args(c, f),
        None => Seq::empty(),
    } + repeat_flag("--image"@, string_views(c.images@)) + opt_flag("--json"@, c.json_output)
}

/// How `codex exec` is run for a prompt.
pub struct ExecInvocation {
    pub args: Vec<String>,
    /// The prompt is written to stdin (JSON mode) rather than passed as an argument.
    pub prompt_via_stdin: bool,
}

/// The arguments of a streamed `codex exec --json`.
pub open spec fn stream_args_view(c: CodexClient, last_message_path: Seq<char>, output_schema: Option<
    Seq<char>,
>) -> Seq<Seq<char>> {
    seq!["exec"@, "--color"@, "never"@, "--skip-git-repo-check"@, "--json"@] + config_args(
        preset_pairs(preset_for(opt_string_view(c.model))),
    ) + opt_pair("--model"@, opt_string_view(c.model)) + repeat_flag(
        "--image"@,
        string_views(c.images@),
    ) + seq!["--output-last-message"@, last_message_path] + opt_pair(
        "--output-schema"@,
        output_schema,
    )
}

/// What `send_prompt` returns, from the captured streams: in JSON mode stdout as it is, or
/// stderr when stdout is empty; otherwise stdout trimmed.
pub open spec fn exec_output_view(json_output: bool, stdout: Seq<char>, stderr: Seq<char>) -> Seq<char> {
    if json_output {
        if stdout.len() == 0 {
            stderr
        } else {
            stdout
        }
    } else {
        trim(stdout)
    }
}

/// The log path of a streamed exec: the request's when given, else the client's; an empty
/// path means none.
pub open spec fn json_log_view(request: Option<Seq<char>>, client: Option<Seq<char>>) -> Option<Seq<char>> {
    let chosen = match request {
        Some(p) => Some(p),
        None => client,
    };
    match chosen {
        Some(p) => if p.len() == 0 {
            None
        } else {
            Some(p)
        },
        None => None,
    }
}

/// Options of a streamed exec.
#[derive(Debug)]
pub struct ExecStreamRequest {
    /// Prompt written to `codex exec` on stdin.
    pub prompt: String,
    /// Per-event idle timeout.
    pub idle_timeout: Option<TimeSpan>,
    /// Path handed to `--output-last-message`; a temporary path is used when absent.
    pub output_last_message: Option<String>,
    /// Path handed to `--output-schema`.
    pub output_schema: Option<String>,
    /// Tee of every raw JSONL line; overrides the client's log for this request.
    pub json_event_log: Option<String>,
}

impl CodexClient {
    /// A builder with default values.
    pub fn builder() -> (r: CodexClientBuilder)
        ensures
            builder_defaults(r, "codex"@),
    {
        CodexClientBuilder::new()
    }

    /// The configured `CODEX_HOME` layout, if any (nothing is created on disk).
    pub fn codex_home_layout(&self) -> (r: Option<CodexHomeLayout>)
        ensures
            r == self.command_env.codex_home,
    {
        match &self.command_env.codex_home {
            Some(h) => Some(h.clone()),
            None => None,
        }
    }

    /// Whether `codex exec` must first probe capabilities.
    pub fn needs_capabilities(&self) -> (r: bool)
        ensures
            r == spec_needs_capabilities(*self),
    {
        self.output_schema || self.add_dirs.len() > 0
    }

    /// `send_prompt`: the invocation of `codex exec` for `prompt`, given the capabilities that
    /// were probed when [`Self::needs_capabilities`] asked for them. A blank prompt is
    /// rejected; guarded flags are passed only when the probe reports them supported.
    pub fn send_prompt(&self, prompt: &str, capabilities: &Option<CodexCapabilities>) -> (r: Result<
        ExecInvocation,
        RequestError,
    >)
        ensures
            is_blank(prompt@) <==> r == Err::<ExecInvocation, RequestError>(RequestError::EmptyPrompt),
            !is_blank(prompt@) ==> r is Ok,
            r matches Ok(inv) ==> inv.prompt_via_stdin == self.json_output && string_views(inv.args@)
                == exec_args_view(*self, prompt@, match capabilities {
                Some(c) => Some(c.features),
                None => None,
            }),
    {
        if blank(prompt) {
            return Err(RequestError::EmptyPrompt);
        }
        let mut args: Vec<String> = Vec::new();
        push_arg(&mut args, "exec");
        push_arg(&mut args, "--color");
        push_arg(&mut args, self.color_mode.as_str());
        push_arg(&mut args, "--skip-git-repo-check");
        let ghost a0 = string_views(args@);
        if !self.json_output {
            push_arg(&mut args, prompt);
        }
        let ghost a1 = string_views(args@);
        assert(a1 == a0 + (if self.json_output {
            Seq::<Seq<char>>::empty()
        } else {
            seq![prompt@]
        }));
        let model = match &self.model {
            Some(m) => Some(m.as_str()),
            None => None,
        };
        let config = reasoning_config_for(model);
        match &config {
            Some(pairs) => push_config_args(&mut args, pairs),
            None => {},
        }
        push_opt_pair(&mut args, "--model", &self.model);
        let ghost a2 = string_views(args@);
        match capabilities {
            Some(caps) => {
                if self.output_schema {
                    let guard = caps.guard_output_schema();
                    if guard.is_supported() {
                        push_arg(&mut args, "--output-schema");
                    }
                }
                let ghost a3 = string_views(args@);
                assert(a3 == a2 + schema_args(*self, caps.features));
                if self.add_dirs.len() > 0 {
                    let guard = caps.guard_add_dir();
                    if guard.is_supported() {
                        push_repeated(&mut args, "--add-dir", &self.add_dirs);
                    }
                }
                assert(string_views(args@) == a3 + add_dir_args(*self, caps.features));
            },
            None => {},
        }
        push_repeated(&mut args, "--image", &self.images);
        push_flag(&mut args, "--json", self.json_output);
        Ok(ExecInvocation { args, prompt_via_stdin: self.json_output })
    }

    /// The text `send_prompt` returns from the captured streams of a successful run.
    pub fn exec_output(&self, stdout: &str, stderr: &str) -> (r: String)
        ensures
            r@ == exec_output_view(self.json_output, stdout@, stderr@),
    {
        if self.json_output {
            if stdout.is_empty() {
                stderr.to_owned()
            } else {
                stdout.to_owned()
            }
        } else {
            let t = trim_chars(chars_of(stdout).as_slice(), CharClass::Whitespace);
            string_of(t.as_slice())
        }
    }

    /// `stream_exec`: the arguments of `codex exec --json` for `request`, writing the last
    /// message to `last_message_path`. A blank prompt is rejected.
    pub fn stream_exec(&self, request: &ExecStreamRequest, last_message_path: &str) -> (r: Result<
        Vec<String>,
        RequestError,
    >)
        ensures
            is_blank(request.prompt@) <==> r == Err::<Vec<String>, RequestError>(
                RequestError::EmptyPrompt,
            ),
            !is_blank(request.prompt@) ==> r is Ok,
            r matches Ok(a) ==> string_views(a@) == stream_args_view(
                *self,
                last_message_path@,
                opt_string_view(request.output_schema),
            ),
    {
        if blank(request.prompt.as_str()) {
            return Err(RequestError::EmptyPrompt);
        }
        let mut args: Vec<String> = Vec::new();
        push_arg(&mut args, "exec");
        push_arg(&mut args, "--color");
        push_arg(&mut args, ColorMode::Never.as_str());
        push_arg(&mut args, "--skip-git-repo-check");
        push_arg(&mut args, "--json");
        let model = match &self.model {
            Some(m) => Some(m.as_str()),
            None => None,
        };
        let config = reasoning_config_for(model);
        match &config {
            Some(pairs) => push_config_args(&mut args, pairs),
            None => {},
        }
        push_opt_pair(&mut args, "--model", &self.model);
        push_repeated(&mut args, "--image", &self.images);
        push_arg(&mut args, "--output-last-message");
        push_arg(&mut args, last_message_path);
        push_opt_pair(&mut args, "--output-schema", &request.output_schema);
        Ok(args)
    }

    /// The JSONL log a streamed exec tees into.
    pub fn stream_json_log(&self, request: &ExecStreamRequest) -> (r: Option<String>)
        ensures
            opt_string_view(r) == json_log_view(
                opt_string_view(request.json_event_log),
                opt_string_view(self.json_event_log),
            ),
    {
        let chosen = match &request.json_event_log {
            Some(p) => Some(p.clone()),
            None => match &self.json_event_log {
                Some(p) => Some(p.clone()),
                None => None,
            },
        };
        match chosen {
            Some(p) => if p.as_str().is_empty() {
                None
            } else {
                Some(p)
            },
            None => None,
        }
    }
}

/// `a` holds `flag` at `i` and `item` right after it.
pub open spec fn pair_at(a: Seq<Seq<char>>, i: int, flag: Seq<char>, item: Seq<char>) -> bool {
    a[i] == flag && a[i + 1] == item
}

proof fn lemma_repeat_flag(flag: Seq<char>, items: Seq<Seq<char>>)
    ensures
        repeat_flag(flag, items).len() == 2 * items.len(),
        forall|k: int| 0 <= k < items.len() ==> pair_at(repeat_flag(flag, items), 2 * k, flag, #[trigger] items[k]),
    decreases items.len(),
{
    if items.len() > 0 {
        let init = items.drop_last();
        lemma_repeat_flag(flag, init);
        let r0 = repeat_flag(flag, init);
        let r = repeat_flag(flag, items);
        assert(r == r0 + seq![flag, items.last()]);
        assert forall|k: int| 0 <= k < items.len() implies pair_at(r, 2 * k, flag, #[trigger] items[k]) by {
            if k < items.len() - 1 {
                assert(items[k] == init[k]);
                assert(pair_at(r0, 2 * k, flag, init[k]));
                assert(r[2 * k] == r0[2 * k]);
                assert(r[2 * k + 1] == r0[2 * k + 1]);
            } else {
                assert(2 * k == r0.len());
                assert(r[2 * k] == flag);
                assert(r[2 * k + 1] == items.last());
            }
        }
    }
}

/// A streamed exec passes every configured image as `--image <path>`, in the configured order,
/// right before `--output-last-message <path>` (which only `--output-schema <path>` may follow),
/// and after the fixed `exec --color never --skip-git-repo-check --json` head.
pub proof fn law_stream_passes_images(c: CodexClient, last_message_path: Seq<char>, output_schema: Option<
    Seq<char>,
>)
    ensures
        ({
            let a = stream_args_view(c, last_message_path, output_schema);
            let n = c.images@.len() as int;
            let m = a.len() - (if output_schema is Some { 2int } else { 0int }) - 2;
            &&& m >= 5 + 2 * n
            &&& pair_at(a, m, "--output-last-message"@, last_message_path)
            &&& forall|k: int|
                0 <= k < n ==> pair_at(a, m - 2 * n + 2 * k, "--image"@, #[trigger] string_views(c.images@)[k])
        }),
{
    let a = stream_args_view(c, last_message_path, output_schema);
    let imgs = string_views(c.images@);
    let n = c.images@.len() as int;
    let head = seq!["exec"@, "--color"@, "never"@, "--skip-git-repo-check"@, "--json"@] + config_args(
        preset_pairs(preset_for(opt_string_view(c.model))),
    ) + opt_pair("--model"@, opt_string_view(c.model));
    let rf = repeat_flag("--image"@, imgs);
    let lm = seq!["--output-last-message"@, last_message_path];
    let sc = opt_pair("--output-schema"@, output_schema);
    lemma_repeat_flag("--image"@, imgs);
    assert(imgs.len() == n);
    assert(a == head + rf + lm + sc);
    let m = a.len() - (if output_schema is Some { 2int } else { 0int }) - 2;
    assert(m == head.len() + rf.len());
    assert(a[m] == lm[0]);
    assert(a[m + 1] == lm[1]);
    assert forall|k: int| 0 <= k < n implies pair_at(a, m - 2 * n + 2 * k, "--image"@, #[trigger] imgs[k]) by {
        assert(pair_at(rf, 2 * k, "--image"@, imgs[k]));
        assert(a[m - 2 * n + 2 * k] == rf[2 * k]);
        assert(a[m - 2 * n + 2 * k + 1] == rf[2 * k + 1]);
    }
}

/// The probed capabilities only matter for the guarded flags: a client that requests neither
/// `--output-schema` nor `--add-dir` runs the same `codex exec` whatever the probe says.
pub proof fn law_probe_only_matters_when_needed(c: CodexClient, prompt: Seq<char>, flags: CodexFeatureFlags)
    requires
        !spec_needs_capabilities(c),
    ensures
        exec_args_view(c, prompt, Some(flags)) == exec_args_view(c, prompt, None),
{
    assert(schema_args(c, flags) + add_dir_args(c, flags) =~= Seq::<Seq<char>>::empty());
}

/// A guarded flag that the probe reports supported is passed when requested, and one it does
/// not report supported never is.
pub proof fn law_guarded_schema_flag(c: CodexClient, flags: CodexFeatureFlags)
    ensures
        schema_args(c, flags).len() > 0 <==> (c.output_schema && flags.supports_output_schema),
{
}

} // verus!
