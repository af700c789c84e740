//! `codex app-server generate-ts` / `generate-json-schema` requests.

use vstd::prelude::*;
use crate::capabilities::string_views;
use crate::cli::push_arg;
use crate::overrides::{
    patch_args_view,
    flag_from, non_blank_view, opt_string_view, CliOverridesPatch, ConfigOverride,
};

verus! {

/// Target for app-server code generation.
#[derive(Debug)]
pub enum AppServerCodegenTarget {
    /// TypeScript bindings, optionally formatted with the given Prettier executable.
    TypeScript { prettier: Option<String> },
    /// A JSON schema bundle.
    JsonSchema,
}

impl AppServerCodegenTarget {
    /// The codegen subcommand of the target.
    pub fn subcommand(&self) -> (r: &'static str)
        ensures
            r@ == (match self {
                AppServerCodegenTarget::TypeScript { .. } => "generate-ts"@,
                AppServerCodegenTarget::JsonSchema => "generate-json-schema"@,
            }),
    {
        match self {
            AppServerCodegenTarget::TypeScript { .. } => "generate-ts",
            AppServerCodegenTarget::JsonSchema => "generate-json-schema",
        }
    }

    /// The Prettier executable, for TypeScript targets that have one.
    pub fn prettier(&self) -> (r: Option<&String>)
        ensures
            r == (match self {
                AppServerCodegenTarget::TypeScript { prettier } => match prettier {
                    Some(p) => Some(p),
                    None => None,
                },
                AppServerCodegenTarget::JsonSchema => None,
            }),
    {
        match self {
            AppServerCodegenTarget::TypeScript { prettier } => prettier.as_ref(),
            AppServerCodegenTarget::JsonSchema => None,
        }
    }
}

/// Request for `codex app-server generate-ts` or `generate-json-schema`.
#[derive(Debug)]
pub struct AppServerCodegenRequest {
    pub target: AppServerCodegenTarget,
    /// Output directory passed to `--out`.
    pub out_dir: String,
    /// Passes `--experimental` when enabled.
    pub experimental: bool,
    pub overrides: CliOverridesPatch,
}

impl AppServerCodegenRequest {
    /// TypeScript bindings into `out_dir`.
    pub fn typescript(out_dir: &str) -> (r: Self)
        ensures
            r.target == (AppServerCodegenTarget::TypeScript { prettier: None }),
            r.out_dir@ == out_dir@,
            !r.experimental,
            r.overrides.is_default(),
    {
        AppServerCodegenRequest {
            target: AppServerCodegenTarget::TypeScript { prettier: None },
            out_dir: out_dir.to_owned(),
            experimental: false,
            overrides: CliOverridesPatch::new(),
        }
    }

    /// A JSON schema bundle into `out_dir`.
    pub fn json_schema(out_dir: &str) -> (r: Self)
        ensures
            r.target == AppServerCodegenTarget::JsonSchema,
            r.out_dir@ == out_dir@,
            !r.experimental,
            r.overrides.is_default(),
    {
        AppServerCodegenRequest {
            target: AppServerCodegenTarget::JsonSchema,
            out_dir: out_dir.to_owned(),
            experimental: false,
            overrides: CliOverridesPatch::new(),
        }
    }

    pub fn experimental(self, enable: bool) -> (r: Self)
        ensures
            r == (AppServerCodegenRequest { experimental: enable, ..self }),
    {
        AppServerCodegenRequest { experimental: enable, ..self }
    }

    /// Formats TypeScript output with the given Prettier executable; no-op for JSON schema.
    pub fn prettier(self, prettier: &str) -> (r: Self)
        ensures
            r.out_dir == self.out_dir && r.experimental == self.experimental && r.overrides
                == self.overrides,
            match self.target {
                AppServerCodegenTarget::TypeScript { .. } => r.target matches AppServerCodegenTarget::TypeScript {
                    prettier: Some(p),
                } && p@ == prettier@,
                AppServerCodegenTarget::JsonSchema => r.target == AppServerCodegenTarget::JsonSchema,
            },
    {
        let target = match self.target {
            AppServerCodegenTarget::TypeScript { .. } => AppServerCodegenTarget::TypeScript {
                prettier: Some(prettier.to_owned()),
            },
            AppServerCodegenTarget::JsonSchema => AppServerCodegenTarget::JsonSchema,
        };
        AppServerCodegenRequest { target, ..self }
    }

    pub fn with_overrides(self, overrides: CliOverridesPatch) -> (r: Self)
        ensures
            r == (AppServerCodegenRequest { overrides, ..self }),
    {
        AppServerCodegenRequest { overrides, ..self }
    }

    /// Adds a `--config key=value` override.
    pub fn config_override(self, key: &str, value: &str) -> (r: Self)
        ensures
            r.target == self.target && r.out_dir == self.out_dir && r.experimental == self.experimental,
            r.overrides.config_overrides@.len() == self.overrides.config_overrides@.len() + 1,
            r.overrides.config_overrides@.drop_last() == self.overrides.config_overrides@,
            r.overrides.config_overrides@.last() matches ConfigOverride::Pair { key: k, value: v }
                && k@ == key@ && v@ == value@,
            r.overrides.profile == self.overrides.profile && r.overrides.oss == self.overrides.oss
                && r.overrides.feature_toggles == self.overrides.feature_toggles
                && r.overrides.search == self.overrides.search,
    {
        let mut s = self;
        s.overrides.add_config_override(ConfigOverride::new(key, value));
        assert(s.overrides.config_overrides@.drop_last() =~= self.overrides.config_overrides@);
        s
    }

    /// Adds a raw `--config key=value` override without validation.
    pub fn config_override_raw(self, raw: &str) -> (r: Self)
        ensures
            r.target == self.target && r.out_dir == self.out_dir && r.experimental == self.experimental,
            r.overrides.config_overrides@.len() == self.overrides.config_overrides@.len() + 1,
            r.overrides.config_overrides@.drop_last() == self.overrides.config_overrides@,
            r.overrides.config_overrides@.last() matches ConfigOverride::Raw(s) && s@ == raw@,
            r.overrides.profile == self.overrides.profile && r.overrides.oss == self.overrides.oss
                && r.overrides.feature_toggles == self.overrides.feature_toggles
                && r.overrides.search == self.overrides.search,
    {
        let mut s = self;
        s.overrides.add_config_override(ConfigOverride::from_raw(raw));
        assert(s.overrides.config_overrides@.drop_last() =~= self.overrides.config_overrides@);
        s
    }

    /// Sets the config profile; blank names clear it.
    pub fn profile(self, profile: &str) -> (r: Self)
        ensures
            r.target == self.target && r.out_dir == self.out_dir && r.experimental == self.experimental,
            opt_string_view(r.overrides.profile) == non_blank_view(profile@),
            r.overrides.config_overrides == self.overrides.config_overrides && r.overrides.oss
                == self.overrides.oss && r.overrides.feature_toggles == self.overrides.feature_toggles
                && r.overrides.search == self.overrides.search,
    {
        let mut s = self;
        s.overrides.set_profile(profile);
        s
    }

    /// Requests `--oss` (or suppresses it).
    pub fn oss(self, enable: bool) -> (r: Self)
        ensures
            r.target == self.target && r.out_dir == self.out_dir && r.experimental == self.experimental,
            r.overrides.oss == flag_from(enable),
            r.overrides.config_overrides == self.overrides.config_overrides && r.overrides.profile
                == self.overrides.profile && r.overrides.feature_toggles == self.overrides.feature_toggles
                && r.overrides.search == self.overrides.search,
    {
        let mut s = self;
        s.overrides.set_oss(enable);
        s
    }

    /// Adds a `--enable <feature>` toggle.
    pub fn enable_feature(self, name: &str) -> (r: Self)
        ensures
            r.target == self.target && r.out_dir == self.out_dir && r.experimental == self.experimental,
            string_views(r.overrides.feature_toggles.enable@) == string_views(
                self.overrides.feature_toggles.enable@,
            ).push(name@),
            r.overrides.feature_toggles.disable == self.overrides.feature_toggles.disable,
            r.overrides.config_overrides == self.overrides.config_overrides && r.overrides.profile
                == self.overrides.profile && r.overrides.oss == self.overrides.oss
                && r.overrides.search == self.overrides.search,
    {
        let mut s = self;
        s.overrides.add_enable(name);
        assert(string_views(s.overrides.feature_toggles.enable@) =~= string_views(
            self.overrides.feature_toggles.enable@,
        ).push(name@));
        s
    }

    /// Adds a `--disable <feature>` toggle.
    pub fn disable_feature(self, name: &str) -> (r: Self)
        ensures
            r.target == self.target && r.out_dir == self.out_dir && r.experimental == self.experimental,
            string_views(r.overrides.feature_toggles.disable@) == string_views(
                self.overrides.feature_toggles.disable@,
            ).push(name@),
            r.overrides.feature_toggles.enable == self.overrides.feature_toggles.enable,
            r.overrides.config_overrides == self.overrides.config_overrides && r.overrides.profile
                == self.overrides.profile && r.overrides.oss == self.overrides.oss
                && r.overrides.search == self.overrides.search,
    {
        let mut s = self;
        s.overrides.add_disable(name);
        assert(string_views(s.overrides.feature_toggles.disable@) =~= string_views(
            self.overrides.feature_toggles.disable@,
        ).push(name@));
        s
    }

    /// Requests `--search` (or suppresses it).
    pub fn search(self, enable: bool) -> (r: Self)
        ensures
            r.target == self.target && r.out_dir == self.out_dir && r.experimental == self.experimental,
            r.overrides.search == flag_from(enable),
            r.overrides.config_overrides == self.overrides.config_overrides && r.overrides.profile
                == self.overrides.profile && r.overrides.feature_toggles == self.overrides.feature_toggles
                && r.overrides.oss == self.overrides.oss,
    {
        let mut s = self;
        s.overrides.set_search(enable);
        s
    }
}

/// Arguments of `generate_app_server_bindings`: `app-server <subcommand> --out <dir>`, then
/// `--experimental` when asked, the request's CLI overrides, and `--prettier <path>` when set.
pub fn app_server_codegen_args(request: &AppServerCodegenRequest) -> (r: Vec<String>)
    ensures
        string_views(r@) == seq![
            "app-server"@,
            (match request.target {
                AppServerCodegenTarget::TypeScript { .. } => "generate-ts"@,
                AppServerCodegenTarget::JsonSchema => "generate-json-schema"@,
            }),
            "--out"@,
            request.out_dir@,
        ] + (if request.experimental {
            seq!["--experimental"@]
        } else {
            Seq::empty()
        }) + patch_args_view(request.overrides) + match request.target {
            AppServerCodegenTarget::TypeScript { prettier: Some(p) } => seq!["--prettier"@, p@],
            _ => Seq::empty(),
        },
{
    let mut args: Vec<String> = Vec::new();
    push_arg(&mut args, "app-server");
    push_arg(&mut args, request.target.subcommand());
    push_arg(&mut args, "--out");
    push_arg(&mut args, request.out_dir.as_str());
    let ghost a0 = string_views(args@);
    if request.experimental {
        push_arg(&mut args, "--experimental");
    }
    let ghost a1 = string_views(args@);
    assert(a1 =~= a0 + if request.experimental {
        seq!["--experimental"@]
    } else {
        Seq::<Seq<char>>::empty()
    });
    request.overrides.push_args(&mut args);
    let ghost before = string_views(args@);
    match request.target.prettier() {
        Some(p) => {
            push_arg(&mut args, "--prettier");
            push_arg(&mut args, p.as_str());
        },
        None => {},
    }
    assert(string_views(args@) =~= before + match request.target {
        AppServerCodegenTarget::TypeScript { prettier: Some(p) } => seq!["--prettier"@, p@],
        _ => Seq::<Seq<char>>::empty(),
    });
    args
}

} // verus!
