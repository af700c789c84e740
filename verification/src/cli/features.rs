//! `codex features` requests and feature stages.

use vstd::prelude::*;
use crate::capabilities::string_views;
use crate::overrides::{
    flag_from, non_blank_view, opt_string_view, CliOverridesPatch, ConfigOverride,
};
use crate::text::{
    chars_of, eq_chars, is_ws, lemma_trim_idempotent, lit, lower, lower_chars, string_of, trim, trim_chars,
    trim_end_class, trim_start_class, CharClass,
};

verus! {

/// Maturity stage of a Codex feature.
#[derive(Debug)]
pub enum CodexFeatureStage {
    Experimental,
    Beta,
    Stable,
    Deprecated,
    Removed,
    Unknown(String),
}

/// The stage a label names: known names compared case-insensitively after trimming;
/// anything else is kept (trimmed) as an unknown stage.
pub open spec fn stage_of(raw: Seq<char>) -> (CodexFeatureStage, Seq<char>) {
    let n = trim(raw);
    let l = lower(n);
    if l == "experimental"@ {
        (CodexFeatureStage::Experimental, "experimental"@)
    } else if l == "beta"@ {
        (CodexFeatureStage::Beta, "beta"@)
    } else if l == "stable"@ {
        (CodexFeatureStage::Stable, "stable"@)
    } else if l == "deprecated"@ {
        (CodexFeatureStage::Deprecated, "deprecated"@)
    } else if l == "removed"@ {
        (CodexFeatureStage::Removed, "removed"@)
    } else {
        (CodexFeatureStage::Unknown(arbitrary()), n)
    }
}

/// The label of a stage.
pub open spec fn stage_label(s: CodexFeatureStage) -> Seq<char> {
    match s {
        CodexFeatureStage::Experimental => "experimental"@,
        CodexFeatureStage::Beta => "beta"@,
        CodexFeatureStage::Stable => "stable"@,
        CodexFeatureStage::Deprecated => "deprecated"@,
        CodexFeatureStage::Removed => "removed"@,
        CodexFeatureStage::Unknown(label) => label@,
    }
}

pub open spec fn same_variant(a: CodexFeatureStage, b: CodexFeatureStage) -> bool {
    match (a, b) {
        (CodexFeatureStage::Experimental, CodexFeatureStage::Experimental) => true,
        (CodexFeatureStage::Beta, CodexFeatureStage::Beta) => true,
        (CodexFeatureStage::Stable, CodexFeatureStage::Stable) => true,
        (CodexFeatureStage::Deprecated, CodexFeatureStage::Deprecated) => true,
        (CodexFeatureStage::Removed, CodexFeatureStage::Removed) => true,
        (CodexFeatureStage::Unknown(_), CodexFeatureStage::Unknown(_)) => true,
        _ => false,
    }
}

impl CodexFeatureStage {
    /// Parses a stage label.
    pub fn parse(raw: &str) -> (r: Self)
        ensures
            same_variant(r, stage_of(raw@).0),
            stage_label(r) == stage_of(raw@).1,
    {
        let n = trim_chars(chars_of(raw).as_slice(), CharClass::Whitespace);
        let l = lower_chars(n.as_slice());
        if eq_chars(l.as_slice(), lit("experimental").as_slice()) {
            CodexFeatureStage::Experimental
        } else if eq_chars(l.as_slice(), lit("beta").as_slice()) {
            CodexFeatureStage::Beta
        } else if eq_chars(l.as_slice(), lit("stable").as_slice()) {
            CodexFeatureStage::Stable
        } else if eq_chars(l.as_slice(), lit("deprecated").as_slice()) {
            CodexFeatureStage::Deprecated
        } else if eq_chars(l.as_slice(), lit("removed").as_slice()) {
            CodexFeatureStage::Removed
        } else {
            CodexFeatureStage::Unknown(string_of(n.as_slice()))
        }
    }

    /// The stage's label.
    pub fn as_str(&self) -> (r: &str)
        ensures
            r@ == stage_label(*self),
    {
        match self {
            CodexFeatureStage::Experimental => "experimental",
            CodexFeatureStage::Beta => "beta",
            CodexFeatureStage::Stable => "stable",
            CodexFeatureStage::Deprecated => "deprecated",
            CodexFeatureStage::Removed => "removed",
            CodexFeatureStage::Unknown(label) => label.as_str(),
        }
    }
}

proof fn lemma_plain_label(s: Seq<char>)
    requires
        s.len() > 0,
        !is_ws(s[0]),
        !is_ws(s.last()),
        forall|i: int| 0 <= i < s.len() ==> !('A' <= #[trigger] s[i] && s[i] <= 'Z'),
    ensures
        trim(s) == s,
        lower(s) == s,
{
    assert(trim_start_class(s, CharClass::Whitespace) == s);
    assert(trim_end_class(s, CharClass::Whitespace) == s);
    assert(lower(s) =~= s);
}

/// A stage's label parses back to the same stage: `parse(stage.as_str())` gives the variant
/// and the label of the stage that `parse` made of `raw`.
pub proof fn law_stage_label_round_trip(raw: Seq<char>)
    ensures
        same_variant(stage_of(stage_of(raw).1).0, stage_of(raw).0),
        stage_of(stage_of(raw).1).1 == stage_of(raw).1,
{
    reveal_strlit("experimental");
    reveal_strlit("beta");
    reveal_strlit("stable");
    reveal_strlit("deprecated");
    reveal_strlit("removed");
    lemma_plain_label("experimental"@);
    lemma_plain_label("beta"@);
    lemma_plain_label("stable"@);
    lemma_plain_label("deprecated"@);
    lemma_plain_label("removed"@);
    lemma_trim_idempotent(raw);
}

/// Single feature entry reported by `codex features list`.
#[derive(Debug)]
pub struct CodexFeature {
    pub name: String,
    pub stage: Option<CodexFeatureStage>,
    pub enabled: bool,
    /// Unrecognized members of the JSON entry, by key.
    pub extra: Vec<(String, crate::json::JsonValue)>,
}

impl CodexFeature {
    /// Whether the feature is enabled for the current config/profile.
    pub fn is_enabled(&self) -> (r: bool)
        ensures
            r == self.enabled,
    {
        self.enabled
    }
}

/// Output format of `codex features list`.
#[derive(Clone, Copy, Debug, PartialEq, Eq, Structural)]
pub enum FeaturesListFormat {
    Json,
    Text,
}

/// Request for `codex features list`.
#[derive(Debug)]
pub struct FeaturesListRequest {
    pub json: bool,
    pub overrides: CliOverridesPatch,
}

impl FeaturesListRequest {
    pub fn new() -> (r: Self)
        ensures
            !r.json,
            r.overrides.is_default(),
    {
        FeaturesListRequest { json: false, overrides: CliOverridesPatch::new() }
    }

    pub fn json(self, enable: bool) -> (r: Self)
        ensures
            r == (FeaturesListRequest { json: enable, ..self }),
    {
        FeaturesListRequest { json: enable, ..self }
    }

    pub fn with_overrides(self, overrides: CliOverridesPatch) -> (r: Self)
        ensures
            r == (FeaturesListRequest { overrides, ..self }),
    {
        FeaturesListRequest { overrides, ..self }
    }

    /// Adds a `--config key=value` override.
    pub fn config_override(self, key: &str, value: &str) -> (r: Self)
        ensures
            r.json == self.json,
            r.overrides.config_overrides@.len() == self.overrides.config_overrides@.len() + 1,
            r.overrides.config_overrides@.drop_last() == self.overrides.config_overrides@,
            r.overrides.config_overrides@.last() matches ConfigOverride::Pair { key: k, value: v }
                && k@ == key@ && v@ == value@,
            r.overrides.profile == self.overrides.profile && r.overrides.oss == self.overrides.oss
                && r.overrides.feature_toggles == self.overrides.feature_toggles
                && r.overrides.search == self.overrides.search,
    {
        let mut s = self;
        s.overrides.add_config_override(ConfigOverride::new(key, value));
        assert(s.overrides.config_overrides@.drop_last() =~= self.overrides.config_overrides@);
        s
    }

    /// Adds a raw `--config key=value` override without validation.
    pub fn config_override_raw(self, raw: &str) -> (r: Self)
        ensures
            r.json == self.json,
            r.overrides.config_overrides@.len() == self.overrides.config_overrides@.len() + 1,
            r.overrides.config_overrides@.drop_last() == self.overrides.config_overrides@,
            r.overrides.config_overrides@.last() matches ConfigOverride::Raw(s) && s@ == raw@,
            r.overrides.profile == self.overrides.profile && r.overrides.oss == self.overrides.oss
                && r.overrides.feature_toggles == self.overrides.feature_toggles
                && r.overrides.search == self.overrides.search,
    {
        let mut s = self;
        s.overrides.add_config_override(ConfigOverride::from_raw(raw));
        assert(s.overrides.config_overrides@.drop_last() =~= self.overrides.config_overrides@);
        s
    }

    /// Sets the config profile; blank names clear it.
    pub fn profile(self, profile: &str) -> (r: Self)
        ensures
            r.json == self.json,
            opt_string_view(r.overrides.profile) == non_blank_view(profile@),
            r.overrides.config_overrides == self.overrides.config_overrides && r.overrides.oss
                == self.overrides.oss && r.overrides.feature_toggles == self.overrides.feature_toggles
                && r.overrides.search == self.overrides.search,
    {
        let mut s = self;
        s.overrides.set_profile(profile);
        s
    }

    /// Requests `--oss` (or suppresses it).
    pub fn oss(self, enable: bool) -> (r: Self)
        ensures
            r.json == self.json,
            r.overrides.oss == flag_from(enable),
            r.overrides.config_overrides == self.overrides.config_overrides && r.overrides.profile
                == self.overrides.profile && r.overrides.feature_toggles == self.overrides.feature_toggles
                && r.overrides.search == self.overrides.search,
    {
        let mut s = self;
        s.overrides.set_oss(enable);
        s
    }

    /// Adds a `--enable <feature>` toggle.
    pub fn enable_feature(self, name: &str) -> (r: Self)
        ensures
            r.json == self.json,
            string_views(r.overrides.feature_toggles.enable@) == string_views(
                self.overrides.feature_toggles.enable@,
            ).push(name@),
            r.overrides.feature_toggles.disable == self.overrides.feature_toggles.disable,
            r.overrides.config_overrides == self.overrides.config_overrides && r.overrides.profile
                == self.overrides.profile && r.overrides.oss == self.overrides.oss
                && r.overrides.search == self.overrides.search,
    {
        let mut s = self;
        s.overrides.add_enable(name);
        assert(string_views(s.overrides.feature_toggles.enable@) =~= string_views(
            self.overrides.feature_toggles.enable@,
        ).push(name@));
        s
    }

    /// Adds a `--disable <feature>` toggle.
    pub fn disable_feature(self, name: &str) -> (r: Self)
        ensures
            r.json == self.json,
            string_views(r.overrides.feature_toggles.disable@) == string_views(
                self.overrides.feature_toggles.disable@,
            ).push(name@),
            r.overrides.feature_toggles.enable == self.overrides.feature_toggles.enable,
            r.overrides.config_overrides == self.overrides.config_overrides && r.overrides.profile
                == self.overrides.profile && r.overrides.oss == self.overrides.oss
                && r.overrides.search == self.overrides.search,
    {
        let mut s = self;
        s.overrides.add_disable(name);
        assert(string_views(s.overrides.feature_toggles.disable@) =~= string_views(
            self.overrides.feature_toggles.disable@,
        ).push(name@));
        s
    }

    /// Requests `--search` (or suppresses it).
    pub fn search(self, enable: bool) -> (r: Self)
        ensures
            r.json == self.json,
            r.overrides.search == flag_from(enable),
            r.overrides.config_overrides == self.overrides.config_overrides && r.overrides.profile
                == self.overrides.profile && r.overrides.feature_toggles == self.overrides.feature_toggles
                && r.overrides.oss == self.overrides.oss,
    {
        let mut s = self;
        s.overrides.set_search(enable);
        s
    }
}

impl Default for FeaturesListRequest {
    fn default() -> (r: Self)
        ensures
            !r.json,
            r.overrides.is_default(),
    {
        FeaturesListRequest::new()
    }
}

/// Request for `codex features`.
#[derive(Debug)]
pub struct FeaturesCommandRequest {
    pub overrides: CliOverridesPatch,
}

impl FeaturesCommandRequest {
    pub fn new() -> (r: Self)
        ensures
            r.overrides.is_default(),
    {
        FeaturesCommandRequest { overrides: CliOverridesPatch::new() }
    }

    pub fn with_overrides(self, overrides: CliOverridesPatch) -> (r: Self)
        ensures
            r.overrides == overrides,
    {
        FeaturesCommandRequest { overrides }
    }
}

impl Default for FeaturesCommandRequest {
    fn default() -> (r: Self)
        ensures
            r.overrides.is_default(),
    {
        FeaturesCommandRequest::new()
    }
}

} // verus!
