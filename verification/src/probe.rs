//! The capability probe of a Codex binary as a state machine: it names the next command to
//! run, takes the command's outcome and decides which probe comes next.

use vstd::prelude::*;
use crate::capabilities::{
    BinaryFingerprint, CapabilityCacheKey, CapabilityProbePlan, CapabilityProbeStep,
    CodexCapabilities, CodexFeatureFlags, no_features,
};
use crate::features::{
    detected_feature_flags, json_flags, merge_feature_flags, or_flags, parse_features_from_json,
    parse_features_from_text, parse_help_output, should_run_help_fallback, text_flags,
};
use crate::text::{blank, chars_of, is_blank, push_all, string_of, trim_end_chars, trim_end_class, CharClass};
use crate::time::Timestamp;
use crate::version::{parse_version_output, version_info_matches, CodexVersionInfo};
use vstd::string::StringExecFns;

verus! {

/// `command_output_text`: stdout and stderr with trailing whitespace trimmed, joined by a
/// newline when both are non-empty.
pub open spec fn output_text(stdout: Seq<char>, stderr: Seq<char>) -> Seq<char> {
    let o = trim_end_class(stdout, CharClass::Whitespace);
    let e = trim_end_class(stderr, CharClass::Whitespace);
    if o.len() == 0 {
        e
    } else if e.len() == 0 {
        o
    } else {
        o + seq!['\n'] + e
    }
}

/// Combines captured stdout and stderr into one text.
pub fn command_output_text(stdout: &str, stderr: &str) -> (r: String)
    ensures
        r@ == output_text(stdout@, stderr@),
{
    let o = trim_end_chars(chars_of(stdout).as_slice(), CharClass::Whitespace);
    let e = trim_end_chars(chars_of(stderr).as_slice(), CharClass::Whitespace);
    if o.len() == 0 {
        string_of(e.as_slice())
    } else if e.len() == 0 {
        string_of(o.as_slice())
    } else {
        let mut v = o;
        v.push('\n');
        push_all(&mut v, e.as_slice());
        string_of(v.as_slice())
    }
}

/// What one probe command produced.
#[derive(Debug)]
pub enum ProbeOutcome {
    /// The command could not be run.
    Failed,
    /// The command ran; `text` is its combined output (see `command_output_text`).
    Finished { success: bool, text: String },
}

/// Which probe runs next.
#[derive(Clone, Copy, Debug, PartialEq, Eq, Structural)]
pub enum ProbeStage {
    Version,
    FeaturesJson,
    FeaturesText,
    Help,
    Done,
}

/// The probe of one binary, in progress.
#[derive(Debug)]
pub struct CapabilityProber {
    pub stage: ProbeStage,
    pub steps: Vec<CapabilityProbeStep>,
    pub features: CodexFeatureFlags,
    /// The parsed output of `codex --version`; `None` when that command fails.
    pub version: Option<CodexVersionInfo>,
    pub parsed_features: bool,
}

/// The stage after the features probes, given the flags gathered so far.
pub open spec fn after_features(f: CodexFeatureFlags) -> ProbeStage {
    if !(f.supports_features_list && f.supports_output_schema && f.supports_add_dir
        && f.supports_mcp_login) {
        ProbeStage::Help
    } else {
        ProbeStage::Done
    }
}

/// Flags after the `features list --json` probe.
pub open spec fn json_probe_flags(f: CodexFeatureFlags, success: bool, text: Seq<char>) -> CodexFeatureFlags {
    let base = if success {
        CodexFeatureFlags { supports_features_list: true, ..f }
    } else {
        f
    };
    match json_flags(text) {
        Some(p) => or_flags(base, p),
        None => if text.len() > 0 {
            or_flags(base, text_flags(text))
        } else {
            base
        },
    }
}

/// Whether the `--json` probe counts as having found features.
pub open spec fn json_probe_parsed(f: CodexFeatureFlags, success: bool, text: Seq<char>) -> bool {
    let g = json_probe_flags(f, success, text);
    if json_flags(text) is Some || text.len() > 0 {
        g.supports_output_schema || g.supports_add_dir || g.supports_mcp_login
    } else {
        false
    }
}

impl CapabilityProber {
    /// A probe that has run nothing yet.
    pub fn new() -> (r: Self)
        ensures
            r.stage == ProbeStage::Version,
            r.steps@.len() == 0,
            r.features == no_features(),
            r.version is None,
            !r.parsed_features,
    {
        CapabilityProber {
            stage: ProbeStage::Version,
            steps: Vec::new(),
            features: CodexFeatureFlags::none(),
            version: None,
            parsed_features: false,
        }
    }

    /// The command-line arguments of the next probe, or `None` when probing is done.
    pub fn next_args(&self) -> (r: Option<Vec<String>>)
        ensures
            match self.stage {
                ProbeStage::Version => r matches Some(a) && a@.len() == 1 && a@[0]@ == "--version"@,
                ProbeStage::FeaturesJson => r matches Some(a) && a@.len() == 3 && a@[0]@ == "features"@
                    && a@[1]@ == "list"@ && a@[2]@ == "--json"@,
                ProbeStage::FeaturesText => r matches Some(a) && a@.len() == 2 && a@[0]@ == "features"@
                    && a@[1]@ == "list"@,
                ProbeStage::Help => r matches Some(a) && a@.len() == 1 && a@[0]@ == "--help"@,
                ProbeStage::Done => r is None,
            },
    {
        let mut args: Vec<String> = Vec::new();
        match self.stage {
            ProbeStage::Version => {
                args.push(String::from_str("--version"));
            },
            ProbeStage::FeaturesJson => {
                args.push(String::from_str("features"));
                args.push(String::from_str("list"));
                args.push(String::from_str("--json"));
            },
            ProbeStage::FeaturesText => {
                args.push(String::from_str("features"));
                args.push(String::from_str("list"));
            },
            ProbeStage::Help => {
                args.push(String::from_str("--help"));
            },
            ProbeStage::Done => {
                return None;
            },
        }
        Some(args)
    }

    /// Takes the outcome of the current probe, records its step and moves to the next stage.
    pub fn record(&mut self, outcome: ProbeOutcome)
        ensures
            final(self).stage == (match old(self).stage {
                ProbeStage::Version => ProbeStage::FeaturesJson,
                ProbeStage::FeaturesJson => if final(self).parsed_features {
                    after_features(final(self).features)
                } else {
                    ProbeStage::FeaturesText
                },
                ProbeStage::FeaturesText => after_features(final(self).features),
                _ => ProbeStage::Done,
            }),
            final(self).steps@ == (match old(self).stage {
                ProbeStage::Version => old(self).steps@.push(CapabilityProbeStep::VersionFlag),
                ProbeStage::FeaturesJson => old(self).steps@.push(CapabilityProbeStep::FeaturesListJson),
                ProbeStage::FeaturesText => old(self).steps@.push(CapabilityProbeStep::FeaturesListText),
                ProbeStage::Help => old(self).steps@.push(CapabilityProbeStep::HelpFallback),
                ProbeStage::Done => old(self).steps@,
            }),
            old(self).stage == ProbeStage::Version ==> {
                &&& final(self).features == old(self).features
                &&& final(self).parsed_features == old(self).parsed_features
                &&& match outcome {
                    ProbeOutcome::Finished { success, text } => if success && !is_blank(text@) {
                        final(self).version matches Some(v) && version_info_matches(text@, v)
                    } else {
                        final(self).version == old(self).version
                    },
                    ProbeOutcome::Failed => final(self).version == old(self).version,
                }
            },
            old(self).stage != ProbeStage::Version ==> final(self).version == old(self).version,
            old(self).stage == ProbeStage::FeaturesJson ==> match outcome {
                ProbeOutcome::Finished { success, text } => final(self).features
                    == json_probe_flags(old(self).features, success, text@)
                    && final(self).parsed_features == json_probe_parsed(
                    old(self).features,
                    success,
                    text@,
                ),
                ProbeOutcome::Failed => final(self).features == old(self).features
                    && final(self).parsed_features == old(self).parsed_features,
            },
            old(self).stage == ProbeStage::FeaturesText ==> final(self).parsed_features
                == old(self).parsed_features && match outcome {
                ProbeOutcome::Finished { success, text } => final(self).features == or_flags(
                    if success {
                        CodexFeatureFlags { supports_features_list: true, ..old(self).features }
                    } else {
                        old(self).features
                    },
                    text_flags(text@),
                ),
                ProbeOutcome::Failed => final(self).features == old(self).features,
            },
            old(self).stage == ProbeStage::Help ==> final(self).parsed_features
                == old(self).parsed_features && match outcome {
                ProbeOutcome::Finished { text, .. } => final(self).features == or_flags(
                    old(self).features,
                    text_flags(text@),
                ),
                ProbeOutcome::Failed => final(self).features == old(self).features,
            },
            old(self).stage == ProbeStage::Done ==> final(self).features == old(self).features
                && final(self).parsed_features == old(self).parsed_features,
    {
        match self.stage {
            ProbeStage::Version => {
                self.steps.push(CapabilityProbeStep::VersionFlag);
                match outcome {
                    ProbeOutcome::Finished { success, text } => {
                        if success && !blank(text.as_str()) {
                            self.version = Some(parse_version_output(text.as_str()));
                        }
                    },
                    ProbeOutcome::Failed => {},
                }
                self.stage = ProbeStage::FeaturesJson;
            },
            ProbeStage::FeaturesJson => {
                self.steps.push(CapabilityProbeStep::FeaturesListJson);
                match outcome {
                    ProbeOutcome::Finished { success, text } => {
                        if success {
                            self.features.supports_features_list = true;
                        }
                        match parse_features_from_json(text.as_str()) {
                            Some(parsed) => {
                                merge_feature_flags(&mut self.features, parsed);
                                self.parsed_features = detected_feature_flags(&self.features);
                            },
                            None => {
                                if chars_of(text.as_str()).len() > 0 {
                                    let parsed = parse_features_from_text(text.as_str());
                                    merge_feature_flags(&mut self.features, parsed);
                                    self.parsed_features = detected_feature_flags(&self.features);
                                } else {
                                    self.parsed_features = false;
                                }
                            },
                        }
                    },
                    ProbeOutcome::Failed => {},
                }
                if !self.parsed_features {
                    self.stage = ProbeStage::FeaturesText;
                } else if should_run_help_fallback(&self.features) {
                    self.stage = ProbeStage::Help;
                } else {
                    self.stage = ProbeStage::Done;
                }
            },
            ProbeStage::FeaturesText => {
                self.steps.push(CapabilityProbeStep::FeaturesListText);
                match outcome {
                    ProbeOutcome::Finished { success, text } => {
                        if success {
                            self.features.supports_features_list = true;
                        }
                        let parsed = parse_features_from_text(text.as_str());
                        merge_feature_flags(&mut self.features, parsed);
                    },
                    ProbeOutcome::Failed => {},
                }
                if should_run_help_fallback(&self.features) {
                    self.stage = ProbeStage::Help;
                } else {
                    self.stage = ProbeStage::Done;
                }
            },
            ProbeStage::Help => {
                self.steps.push(CapabilityProbeStep::HelpFallback);
                match outcome {
                    ProbeOutcome::Finished { text, .. } => {
                        let parsed = parse_help_output(text.as_str());
                        merge_feature_flags(&mut self.features, parsed);
                    },
                    ProbeOutcome::Failed => {},
                }
                self.stage = ProbeStage::Done;
            },
            ProbeStage::Done => {},
        }
    }

    /// The snapshot the probe produced.
    pub fn finish(
        self,
        cache_key: CapabilityCacheKey,
        fingerprint: Option<BinaryFingerprint>,
        collected_at: Timestamp,
    ) -> (r: CodexCapabilities)
        ensures
            r.cache_key == cache_key,
            r.fingerprint == fingerprint,
            r.version == self.version,
            r.features == self.features,
            r.probe_plan.steps@ == self.steps@,
            r.collected_at == collected_at,
    {
        CodexCapabilities {
            cache_key,
            fingerprint,
            version: self.version,
            features: self.features,
            probe_plan: CapabilityProbePlan { steps: self.steps },
            collected_at,
        }
    }
}

} // verus!
