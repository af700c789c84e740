//! Per-request CLI overrides (`--config`, `--profile`, `--oss`, feature toggles, `--search`).

use vstd::prelude::*;
use crate::capabilities::string_views;
use crate::text::{blank, chars_of, is_blank, push_all, string_of};

verus! {

/// Three-state switch for a CLI flag.
#[derive(Clone, Copy, Debug, PartialEq, Eq, Structural)]
pub enum FlagState {
    /// Leave the flag to the builder defaults.
    Inherit,
    /// Pass the flag.
    Enable,
    /// Suppress the flag.
    Disable,
}

impl Default for FlagState {
    fn default() -> (r: Self)
        ensures
            r == FlagState::Inherit,
    {
        FlagState::Inherit
    }
}

/// `Enable` when true, `Disable` when false.
pub open spec fn flag_from(enable: bool) -> FlagState {
    if enable {
        FlagState::Enable
    } else {
        FlagState::Disable
    }
}

pub fn flag_state(enable: bool) -> (r: FlagState)
    ensures
        r == flag_from(enable),
{
    if enable {
        FlagState::Enable
    } else {
        FlagState::Disable
    }
}

/// One `--config` override.
#[derive(Debug)]
pub enum ConfigOverride {
    /// `key=value`.
    Pair { key: String, value: String },
    /// A raw `key=value` text passed through without validation.
    Raw(String),
}

impl ConfigOverride {
    pub fn new(key: &str, value: &str) -> (r: Self)
        ensures
            r matches ConfigOverride::Pair { key: k, value: v } && k@ == key@ && v@ == value@,
    {
        ConfigOverride::Pair { key: key.to_owned(), value: value.to_owned() }
    }

    pub fn from_raw(raw: &str) -> (r: Self)
        ensures
            r matches ConfigOverride::Raw(s) && s@ == raw@,
    {
        ConfigOverride::Raw(raw.to_owned())
    }
}

/// Feature toggles passed as `--enable <name>` / `--disable <name>`.
#[derive(Debug)]
pub struct FeatureToggles {
    pub enable: Vec<String>,
    pub disable: Vec<String>,
}

/// Per-call CLI overrides layered on top of the builder.
#[derive(Debug)]
pub struct CliOverridesPatch {
    pub config_overrides: Vec<ConfigOverride>,
    pub profile: Option<String>,
    pub oss: FlagState,
    pub feature_toggles: FeatureToggles,
    pub search: FlagState,
}

impl CliOverridesPatch {
    pub open spec fn is_default(&self) -> bool {
        &&& self.config_overrides@.len() == 0
        &&& self.profile is None
        &&& self.oss == FlagState::Inherit
        &&& self.feature_toggles.enable@.len() == 0
        &&& self.feature_toggles.disable@.len() == 0
        &&& self.search == FlagState::Inherit
    }

    /// A patch that changes nothing.
    pub fn new() -> (r: Self)
        ensures
            r.is_default(),
    {
        CliOverridesPatch {
            config_overrides: Vec::new(),
            profile: None,
            oss: FlagState::Inherit,
            feature_toggles: FeatureToggles { enable: Vec::new(), disable: Vec::new() },
            search: FlagState::Inherit,
        }
    }
}

impl Default for CliOverridesPatch {
    fn default() -> (r: Self)
        ensures
            r.is_default(),
    {
        CliOverridesPatch::new()
    }
}

impl CliOverridesPatch {
    /// Appends a `--config` override.
    pub fn add_config_override(&mut self, c: ConfigOverride)
        ensures
            final(self).config_overrides@ == old(self).config_overrides@.push(c),
            final(self).profile == old(self).profile,
            final(self).oss == old(self).oss,
            final(self).feature_toggles == old(self).feature_toggles,
            final(self).search == old(self).search,
    {
        self.config_overrides.push(c);
    }

    /// Sets the profile; blank names clear it.
    pub fn set_profile(&mut self, profile: &str)
        ensures
            final(self).config_overrides == old(self).config_overrides,
            opt_string_view(final(self).profile) == non_blank_view(profile@),
            final(self).oss == old(self).oss,
            final(self).feature_toggles == old(self).feature_toggles,
            final(self).search == old(self).search,
    {
        self.profile = non_blank(profile);
    }

    /// Sets `--oss`.
    pub fn set_oss(&mut self, enable: bool)
        ensures
            final(self).config_overrides == old(self).config_overrides,
            final(self).profile == old(self).profile,
            final(self).oss == flag_from(enable),
            final(self).feature_toggles == old(self).feature_toggles,
            final(self).search == old(self).search,
    {
        self.oss = flag_state(enable);
    }

    /// Sets `--search`.
    pub fn set_search(&mut self, enable: bool)
        ensures
            final(self).config_overrides == old(self).config_overrides,
            final(self).profile == old(self).profile,
            final(self).oss == old(self).oss,
            final(self).feature_toggles == old(self).feature_toggles,
            final(self).search == flag_from(enable),
    {
        self.search = flag_state(enable);
    }

    /// Adds a `--enable <feature>` toggle.
    pub fn add_enable(&mut self, name: &str)
        ensures
            final(self).config_overrides == old(self).config_overrides,
            final(self).profile == old(self).profile,
            final(self).oss == old(self).oss,
            final(self).feature_toggles.enable@.len() == old(self).feature_toggles.enable@.len() + 1,
            final(self).feature_toggles.enable@.drop_last() == old(self).feature_toggles.enable@,
            final(self).feature_toggles.enable@.last()@ == name@,
            final(self).feature_toggles.disable == old(self).feature_toggles.disable,
            final(self).search == old(self).search,
    {
        self.feature_toggles.enable.push(name.to_owned());
        assert(self.feature_toggles.enable@.drop_last() =~= old(self).feature_toggles.enable@);
    }

    /// Adds a `--disable <feature>` toggle.
    pub fn add_disable(&mut self, name: &str)
        ensures
            final(self).config_overrides == old(self).config_overrides,
            final(self).profile == old(self).profile,
            final(self).oss == old(self).oss,
            final(self).feature_toggles.enable == old(self).feature_toggles.enable,
            final(self).feature_toggles.disable@.len() == old(self).feature_toggles.disable@.len() + 1,
            final(self).feature_toggles.disable@.drop_last() == old(self).feature_toggles.disable@,
            final(self).feature_toggles.disable@.last()@ == name@,
            final(self).search == old(self).search,
    {
        self.feature_toggles.disable.push(name.to_owned());
        assert(self.feature_toggles.disable@.drop_last() =~= old(self).feature_toggles.disable@);
    }
}

/// `None` for blank text (whitespace only), otherwise the text.
pub open spec fn non_blank_view(s: Seq<char>) -> Option<Seq<char>> {
    if is_blank(s) {
        None
    } else {
        Some(s)
    }
}

pub open spec fn opt_string_view(o: Option<String>) -> Option<Seq<char>> {
    match o {
        Some(s) => Some(s@),
        None => None,
    }
}

/// `(!s.trim().is_empty()).then_some(s)`.
pub fn non_blank(s: &str) -> (r: Option<String>)
    ensures
        opt_string_view(r) == non_blank_view(s@),
{
    if blank(s) {
        None
    } else {
        Some(s.to_owned())
    }
}

/// The `--config` value of an override: `key=value`, or the raw text.
pub open spec fn config_arg(c: ConfigOverride) -> Seq<char> {
    match c {
        ConfigOverride::Pair { key, value } => key@ + "="@ + value@,
        ConfigOverride::Raw(raw) => raw@,
    }
}

/// `--config <value>` for each override, in order.
pub open spec fn config_args(cs: Seq<ConfigOverride>) -> Seq<Seq<char>>
    decreases cs.len(),
{
    if cs.len() == 0 {
        Seq::empty()
    } else {
        config_args(cs.drop_last()) + seq!["--config"@, config_arg(cs.last())]
    }
}

/// `<flag> <value>` for each value, in order.
pub open spec fn flagged(flag: Seq<char>, values: Seq<Seq<char>>) -> Seq<Seq<char>>
    decreases values.len(),
{
    if values.len() == 0 {
        Seq::empty()
    } else {
        flagged(flag, values.drop_last()) + seq![flag, values.last()]
    }
}

/// The arguments a patch adds to a command: its `--config` overrides, `--profile <name>`,
/// `--oss` when enabled, `--enable <feature>` then `--disable <feature>` toggles, and
/// `--search` when enabled. An inherited or disabled flag adds nothing.
pub open spec fn patch_args_view(p: CliOverridesPatch) -> Seq<Seq<char>> {
    config_args(p.config_overrides@) + match p.profile {
        Some(x) => seq!["--profile"@, x@],
        None => Seq::empty(),
    } + if p.oss == FlagState::Enable {
        seq!["--oss"@]
    } else {
        Seq::empty()
    } + flagged("--enable"@, string_views(p.feature_toggles.enable@)) + flagged(
        "--disable"@,
        string_views(p.feature_toggles.disable@),
    ) + if p.search == FlagState::Enable {
        seq!["--search"@]
    } else {
        Seq::empty()
    }
}

fn config_value(c: &ConfigOverride) -> (r: String)
    ensures
        r@ == config_arg(*c),
{
    match c {
        ConfigOverride::Pair { key, value } => {
            let mut v = chars_of(key.as_str());
            let eq = chars_of("=");
            push_all(&mut v, eq.as_slice());
            let val = chars_of(value.as_str());
            push_all(&mut v, val.as_slice());
            string_of(v.as_slice())
        },
        ConfigOverride::Raw(raw) => raw.clone(),
    }
}

fn push_flagged(args: &mut Vec<String>, flag: &str, values: &Vec<String>)
    ensures
        string_views(final(args)@) == string_views(old(args)@) + flagged(flag@, string_views(values@)),
{
    let ghost start = string_views(args@);
    let mut i: usize = 0;
    while i < values.len()
        invariant
            i <= values@.len(),
            string_views(args@) == start + flagged(flag@, string_views(values@.take(i as int))),
        decreases values@.len() - i,
    {
        proof {
            assert(string_views(values@.take(i + 1)).drop_last() =~= string_views(values@.take(i as int)));
            assert(string_views(values@.take(i + 1)).last() == values@[i as int]@);
        }
        let ghost before = string_views(args@);
        args.push(flag.to_owned());
        args.push(values[i].clone());
        assert(string_views(args@) =~= before + seq![flag@, values@[i as int]@]);
        i = i + 1;
    }
    assert(values@.take(values@.len() as int) =~= values@);
}

impl CliOverridesPatch {
    /// Appends the arguments of this patch (see [`patch_args_view`]).
    pub fn push_args(&self, args: &mut Vec<String>)
        ensures
            string_views(final(args)@) == string_views(old(args)@) + patch_args_view(*self),
    {
        let ghost start = string_views(args@);
        let mut i: usize = 0;
        while i < self.config_overrides.len()
            invariant
                i <= self.config_overrides@.len(),
                string_views(args@) == start + config_args(self.config_overrides@.take(i as int)),
            decreases self.config_overrides@.len() - i,
        {
            proof {
                assert(self.config_overrides@.take(i + 1).drop_last() =~= self.config_overrides@.take(i as int));
            }
            let ghost before = string_views(args@);
            args.push("--config".to_owned());
            args.push(config_value(&self.config_overrides[i]));
            assert(string_views(args@) =~= before + seq!["--config"@, config_arg(self.config_overrides@[i as int])]);
            i = i + 1;
        }
        assert(self.config_overrides@.take(self.config_overrides@.len() as int) =~= self.config_overrides@);
        let ghost a1 = string_views(args@);
        match &self.profile {
            Some(p) => {
                args.push("--profile".to_owned());
                args.push(p.clone());
            },
            None => {},
        }
        let ghost a2 = string_views(args@);
        assert(a2 =~= a1 + match self.profile {
            Some(x) => seq!["--profile"@, x@],
            None => Seq::<Seq<char>>::empty(),
        });
        if self.oss == FlagState::Enable {
            args.push("--oss".to_owned());
        }
        let ghost a3 = string_views(args@);
        assert(a3 =~= a2 + if self.oss == FlagState::Enable {
            seq!["--oss"@]
        } else {
            Seq::<Seq<char>>::empty()
        });
        push_flagged(args, "--enable", &self.feature_toggles.enable);
        push_flagged(args, "--disable", &self.feature_toggles.disable);
        let ghost a4 = string_views(args@);
        if self.search == FlagState::Enable {
            args.push("--search".to_owned());
        }
        assert(string_views(args@) =~= a4 + if self.search == FlagState::Enable {
            seq!["--search"@]
        } else {
            Seq::<Seq<char>>::empty()
        });
        assert(string_views(args@) =~= start + patch_args_view(*self));
    }
}

} // verus!
