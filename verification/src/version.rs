//! Semantic versions, release channels and parsing of `codex --version` output.

use vstd::prelude::*;
use crate::text::{
    all_hex, all_hex_chars, chars_of, contains, contains_chars, decimal, decimal_chars, fields,
    lower, lower_chars, eq_chars, push_all, split_fields, string_of, trim, trim_chars,
    trim_class, trim_start_chars, trim_start_class, trim_start_pattern, trim_start_pattern_chars,
    views, CharClass,
};

verus! {

#[verifier::external_type_specification]
#[verifier::external_body]
pub struct ExSemverVersion(semver::Version);

pub assume_specification[ <semver::Version as Clone>::clone ](v: &semver::Version) -> (r:
    semver::Version)
    ensures
        r == *v,
;

/// Plain view of a semantic version: major, minor, patch, pre-release and build metadata.
pub type SemverView = (u64, u64, u64, Seq<char>, Seq<char>);

/// What `semver::Version::parse` yields for a text, by its fields.
pub uninterp spec fn semver_parse(text: Seq<char>) -> Option<SemverView>;

/// Precedence of one version relative to another.
#[derive(Clone, Copy, Debug, PartialEq, Eq)]
pub enum Precedence {
    Lower,
    Same,
    Higher,
}

/// The order that `semver::Version`'s `Ord` gives two versions, by their fields.
pub uninterp spec fn semver_order(a: SemverView, b: SemverView) -> Precedence;

/// Lexicographic facts of a derived ordering over (major, minor, patch, pre, build).
pub open spec fn order_facts(a: SemverView, b: SemverView, r: Precedence) -> bool {
    &&& (r == Precedence::Same <==> a == b)
    &&& (a.0 < b.0 ==> r == Precedence::Lower)
    &&& (a.0 > b.0 ==> r == Precedence::Higher)
    &&& (a.0 == b.0 && a.1 < b.1 ==> r == Precedence::Lower)
    &&& (a.0 == b.0 && a.1 > b.1 ==> r == Precedence::Higher)
    &&& (a.0 == b.0 && a.1 == b.1 && a.2 < b.2 ==> r == Precedence::Lower)
    &&& (a.0 == b.0 && a.1 == b.1 && a.2 > b.2 ==> r == Precedence::Higher)
}

/// A parsed semantic version. The fields mirror the `semver::Version` it was built from.
#[derive(Debug)]
pub struct SemanticVersion {
    major: u64,
    minor: u64,
    patch: u64,
    pre: String,
    build: String,
    parsed: semver::Version,
}

impl View for SemanticVersion {
    type V = SemverView;

    closed spec fn view(&self) -> SemverView {
        (self.major, self.minor, self.patch, self.pre@, self.build@)
    }
}

impl Clone for SemanticVersion {
    fn clone(&self) -> (r: Self)
        ensures
            r == *self,
    {
        SemanticVersion {
            major: self.major,
            minor: self.minor,
            patch: self.patch,
            pre: self.pre.clone(),
            build: self.build.clone(),
            parsed: self.parsed.clone(),
        }
    }
}

/// Parses a version with `semver::Version::parse` and keeps its fields as plain values.
#[verifier::external_body]
fn semver_parse_text(text: &str) -> (r: Option<SemanticVersion>)
    ensures
        match r {
            Some(v) => semver_parse(text@) == Some(v@),
            None => semver_parse(text@) is None,
        },
{
    semver::Version::parse(text).ok().map(
        |v| SemanticVersion {
            major: v.major,
            minor: v.minor,
            patch: v.patch,
            pre: v.pre.as_str().to_string(),
            build: v.build.as_str().to_string(),
            parsed: v,
        },
    )
}

/// Builds `major.minor.patch-pre` with `semver::Version::new` and `semver::Prerelease::new`;
/// `None` when `semver::Prerelease::new` rejects `pre`. The source accepts identifiers made
/// of ASCII letters, so `beta` and `nightly` are always accepted.
#[verifier::external_body]
fn semver_with_prerelease(major: u64, minor: u64, patch: u64, pre: &str) -> (r: Option<
    SemanticVersion,
>)
    ensures
        r matches Some(v) ==> v@ == (major, minor, patch, pre@, Seq::<char>::empty()),
        (pre@ == "beta"@ || pre@ == "nightly"@) ==> r is Some,
{
    semver::Prerelease::new(pre).ok().map(
        |p| {
            let mut v = semver::Version::new(major, minor, patch);
            v.pre = p;
            SemanticVersion {
                major,
                minor,
                patch,
                pre: v.pre.as_str().to_string(),
                build: String::new(),
                parsed: v,
            }
        },
    )
}

/// Builds `major.minor.patch` with `semver::Version::new`.
#[verifier::external_body]
fn semver_new(major: u64, minor: u64, patch: u64) -> (r: SemanticVersion)
    ensures
        r@ == (major, minor, patch, Seq::<char>::empty(), Seq::<char>::empty()),
{
    SemanticVersion {
        major,
        minor,
        patch,
        pre: String::new(),
        build: String::new(),
        parsed: semver::Version::new(major, minor, patch),
    }
}

/// Compares two versions with `semver::Version`'s `Ord`.
#[verifier::external_body]
fn semver_compare(a: &SemanticVersion, b: &SemanticVersion) -> (r: Precedence)
    ensures
        r == semver_order(a@, b@),
        order_facts(a@, b@, r),
{
    match a.parsed.cmp(&b.parsed) {
        std::cmp::Ordering::Less => Precedence::Lower,
        std::cmp::Ordering::Equal => Precedence::Same,
        std::cmp::Ordering::Greater => Precedence::Higher,
    }
}

/// `Display` of `semver::Version`: `major.minor.patch`, then `-pre` and `+build` when present.
pub open spec fn version_text(v: SemverView) -> Seq<char> {
    decimal(v.0 as nat) + seq!['.'] + decimal(v.1 as nat) + seq!['.'] + decimal(v.2 as nat) + (
    if v.3.len() > 0 {
        seq!['-'] + v.3
    } else {
        Seq::empty()
    }) + (if v.4.len() > 0 {
        seq!['+'] + v.4
    } else {
        Seq::empty()
    })
}

impl SemanticVersion {
    /// Parses a semantic version (`semver::Version::parse`).
    pub fn parse(text: &str) -> (r: Option<SemanticVersion>)
        ensures
            match r {
                Some(v) => semver_parse(text@) == Some(v@),
                None => semver_parse(text@) is None,
            },
    {
        semver_parse_text(text)
    }

    /// `major.minor.patch` with empty pre-release and build metadata.
    pub fn new(major: u64, minor: u64, patch: u64) -> (r: SemanticVersion)
        ensures
            r@ == (major, minor, patch, Seq::<char>::empty(), Seq::<char>::empty()),
    {
        semver_new(major, minor, patch)
    }

    pub fn major(&self) -> (r: u64)
        ensures
            r == self@.0,
    {
        self.major
    }

    pub fn minor(&self) -> (r: u64)
        ensures
            r == self@.1,
    {
        self.minor
    }

    pub fn patch(&self) -> (r: u64)
        ensures
            r == self@.2,
    {
        self.patch
    }

    pub fn pre(&self) -> (r: &str)
        ensures
            r@ == self@.3,
    {
        self.pre.as_str()
    }

    pub fn build(&self) -> (r: &str)
        ensures
            r@ == self@.4,
    {
        self.build.as_str()
    }

    /// Precedence of `self` relative to `other` under semver ordering.
    pub fn compare(&self, other: &SemanticVersion) -> (r: Precedence)
        ensures
            r == semver_order(self@, other@),
            order_facts(self@, other@, r),
    {
        semver_compare(self, other)
    }

    /// The version as `Display` prints it.
    pub fn to_text(&self) -> (r: String)
        ensures
            r@ == version_text(self@),
    {
        let mut v = decimal_chars(self.major);
        v.push('.');
        let m = decimal_chars(self.minor);
        push_all(&mut v, m.as_slice());
        v.push('.');
        let p = decimal_chars(self.patch);
        push_all(&mut v, p.as_slice());
        let pre = chars_of(self.pre.as_str());
        if pre.len() > 0 {
            v.push('-');
            push_all(&mut v, pre.as_slice());
        }
        let build = chars_of(self.build.as_str());
        if build.len() > 0 {
            v.push('+');
            push_all(&mut v, build.as_slice());
        }
        proof {
            let s = self@;
            assert(v@ =~= version_text(s));
        }
        string_of(v.as_slice())
    }
}


/// Release channel segments inferred from the Codex version string.
#[derive(Clone, Copy, Debug, PartialEq, Eq, Structural)]
pub enum CodexReleaseChannel {
    Stable,
    Beta,
    Nightly,
    /// Fallback for bespoke or vendor-patched builds.
    Custom,
}

/// The label `Display` prints for a channel.
pub open spec fn channel_label(c: CodexReleaseChannel) -> Seq<char> {
    match c {
        CodexReleaseChannel::Stable => seq!['s', 't', 'a', 'b', 'l', 'e'],
        CodexReleaseChannel::Beta => seq!['b', 'e', 't', 'a'],
        CodexReleaseChannel::Nightly => seq!['n', 'i', 'g', 'h', 't', 'l', 'y'],
        CodexReleaseChannel::Custom => seq!['c', 'u', 's', 't', 'o', 'm'],
    }
}

impl CodexReleaseChannel {
    /// The channel's label (`stable`, `beta`, `nightly`, `custom`).
    pub fn label(&self) -> (r: Vec<char>)
        ensures
            r@ == channel_label(*self),
    {
        let mut v: Vec<char> = Vec::new();
        match self {
            CodexReleaseChannel::Stable => {
                v.push('s'); v.push('t'); v.push('a'); v.push('b'); v.push('l'); v.push('e');
            },
            CodexReleaseChannel::Beta => {
                v.push('b'); v.push('e'); v.push('t'); v.push('a');
            },
            CodexReleaseChannel::Nightly => {
                v.push('n'); v.push('i'); v.push('g'); v.push('h'); v.push('t'); v.push('l');
                v.push('y');
            },
            CodexReleaseChannel::Custom => {
                v.push('c'); v.push('u'); v.push('s'); v.push('t'); v.push('o'); v.push('m');
            },
        }
        assert(v@ =~= channel_label(*self));
        v
    }

    /// The channel's label as a string (what `Display` prints).
    pub fn to_text(&self) -> (r: String)
        ensures
            r@ == channel_label(*self),
    {
        let v = self.label();
        string_of(v.as_slice())
    }
}

/// Parsed version details emitted by `codex --version`.
#[derive(Debug)]
pub struct CodexVersionInfo {
    /// Raw (trimmed) output of `codex --version`.
    pub raw: String,
    /// Parsed `major.minor.patch` triplet when the output contains a semantic version.
    pub semantic: Option<(u64, u64, u64)>,
    /// Optional commit hash or build identifier.
    pub commit: Option<String>,
    /// Release channel inferred from the version string.
    pub channel: CodexReleaseChannel,
}

pub open spec fn opt_view(o: Option<String>) -> Option<Seq<char>> {
    match o {
        Some(s) => Some(s@),
        None => None,
    }
}

pub fn clone_opt_string(o: &Option<String>) -> (r: Option<String>)
    ensures
        r == *o,
{
    match o {
        Some(s) => Some(s.clone()),
        None => None,
    }
}

impl Clone for CodexVersionInfo {
    fn clone(&self) -> (r: Self)
        ensures
            r == *self,
    {
        CodexVersionInfo {
            raw: self.raw.clone(),
            semantic: self.semantic,
            commit: clone_opt_string(&self.commit),
            channel: self.channel,
        }
    }
}

/// The text that one whitespace token offers as a version candidate: surrounding
/// `(`, `)`, `,`, `;` trimmed, then leading `v`s dropped.
pub open spec fn version_candidate(tok: Seq<char>) -> Seq<char> {
    trim_start_class(trim_class(tok, CharClass::Punctuation), CharClass::Exactly('v'))
}

/// The first token whose candidate parses as a semantic version.
pub open spec fn first_semver(toks: Seq<Seq<char>>) -> Option<SemverView>
    decreases toks.len(),
{
    if toks.len() == 0 {
        None
    } else {
        match semver_parse(version_candidate(toks[0])) {
            Some(v) => Some(v),
            None => first_semver(toks.drop_first()),
        }
    }
}

/// The semantic version found in raw version output.
pub open spec fn semver_in_text(raw: Seq<char>) -> Option<SemverView> {
    first_semver(fields(raw, CharClass::Whitespace))
}

fn version_candidate_chars(tok: &[char]) -> (r: Vec<char>)
    ensures
        r@ == version_candidate(tok@),
{
    let t = trim_chars(tok, CharClass::Punctuation);
    trim_start_chars(t.as_slice(), CharClass::Exactly('v'))
}

fn first_semver_in(toks: &Vec<Vec<char>>) -> (r: Option<SemanticVersion>)
    ensures
        match r {
            Some(v) => first_semver(views(toks@)) == Some(v@),
            None => first_semver(views(toks@)) is None,
        },
{
    let mut i: usize = 0;
    assert(views(toks@).subrange(0, toks@.len() as int) =~= views(toks@));
    while i < toks.len()
        invariant
            i <= toks.len(),
            first_semver(views(toks@)) == first_semver(
                views(toks@).subrange(i as int, toks@.len() as int),
            ),
        decreases toks.len() - i,
    {
        let cand = version_candidate_chars(toks[i].as_slice());
        let text = string_of(cand.as_slice());
        let ghost rest = views(toks@).subrange(i as int, toks@.len() as int);
        assert(rest[0] == toks@[i as int]@);
        assert(rest.drop_first() =~= views(toks@).subrange(i + 1, toks@.len() as int));
        match SemanticVersion::parse(text.as_str()) {
            Some(v) => {
                return Some(v);
            },
            None => {},
        }
        i = i + 1;
    }
    None
}

/// `parse_semver_from_raw`: the first whitespace token of `raw` that parses as a version.
pub fn parse_semver_from_raw(raw: &str) -> (r: Option<SemanticVersion>)
    ensures
        match r {
            Some(v) => semver_in_text(raw@) == Some(v@),
            None => semver_in_text(raw@) is None,
        },
{
    let chars = chars_of(raw);
    let toks = split_fields(chars.as_slice(), CharClass::Whitespace);
    first_semver_in(&toks)
}

/// A commit-hash candidate: punctuation trimmed, leading `commit`, `:` and `g` prefixes
/// dropped; accepted when at least seven hex digits remain.
pub open spec fn cleaned_hex(tok: Seq<char>) -> Option<Seq<char>> {
    let t = trim_start_class(
        trim_start_class(
            trim_start_pattern(trim_class(tok, CharClass::Punctuation), seq!['c', 'o', 'm', 'm', 'i', 't']),
            CharClass::Exactly(':'),
        ),
        CharClass::Exactly('g'),
    );
    if t.len() >= 7 && all_hex(t) {
        Some(t)
    } else {
        None
    }
}

pub fn cleaned_hex_chars(tok: &[char]) -> (r: Option<Vec<char>>)
    ensures
        match r {
            Some(v) => cleaned_hex(tok@) == Some(v@),
            None => cleaned_hex(tok@) is None,
        },
{
    let a = trim_chars(tok, CharClass::Punctuation);
    let mut commit: Vec<char> = Vec::new();
    commit.push('c'); commit.push('o'); commit.push('m'); commit.push('m'); commit.push('i');
    commit.push('t');
    assert(commit@ =~= seq!['c', 'o', 'm', 'm', 'i', 't']);
    let b = trim_start_pattern_chars(a.as_slice(), commit.as_slice());
    let c = trim_start_chars(b.as_slice(), CharClass::Exactly(':'));
    let d = trim_start_chars(c.as_slice(), CharClass::Exactly('g'));
    if d.len() >= 7 && all_hex_chars(d.as_slice()) {
        Some(d)
    } else {
        None
    }
}

/// The hash after the first `commit` keyword (compared ASCII-case-insensitively) whose
/// successor token is a hex candidate, scanning pairs from index `k`.
pub open spec fn commit_after_keyword(toks: Seq<Seq<char>>, k: int) -> Option<Seq<char>>
    decreases toks.len() - k,
{
    if k < 0 || k + 1 >= toks.len() {
        None
    } else if lower(toks[k]) == seq!['c', 'o', 'm', 'm', 'i', 't'] && cleaned_hex(toks[k + 1]) is Some {
        cleaned_hex(toks[k + 1])
    } else {
        commit_after_keyword(toks, k + 1)
    }
}

/// The first token that is a hex candidate, from index `k`.
pub open spec fn first_hex_token(toks: Seq<Seq<char>>, k: int) -> Option<Seq<char>>
    decreases toks.len() - k,
{
    if k < 0 || k >= toks.len() {
        None
    } else if cleaned_hex(toks[k]) is Some {
        cleaned_hex(toks[k])
    } else {
        first_hex_token(toks, k + 1)
    }
}

/// The first token whose version candidate is a hex candidate, from index `k`.
pub open spec fn first_hex_candidate(toks: Seq<Seq<char>>, k: int) -> Option<Seq<char>>
    decreases toks.len() - k,
{
    if k < 0 || k >= toks.len() {
        None
    } else if cleaned_hex(version_candidate(toks[k])) is Some {
        cleaned_hex(version_candidate(toks[k]))
    } else {
        first_hex_candidate(toks, k + 1)
    }
}

/// `extract_commit_hash`: a hash after a `commit` keyword, else the first hex token.
pub open spec fn extract_commit(raw: Seq<char>) -> Option<Seq<char>> {
    let toks = fields(raw, CharClass::Whitespace);
    match commit_after_keyword(toks, 0) {
        Some(c) => Some(c),
        None => first_hex_token(toks, 0),
    }
}

/// The commit recorded for raw version output.
pub open spec fn version_commit(raw: Seq<char>) -> Option<Seq<char>> {
    match extract_commit(raw) {
        Some(c) => Some(c),
        None => first_hex_candidate(fields(raw, CharClass::Whitespace), 0),
    }
}

fn commit_after_keyword_exec(toks: &Vec<Vec<char>>) -> (r: Option<Vec<char>>)
    ensures
        match r {
            Some(v) => commit_after_keyword(views(toks@), 0) == Some(v@),
            None => commit_after_keyword(views(toks@), 0) is None,
        },
{
    let mut commit: Vec<char> = Vec::new();
    commit.push('c'); commit.push('o'); commit.push('m'); commit.push('m'); commit.push('i');
    commit.push('t');
    assert(commit@ =~= seq!['c', 'o', 'm', 'm', 'i', 't']);
    let ghost vt = views(toks@);
    let mut k: usize = 0;
    while k < toks.len() && k + 1 < toks.len()
        invariant
            k <= toks.len(),
            vt == views(toks@),
            commit@ == seq!['c', 'o', 'm', 'm', 'i', 't'],
            commit_after_keyword(vt, 0) == commit_after_keyword(vt, k as int),
        decreases toks.len() - k,
    {
        assert(vt[k as int] == toks@[k as int]@);
        assert(vt[k + 1] == toks@[k + 1]@);
        let low = lower_chars(toks[k].as_slice());
        if eq_chars(low.as_slice(), commit.as_slice()) {
            match cleaned_hex_chars(toks[k + 1].as_slice()) {
                Some(h) => {
                    return Some(h);
                },
                None => {},
            }
        }
        k = k + 1;
    }
    None
}

fn first_hex_token_exec(toks: &Vec<Vec<char>>, candidates: bool) -> (r: Option<Vec<char>>)
    ensures
        !candidates ==> match r {
            Some(v) => first_hex_token(views(toks@), 0) == Some(v@),
            None => first_hex_token(views(toks@), 0) is None,
        },
        candidates ==> match r {
            Some(v) => first_hex_candidate(views(toks@), 0) == Some(v@),
            None => first_hex_candidate(views(toks@), 0) is None,
        },
{
    let ghost vt = views(toks@);
    let mut k: usize = 0;
    while k < toks.len()
        invariant
            vt == views(toks@),
            !candidates ==> first_hex_token(vt, 0) == first_hex_token(vt, k as int),
            candidates ==> first_hex_candidate(vt, 0) == first_hex_candidate(vt, k as int),
        decreases toks.len() - k,
    {
        assert(vt[k as int] == toks@[k as int]@);
        let found = if candidates {
            let cand = version_candidate_chars(toks[k].as_slice());
            cleaned_hex_chars(cand.as_slice())
        } else {
            cleaned_hex_chars(toks[k].as_slice())
        };
        match found {
            Some(h) => {
                return Some(h);
            },
            None => {},
        }
        k = k + 1;
    }
    None
}

/// The channel a parsed version belongs to: no pre-release is stable; otherwise by
/// whether the lowercased pre-release mentions `beta` or `nightly`.
pub open spec fn channel_for_version(v: SemverView) -> CodexReleaseChannel {
    if v.3.len() == 0 {
        CodexReleaseChannel::Stable
    } else if contains(lower(v.3), seq!['b', 'e', 't', 'a']) {
        CodexReleaseChannel::Beta
    } else if contains(lower(v.3), seq!['n', 'i', 'g', 'h', 't', 'l', 'y']) {
        CodexReleaseChannel::Nightly
    } else {
        CodexReleaseChannel::Custom
    }
}

/// The channel guessed from raw text when no version parses.
pub open spec fn channel_for_text(raw: Seq<char>) -> CodexReleaseChannel {
    if contains(lower(raw), seq!['b', 'e', 't', 'a']) {
        CodexReleaseChannel::Beta
    } else if contains(lower(raw), seq!['n', 'i', 'g', 'h', 't', 'l', 'y']) {
        CodexReleaseChannel::Nightly
    } else {
        CodexReleaseChannel::Custom
    }
}

fn channel_from_lowered(low: &[char], stable_when_empty: bool) -> (r: CodexReleaseChannel)
    ensures
        r == (if stable_when_empty && low@.len() == 0 {
            CodexReleaseChannel::Stable
        } else if contains(low@, seq!['b', 'e', 't', 'a']) {
            CodexReleaseChannel::Beta
        } else if contains(low@, seq!['n', 'i', 'g', 'h', 't', 'l', 'y']) {
            CodexReleaseChannel::Nightly
        } else {
            CodexReleaseChannel::Custom
        }),
{
    if stable_when_empty && low.len() == 0 {
        return CodexReleaseChannel::Stable;
    }
    let mut beta: Vec<char> = Vec::new();
    beta.push('b'); beta.push('e'); beta.push('t'); beta.push('a');
    assert(beta@ =~= seq!['b', 'e', 't', 'a']);
    let mut nightly: Vec<char> = Vec::new();
    nightly.push('n'); nightly.push('i'); nightly.push('g'); nightly.push('h'); nightly.push('t');
    nightly.push('l'); nightly.push('y');
    assert(nightly@ =~= seq!['n', 'i', 'g', 'h', 't', 'l', 'y']);
    if contains_chars(low, beta.as_slice()) {
        CodexReleaseChannel::Beta
    } else if contains_chars(low, nightly.as_slice()) {
        CodexReleaseChannel::Nightly
    } else {
        CodexReleaseChannel::Custom
    }
}

/// The release channel of a parsed version, from its pre-release tag.
pub fn release_channel_for_version(v: &SemanticVersion) -> (r: CodexReleaseChannel)
    ensures
        r == channel_for_version(v@),
{
    let pre = chars_of(v.pre());
    let low = lower_chars(pre.as_slice());
    channel_from_lowered(low.as_slice(), true)
}

/// The release channel guessed from version text that does not parse.
pub fn infer_release_channel(raw: &str) -> (r: CodexReleaseChannel)
    ensures
        r == channel_for_text(raw@),
{
    let v = chars_of(raw);
    let low = lower_chars(v.as_slice());
    channel_from_lowered(low.as_slice(), false)
}

/// The version info that `parse_version_output` derives from raw output.
pub open spec fn version_info_matches(output: Seq<char>, r: CodexVersionInfo) -> bool {
    let raw = trim(output);
    &&& r.raw@ == raw
    &&& r.semantic == (match semver_in_text(raw) {
        Some(v) => Some((v.0, v.1, v.2)),
        None => None,
    })
    &&& opt_view(r.commit) == version_commit(raw)
    &&& r.channel == (match semver_in_text(raw) {
        Some(v) => channel_for_version(v),
        None => channel_for_text(raw),
    })
}

/// Parses the output of `codex --version`.
pub fn parse_version_output(output: &str) -> (r: CodexVersionInfo)
    ensures
        version_info_matches(output@, r),
{
    let raw_chars = trim_chars(chars_of(output).as_slice(), CharClass::Whitespace);
    let raw = string_of(raw_chars.as_slice());
    let parsed = parse_semver_from_raw(raw.as_str());
    let semantic = match &parsed {
        Some(v) => Some((v.major(), v.minor(), v.patch())),
        None => None,
    };
    let toks = split_fields(raw_chars.as_slice(), CharClass::Whitespace);
    let commit = match commit_after_keyword_exec(&toks) {
        Some(c) => Some(c),
        None => match first_hex_token_exec(&toks, false) {
            Some(c) => Some(c),
            None => first_hex_token_exec(&toks, true),
        },
    };
    let commit_str = match commit {
        Some(c) => Some(string_of(c.as_slice())),
        None => None,
    };
    let channel = match &parsed {
        Some(v) => release_channel_for_version(v),
        None => infer_release_channel(raw.as_str()),
    };
    CodexVersionInfo { raw, semantic, commit: commit_str, channel }
}


/// The version `major.minor.patch` tagged with the channel's pre-release (`beta`,
/// `nightly`); stable and custom channels get no tag.
pub fn semver_with_prerelease_for_channel(
    major: u64,
    minor: u64,
    patch: u64,
    channel: CodexReleaseChannel,
) -> (r: Option<SemanticVersion>)
    ensures
        match r {
            Some(v) => v@ == (match channel {
                CodexReleaseChannel::Beta => (major, minor, patch, "beta"@, Seq::<char>::empty()),
                CodexReleaseChannel::Nightly => (major, minor, patch, "nightly"@, Seq::<char>::empty()),
                _ => (major, minor, patch, Seq::<char>::empty(), Seq::<char>::empty()),
            }),
            None => false,
        },
{
    match channel {
        CodexReleaseChannel::Beta => semver_with_prerelease(major, minor, patch, "beta"),
        CodexReleaseChannel::Nightly => semver_with_prerelease(major, minor, patch, "nightly"),
        _ => Some(SemanticVersion::new(major, minor, patch)),
    }
}

/// When the output holds a version that parses, the version info carries its triplet and the
/// channel of its pre-release tag: no tag is stable, a tag mentioning `beta` (in any case) is
/// beta, else one mentioning `nightly` is nightly, and any other tag is custom. The raw text
/// decides the channel only when no version parses.
pub proof fn law_parsed_version_sets_channel(output: Seq<char>, r: CodexVersionInfo, v: SemverView)
    requires
        version_info_matches(output, r),
        semver_in_text(trim(output)) == Some(v),
    ensures
        r.semantic == Some((v.0, v.1, v.2)),
        v.3.len() == 0 ==> r.channel == CodexReleaseChannel::Stable,
        v.3.len() > 0 && contains(lower(v.3), seq!['b', 'e', 't', 'a']) ==> r.channel
            == CodexReleaseChannel::Beta,
        v.3.len() > 0 && !contains(lower(v.3), seq!['b', 'e', 't', 'a']) && contains(
            lower(v.3),
            seq!['n', 'i', 'g', 'h', 't', 'l', 'y'],
        ) ==> r.channel == CodexReleaseChannel::Nightly,
        v.3.len() > 0 && !contains(lower(v.3), seq!['b', 'e', 't', 'a']) && !contains(
            lower(v.3),
            seq!['n', 'i', 'g', 'h', 't', 'l', 'y'],
        ) ==> r.channel == CodexReleaseChannel::Custom,
{
}

} // verus!
