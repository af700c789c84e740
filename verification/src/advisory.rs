//! Release tables and update advisories comparing a local Codex build with known releases.

use vstd::prelude::*;
use crate::capabilities::{string_views, CodexCapabilities};
use crate::text::{lit, push_all, string_of};
use crate::version::{
    channel_label, semver_in_text, version_text, CodexReleaseChannel, CodexVersionInfo, Precedence,
    SemanticVersion, SemverView, parse_semver_from_raw, semver_order,
};
use crate::version::semver_with_prerelease_for_channel;

verus! {

/// Release metadata for a specific Codex build channel.
#[derive(Debug)]
pub struct CodexRelease {
    pub channel: CodexReleaseChannel,
    pub version: SemanticVersion,
}

impl Clone for CodexRelease {
    fn clone(&self) -> (r: Self)
        ensures
            r == *self,
    {
        CodexRelease { channel: self.channel, version: self.version.clone() }
    }
}

pub type ReleaseView = (CodexReleaseChannel, SemverView);

pub open spec fn release_view(r: Option<CodexRelease>) -> Option<ReleaseView> {
    match r {
        Some(rel) => Some((rel.channel, rel.version@)),
        None => None,
    }
}

pub open spec fn version_view(v: Option<SemanticVersion>) -> Option<SemverView> {
    match v {
        Some(x) => Some(x@),
        None => None,
    }
}

/// Caller-supplied table of known latest Codex releases.
#[derive(Debug)]
pub struct CodexLatestReleases {
    pub stable: Option<SemanticVersion>,
    pub beta: Option<SemanticVersion>,
    pub nightly: Option<SemanticVersion>,
}

impl Default for CodexLatestReleases {
    fn default() -> (r: Self)
        ensures
            r.stable is None && r.beta is None && r.nightly is None,
    {
        CodexLatestReleases { stable: None, beta: None, nightly: None }
    }
}

fn clone_opt_semver(v: &Option<SemanticVersion>) -> (r: Option<SemanticVersion>)
    ensures
        r == *v,
{
    match v {
        Some(x) => Some(x.clone()),
        None => None,
    }
}

fn release_of(channel: CodexReleaseChannel, v: &Option<SemanticVersion>) -> (r: Option<CodexRelease>)
    ensures
        release_view(r) == (match *v {
            Some(x) => Some((channel, x@)),
            None => None,
        }),
{
    match v {
        Some(x) => Some(CodexRelease { channel, version: x.clone() }),
        None => None,
    }
}

/// The release a table holds for a channel; custom builds have none.
pub open spec fn release_in_table(t: CodexLatestReleases, c: CodexReleaseChannel) -> Option<ReleaseView> {
    match c {
        CodexReleaseChannel::Stable => match t.stable {
            Some(v) => Some((c, v@)),
            None => None,
        },
        CodexReleaseChannel::Beta => match t.beta {
            Some(v) => Some((c, v@)),
            None => None,
        },
        CodexReleaseChannel::Nightly => match t.nightly {
            Some(v) => Some((c, v@)),
            None => None,
        },
        CodexReleaseChannel::Custom => None,
    }
}

/// The release chosen for a channel: the channel's own entry when present, otherwise the
/// most stable track available (stable, then beta, then nightly). Returns the release, the
/// channel compared against, and whether that channel differs from the requested one.
pub open spec fn selection(t: CodexLatestReleases, c: CodexReleaseChannel) -> (Option<ReleaseView>, CodexReleaseChannel, bool) {
    match release_in_table(t, c) {
        Some(r) => (Some(r), c, false),
        None => {
            let fallback = if release_in_table(t, CodexReleaseChannel::Stable) is Some {
                release_in_table(t, CodexReleaseChannel::Stable)
            } else if release_in_table(t, CodexReleaseChannel::Beta) is Some {
                release_in_table(t, CodexReleaseChannel::Beta)
            } else {
                release_in_table(t, CodexReleaseChannel::Nightly)
            };
            let ch = match fallback {
                Some(r) => r.0,
                None => c,
            };
            (fallback, ch, ch != c)
        },
    }
}

impl CodexLatestReleases {
    fn release_for_channel(&self, channel: CodexReleaseChannel) -> (r: Option<CodexRelease>)
        ensures
            release_view(r) == release_in_table(*self, channel),
    {
        match channel {
            CodexReleaseChannel::Stable => release_of(channel, &self.stable),
            CodexReleaseChannel::Beta => release_of(channel, &self.beta),
            CodexReleaseChannel::Nightly => release_of(channel, &self.nightly),
            CodexReleaseChannel::Custom => None,
        }
    }

    /// The most appropriate latest release for `channel`, falling back to a more stable
    /// track when the channel has no entry.
    pub fn select_for_channel(&self, channel: CodexReleaseChannel) -> (r: (
        Option<CodexRelease>,
        CodexReleaseChannel,
        bool,
    ))
        ensures
            (release_view(r.0), r.1, r.2) == selection(*self, channel),
    {
        match self.release_for_channel(channel) {
            Some(release) => {
                return (Some(release), channel, false);
            },
            None => {},
        }
        let fallback = match self.release_for_channel(CodexReleaseChannel::Stable) {
            Some(r) => Some(r),
            None => match self.release_for_channel(CodexReleaseChannel::Beta) {
                Some(r) => Some(r),
                None => self.release_for_channel(CodexReleaseChannel::Nightly),
            },
        };
        let fallback_channel = match &fallback {
            Some(r) => r.channel,
            None => channel,
        };
        let fell_back = fallback_channel != channel;
        (fallback, fallback_channel, fell_back)
    }
}

/// Whether an update is needed based on the provided release data.
#[derive(Clone, Copy, Debug, PartialEq, Eq, Structural)]
pub enum CodexUpdateStatus {
    UpToDate,
    UpdateRecommended,
    LocalNewerThanKnown,
    UnknownLocalVersion,
    UnknownLatestVersion,
}

/// Update guidance derived from comparing local and latest Codex versions.
#[derive(Debug)]
pub struct CodexUpdateAdvisory {
    pub local_release: Option<CodexRelease>,
    pub latest_release: Option<CodexRelease>,
    pub comparison_channel: CodexReleaseChannel,
    pub status: CodexUpdateStatus,
    pub notes: Vec<String>,
}

impl CodexUpdateAdvisory {
    /// True when the host should prompt for or attempt an update.
    pub fn is_update_recommended(&self) -> (r: bool)
        ensures
            r == (self.status == CodexUpdateStatus::UpdateRecommended || self.status
                == CodexUpdateStatus::UnknownLocalVersion),
    {
        matches!(
            self.status,
            CodexUpdateStatus::UpdateRecommended | CodexUpdateStatus::UnknownLocalVersion
        )
    }
}

/// The semantic version of a local build: the version in its raw text, else the parsed
/// triplet with the channel's pre-release tag (`beta`, `nightly`) when it has one.
pub open spec fn local_semver(info: CodexVersionInfo) -> Option<SemverView> {
    match semver_in_text(info.raw@) {
        Some(v) => Some(v),
        None => match info.semantic {
            None => None,
            Some((a, b, c)) => match info.channel {
                CodexReleaseChannel::Beta => Some((a, b, c, "beta"@, Seq::empty())),
                CodexReleaseChannel::Nightly => Some((a, b, c, "nightly"@, Seq::empty())),
                _ => Some((a, b, c, Seq::empty(), Seq::empty())),
            },
        },
    }
}

/// The semantic version of a local build (see [`local_semver`]): the version found in its
/// raw text, else its parsed triplet tagged with its pre-release channel.
pub fn codex_semver(info: &CodexVersionInfo) -> (r: Option<SemanticVersion>)
    ensures
        version_view(r) == local_semver(*info),
{
    match parse_semver_from_raw(info.raw.as_str()) {
        Some(v) => {
            return Some(v);
        },
        None => {},
    }
    match info.semantic {
        None => None,
        Some((major, minor, patch)) => semver_with_prerelease_for_channel(
            major,
            minor,
            patch,
            info.channel,
        ),
    }
}

pub open spec fn local_release_of(info: Option<CodexVersionInfo>) -> Option<ReleaseView> {
    match info {
        Some(i) => match local_semver(i) {
            Some(v) => Some((i.channel, v)),
            None => None,
        },
        None => None,
    }
}

/// The channel and semantic version of a local build, when it has a semantic version.
pub fn codex_release_from_info(info: &CodexVersionInfo) -> (r: Option<CodexRelease>)
    ensures
        release_view(r) == local_release_of(Some(*info)),
{
    match codex_semver(info) {
        Some(version) => Some(CodexRelease { channel: info.channel, version }),
        None => None,
    }
}

/// Update status for a local and a latest release.
pub open spec fn update_status(local: Option<ReleaseView>, latest: Option<ReleaseView>) -> CodexUpdateStatus {
    match (local, latest) {
        (None, None) => CodexUpdateStatus::UnknownLatestVersion,
        (None, Some(_)) => CodexUpdateStatus::UnknownLocalVersion,
        (Some(_), None) => CodexUpdateStatus::UnknownLatestVersion,
        (Some(l), Some(t)) => match semver_order(l.1, t.1) {
            Precedence::Lower => CodexUpdateStatus::UpdateRecommended,
            Precedence::Higher => CodexUpdateStatus::LocalNewerThanKnown,
            Precedence::Same => CodexUpdateStatus::UpToDate,
        },
    }
}

/// The note describing a status.
pub open spec fn status_notes(
    status: CodexUpdateStatus,
    local: Option<ReleaseView>,
    latest: Option<ReleaseView>,
    cmp: CodexReleaseChannel,
) -> Seq<Seq<char>> {
    match status {
        CodexUpdateStatus::UpdateRecommended => match (local, latest) {
            (Some(l), Some(t)) => seq![
                "Local codex "@ + version_text(l.1) + " is behind latest "@ + channel_label(cmp)
                    + " "@ + version_text(t.1) + "."@,
            ],
            _ => Seq::empty(),
        },
        CodexUpdateStatus::LocalNewerThanKnown => match local {
            Some(l) => seq![
                "Local codex "@ + version_text(l.1) + " is newer than provided "@ + channel_label(cmp)
                    + " metadata (latest table: "@ + match latest {
                    Some(t) => version_text(t.1),
                    None => "unknown"@,
                } + ")."@,
            ],
            None => Seq::empty(),
        },
        CodexUpdateStatus::UnknownLocalVersion => match latest {
            Some(t) => seq![
                "Latest known "@ + channel_label(cmp) + " release is "@ + version_text(t.1)
                    + "; local version could not be parsed."@,
            ],
            None => seq!["Local version could not be parsed and no latest release was provided."@],
        },
        CodexUpdateStatus::UnknownLatestVersion => seq![
            "No latest Codex release information provided; update advisory unavailable."@,
        ],
        CodexUpdateStatus::UpToDate => match latest {
            Some(t) => seq![
                "Local codex matches latest "@ + channel_label(cmp) + " release "@ + version_text(t.1)
                    + "."@,
            ],
            None => Seq::empty(),
        },
    }
}

fn cat_chars(parts: &mut Vec<char>, lit_text: &str)
    ensures
        final(parts)@ == old(parts)@ + lit_text@,
{
    let v = lit(lit_text);
    push_all(parts, v.as_slice());
}

fn version_chars(v: &SemanticVersion) -> (r: Vec<char>)
    ensures
        r@ == version_text(v@),
{
    let s = v.to_text();
    lit(s.as_str())
}

fn status_note(
    status: CodexUpdateStatus,
    local: &Option<CodexRelease>,
    latest: &Option<CodexRelease>,
    cmp: CodexReleaseChannel,
    notes: &mut Vec<String>,
)
    ensures
        string_views(final(notes)@) == string_views(old(notes)@) + status_notes(
            status,
            release_view(*local),
            release_view(*latest),
            cmp,
        ),
{
    let label = cmp.label();
    let ghost before = string_views(notes@);
    match status {
        CodexUpdateStatus::UpdateRecommended => {
            match (local, latest) {
                (Some(l), Some(t)) => {
                    let mut v = lit("Local codex ");
                    let lv = version_chars(&l.version);
                    push_all(&mut v, lv.as_slice());
                    cat_chars(&mut v, " is behind latest ");
                    push_all(&mut v, label.as_slice());
                    cat_chars(&mut v, " ");
                    let tv = version_chars(&t.version);
                    push_all(&mut v, tv.as_slice());
                    cat_chars(&mut v, ".");
                    notes.push(string_of(v.as_slice()));
                },
                _ => {},
            }
        },
        CodexUpdateStatus::LocalNewerThanKnown => {
            match local {
                Some(l) => {
                    let mut v = lit("Local codex ");
                    let lv = version_chars(&l.version);
                    push_all(&mut v, lv.as_slice());
                    cat_chars(&mut v, " is newer than provided ");
                    push_all(&mut v, label.as_slice());
                    cat_chars(&mut v, " metadata (latest table: ");
                    match latest {
                        Some(t) => {
                            let tv = version_chars(&t.version);
                            push_all(&mut v, tv.as_slice());
                        },
                        None => {
                            cat_chars(&mut v, "unknown");
                        },
                    }
                    cat_chars(&mut v, ").");
                    notes.push(string_of(v.as_slice()));
                },
                None => {},
            }
        },
        CodexUpdateStatus::UnknownLocalVersion => {
            match latest {
                Some(t) => {
                    let mut v = lit("Latest known ");
                    push_all(&mut v, label.as_slice());
                    cat_chars(&mut v, " release is ");
                    let tv = version_chars(&t.version);
                    push_all(&mut v, tv.as_slice());
                    cat_chars(&mut v, "; local version could not be parsed.");
                    notes.push(string_of(v.as_slice()));
                },
                None => {
                    let v = lit(
                        "Local version could not be parsed and no latest release was provided.",
                    );
                    notes.push(string_of(v.as_slice()));
                },
            }
        },
        CodexUpdateStatus::UnknownLatestVersion => {
            let v = lit(
                "No latest Codex release information provided; update advisory unavailable.",
            );
            notes.push(string_of(v.as_slice()));
        },
        CodexUpdateStatus::UpToDate => {
            match latest {
                Some(t) => {
                    let mut v = lit("Local codex matches latest ");
                    push_all(&mut v, label.as_slice());
                    cat_chars(&mut v, " release ");
                    let tv = version_chars(&t.version);
                    push_all(&mut v, tv.as_slice());
                    cat_chars(&mut v, ".");
                    notes.push(string_of(v.as_slice()));
                },
                None => {},
            }
        },
    }
    assert(string_views(notes@) =~= before + status_notes(
        status,
        release_view(*local),
        release_view(*latest),
        cmp,
    ));
}

/// The advisory computed from a snapshot's version and a release table.
pub open spec fn advisory_matches(caps: CodexCapabilities, latest: CodexLatestReleases, r: CodexUpdateAdvisory) -> bool {
    let local = local_release_of(caps.version);
    let preferred = match local {
        Some(l) => l.0,
        None => CodexReleaseChannel::Stable,
    };
    let sel = selection(latest, preferred);
    let status = update_status(local, sel.0);
    &&& release_view(r.local_release) == local
    &&& release_view(r.latest_release) == sel.0
    &&& r.comparison_channel == sel.1
    &&& r.status == status
    &&& string_views(r.notes@) == (if sel.2 {
        seq![
            "No latest "@ + channel_label(preferred) + " release provided; comparing against "@
                + channel_label(sel.1) + "."@,
        ]
    } else {
        Seq::empty()
    }) + status_notes(status, local, sel.0, sel.1)
}

/// Computes an update advisory for a previously probed binary.
pub fn update_advisory_from_capabilities(
    capabilities: &CodexCapabilities,
    latest_releases: &CodexLatestReleases,
) -> (r: CodexUpdateAdvisory)
    ensures
        advisory_matches(*capabilities, *latest_releases, r),
{
    let local_release = match &capabilities.version {
        Some(info) => codex_release_from_info(info),
        None => None,
    };
    let preferred_channel = match &local_release {
        Some(release) => release.channel,
        None => CodexReleaseChannel::Stable,
    };
    let (latest_release, comparison_channel, fell_back) = latest_releases.select_for_channel(
        preferred_channel,
    );
    let mut notes: Vec<String> = Vec::new();
    if fell_back {
        let mut v = lit("No latest ");
        let p = preferred_channel.label();
        push_all(&mut v, p.as_slice());
        cat_chars(&mut v, " release provided; comparing against ");
        let c = comparison_channel.label();
        push_all(&mut v, c.as_slice());
        cat_chars(&mut v, ".");
        notes.push(string_of(v.as_slice()));
    }
    let ghost first = string_views(notes@);
    assert(first =~= (if fell_back {
        seq![
            "No latest "@ + channel_label(preferred_channel) + " release provided; comparing against "@
                + channel_label(comparison_channel) + "."@,
        ]
    } else {
        Seq::empty()
    }));
    let status = match (&local_release, &latest_release) {
        (None, None) => CodexUpdateStatus::UnknownLatestVersion,
        (None, Some(_)) => CodexUpdateStatus::UnknownLocalVersion,
        (Some(_), None) => CodexUpdateStatus::UnknownLatestVersion,
        (Some(local), Some(latest)) => match local.version.compare(&latest.version) {
            Precedence::Lower => CodexUpdateStatus::UpdateRecommended,
            Precedence::Higher => CodexUpdateStatus::LocalNewerThanKnown,
            Precedence::Same => CodexUpdateStatus::UpToDate,
        },
    };
    status_note(status, &local_release, &latest_release, comparison_channel, &mut notes);
    CodexUpdateAdvisory { local_release, latest_release, comparison_channel, status, notes }
}

/// A channel with an entry in the table is compared against that entry. A channel without one
/// falls back to the most stable track the table has: the stable entry when there is one, else
/// the beta entry, else the nightly entry; the result then names that track and says that it
/// fell back when it is not the channel asked for. An empty table gives no release and no
/// fallback.
pub proof fn law_selection_prefers_most_stable(t: CodexLatestReleases, c: CodexReleaseChannel)
    ensures
        c == CodexReleaseChannel::Stable && t.stable is Some ==> selection(t, c) == (
            Some((c, t.stable->0@)),
            c,
            false,
        ),
        c == CodexReleaseChannel::Beta && t.beta is Some ==> selection(t, c) == (Some((c, t.beta->0@)), c, false),
        c == CodexReleaseChannel::Nightly && t.nightly is Some ==> selection(t, c) == (
            Some((c, t.nightly->0@)),
            c,
            false,
        ),
        release_in_table(t, c) is None && t.stable is Some ==> selection(t, c) == (
            Some((CodexReleaseChannel::Stable, t.stable->0@)),
            CodexReleaseChannel::Stable,
            c != CodexReleaseChannel::Stable,
        ),
        release_in_table(t, c) is None && t.stable is None && t.beta is Some ==> selection(t, c) == (
            Some((CodexReleaseChannel::Beta, t.beta->0@)),
            CodexReleaseChannel::Beta,
            c != CodexReleaseChannel::Beta,
        ),
        release_in_table(t, c) is None && t.stable is None && t.beta is None && t.nightly is Some
            ==> selection(t, c) == (
            Some((CodexReleaseChannel::Nightly, t.nightly->0@)),
            CodexReleaseChannel::Nightly,
            c != CodexReleaseChannel::Nightly,
        ),
        t.stable is None && t.beta is None && t.nightly is None ==> selection(t, c) == (
            None::<ReleaseView>,
            c,
            false,
        ),
        c == CodexReleaseChannel::Custom ==> release_in_table(t, c) is None,
{
}

} // verus!
