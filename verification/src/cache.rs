//! The in-process capability cache: one snapshot per canonical binary path, plus the cache
//! decisions a capability probe makes before and after it runs.

use vstd::prelude::*;
use crate::capabilities::{
    clone_fingerprint, finalize_capabilities_with_overrides, fingerprint_view, fingerprints_match,
    overridden, overrides_applied, plan_after_overrides, BinaryFingerprint, CapabilityCachePolicy,
    CapabilityCacheKey, CapabilityOverrides, CapabilityProbeStep, CodexCapabilities,
    CodexFeatureFlags,
};
use crate::time::Timestamp;
use crate::version::CodexVersionInfo;
use crate::path::{same_path, PathKey};

verus! {

/// Plain view of a snapshot: key path, fingerprint, version, flags, probe steps, time.
pub type CapsView = (
    Seq<char>,
    Option<BinaryFingerprint>,
    Option<CodexVersionInfo>,
    CodexFeatureFlags,
    Seq<CapabilityProbeStep>,
    Timestamp,
);

pub open spec fn caps_view(c: CodexCapabilities) -> CapsView {
    (c.cache_key.binary_path@, c.fingerprint, c.version, c.features, c.probe_plan.steps@, c.collected_at)
}

/// The map a sequence of snapshots describes; a later entry for a key shadows earlier ones.
pub open spec fn as_map(s: Seq<CodexCapabilities>) -> Map<PathKey, CapsView>
    decreases s.len(),
{
    if s.len() == 0 {
        Map::empty()
    } else {
        as_map(s.drop_last()).insert(s.last().cache_key.components(), caps_view(s.last()))
    }
}

/// The entries of `s` whose key differs from `k`, in order.
pub open spec fn without_key(s: Seq<CodexCapabilities>, k: PathKey) -> Seq<CodexCapabilities>
    decreases s.len(),
{
    if s.len() == 0 {
        s
    } else if s.last().cache_key.components() == k {
        without_key(s.drop_last(), k)
    } else {
        without_key(s.drop_last(), k).push(s.last())
    }
}

pub open spec fn keys_unique(s: Seq<CodexCapabilities>) -> bool {
    forall|i: int, j: int|
        0 <= i < j < s.len() ==> s[i].cache_key.components() != s[j].cache_key.components()
}

proof fn lemma_without_key(s: Seq<CodexCapabilities>, k: PathKey)
    ensures
        as_map(without_key(s, k)) == as_map(s).remove(k),
        forall|i: int|
            0 <= i < without_key(s, k).len() ==> (#[trigger] without_key(s, k)[i]).cache_key.components()
                != k,
        forall|i: int|
            0 <= i < without_key(s, k).len() ==> s.contains(#[trigger] without_key(s, k)[i]),
        keys_unique(s) ==> keys_unique(without_key(s, k)),
    decreases s.len(),
{
    if s.len() > 0 {
        let d = s.drop_last();
        lemma_without_key(d, k);
        let w = without_key(d, k);
        assert forall|i: int| 0 <= i < w.len() implies s.contains(#[trigger] w[i]) by {
            let j = choose|j: int| 0 <= j < d.len() && d[j] == w[i];
            assert(s[j] == w[i]);
        }
        if s.last().cache_key.components() == k {
            assert(as_map(s).remove(k) =~= as_map(d).remove(k));
        } else {
            assert(as_map(s).remove(k) =~= as_map(d).remove(k).insert(
                s.last().cache_key.components(),
                caps_view(s.last()),
            ));
            let w2 = w.push(s.last());
            assert(w2.drop_last() =~= w);
            assert forall|i: int| 0 <= i < w2.len() implies s.contains(#[trigger] w2[i]) by {
                if i == w.len() {
                    assert(s[s.len() - 1] == w2[i]);
                } else {
                    assert(w2[i] == w[i]);
                }
            }
            if keys_unique(s) {
                assert(keys_unique(d));
                assert forall|i: int, j: int| 0 <= i < j < w2.len() implies w2[i].cache_key.components()
                    != w2[j].cache_key.components() by {
                    if j == w.len() {
                        assert(w2[i] == w[i]);
                        assert(s.contains(w[i]));
                        let m = choose|m: int| 0 <= m < s.len() && s[m] == w[i];
                        assert(d.contains(w[i]));
                        let m2 = choose|m2: int| 0 <= m2 < d.len() && d[m2] == w[i];
                        assert(s[m2] == w[i]);
                        assert(m2 < s.len() - 1);
                    } else {
                        assert(w2[i] == w[i] && w2[j] == w[j]);
                    }
                }
            }
        }
    }
}

proof fn lemma_lookup_unique(s: Seq<CodexCapabilities>, i: int)
    requires
        keys_unique(s),
        0 <= i < s.len(),
    ensures
        as_map(s).contains_key(s[i].cache_key.components()),
        as_map(s)[s[i].cache_key.components()] == caps_view(s[i]),
    decreases s.len(),
{
    if i < s.len() - 1 {
        lemma_lookup_unique(s.drop_last(), i);
        assert(s.drop_last()[i] == s[i]);
    }
}

proof fn lemma_absent(s: Seq<CodexCapabilities>, k: PathKey)
    requires
        forall|i: int| 0 <= i < s.len() ==> (#[trigger] s[i]).cache_key.components() != k,
    ensures
        !as_map(s).contains_key(k),
    decreases s.len(),
{
    if s.len() > 0 {
        lemma_absent(s.drop_last(), k);
    }
}

proof fn lemma_domain(s: Seq<CodexCapabilities>)
    requires
        keys_unique(s),
    ensures
        as_map(s).dom().len() == s.len(),
        as_map(s).dom().finite(),
    decreases s.len(),
{
    if s.len() > 0 {
        let d = s.drop_last();
        lemma_domain(d);
        lemma_absent(d, s.last().cache_key.components());
    }
}

/// The in-process capability cache.
#[derive(Debug)]
pub struct CapabilityCache {
    entries: Vec<CodexCapabilities>,
}

impl CapabilityCache {
    /// One snapshot per key.
    pub closed spec fn wf(&self) -> bool {
        keys_unique(self.entries@)
    }

    /// The cache as a map from binary path to snapshot.
    pub closed spec fn view_map(&self) -> Map<PathKey, CapsView> {
        as_map(self.entries@)
    }

    /// An empty cache.
    pub fn new() -> (r: Self)
        ensures
            r.wf(),
            r.view_map() == Map::<PathKey, CapsView>::empty(),
    {
        CapabilityCache { entries: Vec::new() }
    }

    /// All cached snapshots, one per key.
    pub fn entries(&self) -> (r: Vec<CodexCapabilities>)
        requires
            self.wf(),
        ensures
            r@.len() == self.view_map().dom().len(),
            keys_unique(r@),
            forall|i: int|
                0 <= i < r@.len() ==> self.view_map().contains_key(
                    (#[trigger] r@[i]).cache_key.components(),
                ) && self.view_map()[r@[i].cache_key.components()] == caps_view(r@[i]),
    {
        let mut r: Vec<CodexCapabilities> = Vec::new();
        let mut i: usize = 0;
        proof {
            lemma_domain(self.entries@);
        }
        while i < self.entries.len()
            invariant
                i <= self.entries.len(),
                keys_unique(self.entries@),
                r@.len() == i,
                forall|j: int| 0 <= j < i ==> caps_view(#[trigger] r@[j]) == caps_view(self.entries@[j]),
            decreases self.entries.len() - i,
        {
            r.push(self.entries[i].duplicate());
            i = i + 1;
        }
        proof {
            assert forall|a: int, b: int| 0 <= a < b < r@.len() implies r@[a].cache_key.components()
                != r@[b].cache_key.components() by {
                assert(caps_view(r@[a]) == caps_view(self.entries@[a]));
                assert(caps_view(r@[b]) == caps_view(self.entries@[b]));
            }
            assert forall|j: int| 0 <= j < r@.len() implies self.view_map().contains_key(
                (#[trigger] r@[j]).cache_key.components(),
            ) && self.view_map()[r@[j].cache_key.components()] == caps_view(r@[j]) by {
                assert(caps_view(r@[j]) == caps_view(self.entries@[j]));
                lemma_lookup_unique(self.entries@, j);
            }
        }
        r
    }

    fn index_of(&self, key: &CapabilityCacheKey) -> (r: Option<usize>)
        requires
            self.wf(),
        ensures
            match r {
                Some(i) => i < self.entries@.len() && self.entries@[i as int].cache_key.components()
                    == key.components(),
                None => forall|i: int|
                    0 <= i < self.entries@.len() ==> (#[trigger] self.entries@[i]).cache_key.components()
                        != key.components(),
            },
    {
        let mut i: usize = 0;
        while i < self.entries.len()
            invariant
                i <= self.entries.len(),
                forall|j: int|
                    0 <= j < i ==> (#[trigger] self.entries@[j]).cache_key.components()
                        != key.components(),
            decreases self.entries.len() - i,
        {
            if same_path(self.entries[i].cache_key.binary_path.as_str(), key.binary_path.as_str()) {
                return Some(i);
            }
            i = i + 1;
        }
        None
    }

    /// The snapshot cached for `key`, if any.
    pub fn get(&self, key: &CapabilityCacheKey) -> (r: Option<CodexCapabilities>)
        requires
            self.wf(),
        ensures
            match r {
                Some(c) => self.view_map().contains_key(key.components()) && self.view_map()[key.components()]
                    == caps_view(c),
                None => !self.view_map().contains_key(key.components()),
            },
    {
        match self.index_of(key) {
            Some(i) => {
                proof {
                    lemma_lookup_unique(self.entries@, i as int);
                }
                Some(self.entries[i].duplicate())
            },
            None => {
                proof {
                    lemma_absent(self.entries@, key.components());
                }
                None
            },
        }
    }

    /// Removes the snapshot cached for `key`; true when one was removed.
    pub fn remove(&mut self, key: &CapabilityCacheKey) -> (r: bool)
        requires
            old(self).wf(),
        ensures
            final(self).wf(),
            r == old(self).view_map().contains_key(key.components()),
            final(self).view_map() == old(self).view_map().remove(key.components()),
    {
        let ghost before = self.entries@;
        let found = self.index_of(key);
        proof {
            match found {
                Some(i) => lemma_lookup_unique(before, i as int),
                None => lemma_absent(before, key.components()),
            }
        }
        self.drop_key(key);
        found.is_some()
    }

    fn drop_key(&mut self, key: &CapabilityCacheKey)
        requires
            old(self).wf(),
        ensures
            final(self).wf(),
            final(self).entries@ == without_key(old(self).entries@, key.components()),
            final(self).view_map() == old(self).view_map().remove(key.components()),
            forall|i: int|
                0 <= i < final(self).entries@.len() ==> (#[trigger] final(self).entries@[i]).cache_key.components()
                    != key.components(),
    {
        let ghost before = self.entries@;
        let mut kept: Vec<CodexCapabilities> = Vec::new();
        let mut rest: Vec<CodexCapabilities> = Vec::new();
        std::mem::swap(&mut rest, &mut self.entries);
        let n = rest.len();
        let mut i: usize = 0;
        while i < n
            invariant
                i <= n == before.len(),
                rest@ == before.subrange(i as int, n as int),
                kept@ == without_key(before.subrange(0, i as int), key.components()),
            decreases n - i,
        {
            let e = rest.remove(0);
            assert(e == before[i as int]);
            assert(before.subrange(0, i + 1).drop_last() =~= before.subrange(0, i as int));
            assert(rest@ =~= before.subrange(i + 1, n as int));
            if !same_path(e.cache_key.binary_path.as_str(), key.binary_path.as_str()) {
                kept.push(e);
            }
            i = i + 1;
        }
        assert(before.subrange(0, n as int) =~= before);
        proof {
            lemma_without_key(before, key.components());
        }
        self.entries = kept;
    }

    /// Removes every snapshot.
    pub fn clear(&mut self)
        ensures
            final(self).wf(),
            final(self).view_map() == Map::<PathKey, CapsView>::empty(),
    {
        self.entries = Vec::new();
    }

    /// `update_capability_cache`: stores a snapshot under its key, replacing any previous one,
    /// unless it has no fingerprint (such snapshots are never cached).
    pub fn update(&mut self, capabilities: CodexCapabilities)
        requires
            old(self).wf(),
        ensures
            final(self).wf(),
            final(self).view_map() == if capabilities.fingerprint is Some {
                old(self).view_map().insert(
                    capabilities.cache_key.components(),
                    caps_view(capabilities),
                )
            } else {
                old(self).view_map()
            },
    {
        if capabilities.fingerprint.is_none() {
            return;
        }
        let key = capabilities.cache_key.clone();
        self.drop_key(&key);
        let ghost mid = self.entries@;
        self.entries.push(capabilities);
        proof {
            let s = self.entries@;
            assert(s.drop_last() =~= mid);
            assert forall|i: int, j: int| 0 <= i < j < s.len() implies s[i].cache_key.components()
                != s[j].cache_key.components() by {
                if j == s.len() - 1 {
                    assert(s[i] == mid[i]);
                } else {
                    assert(s[i] == mid[i] && s[j] == mid[j]);
                }
            }
        }
    }

    /// `cached_capabilities`: the cached snapshot for `key` when both it and the current
    /// fingerprint are present and equal.
    pub fn cached_capabilities(
        &self,
        key: &CapabilityCacheKey,
        fingerprint: &Option<BinaryFingerprint>,
    ) -> (r: Option<CodexCapabilities>)
        requires
            self.wf(),
        ensures
            match r {
                Some(c) => self.view_map().contains_key(key.components()) && self.view_map()[key.components()]
                    == caps_view(c) && c.fingerprint is Some && fingerprint is Some && fingerprint_view(
                    c.fingerprint,
                ) == fingerprint_view(*fingerprint),
                None => !self.view_map().contains_key(key.components()) || self.view_map()[key.components()].1 is None
                    || fingerprint is None || fingerprint_view(self.view_map()[key.components()].1)
                    != fingerprint_view(*fingerprint),
            },
    {
        let cached = match self.get(key) {
            Some(c) => c,
            None => {
                return None;
            },
        };
        if cached.fingerprint.is_none() || fingerprint.is_none() {
            return None;
        }
        if fingerprints_match(&cached.fingerprint, fingerprint) {
            Some(cached)
        } else {
            None
        }
    }
}


/// The view of `finalize_capabilities_with_overrides`' result.
pub open spec fn finalized_view(
    c: CapsView,
    overrides: CapabilityOverrides,
    key: Seq<char>,
    fingerprint: Option<BinaryFingerprint>,
    manual: bool,
) -> CapsView {
    (
        key,
        fingerprint,
        match overrides.version {
            Some(v) => Some(v),
            None => c.2,
        },
        overridden(c.3, overrides.features),
        plan_after_overrides(c.4, overrides_applied(&overrides, manual)),
        c.5,
    )
}

/// Cache reads happen under `PreferCache` when the binary has a fingerprint.
pub open spec fn reads_enabled(policy: CapabilityCachePolicy, fingerprint: Option<BinaryFingerprint>) -> bool {
    policy == CapabilityCachePolicy::PreferCache && fingerprint is Some
}

/// Cache writes happen unless bypassing, when the binary has a fingerprint.
pub open spec fn writes_enabled(policy: CapabilityCachePolicy, fingerprint: Option<BinaryFingerprint>) -> bool {
    policy != CapabilityCachePolicy::Bypass && fingerprint is Some
}

/// A usable cache hit: an entry for the key whose fingerprint is present and equals the
/// binary's current one.
pub open spec fn cache_hit(m: Map<PathKey, CapsView>, key: PathKey, fingerprint: Option<BinaryFingerprint>) -> bool {
    m.contains_key(key) && m[key].1 is Some && fingerprint is Some && fingerprint_view(m[key].1)
        == fingerprint_view(fingerprint)
}

impl CapabilityCache {
    /// The part of `probe_capabilities_with_policy` that runs before probing: a manual
    /// snapshot wins; otherwise a usable cache hit is returned (with overrides applied when
    /// there are any); `None` means the binary must be probed.
    pub fn resolve_without_probe(
        &mut self,
        cache_key: &CapabilityCacheKey,
        fingerprint: &Option<BinaryFingerprint>,
        overrides: &CapabilityOverrides,
        policy: CapabilityCachePolicy,
    ) -> (r: Option<CodexCapabilities>)
        requires
            old(self).wf(),
        ensures
            final(self).wf(),
            match overrides.snapshot {
                Some(snap) => {
                    let v = finalized_view(caps_view(snap), *overrides, cache_key.binary_path@, *fingerprint, true);
                    &&& r matches Some(c) && caps_view(c) == v
                    &&& final(self).view_map() == if writes_enabled(policy, *fingerprint) {
                        old(self).view_map().insert(cache_key.components(), v)
                    } else {
                        old(self).view_map()
                    }
                },
                None => if reads_enabled(policy, *fingerprint) && cache_hit(
                    old(self).view_map(),
                    cache_key.components(),
                    *fingerprint,
                ) {
                    let cached = old(self).view_map()[cache_key.components()];
                    if overrides.spec_is_empty() {
                        r matches Some(c) && caps_view(c) == cached && final(self).view_map()
                            == old(self).view_map()
                    } else {
                        let v = finalized_view(cached, *overrides, cache_key.binary_path@, *fingerprint, false);
                        &&& r matches Some(c) && caps_view(c) == v
                        &&& final(self).view_map() == if writes_enabled(policy, *fingerprint) {
                            old(self).view_map().insert(cache_key.components(), v)
                        } else {
                            old(self).view_map()
                        }
                    }
                } else {
                    r is None && final(self).view_map() == old(self).view_map()
                },
            },
    {
        let reads = match policy {
            CapabilityCachePolicy::PreferCache => fingerprint.is_some(),
            _ => false,
        };
        let writes = match policy {
            CapabilityCachePolicy::Bypass => false,
            _ => fingerprint.is_some(),
        };
        match &overrides.snapshot {
            Some(snapshot) => {
                let capabilities = finalize_capabilities_with_overrides(
                    snapshot.duplicate(),
                    overrides,
                    cache_key.clone(),
                    clone_fingerprint(fingerprint),
                    true,
                );
                if writes {
                    self.update(capabilities.duplicate());
                }
                return Some(capabilities);
            },
            None => {},
        }
        if reads {
            match self.cached_capabilities(cache_key, fingerprint) {
                Some(cached) => {
                    if overrides.is_empty() {
                        return Some(cached);
                    }
                    let merged = finalize_capabilities_with_overrides(
                        cached,
                        overrides,
                        cache_key.clone(),
                        clone_fingerprint(fingerprint),
                        false,
                    );
                    if writes {
                        self.update(merged.duplicate());
                    }
                    return Some(merged);
                },
                None => {},
            }
        }
        None
    }

    /// The part of `probe_capabilities_with_policy` that runs after probing: applies the
    /// overrides to the probed snapshot and caches it when writes are enabled.
    pub fn store_probe(
        &mut self,
        probed: CodexCapabilities,
        cache_key: &CapabilityCacheKey,
        fingerprint: &Option<BinaryFingerprint>,
        overrides: &CapabilityOverrides,
        policy: CapabilityCachePolicy,
    ) -> (r: CodexCapabilities)
        requires
            old(self).wf(),
        ensures
            final(self).wf(),
            caps_view(r) == finalized_view(caps_view(probed), *overrides, cache_key.binary_path@, *fingerprint, false),
            final(self).view_map() == if writes_enabled(policy, *fingerprint) {
                old(self).view_map().insert(cache_key.components(), caps_view(r))
            } else {
                old(self).view_map()
            },
    {
        let writes = match policy {
            CapabilityCachePolicy::Bypass => false,
            _ => fingerprint.is_some(),
        };
        let capabilities = finalize_capabilities_with_overrides(
            probed,
            overrides,
            cache_key.clone(),
            clone_fingerprint(fingerprint),
            false,
        );
        if writes {
            self.update(capabilities.duplicate());
        }
        capabilities
    }
}


/// `capability_cache_entries`: every snapshot in `cache`, one per key.
pub fn capability_cache_entries(cache: &CapabilityCache) -> (r: Vec<CodexCapabilities>)
    requires
        cache.wf(),
    ensures
        r@.len() == cache.view_map().dom().len(),
        keys_unique(r@),
        forall|i: int|
            0 <= i < r@.len() ==> cache.view_map().contains_key(
                (#[trigger] r@[i]).cache_key.components(),
            ) && cache.view_map()[r@[i].cache_key.components()] == caps_view(r@[i]),
{
    cache.entries()
}

/// `capability_cache_entry`: the snapshot cached for `key`, if any.
pub fn capability_cache_entry(cache: &CapabilityCache, key: &CapabilityCacheKey) -> (r: Option<
    CodexCapabilities,
>)
    requires
        cache.wf(),
    ensures
        match r {
            Some(c) => cache.view_map().contains_key(key.components()) && cache.view_map()[key.components()]
                == caps_view(c),
            None => !cache.view_map().contains_key(key.components()),
        },
{
    cache.get(key)
}

/// `clear_capability_cache_entry`: drops the snapshot for `key`; true when one was there.
pub fn clear_capability_cache_entry(cache: &mut CapabilityCache, key: &CapabilityCacheKey) -> (r:
    bool)
    requires
        old(cache).wf(),
    ensures
        final(cache).wf(),
        r == old(cache).view_map().contains_key(key.components()),
        final(cache).view_map() == old(cache).view_map().remove(key.components()),
{
    cache.remove(key)
}

/// `clear_capability_cache`: drops every snapshot.
pub fn clear_capability_cache(cache: &mut CapabilityCache)
    ensures
        final(cache).wf(),
        final(cache).view_map() == Map::<PathKey, CapsView>::empty(),
{
    cache.clear()
}

/// A snapshot applies to a binary when it was captured under the binary's cache key and both
/// it and the binary's current state carry equal fingerprints.
pub open spec fn snapshot_matches(
    snapshot: CodexCapabilities,
    key: PathKey,
    current: Option<BinaryFingerprint>,
) -> bool {
    &&& snapshot.cache_key.components() == key
    &&& snapshot.fingerprint is Some
    &&& current is Some
    &&& fingerprint_view(snapshot.fingerprint) == fingerprint_view(current)
}

/// `capability_snapshot_matches_binary`, given the binary's cache key and its current
/// fingerprint (the file metadata is read by the caller).
pub fn capability_snapshot_matches_binary(
    snapshot: &CodexCapabilities,
    cache_key: &CapabilityCacheKey,
    current: &Option<BinaryFingerprint>,
) -> (r: bool)
    ensures
        r == snapshot_matches(*snapshot, cache_key.components(), *current),
{
    if !same_path(snapshot.cache_key.binary_path.as_str(), cache_key.binary_path.as_str()) {
        return false;
    }
    snapshot.fingerprint.is_some() && current.is_some() && fingerprints_match(
        &snapshot.fingerprint,
        current,
    )
}

/// A snapshot stored with a fingerprint is a cache hit for that fingerprint afterwards, and
/// the hit gives the stored snapshot back; other keys are untouched.
pub proof fn law_stored_snapshot_is_hit(m: Map<PathKey, CapsView>, c: CodexCapabilities, other: PathKey)
    requires
        c.fingerprint is Some,
    ensures
        cache_hit(m.insert(c.cache_key.components(), caps_view(c)), c.cache_key.components(), c.fingerprint),
        m.insert(c.cache_key.components(), caps_view(c))[c.cache_key.components()] == caps_view(c),
        other != c.cache_key.components() ==> m.insert(c.cache_key.components(), caps_view(c)).contains_key(other)
            == m.contains_key(other),
{
}

/// After a key is removed there is no hit for it, whatever the fingerprint.
pub proof fn law_removed_key_misses(m: Map<PathKey, CapsView>, key: PathKey, fingerprint: Option<BinaryFingerprint>)
    ensures
        !cache_hit(m.remove(key), key, fingerprint),
{
}

/// A snapshot never hits once the binary's fingerprint changes.
pub proof fn law_changed_fingerprint_misses(
    m: Map<PathKey, CapsView>,
    key: PathKey,
    a: Option<BinaryFingerprint>,
    b: Option<BinaryFingerprint>,
)
    requires
        cache_hit(m, key, a),
        fingerprint_view(a) != fingerprint_view(b),
    ensures
        !cache_hit(m, key, b),
{
}

/// `Bypass` neither reads nor writes the cache, and a binary without a fingerprint is never
/// read from or written to it, under any policy.
pub proof fn law_cache_policy(policy: CapabilityCachePolicy, fingerprint: Option<BinaryFingerprint>)
    ensures
        !reads_enabled(CapabilityCachePolicy::Bypass, fingerprint),
        !writes_enabled(CapabilityCachePolicy::Bypass, fingerprint),
        !reads_enabled(policy, None),
        !writes_enabled(policy, None),
        reads_enabled(policy, fingerprint) ==> writes_enabled(policy, fingerprint),
{
}

} // verus!
