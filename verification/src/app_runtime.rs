//! App-server runtimes by name: a manager that keeps one launcher per name, and a pool that
//! tracks which runtimes are running so that a second start reuses the first. Spawning and
//! stopping the app-server processes is the caller's part; the pool records the outcome.

use vstd::prelude::*;
use crate::client::pair_views;
use crate::json::{clone_json, jview, JsonValue, JsonView};
use crate::mcp_config::{clone_pairs, clone_strings, opt_str, str_views, AppRuntimeEntry, McpConfigManager};
use crate::mcp_runtime::{app_launcher_of, app_runtime_of, AppRuntime, AppRuntimeLauncher, StdioServerConfig};
use crate::order::{lemma_lt_irreflexive, lemma_lt_total, lemma_lt_transitive, str_less, str_lt, strictly_sorted};
use crate::text::{chars_of, eq_chars};
use crate::time::TimeSpan;

verus! {

/// Plain view of a stdio config: binary, `CODEX_HOME`, directory, env, analytics flag,
/// mirroring, startup timeout.
pub type ConfigView = (
    Seq<char>,
    Option<Seq<char>>,
    Option<Seq<char>>,
    Seq<(Seq<char>, Seq<char>)>,
    bool,
    bool,
    TimeSpan,
);

pub open spec fn config_view(c: StdioServerConfig) -> ConfigView {
    (
        c.binary@,
        opt_str(c.code_home),
        opt_str(c.current_dir),
        pair_views(c.env@),
        c.app_server_analytics_default_enabled,
        c.mirror_stdio,
        c.startup_timeout,
    )
}

/// Plain view of an app launcher: name, description, tags, metadata, config.
pub type AppLauncherView = (Seq<char>, Option<Seq<char>>, Seq<Seq<char>>, JsonView, ConfigView);

pub open spec fn app_launcher_view(l: AppRuntimeLauncher) -> AppLauncherView {
    (l.name@, opt_str(l.description), str_views(l.tags@), jview(l.metadata), config_view(l.config))
}

fn clone_opt(o: &Option<String>) -> (r: Option<String>)
    ensures
        opt_str(r) == opt_str(*o),
{
    match o {
        Some(s) => Some(s.clone()),
        None => None,
    }
}

/// A copy of a stdio config with the same contents.
pub fn duplicate_config(c: &StdioServerConfig) -> (r: StdioServerConfig)
    ensures
        config_view(r) == config_view(*c),
{
    StdioServerConfig {
        binary: c.binary.clone(),
        code_home: clone_opt(&c.code_home),
        current_dir: clone_opt(&c.current_dir),
        env: clone_pairs(&c.env),
        app_server_analytics_default_enabled: c.app_server_analytics_default_enabled,
        mirror_stdio: c.mirror_stdio,
        startup_timeout: c.startup_timeout,
    }
}

impl AppRuntimeLauncher {
    /// A copy with the same contents.
    pub fn duplicate(&self) -> (r: Self)
        ensures
            app_launcher_view(r) == app_launcher_view(*self),
    {
        AppRuntimeLauncher {
            name: self.name.clone(),
            description: clone_opt(&self.description),
            tags: clone_strings(&self.tags),
            metadata: clone_json(&self.metadata),
            config: duplicate_config(&self.config),
        }
    }
}

impl AppRuntime {
    /// The launcher of a copy of this runtime (see [`AppRuntime::into_launcher`]); the runtime
    /// itself is kept.
    pub fn to_launcher(&self, defaults: &StdioServerConfig) -> (r: AppRuntimeLauncher)
        ensures
            app_launcher_of(r, *self, *defaults),
    {
        let copy = AppRuntime {
            name: self.name.clone(),
            description: clone_opt(&self.description),
            tags: clone_strings(&self.tags),
            metadata: clone_json(&self.metadata),
            env: clone_pairs(&self.env),
            code_home: clone_opt(&self.code_home),
            current_dir: clone_opt(&self.current_dir),
            mirror_stdio: self.mirror_stdio,
            startup_timeout_ms: self.startup_timeout_ms,
            binary: clone_opt(&self.binary),
        };
        copy.into_launcher(defaults)
    }
}

/// Summarized app runtime metadata for listing.
#[derive(Debug)]
pub struct AppRuntimeSummary {
    pub name: String,
    pub description: Option<String>,
    pub tags: Vec<String>,
    pub metadata: JsonValue,
}

/// `s` summarizes launcher `l`.
pub open spec fn summarizes(s: AppRuntimeSummary, l: AppRuntimeLauncher) -> bool {
    &&& s.name@ == l.name@
    &&& opt_str(s.description) == opt_str(l.description)
    &&& str_views(s.tags@) == str_views(l.tags@)
    &&& jview(s.metadata) == jview(l.metadata)
}

impl AppRuntimeLauncher {
    /// The summary of this launcher.
    pub fn summary(&self) -> (r: AppRuntimeSummary)
        ensures
            summarizes(r, *self),
    {
        AppRuntimeSummary {
            name: self.name.clone(),
            description: clone_opt(&self.description),
            tags: clone_strings(&self.tags),
            metadata: clone_json(&self.metadata),
        }
    }
}

/// Errors of app runtime lookups and of the pool; `Start` and `Stop` carry the message of
/// the process failure the caller met.
#[derive(Debug)]
pub enum AppRuntimeError {
    NotFound(String),
    Start { name: String, message: String },
    Stop { name: String, message: String },
}

/// Prepared app runtime: merged stdio config and metadata, ready to be started.
#[derive(Debug)]
pub struct AppRuntimeHandle {
    pub name: String,
    pub metadata: JsonValue,
    pub config: StdioServerConfig,
}

/// `h` is the handle of launcher `l`.
pub open spec fn app_handle_of(h: AppRuntimeHandle, l: AppRuntimeLauncher) -> bool {
    &&& h.name@ == l.name@
    &&& jview(h.metadata) == jview(l.metadata)
    &&& config_view(h.config) == config_view(l.config)
}

pub open spec fn app_launcher_names(s: Seq<AppRuntimeLauncher>) -> Seq<Seq<char>> {
    s.map_values(|l: AppRuntimeLauncher| l.name@)
}

/// The index of the last launcher named `name`.
pub open spec fn last_app_launcher_index(s: Seq<AppRuntimeLauncher>, name: Seq<char>) -> Option<int>
    decreases s.len(),
{
    if s.len() == 0 {
        None
    } else if s.last().name@ == name {
        Some(s.len() - 1)
    } else {
        last_app_launcher_index(s.drop_last(), name)
    }
}

/// The last launcher named `name`.
pub open spec fn last_app_launcher(s: Seq<AppRuntimeLauncher>, name: Seq<char>) -> Option<AppRuntimeLauncher> {
    match last_app_launcher_index(s, name) {
        Some(i) => Some(s[i]),
        None => None,
    }
}

proof fn lemma_last_app_launcher_index_bound(s: Seq<AppRuntimeLauncher>, name: Seq<char>)
    ensures
        match last_app_launcher_index(s, name) {
            Some(i) => 0 <= i < s.len() && s[i].name@ == name,
            None => forall|j: int| 0 <= j < s.len() ==> s[j].name@ != name,
        },
    decreases s.len(),
{
    if s.len() > 0 {
        lemma_last_app_launcher_index_bound(s.drop_last(), name);
        match last_app_launcher_index(s.drop_last(), name) {
            Some(i) => assert(s.drop_last()[i] == s[i]),
            None => {
                assert forall|j: int| 0 <= j < s.len() - 1 implies s[j].name@ != name by {
                    assert(s.drop_last()[j] == s[j]);
                }
            },
        }
    }
}

proof fn lemma_last_app_launcher_push(s: Seq<AppRuntimeLauncher>, x: AppRuntimeLauncher, name: Seq<char>)
    ensures
        last_app_launcher(s.push(x), name) == if x.name@ == name { Some(x) } else { last_app_launcher(s, name) },
{
    assert(s.push(x).drop_last() =~= s);
    lemma_last_app_launcher_index_bound(s, name);
    match last_app_launcher_index(s, name) {
        Some(i) => assert(s.push(x)[i] == s[i]),
        None => {},
    }
}

/// Some launcher in `s` is named `name`.
pub open spec fn app_stored_has(s: Seq<AppRuntimeLauncher>, name: Seq<char>) -> bool {
    exists|q: int| 0 <= q < s.len() && (#[trigger] s[q]).name@ == name
}

/// App runtime launchers by name, in name order, one per name (later launchers of a name
/// win); lookups leave it unchanged.
#[derive(Debug)]
pub struct AppRuntimeManager {
    launchers: Vec<AppRuntimeLauncher>,
}

impl AppRuntimeManager {
    /// Names strictly increasing.
    pub closed spec fn wf(&self) -> bool {
        strictly_sorted(app_launcher_names(self.launchers@))
    }

    /// The stored launchers, in name order.
    pub closed spec fn stored(&self) -> Seq<AppRuntimeLauncher> {
        self.launchers@
    }

    /// Two stored launchers with the same name are the same one.
    pub proof fn lemma_unique_names(&self, name: Seq<char>)
        requires
            self.wf(),
        ensures
            forall|a: int, b: int|
                0 <= a < self.stored().len() && 0 <= b < self.stored().len() && (#[trigger] self.stored()[a]).name@
                    == name && (#[trigger] self.stored()[b]).name@ == name ==> a == b,
    {
        assert forall|a: int, b: int|
            0 <= a < self.stored().len() && 0 <= b < self.stored().len() && (#[trigger] self.stored()[a]).name@
                == name && (#[trigger] self.stored()[b]).name@ == name implies a == b by {
            if a != b {
                assert(app_launcher_names(self.launchers@)[a] == self.launchers@[a].name@);
                assert(app_launcher_names(self.launchers@)[b] == self.launchers@[b].name@);
                lemma_lt_irreflexive(name);
            }
        }
    }

    /// A manager of the given launchers.
    pub fn new(launchers: Vec<AppRuntimeLauncher>) -> (r: Self)
        ensures
            r.wf(),
            forall|q: int|
                0 <= q < r.stored().len() ==> last_app_launcher(launchers@, (#[trigger] r.stored()[q]).name@)
                    == Some(r.stored()[q]),
            forall|j: int|
                0 <= j < launchers@.len() ==> exists|q: int|
                    0 <= q < r.stored().len() && (#[trigger] r.stored()[q]).name@ == (#[trigger] launchers@[j]).name@,
    {
        let ghost input = launchers@;
        let n = launchers.len();
        let mut rest = launchers;
        let mut acc: Vec<AppRuntimeLauncher> = Vec::new();
        let mut i: usize = 0;
        while i < n
            invariant
                i <= n == input.len(),
                rest@ == input.subrange(i as int, n as int),
                strictly_sorted(app_launcher_names(acc@)),
                forall|q: int|
                    0 <= q < acc@.len() ==> last_app_launcher(input.take(i as int), (#[trigger] acc@[q]).name@)
                        == Some(acc@[q]),
                forall|j: int|
                    0 <= j < i ==> exists|q: int|
                        0 <= q < acc@.len() && (#[trigger] acc@[q]).name@ == (#[trigger] input[j]).name@,
            decreases n - i,
        {
            let e = rest.remove(0);
            assert(e == input[i as int]);
            assert(rest@ =~= input.subrange(i + 1, n as int));
            proof {
                assert(input.take(i + 1) =~= input.take(i as int).push(e));
            }
            let mut p: usize = 0;
            while p < acc.len() && str_less(acc[p].name.as_str(), e.name.as_str())
                invariant
                    p <= acc@.len(),
                    forall|q: int| 0 <= q < p ==> str_lt((#[trigger] acc@[q]).name@, e.name@),
                decreases acc@.len() - p,
            {
                p = p + 1;
            }
            let ghost old_acc = acc@;
            let same = p < acc.len() && eq_chars(
                chars_of(acc[p].name.as_str()).as_slice(),
                chars_of(e.name.as_str()).as_slice(),
            );
            proof {
                lemma_last_app_launcher_push(input.take(i as int), e, e.name@);
                assert forall|q: int| p <= q < old_acc.len() && !(q == p && same) implies str_lt(
                    e.name@,
                    #[trigger] old_acc[q].name@,
                ) by {
                    assert(app_launcher_names(old_acc)[p as int] == old_acc[p as int].name@);
                    if !str_lt(old_acc[p as int].name@, e.name@) {
                        if old_acc[p as int].name@ != e.name@ {
                            lemma_lt_total(old_acc[p as int].name@, e.name@);
                        }
                    }
                    if q > p {
                        assert(app_launcher_names(old_acc)[q] == old_acc[q].name@);
                        assert(str_lt(app_launcher_names(old_acc)[p as int], app_launcher_names(old_acc)[q]));
                        if old_acc[p as int].name@ == e.name@ {
                        } else {
                            lemma_lt_transitive(e.name@, old_acc[p as int].name@, old_acc[q].name@);
                        }
                    }
                }
            }
            if same {
                acc.remove(p);
                acc.insert(p, e);
                proof {
                    assert(acc@ =~= old_acc.update(p as int, e));
                    assert forall|a: int, b: int| 0 <= a < b < acc@.len() implies str_lt(
                        #[trigger] app_launcher_names(acc@)[a],
                        #[trigger] app_launcher_names(acc@)[b],
                    ) by {
                        assert(app_launcher_names(old_acc)[a] == old_acc[a].name@);
                        assert(app_launcher_names(old_acc)[b] == old_acc[b].name@);
                    }
                    assert forall|q: int| 0 <= q < acc@.len() implies last_app_launcher(
                        input.take(i + 1),
                        (#[trigger] acc@[q]).name@,
                    ) == Some(acc@[q]) by {
                        lemma_last_app_launcher_push(input.take(i as int), e, acc@[q].name@);
                        if q != p {
                            assert(app_launcher_names(old_acc)[q] == old_acc[q].name@);
                            assert(app_launcher_names(old_acc)[p as int] == old_acc[p as int].name@);
                            if q < p {
                                assert(str_lt(app_launcher_names(old_acc)[q], app_launcher_names(old_acc)[p as int]));
                            } else {
                                assert(str_lt(app_launcher_names(old_acc)[p as int], app_launcher_names(old_acc)[q]));
                            }
                            lemma_lt_irreflexive(e.name@);
                        }
                    }
                    assert forall|j: int| 0 <= j < i + 1 implies exists|q: int|
                        0 <= q < acc@.len() && (#[trigger] acc@[q]).name@ == (#[trigger] input[j]).name@ by {
                        if j == i {
                            assert(acc@[p as int].name@ == input[j].name@);
                        } else {
                            let q = choose|q: int| 0 <= q < old_acc.len() && (#[trigger] old_acc[q]).name@ == input[j].name@;
                            assert(acc@[q].name@ == input[j].name@);
                        }
                    }
                }
            } else {
                acc.insert(p, e);
                proof {
                    assert(acc@ =~= old_acc.insert(p as int, e));
                    assert forall|a: int, b: int| 0 <= a < b < acc@.len() implies str_lt(
                        #[trigger] app_launcher_names(acc@)[a],
                        #[trigger] app_launcher_names(acc@)[b],
                    ) by {
                        if a < p && b < p {
                            assert(app_launcher_names(old_acc)[a] == old_acc[a].name@);
                            assert(app_launcher_names(old_acc)[b] == old_acc[b].name@);
                        } else if a < p && b == p {
                        } else if a < p && b > p {
                            assert(str_lt(old_acc[a].name@, e.name@));
                            assert(str_lt(e.name@, old_acc[b - 1].name@));
                            lemma_lt_transitive(old_acc[a].name@, e.name@, old_acc[b - 1].name@);
                        } else if a == p {
                            assert(str_lt(e.name@, old_acc[b - 1].name@));
                        } else {
                            assert(app_launcher_names(old_acc)[a - 1] == old_acc[a - 1].name@);
                            assert(app_launcher_names(old_acc)[b - 1] == old_acc[b - 1].name@);
                        }
                    }
                    assert forall|q: int| 0 <= q < acc@.len() implies last_app_launcher(
                        input.take(i + 1),
                        (#[trigger] acc@[q]).name@,
                    ) == Some(acc@[q]) by {
                        lemma_last_app_launcher_push(input.take(i as int), e, acc@[q].name@);
                        if q < p {
                            assert(acc@[q] == old_acc[q]);
                            lemma_lt_irreflexive(e.name@);
                        } else if q > p {
                            assert(acc@[q] == old_acc[q - 1]);
                            assert(str_lt(e.name@, old_acc[q - 1].name@));
                            lemma_lt_irreflexive(e.name@);
                        }
                    }
                    assert forall|j: int| 0 <= j < i + 1 implies exists|q: int|
                        0 <= q < acc@.len() && (#[trigger] acc@[q]).name@ == (#[trigger] input[j]).name@ by {
                        if j == i {
                            assert(acc@[p as int].name@ == input[j].name@);
                        } else {
                            let q = choose|q: int| 0 <= q < old_acc.len() && (#[trigger] old_acc[q]).name@ == input[j].name@;
                            if q < p {
                                assert(acc@[q].name@ == input[j].name@);
                            } else {
                                assert(acc@[q + 1].name@ == input[j].name@);
                            }
                        }
                    }
                }
            }
            i = i + 1;
        }
        assert(input.take(n as int) =~= input);
        AppRuntimeManager { launchers: acc }
    }

    /// Summaries of the launchers, in name order.
    pub fn available(&self) -> (r: Vec<AppRuntimeSummary>)
        ensures
            r@.len() == self.stored().len(),
            forall|q: int| 0 <= q < r@.len() ==> summarizes(#[trigger] r@[q], self.stored()[q]),
    {
        let mut out: Vec<AppRuntimeSummary> = Vec::new();
        let mut i: usize = 0;
        while i < self.launchers.len()
            invariant
                i <= self.launchers@.len(),
                out@.len() == i,
                forall|q: int| 0 <= q < i ==> summarizes(#[trigger] out@[q], self.launchers@[q]),
            decreases self.launchers@.len() - i,
        {
            out.push(self.launchers[i].summary());
            i = i + 1;
        }
        out
    }

    /// A copy of the launcher named `name`, if any; the manager keeps its own.
    pub fn launcher(&self, name: &str) -> (r: Option<AppRuntimeLauncher>)
        ensures
            r is Some <==> app_stored_has(self.stored(), name@),
            r matches Some(l) ==> exists|q: int|
                0 <= q < self.stored().len() && (#[trigger] self.stored()[q]).name@ == name@
                    && app_launcher_view(l) == app_launcher_view(self.stored()[q]),
    {
        let mut i: usize = 0;
        while i < self.launchers.len()
            invariant
                i <= self.launchers@.len(),
                forall|q: int| 0 <= q < i ==> (#[trigger] self.launchers@[q]).name@ != name@,
            decreases self.launchers@.len() - i,
        {
            let hit = eq_chars(chars_of(self.launchers[i].name.as_str()).as_slice(), chars_of(name).as_slice());
            if hit {
                return Some(self.launchers[i].duplicate());
            }
            i = i + 1;
        }
        None
    }

    /// The prepared config and metadata of the runtime named `name`, or `NotFound`.
    pub fn prepare(&self, name: &str) -> (r: Result<AppRuntimeHandle, AppRuntimeError>)
        ensures
            r is Ok <==> app_stored_has(self.stored(), name@),
            r matches Ok(h) ==> exists|q: int|
                0 <= q < self.stored().len() && (#[trigger] self.stored()[q]).name@ == name@ && app_handle_of(
                    h,
                    self.stored()[q],
                ),
            r matches Err(e) ==> (e matches AppRuntimeError::NotFound(n) && n@ == name@),
    {
        match self.launcher(name) {
            Some(l) => {
                let AppRuntimeLauncher { name: launcher_name, description: _, tags: _, metadata, config } = l;
                Ok(AppRuntimeHandle { name: launcher_name, metadata, config })
            },
            None => Err(AppRuntimeError::NotFound(name.to_owned())),
        }
    }
}

pub open spec fn app_summary_names(s: Seq<AppRuntimeSummary>) -> Seq<Seq<char>> {
    s.map_values(|x: AppRuntimeSummary| x.name@)
}

/// The names in `v`, as a set.
pub open spec fn name_set(v: Seq<String>) -> Set<Seq<char>> {
    Set::new(|n: Seq<char>| exists|i: int| 0 <= i < v.len() && (#[trigger] v[i])@ == n)
}

/// No name occurs twice in `v`.
pub open spec fn distinct_names(v: Seq<String>) -> bool {
    forall|a: int, b: int| 0 <= a < v.len() && 0 <= b < v.len() && a != b ==> (#[trigger] v[a])@ != (#[trigger] v[b])@
}

/// The index of `name` in `v`, if any.
fn position(v: &Vec<String>, name: &str) -> (r: Option<usize>)
    ensures
        match r {
            Some(i) => i < v@.len() && v@[i as int]@ == name@,
            None => !name_set(v@).contains(name@),
        },
{
    let mut i: usize = 0;
    while i < v.len()
        invariant
            i <= v@.len(),
            forall|j: int| 0 <= j < i ==> (#[trigger] v@[j])@ != name@,
        decreases v@.len() - i,
    {
        if eq_chars(chars_of(v[i].as_str()).as_slice(), chars_of(name).as_slice()) {
            return Some(i);
        }
        i = i + 1;
    }
    None
}

/// What `start` decides for a name: the runtime is running already and is reused, or it is
/// to be launched with the given handle.
#[derive(Debug)]
pub enum AppRuntimeStart {
    Running,
    Launch(AppRuntimeHandle),
}

/// App runtimes plus the names of those running. A start reuses a running runtime; stopping
/// forgets it. The stored launchers never change.
#[derive(Debug)]
pub struct AppRuntimePool {
    manager: AppRuntimeManager,
    running: Vec<String>,
}

impl AppRuntimePool {
    /// The manager is well formed, and the running names are distinct names of stored
    /// runtimes.
    pub closed spec fn wf(&self) -> bool {
        &&& self.manager.wf()
        &&& distinct_names(self.running@)
        &&& forall|i: int| 0 <= i < self.running@.len() ==> app_stored_has(self.manager.stored(), (#[trigger] self.running@[i])@)
    }

    /// The stored launchers, in name order.
    pub closed spec fn stored(&self) -> Seq<AppRuntimeLauncher> {
        self.manager.stored()
    }

    /// The names of the running runtimes.
    pub closed spec fn running_set(&self) -> Set<Seq<char>> {
        name_set(self.running@)
    }

    /// A running runtime is one of the stored ones.
    pub proof fn lemma_running_are_stored(&self, name: Seq<char>)
        requires
            self.wf(),
            self.running_set().contains(name),
        ensures
            app_stored_has(self.stored(), name),
    {
        let i = choose|i: int| 0 <= i < self.running@.len() && (#[trigger] self.running@[i])@ == name;
        assert(app_stored_has(self.manager.stored(), self.running@[i]@));
    }

    /// A pool over `manager` with nothing running.
    pub fn new(manager: AppRuntimeManager) -> (r: Self)
        requires
            manager.wf(),
        ensures
            r.wf(),
            r.stored() == manager.stored(),
            r.running_set() == Set::<Seq<char>>::empty(),
    {
        let r = AppRuntimePool { manager, running: Vec::new() };
        assert(r.running_set() =~= Set::<Seq<char>>::empty());
        r
    }

    /// Summaries of the stored runtimes, in name order.
    pub fn available(&self) -> (r: Vec<AppRuntimeSummary>)
        ensures
            r@.len() == self.stored().len(),
            forall|q: int| 0 <= q < r@.len() ==> summarizes(#[trigger] r@[q], self.stored()[q]),
    {
        self.manager.available()
    }

    /// Summaries of the running runtimes, in name order.
    pub fn running(&self) -> (r: Vec<AppRuntimeSummary>)
        requires
            self.wf(),
        ensures
            strictly_sorted(app_summary_names(r@)),
            forall|q: int|
                0 <= q < r@.len() ==> self.running_set().contains((#[trigger] r@[q]).name@) && exists|k: int|
                    0 <= k < self.stored().len() && summarizes(r@[q], #[trigger] self.stored()[k]),
            forall|n: Seq<char>| #[trigger] self.running_set().contains(n) ==> exists|q: int| 0 <= q < r@.len() && (#[trigger] r@[q]).name@ == n,
    {
        let ls = &self.manager.launchers;
        let mut out: Vec<AppRuntimeSummary> = Vec::new();
        let ghost mut idxs: Seq<int> = Seq::empty();
        let mut i: usize = 0;
        while i < ls.len()
            invariant
                i <= ls@.len(),
                ls@ == self.manager.launchers@,
                idxs.len() == out@.len(),
                forall|q: int| 0 <= q < out@.len() ==> 0 <= #[trigger] idxs[q] < i && summarizes(out@[q], ls@[idxs[q]]),
                forall|a: int, b: int| 0 <= a < b < idxs.len() ==> #[trigger] idxs[a] < #[trigger] idxs[b],
                forall|q: int| 0 <= q < out@.len() ==> name_set(self.running@).contains((#[trigger] out@[q]).name@),
                forall|k: int|
                    0 <= k < i && name_set(self.running@).contains((#[trigger] ls@[k]).name@) ==> exists|q: int|
                        0 <= q < idxs.len() && #[trigger] idxs[q] == k,
            decreases ls@.len() - i,
        {
            let hit = position(&self.running, ls[i].name.as_str());
            if hit.is_some() {
                proof {
                    let idx = hit.unwrap() as int;
                    assert(self.running@[idx]@ == ls@[i as int].name@);
                }
                let ghost before = out@;
                let ghost before_idxs = idxs;
                out.push(ls[i].summary());
                proof {
                    idxs = idxs.push(i as int);
                    assert forall|q: int| 0 <= q < out@.len() implies 0 <= #[trigger] idxs[q] < i + 1 && summarizes(
                        out@[q],
                        ls@[idxs[q]],
                    ) by {
                        if q < before.len() {
                            assert(out@[q] == before[q]);
                            assert(idxs[q] == before_idxs[q]);
                        }
                    }
                    assert forall|q: int| 0 <= q < out@.len() implies name_set(self.running@).contains(
                        (#[trigger] out@[q]).name@,
                    ) by {
                        if q < before.len() {
                            assert(out@[q] == before[q]);
                        }
                    }
                    assert forall|k: int|
                        0 <= k < i + 1 && name_set(self.running@).contains((#[trigger] ls@[k]).name@) implies exists|q: int|
                        0 <= q < idxs.len() && #[trigger] idxs[q] == k by {
                        if k == i {
                            assert(idxs[idxs.len() - 1] == k);
                        } else {
                            let q = choose|q: int| 0 <= q < before_idxs.len() && #[trigger] before_idxs[q] == k;
                            assert(idxs[q] == before_idxs[q]);
                        }
                    }
                }
            }
            i = i + 1;
        }
        proof {
            assert(strictly_sorted(app_launcher_names(ls@)));
            assert forall|a: int, b: int| 0 <= a < b < out@.len() implies str_lt(
                #[trigger] app_summary_names(out@)[a],
                #[trigger] app_summary_names(out@)[b],
            ) by {
                assert(idxs[a] < idxs[b]);
                assert(app_launcher_names(ls@)[idxs[a]] == ls@[idxs[a]].name@);
                assert(app_launcher_names(ls@)[idxs[b]] == ls@[idxs[b]].name@);
            }
            assert forall|n: Seq<char>| #[trigger] name_set(self.running@).contains(n) implies exists|q: int|
                0 <= q < out@.len() && (#[trigger] out@[q]).name@ == n by {
                let j = choose|j: int| 0 <= j < self.running@.len() && (#[trigger] self.running@[j])@ == n;
                assert(app_stored_has(self.manager.stored(), self.running@[j]@));
                let k = choose|k: int| 0 <= k < ls@.len() && (#[trigger] ls@[k]).name@ == n;
                assert(name_set(self.running@).contains(ls@[k].name@));
                let q = choose|q: int| 0 <= q < idxs.len() && #[trigger] idxs[q] == k;
                assert(out@[q].name@ == n);
            }
            assert forall|q: int| 0 <= q < out@.len() implies exists|k: int|
                0 <= k < self.stored().len() && summarizes(#[trigger] out@[q], #[trigger] self.stored()[k]) by {
                assert(summarizes(out@[q], self.stored()[idxs[q]]));
            }
        }
        out
    }

    /// A copy of the launcher named `name`, if any.
    pub fn launcher(&self, name: &str) -> (r: Option<AppRuntimeLauncher>)
        ensures
            r is Some <==> app_stored_has(self.stored(), name@),
            r matches Some(l) ==> exists|q: int|
                0 <= q < self.stored().len() && (#[trigger] self.stored()[q]).name@ == name@
                    && app_launcher_view(l) == app_launcher_view(self.stored()[q]),
    {
        let r = self.manager.launcher(name);
        assert(self.stored() == self.manager.stored());
        r
    }

    /// The prepared config and metadata of the runtime named `name`, without starting it.
    pub fn prepare(&self, name: &str) -> (r: Result<AppRuntimeHandle, AppRuntimeError>)
        ensures
            r is Ok <==> app_stored_has(self.stored(), name@),
            r matches Ok(h) ==> exists|q: int|
                0 <= q < self.stored().len() && (#[trigger] self.stored()[q]).name@ == name@ && app_handle_of(
                    h,
                    self.stored()[q],
                ),
            r matches Err(e) ==> (e matches AppRuntimeError::NotFound(n) && n@ == name@),
    {
        self.manager.prepare(name)
    }

    /// What starting `name` takes: a running runtime is reused; otherwise the handle to
    /// launch, or `NotFound` for an unknown name.
    pub fn start(&self, name: &str) -> (r: Result<AppRuntimeStart, AppRuntimeError>)
        requires
            self.wf(),
        ensures
            self.running_set().contains(name@) ==> r matches Ok(AppRuntimeStart::Running),
            !self.running_set().contains(name@) && app_stored_has(self.stored(), name@) ==> (r matches Ok(
                AppRuntimeStart::Launch(h),
            ) && exists|q: int|
                0 <= q < self.stored().len() && (#[trigger] self.stored()[q]).name@ == name@ && app_handle_of(
                    h,
                    self.stored()[q],
                )),
            !app_stored_has(self.stored(), name@) ==> (r matches Err(AppRuntimeError::NotFound(n)) && n@ == name@),
    {
        if position(&self.running, name).is_some() {
            proof {
                self.lemma_running_are_stored(name@);
            }
            return Ok(AppRuntimeStart::Running);
        }
        match self.prepare(name) {
            Ok(h) => Ok(AppRuntimeStart::Launch(h)),
            Err(e) => Err(e),
        }
    }

    /// Records that the runtime `name` was started. Returns false, and changes nothing, when it
    /// is running already (the caller then stops the copy it started and keeps the first) or
    /// is not a stored runtime.
    pub fn record_started(&mut self, name: &str) -> (inserted: bool)
        requires
            old(self).wf(),
        ensures
            final(self).wf(),
            final(self).stored() == old(self).stored(),
            inserted == (app_stored_has(old(self).stored(), name@) && !old(self).running_set().contains(name@)),
            final(self).running_set() == if inserted {
                old(self).running_set().insert(name@)
            } else {
                old(self).running_set()
            },
    {
        if position(&self.running, name).is_some() {
            return false;
        }
        if self.manager.launcher(name).is_none() {
            return false;
        }
        let ghost before = self.running@;
        self.running.push(name.to_owned());
        proof {
            assert(self.running@.drop_last() =~= before);
            assert forall|a: int, b: int|
                0 <= a < self.running@.len() && 0 <= b < self.running@.len() && a != b implies (#[trigger] self.running@[a])@
                != (#[trigger] self.running@[b])@ by {
                if a < before.len() && b < before.len() {
                    assert(self.running@[a] == before[a] && self.running@[b] == before[b]);
                } else if a < before.len() {
                    assert(self.running@[a] == before[a]);
                } else {
                    assert(self.running@[b] == before[b]);
                }
            }
            assert forall|i: int| 0 <= i < self.running@.len() implies app_stored_has(
                self.manager.stored(),
                (#[trigger] self.running@[i])@,
            ) by {
                if i < before.len() {
                    assert(self.running@[i] == before[i]);
                }
            }
            assert forall|n: Seq<char>| #[trigger] name_set(self.running@).contains(n) <==> name_set(before).insert(
                name@,
            ).contains(n) by {
                if name_set(before).contains(n) {
                    let j = choose|j: int| 0 <= j < before.len() && (#[trigger] before[j])@ == n;
                    assert(self.running@[j] == before[j]);
                }
                if name_set(self.running@).contains(n) && n != name@ {
                    let j = choose|j: int| 0 <= j < self.running@.len() && (#[trigger] self.running@[j])@ == n;
                    assert(self.running@[j] == before[j]);
                }
                assert(self.running@[before.len() as int]@ == name@);
            }
            assert(name_set(self.running@) =~= name_set(before).insert(name@));
        }
        true
    }

    /// Forgets the running runtime `name` (the caller stops its process); `NotFound` when it
    /// is not running.
    pub fn stop(&mut self, name: &str) -> (r: Result<(), AppRuntimeError>)
        requires
            old(self).wf(),
        ensures
            final(self).wf(),
            final(self).stored() == old(self).stored(),
            r is Ok <==> old(self).running_set().contains(name@),
            final(self).running_set() == old(self).running_set().remove(name@),
            r matches Err(e) ==> (e matches AppRuntimeError::NotFound(n) && n@ == name@),
    {
        match position(&self.running, name) {
            None => {
                proof {
                    assert(name_set(self.running@) =~= name_set(self.running@).remove(name@));
                }
                Err(AppRuntimeError::NotFound(name.to_owned()))
            },
            Some(idx) => {
                let ghost before = self.running@;
                self.running.remove(idx);
                proof {
                    assert(self.running@ =~= before.remove(idx as int));
                    assert forall|a: int, b: int|
                        0 <= a < self.running@.len() && 0 <= b < self.running@.len() && a != b implies (#[trigger] self.running@[a])@
                        != (#[trigger] self.running@[b])@ by {
                        let a0 = if a < idx { a } else { a + 1 };
                        let b0 = if b < idx { b } else { b + 1 };
                        assert(self.running@[a] == before[a0] && self.running@[b] == before[b0]);
                    }
                    assert forall|i: int| 0 <= i < self.running@.len() implies app_stored_has(
                        self.manager.stored(),
                        (#[trigger] self.running@[i])@,
                    ) by {
                        let i0 = if i < idx { i } else { i + 1 };
                        assert(self.running@[i] == before[i0]);
                    }
                    assert forall|n: Seq<char>| #[trigger] name_set(self.running@).contains(n) <==> name_set(before).remove(
                        name@,
                    ).contains(n) by {
                        if name_set(self.running@).contains(n) {
                            let j = choose|j: int| 0 <= j < self.running@.len() && (#[trigger] self.running@[j])@ == n;
                            let j0 = if j < idx { j } else { j + 1 };
                            assert(self.running@[j] == before[j0]);
                            assert(j0 != idx);
                        }
                        if name_set(before).remove(name@).contains(n) {
                            let j = choose|j: int| 0 <= j < before.len() && (#[trigger] before[j])@ == n;
                            assert(j != idx);
                            let j1 = if j < idx { j } else { j - 1 };
                            assert(self.running@[j1] == before[j]);
                        }
                    }
                    assert(name_set(self.running@) =~= name_set(before).remove(name@));
                    assert(name_set(before).contains(name@)) by {
                        assert(before[idx as int]@ == name@);
                    }
                }
                Ok(())
            },
        }
    }

    /// Forgets every running runtime and returns their names (the caller stops each).
    pub fn stop_all(&mut self) -> (r: Vec<String>)
        requires
            old(self).wf(),
        ensures
            final(self).wf(),
            final(self).stored() == old(self).stored(),
            final(self).running_set() == Set::<Seq<char>>::empty(),
            name_set(r@) == old(self).running_set(),
            distinct_names(r@),
    {
        let mut r: Vec<String> = Vec::new();
        std::mem::swap(&mut r, &mut self.running);
        proof {
            assert(name_set(self.running@) =~= Set::<Seq<char>>::empty());
        }
        r
    }
}

/// Entry `i` of `outcomes` is the first that failed.
pub open spec fn first_failure_at(outcomes: Seq<(String, Option<String>)>, i: int) -> bool {
    &&& 0 <= i < outcomes.len()
    &&& outcomes[i].1 is Some
    &&& forall|j: int| 0 <= j < i ==> (#[trigger] outcomes[j]).1 is None
}

/// The error `stop_all` reports: the first stop that failed, as `(name, failure message)`
/// outcomes in the order the runtimes were stopped.
pub fn first_stop_error(outcomes: Vec<(String, Option<String>)>) -> (r: Option<AppRuntimeError>)
    ensures
        match r {
            Some(e) => exists|i: int|
                #[trigger] first_failure_at(outcomes@, i) && e == (AppRuntimeError::Stop {
                    name: outcomes@[i].0,
                    message: outcomes@[i].1->Some_0,
                }),
            None => forall|j: int| 0 <= j < outcomes@.len() ==> (#[trigger] outcomes@[j]).1 is None,
        },
{
    let ghost all = outcomes@;
    let n = outcomes.len();
    let mut rest = outcomes;
    let mut i: usize = 0;
    while i < n
        invariant
            i <= n == all.len(),
            all == outcomes@,
            rest@ == all.subrange(i as int, n as int),
            forall|j: int| 0 <= j < i ==> (#[trigger] all[j]).1 is None,
        decreases n - i,
    {
        let item = rest.remove(0);
        assert(item == all[i as int]);
        assert(rest@ =~= all.subrange(i + 1, n as int));
        let (name, failure) = item;
        match failure {
            Some(message) => {
                let e = AppRuntimeError::Stop { name, message };
                assert(first_failure_at(all, i as int));
                return Some(e);
            },
            None => {},
        }
        i = i + 1;
    }
    None
}

/// The plain views of a sequence of launchers.
pub open spec fn app_launcher_views(s: Seq<AppRuntimeLauncher>) -> Seq<AppLauncherView> {
    s.map_values(|l: AppRuntimeLauncher| app_launcher_view(l))
}

impl AppRuntimeManager {
    /// A copy with the same launchers.
    pub fn duplicate(&self) -> (r: Self)
        ensures
            self.wf() ==> r.wf(),
            app_launcher_views(r.stored()) == app_launcher_views(self.stored()),
    {
        let mut out: Vec<AppRuntimeLauncher> = Vec::new();
        let mut i: usize = 0;
        while i < self.launchers.len()
            invariant
                i <= self.launchers@.len(),
                out@.len() == i,
                forall|q: int| 0 <= q < i ==> app_launcher_view(#[trigger] out@[q]) == app_launcher_view(self.launchers@[q]),
            decreases self.launchers@.len() - i,
        {
            out.push(self.launchers[i].duplicate());
            i = i + 1;
        }
        let r = AppRuntimeManager { launchers: out };
        proof {
            assert(app_launcher_names(r.launchers@) =~= app_launcher_names(self.launchers@)) by {
                assert forall|q: int| 0 <= q < r.launchers@.len() implies app_launcher_names(r.launchers@)[q]
                    == app_launcher_names(self.launchers@)[q] by {
                    assert(app_launcher_view(r.launchers@[q]) == app_launcher_view(self.launchers@[q]));
                }
            }
            assert(app_launcher_views(r.stored()) =~= app_launcher_views(self.stored()));
        }
        r
    }
}

proof fn lemma_last_app_launcher_of_table(
    ls: Seq<AppRuntimeLauncher>,
    es: Seq<AppRuntimeEntry>,
    name: Seq<char>,
    defaults: StdioServerConfig,
)
    requires
        ls.len() == es.len(),
        forall|i: int| 0 <= i < ls.len() ==> app_launcher_of(#[trigger] ls[i], app_runtime_of(es[i]), defaults),
    ensures
        match last_app_launcher(ls, name) {
            Some(l) => crate::mcp_config::last_runtime_index(es, name) matches Some(i) && app_launcher_of(
                l,
                app_runtime_of(es[i]),
                defaults,
            ),
            None => crate::mcp_config::last_runtime_index(es, name) is None,
        },
    decreases ls.len(),
{
    if ls.len() > 0 {
        let n = ls.len() - 1;
        assert(app_launcher_of(ls[n], app_runtime_of(es[n]), defaults));
        assert forall|i: int| 0 <= i < ls.drop_last().len() implies app_launcher_of(
            #[trigger] ls.drop_last()[i],
            app_runtime_of(es.drop_last()[i]),
            defaults,
        ) by {
            assert(ls.drop_last()[i] == ls[i]);
            assert(es.drop_last()[i] == es[i]);
            assert(app_launcher_of(ls[i], app_runtime_of(es[i]), defaults));
        }
        lemma_last_app_launcher_of_table(ls.drop_last(), es.drop_last(), name, defaults);
        lemma_last_app_launcher_index_bound(ls.drop_last(), name);
        match last_app_launcher_index(ls.drop_last(), name) {
            Some(i) => {
                assert(ls.drop_last()[i] == ls[i]);
            },
            None => {},
        }
        crate::mcp_config::lemma_last_runtime_index(es.drop_last(), name);
        match crate::mcp_config::last_runtime_index(es.drop_last(), name) {
            Some(i) => {
                assert(es.drop_last()[i] == es[i]);
            },
            None => {},
        }
    }
}

/// Read-only helpers around an [`AppRuntimeManager`].
#[derive(Debug)]
pub struct AppRuntimeApi {
    manager: AppRuntimeManager,
}

impl AppRuntimeApi {
    pub closed spec fn wf(&self) -> bool {
        self.manager.wf()
    }

    /// The stored launchers, in name order.
    pub closed spec fn stored(&self) -> Seq<AppRuntimeLauncher> {
        self.manager.stored()
    }

    /// An API over the given launchers; a name given twice counts once, by its last launcher.
    pub fn new(launchers: Vec<AppRuntimeLauncher>) -> (r: Self)
        ensures
            r.wf(),
            forall|q: int|
                0 <= q < r.stored().len() ==> last_app_launcher(launchers@, (#[trigger] r.stored()[q]).name@)
                    == Some(r.stored()[q]),
            forall|j: int|
                0 <= j < launchers@.len() ==> exists|q: int|
                    0 <= q < r.stored().len() && (#[trigger] r.stored()[q]).name@ == (#[trigger] launchers@[j]).name@,
    {
        AppRuntimeApi { manager: AppRuntimeManager::new(launchers) }
    }

    /// An API over the launchers of the stored app runtimes under `defaults`; the table is not
    /// changed. A name stored twice counts once, by its last definition.
    pub fn from_config(
        config: &McpConfigManager,
        runtimes: Vec<AppRuntimeEntry>,
        defaults: &StdioServerConfig,
    ) -> (r: Self)
        ensures
            r.wf(),
            forall|q: int|
                0 <= q < r.stored().len() ==> (crate::mcp_config::last_runtime_index(
                    runtimes@,
                    (#[trigger] r.stored()[q]).name@,
                ) matches Some(i) && app_launcher_of(r.stored()[q], app_runtime_of(runtimes@[i]), *defaults)),
            forall|j: int|
                0 <= j < runtimes@.len() ==> exists|q: int|
                    0 <= q < r.stored().len() && (#[trigger] r.stored()[q]).name@ == (#[trigger] runtimes@[j]).name@,
    {
        let ghost before = runtimes@;
        let launchers = config.app_runtime_launchers(runtimes, defaults);
        let ghost ls = launchers@;
        let r = AppRuntimeApi::new(launchers);
        proof {
            assert forall|q: int| 0 <= q < r.stored().len() implies (crate::mcp_config::last_runtime_index(
                before,
                (#[trigger] r.stored()[q]).name@,
            ) matches Some(i) && app_launcher_of(r.stored()[q], app_runtime_of(before[i]), *defaults)) by {
                lemma_last_app_launcher_of_table(ls, before, r.stored()[q].name@, *defaults);
            }
            assert forall|j: int| 0 <= j < before.len() implies exists|q: int|
                0 <= q < r.stored().len() && (#[trigger] r.stored()[q]).name@ == (#[trigger] before[j]).name@ by {
                assert(app_launcher_of(ls[j], app_runtime_of(before[j]), *defaults));
                assert(ls[j].name@ == before[j].name@);
            }
        }
        r
    }

    /// Summaries of the runtimes, in name order.
    pub fn available(&self) -> (r: Vec<AppRuntimeSummary>)
        ensures
            r@.len() == self.stored().len(),
            forall|q: int| 0 <= q < r@.len() ==> summarizes(#[trigger] r@[q], self.stored()[q]),
    {
        self.manager.available()
    }

    /// The launcher named `name`, or `NotFound`.
    pub fn launcher(&self, name: &str) -> (r: Result<AppRuntimeLauncher, AppRuntimeError>)
        ensures
            r is Ok <==> app_stored_has(self.stored(), name@),
            r matches Ok(l) ==> exists|q: int|
                0 <= q < self.stored().len() && (#[trigger] self.stored()[q]).name@ == name@
                    && app_launcher_view(l) == app_launcher_view(self.stored()[q]),
            r matches Err(e) ==> (e matches AppRuntimeError::NotFound(n) && n@ == name@),
    {
        match self.manager.launcher(name) {
            Some(l) => Ok(l),
            None => Err(AppRuntimeError::NotFound(name.to_owned())),
        }
    }

    /// The prepared config and metadata of the runtime named `name`, or `NotFound`.
    pub fn prepare(&self, name: &str) -> (r: Result<AppRuntimeHandle, AppRuntimeError>)
        ensures
            r is Ok <==> app_stored_has(self.stored(), name@),
            r matches Ok(h) ==> exists|q: int|
                0 <= q < self.stored().len() && (#[trigger] self.stored()[q]).name@ == name@ && app_handle_of(
                    h,
                    self.stored()[q],
                ),
            r matches Err(e) ==> (e matches AppRuntimeError::NotFound(n) && n@ == name@),
    {
        self.manager.prepare(name)
    }

    /// The merged stdio config of the runtime named `name`, or `NotFound`.
    pub fn stdio_config(&self, name: &str) -> (r: Result<StdioServerConfig, AppRuntimeError>)
        ensures
            r is Ok <==> app_stored_has(self.stored(), name@),
            r matches Ok(c) ==> exists|q: int|
                0 <= q < self.stored().len() && (#[trigger] self.stored()[q]).name@ == name@ && config_view(c)
                    == config_view(self.stored()[q].config),
            r matches Err(e) ==> (e matches AppRuntimeError::NotFound(n) && n@ == name@),
    {
        match self.prepare(name) {
            Ok(h) => Ok(h.config),
            Err(e) => Err(e),
        }
    }

    /// A pool over a copy of the runtimes, with nothing running.
    pub fn pool(&self) -> (r: AppRuntimePool)
        requires
            self.wf(),
        ensures
            r.wf(),
            app_launcher_views(r.stored()) == app_launcher_views(self.stored()),
            r.running_set() == Set::<Seq<char>>::empty(),
    {
        AppRuntimePool::new(self.manager.duplicate())
    }

    /// A pool over the runtimes, with nothing running.
    pub fn into_pool(self) -> (r: AppRuntimePool)
        requires
            self.wf(),
        ensures
            r.wf(),
            r.stored() == self.stored(),
            r.running_set() == Set::<Seq<char>>::empty(),
    {
        AppRuntimePool::new(self.manager)
    }

    /// A pooled API over a copy of the runtimes, with nothing running.
    pub fn pool_api(&self) -> (r: AppRuntimePoolApi)
        requires
            self.wf(),
        ensures
            r.wf(),
            app_launcher_views(r.stored()) == app_launcher_views(self.stored()),
            r.running_set() == Set::<Seq<char>>::empty(),
    {
        AppRuntimePoolApi::from_manager(self.manager.duplicate())
    }

    /// A pooled API over the runtimes, with nothing running.
    pub fn into_pool_api(self) -> (r: AppRuntimePoolApi)
        requires
            self.wf(),
        ensures
            r.wf(),
            r.stored() == self.stored(),
            r.running_set() == Set::<Seq<char>>::empty(),
    {
        AppRuntimePoolApi::from_manager(self.manager)
    }
}

/// The pooled lifecycle API: starts reuse running runtimes, and the stored definitions never
/// change.
#[derive(Debug)]
pub struct AppRuntimePoolApi {
    pool: AppRuntimePool,
}

impl AppRuntimePoolApi {
    pub closed spec fn wf(&self) -> bool {
        self.pool.wf()
    }

    pub closed spec fn stored(&self) -> Seq<AppRuntimeLauncher> {
        self.pool.stored()
    }

    pub closed spec fn running_set(&self) -> Set<Seq<char>> {
        self.pool.running_set()
    }

    /// A pooled API over the given launchers, with nothing running.
    pub fn new(launchers: Vec<AppRuntimeLauncher>) -> (r: Self)
        ensures
            r.wf(),
            forall|q: int|
                0 <= q < r.stored().len() ==> last_app_launcher(launchers@, (#[trigger] r.stored()[q]).name@)
                    == Some(r.stored()[q]),
            forall|j: int|
                0 <= j < launchers@.len() ==> exists|q: int|
                    0 <= q < r.stored().len() && (#[trigger] r.stored()[q]).name@ == (#[trigger] launchers@[j]).name@,
            r.running_set() == Set::<Seq<char>>::empty(),
    {
        AppRuntimePoolApi::from_manager(AppRuntimeManager::new(launchers))
    }

    /// A pooled API over the launchers of the stored app runtimes under `defaults`.
    pub fn from_config(
        config: &McpConfigManager,
        runtimes: Vec<AppRuntimeEntry>,
        defaults: &StdioServerConfig,
    ) -> (r: Self)
        ensures
            r.wf(),
            forall|q: int|
                0 <= q < r.stored().len() ==> (crate::mcp_config::last_runtime_index(
                    runtimes@,
                    (#[trigger] r.stored()[q]).name@,
                ) matches Some(i) && app_launcher_of(r.stored()[q], app_runtime_of(runtimes@[i]), *defaults)),
            forall|j: int|
                0 <= j < runtimes@.len() ==> exists|q: int|
                    0 <= q < r.stored().len() && (#[trigger] r.stored()[q]).name@ == (#[trigger] runtimes@[j]).name@,
            r.running_set() == Set::<Seq<char>>::empty(),
    {
        AppRuntimeApi::from_config(config, runtimes, defaults).into_pool_api()
    }

    /// A pooled API over `manager`, with nothing running.
    pub fn from_manager(manager: AppRuntimeManager) -> (r: Self)
        requires
            manager.wf(),
        ensures
            r.wf(),
            r.stored() == manager.stored(),
            r.running_set() == Set::<Seq<char>>::empty(),
    {
        AppRuntimePoolApi::from_pool(AppRuntimePool::new(manager))
    }

    /// The API around an existing pool.
    pub fn from_pool(pool: AppRuntimePool) -> (r: Self)
        ensures
            r.wf() == pool.wf(),
            r.stored() == pool.stored(),
            r.running_set() == pool.running_set(),
    {
        AppRuntimePoolApi { pool }
    }

    /// Summaries of the stored runtimes, in name order.
    pub fn available(&self) -> (r: Vec<AppRuntimeSummary>)
        ensures
            r@.len() == self.stored().len(),
            forall|q: int| 0 <= q < r@.len() ==> summarizes(#[trigger] r@[q], self.stored()[q]),
    {
        self.pool.available()
    }

    /// Summaries of the running runtimes, in name order.
    pub fn running(&self) -> (r: Vec<AppRuntimeSummary>)
        requires
            self.wf(),
        ensures
            strictly_sorted(app_summary_names(r@)),
            forall|q: int|
                0 <= q < r@.len() ==> self.running_set().contains((#[trigger] r@[q]).name@) && exists|k: int|
                    0 <= k < self.stored().len() && summarizes(r@[q], #[trigger] self.stored()[k]),
            forall|n: Seq<char>| #[trigger] self.running_set().contains(n) ==> exists|q: int| 0 <= q < r@.len() && (#[trigger] r@[q]).name@ == n,
    {
        let r = self.pool.running();
        proof {
            assert forall|q: int| 0 <= q < r@.len() implies self.running_set().contains((#[trigger] r@[q]).name@)
                && exists|k: int| 0 <= k < self.stored().len() && summarizes(r@[q], #[trigger] self.stored()[k]) by {
                let k = choose|k: int| 0 <= k < self.pool.stored().len() && summarizes(r@[q], #[trigger] self.pool.stored()[k]);
                assert(summarizes(r@[q], self.stored()[k]));
            }
        }
        r
    }

    /// The launcher named `name`, or `NotFound`.
    pub fn launcher(&self, name: &str) -> (r: Result<AppRuntimeLauncher, AppRuntimeError>)
        ensures
            r is Ok <==> app_stored_has(self.stored(), name@),
            r matches Ok(l) ==> exists|q: int|
                0 <= q < self.stored().len() && (#[trigger] self.stored()[q]).name@ == name@
                    && app_launcher_view(l) == app_launcher_view(self.stored()[q]),
            r matches Err(e) ==> (e matches AppRuntimeError::NotFound(n) && n@ == name@),
    {
        match self.pool.launcher(name) {
            Some(l) => Ok(l),
            None => Err(AppRuntimeError::NotFound(name.to_owned())),
        }
    }

    /// The prepared config and metadata of the runtime named `name`, or `NotFound`.
    pub fn prepare(&self, name: &str) -> (r: Result<AppRuntimeHandle, AppRuntimeError>)
        ensures
            r is Ok <==> app_stored_has(self.stored(), name@),
            r matches Ok(h) ==> exists|q: int|
                0 <= q < self.stored().len() && (#[trigger] self.stored()[q]).name@ == name@ && app_handle_of(
                    h,
                    self.stored()[q],
                ),
            r matches Err(e) ==> (e matches AppRuntimeError::NotFound(n) && n@ == name@),
    {
        self.pool.prepare(name)
    }

    /// The merged stdio config of the runtime named `name`, or `NotFound`.
    pub fn stdio_config(&self, name: &str) -> (r: Result<StdioServerConfig, AppRuntimeError>)
        ensures
            r is Ok <==> app_stored_has(self.stored(), name@),
            r matches Ok(c) ==> exists|q: int|
                0 <= q < self.stored().len() && (#[trigger] self.stored()[q]).name@ == name@ && config_view(c)
                    == config_view(self.stored()[q].config),
            r matches Err(e) ==> (e matches AppRuntimeError::NotFound(n) && n@ == name@),
    {
        match self.prepare(name) {
            Ok(h) => Ok(h.config),
            Err(e) => Err(e),
        }
    }

    /// See [`AppRuntimePool::start`].
    pub fn start(&self, name: &str) -> (r: Result<AppRuntimeStart, AppRuntimeError>)
        requires
            self.wf(),
        ensures
            self.running_set().contains(name@) ==> r matches Ok(AppRuntimeStart::Running),
            !self.running_set().contains(name@) && app_stored_has(self.stored(), name@) ==> (r matches Ok(
                AppRuntimeStart::Launch(h),
            ) && exists|q: int|
                0 <= q < self.stored().len() && (#[trigger] self.stored()[q]).name@ == name@ && app_handle_of(
                    h,
                    self.stored()[q],
                )),
            !app_stored_has(self.stored(), name@) ==> (r matches Err(AppRuntimeError::NotFound(n)) && n@ == name@),
    {
        self.pool.start(name)
    }

    /// See [`AppRuntimePool::record_started`].
    pub fn record_started(&mut self, name: &str) -> (inserted: bool)
        requires
            old(self).wf(),
        ensures
            final(self).wf(),
            final(self).stored() == old(self).stored(),
            inserted == (app_stored_has(old(self).stored(), name@) && !old(self).running_set().contains(name@)),
            final(self).running_set() == if inserted {
                old(self).running_set().insert(name@)
            } else {
                old(self).running_set()
            },
    {
        self.pool.record_started(name)
    }

    /// See [`AppRuntimePool::stop`].
    pub fn stop(&mut self, name: &str) -> (r: Result<(), AppRuntimeError>)
        requires
            old(self).wf(),
        ensures
            final(self).wf(),
            final(self).stored() == old(self).stored(),
            r is Ok <==> old(self).running_set().contains(name@),
            final(self).running_set() == old(self).running_set().remove(name@),
            r matches Err(e) ==> (e matches AppRuntimeError::NotFound(n) && n@ == name@),
    {
        self.pool.stop(name)
    }

    /// See [`AppRuntimePool::stop_all`].
    pub fn stop_all(&mut self) -> (r: Vec<String>)
        requires
            old(self).wf(),
        ensures
            final(self).wf(),
            final(self).stored() == old(self).stored(),
            final(self).running_set() == Set::<Seq<char>>::empty(),
            name_set(r@) == old(self).running_set(),
            distinct_names(r@),
    {
        self.pool.stop_all()
    }
}

/// Stopping a runtime undoes recording its start: when `name` was not running, recording it
/// as started (`record_started`) and then stopping it (`stop`) leaves the running set as it
/// was.
pub proof fn law_stop_undoes_start(
    before: AppRuntimePool,
    started: AppRuntimePool,
    stopped: AppRuntimePool,
    name: Seq<char>,
)
    requires
        !before.running_set().contains(name),
        started.running_set() == before.running_set().insert(name),
        stopped.running_set() == started.running_set().remove(name),
    ensures
        stopped.running_set() == before.running_set(),
{
    assert(stopped.running_set() =~= before.running_set());
}

/// Plain view of an app handle: name, metadata and config.
pub open spec fn app_handle_view(h: AppRuntimeHandle) -> (Seq<char>, JsonView, ConfigView) {
    (h.name@, jview(h.metadata), config_view(h.config))
}

/// Preparing an app runtime leaves the manager's launcher in place, so two handles prepared
/// for the same name carry the same name, metadata and config.
pub proof fn law_app_prepare_is_repeatable(
    m: AppRuntimeManager,
    name: Seq<char>,
    h1: AppRuntimeHandle,
    h2: AppRuntimeHandle,
)
    requires
        m.wf(),
        exists|q: int| 0 <= q < m.stored().len() && (#[trigger] m.stored()[q]).name@ == name && app_handle_of(h1, m.stored()[q]),
        exists|q: int| 0 <= q < m.stored().len() && (#[trigger] m.stored()[q]).name@ == name && app_handle_of(h2, m.stored()[q]),
    ensures
        app_handle_view(h1) == app_handle_view(h2),
{
    let q1 = choose|q: int| 0 <= q < m.stored().len() && (#[trigger] m.stored()[q]).name@ == name && app_handle_of(h1, m.stored()[q]);
    let q2 = choose|q: int| 0 <= q < m.stored().len() && (#[trigger] m.stored()[q]).name@ == name && app_handle_of(h2, m.stored()[q]);
    m.lemma_unique_names(name);
    assert(q1 == q2);
}

} // verus!
