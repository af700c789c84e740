//! MCP server definitions stored under `[mcp_servers]` in the Codex config, and the rules
//! for adding, removing and looking them up and for their bearer-token variables. Reading and
//! writing the config file, and the process environment, are the caller's part: the table
//! of servers and the environment come in as values.

use vstd::prelude::*;
use crate::client::pair_views;
use crate::home::{join, join_path};
use crate::text::{blank, chars_of, is_blank};
use crate::order::{lemma_lt_irreflexive, lemma_lt_total, lemma_lt_transitive, str_less, str_lt, strictly_sorted};

verus! {

/// The value of the last pair keyed `k`.
pub open spec fn kv_get(s: Seq<(Seq<char>, Seq<char>)>, k: Seq<char>) -> Option<Seq<char>>
    decreases s.len(),
{
    if s.len() == 0 {
        None
    } else if s.last().0 == k {
        Some(s.last().1)
    } else {
        kv_get(s.drop_last(), k)
    }
}

/// `k` set to `v` unless already present (`entry(k).or_insert(v)`).
pub open spec fn kv_insert_absent(s: Seq<(Seq<char>, Seq<char>)>, k: Seq<char>, v: Seq<char>) -> Seq<
    (Seq<char>, Seq<char>),
> {
    if kv_get(s, k) is Some {
        s
    } else {
        s.push((k, v))
    }
}

/// Each pair of `extra`, in order, inserted into `s` unless its key is already present.
pub open spec fn kv_insert_all_absent(
    s: Seq<(Seq<char>, Seq<char>)>,
    extra: Seq<(Seq<char>, Seq<char>)>,
) -> Seq<(Seq<char>, Seq<char>)>
    decreases extra.len(),
{
    if extra.len() == 0 {
        s
    } else {
        let prev = kv_insert_all_absent(s, extra.drop_last());
        kv_insert_absent(prev, extra.last().0, extra.last().1)
    }
}

proof fn lemma_kv_push(s: Seq<(Seq<char>, Seq<char>)>, x: (Seq<char>, Seq<char>), k: Seq<char>)
    ensures
        kv_get(s.push(x), k) == if x.0 == k { Some(x.1) } else { kv_get(s, k) },
{
    assert(s.push(x).drop_last() =~= s);
}

fn str_eq(a: &String, b: &String) -> (r: bool)
    ensures
        r == (a@ == b@),
{
    let x = chars_of(a.as_str());
    let y = chars_of(b.as_str());
    crate::text::eq_chars(x.as_slice(), y.as_slice())
}

/// The value of the last pair keyed `key`.
pub fn kv_lookup(s: &Vec<(String, String)>, key: &String) -> (r: Option<String>)
    ensures
        match r {
            Some(v) => kv_get(pair_views(s@), key@) == Some(v@),
            None => kv_get(pair_views(s@), key@) is None,
        },
{
    let mut found: Option<String> = None;
    let mut i: usize = 0;
    while i < s.len()
        invariant
            i <= s.len(),
            match found {
                Some(v) => kv_get(pair_views(s@.take(i as int)), key@) == Some(v@),
                None => kv_get(pair_views(s@.take(i as int)), key@) is None,
            },
        decreases s.len() - i,
    {
        proof {
            assert(pair_views(s@.take(i + 1)) =~= pair_views(s@.take(i as int)).push(
                (s@[i as int].0@, s@[i as int].1@),
            ));
            lemma_kv_push(pair_views(s@.take(i as int)), (s@[i as int].0@, s@[i as int].1@), key@);
        }
        if str_eq(&s[i].0, key) {
            found = Some(s[i].1.clone());
        }
        i = i + 1;
    }
    assert(s@.take(s@.len() as int) =~= s@);
    found
}

/// `entry(key).or_insert(value)`.
pub fn kv_put_absent(s: &mut Vec<(String, String)>, key: String, value: String)
    ensures
        pair_views(final(s)@) == kv_insert_absent(pair_views(old(s)@), key@, value@),
{
    if kv_lookup(s, &key).is_none() {
        let ghost before = s@;
        s.push((key, value));
        assert(pair_views(s@) =~= pair_views(before).push((key@, value@)));
    }
}

/// Inserts each pair of `extra` that is not present yet.
pub fn kv_put_all_absent(s: &mut Vec<(String, String)>, extra: &Vec<(String, String)>)
    ensures
        pair_views(final(s)@) == kv_insert_all_absent(pair_views(old(s)@), pair_views(extra@)),
{
    let ghost start = pair_views(s@);
    let mut i: usize = 0;
    while i < extra.len()
        invariant
            i <= extra.len(),
            pair_views(s@) == kv_insert_all_absent(start, pair_views(extra@.take(i as int))),
        decreases extra.len() - i,
    {
        proof {
            assert(pair_views(extra@.take(i + 1)).drop_last() =~= pair_views(extra@.take(i as int)));
        }
        kv_put_absent(s, extra[i].0.clone(), extra[i].1.clone());
        i = i + 1;
    }
    assert(extra@.take(extra@.len() as int) =~= extra@);
}

/// Tool allow/deny lists for a given MCP server.
#[derive(Debug)]
pub struct McpToolConfig {
    pub enabled: Vec<String>,
    pub disabled: Vec<String>,
}

impl Default for McpToolConfig {
    fn default() -> (r: Self)
        ensures
            r.enabled@.len() == 0 && r.disabled@.len() == 0,
    {
        McpToolConfig { enabled: Vec::new(), disabled: Vec::new() }
    }
}

/// Stdio transport configuration for an MCP server.
#[derive(Debug)]
pub struct StdioServerDefinition {
    pub command: String,
    pub args: Vec<String>,
    /// Environment variables, one pair per name.
    pub env: Vec<(String, String)>,
    pub timeout_ms: Option<u64>,
}

/// HTTP transport configuration that supports streaming responses.
#[derive(Debug)]
pub struct StreamableHttpDefinition {
    pub url: String,
    /// Headers, one pair per name.
    pub headers: Vec<(String, String)>,
    pub bearer_env_var: Option<String>,
    pub connect_timeout_ms: Option<u64>,
    pub request_timeout_ms: Option<u64>,
}

/// Supported transport definitions for MCP servers.
#[derive(Debug)]
pub enum McpTransport {
    Stdio(StdioServerDefinition),
    StreamableHttp(StreamableHttpDefinition),
}

/// MCP server configuration stored under `[mcp_servers]`.
#[derive(Debug)]
pub struct McpServerDefinition {
    pub transport: McpTransport,
    pub description: Option<String>,
    pub tags: Vec<String>,
    pub tools: Option<McpToolConfig>,
}

/// MCP server definition coupled with its name.
#[derive(Debug)]
pub struct McpServerEntry {
    pub name: String,
    pub definition: McpServerDefinition,
}

/// Input for adding or updating an MCP server entry.
#[derive(Debug)]
pub struct AddServerRequest {
    pub name: String,
    pub definition: McpServerDefinition,
    pub overwrite: bool,
    /// Environment variables to set (and to add to a stdio server's env), one pair per name.
    pub env: Vec<(String, String)>,
    /// Token stored in the server's bearer variable.
    pub bearer_token: Option<String>,
}

/// Result of logging into a server (auth token set in its env var).
#[derive(Debug)]
pub struct McpLoginResult {
    pub server: String,
    pub env_var: Option<String>,
}

/// Result of clearing a stored auth token.
#[derive(Debug)]
pub struct McpLogoutResult {
    pub server: String,
    pub env_var: Option<String>,
    pub cleared: bool,
}

/// Errors of the MCP config rules (the file-level ones are the caller's).
#[derive(Debug)]
pub enum McpConfigError {
    ServerAlreadyExists(String),
    ServerNotFound(String),
    InvalidServerName,
    InvalidEnvVarName { name: String },
    MissingBearerEnvVar { server: String },
    UnsupportedAuthTransport { server: String },
    AppRuntimeAlreadyExists(String),
    AppRuntimeNotFound(String),
    InvalidAppRuntimeName,
}


pub open spec fn str_views(v: Seq<String>) -> Seq<Seq<char>> {
    v.map_values(|x: String| x@)
}

pub open spec fn opt_str(o: Option<String>) -> Option<Seq<char>> {
    match o {
        Some(s) => Some(s@),
        None => None,
    }
}

/// Plain view of a transport.
pub enum TransportView {
    Stdio {
        command: Seq<char>,
        args: Seq<Seq<char>>,
        env: Seq<(Seq<char>, Seq<char>)>,
        timeout_ms: Option<u64>,
    },
    StreamableHttp {
        url: Seq<char>,
        headers: Seq<(Seq<char>, Seq<char>)>,
        bearer_env_var: Option<Seq<char>>,
        connect_timeout_ms: Option<u64>,
        request_timeout_ms: Option<u64>,
    },
}

/// Plain view of a definition: transport, description, tags, tool lists.
pub type DefView = (TransportView, Option<Seq<char>>, Seq<Seq<char>>, Option<(Seq<Seq<char>>, Seq<Seq<char>>)>);

pub open spec fn transport_view(t: McpTransport) -> TransportView {
    match t {
        McpTransport::Stdio(d) => TransportView::Stdio {
            command: d.command@,
            args: str_views(d.args@),
            env: pair_views(d.env@),
            timeout_ms: d.timeout_ms,
        },
        McpTransport::StreamableHttp(d) => TransportView::StreamableHttp {
            url: d.url@,
            headers: pair_views(d.headers@),
            bearer_env_var: opt_str(d.bearer_env_var),
            connect_timeout_ms: d.connect_timeout_ms,
            request_timeout_ms: d.request_timeout_ms,
        },
    }
}

pub open spec fn tools_view(t: Option<McpToolConfig>) -> Option<(Seq<Seq<char>>, Seq<Seq<char>>)> {
    match t {
        Some(c) => Some((str_views(c.enabled@), str_views(c.disabled@))),
        None => None,
    }
}

pub open spec fn def_view(d: McpServerDefinition) -> DefView {
    (transport_view(d.transport), opt_str(d.description), str_views(d.tags@), tools_view(d.tools))
}

/// The table of servers as (name, definition) views, in order.
pub open spec fn table_view(s: Seq<McpServerEntry>) -> Seq<(Seq<char>, DefView)> {
    s.map_values(|e: McpServerEntry| (e.name@, def_view(e.definition)))
}

/// The definition of the last server named `name`.
pub open spec fn tv_get(t: Seq<(Seq<char>, DefView)>, name: Seq<char>) -> Option<DefView>
    decreases t.len(),
{
    if t.len() == 0 {
        None
    } else if t.last().0 == name {
        Some(t.last().1)
    } else {
        tv_get(t.drop_last(), name)
    }
}

/// The servers not named `name`, in order.
pub open spec fn tv_remove(t: Seq<(Seq<char>, DefView)>, name: Seq<char>) -> Seq<(Seq<char>, DefView)>
    decreases t.len(),
{
    if t.len() == 0 {
        t
    } else if t.last().0 == name {
        tv_remove(t.drop_last(), name)
    } else {
        tv_remove(t.drop_last(), name).push(t.last())
    }
}

/// `name` set to `d`, replacing any server of that name.
pub open spec fn tv_insert(t: Seq<(Seq<char>, DefView)>, name: Seq<char>, d: DefView) -> Seq<(Seq<char>, DefView)> {
    tv_remove(t, name).push((name, d))
}

pub fn clone_strings(v: &Vec<String>) -> (r: Vec<String>)
    ensures
        str_views(r@) == str_views(v@),
{
    let mut r: Vec<String> = Vec::new();
    let mut i: usize = 0;
    while i < v.len()
        invariant
            i <= v.len(),
            str_views(r@) == str_views(v@.take(i as int)),
        decreases v.len() - i,
    {
        let ghost b = r@;
        r.push(v[i].clone());
        assert(str_views(r@) =~= str_views(b).push(v@[i as int]@));
        assert(str_views(v@.take(i + 1)) =~= str_views(v@.take(i as int)).push(v@[i as int]@));
        i = i + 1;
    }
    assert(v@.take(v@.len() as int) =~= v@);
    r
}

pub fn clone_pairs(v: &Vec<(String, String)>) -> (r: Vec<(String, String)>)
    ensures
        pair_views(r@) == pair_views(v@),
{
    let mut r: Vec<(String, String)> = Vec::new();
    let mut i: usize = 0;
    while i < v.len()
        invariant
            i <= v.len(),
            pair_views(r@) == pair_views(v@.take(i as int)),
        decreases v.len() - i,
    {
        let ghost b = r@;
        r.push((v[i].0.clone(), v[i].1.clone()));
        assert(pair_views(r@) =~= pair_views(b).push((v@[i as int].0@, v@[i as int].1@)));
        assert(pair_views(v@.take(i + 1)) =~= pair_views(v@.take(i as int)).push(
            (v@[i as int].0@, v@[i as int].1@),
        ));
        i = i + 1;
    }
    assert(v@.take(v@.len() as int) =~= v@);
    r
}

fn clone_opt(o: &Option<String>) -> (r: Option<String>)
    ensures
        opt_str(r) == opt_str(*o),
{
    match o {
        Some(s) => Some(s.clone()),
        None => None,
    }
}

impl McpToolConfig {
    pub fn duplicate(&self) -> (r: Self)
        ensures
            tools_view(Some(r)) == tools_view(Some(*self)),
    {
        McpToolConfig { enabled: clone_strings(&self.enabled), disabled: clone_strings(&self.disabled) }
    }
}

impl McpTransport {
    pub fn duplicate(&self) -> (r: Self)
        ensures
            transport_view(r) == transport_view(*self),
    {
        match self {
            McpTransport::Stdio(d) => McpTransport::Stdio(
                StdioServerDefinition {
                    command: d.command.clone(),
                    args: clone_strings(&d.args),
                    env: clone_pairs(&d.env),
                    timeout_ms: d.timeout_ms,
                },
            ),
            McpTransport::StreamableHttp(d) => McpTransport::StreamableHttp(
                StreamableHttpDefinition {
                    url: d.url.clone(),
                    headers: clone_pairs(&d.headers),
                    bearer_env_var: clone_opt(&d.bearer_env_var),
                    connect_timeout_ms: d.connect_timeout_ms,
                    request_timeout_ms: d.request_timeout_ms,
                },
            ),
        }
    }
}

impl McpServerDefinition {
    pub fn duplicate(&self) -> (r: Self)
        ensures
            def_view(r) == def_view(*self),
    {
        let tools = match &self.tools {
            Some(t) => Some(t.duplicate()),
            None => None,
        };
        McpServerDefinition {
            transport: self.transport.duplicate(),
            description: clone_opt(&self.description),
            tags: clone_strings(&self.tags),
            tools,
        }
    }
}

/// Splits the table into the servers not named `name` and the last one that is.
pub fn take_server(servers: Vec<McpServerEntry>, name: &str) -> (r: (Vec<McpServerEntry>, Option<McpServerEntry>))
    ensures
        table_view(r.0@) == tv_remove(table_view(servers@), name@),
        match r.1 {
            Some(e) => e.name@ == name@ && tv_get(table_view(servers@), name@) == Some(def_view(e.definition)),
            None => tv_get(table_view(servers@), name@) is None,
        },
{
    let key = name.to_owned();
    let ghost before = servers@;
    let n = servers.len();
    let mut rest = servers;
    let mut kept: Vec<McpServerEntry> = Vec::new();
    let mut found: Option<McpServerEntry> = None;
    let mut i: usize = 0;
    while i < n
        invariant
            i <= n == before.len(),
            key@ == name@,
            rest@ == before.subrange(i as int, n as int),
            table_view(kept@) == tv_remove(table_view(before.take(i as int)), name@),
            match found {
                Some(e) => e.name@ == name@ && tv_get(table_view(before.take(i as int)), name@) == Some(
                    def_view(e.definition),
                ),
                None => tv_get(table_view(before.take(i as int)), name@) is None,
            },
        decreases n - i,
    {
        let e = rest.remove(0);
        assert(e == before[i as int]);
        assert(rest@ =~= before.subrange(i + 1, n as int));
        proof {
            let t = table_view(before.take(i as int));
            assert(table_view(before.take(i + 1)) =~= t.push((e.name@, def_view(e.definition))));
            assert(t.push((e.name@, def_view(e.definition))).drop_last() =~= t);
        }
        if str_eq(&e.name, &key) {
            found = Some(e);
        } else {
            let ghost kb = kept@;
            kept.push(e);
            assert(table_view(kept@) =~= table_view(kb).push((e.name@, def_view(e.definition))));
        }
        i = i + 1;
    }
    assert(before.take(n as int) =~= before);
    (kept, found)
}

/// A name the process environment accepts: not empty, without `=` or NUL.
pub open spec fn env_key_ok(k: Seq<char>) -> bool {
    k.len() > 0 && !k.contains('=') && !k.contains('\0')
}

/// The first key of `s` that is not a valid variable name.
pub open spec fn first_bad_key(s: Seq<(Seq<char>, Seq<char>)>) -> Option<Seq<char>>
    decreases s.len(),
{
    if s.len() == 0 {
        None
    } else {
        match first_bad_key(s.drop_last()) {
            Some(k) => Some(k),
            None => if env_key_ok(s.last().0) {
                None
            } else {
                Some(s.last().0)
            },
        }
    }
}

/// Where a server keeps its bearer token.
pub enum BearerVar {
    Var(Seq<char>),
    /// An HTTP server without `bearer_env_var`.
    Missing,
    /// A stdio server: no login or logout.
    Unsupported,
}

pub open spec fn bearer_of(t: TransportView) -> BearerVar {
    match t {
        TransportView::StreamableHttp { bearer_env_var, .. } => match bearer_env_var {
            Some(v) => BearerVar::Var(v),
            None => BearerVar::Missing,
        },
        TransportView::Stdio { .. } => BearerVar::Unsupported,
    }
}

/// The variables an addition sets: the requested ones, plus the bearer variable with the
/// token unless the request already names it.
pub open spec fn injections_view(env: Seq<(Seq<char>, Seq<char>)>, token: Option<Seq<char>>, t: TransportView) -> Seq<
    (Seq<char>, Seq<char>),
> {
    match (token, bearer_of(t)) {
        (Some(tok), BearerVar::Var(v)) => kv_insert_absent(env, v, tok),
        _ => env,
    }
}

/// A stdio definition gains the injected variables it does not set itself.
pub open spec fn with_stdio_env(d: DefView, inj: Seq<(Seq<char>, Seq<char>)>) -> DefView {
    match d.0 {
        TransportView::Stdio { command, args, env, timeout_ms } => (
            TransportView::Stdio { command, args, env: kv_insert_all_absent(env, inj), timeout_ms },
            d.1,
            d.2,
            d.3,
        ),
        _ => d,
    }
}

/// Accepts a variable name that is not empty and holds no `=` or NUL; otherwise
/// `InvalidEnvVarName` with the name.
pub fn validate_env_key(key: &str) -> (r: Result<(), McpConfigError>)
    ensures
        env_key_ok(key@) <==> r is Ok,
        r matches Err(e) ==> (e matches McpConfigError::InvalidEnvVarName { name } && name@ == key@),
{
    let k = chars_of(key);
    let mut ok = k.len() > 0;
    let mut i: usize = 0;
    while i < k.len()
        invariant
            i <= k.len(),
            k@ == key@,
            ok == (k@.len() > 0 && forall|j: int| 0 <= j < i ==> k@[j] != '=' && k@[j] != '\0'),
        decreases k.len() - i,
    {
        if k[i] == '=' || k[i] == '\0' {
            ok = false;
        }
        i = i + 1;
    }
    if ok {
        Ok(())
    } else {
        proof {
            if k@.len() > 0 {
                let j = choose|j: int| 0 <= j < k@.len() && !(k@[j] != '=' && k@[j] != '\0');
                assert(k@[j] == '=' || k@[j] == '\0');
            }
        }
        Err(McpConfigError::InvalidEnvVarName { name: key.to_owned() })
    }
}

/// The first pair of `s` whose key is not a valid variable name.
fn check_env_keys(s: &Vec<(String, String)>) -> (r: Result<(), McpConfigError>)
    ensures
        match first_bad_key(pair_views(s@)) {
            None => r is Ok,
            Some(k) => r matches Err(McpConfigError::InvalidEnvVarName { name }) && name@ == k,
        },
{
    let mut i: usize = 0;
    while i < s.len()
        invariant
            i <= s.len(),
            first_bad_key(pair_views(s@.take(i as int))) is None,
        decreases s.len() - i,
    {
        proof {
            assert(pair_views(s@.take(i + 1)) =~= pair_views(s@.take(i as int)).push(
                (s@[i as int].0@, s@[i as int].1@),
            ));
            assert(pair_views(s@.take(i + 1)).drop_last() =~= pair_views(s@.take(i as int)));
        }
        match validate_env_key(s[i].0.as_str()) {
            Ok(()) => {},
            Err(e) => {
                proof {
                    let t = pair_views(s@.take(i + 1));
                    let p = pair_views(s@);
                    assert forall|m: int| i + 1 <= m <= s@.len() implies first_bad_key(
                        pair_views(s@.take(m)),
                    ) == Some(s@[i as int].0@) by {
                        lemma_first_bad_prefix(s@, i + 1, m);
                    }
                    assert(s@.take(s@.len() as int) =~= s@);
                }
                return Err(e);
            },
        }
        i = i + 1;
    }
    assert(s@.take(s@.len() as int) =~= s@);
    Ok(())
}

proof fn lemma_first_bad_prefix(s: Seq<(String, String)>, a: int, b: int)
    requires
        0 <= a <= b <= s.len(),
        first_bad_key(pair_views(s.take(a))) is Some,
    ensures
        first_bad_key(pair_views(s.take(b))) == first_bad_key(pair_views(s.take(a))),
    decreases b - a,
{
    if b > a {
        lemma_first_bad_prefix(s, a, b - 1);
        assert(pair_views(s.take(b)).drop_last() =~= pair_views(s.take(b - 1)));
    }
}

/// An addition that passed the name, token and variable checks.
#[derive(Debug)]
pub struct PreparedServer {
    pub entry: McpServerEntry,
    pub overwrite: bool,
    /// Variables to set in the process environment before the table is written.
    pub env: Vec<(String, String)>,
}

/// Loads and updates MCP server definitions kept in a config file.
#[derive(Debug)]
pub struct McpConfigManager {
    config_path: String,
}

impl McpConfigManager {
    pub closed spec fn path_view(&self) -> Seq<char> {
        self.config_path@
    }

    /// A manager for the config file at `config_path`.
    pub fn new(config_path: &str) -> (r: Self)
        ensures
            r.path_view() == config_path@,
    {
        McpConfigManager { config_path: config_path.to_owned() }
    }

    /// A manager for `config.toml` under a `CODEX_HOME` directory.
    pub fn from_code_home(code_home: &str) -> (r: Self)
        ensures
            r.path_view() == join_path(code_home@, "config.toml"@),
    {
        McpConfigManager { config_path: join(code_home, "config.toml") }
    }

    /// The config file.
    pub fn config_path(&self) -> (r: &str)
        ensures
            r@ == self.path_view(),
    {
        self.config_path.as_str()
    }

    /// Every configured server, one per name (the last of a name wins), in name order.
    pub fn list_servers(&self, servers: Vec<McpServerEntry>) -> (r: Vec<McpServerEntry>)
        ensures
            strictly_sorted(server_names(r@)),
            forall|q: int|
                0 <= q < r@.len() ==> tv_get(table_view(servers@), (#[trigger] r@[q]).name@) == Some(
                    def_view(r@[q].definition),
                ),
            forall|j: int|
                0 <= j < servers@.len() ==> exists|q: int|
                    0 <= q < r@.len() && (#[trigger] r@[q]).name@ == (#[trigger] servers@[j]).name@,
    {
        sorted_servers(servers)
    }

    /// The server named `name`.
    pub fn get_server(&self, servers: Vec<McpServerEntry>, name: &str) -> (r: Result<McpServerEntry, McpConfigError>)
        ensures
            match tv_get(table_view(servers@), name@) {
                Some(d) => r matches Ok(e) && e.name@ == name@ && def_view(e.definition) == d,
                None => r matches Err(McpConfigError::ServerNotFound(n)) && n@ == name@,
            },
    {
        let (_rest, found) = take_server(servers, name);
        match found {
            Some(e) => Ok(e),
            None => Err(McpConfigError::ServerNotFound(name.to_owned())),
        }
    }

    /// The checks of `add_server` that come before the table is read: a non-blank name, a
    /// bearer variable when a token is given, and valid names for every variable to set. A
    /// stdio server's env gains the variables it does not set itself.
    pub fn prepare_add_server(&self, request: AddServerRequest) -> (r: Result<PreparedServer, McpConfigError>)
        ensures
            is_blank(request.name@) ==> r matches Err(McpConfigError::InvalidServerName),
            !is_blank(request.name@) && request.bearer_token is Some ==> match bearer_of(
                transport_view(request.definition.transport),
            ) {
                BearerVar::Missing => r matches Err(McpConfigError::MissingBearerEnvVar { server })
                    && server@ == request.name@,
                BearerVar::Unsupported => r matches Err(
                    McpConfigError::UnsupportedAuthTransport { server },
                ) && server@ == request.name@,
                BearerVar::Var(_) => true,
            },
            !is_blank(request.name@) && (request.bearer_token is None || bearer_of(
                transport_view(request.definition.transport),
            ) is Var) ==> {
                let inj = injections_view(
                    pair_views(request.env@),
                    opt_str(request.bearer_token),
                    transport_view(request.definition.transport),
                );
                match first_bad_key(inj) {
                    Some(k) => r matches Err(McpConfigError::InvalidEnvVarName { name }) && name@ == k,
                    None => r matches Ok(p) && p.entry.name@ == request.name@ && p.overwrite
                        == request.overwrite && pair_views(p.env@) == inj && def_view(p.entry.definition)
                        == with_stdio_env(def_view(request.definition), inj),
                }
            },
    {
        let AddServerRequest { name, definition, overwrite, env, bearer_token } = request;
        if blank(name.as_str()) {
            return Err(McpConfigError::InvalidServerName);
        }
        let mut injections = env;
        let ghost env0 = pair_views(injections@);
        match bearer_token {
            Some(token) => {
                let var = match &definition.transport {
                    McpTransport::StreamableHttp(http) => match &http.bearer_env_var {
                        Some(v) => v.clone(),
                        None => {
                            return Err(McpConfigError::MissingBearerEnvVar { server: name });
                        },
                    },
                    McpTransport::Stdio(_) => {
                        return Err(McpConfigError::UnsupportedAuthTransport { server: name });
                    },
                };
                kv_put_absent(&mut injections, var, token);
            },
            None => {},
        }
        let McpServerDefinition { transport, description, tags, tools } = definition;
        let transport = match transport {
            McpTransport::Stdio(d) => {
                let StdioServerDefinition { command, args, env, timeout_ms } = d;
                let mut env = env;
                kv_put_all_absent(&mut env, &injections);
                McpTransport::Stdio(StdioServerDefinition { command, args, env, timeout_ms })
            },
            other => other,
        };
        match check_env_keys(&injections) {
            Ok(()) => {},
            Err(e) => {
                return Err(e);
            },
        }
        Ok(
            PreparedServer {
                entry: McpServerEntry {
                    name,
                    definition: McpServerDefinition { transport, description, tags, tools },
                },
                overwrite,
                env: injections,
            },
        )
    }

    /// `add_server`, given the table read from the config: the prepared server is stored
    /// under its name, replacing one of that name only when `overwrite` is set. Returns the
    /// new table and the stored entry.
    pub fn add_server(&self, servers: Vec<McpServerEntry>, prepared: PreparedServer) -> (r: Result<
        (Vec<McpServerEntry>, McpServerEntry),
        McpConfigError,
    >)
        ensures
            tv_get(table_view(servers@), prepared.entry.name@) is Some && !prepared.overwrite ==> (r matches Err(
                McpConfigError::ServerAlreadyExists(n),
            ) && n@ == prepared.entry.name@),
            !(tv_get(table_view(servers@), prepared.entry.name@) is Some && !prepared.overwrite) ==> (r matches Ok(
                (t, e),
            ) && table_view(t@) == tv_insert(
                table_view(servers@),
                prepared.entry.name@,
                def_view(prepared.entry.definition),
            ) && e.name@ == prepared.entry.name@ && def_view(e.definition) == def_view(
                prepared.entry.definition,
            )),
    {
        let PreparedServer { entry, overwrite, env: _ } = prepared;
        let (rest, found) = take_server(servers, entry.name.as_str());
        if found.is_some() && !overwrite {
            return Err(McpConfigError::ServerAlreadyExists(entry.name));
        }
        let copy = McpServerEntry { name: entry.name.clone(), definition: entry.definition.duplicate() };
        let mut table = rest;
        let ghost tb = table@;
        table.push(entry);
        assert(table_view(table@) =~= table_view(tb).push((copy.name@, def_view(copy.definition))));
        Ok((table, copy))
    }

    /// `remove_server`: the table without the server named `name`, and the removed entry
    /// (the config is rewritten only when there was one).
    pub fn remove_server(&self, servers: Vec<McpServerEntry>, name: &str) -> (r: (Vec<McpServerEntry>, Option<McpServerEntry>))
        ensures
            table_view(r.0@) == tv_remove(table_view(servers@), name@),
            match r.1 {
                Some(e) => e.name@ == name@ && tv_get(table_view(servers@), name@) == Some(def_view(e.definition)),
                None => tv_get(table_view(servers@), name@) is None,
            },
    {
        take_server(servers, name)
    }

    /// The bearer variable of the server named `name`.
    fn bearer_env_var(servers: Vec<McpServerEntry>, name: &str) -> (r: Result<String, McpConfigError>)
        ensures
            match tv_get(table_view(servers@), name@) {
                None => r matches Err(McpConfigError::ServerNotFound(n)) && n@ == name@,
                Some(d) => match bearer_of(d.0) {
                    BearerVar::Var(v) => r matches Ok(s) && s@ == v,
                    BearerVar::Missing => r matches Err(McpConfigError::MissingBearerEnvVar { server })
                        && server@ == name@,
                    BearerVar::Unsupported => r matches Err(
                        McpConfigError::UnsupportedAuthTransport { server },
                    ) && server@ == name@,
                },
            },
    {
        let (_rest, found) = take_server(servers, name);
        let e = match found {
            Some(e) => e,
            None => {
                return Err(McpConfigError::ServerNotFound(name.to_owned()));
            },
        };
        match &e.definition.transport {
            McpTransport::StreamableHttp(http) => match &http.bearer_env_var {
                Some(v) => Ok(v.clone()),
                None => Err(McpConfigError::MissingBearerEnvVar { server: name.to_owned() }),
            },
            McpTransport::Stdio(_) => Err(McpConfigError::UnsupportedAuthTransport { server: name.to_owned() }),
        }
    }

    /// `login`: the bearer variable of the server named `name`, which must be a valid
    /// variable name; the caller stores the token in it.
    pub fn login(&self, servers: Vec<McpServerEntry>, name: &str) -> (r: Result<McpLoginResult, McpConfigError>)
        ensures
            match tv_get(table_view(servers@), name@) {
                None => r matches Err(McpConfigError::ServerNotFound(n)) && n@ == name@,
                Some(d) => match bearer_of(d.0) {
                    BearerVar::Var(v) => if env_key_ok(v) {
                        r matches Ok(res) && res.server@ == name@ && opt_str(res.env_var) == Some(v)
                    } else {
                        r matches Err(McpConfigError::InvalidEnvVarName { name: k }) && k@ == v
                    },
                    BearerVar::Missing => r matches Err(McpConfigError::MissingBearerEnvVar { server })
                        && server@ == name@,
                    BearerVar::Unsupported => r matches Err(
                        McpConfigError::UnsupportedAuthTransport { server },
                    ) && server@ == name@,
                },
            },
    {
        let var = match Self::bearer_env_var(servers, name) {
            Ok(v) => v,
            Err(e) => {
                return Err(e);
            },
        };
        match validate_env_key(var.as_str()) {
            Ok(()) => Ok(McpLoginResult { server: name.to_owned(), env_var: Some(var) }),
            Err(e) => Err(e),
        }
    }

    /// `logout`: the bearer variable of the server named `name`, and whether it was set
    /// (`set_vars` names the variables currently set); the caller then clears it.
    pub fn logout(&self, servers: Vec<McpServerEntry>, name: &str, set_vars: &Vec<String>) -> (r: Result<McpLogoutResult, McpConfigError>)
        ensures
            match tv_get(table_view(servers@), name@) {
                None => r matches Err(McpConfigError::ServerNotFound(n)) && n@ == name@,
                Some(d) => match bearer_of(d.0) {
                    BearerVar::Var(v) => r matches Ok(res) && res.server@ == name@ && opt_str(res.env_var)
                        == Some(v) && res.cleared == str_views(set_vars@).contains(v),
                    BearerVar::Missing => r matches Err(McpConfigError::MissingBearerEnvVar { server })
                        && server@ == name@,
                    BearerVar::Unsupported => r matches Err(
                        McpConfigError::UnsupportedAuthTransport { server },
                    ) && server@ == name@,
                },
            },
    {
        let var = match Self::bearer_env_var(servers, name) {
            Ok(v) => v,
            Err(e) => {
                return Err(e);
            },
        };
        let mut cleared = false;
        let mut i: usize = 0;
        while i < set_vars.len()
            invariant
                i <= set_vars.len(),
                cleared == str_views(set_vars@.take(i as int)).contains(var@),
            decreases set_vars.len() - i,
        {
            proof {
                assert(str_views(set_vars@.take(i + 1)) =~= str_views(set_vars@.take(i as int)).push(
                    set_vars@[i as int]@,
                ));
            }
            let hit = str_eq(&set_vars[i], &var);
            proof {
                let p = str_views(set_vars@.take(i as int));
                let q = p.push(set_vars@[i as int]@);
                if q.contains(var@) {
                    let j = choose|j: int| 0 <= j < q.len() && q[j] == var@;
                    if j < p.len() {
                        assert(p[j] == var@);
                    }
                }
                if p.contains(var@) {
                    let j = choose|j: int| 0 <= j < p.len() && p[j] == var@;
                    assert(q[j] == var@);
                }
                if hit {
                    assert(q[p.len() as int] == var@);
                }
            }
            if hit {
                cleared = true;
            }
            i = i + 1;
        }
        assert(set_vars@.take(set_vars@.len() as int) =~= set_vars@);
        Ok(McpLogoutResult { server: name.to_owned(), env_var: Some(var), cleared })
    }
}

/// The names of the servers, in order.
pub open spec fn server_names(s: Seq<McpServerEntry>) -> Seq<Seq<char>> {
    s.map_values(|e: McpServerEntry| e.name@)
}

proof fn lemma_table_push(s: Seq<McpServerEntry>, e: McpServerEntry, n: Seq<char>)
    ensures
        tv_get(table_view(s.push(e)), n) == if e.name@ == n {
            Some(def_view(e.definition))
        } else {
            tv_get(table_view(s), n)
        },
{
    assert(table_view(s.push(e)) =~= table_view(s).push((e.name@, def_view(e.definition))));
    lemma_tv_push(table_view(s), (e.name@, def_view(e.definition)), n);
}

/// The servers sorted by name, one per name, the last of a name winning.
fn sorted_servers(servers: Vec<McpServerEntry>) -> (r: Vec<McpServerEntry>)
    ensures
        strictly_sorted(server_names(r@)),
        forall|q: int|
            0 <= q < r@.len() ==> tv_get(table_view(servers@), (#[trigger] r@[q]).name@) == Some(
                def_view(r@[q].definition),
            ),
        forall|j: int|
            0 <= j < servers@.len() ==> exists|q: int|
                0 <= q < r@.len() && (#[trigger] r@[q]).name@ == (#[trigger] servers@[j]).name@,
{
    let ghost input = servers@;
    let n = servers.len();
    let mut rest = servers;
    let mut acc: Vec<McpServerEntry> = Vec::new();
    let mut i: usize = 0;
    while i < n
        invariant
            i <= n == input.len(),
            rest@ == input.subrange(i as int, n as int),
            strictly_sorted(server_names(acc@)),
            forall|q: int|
                0 <= q < acc@.len() ==> tv_get(table_view(input.take(i as int)), (#[trigger] acc@[q]).name@)
                    == Some(def_view(acc@[q].definition)),
            forall|j: int|
                0 <= j < i ==> exists|q: int|
                    0 <= q < acc@.len() && (#[trigger] acc@[q]).name@ == (#[trigger] input[j]).name@,
        decreases n - i,
    {
        let e = rest.remove(0);
        assert(e == input[i as int]);
        assert(rest@ =~= input.subrange(i + 1, n as int));
        proof {
            assert(input.take(i + 1) =~= input.take(i as int).push(e));
        }
        let mut p: usize = 0;
        while p < acc.len() && str_less(acc[p].name.as_str(), e.name.as_str())
            invariant
                p <= acc@.len(),
                forall|q: int| 0 <= q < p ==> str_lt((#[trigger] acc@[q]).name@, e.name@),
            decreases acc@.len() - p,
        {
            p = p + 1;
        }
        let ghost old_acc = acc@;
        let same = p < acc.len() && crate::text::eq_chars(
            chars_of(acc[p].name.as_str()).as_slice(),
            chars_of(e.name.as_str()).as_slice(),
        );
        proof {
            lemma_table_push(input.take(i as int), e, e.name@);
            assert forall|q: int| p <= q < old_acc.len() && !(q == p && same) implies str_lt(
                e.name@,
                #[trigger] old_acc[q].name@,
            ) by {
                assert(server_names(old_acc)[p as int] == old_acc[p as int].name@);
                if !str_lt(old_acc[p as int].name@, e.name@) {
                    if old_acc[p as int].name@ != e.name@ {
                        lemma_lt_total(old_acc[p as int].name@, e.name@);
                    }
                }
                if q > p {
                    assert(server_names(old_acc)[q] == old_acc[q].name@);
                    assert(str_lt(server_names(old_acc)[p as int], server_names(old_acc)[q]));
                    if old_acc[p as int].name@ == e.name@ {
                    } else {
                        lemma_lt_transitive(e.name@, old_acc[p as int].name@, old_acc[q].name@);
                    }
                }
            }
        }
        if same {
            acc.remove(p);
            acc.insert(p, e);
            proof {
                assert(acc@ =~= old_acc.update(p as int, e));
                assert forall|a: int, b: int| 0 <= a < b < acc@.len() implies str_lt(
                    #[trigger] server_names(acc@)[a],
                    #[trigger] server_names(acc@)[b],
                ) by {
                    assert(server_names(old_acc)[a] == old_acc[a].name@);
                    assert(server_names(old_acc)[b] == old_acc[b].name@);
                }
                assert forall|q: int| 0 <= q < acc@.len() implies tv_get(
                    table_view(input.take(i + 1)),
                    (#[trigger] acc@[q]).name@,
                ) == Some(def_view(acc@[q].definition)) by {
                    lemma_table_push(input.take(i as int), e, acc@[q].name@);
                    if q != p {
                        assert(server_names(old_acc)[q] == old_acc[q].name@);
                        assert(server_names(old_acc)[p as int] == old_acc[p as int].name@);
                        if q < p {
                            assert(str_lt(server_names(old_acc)[q], server_names(old_acc)[p as int]));
                        } else {
                            assert(str_lt(server_names(old_acc)[p as int], server_names(old_acc)[q]));
                        }
                        lemma_lt_irreflexive(e.name@);
                    }
                }
                assert forall|j: int| 0 <= j < i + 1 implies exists|q: int|
                    0 <= q < acc@.len() && (#[trigger] acc@[q]).name@ == (#[trigger] input[j]).name@ by {
                    if j == i {
                        assert(acc@[p as int].name@ == input[j].name@);
                    } else {
                        let q = choose|q: int| 0 <= q < old_acc.len() && (#[trigger] old_acc[q]).name@ == input[j].name@;
                        assert(acc@[q].name@ == input[j].name@);
                    }
                }
            }
        } else {
            acc.insert(p, e);
            proof {
                assert(acc@ =~= old_acc.insert(p as int, e));
                assert forall|a: int, b: int| 0 <= a < b < acc@.len() implies str_lt(
                    #[trigger] server_names(acc@)[a],
                    #[trigger] server_names(acc@)[b],
                ) by {
                    if a < p && b < p {
                        assert(server_names(old_acc)[a] == old_acc[a].name@);
                        assert(server_names(old_acc)[b] == old_acc[b].name@);
                    } else if a < p && b == p {
                    } else if a < p && b > p {
                        assert(str_lt(old_acc[a].name@, e.name@));
                        assert(str_lt(e.name@, old_acc[b - 1].name@));
                        lemma_lt_transitive(old_acc[a].name@, e.name@, old_acc[b - 1].name@);
                    } else if a == p {
                        assert(str_lt(e.name@, old_acc[b - 1].name@));
                    } else {
                        assert(server_names(old_acc)[a - 1] == old_acc[a - 1].name@);
                        assert(server_names(old_acc)[b - 1] == old_acc[b - 1].name@);
                    }
                }
                assert forall|q: int| 0 <= q < acc@.len() implies tv_get(
                    table_view(input.take(i + 1)),
                    (#[trigger] acc@[q]).name@,
                ) == Some(def_view(acc@[q].definition)) by {
                    lemma_table_push(input.take(i as int), e, acc@[q].name@);
                    if q < p {
                        assert(acc@[q] == old_acc[q]);
                        lemma_lt_irreflexive(e.name@);
                    } else if q > p {
                        assert(acc@[q] == old_acc[q - 1]);
                        assert(str_lt(e.name@, old_acc[q - 1].name@));
                        lemma_lt_irreflexive(e.name@);
                    }
                }
                assert forall|j: int| 0 <= j < i + 1 implies exists|q: int|
                    0 <= q < acc@.len() && (#[trigger] acc@[q]).name@ == (#[trigger] input[j]).name@ by {
                    if j == i {
                        assert(acc@[p as int].name@ == input[j].name@);
                    } else {
                        let q = choose|q: int| 0 <= q < old_acc.len() && (#[trigger] old_acc[q]).name@ == input[j].name@;
                        if q < p {
                            assert(acc@[q].name@ == input[j].name@);
                        } else {
                            assert(acc@[q + 1].name@ == input[j].name@);
                        }
                    }
                }
            }
        }
        i = i + 1;
    }
    assert(input.take(n as int) =~= input);
    acc
}

proof fn lemma_tv_push(t: Seq<(Seq<char>, DefView)>, x: (Seq<char>, DefView), n: Seq<char>)
    ensures
        tv_get(t.push(x), n) == if x.0 == n { Some(x.1) } else { tv_get(t, n) },
        tv_remove(t.push(x), n) == if x.0 == n { tv_remove(t, n) } else { tv_remove(t, n).push(x) },
{
    assert(t.push(x).drop_last() =~= t);
}

/// Looking a server up after a removal: the removed name is gone, others are unchanged.
pub proof fn law_remove_then_get(t: Seq<(Seq<char>, DefView)>, name: Seq<char>, other: Seq<char>)
    ensures
        tv_get(tv_remove(t, name), name) is None,
        other != name ==> tv_get(tv_remove(t, name), other) == tv_get(t, other),
    decreases t.len(),
{
    if t.len() > 0 {
        law_remove_then_get(t.drop_last(), name, other);
        assert(t.drop_last().push(t.last()) =~= t);
        lemma_tv_push(t.drop_last(), t.last(), name);
        lemma_tv_push(tv_remove(t.drop_last(), name), t.last(), name);
        lemma_tv_push(t.drop_last(), t.last(), other);
        lemma_tv_push(tv_remove(t.drop_last(), name), t.last(), other);
    }
}

/// Looking a server up after an addition: the added name gives the added definition, others
/// are unchanged.
pub proof fn law_add_then_get(t: Seq<(Seq<char>, DefView)>, name: Seq<char>, d: DefView, other: Seq<char>)
    ensures
        tv_get(tv_insert(t, name, d), name) == Some(d),
        other != name ==> tv_get(tv_insert(t, name, d), other) == tv_get(t, other),
{
    law_remove_then_get(t, name, other);
    lemma_tv_push(tv_remove(t, name), (name, d), name);
    lemma_tv_push(tv_remove(t, name), (name, d), other);
}

/// Adding then removing a server that was absent gives back the lookups of before.
pub proof fn law_add_remove_round_trip(t: Seq<(Seq<char>, DefView)>, name: Seq<char>, d: DefView, other: Seq<char>)
    requires
        tv_get(t, name) is None,
    ensures
        tv_get(tv_remove(tv_insert(t, name, d), name), other) == tv_get(t, other),
{
    law_remove_then_get(tv_insert(t, name, d), name, other);
    law_add_then_get(t, name, d, other);
    law_remove_then_get(t, name, other);
}

proof fn lemma_kv_insert_absent(s: Seq<(Seq<char>, Seq<char>)>, k: Seq<char>, v: Seq<char>, j: Seq<char>)
    ensures
        kv_get(kv_insert_absent(s, k, v), j) == if j == k && kv_get(s, k) is None { Some(v) } else { kv_get(s, j) },
{
    lemma_kv_push(s, (k, v), j);
}

/// Injected variables: every injected name ends up in a stdio server's env, and names the
/// server already sets keep their own values.
pub proof fn law_injected_env(env: Seq<(Seq<char>, Seq<char>)>, inj: Seq<(Seq<char>, Seq<char>)>, k: Seq<char>)
    ensures
        kv_get(inj, k) is Some ==> kv_get(kv_insert_all_absent(env, inj), k) is Some,
        kv_get(env, k) is Some ==> kv_get(kv_insert_all_absent(env, inj), k) == kv_get(env, k),
        kv_get(env, k) is None && kv_get(inj, k) is None ==> kv_get(kv_insert_all_absent(env, inj), k) is None,
    decreases inj.len(),
{
    if inj.len() > 0 {
        law_injected_env(env, inj.drop_last(), k);
        assert(inj.drop_last().push(inj.last()) =~= inj);
        lemma_kv_push(inj.drop_last(), inj.last(), k);
        lemma_kv_insert_absent(kv_insert_all_absent(env, inj.drop_last()), inj.last().0, inj.last().1, k);
    }
}

/// Stored definition for launching an app-server runtime.
#[derive(Debug)]
pub struct AppRuntimeDefinition {
    pub description: Option<String>,
    pub tags: Vec<String>,
    pub env: Vec<(String, String)>,
    pub code_home: Option<String>,
    pub current_dir: Option<String>,
    pub mirror_stdio: Option<bool>,
    pub startup_timeout_ms: Option<u64>,
    pub binary: Option<String>,
    pub metadata: crate::json::JsonValue,
}

/// App runtime definition coupled with its name.
#[derive(Debug)]
pub struct AppRuntimeEntry {
    pub name: String,
    pub definition: AppRuntimeDefinition,
}

/// Input for adding or updating an app runtime entry.
#[derive(Debug)]
pub struct AddAppRuntimeRequest {
    pub name: String,
    pub definition: AppRuntimeDefinition,
    pub overwrite: bool,
}

/// The names of a table of app runtimes, in order.
pub open spec fn runtime_names(s: Seq<AppRuntimeEntry>) -> Seq<Seq<char>> {
    s.map_values(|e: AppRuntimeEntry| e.name@)
}

/// The index of the last runtime named `name`.
pub open spec fn last_runtime_index(s: Seq<AppRuntimeEntry>, name: Seq<char>) -> Option<int>
    decreases s.len(),
{
    if s.len() == 0 {
        None
    } else if s.last().name@ == name {
        Some(s.len() - 1)
    } else {
        last_runtime_index(s.drop_last(), name)
    }
}

/// The runtimes not named `name`, in order.
pub open spec fn runtimes_without(s: Seq<AppRuntimeEntry>, name: Seq<char>) -> Seq<AppRuntimeEntry>
    decreases s.len(),
{
    if s.len() == 0 {
        s
    } else if s.last().name@ == name {
        runtimes_without(s.drop_last(), name)
    } else {
        runtimes_without(s.drop_last(), name).push(s.last())
    }
}

pub(crate) proof fn lemma_last_runtime_index(s: Seq<AppRuntimeEntry>, name: Seq<char>)
    ensures
        match last_runtime_index(s, name) {
            Some(i) => 0 <= i < s.len() && s[i].name@ == name,
            None => true,
        },
    decreases s.len(),
{
    if s.len() > 0 {
        lemma_last_runtime_index(s.drop_last(), name);
    }
}

/// The last runtime named `name`.
pub open spec fn last_runtime(s: Seq<AppRuntimeEntry>, name: Seq<char>) -> Option<AppRuntimeEntry> {
    match last_runtime_index(s, name) {
        Some(i) => Some(s[i]),
        None => None,
    }
}

proof fn lemma_last_runtime_push(s: Seq<AppRuntimeEntry>, x: AppRuntimeEntry, name: Seq<char>)
    ensures
        last_runtime(s.push(x), name) == if x.name@ == name { Some(x) } else { last_runtime(s, name) },
{
    assert(s.push(x).drop_last() =~= s);
    lemma_last_runtime_index(s, name);
    match last_runtime_index(s, name) {
        Some(i) => assert(s.push(x)[i] == s[i]),
        None => {},
    }
}

/// The runtimes sorted by name, one per name, the last of a name winning.
fn sorted_runtimes(runtimes: Vec<AppRuntimeEntry>) -> (r: Vec<AppRuntimeEntry>)
    ensures
        strictly_sorted(runtime_names(r@)),
        forall|q: int|
            0 <= q < r@.len() ==> last_runtime(runtimes@, (#[trigger] r@[q]).name@) == Some(r@[q]),
        forall|j: int|
            0 <= j < runtimes@.len() ==> exists|q: int|
                0 <= q < r@.len() && (#[trigger] r@[q]).name@ == (#[trigger] runtimes@[j]).name@,
{
    let ghost input = runtimes@;
    let n = runtimes.len();
    let mut rest = runtimes;
    let mut acc: Vec<AppRuntimeEntry> = Vec::new();
    let mut i: usize = 0;
    while i < n
        invariant
            i <= n == input.len(),
            rest@ == input.subrange(i as int, n as int),
            strictly_sorted(runtime_names(acc@)),
            forall|q: int|
                0 <= q < acc@.len() ==> last_runtime(input.take(i as int), (#[trigger] acc@[q]).name@) == Some(acc@[q]),
            forall|j: int|
                0 <= j < i ==> exists|q: int|
                    0 <= q < acc@.len() && (#[trigger] acc@[q]).name@ == (#[trigger] input[j]).name@,
        decreases n - i,
    {
        let e = rest.remove(0);
        assert(e == input[i as int]);
        assert(rest@ =~= input.subrange(i + 1, n as int));
        proof {
            assert(input.take(i + 1) =~= input.take(i as int).push(e));
        }
        let mut p: usize = 0;
        while p < acc.len() && str_less(acc[p].name.as_str(), e.name.as_str())
            invariant
                p <= acc@.len(),
                forall|q: int| 0 <= q < p ==> str_lt((#[trigger] acc@[q]).name@, e.name@),
            decreases acc@.len() - p,
        {
            p = p + 1;
        }
        let ghost old_acc = acc@;
        let same = p < acc.len() && crate::text::eq_chars(
            chars_of(acc[p].name.as_str()).as_slice(),
            chars_of(e.name.as_str()).as_slice(),
        );
        proof {
            lemma_last_runtime_push(input.take(i as int), e, e.name@);
            assert forall|q: int| p <= q < old_acc.len() && !(q == p && same) implies str_lt(
                e.name@,
                #[trigger] old_acc[q].name@,
            ) by {
                assert(runtime_names(old_acc)[p as int] == old_acc[p as int].name@);
                if !str_lt(old_acc[p as int].name@, e.name@) {
                    if old_acc[p as int].name@ != e.name@ {
                        lemma_lt_total(old_acc[p as int].name@, e.name@);
                    }
                }
                if q > p {
                    assert(runtime_names(old_acc)[q] == old_acc[q].name@);
                    assert(str_lt(runtime_names(old_acc)[p as int], runtime_names(old_acc)[q]));
                    if old_acc[p as int].name@ == e.name@ {
                    } else {
                        lemma_lt_transitive(e.name@, old_acc[p as int].name@, old_acc[q].name@);
                    }
                }
            }
        }
        if same {
            acc.remove(p);
            acc.insert(p, e);
            proof {
                assert(acc@ =~= old_acc.update(p as int, e));
                assert forall|a: int, b: int| 0 <= a < b < acc@.len() implies str_lt(
                    #[trigger] runtime_names(acc@)[a],
                    #[trigger] runtime_names(acc@)[b],
                ) by {
                    assert(runtime_names(old_acc)[a] == old_acc[a].name@);
                    assert(runtime_names(old_acc)[b] == old_acc[b].name@);
                }
                assert forall|q: int| 0 <= q < acc@.len() implies last_runtime(input.take(i + 1), (#[trigger] acc@[q]).name@) == Some(acc@[q]) by {
                    lemma_last_runtime_push(input.take(i as int), e, acc@[q].name@);
                    if q != p {
                        assert(runtime_names(old_acc)[q] == old_acc[q].name@);
                        assert(runtime_names(old_acc)[p as int] == old_acc[p as int].name@);
                        if q < p {
                            assert(str_lt(runtime_names(old_acc)[q], runtime_names(old_acc)[p as int]));
                        } else {
                            assert(str_lt(runtime_names(old_acc)[p as int], runtime_names(old_acc)[q]));
                        }
                        lemma_lt_irreflexive(e.name@);
                    }
                }
                assert forall|j: int| 0 <= j < i + 1 implies exists|q: int|
                    0 <= q < acc@.len() && (#[trigger] acc@[q]).name@ == (#[trigger] input[j]).name@ by {
                    if j == i {
                        assert(acc@[p as int].name@ == input[j].name@);
                    } else {
                        let q = choose|q: int| 0 <= q < old_acc.len() && (#[trigger] old_acc[q]).name@ == input[j].name@;
                        assert(acc@[q].name@ == input[j].name@);
                    }
                }
            }
        } else {
            acc.insert(p, e);
            proof {
                assert(acc@ =~= old_acc.insert(p as int, e));
                assert forall|a: int, b: int| 0 <= a < b < acc@.len() implies str_lt(
                    #[trigger] runtime_names(acc@)[a],
                    #[trigger] runtime_names(acc@)[b],
                ) by {
                    if a < p && b < p {
                        assert(runtime_names(old_acc)[a] == old_acc[a].name@);
                        assert(runtime_names(old_acc)[b] == old_acc[b].name@);
                    } else if a < p && b == p {
                    } else if a < p && b > p {
                        assert(str_lt(old_acc[a].name@, e.name@));
                        assert(str_lt(e.name@, old_acc[b - 1].name@));
                        lemma_lt_transitive(old_acc[a].name@, e.name@, old_acc[b - 1].name@);
                    } else if a == p {
                        assert(str_lt(e.name@, old_acc[b - 1].name@));
                    } else {
                        assert(runtime_names(old_acc)[a - 1] == old_acc[a - 1].name@);
                        assert(runtime_names(old_acc)[b - 1] == old_acc[b - 1].name@);
                    }
                }
                assert forall|q: int| 0 <= q < acc@.len() implies last_runtime(input.take(i + 1), (#[trigger] acc@[q]).name@) == Some(acc@[q]) by {
                    lemma_last_runtime_push(input.take(i as int), e, acc@[q].name@);
                    if q < p {
                        assert(acc@[q] == old_acc[q]);
                        lemma_lt_irreflexive(e.name@);
                    } else if q > p {
                        assert(acc@[q] == old_acc[q - 1]);
                        assert(str_lt(e.name@, old_acc[q - 1].name@));
                        lemma_lt_irreflexive(e.name@);
                    }
                }
                assert forall|j: int| 0 <= j < i + 1 implies exists|q: int|
                    0 <= q < acc@.len() && (#[trigger] acc@[q]).name@ == (#[trigger] input[j]).name@ by {
                    if j == i {
                        assert(acc@[p as int].name@ == input[j].name@);
                    } else {
                        let q = choose|q: int| 0 <= q < old_acc.len() && (#[trigger] old_acc[q]).name@ == input[j].name@;
                        if q < p {
                            assert(acc@[q].name@ == input[j].name@);
                        } else {
                            assert(acc@[q + 1].name@ == input[j].name@);
                        }
                    }
                }
            }
        }
        i = i + 1;
    }
    assert(input.take(n as int) =~= input);
    acc
}

/// Splits the table into the runtimes not named `name` and the last one that is.
fn take_runtime(runtimes: Vec<AppRuntimeEntry>, name: &str) -> (r: (Vec<AppRuntimeEntry>, Option<AppRuntimeEntry>))
    ensures
        r.0@ == runtimes_without(runtimes@, name@),
        match last_runtime_index(runtimes@, name@) {
            Some(i) => r.1 == Some(runtimes@[i]),
            None => r.1 is None,
        },
{
    let key = name.to_owned();
    let ghost before = runtimes@;
    let n = runtimes.len();
    let mut rest = runtimes;
    let mut kept: Vec<AppRuntimeEntry> = Vec::new();
    let mut found: Option<AppRuntimeEntry> = None;
    let mut i: usize = 0;
    while i < n
        invariant
            i <= n == before.len(),
            key@ == name@,
            rest@ == before.subrange(i as int, n as int),
            kept@ == runtimes_without(before.take(i as int), name@),
            match last_runtime_index(before.take(i as int), name@) {
                Some(j) => found == Some(before[j]) && j < i,
                None => found is None,
            },
        decreases n - i,
    {
        let e = rest.remove(0);
        assert(e == before[i as int]);
        assert(rest@ =~= before.subrange(i + 1, n as int));
        proof {
            assert(before.take(i + 1).drop_last() =~= before.take(i as int));
            assert(before.take(i + 1).last() == before[i as int]);
            lemma_last_runtime_index(before.take(i as int), name@);
            match last_runtime_index(before.take(i as int), name@) {
                Some(j) => assert(before.take(i as int)[j] == before[j]),
                None => {},
            }
        }
        if str_eq(&e.name, &key) {
            found = Some(e);
        } else {
            let ghost kb = kept@;
            kept.push(e);
            assert(kept@.drop_last() =~= kb);
        }
        i = i + 1;
    }
    assert(before.take(n as int) =~= before);
    (kept, found)
}

impl McpConfigManager {
    /// Every configured app runtime, one per name (the last of a name wins), in name order.
    pub fn list_app_runtimes(&self, runtimes: Vec<AppRuntimeEntry>) -> (r: Vec<AppRuntimeEntry>)
        ensures
            strictly_sorted(runtime_names(r@)),
            forall|q: int|
                0 <= q < r@.len() ==> last_runtime(runtimes@, (#[trigger] r@[q]).name@) == Some(r@[q]),
            forall|j: int|
                0 <= j < runtimes@.len() ==> exists|q: int|
                    0 <= q < r@.len() && (#[trigger] r@[q]).name@ == (#[trigger] runtimes@[j]).name@,
    {
        sorted_runtimes(runtimes)
    }

    /// The app runtime named `name`.
    pub fn get_app_runtime(&self, runtimes: Vec<AppRuntimeEntry>, name: &str) -> (r: Result<AppRuntimeEntry, McpConfigError>)
        ensures
            match last_runtime_index(runtimes@, name@) {
                Some(i) => r == Ok::<AppRuntimeEntry, McpConfigError>(runtimes@[i]),
                None => r matches Err(McpConfigError::AppRuntimeNotFound(n)) && n@ == name@,
            },
    {
        let (_rest, found) = take_runtime(runtimes, name);
        match found {
            Some(e) => Ok(e),
            None => Err(McpConfigError::AppRuntimeNotFound(name.to_owned())),
        }
    }

    /// `add_app_runtime`, given the table read from the config: a blank name is rejected, an
    /// existing name only replaced with `overwrite`. Returns the new table; the added entry is
    /// its last element.
    pub fn add_app_runtime(&self, runtimes: Vec<AppRuntimeEntry>, request: AddAppRuntimeRequest) -> (r: Result<
        Vec<AppRuntimeEntry>,
        McpConfigError,
    >)
        ensures
            is_blank(request.name@) ==> r matches Err(McpConfigError::InvalidAppRuntimeName),
            !is_blank(request.name@) && last_runtime_index(runtimes@, request.name@) is Some
                && !request.overwrite ==> (r matches Err(McpConfigError::AppRuntimeAlreadyExists(n)) && n@
                == request.name@),
            !is_blank(request.name@) && !(last_runtime_index(runtimes@, request.name@) is Some
                && !request.overwrite) ==> r == Ok::<Vec<AppRuntimeEntry>, McpConfigError>(
                r->Ok_0,
            ) && r->Ok_0@ == runtimes_without(runtimes@, request.name@).push(
                AppRuntimeEntry { name: request.name, definition: request.definition },
            ),
    {
        let AddAppRuntimeRequest { name, definition, overwrite } = request;
        if blank(name.as_str()) {
            return Err(McpConfigError::InvalidAppRuntimeName);
        }
        let (rest, found) = take_runtime(runtimes, name.as_str());
        if found.is_some() && !overwrite {
            return Err(McpConfigError::AppRuntimeAlreadyExists(name));
        }
        let mut table = rest;
        table.push(AppRuntimeEntry { name, definition });
        Ok(table)
    }
}

} // verus!
