//! Runtime configurations of stored MCP servers: bearer tokens resolved from the
//! environment into an `Authorization` header, HTTP connectors with their timeouts, and the
//! summaries and lookups of a set of runtimes.

use vstd::prelude::*;
use crate::client::pair_views;
use crate::mcp_config::{
    clone_pairs, clone_strings, def_view, transport_view, DefView, TransportView, kv_get, kv_lookup, opt_str, str_views, table_view, AppRuntimeDefinition,
    AppRuntimeEntry, tools_view, tv_get, McpConfigError, McpConfigManager, McpServerDefinition,
    McpServerEntry, McpToolConfig, McpTransport, StdioServerDefinition, StreamableHttpDefinition,
    };
use crate::text::{chars_of, eq_chars, lit, lower, lower_chars, push_all, string_of};
use crate::time::TimeSpan;
use crate::order::{lemma_lt_irreflexive, lemma_lt_total, lemma_lt_transitive, str_less, str_lt, strictly_sorted};

verus! {

/// HTTP runtime config with the bearer token resolved from the environment.
#[derive(Debug)]
pub struct ResolvedStreamableHttpDefinition {
    pub url: String,
    pub headers: Vec<(String, String)>,
    pub bearer_env_var: Option<String>,
    pub bearer_token: Option<String>,
    pub connect_timeout_ms: Option<u64>,
    pub request_timeout_ms: Option<u64>,
}

/// Transport-specific runtime configuration.
#[derive(Debug)]
pub enum McpRuntimeTransport {
    Stdio(StdioServerDefinition),
    StreamableHttp(ResolvedStreamableHttpDefinition),
}

/// Resolved runtime configuration for an MCP server, ready for spawning or connecting.
#[derive(Debug)]
pub struct McpRuntimeServer {
    pub name: String,
    pub transport: McpRuntimeTransport,
    pub description: Option<String>,
    pub tags: Vec<String>,
    pub tools: Option<McpToolConfig>,
}

/// Some header is named `authorization` in any ASCII case.
pub open spec fn has_auth_header(headers: Seq<(Seq<char>, Seq<char>)>) -> bool {
    exists|i: int| 0 <= i < headers.len() && lower(#[trigger] headers[i].0) == "authorization"@
}

/// The token the environment holds in `var`, when set and not empty.
pub open spec fn env_token(var: Option<Seq<char>>, env: Seq<(Seq<char>, Seq<char>)>) -> Option<Seq<char>> {
    match var {
        Some(v) => match kv_get(env, v) {
            Some(t) => if t.len() > 0 {
                Some(t)
            } else {
                None
            },
            None => None,
        },
        None => None,
    }
}

/// Headers with `Authorization: Bearer <token>` added when a token is present and no
/// authorization header exists.
pub open spec fn resolved_headers(headers: Seq<(Seq<char>, Seq<char>)>, token: Option<Seq<char>>) -> Seq<
    (Seq<char>, Seq<char>),
> {
    match token {
        Some(t) => if has_auth_header(headers) {
            headers
        } else {
            headers.push(("Authorization"@, "Bearer "@ + t))
        },
        None => headers,
    }
}

fn has_auth_header_exec(headers: &Vec<(String, String)>) -> (r: bool)
    ensures
        r == has_auth_header(pair_views(headers@)),
{
    let target = lit("authorization");
    let mut i: usize = 0;
    while i < headers.len()
        invariant
            i <= headers.len(),
            target@ == "authorization"@,
            forall|j: int| 0 <= j < i ==> lower(#[trigger] pair_views(headers@)[j].0) != "authorization"@,
        decreases headers.len() - i,
    {
        let l = lower_chars(chars_of(headers[i].0.as_str()).as_slice());
        if eq_chars(l.as_slice(), target.as_slice()) {
            assert(pair_views(headers@)[i as int].0 == headers@[i as int].0@);
            return true;
        }
        assert(pair_views(headers@)[i as int].0 == headers@[i as int].0@);
        i = i + 1;
    }
    false
}

/// `resolve_streamable_http`, with `env` the process environment (name, value pairs).
pub fn resolve_streamable_http(definition: StreamableHttpDefinition, env: &Vec<(String, String)>) -> (r:
    ResolvedStreamableHttpDefinition)
    ensures
        r.url == definition.url,
        r.bearer_env_var == definition.bearer_env_var,
        r.connect_timeout_ms == definition.connect_timeout_ms,
        r.request_timeout_ms == definition.request_timeout_ms,
        opt_str(r.bearer_token) == env_token(opt_str(definition.bearer_env_var), pair_views(env@)),
        pair_views(r.headers@) == resolved_headers(
            pair_views(definition.headers@),
            env_token(opt_str(definition.bearer_env_var), pair_views(env@)),
        ),
{
    let StreamableHttpDefinition { url, headers, bearer_env_var, connect_timeout_ms, request_timeout_ms } =
        definition;
    let mut headers = headers;
    let mut bearer_token: Option<String> = None;
    match &bearer_env_var {
        Some(var) => match kv_lookup(env, var) {
            Some(token) => {
                if !token.as_str().is_empty() {
                    if !has_auth_header_exec(&headers) {
                        let mut v = lit("Bearer ");
                        let t = chars_of(token.as_str());
                        push_all(&mut v, t.as_slice());
                        let ghost hb = pair_views(headers@);
                        headers.push(("Authorization".to_owned(), string_of(v.as_slice())));
                        assert(pair_views(headers@) =~= hb.push(("Authorization"@, "Bearer "@ + token@)));
                    }
                    bearer_token = Some(token);
                }
            },
            None => {},
        },
        None => {},
    }
    ResolvedStreamableHttpDefinition {
        url,
        headers,
        bearer_env_var,
        bearer_token,
        connect_timeout_ms,
        request_timeout_ms,
    }
}

/// A runtime transport is the stored transport `tv` with the bearer token of an HTTP server
/// resolved from `env`.
pub open spec fn resolves_transport(
    t: McpRuntimeTransport,
    tv: TransportView,
    env: Seq<(Seq<char>, Seq<char>)>,
) -> bool {
    match t {
        McpRuntimeTransport::Stdio(d) => tv == (TransportView::Stdio {
            command: d.command@,
            args: str_views(d.args@),
            env: pair_views(d.env@),
            timeout_ms: d.timeout_ms,
        }),
        McpRuntimeTransport::StreamableHttp(x) => match tv {
            TransportView::StreamableHttp { url, headers, bearer_env_var, connect_timeout_ms, request_timeout_ms } => {
                &&& x.url@ == url
                &&& opt_str(x.bearer_env_var) == bearer_env_var
                &&& x.connect_timeout_ms == connect_timeout_ms
                &&& x.request_timeout_ms == request_timeout_ms
                &&& opt_str(x.bearer_token) == env_token(bearer_env_var, env)
                &&& pair_views(x.headers@) == resolved_headers(headers, env_token(bearer_env_var, env))
            },
            TransportView::Stdio { .. } => false,
        },
    }
}

impl McpRuntimeServer {
    /// A runtime config from a stored definition: stdio transports are kept as they are,
    /// HTTP transports get their bearer token resolved from `env`.
    pub fn from_definition(name: &str, definition: McpServerDefinition, env: &Vec<(String, String)>) -> (r: Self)
        ensures
            resolves_transport(r.transport, transport_view(definition.transport), pair_views(env@)),
            r.name@ == name@,
            opt_str(r.description) == def_view(definition).1,
            str_views(r.tags@) == def_view(definition).2,
            tools_view(r.tools) == def_view(definition).3,
            match definition.transport {
                McpTransport::Stdio(d) => r.transport == McpRuntimeTransport::Stdio(d),
                McpTransport::StreamableHttp(d) => r.transport matches McpRuntimeTransport::StreamableHttp(x)
                    && x.url == d.url && x.bearer_env_var == d.bearer_env_var && x.connect_timeout_ms
                    == d.connect_timeout_ms && x.request_timeout_ms == d.request_timeout_ms && opt_str(
                    x.bearer_token,
                ) == env_token(opt_str(d.bearer_env_var), pair_views(env@)) && pair_views(x.headers@)
                    == resolved_headers(
                    pair_views(d.headers@),
                    env_token(opt_str(d.bearer_env_var), pair_views(env@)),
                ),
            },
    {
        let McpServerDefinition { transport, description, tags, tools } = definition;
        let transport = match transport {
            McpTransport::Stdio(d) => McpRuntimeTransport::Stdio(d),
            McpTransport::StreamableHttp(d) => McpRuntimeTransport::StreamableHttp(
                resolve_streamable_http(d, env),
            ),
        };
        McpRuntimeServer { name: name.to_owned(), transport, description, tags, tools }
    }
}

/// Prepared HTTP connector with resolved headers and timeouts.
#[derive(Debug)]
pub struct StreamableHttpConnector {
    pub url: String,
    pub headers: Vec<(String, String)>,
    pub bearer_env_var: Option<String>,
    pub bearer_token: Option<String>,
    pub connect_timeout: Option<TimeSpan>,
    pub request_timeout: Option<TimeSpan>,
}

pub open spec fn millis_span(ms: Option<u64>) -> Option<TimeSpan> {
    match ms {
        Some(m) => Some(TimeSpan { nanos: (m * 1_000_000) as u128 }),
        None => None,
    }
}

fn span_of(ms: Option<u64>) -> (r: Option<TimeSpan>)
    ensures
        r == millis_span(ms),
{
    match ms {
        Some(m) => Some(TimeSpan::from_millis(m)),
        None => None,
    }
}

impl StreamableHttpConnector {
    /// The connector of a resolved definition; millisecond timeouts become spans.
    pub fn from_resolved(definition: ResolvedStreamableHttpDefinition) -> (r: Self)
        ensures
            r.url == definition.url && r.headers == definition.headers,
            r.bearer_env_var == definition.bearer_env_var && r.bearer_token == definition.bearer_token,
            r.connect_timeout == millis_span(definition.connect_timeout_ms),
            r.request_timeout == millis_span(definition.request_timeout_ms),
    {
        let ResolvedStreamableHttpDefinition {
            url,
            headers,
            bearer_env_var,
            bearer_token,
            connect_timeout_ms,
            request_timeout_ms,
        } = definition;
        StreamableHttpConnector {
            url,
            headers,
            bearer_env_var,
            bearer_token,
            connect_timeout: span_of(connect_timeout_ms),
            request_timeout: span_of(request_timeout_ms),
        }
    }
}

/// Transport kind used by a runtime.
#[derive(Clone, Copy, Debug, PartialEq, Eq, Structural)]
pub enum McpRuntimeSummaryTransport {
    Stdio,
    StreamableHttp,
}

/// Summarized runtime metadata for listing available MCP servers.
#[derive(Debug)]
pub struct McpRuntimeSummary {
    pub name: String,
    pub description: Option<String>,
    pub tags: Vec<String>,
    pub tools: Option<McpToolConfig>,
    pub transport: McpRuntimeSummaryTransport,
}

impl McpRuntimeServer {
    /// The summary of this runtime.
    pub fn summary(&self) -> (r: McpRuntimeSummary)
        ensures
            r.name@ == self.name@,
            opt_str(r.description) == opt_str(self.description),
            str_views(r.tags@) == str_views(self.tags@),
            tools_view(r.tools) == tools_view(self.tools),
            r.transport == match self.transport {
                McpRuntimeTransport::Stdio(_) => McpRuntimeSummaryTransport::Stdio,
                McpRuntimeTransport::StreamableHttp(_) => McpRuntimeSummaryTransport::StreamableHttp,
            },
    {
        let transport = match &self.transport {
            McpRuntimeTransport::Stdio(_) => McpRuntimeSummaryTransport::Stdio,
            McpRuntimeTransport::StreamableHttp(_) => McpRuntimeSummaryTransport::StreamableHttp,
        };
        let description = match &self.description {
            Some(d) => Some(d.clone()),
            None => None,
        };
        let tools = match &self.tools {
            Some(t) => Some(t.duplicate()),
            None => None,
        };
        McpRuntimeSummary {
            name: self.name.clone(),
            description,
            tags: clone_strings(&self.tags),
            tools,
            transport,
        }
    }
}

/// Errors of runtime lookups (spawn and stop failures are the caller's).
#[derive(Debug)]
pub enum McpRuntimeError {
    NotFound(String),
    UnsupportedTransport { name: String, expected: String, actual: String },
    MissingPipes { name: String },
    StopTimeout { name: String, timeout: TimeSpan },
}

/// HTTP runtime connector with tool hints preserved.
#[derive(Debug)]
pub struct ManagedHttpRuntime {
    pub name: String,
    pub connector: StreamableHttpConnector,
    pub tools: Option<McpToolConfig>,
}

/// The HTTP runtime handed back for an HTTP server; a stdio server is reported as using the
/// other transport.
pub fn prepare_http_runtime(server: McpRuntimeServer) -> (r: Result<ManagedHttpRuntime, McpRuntimeError>)
    ensures
        match server.transport {
            McpRuntimeTransport::StreamableHttp(d) => r matches Ok(h) && h.name == server.name
                && h.tools == server.tools && h.connector.url == d.url && h.connector.headers == d.headers
                && h.connector.bearer_token == d.bearer_token && h.connector.bearer_env_var
                == d.bearer_env_var && h.connector.connect_timeout == millis_span(d.connect_timeout_ms)
                && h.connector.request_timeout == millis_span(d.request_timeout_ms),
            McpRuntimeTransport::Stdio(_) => r matches Err(
                McpRuntimeError::UnsupportedTransport { name, expected, actual },
            ) && name == server.name && expected@ == "streamable_http"@ && actual@ == "stdio"@,
        },
{
    let McpRuntimeServer { name, transport, description: _, tags: _, tools } = server;
    match transport {
        McpRuntimeTransport::StreamableHttp(d) => Ok(
            ManagedHttpRuntime { name, connector: StreamableHttpConnector::from_resolved(d), tools },
        ),
        McpRuntimeTransport::Stdio(_) => Err(
            McpRuntimeError::UnsupportedTransport {
                name,
                expected: "streamable_http".to_owned(),
                actual: "stdio".to_owned(),
            },
        ),
    }
}

impl McpConfigManager {
    /// `runtime_server`: the runtime config of the server named `name`.
    pub fn runtime_server(&self, servers: Vec<McpServerEntry>, name: &str, env: &Vec<(String, String)>) -> (r:
        Result<McpRuntimeServer, McpConfigError>)
        ensures
            match tv_get(table_view(servers@), name@) {
                Some(d) => r matches Ok(s) && s.name@ == name@ && opt_str(s.description) == d.1 && str_views(
                    s.tags@,
                ) == d.2 && tools_view(s.tools) == d.3 && resolves_transport(s.transport, d.0, pair_views(env@)),
                None => r matches Err(McpConfigError::ServerNotFound(n)) && n@ == name@,
            },
    {
        match self.get_server(servers, name) {
            Ok(e) => Ok(McpRuntimeServer::from_definition(name, e.definition, env)),
            Err(e) => Err(e),
        }
    }

    /// `runtime_servers`: the runtime config of every server, in table order.
    pub fn runtime_servers(&self, servers: Vec<McpServerEntry>, env: &Vec<(String, String)>) -> (r: Vec<
        McpRuntimeServer,
    >)
        ensures
            r@.len() == servers@.len(),
            forall|i: int|
                0 <= i < r@.len() ==> (#[trigger] r@[i]).name@ == servers@[i].name@ && opt_str(r@[i].description)
                    == def_view(servers@[i].definition).1 && str_views(r@[i].tags@) == def_view(
                    servers@[i].definition,
                ).2 && tools_view(r@[i].tools) == def_view(servers@[i].definition).3 && resolves_transport(
                    r@[i].transport,
                    def_view(servers@[i].definition).0,
                    pair_views(env@),
                ),
    {
        let ghost before = servers@;
        let n = servers.len();
        let mut rest = servers;
        let mut out: Vec<McpRuntimeServer> = Vec::new();
        let mut i: usize = 0;
        while i < n
            invariant
                i <= n == before.len(),
                rest@ == before.subrange(i as int, n as int),
                out@.len() == i,
                forall|j: int|
                    0 <= j < i ==> (#[trigger] out@[j]).name@ == before[j].name@ && opt_str(out@[j].description)
                        == def_view(before[j].definition).1 && str_views(out@[j].tags@) == def_view(
                        before[j].definition,
                    ).2 && tools_view(out@[j].tools) == def_view(before[j].definition).3 && resolves_transport(
                        out@[j].transport,
                        def_view(before[j].definition).0,
                        pair_views(env@),
                    ),
            decreases n - i,
        {
            let e = rest.remove(0);
            assert(e == before[i as int]);
            assert(rest@ =~= before.subrange(i + 1, n as int));
            let McpServerEntry { name, definition } = e;
            out.push(McpRuntimeServer::from_definition(name.as_str(), definition, env));
            i = i + 1;
        }
        out
    }
}

/// What a stored server named `name` becomes as a launcher: its transport resolved against
/// `env` (see [`resolves_transport`]), then made a launcher under `defaults` (see
/// [`runtime_launcher_view`]).
pub open spec fn definition_launcher_view(
    name: Seq<char>,
    d: DefView,
    env: Seq<(Seq<char>, Seq<char>)>,
    defaults: StdioServerConfig,
) -> LauncherView {
    (
        name,
        match d.0 {
            TransportView::Stdio { command, args, env: own_env, timeout_ms } => LauncherTransportView::Stdio {
                command,
                args,
                env: merged_env(opt_str(defaults.code_home), pair_views(defaults.env@), own_env),
                current_dir: opt_str(defaults.current_dir),
                timeout: match timeout_ms {
                    Some(ms) => TimeSpan { nanos: (ms * 1_000_000) as u128 },
                    None => defaults.startup_timeout,
                },
                mirror_stdio: defaults.mirror_stdio,
            },
            TransportView::StreamableHttp { url, headers, bearer_env_var, connect_timeout_ms, request_timeout_ms } =>
            LauncherTransportView::StreamableHttp {
                url,
                headers: resolved_headers(headers, env_token(bearer_env_var, env)),
                bearer_env_var,
                bearer_token: env_token(bearer_env_var, env),
                connect_timeout: millis_span(connect_timeout_ms),
                request_timeout: millis_span(request_timeout_ms),
            },
        },
        d.1,
        d.2,
        d.3,
    )
}

proof fn lemma_resolved_launcher_view(
    s: McpRuntimeServer,
    name: Seq<char>,
    d: DefView,
    env: Seq<(Seq<char>, Seq<char>)>,
    defaults: StdioServerConfig,
)
    requires
        s.name@ == name,
        opt_str(s.description) == d.1,
        str_views(s.tags@) == d.2,
        tools_view(s.tools) == d.3,
        resolves_transport(s.transport, d.0, env),
    ensures
        runtime_launcher_view(s, defaults) == definition_launcher_view(name, d, env, defaults),
{
}

impl McpConfigManager {
    /// `runtime_launcher`: the launcher of the server named `name` under `defaults`.
    pub fn runtime_launcher(
        &self,
        servers: Vec<McpServerEntry>,
        name: &str,
        env: &Vec<(String, String)>,
        defaults: &StdioServerConfig,
    ) -> (r: Result<McpServerLauncher, McpConfigError>)
        ensures
            match tv_get(table_view(servers@), name@) {
                Some(d) => r matches Ok(l) && launcher_view(l) == definition_launcher_view(
                    name@,
                    d,
                    pair_views(env@),
                    *defaults,
                ),
                None => r matches Err(McpConfigError::ServerNotFound(n)) && n@ == name@,
            },
    {
        let ghost found = tv_get(table_view(servers@), name@);
        match self.runtime_server(servers, name, env) {
            Ok(s) => {
                proof {
                    lemma_resolved_launcher_view(s, name@, found.unwrap(), pair_views(env@), *defaults);
                }
                Ok(s.into_launcher(defaults))
            },
            Err(e) => Err(e),
        }
    }

    /// `runtime_launchers`: the launcher of every server under `defaults`, in table order.
    pub fn runtime_launchers(
        &self,
        servers: Vec<McpServerEntry>,
        env: &Vec<(String, String)>,
        defaults: &StdioServerConfig,
    ) -> (r: Vec<McpServerLauncher>)
        ensures
            r@.len() == servers@.len(),
            forall|i: int|
                0 <= i < r@.len() ==> launcher_view(#[trigger] r@[i]) == definition_launcher_view(
                    servers@[i].name@,
                    def_view(servers@[i].definition),
                    pair_views(env@),
                    *defaults,
                ),
    {
        let ghost before = servers@;
        let runtimes = self.runtime_servers(servers, env);
        let ghost rt = runtimes@;
        let n = runtimes.len();
        let mut rest = runtimes;
        let mut out: Vec<McpServerLauncher> = Vec::new();
        let mut i: usize = 0;
        while i < n
            invariant
                i <= n == rt.len() == before.len(),
                rest@ == rt.subrange(i as int, n as int),
                out@.len() == i,
                forall|j: int|
                    0 <= j < rt.len() ==> (#[trigger] rt[j]).name@ == before[j].name@ && opt_str(rt[j].description)
                        == def_view(before[j].definition).1 && str_views(rt[j].tags@) == def_view(
                        before[j].definition,
                    ).2 && tools_view(rt[j].tools) == def_view(before[j].definition).3 && resolves_transport(
                        rt[j].transport,
                        def_view(before[j].definition).0,
                        pair_views(env@),
                    ),
                forall|j: int|
                    0 <= j < i ==> launcher_view(#[trigger] out@[j]) == definition_launcher_view(
                        before[j].name@,
                        def_view(before[j].definition),
                        pair_views(env@),
                        *defaults,
                    ),
            decreases n - i,
        {
            let s = rest.remove(0);
            assert(s == rt[i as int]);
            assert(rest@ =~= rt.subrange(i + 1, n as int));
            proof {
                lemma_resolved_launcher_view(
                    s,
                    before[i as int].name@,
                    def_view(before[i as int].definition),
                    pair_views(env@),
                    *defaults,
                );
            }
            out.push(s.into_launcher(defaults));
            i = i + 1;
        }
        out
    }
}

/// Launch settings shared by stdio MCP servers and app-server runtimes.
#[derive(Debug)]
pub struct StdioServerConfig {
    pub binary: String,
    pub code_home: Option<String>,
    pub current_dir: Option<String>,
    pub env: Vec<(String, String)>,
    pub app_server_analytics_default_enabled: bool,
    pub mirror_stdio: bool,
    pub startup_timeout: TimeSpan,
}

/// `k` set to `v`, replacing any pair of that name.
pub open spec fn kv_set(s: Seq<(Seq<char>, Seq<char>)>, k: Seq<char>, v: Seq<char>) -> Seq<(Seq<char>, Seq<char>)> {
    kv_without(s, k).push((k, v))
}

/// The pairs not named `k`, in order.
pub open spec fn kv_without(s: Seq<(Seq<char>, Seq<char>)>, k: Seq<char>) -> Seq<(Seq<char>, Seq<char>)>
    decreases s.len(),
{
    if s.len() == 0 {
        s
    } else if s.last().0 == k {
        kv_without(s.drop_last(), k)
    } else {
        kv_without(s.drop_last(), k).push(s.last())
    }
}

/// Each pair of `extra` set on `s`, in order (later pairs win).
pub open spec fn kv_set_all(s: Seq<(Seq<char>, Seq<char>)>, extra: Seq<(Seq<char>, Seq<char>)>) -> Seq<
    (Seq<char>, Seq<char>),
>
    decreases extra.len(),
{
    if extra.len() == 0 {
        s
    } else {
        let prev = kv_set_all(s, extra.drop_last());
        kv_set(prev, extra.last().0, extra.last().1)
    }
}

fn kv_set_exec(s: Vec<(String, String)>, k: String, v: String) -> (r: Vec<(String, String)>)
    ensures
        pair_views(r@) == kv_set(pair_views(s@), k@, v@),
{
    let ghost before = s@;
    let n = s.len();
    let mut rest = s;
    let mut kept: Vec<(String, String)> = Vec::new();
    let mut i: usize = 0;
    while i < n
        invariant
            i <= n == before.len(),
            rest@ == before.subrange(i as int, n as int),
            pair_views(kept@) == kv_without(pair_views(before.take(i as int)), k@),
        decreases n - i,
    {
        let e = rest.remove(0);
        assert(e == before[i as int]);
        assert(rest@ =~= before.subrange(i + 1, n as int));
        proof {
            let t = pair_views(before.take(i as int));
            assert(pair_views(before.take(i + 1)) =~= t.push((e.0@, e.1@)));
            assert(t.push((e.0@, e.1@)).drop_last() =~= t);
        }
        let same = {
            let a = chars_of(e.0.as_str());
            let b = chars_of(k.as_str());
            eq_chars(a.as_slice(), b.as_slice())
        };
        if !same {
            let ghost kb = pair_views(kept@);
            kept.push(e);
            assert(pair_views(kept@) =~= kb.push((e.0@, e.1@)));
        }
        i = i + 1;
    }
    assert(before.take(n as int) =~= before);
    let ghost kb = pair_views(kept@);
    kept.push((k, v));
    assert(pair_views(kept@) =~= kb.push((k@, v@)));
    kept
}

fn kv_set_all_exec(s: Vec<(String, String)>, extra: &Vec<(String, String)>) -> (r: Vec<(String, String)>)
    ensures
        pair_views(r@) == kv_set_all(pair_views(s@), pair_views(extra@)),
{
    let ghost start = pair_views(s@);
    let mut acc = s;
    let mut i: usize = 0;
    while i < extra.len()
        invariant
            i <= extra.len(),
            pair_views(acc@) == kv_set_all(start, pair_views(extra@.take(i as int))),
        decreases extra.len() - i,
    {
        proof {
            assert(pair_views(extra@.take(i + 1)).drop_last() =~= pair_views(extra@.take(i as int)));
            assert(pair_views(extra@.take(i + 1)).last() == (extra@[i as int].0@, extra@[i as int].1@));
        }
        acc = kv_set_exec(acc, extra[i].0.clone(), extra[i].1.clone());
        i = i + 1;
    }
    assert(extra@.take(extra@.len() as int) =~= extra@);
    acc
}

/// `CODEX_HOME` (when given), then the base pairs, then the server's own pairs; later
/// pairs win.
pub open spec fn merged_env(
    code_home: Option<Seq<char>>,
    base: Seq<(Seq<char>, Seq<char>)>,
    runtime: Seq<(Seq<char>, Seq<char>)>,
) -> Seq<(Seq<char>, Seq<char>)> {
    let start = match code_home {
        Some(h) => seq![("CODEX_HOME"@, h)],
        None => Seq::empty(),
    };
    kv_set_all(kv_set_all(start, base), runtime)
}

/// `merge_stdio_env`: the environment of a stdio server, one pair per name.
pub fn merge_stdio_env(code_home: &Option<String>, base_env: &Vec<(String, String)>, runtime_env: &Vec<(String, String)>) -> (r: Vec<(String, String)>)
    ensures
        pair_views(r@) == merged_env(opt_str(*code_home), pair_views(base_env@), pair_views(runtime_env@)),
{
    let mut start: Vec<(String, String)> = Vec::new();
    match code_home {
        Some(h) => {
            start.push(("CODEX_HOME".to_owned(), h.clone()));
        },
        None => {},
    }
    assert(pair_views(start@) =~= match opt_str(*code_home) {
        Some(h) => seq![("CODEX_HOME"@, h)],
        None => Seq::empty(),
    });
    let with_base = kv_set_all_exec(start, base_env);
    kv_set_all_exec(with_base, runtime_env)
}

/// Prepared stdio launcher with merged env and startup timeout.
#[derive(Debug)]
pub struct StdioLauncher {
    pub command: String,
    pub args: Vec<String>,
    pub env: Vec<(String, String)>,
    pub current_dir: Option<String>,
    pub timeout: TimeSpan,
    pub mirror_stdio: bool,
}

impl StdioLauncher {
    /// The launcher of a stdio server under the shared defaults: the server's own timeout
    /// wins over the default startup timeout.
    pub fn from_runtime(definition: StdioServerDefinition, defaults: &StdioServerConfig) -> (r: Self)
        ensures
            r.command == definition.command && r.args == definition.args,
            pair_views(r.env@) == merged_env(
                opt_str(defaults.code_home),
                pair_views(defaults.env@),
                pair_views(definition.env@),
            ),
            opt_str(r.current_dir) == opt_str(defaults.current_dir),
            r.timeout == match definition.timeout_ms {
                Some(ms) => TimeSpan { nanos: (ms * 1_000_000) as u128 },
                None => defaults.startup_timeout,
            },
            r.mirror_stdio == defaults.mirror_stdio,
    {
        let env = merge_stdio_env(&defaults.code_home, &defaults.env, &definition.env);
        let timeout = match definition.timeout_ms {
            Some(ms) => TimeSpan::from_millis(ms),
            None => defaults.startup_timeout,
        };
        let current_dir = match &defaults.current_dir {
            Some(d) => Some(d.clone()),
            None => None,
        };
        StdioLauncher {
            command: definition.command,
            args: definition.args,
            env,
            current_dir,
            timeout,
            mirror_stdio: defaults.mirror_stdio,
        }
    }
}

/// The arguments a JSON-RPC server is spawned with: the subcommand, plus
/// `--analytics-default-enabled` for `app-server` when the config asks for it.
pub fn stdio_spawn_args(config: &StdioServerConfig, subcommand: &str) -> (r: Vec<String>)
    ensures
        str_views(r@) == seq![subcommand@] + if subcommand@ == "app-server"@
            && config.app_server_analytics_default_enabled {
            seq!["--analytics-default-enabled"@]
        } else {
            Seq::empty()
        },
{
    let mut args: Vec<String> = Vec::new();
    args.push(subcommand.to_owned());
    let sc = chars_of(subcommand);
    let app = lit("app-server");
    if eq_chars(sc.as_slice(), app.as_slice()) && config.app_server_analytics_default_enabled {
        args.push("--analytics-default-enabled".to_owned());
    }
    proof {
        if subcommand@ == "app-server"@ && config.app_server_analytics_default_enabled {
            assert(str_views(args@) =~= seq![subcommand@, "--analytics-default-enabled"@]);
        } else {
            assert(str_views(args@) =~= seq![subcommand@]);
        }
    }
    args
}

/// The environment a JSON-RPC server is spawned with: `CODEX_HOME` when configured, then
/// the configured pairs (later ones win).
pub fn stdio_spawn_env(config: &StdioServerConfig) -> (r: Vec<(String, String)>)
    ensures
        pair_views(r@) == merged_env(opt_str(config.code_home), pair_views(config.env@), Seq::empty()),
{
    let none: Vec<(String, String)> = Vec::new();
    merge_stdio_env(&config.code_home, &config.env, &none)
}

/// State of the spawn retries for a binary that may be busy being written.
#[derive(Debug)]
pub struct SpawnRetry {
    /// Attempts made so far.
    pub attempt: u32,
    /// Wait before the next attempt.
    pub backoff: TimeSpan,
}

/// What to do after a failed spawn.
#[derive(Debug)]
pub enum SpawnStep {
    /// Sleep this long, then spawn again.
    Retry(TimeSpan),
    /// Report the spawn error.
    Fail,
}

pub const SPAWN_ATTEMPTS: u32 = 5;

/// The retry state before the first attempt: a 2 ms backoff.
pub fn spawn_retry_start() -> (r: SpawnRetry)
    ensures
        r.attempt == 0 && r.backoff.nanos == 2_000_000,
{
    SpawnRetry { attempt: 0, backoff: TimeSpan::from_millis(2) }
}

/// After a failed spawn: a busy binary is retried while attempts remain, waiting the current
/// backoff, which then doubles up to 50 ms; any other failure, or the last attempt, fails.
pub fn spawn_retry_step(state: &mut SpawnRetry, busy: bool) -> (r: SpawnStep)
    requires
        old(state).attempt < SPAWN_ATTEMPTS,
        old(state).backoff.nanos <= 50_000_000,
    ensures
        busy && old(state).attempt + 1 < SPAWN_ATTEMPTS ==> (r matches SpawnStep::Retry(d) && d == old(state).backoff
            && final(state).attempt == old(state).attempt + 1 && final(state).backoff.nanos == if old(state).backoff.nanos * 2
            <= 50_000_000 {
            old(state).backoff.nanos * 2
        } else {
            50_000_000
        }),
        !(busy && old(state).attempt + 1 < SPAWN_ATTEMPTS) ==> (r matches SpawnStep::Fail && *final(state) == *old(state)),
        final(state).attempt < SPAWN_ATTEMPTS && final(state).backoff.nanos <= 50_000_000,
{
    if busy && state.attempt + 1 < SPAWN_ATTEMPTS {
        let wait = state.backoff;
        let doubled = state.backoff.nanos * 2;
        state.backoff = TimeSpan { nanos: if doubled <= 50_000_000 { doubled } else { 50_000_000 } };
        state.attempt = state.attempt + 1;
        SpawnStep::Retry(wait)
    } else {
        SpawnStep::Fail
    }
}

/// An existing authorization header (in any case) is kept as it is; otherwise a resolved
/// token adds `Authorization: Bearer <token>`, and no token adds nothing.
pub proof fn law_bearer_header(headers: Seq<(Seq<char>, Seq<char>)>, token: Option<Seq<char>>)
    ensures
        has_auth_header(headers) ==> resolved_headers(headers, token) == headers,
        token is None ==> resolved_headers(headers, token) == headers,
        match token {
            Some(t) => !has_auth_header(headers) ==> kv_get(resolved_headers(headers, token), "Authorization"@)
                == Some("Bearer "@ + t),
            None => true,
        },
{
    match token {
        Some(t) => {
            if !has_auth_header(headers) {
                assert(headers.push(("Authorization"@, "Bearer "@ + t)).drop_last() =~= headers);
            }
        },
        None => {},
    }
}

proof fn lemma_kv_set_get(s: Seq<(Seq<char>, Seq<char>)>, k: Seq<char>, v: Seq<char>, j: Seq<char>)
    ensures
        kv_get(kv_without(s, k), j) == if j == k { None } else { kv_get(s, j) },
        kv_get(kv_set(s, k, v), j) == if j == k { Some(v) } else { kv_get(s, j) },
    decreases s.len(),
{
    if s.len() > 0 {
        lemma_kv_set_get(s.drop_last(), k, v, j);
        assert(kv_without(s.drop_last(), k).push(s.last()).drop_last() =~= kv_without(s.drop_last(), k));
        assert(s.drop_last().push(s.last()) =~= s);
    }
    assert(kv_without(s, k).push((k, v)).drop_last() =~= kv_without(s, k));
}

proof fn lemma_kv_set_all_get(s: Seq<(Seq<char>, Seq<char>)>, extra: Seq<(Seq<char>, Seq<char>)>, j: Seq<char>)
    ensures
        kv_get(kv_set_all(s, extra), j) == match kv_get(extra, j) {
            Some(v) => Some(v),
            None => kv_get(s, j),
        },
    decreases extra.len(),
{
    if extra.len() > 0 {
        lemma_kv_set_all_get(s, extra.drop_last(), j);
        lemma_kv_set_get(kv_set_all(s, extra.drop_last()), extra.last().0, extra.last().1, j);
        assert(extra.drop_last().push(extra.last()) =~= extra);
        assert(extra.drop_last().push(extra.last()).drop_last() =~= extra.drop_last());
    }
}

/// In a stdio server's environment the server's own variables win over the shared ones,
/// which win over `CODEX_HOME`.
pub proof fn law_merged_env_precedence(
    code_home: Option<Seq<char>>,
    base: Seq<(Seq<char>, Seq<char>)>,
    runtime: Seq<(Seq<char>, Seq<char>)>,
    k: Seq<char>,
)
    ensures
        kv_get(merged_env(code_home, base, runtime), k) == match kv_get(runtime, k) {
            Some(v) => Some(v),
            None => match kv_get(base, k) {
                Some(v) => Some(v),
                None => if k == "CODEX_HOME"@ {
                    code_home
                } else {
                    None
                },
            },
        },
{
    let start = match code_home {
        Some(h) => seq![("CODEX_HOME"@, h)],
        None => Seq::<(Seq<char>, Seq<char>)>::empty(),
    };
    lemma_kv_set_all_get(kv_set_all(start, base), runtime, k);
    lemma_kv_set_all_get(start, base, k);
    match code_home {
        Some(h) => {
            assert(start.drop_last() =~= Seq::<(Seq<char>, Seq<char>)>::empty());
            assert(kv_get(start, k) == if k == "CODEX_HOME"@ { Some(h) } else { None::<Seq<char>> }) by {
                reveal_with_fuel(kv_get, 2);
            }
        },
        None => {},
    }
}

/// A stored app-server runtime, ready to be turned into a launcher.
#[derive(Debug)]
pub struct AppRuntime {
    pub name: String,
    pub description: Option<String>,
    pub tags: Vec<String>,
    pub metadata: crate::json::JsonValue,
    pub env: Vec<(String, String)>,
    pub code_home: Option<String>,
    pub current_dir: Option<String>,
    pub mirror_stdio: Option<bool>,
    pub startup_timeout_ms: Option<u64>,
    pub binary: Option<String>,
}

/// Launch-ready stdio config bundled with app metadata.
#[derive(Debug)]
pub struct AppRuntimeLauncher {
    pub name: String,
    pub description: Option<String>,
    pub tags: Vec<String>,
    pub metadata: crate::json::JsonValue,
    pub config: StdioServerConfig,
}

fn first_of(a: Option<String>, b: &Option<String>) -> (r: Option<String>)
    ensures
        opt_str(r) == match a {
            Some(x) => Some(x@),
            None => opt_str(*b),
        },
{
    match a {
        Some(x) => Some(x),
        None => match b {
            Some(y) => Some(y.clone()),
            None => None,
        },
    }
}

/// `l` is the launcher of app runtime `rt` under `defaults`: the runtime's own settings win
/// over the defaults, and its env is merged over the default env under the resulting
/// `CODEX_HOME`.
pub open spec fn app_launcher_of(l: AppRuntimeLauncher, rt: AppRuntime, defaults: StdioServerConfig) -> bool {
    &&& l.name@ == rt.name@ && opt_str(l.description) == opt_str(rt.description)
    &&& str_views(l.tags@) == str_views(rt.tags@) && crate::json::jview(l.metadata) == crate::json::jview(rt.metadata)
    &&& opt_str(l.config.code_home) == match rt.code_home {
        Some(h) => Some(h@),
        None => opt_str(defaults.code_home),
    }
    &&& pair_views(l.config.env@) == merged_env(
        opt_str(l.config.code_home),
        pair_views(defaults.env@),
        pair_views(rt.env@),
    )
    &&& l.config.binary@ == match rt.binary {
        Some(b) => b@,
        None => defaults.binary@,
    }
    &&& opt_str(l.config.current_dir) == match rt.current_dir {
        Some(d) => Some(d@),
        None => opt_str(defaults.current_dir),
    }
    &&& l.config.app_server_analytics_default_enabled == defaults.app_server_analytics_default_enabled
    &&& l.config.mirror_stdio == match rt.mirror_stdio {
        Some(m) => m,
        None => defaults.mirror_stdio,
    }
    &&& l.config.startup_timeout == match rt.startup_timeout_ms {
        Some(ms) => TimeSpan { nanos: (ms * 1_000_000) as u128 },
        None => defaults.startup_timeout,
    }
}

/// The runtime of a stored app entry, field for field.
pub open spec fn app_runtime_of(e: AppRuntimeEntry) -> AppRuntime {
    AppRuntime {
        name: e.name,
        description: e.definition.description,
        tags: e.definition.tags,
        metadata: e.definition.metadata,
        env: e.definition.env,
        code_home: e.definition.code_home,
        current_dir: e.definition.current_dir,
        mirror_stdio: e.definition.mirror_stdio,
        startup_timeout_ms: e.definition.startup_timeout_ms,
        binary: e.definition.binary,
    }
}

impl AppRuntime {
    /// The launcher of an app runtime: its own settings win over the defaults, and its env is
    /// merged over the default env under the resulting `CODEX_HOME`.
    pub fn into_launcher(self, defaults: &StdioServerConfig) -> (r: AppRuntimeLauncher)
        ensures
            app_launcher_of(r, self, *defaults),
            r.name == self.name && r.description == self.description && r.tags == self.tags
                && r.metadata == self.metadata,
    {
        let AppRuntime {
            name,
            description,
            tags,
            metadata,
            env,
            code_home,
            current_dir,
            mirror_stdio,
            startup_timeout_ms,
            binary,
        } = self;
        let code_home = first_of(code_home, &defaults.code_home);
        let merged = merge_stdio_env(&code_home, &defaults.env, &env);
        let binary = match binary {
            Some(b) => b,
            None => defaults.binary.clone(),
        };
        let current_dir = first_of(current_dir, &defaults.current_dir);
        let mirror = match mirror_stdio {
            Some(m) => m,
            None => defaults.mirror_stdio,
        };
        let startup_timeout = match startup_timeout_ms {
            Some(ms) => TimeSpan::from_millis(ms),
            None => defaults.startup_timeout,
        };
        AppRuntimeLauncher {
            name,
            description,
            tags,
            metadata,
            config: StdioServerConfig {
                binary,
                code_home,
                current_dir,
                env: merged,
                app_server_analytics_default_enabled: defaults.app_server_analytics_default_enabled,
                mirror_stdio: mirror,
                startup_timeout,
            },
        }
    }
}

impl AppRuntime {
    /// The runtime of a stored entry, field for field.
    pub fn from_entry(entry: AppRuntimeEntry) -> (r: Self)
        ensures
            r == app_runtime_of(entry),
            r.name == entry.name && r.description == entry.definition.description && r.tags
                == entry.definition.tags && r.metadata == entry.definition.metadata && r.env
                == entry.definition.env && r.code_home == entry.definition.code_home && r.current_dir
                == entry.definition.current_dir && r.mirror_stdio == entry.definition.mirror_stdio
                && r.startup_timeout_ms == entry.definition.startup_timeout_ms && r.binary
                == entry.definition.binary,
    {
        let AppRuntimeEntry { name, definition } = entry;
        let AppRuntimeDefinition {
            description,
            tags,
            env,
            code_home,
            current_dir,
            mirror_stdio,
            startup_timeout_ms,
            binary,
            metadata,
        } = definition;
        AppRuntime {
            name,
            description,
            tags,
            metadata,
            env,
            code_home,
            current_dir,
            mirror_stdio,
            startup_timeout_ms,
            binary,
        }
    }
}

/// Transport-specific launcher or connector.
#[derive(Debug)]
pub enum McpServerLauncherTransport {
    Stdio(StdioLauncher),
    StreamableHttp(StreamableHttpConnector),
}

/// Launcher or connector of a resolved MCP runtime server.
#[derive(Debug)]
pub struct McpServerLauncher {
    pub name: String,
    pub transport: McpServerLauncherTransport,
    pub description: Option<String>,
    pub tags: Vec<String>,
    pub tools: Option<McpToolConfig>,
}

impl McpRuntimeServer {
    /// The launcher of this runtime: stdio servers merge the defaults, HTTP servers become
    /// connectors.
    pub fn into_launcher(self, defaults: &StdioServerConfig) -> (r: McpServerLauncher)
        ensures
            launcher_view(r) == runtime_launcher_view(self, *defaults),
            r.name == self.name && r.description == self.description && r.tags == self.tags
                && r.tools == self.tools,
            match self.transport {
                McpRuntimeTransport::Stdio(d) => r.transport matches McpServerLauncherTransport::Stdio(l)
                    && l.command == d.command && l.args == d.args && pair_views(l.env@) == merged_env(
                    opt_str(defaults.code_home),
                    pair_views(defaults.env@),
                    pair_views(d.env@),
                ) && opt_str(l.current_dir) == opt_str(defaults.current_dir) && l.timeout == match d.timeout_ms {
                    Some(ms) => TimeSpan { nanos: (ms * 1_000_000) as u128 },
                    None => defaults.startup_timeout,
                } && l.mirror_stdio == defaults.mirror_stdio,
                McpRuntimeTransport::StreamableHttp(d) => r.transport matches McpServerLauncherTransport::StreamableHttp(
                    c,
                ) && c.url == d.url && c.headers == d.headers && c.bearer_env_var == d.bearer_env_var
                    && c.bearer_token == d.bearer_token && c.connect_timeout == millis_span(d.connect_timeout_ms)
                    && c.request_timeout == millis_span(d.request_timeout_ms),
            },
    {
        let McpRuntimeServer { name, transport, description, tags, tools } = self;
        let transport = match transport {
            McpRuntimeTransport::Stdio(d) => McpServerLauncherTransport::Stdio(
                StdioLauncher::from_runtime(d, defaults),
            ),
            McpRuntimeTransport::StreamableHttp(d) => McpServerLauncherTransport::StreamableHttp(
                StreamableHttpConnector::from_resolved(d),
            ),
        };
        McpServerLauncher { name, transport, description, tags, tools }
    }

    /// The launcher of a copy of this runtime; the runtime itself is kept.
    pub fn to_launcher(&self, defaults: &StdioServerConfig) -> (r: McpServerLauncher)
        ensures
            launcher_view(r) == runtime_launcher_view(*self, *defaults),
    {
        let transport = match &self.transport {
            McpRuntimeTransport::Stdio(d) => McpServerLauncherTransport::Stdio(
                StdioLauncher::from_runtime(
                    StdioServerDefinition {
                        command: d.command.clone(),
                        args: clone_strings(&d.args),
                        env: clone_pairs(&d.env),
                        timeout_ms: d.timeout_ms,
                    },
                    defaults,
                ),
            ),
            McpRuntimeTransport::StreamableHttp(d) => McpServerLauncherTransport::StreamableHttp(
                StreamableHttpConnector::from_resolved(
                    ResolvedStreamableHttpDefinition {
                        url: d.url.clone(),
                        headers: clone_pairs(&d.headers),
                        bearer_env_var: clone_opt_string(&d.bearer_env_var),
                        bearer_token: clone_opt_string(&d.bearer_token),
                        connect_timeout_ms: d.connect_timeout_ms,
                        request_timeout_ms: d.request_timeout_ms,
                    },
                ),
            ),
        };
        let tools = match &self.tools {
            Some(t) => Some(t.duplicate()),
            None => None,
        };
        McpServerLauncher {
            name: self.name.clone(),
            transport,
            description: clone_opt_string(&self.description),
            tags: clone_strings(&self.tags),
            tools,
        }
    }
}

/// What `into_launcher` makes of a runtime under `defaults`, as a plain view: a stdio
/// server gets the merged environment, the defaults' directory and mirroring, and its own
/// timeout over the default one; an HTTP server keeps its resolved headers and token.
pub open spec fn runtime_launcher_view(s: McpRuntimeServer, defaults: StdioServerConfig) -> LauncherView {
    (
        s.name@,
        match s.transport {
            McpRuntimeTransport::Stdio(d) => LauncherTransportView::Stdio {
                command: d.command@,
                args: str_views(d.args@),
                env: merged_env(opt_str(defaults.code_home), pair_views(defaults.env@), pair_views(d.env@)),
                current_dir: opt_str(defaults.current_dir),
                timeout: match d.timeout_ms {
                    Some(ms) => TimeSpan { nanos: (ms * 1_000_000) as u128 },
                    None => defaults.startup_timeout,
                },
                mirror_stdio: defaults.mirror_stdio,
            },
            McpRuntimeTransport::StreamableHttp(d) => LauncherTransportView::StreamableHttp {
                url: d.url@,
                headers: pair_views(d.headers@),
                bearer_env_var: opt_str(d.bearer_env_var),
                bearer_token: opt_str(d.bearer_token),
                connect_timeout: millis_span(d.connect_timeout_ms),
                request_timeout: millis_span(d.request_timeout_ms),
            },
        },
        opt_str(s.description),
        str_views(s.tags@),
        tools_view(s.tools),
    )
}

/// The stdio launcher of a runtime; an HTTP runtime is reported as using the other transport.
pub fn stdio_launcher_of(launcher: McpServerLauncher) -> (r: Result<StdioLauncher, McpRuntimeError>)
    ensures
        match launcher.transport {
            McpServerLauncherTransport::Stdio(l) => r == Ok::<StdioLauncher, McpRuntimeError>(l),
            McpServerLauncherTransport::StreamableHttp(_) => r matches Err(
                McpRuntimeError::UnsupportedTransport { name, expected, actual },
            ) && name == launcher.name && expected@ == "stdio"@ && actual@ == "streamable_http"@,
        },
{
    let McpServerLauncher { name, transport, description: _, tags: _, tools: _ } = launcher;
    match transport {
        McpServerLauncherTransport::Stdio(l) => Ok(l),
        McpServerLauncherTransport::StreamableHttp(_) => Err(
            McpRuntimeError::UnsupportedTransport {
                name,
                expected: "stdio".to_owned(),
                actual: "streamable_http".to_owned(),
            },
        ),
    }
}

/// The HTTP connector of a runtime; a stdio runtime is reported as using the other transport.
pub fn http_connector_of(launcher: McpServerLauncher) -> (r: Result<StreamableHttpConnector, McpRuntimeError>)
    ensures
        match launcher.transport {
            McpServerLauncherTransport::StreamableHttp(c) => r == Ok::<StreamableHttpConnector, McpRuntimeError>(c),
            McpServerLauncherTransport::Stdio(_) => r matches Err(
                McpRuntimeError::UnsupportedTransport { name, expected, actual },
            ) && name == launcher.name && expected@ == "streamable_http"@ && actual@ == "stdio"@,
        },
{
    let McpServerLauncher { name, transport, description: _, tags: _, tools: _ } = launcher;
    match transport {
        McpServerLauncherTransport::StreamableHttp(c) => Ok(c),
        McpServerLauncherTransport::Stdio(_) => Err(
            McpRuntimeError::UnsupportedTransport {
                name,
                expected: "streamable_http".to_owned(),
                actual: "stdio".to_owned(),
            },
        ),
    }
}

/// Plain view of a launcher's transport.
pub enum LauncherTransportView {
    Stdio {
        command: Seq<char>,
        args: Seq<Seq<char>>,
        env: Seq<(Seq<char>, Seq<char>)>,
        current_dir: Option<Seq<char>>,
        timeout: TimeSpan,
        mirror_stdio: bool,
    },
    StreamableHttp {
        url: Seq<char>,
        headers: Seq<(Seq<char>, Seq<char>)>,
        bearer_env_var: Option<Seq<char>>,
        bearer_token: Option<Seq<char>>,
        connect_timeout: Option<TimeSpan>,
        request_timeout: Option<TimeSpan>,
    },
}

/// Plain view of a launcher: name, transport, description, tags, tool lists.
pub type LauncherView = (
    Seq<char>,
    LauncherTransportView,
    Option<Seq<char>>,
    Seq<Seq<char>>,
    Option<(Seq<Seq<char>>, Seq<Seq<char>>)>,
);

pub open spec fn launcher_view(l: McpServerLauncher) -> LauncherView {
    (
        l.name@,
        match l.transport {
            McpServerLauncherTransport::Stdio(s) => LauncherTransportView::Stdio {
                command: s.command@,
                args: str_views(s.args@),
                env: pair_views(s.env@),
                current_dir: opt_str(s.current_dir),
                timeout: s.timeout,
                mirror_stdio: s.mirror_stdio,
            },
            McpServerLauncherTransport::StreamableHttp(c) => LauncherTransportView::StreamableHttp {
                url: c.url@,
                headers: pair_views(c.headers@),
                bearer_env_var: opt_str(c.bearer_env_var),
                bearer_token: opt_str(c.bearer_token),
                connect_timeout: c.connect_timeout,
                request_timeout: c.request_timeout,
            },
        },
        opt_str(l.description),
        str_views(l.tags@),
        tools_view(l.tools),
    )
}

fn clone_opt_string(o: &Option<String>) -> (r: Option<String>)
    ensures
        opt_str(r) == opt_str(*o),
{
    match o {
        Some(s) => Some(s.clone()),
        None => None,
    }
}

impl McpServerLauncher {
    /// A copy with the same contents.
    pub fn duplicate(&self) -> (r: Self)
        ensures
            launcher_view(r) == launcher_view(*self),
    {
        let transport = match &self.transport {
            McpServerLauncherTransport::Stdio(l) => McpServerLauncherTransport::Stdio(
                StdioLauncher {
                    command: l.command.clone(),
                    args: clone_strings(&l.args),
                    env: crate::mcp_config::clone_pairs(&l.env),
                    current_dir: clone_opt_string(&l.current_dir),
                    timeout: l.timeout,
                    mirror_stdio: l.mirror_stdio,
                },
            ),
            McpServerLauncherTransport::StreamableHttp(c) => McpServerLauncherTransport::StreamableHttp(
                StreamableHttpConnector {
                    url: c.url.clone(),
                    headers: crate::mcp_config::clone_pairs(&c.headers),
                    bearer_env_var: clone_opt_string(&c.bearer_env_var),
                    bearer_token: clone_opt_string(&c.bearer_token),
                    connect_timeout: c.connect_timeout,
                    request_timeout: c.request_timeout,
                },
            ),
        };
        let tools = match &self.tools {
            Some(t) => Some(t.duplicate()),
            None => None,
        };
        McpServerLauncher {
            name: self.name.clone(),
            transport,
            description: clone_opt_string(&self.description),
            tags: clone_strings(&self.tags),
            tools,
        }
    }

    /// The summary of this launcher.
    pub fn summary(&self) -> (r: McpRuntimeSummary)
        ensures
            r.name@ == self.name@,
            opt_str(r.description) == opt_str(self.description),
            str_views(r.tags@) == str_views(self.tags@),
            tools_view(r.tools) == tools_view(self.tools),
            r.transport == match self.transport {
                McpServerLauncherTransport::Stdio(_) => McpRuntimeSummaryTransport::Stdio,
                McpServerLauncherTransport::StreamableHttp(_) => McpRuntimeSummaryTransport::StreamableHttp,
            },
    {
        let transport = match &self.transport {
            McpServerLauncherTransport::Stdio(_) => McpRuntimeSummaryTransport::Stdio,
            McpServerLauncherTransport::StreamableHttp(_) => McpRuntimeSummaryTransport::StreamableHttp,
        };
        let tools = match &self.tools {
            Some(t) => Some(t.duplicate()),
            None => None,
        };
        McpRuntimeSummary {
            name: self.name.clone(),
            description: clone_opt_string(&self.description),
            tags: clone_strings(&self.tags),
            tools,
            transport,
        }
    }
}

pub open spec fn summary_names(s: Seq<McpRuntimeSummary>) -> Seq<Seq<char>> {
    s.map_values(|x: McpRuntimeSummary| x.name@)
}

pub open spec fn launcher_names(s: Seq<McpServerLauncher>) -> Seq<Seq<char>> {
    s.map_values(|l: McpServerLauncher| l.name@)
}

/// The index of the last launcher named `name`.
pub open spec fn last_launcher_index(s: Seq<McpServerLauncher>, name: Seq<char>) -> Option<int>
    decreases s.len(),
{
    if s.len() == 0 {
        None
    } else if s.last().name@ == name {
        Some(s.len() - 1)
    } else {
        last_launcher_index(s.drop_last(), name)
    }
}

/// The last launcher named `name`.
pub open spec fn last_launcher(s: Seq<McpServerLauncher>, name: Seq<char>) -> Option<McpServerLauncher> {
    match last_launcher_index(s, name) {
        Some(i) => Some(s[i]),
        None => None,
    }
}

proof fn lemma_last_launcher_push(s: Seq<McpServerLauncher>, x: McpServerLauncher, name: Seq<char>)
    ensures
        last_launcher(s.push(x), name) == if x.name@ == name { Some(x) } else { last_launcher(s, name) },
{
    assert(s.push(x).drop_last() =~= s);
    lemma_last_launcher_index_bound(s, name);
    match last_launcher_index(s, name) {
        Some(i) => assert(s.push(x)[i] == s[i]),
        None => {},
    }
}

proof fn lemma_last_launcher_index_bound(s: Seq<McpServerLauncher>, name: Seq<char>)
    ensures
        match last_launcher_index(s, name) {
            Some(i) => 0 <= i < s.len() && s[i].name@ == name,
            None => forall|j: int| 0 <= j < s.len() ==> s[j].name@ != name,
        },
    decreases s.len(),
{
    if s.len() > 0 {
        lemma_last_launcher_index_bound(s.drop_last(), name);
        match last_launcher_index(s.drop_last(), name) {
            Some(i) => assert(s.drop_last()[i] == s[i]),
            None => {
                assert forall|j: int| 0 <= j < s.len() - 1 implies s[j].name@ != name by {
                    assert(s.drop_last()[j] == s[j]);
                }
            },
        }
    }
}

/// Some stored launcher is named `name`.
pub open spec fn stored_has(s: Seq<McpServerLauncher>, name: Seq<char>) -> bool {
    exists|q: int| 0 <= q < s.len() && (#[trigger] s[q]).name@ == name
}

/// The transport view of a stdio launcher.
pub open spec fn stdio_view(l: StdioLauncher) -> LauncherTransportView {
    LauncherTransportView::Stdio {
        command: l.command@,
        args: str_views(l.args@),
        env: pair_views(l.env@),
        current_dir: opt_str(l.current_dir),
        timeout: l.timeout,
        mirror_stdio: l.mirror_stdio,
    }
}

/// The transport view of an HTTP connector.
pub open spec fn connector_view(c: StreamableHttpConnector) -> LauncherTransportView {
    LauncherTransportView::StreamableHttp {
        url: c.url@,
        headers: pair_views(c.headers@),
        bearer_env_var: opt_str(c.bearer_env_var),
        bearer_token: opt_str(c.bearer_token),
        connect_timeout: c.connect_timeout,
        request_timeout: c.request_timeout,
    }
}

/// Launchers by name, in name order, one per name (later launchers of a name win).
#[derive(Debug)]
pub struct McpRuntimeManager {
    launchers: Vec<McpServerLauncher>,
}

impl McpRuntimeManager {
    /// Names strictly increasing.
    pub closed spec fn wf(&self) -> bool {
        strictly_sorted(launcher_names(self.launchers@))
    }

    /// The stored launchers, in name order.
    pub closed spec fn stored(&self) -> Seq<McpServerLauncher> {
        self.launchers@
    }

    /// Two stored launchers with the same name are the same one.
    pub proof fn lemma_unique_names(&self, name: Seq<char>)
        requires
            self.wf(),
        ensures
            forall|a: int, b: int|
                0 <= a < self.stored().len() && 0 <= b < self.stored().len() && (#[trigger] self.stored()[a]).name@
                    == name && (#[trigger] self.stored()[b]).name@ == name ==> a == b,
    {
        assert forall|a: int, b: int|
            0 <= a < self.stored().len() && 0 <= b < self.stored().len() && (#[trigger] self.stored()[a]).name@
                == name && (#[trigger] self.stored()[b]).name@ == name implies a == b by {
            if a != b {
                assert(launcher_names(self.launchers@)[a] == self.launchers@[a].name@);
                assert(launcher_names(self.launchers@)[b] == self.launchers@[b].name@);
                lemma_lt_irreflexive(name);
            }
        }
    }

    /// A manager of the given launchers.
    pub fn new(launchers: Vec<McpServerLauncher>) -> (r: Self)
        ensures
            r.wf(),
            forall|q: int|
                0 <= q < r.stored().len() ==> last_launcher(launchers@, (#[trigger] r.stored()[q]).name@)
                    == Some(r.stored()[q]),
            forall|j: int|
                0 <= j < launchers@.len() ==> exists|q: int|
                    0 <= q < r.stored().len() && (#[trigger] r.stored()[q]).name@ == (#[trigger] launchers@[j]).name@,
    {
        let ghost input = launchers@;
        let n = launchers.len();
        let mut rest = launchers;
        let mut acc: Vec<McpServerLauncher> = Vec::new();
        let mut i: usize = 0;
        while i < n
            invariant
                i <= n == input.len(),
                rest@ == input.subrange(i as int, n as int),
                strictly_sorted(launcher_names(acc@)),
                forall|q: int|
                    0 <= q < acc@.len() ==> last_launcher(input.take(i as int), (#[trigger] acc@[q]).name@)
                        == Some(acc@[q]),
                forall|j: int|
                    0 <= j < i ==> exists|q: int|
                        0 <= q < acc@.len() && (#[trigger] acc@[q]).name@ == (#[trigger] input[j]).name@,
            decreases n - i,
        {
            let e = rest.remove(0);
            assert(e == input[i as int]);
            assert(rest@ =~= input.subrange(i + 1, n as int));
            proof {
                assert(input.take(i + 1) =~= input.take(i as int).push(e));
            }
            let mut p: usize = 0;
            while p < acc.len() && str_less(acc[p].name.as_str(), e.name.as_str())
                invariant
                    p <= acc@.len(),
                    forall|q: int| 0 <= q < p ==> str_lt((#[trigger] acc@[q]).name@, e.name@),
                decreases acc@.len() - p,
            {
                p = p + 1;
            }
            let ghost old_acc = acc@;
            let same = p < acc.len() && crate::text::eq_chars(
                chars_of(acc[p].name.as_str()).as_slice(),
                chars_of(e.name.as_str()).as_slice(),
            );
            proof {
                lemma_last_launcher_push(input.take(i as int), e, e.name@);
                assert forall|q: int| p <= q < old_acc.len() && !(q == p && same) implies str_lt(
                    e.name@,
                    #[trigger] old_acc[q].name@,
                ) by {
                    assert(launcher_names(old_acc)[p as int] == old_acc[p as int].name@);
                    if !str_lt(old_acc[p as int].name@, e.name@) {
                        if old_acc[p as int].name@ != e.name@ {
                            lemma_lt_total(old_acc[p as int].name@, e.name@);
                        }
                    }
                    if q > p {
                        assert(launcher_names(old_acc)[q] == old_acc[q].name@);
                        assert(str_lt(launcher_names(old_acc)[p as int], launcher_names(old_acc)[q]));
                        if old_acc[p as int].name@ == e.name@ {
                        } else {
                            lemma_lt_transitive(e.name@, old_acc[p as int].name@, old_acc[q].name@);
                        }
                    }
                }
            }
            if same {
                acc.remove(p);
                acc.insert(p, e);
                proof {
                    assert(acc@ =~= old_acc.update(p as int, e));
                    assert forall|a: int, b: int| 0 <= a < b < acc@.len() implies str_lt(
                        #[trigger] launcher_names(acc@)[a],
                        #[trigger] launcher_names(acc@)[b],
                    ) by {
                        assert(launcher_names(old_acc)[a] == old_acc[a].name@);
                        assert(launcher_names(old_acc)[b] == old_acc[b].name@);
                    }
                    assert forall|q: int| 0 <= q < acc@.len() implies last_launcher(
                        input.take(i + 1),
                        (#[trigger] acc@[q]).name@,
                    ) == Some(acc@[q]) by {
                        lemma_last_launcher_push(input.take(i as int), e, acc@[q].name@);
                        if q != p {
                            assert(launcher_names(old_acc)[q] == old_acc[q].name@);
                            assert(launcher_names(old_acc)[p as int] == old_acc[p as int].name@);
                            if q < p {
                                assert(str_lt(launcher_names(old_acc)[q], launcher_names(old_acc)[p as int]));
                            } else {
                                assert(str_lt(launcher_names(old_acc)[p as int], launcher_names(old_acc)[q]));
                            }
                            lemma_lt_irreflexive(e.name@);
                        }
                    }
                    assert forall|j: int| 0 <= j < i + 1 implies exists|q: int|
                        0 <= q < acc@.len() && (#[trigger] acc@[q]).name@ == (#[trigger] input[j]).name@ by {
                        if j == i {
                            assert(acc@[p as int].name@ == input[j].name@);
                        } else {
                            let q = choose|q: int| 0 <= q < old_acc.len() && (#[trigger] old_acc[q]).name@ == input[j].name@;
                            assert(acc@[q].name@ == input[j].name@);
                        }
                    }
                }
            } else {
                acc.insert(p, e);
                proof {
                    assert(acc@ =~= old_acc.insert(p as int, e));
                    assert forall|a: int, b: int| 0 <= a < b < acc@.len() implies str_lt(
                        #[trigger] launcher_names(acc@)[a],
                        #[trigger] launcher_names(acc@)[b],
                    ) by {
                        if a < p && b < p {
                            assert(launcher_names(old_acc)[a] == old_acc[a].name@);
                            assert(launcher_names(old_acc)[b] == old_acc[b].name@);
                        } else if a < p && b == p {
                        } else if a < p && b > p {
                            assert(str_lt(old_acc[a].name@, e.name@));
                            assert(str_lt(e.name@, old_acc[b - 1].name@));
                            lemma_lt_transitive(old_acc[a].name@, e.name@, old_acc[b - 1].name@);
                        } else if a == p {
                            assert(str_lt(e.name@, old_acc[b - 1].name@));
                        } else {
                            assert(launcher_names(old_acc)[a - 1] == old_acc[a - 1].name@);
                            assert(launcher_names(old_acc)[b - 1] == old_acc[b - 1].name@);
                        }
                    }
                    assert forall|q: int| 0 <= q < acc@.len() implies last_launcher(
                        input.take(i + 1),
                        (#[trigger] acc@[q]).name@,
                    ) == Some(acc@[q]) by {
                        lemma_last_launcher_push(input.take(i as int), e, acc@[q].name@);
                        if q < p {
                            assert(acc@[q] == old_acc[q]);
                            lemma_lt_irreflexive(e.name@);
                        } else if q > p {
                            assert(acc@[q] == old_acc[q - 1]);
                            assert(str_lt(e.name@, old_acc[q - 1].name@));
                            lemma_lt_irreflexive(e.name@);
                        }
                    }
                    assert forall|j: int| 0 <= j < i + 1 implies exists|q: int|
                        0 <= q < acc@.len() && (#[trigger] acc@[q]).name@ == (#[trigger] input[j]).name@ by {
                        if j == i {
                            assert(acc@[p as int].name@ == input[j].name@);
                        } else {
                            let q = choose|q: int| 0 <= q < old_acc.len() && (#[trigger] old_acc[q]).name@ == input[j].name@;
                            if q < p {
                                assert(acc@[q].name@ == input[j].name@);
                            } else {
                                assert(acc@[q + 1].name@ == input[j].name@);
                            }
                        }
                    }
                }
            }
            i = i + 1;
        }
        assert(input.take(n as int) =~= input);
        McpRuntimeManager { launchers: acc }
    }

    /// Summaries of the launchers, in name order.
    pub fn available(&self) -> (r: Vec<McpRuntimeSummary>)
        requires
            self.wf(),
        ensures
            r@.len() == self.stored().len(),
            strictly_sorted(summary_names(r@)),
            forall|q: int|
                0 <= q < r@.len() ==> (#[trigger] r@[q]).name@ == self.stored()[q].name@ && opt_str(r@[q].description)
                    == opt_str(self.stored()[q].description) && str_views(r@[q].tags@) == str_views(
                    self.stored()[q].tags@,
                ) && tools_view(r@[q].tools) == tools_view(self.stored()[q].tools),
    {
        let mut out: Vec<McpRuntimeSummary> = Vec::new();
        let mut i: usize = 0;
        while i < self.launchers.len()
            invariant
                i <= self.launchers@.len(),
                out@.len() == i,
                forall|q: int|
                    0 <= q < i ==> (#[trigger] out@[q]).name@ == self.launchers@[q].name@ && opt_str(
                        out@[q].description,
                    ) == opt_str(self.launchers@[q].description) && str_views(out@[q].tags@) == str_views(
                        self.launchers@[q].tags@,
                    ) && tools_view(out@[q].tools) == tools_view(self.launchers@[q].tools),
            decreases self.launchers@.len() - i,
        {
            out.push(self.launchers[i].summary());
            i = i + 1;
        }
        proof {
            assert forall|a: int, b: int| 0 <= a < b < out@.len() implies str_lt(
                #[trigger] summary_names(out@)[a],
                #[trigger] summary_names(out@)[b],
            ) by {
                assert(launcher_names(self.launchers@)[a] == self.launchers@[a].name@);
                assert(launcher_names(self.launchers@)[b] == self.launchers@[b].name@);
            }
        }
        out
    }

    /// A copy of the launcher named `name`, if any; the manager keeps its own.
    pub fn launcher(&self, name: &str) -> (r: Option<McpServerLauncher>)
        ensures
            r is Some <==> exists|q: int| 0 <= q < self.stored().len() && (#[trigger] self.stored()[q]).name@ == name@,
            r matches Some(l) ==> exists|q: int|
                0 <= q < self.stored().len() && (#[trigger] self.stored()[q]).name@ == name@ && launcher_view(l)
                    == launcher_view(self.stored()[q]),
    {
        let mut i: usize = 0;
        while i < self.launchers.len()
            invariant
                i <= self.launchers@.len(),
                forall|q: int| 0 <= q < i ==> (#[trigger] self.launchers@[q]).name@ != name@,
            decreases self.launchers@.len() - i,
        {
            let hit = crate::text::eq_chars(
                chars_of(self.launchers[i].name.as_str()).as_slice(),
                chars_of(name).as_slice(),
            );
            if hit {
                return Some(self.launchers[i].duplicate());
            }
            i = i + 1;
        }
        None
    }
}

/// Read-only runtime lookups over a manager.
#[derive(Debug)]
pub struct McpRuntimeApi {
    pub manager: McpRuntimeManager,
}

impl McpRuntimeApi {
    /// An API over the given launchers.
    pub fn new(launchers: Vec<McpServerLauncher>) -> (r: Self)
        ensures
            r.manager.wf(),
            forall|q: int|
                0 <= q < r.manager.stored().len() ==> last_launcher(launchers@, (#[trigger] r.manager.stored()[q]).name@)
                    == Some(r.manager.stored()[q]),
            forall|j: int|
                0 <= j < launchers@.len() ==> exists|q: int|
                    0 <= q < r.manager.stored().len() && (#[trigger] r.manager.stored()[q]).name@ == (#[trigger] launchers@[j]).name@,
    {
        McpRuntimeApi { manager: McpRuntimeManager::new(launchers) }
    }

    /// The launcher named `name`, or `NotFound`.
    pub fn launcher(&self, name: &str) -> (r: Result<McpServerLauncher, McpRuntimeError>)
        ensures
            r is Ok <==> exists|q: int|
                0 <= q < self.manager.stored().len() && (#[trigger] self.manager.stored()[q]).name@ == name@,
            r matches Ok(l) ==> exists|q: int|
                0 <= q < self.manager.stored().len() && (#[trigger] self.manager.stored()[q]).name@ == name@
                    && launcher_view(l) == launcher_view(self.manager.stored()[q]),
            r matches Err(e) ==> (e matches McpRuntimeError::NotFound(n) && n@ == name@),
    {
        match self.manager.launcher(name) {
            Some(l) => Ok(l),
            None => Err(McpRuntimeError::NotFound(name.to_owned())),
        }
    }

    /// The stdio launcher named `name`: `NotFound` when there is none, and the other
    /// transport reported when it is an HTTP runtime.
    pub fn stdio_launcher(&self, name: &str) -> (r: Result<StdioLauncher, McpRuntimeError>)
        requires
            self.manager.wf(),
        ensures
            !stored_has(self.manager.stored(), name@) ==> (r matches Err(McpRuntimeError::NotFound(n)) && n@ == name@),
            r is Ok <==> exists|q: int|
                0 <= q < self.manager.stored().len() && (#[trigger] self.manager.stored()[q]).name@ == name@
                    && self.manager.stored()[q].transport is Stdio,
            r matches Ok(l) ==> exists|q: int|
                0 <= q < self.manager.stored().len() && (#[trigger] self.manager.stored()[q]).name@ == name@
                    && launcher_view(self.manager.stored()[q]).1 == stdio_view(l),
            stored_has(self.manager.stored(), name@) && !(r is Ok) ==> (r matches Err(
                McpRuntimeError::UnsupportedTransport { name: n, .. },
            ) && n@ == name@),
    {
        let found = self.launcher(name);
        proof {
            self.manager.lemma_unique_names(name@);
        }
        match found {
            Ok(l) => stdio_launcher_of(l),
            Err(e) => Err(e),
        }
    }

    /// The HTTP connector named `name`: `NotFound` when there is none, and the other
    /// transport reported when it is a stdio runtime.
    pub fn http_connector(&self, name: &str) -> (r: Result<StreamableHttpConnector, McpRuntimeError>)
        requires
            self.manager.wf(),
        ensures
            !stored_has(self.manager.stored(), name@) ==> (r matches Err(McpRuntimeError::NotFound(n)) && n@ == name@),
            r is Ok <==> exists|q: int|
                0 <= q < self.manager.stored().len() && (#[trigger] self.manager.stored()[q]).name@ == name@
                    && self.manager.stored()[q].transport is StreamableHttp,
            r matches Ok(c) ==> exists|q: int|
                0 <= q < self.manager.stored().len() && (#[trigger] self.manager.stored()[q]).name@ == name@
                    && launcher_view(self.manager.stored()[q]).1 == connector_view(c),
            stored_has(self.manager.stored(), name@) && !(r is Ok) ==> (r matches Err(
                McpRuntimeError::UnsupportedTransport { name: n, .. },
            ) && n@ == name@),
    {
        let found = self.launcher(name);
        proof {
            self.manager.lemma_unique_names(name@);
        }
        match found {
            Ok(l) => http_connector_of(l),
            Err(e) => Err(e),
        }
    }
}

impl McpConfigManager {
    /// `app_runtimes`: the runtime of every stored app entry, in table order.
    pub fn app_runtimes(&self, runtimes: Vec<AppRuntimeEntry>) -> (r: Vec<AppRuntime>)
        ensures
            r@.len() == runtimes@.len(),
            forall|i: int| 0 <= i < r@.len() ==> #[trigger] r@[i] == app_runtime_of(runtimes@[i]),
    {
        let ghost before = runtimes@;
        let n = runtimes.len();
        let mut rest = runtimes;
        let mut out: Vec<AppRuntime> = Vec::new();
        let mut i: usize = 0;
        while i < n
            invariant
                i <= n == before.len(),
                rest@ == before.subrange(i as int, n as int),
                out@.len() == i,
                forall|j: int| 0 <= j < i ==> #[trigger] out@[j] == app_runtime_of(before[j]),
            decreases n - i,
        {
            let e = rest.remove(0);
            assert(e == before[i as int]);
            assert(rest@ =~= before.subrange(i + 1, n as int));
            out.push(AppRuntime::from_entry(e));
            i = i + 1;
        }
        out
    }

    /// `app_runtime`: the runtime of the app entry named `name`.
    pub fn app_runtime(&self, runtimes: Vec<AppRuntimeEntry>, name: &str) -> (r: Result<AppRuntime, McpConfigError>)
        ensures
            match crate::mcp_config::last_runtime_index(runtimes@, name@) {
                Some(i) => r == Ok::<AppRuntime, McpConfigError>(app_runtime_of(runtimes@[i])),
                None => r matches Err(McpConfigError::AppRuntimeNotFound(n)) && n@ == name@,
            },
    {
        match self.get_app_runtime(runtimes, name) {
            Ok(e) => Ok(AppRuntime::from_entry(e)),
            Err(e) => Err(e),
        }
    }

    /// `app_runtime_launchers`: the launcher of every stored app runtime under `defaults`, in
    /// table order.
    pub fn app_runtime_launchers(&self, runtimes: Vec<AppRuntimeEntry>, defaults: &StdioServerConfig) -> (r: Vec<
        AppRuntimeLauncher,
    >)
        ensures
            r@.len() == runtimes@.len(),
            forall|i: int|
                0 <= i < r@.len() ==> app_launcher_of(#[trigger] r@[i], app_runtime_of(runtimes@[i]), *defaults),
    {
        let ghost before = runtimes@;
        let all = self.app_runtimes(runtimes);
        let n = all.len();
        let mut rest = all;
        let ghost rts = rest@;
        let mut out: Vec<AppRuntimeLauncher> = Vec::new();
        let mut i: usize = 0;
        while i < n
            invariant
                i <= n == before.len() == rts.len(),
                rest@ == rts.subrange(i as int, n as int),
                forall|j: int| 0 <= j < rts.len() ==> #[trigger] rts[j] == app_runtime_of(before[j]),
                out@.len() == i,
                forall|j: int| 0 <= j < i ==> app_launcher_of(#[trigger] out@[j], app_runtime_of(before[j]), *defaults),
            decreases n - i,
        {
            let rt = rest.remove(0);
            assert(rt == rts[i as int]);
            assert(rest@ =~= rts.subrange(i + 1, n as int));
            out.push(rt.into_launcher(defaults));
            i = i + 1;
        }
        out
    }

    /// `app_runtime_launcher`: the launcher of the app runtime named `name` under `defaults`.
    pub fn app_runtime_launcher(
        &self,
        runtimes: Vec<AppRuntimeEntry>,
        name: &str,
        defaults: &StdioServerConfig,
    ) -> (r: Result<AppRuntimeLauncher, McpConfigError>)
        ensures
            match crate::mcp_config::last_runtime_index(runtimes@, name@) {
                Some(i) => r matches Ok(l) && app_launcher_of(l, app_runtime_of(runtimes@[i]), *defaults),
                None => r matches Err(McpConfigError::AppRuntimeNotFound(n)) && n@ == name@,
            },
    {
        match self.app_runtime(runtimes, name) {
            Ok(rt) => Ok(rt.into_launcher(defaults)),
            Err(e) => Err(e),
        }
    }
}

/// A stdio runtime ready to be spawned: its launcher and tool hints.
#[derive(Debug)]
pub struct PendingStdioRuntime {
    pub name: String,
    pub tools: Option<McpToolConfig>,
    pub launcher: StdioLauncher,
}

/// What `prepare` hands back: a stdio runtime for the caller to spawn, or the connector of an
/// HTTP runtime.
#[derive(Debug)]
pub enum McpRuntimeHandle {
    Stdio(PendingStdioRuntime),
    StreamableHttp(ManagedHttpRuntime),
}

/// The tool hints a handle carries.
pub open spec fn handle_tools(h: McpRuntimeHandle) -> Option<McpToolConfig> {
    match h {
        McpRuntimeHandle::Stdio(p) => p.tools,
        McpRuntimeHandle::StreamableHttp(m) => m.tools,
    }
}

/// `h` is the handle of launcher `l`: same name and tool hints, and the launcher's own
/// transport (a stdio launcher for a stdio server, the connector for an HTTP one).
pub open spec fn handle_of(h: McpRuntimeHandle, l: McpServerLauncher) -> bool {
    match h {
        McpRuntimeHandle::Stdio(p) => p.name@ == l.name@ && tools_view(p.tools) == tools_view(l.tools)
            && launcher_view(l).1 == stdio_view(p.launcher),
        McpRuntimeHandle::StreamableHttp(m) => m.name@ == l.name@ && tools_view(m.tools) == tools_view(l.tools)
            && launcher_view(l).1 == connector_view(m.connector),
    }
}

impl McpRuntimeHandle {
    /// The tool hints of the runtime.
    pub fn tools(&self) -> (r: Option<&McpToolConfig>)
        ensures
            match r {
                Some(t) => handle_tools(*self) == Some(*t),
                None => handle_tools(*self) is None,
            },
    {
        match self {
            McpRuntimeHandle::Stdio(p) => p.tools.as_ref(),
            McpRuntimeHandle::StreamableHttp(m) => m.tools.as_ref(),
        }
    }
}

impl McpRuntimeManager {
    /// The handle of the runtime named `name`: `NotFound` when there is none. The manager keeps
    /// its launcher, so a runtime can be prepared again.
    pub fn prepare(&self, name: &str) -> (r: Result<McpRuntimeHandle, McpRuntimeError>)
        ensures
            !stored_has(self.stored(), name@) ==> (r matches Err(McpRuntimeError::NotFound(n)) && n@ == name@),
            stored_has(self.stored(), name@) ==> r is Ok,
            r matches Ok(h) ==> exists|q: int|
                0 <= q < self.stored().len() && (#[trigger] self.stored()[q]).name@ == name@ && handle_of(
                    h,
                    self.stored()[q],
                ),
    {
        match self.launcher(name) {
            None => Err(McpRuntimeError::NotFound(name.to_owned())),
            Some(l) => {
                let McpServerLauncher { name: launcher_name, transport, description: _, tags: _, tools } = l;
                match transport {
                    McpServerLauncherTransport::Stdio(launch) => Ok(
                        McpRuntimeHandle::Stdio(
                            PendingStdioRuntime { name: launcher_name, tools, launcher: launch },
                        ),
                    ),
                    McpServerLauncherTransport::StreamableHttp(connector) => Ok(
                        McpRuntimeHandle::StreamableHttp(
                            ManagedHttpRuntime { name: launcher_name, connector, tools },
                        ),
                    ),
                }
            },
        }
    }
}

proof fn lemma_last_launcher_of_table(
    ls: Seq<McpServerLauncher>,
    ss: Seq<McpServerEntry>,
    name: Seq<char>,
    env: Seq<(Seq<char>, Seq<char>)>,
    defaults: StdioServerConfig,
)
    requires
        ls.len() == ss.len(),
        forall|i: int|
            0 <= i < ls.len() ==> launcher_view(#[trigger] ls[i]) == definition_launcher_view(
                ss[i].name@,
                def_view(ss[i].definition),
                env,
                defaults,
            ),
    ensures
        match last_launcher(ls, name) {
            Some(l) => tv_get(table_view(ss), name) matches Some(d) && launcher_view(l)
                == definition_launcher_view(name, d, env, defaults),
            None => tv_get(table_view(ss), name) is None,
        },
    decreases ls.len(),
{
    if ls.len() > 0 {
        let n = ls.len() - 1;
        assert(launcher_view(ls[n]) == definition_launcher_view(
            ss[n].name@,
            def_view(ss[n].definition),
            env,
            defaults,
        ));
        assert forall|i: int| 0 <= i < ls.drop_last().len() implies launcher_view(#[trigger] ls.drop_last()[i])
            == definition_launcher_view(
            ss.drop_last()[i].name@,
            def_view(ss.drop_last()[i].definition),
            env,
            defaults,
        ) by {
            assert(ls.drop_last()[i] == ls[i]);
            assert(ss.drop_last()[i] == ss[i]);
            assert(launcher_view(ls[i]) == definition_launcher_view(
                ss[i].name@,
                def_view(ss[i].definition),
                env,
                defaults,
            ));
        }
        lemma_last_launcher_of_table(ls.drop_last(), ss.drop_last(), name, env, defaults);
        assert(table_view(ss).drop_last() =~= table_view(ss.drop_last()));
        lemma_last_launcher_index_bound(ls.drop_last(), name);
        match last_launcher_index(ls.drop_last(), name) {
            Some(i) => assert(ls.drop_last()[i] == ls[i]),
            None => {},
        }
    }
}

impl McpRuntimeApi {
    /// An API over the launchers of the stored servers under `defaults`; the table itself is
    /// not changed. A name stored twice counts once, by its last definition.
    pub fn from_config(
        config: &McpConfigManager,
        servers: Vec<McpServerEntry>,
        env: &Vec<(String, String)>,
        defaults: &StdioServerConfig,
    ) -> (r: Self)
        ensures
            r.manager.wf(),
            forall|q: int|
                0 <= q < r.manager.stored().len() ==> (tv_get(
                    table_view(servers@),
                    (#[trigger] r.manager.stored()[q]).name@,
                ) matches Some(d) && launcher_view(r.manager.stored()[q]) == definition_launcher_view(
                    r.manager.stored()[q].name@,
                    d,
                    pair_views(env@),
                    *defaults,
                )),
            forall|j: int|
                0 <= j < servers@.len() ==> exists|q: int|
                    0 <= q < r.manager.stored().len() && (#[trigger] r.manager.stored()[q]).name@
                        == (#[trigger] servers@[j]).name@,
    {
        let ghost before = servers@;
        let launchers = config.runtime_launchers(servers, env, defaults);
        let ghost ls = launchers@;
        let r = McpRuntimeApi::new(launchers);
        proof {
            assert forall|q: int| 0 <= q < r.manager.stored().len() implies (tv_get(
                table_view(before),
                (#[trigger] r.manager.stored()[q]).name@,
            ) matches Some(d) && launcher_view(r.manager.stored()[q]) == definition_launcher_view(
                r.manager.stored()[q].name@,
                d,
                pair_views(env@),
                *defaults,
            )) by {
                lemma_last_launcher_of_table(ls, before, r.manager.stored()[q].name@, pair_views(env@), *defaults);
            }
            assert forall|j: int| 0 <= j < before.len() implies exists|q: int|
                0 <= q < r.manager.stored().len() && (#[trigger] r.manager.stored()[q]).name@
                    == (#[trigger] before[j]).name@ by {
                assert(launcher_view(ls[j]).0 == before[j].name@);
                assert(ls[j].name@ == before[j].name@);
            }
        }
        r
    }

    /// Summaries of the runtimes, in name order.
    pub fn available(&self) -> (r: Vec<McpRuntimeSummary>)
        requires
            self.manager.wf(),
        ensures
            r@.len() == self.manager.stored().len(),
            strictly_sorted(summary_names(r@)),
            forall|q: int|
                0 <= q < r@.len() ==> (#[trigger] r@[q]).name@ == self.manager.stored()[q].name@ && opt_str(
                    r@[q].description,
                ) == opt_str(self.manager.stored()[q].description) && str_views(r@[q].tags@) == str_views(
                    self.manager.stored()[q].tags@,
                ) && tools_view(r@[q].tools) == tools_view(self.manager.stored()[q].tools),
    {
        self.manager.available()
    }

    /// The handle of the runtime named `name` (see [`McpRuntimeManager::prepare`]).
    pub fn prepare(&self, name: &str) -> (r: Result<McpRuntimeHandle, McpRuntimeError>)
        ensures
            !stored_has(self.manager.stored(), name@) ==> (r matches Err(McpRuntimeError::NotFound(n)) && n@
                == name@),
            stored_has(self.manager.stored(), name@) ==> r is Ok,
            r matches Ok(h) ==> exists|q: int|
                0 <= q < self.manager.stored().len() && (#[trigger] self.manager.stored()[q]).name@ == name@
                    && handle_of(h, self.manager.stored()[q]),
    {
        self.manager.prepare(name)
    }
}

/// Plain view of a handle: name, tool lists, and the transport it carries.
pub open spec fn handle_view(h: McpRuntimeHandle) -> (
    Seq<char>,
    Option<(Seq<Seq<char>>, Seq<Seq<char>>)>,
    LauncherTransportView,
) {
    match h {
        McpRuntimeHandle::Stdio(p) => (p.name@, tools_view(p.tools), stdio_view(p.launcher)),
        McpRuntimeHandle::StreamableHttp(m) => (m.name@, tools_view(m.tools), connector_view(m.connector)),
    }
}

/// Preparing a runtime leaves the manager's launcher in place, so two handles prepared for the
/// same name carry the same name, tool hints and transport.
pub proof fn law_prepare_is_repeatable(m: McpRuntimeManager, name: Seq<char>, h1: McpRuntimeHandle, h2: McpRuntimeHandle)
    requires
        m.wf(),
        exists|q: int| 0 <= q < m.stored().len() && (#[trigger] m.stored()[q]).name@ == name && handle_of(h1, m.stored()[q]),
        exists|q: int| 0 <= q < m.stored().len() && (#[trigger] m.stored()[q]).name@ == name && handle_of(h2, m.stored()[q]),
    ensures
        handle_view(h1) == handle_view(h2),
{
    let q1 = choose|q: int| 0 <= q < m.stored().len() && (#[trigger] m.stored()[q]).name@ == name && handle_of(h1, m.stored()[q]);
    let q2 = choose|q: int| 0 <= q < m.stored().len() && (#[trigger] m.stored()[q]).name@ == name && handle_of(h2, m.stored()[q]);
    m.lemma_unique_names(name);
    assert(q1 == q2);
}

} // verus!
