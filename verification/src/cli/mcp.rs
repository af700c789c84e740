//! `codex mcp` requests: overview, list, get, add, remove, logout and OAuth login.

use vstd::prelude::*;
use crate::capabilities::string_views;
use crate::overrides::{non_blank, non_blank_view, opt_string_view, CliOverridesPatch};
use crate::text::{blank, is_blank};

verus! {

/// Request for `codex mcp` (overview/help).
#[derive(Debug)]
pub struct McpOverviewRequest {
    pub overrides: CliOverridesPatch,
}

impl McpOverviewRequest {
    pub fn new() -> (r: Self)
        ensures
            r.overrides.is_default(),
    {
        McpOverviewRequest { overrides: CliOverridesPatch::new() }
    }

    pub fn with_overrides(self, overrides: CliOverridesPatch) -> (r: Self)
        ensures
            r.overrides == overrides,
    {
        McpOverviewRequest { overrides }
    }
}

impl Default for McpOverviewRequest {
    fn default() -> (r: Self)
        ensures
            r.overrides.is_default(),
    {
        McpOverviewRequest::new()
    }
}

/// Request for `codex mcp list`.
#[derive(Debug)]
pub struct McpListRequest {
    pub json: bool,
    pub overrides: CliOverridesPatch,
}

impl McpListRequest {
    pub fn new() -> (r: Self)
        ensures
            !r.json,
            r.overrides.is_default(),
    {
        McpListRequest { json: false, overrides: CliOverridesPatch::new() }
    }

    pub fn json(self, enable: bool) -> (r: Self)
        ensures
            r == (McpListRequest { json: enable, ..self }),
    {
        McpListRequest { json: enable, ..self }
    }

    pub fn with_overrides(self, overrides: CliOverridesPatch) -> (r: Self)
        ensures
            r == (McpListRequest { overrides, ..self }),
    {
        McpListRequest { overrides, ..self }
    }
}

impl Default for McpListRequest {
    fn default() -> (r: Self)
        ensures
            !r.json,
            r.overrides.is_default(),
    {
        McpListRequest::new()
    }
}

/// Request for `codex mcp get <NAME>`.
#[derive(Debug)]
pub struct McpGetRequest {
    pub name: String,
    pub json: bool,
    pub overrides: CliOverridesPatch,
}

impl McpGetRequest {
    pub fn new(name: &str) -> (r: Self)
        ensures
            r.name@ == name@,
            !r.json,
            r.overrides.is_default(),
    {
        McpGetRequest { name: name.to_owned(), json: false, overrides: CliOverridesPatch::new() }
    }

    pub fn json(self, enable: bool) -> (r: Self)
        ensures
            r == (McpGetRequest { json: enable, ..self }),
    {
        McpGetRequest { json: enable, ..self }
    }

    pub fn with_overrides(self, overrides: CliOverridesPatch) -> (r: Self)
        ensures
            r == (McpGetRequest { overrides, ..self }),
    {
        McpGetRequest { overrides, ..self }
    }
}

/// Transport for `codex mcp add`.
#[derive(Debug)]
pub enum McpAddTransport {
    Stdio { env: Vec<(String, String)>, command: Vec<String> },
    StreamableHttp { url: String, bearer_token_env_var: Option<String> },
}

/// The `(key, value)` pairs of an environment list, as character sequences.
pub open spec fn env_views(env: Seq<(String, String)>) -> Seq<(Seq<char>, Seq<char>)> {
    env.map_values(|p: (String, String)| (p.0@, p.1@))
}

/// Request for `codex mcp add`.
#[derive(Debug)]
pub struct McpAddRequest {
    pub name: String,
    pub transport: McpAddTransport,
    pub overrides: CliOverridesPatch,
}

impl McpAddRequest {
    pub fn stdio(name: &str, command: Vec<String>) -> (r: Self)
        ensures
            r.name@ == name@,
            r.transport matches McpAddTransport::Stdio { env, command: c } && env@.len() == 0
                && c == command,
            r.overrides.is_default(),
    {
        McpAddRequest {
            name: name.to_owned(),
            transport: McpAddTransport::Stdio { env: Vec::new(), command },
            overrides: CliOverridesPatch::new(),
        }
    }

    pub fn streamable_http(name: &str, url: &str) -> (r: Self)
        ensures
            r.name@ == name@,
            r.transport matches McpAddTransport::StreamableHttp { url: u, bearer_token_env_var: b }
                && u@ == url@ && b is None,
            r.overrides.is_default(),
    {
        McpAddRequest {
            name: name.to_owned(),
            transport: McpAddTransport::StreamableHttp {
                url: url.to_owned(),
                bearer_token_env_var: None,
            },
            overrides: CliOverridesPatch::new(),
        }
    }

    /// Appends an environment variable to a stdio transport; an HTTP transport is left as it is.
    pub fn env(self, key: &str, value: &str) -> (r: Self)
        ensures
            r.name == self.name && r.overrides == self.overrides,
            match self.transport {
                McpAddTransport::Stdio { env, command } => (r.transport matches McpAddTransport::Stdio {
                    env: e2,
                    command: c2,
                } && c2 == command && env_views(e2@) == env_views(env@).push((key@, value@))),
                McpAddTransport::StreamableHttp { .. } => r.transport == self.transport,
            },
    {
        let McpAddRequest { name, transport, overrides } = self;
        let transport = match transport {
            McpAddTransport::Stdio { env, command } => {
                let mut env = env;
                let ghost old_env = env@;
                env.push((key.to_owned(), value.to_owned()));
                assert(env_views(env@) =~= env_views(old_env).push((key@, value@)));
                McpAddTransport::Stdio { env, command }
            },
            other => other,
        };
        McpAddRequest { name, transport, overrides }
    }

    /// Sets the bearer token variable of an HTTP transport (blank names clear it); a stdio
    /// transport is left as it is.
    pub fn bearer_token_env_var(self, env_var: &str) -> (r: Self)
        ensures
            r.name == self.name && r.overrides == self.overrides,
            match self.transport {
                McpAddTransport::StreamableHttp { url, .. } => (r.transport matches
                    McpAddTransport::StreamableHttp { url: u2, bearer_token_env_var: b2 } && u2
                    == url && opt_string_view(b2) == non_blank_view(env_var@)),
                McpAddTransport::Stdio { .. } => r.transport == self.transport,
            },
    {
        let McpAddRequest { name, transport, overrides } = self;
        let transport = match transport {
            McpAddTransport::StreamableHttp { url, .. } => McpAddTransport::StreamableHttp {
                url,
                bearer_token_env_var: non_blank(env_var),
            },
            other => other,
        };
        McpAddRequest { name, transport, overrides }
    }

    pub fn with_overrides(self, overrides: CliOverridesPatch) -> (r: Self)
        ensures
            r == (McpAddRequest { overrides, ..self }),
    {
        McpAddRequest { overrides, ..self }
    }
}

/// Request for `codex mcp remove <NAME>`.
#[derive(Debug)]
pub struct McpRemoveRequest {
    pub name: String,
    pub overrides: CliOverridesPatch,
}

impl McpRemoveRequest {
    pub fn new(name: &str) -> (r: Self)
        ensures
            r.name@ == name@,
            r.overrides.is_default(),
    {
        McpRemoveRequest { name: name.to_owned(), overrides: CliOverridesPatch::new() }
    }

    pub fn with_overrides(self, overrides: CliOverridesPatch) -> (r: Self)
        ensures
            r == (McpRemoveRequest { overrides, ..self }),
    {
        McpRemoveRequest { overrides, ..self }
    }
}

/// Request for `codex mcp logout <NAME>`.
#[derive(Debug)]
pub struct McpLogoutRequest {
    pub name: String,
    pub overrides: CliOverridesPatch,
}

impl McpLogoutRequest {
    pub fn new(name: &str) -> (r: Self)
        ensures
            r.name@ == name@,
            r.overrides.is_default(),
    {
        McpLogoutRequest { name: name.to_owned(), overrides: CliOverridesPatch::new() }
    }

    pub fn with_overrides(self, overrides: CliOverridesPatch) -> (r: Self)
        ensures
            r == (McpLogoutRequest { overrides, ..self }),
    {
        McpLogoutRequest { overrides, ..self }
    }
}

/// The items of `s` that are not blank, in order.
pub open spec fn non_blank_items(s: Seq<Seq<char>>) -> Seq<Seq<char>>
    decreases s.len(),
{
    if s.len() == 0 {
        Seq::empty()
    } else if is_blank(s.last()) {
        non_blank_items(s.drop_last())
    } else {
        non_blank_items(s.drop_last()).push(s.last())
    }
}

/// Request for `codex mcp login <NAME>` (OAuth).
#[derive(Debug)]
pub struct McpOauthLoginRequest {
    pub name: String,
    pub scopes: Vec<String>,
    pub overrides: CliOverridesPatch,
}

impl McpOauthLoginRequest {
    pub fn new(name: &str) -> (r: Self)
        ensures
            r.name@ == name@,
            r.scopes@.len() == 0,
            r.overrides.is_default(),
    {
        McpOauthLoginRequest {
            name: name.to_owned(),
            scopes: Vec::new(),
            overrides: CliOverridesPatch::new(),
        }
    }

    /// Appends the given scopes, skipping blank ones.
    pub fn scopes(self, scopes: Vec<String>) -> (r: Self)
        ensures
            r.name == self.name && r.overrides == self.overrides,
            string_views(r.scopes@) == string_views(self.scopes@) + non_blank_items(
                string_views(scopes@),
            ),
    {
        let McpOauthLoginRequest { name, scopes: existing, overrides } = self;
        let mut out = existing;
        let ghost start = string_views(out@);
        let mut i: usize = 0;
        while i < scopes.len()
            invariant
                i <= scopes.len(),
                string_views(out@) == start + non_blank_items(string_views(scopes@).take(i as int)),
            decreases scopes.len() - i,
        {
            let s = &scopes[i];
            proof {
                assert(string_views(scopes@).take(i + 1).drop_last() =~= string_views(scopes@).take(
                    i as int,
                ));
            }
            if !blank(s.as_str()) {
                let ghost before = string_views(out@);
                out.push(s.clone());
                assert(string_views(out@) =~= before.push(s@));
            }
            i = i + 1;
        }
        assert(string_views(scopes@).take(scopes@.len() as int) =~= string_views(scopes@));
        McpOauthLoginRequest { name, scopes: out, overrides }
    }

    pub fn with_overrides(self, overrides: CliOverridesPatch) -> (r: Self)
        ensures
            r == (McpOauthLoginRequest { overrides, ..self }),
    {
        McpOauthLoginRequest { overrides, ..self }
    }
}

} // verus!
