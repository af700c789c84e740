//! `codex help` requests.

use vstd::prelude::*;
use crate::capabilities::string_views;
use crate::cli::push_arg;
use crate::overrides::CliOverridesPatch;

verus! {

/// Which help page to show.
#[derive(Clone, Copy, Debug, PartialEq, Eq, Structural)]
pub enum HelpScope {
    Root,
    Exec,
    Features,
    Login,
    AppServer,
    Sandbox,
    Cloud,
    Mcp,
}

pub open spec fn scope_prefix(scope: HelpScope) -> Seq<Seq<char>> {
    match scope {
        HelpScope::Root => seq!["help"@],
        HelpScope::Exec => seq!["exec"@, "help"@],
        HelpScope::Features => seq!["features"@, "help"@],
        HelpScope::Login => seq!["login"@, "help"@],
        HelpScope::AppServer => seq!["app-server"@, "help"@],
        HelpScope::Sandbox => seq!["sandbox"@, "help"@],
        HelpScope::Cloud => seq!["cloud"@, "help"@],
        HelpScope::Mcp => seq!["mcp"@, "help"@],
    }
}

impl HelpScope {
    /// The arguments that select the scope's help page.
    pub fn argv_prefix(&self) -> (r: Vec<String>)
        ensures
            string_views(r@) == scope_prefix(*self),
    {
        let mut args: Vec<String> = Vec::new();
        match self {
            HelpScope::Root => {},
            HelpScope::Exec => push_arg(&mut args, "exec"),
            HelpScope::Features => push_arg(&mut args, "features"),
            HelpScope::Login => push_arg(&mut args, "login"),
            HelpScope::AppServer => push_arg(&mut args, "app-server"),
            HelpScope::Sandbox => push_arg(&mut args, "sandbox"),
            HelpScope::Cloud => push_arg(&mut args, "cloud"),
            HelpScope::Mcp => push_arg(&mut args, "mcp"),
        }
        push_arg(&mut args, "help");
        args
    }
}

/// Request for `codex <scope> help [COMMAND]...`.
#[derive(Debug)]
pub struct HelpCommandRequest {
    pub scope: HelpScope,
    pub command: Vec<String>,
    pub overrides: CliOverridesPatch,
}

impl HelpCommandRequest {
    pub fn new(scope: HelpScope) -> (r: Self)
        ensures
            r.scope == scope,
            r.command@.len() == 0,
            r.overrides.is_default(),
    {
        HelpCommandRequest { scope, command: Vec::new(), overrides: CliOverridesPatch::new() }
    }

    /// Appends command tokens.
    pub fn command(self, tokens: Vec<String>) -> (r: Self)
        ensures
            r.scope == self.scope,
            r.command@ == self.command@ + tokens@,
            r.overrides == self.overrides,
    {
        let mut s = self;
        let mut tokens = tokens;
        s.command.append(&mut tokens);
        s
    }

    pub fn with_overrides(self, overrides: CliOverridesPatch) -> (r: Self)
        ensures
            r == (HelpCommandRequest { overrides, ..self }),
    {
        HelpCommandRequest { overrides, ..self }
    }
}

/// Arguments of `help`: the scope prefix, then the command tokens.
pub fn help_args(request: &HelpCommandRequest) -> (r: Vec<String>)
    ensures
        string_views(r@) == scope_prefix(request.scope) + string_views(request.command@),
{
    let mut args = request.scope.argv_prefix();
    let ghost before = string_views(args@);
    let mut i: usize = 0;
    while i < request.command.len()
        invariant
            i <= request.command.len(),
            string_views(args@) =~= before + string_views(request.command@.subrange(0, i as int)),
        decreases request.command.len() - i,
    {
        push_arg(&mut args, request.command[i].as_str());
        i = i + 1;
    }
    assert(request.command@.subrange(0, request.command@.len() as int) =~= request.command@);
    args
}

} // verus!
