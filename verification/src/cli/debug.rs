//! `codex debug` requests.

use vstd::prelude::*;
use crate::overrides::CliOverridesPatch;

verus! {

/// Request for `codex debug`.
#[derive(Debug)]
pub struct DebugCommandRequest {
    pub overrides: CliOverridesPatch,
}

impl DebugCommandRequest {
    pub fn new() -> (r: Self)
        ensures
            r.overrides.is_default(),
    {
        DebugCommandRequest { overrides: CliOverridesPatch::new() }
    }

    pub fn with_overrides(self, overrides: CliOverridesPatch) -> (r: Self)
        ensures
            r.overrides == overrides,
    {
        DebugCommandRequest { overrides }
    }
}

impl Default for DebugCommandRequest {
    fn default() -> (r: Self)
        ensures
            r.overrides.is_default(),
    {
        DebugCommandRequest::new()
    }
}

/// Request for `codex debug help [COMMAND]...`.
#[derive(Debug)]
pub struct DebugHelpRequest {
    pub command: Vec<String>,
    pub overrides: CliOverridesPatch,
}

impl DebugHelpRequest {
    pub fn new() -> (r: Self)
        ensures
            r.command@.len() == 0,
            r.overrides.is_default(),
    {
        DebugHelpRequest { command: Vec::new(), overrides: CliOverridesPatch::new() }
    }

    /// Replaces the command path.
    pub fn command(self, command: Vec<String>) -> (r: Self)
        ensures
            r == (DebugHelpRequest { command, ..self }),
    {
        DebugHelpRequest { command, ..self }
    }

    pub fn with_overrides(self, overrides: CliOverridesPatch) -> (r: Self)
        ensures
            r == (DebugHelpRequest { overrides, ..self }),
    {
        DebugHelpRequest { overrides, ..self }
    }
}

impl Default for DebugHelpRequest {
    fn default() -> (r: Self)
        ensures
            r.command@.len() == 0,
            r.overrides.is_default(),
    {
        DebugHelpRequest::new()
    }
}

/// Request for `codex debug app-server`.
#[derive(Debug)]
pub struct DebugAppServerRequest {
    pub overrides: CliOverridesPatch,
}

impl DebugAppServerRequest {
    pub fn new() -> (r: Self)
        ensures
            r.overrides.is_default(),
    {
        DebugAppServerRequest { overrides: CliOverridesPatch::new() }
    }

    pub fn with_overrides(self, overrides: CliOverridesPatch) -> (r: Self)
        ensures
            r.overrides == overrides,
    {
        DebugAppServerRequest { overrides }
    }
}

impl Default for DebugAppServerRequest {
    fn default() -> (r: Self)
        ensures
            r.overrides.is_default(),
    {
        DebugAppServerRequest::new()
    }
}

/// Request for `codex debug app-server help [COMMAND]...`.
#[derive(Debug)]
pub struct DebugAppServerHelpRequest {
    pub command: Vec<String>,
    pub overrides: CliOverridesPatch,
}

impl DebugAppServerHelpRequest {
    pub fn new() -> (r: Self)
        ensures
            r.command@.len() == 0,
            r.overrides.is_default(),
    {
        DebugAppServerHelpRequest { command: Vec::new(), overrides: CliOverridesPatch::new() }
    }

    /// Replaces the command path.
    pub fn command(self, command: Vec<String>) -> (r: Self)
        ensures
            r == (DebugAppServerHelpRequest { command, ..self }),
    {
        DebugAppServerHelpRequest { command, ..self }
    }

    pub fn with_overrides(self, overrides: CliOverridesPatch) -> (r: Self)
        ensures
            r == (DebugAppServerHelpRequest { overrides, ..self }),
    {
        DebugAppServerHelpRequest { overrides, ..self }
    }
}

impl Default for DebugAppServerHelpRequest {
    fn default() -> (r: Self)
        ensures
            r.command@.len() == 0,
            r.overrides.is_default(),
    {
        DebugAppServerHelpRequest::new()
    }
}

/// Request for `codex debug app-server send-message-v2 <USER_MESSAGE>`.
#[derive(Debug)]
pub struct DebugAppServerSendMessageV2Request {
    pub user_message: String,
    pub overrides: CliOverridesPatch,
}

impl DebugAppServerSendMessageV2Request {
    pub fn new(user_message: &str) -> (r: Self)
        ensures
            r.user_message@ == user_message@,
            r.overrides.is_default(),
    {
        DebugAppServerSendMessageV2Request {
            user_message: user_message.to_owned(),
            overrides: CliOverridesPatch::new(),
        }
    }

    pub fn with_overrides(self, overrides: CliOverridesPatch) -> (r: Self)
        ensures
            r == (DebugAppServerSendMessageV2Request { overrides, ..self }),
    {
        DebugAppServerSendMessageV2Request { overrides, ..self }
    }
}

} // verus!
