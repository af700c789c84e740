//! `codex cloud` requests: overview, list, status, diff, apply and exec.

use vstd::prelude::*;
use crate::capabilities::string_views;
use crate::json::{json_parse, parse_json, JsonValue};
use crate::cli::{
    opt_flag, opt_pair, push_arg, push_flag, push_opt_decimal, push_opt_pair, push_trimmed,
    RequestError,
};
use crate::overrides::{non_blank, non_blank_view, opt_string_view, CliOverridesPatch};
use crate::text::{blank, decimal, is_blank, trim};

verus! {

/// Request for `codex cloud` (overview/help).
#[derive(Debug)]
pub struct CloudOverviewRequest {
    pub overrides: CliOverridesPatch,
}

impl CloudOverviewRequest {
    pub fn new() -> (r: Self)
        ensures
            r.overrides.is_default(),
    {
        CloudOverviewRequest { overrides: CliOverridesPatch::new() }
    }

    pub fn with_overrides(self, overrides: CliOverridesPatch) -> (r: Self)
        ensures
            r.overrides == overrides,
    {
        CloudOverviewRequest { overrides }
    }
}

impl Default for CloudOverviewRequest {
    fn default() -> (r: Self)
        ensures
            r.overrides.is_default(),
    {
        CloudOverviewRequest::new()
    }
}

/// Arguments of `cloud_overview`: `cloud --help`.
pub fn cloud_overview_args(_request: &CloudOverviewRequest) -> (r: Vec<String>)
    ensures
        string_views(r@) == seq!["cloud"@, "--help"@],
{
    let mut args: Vec<String> = Vec::new();
    push_arg(&mut args, "cloud");
    push_arg(&mut args, "--help");
    args
}

/// Request for `codex cloud list`.
#[derive(Debug)]
pub struct CloudListRequest {
    pub json: bool,
    pub env_id: Option<String>,
    pub limit: Option<u32>,
    pub cursor: Option<String>,
    pub overrides: CliOverridesPatch,
}

impl CloudListRequest {
    pub fn new() -> (r: Self)
        ensures
            !r.json && r.env_id is None && r.limit is None && r.cursor is None,
            r.overrides.is_default(),
    {
        CloudListRequest {
            json: false,
            env_id: None,
            limit: None,
            cursor: None,
            overrides: CliOverridesPatch::new(),
        }
    }

    pub fn json(self, enable: bool) -> (r: Self)
        ensures
            r == (CloudListRequest { json: enable, ..self }),
    {
        CloudListRequest { json: enable, ..self }
    }

    /// Sets `--env`; blank ids clear it.
    pub fn env_id(self, env_id: &str) -> (r: Self)
        ensures
            opt_string_view(r.env_id) == non_blank_view(env_id@),
            r.json == self.json && r.limit == self.limit && r.cursor == self.cursor
                && r.overrides == self.overrides,
    {
        CloudListRequest { env_id: non_blank(env_id), ..self }
    }

    pub fn limit(self, limit: u32) -> (r: Self)
        ensures
            r == (CloudListRequest { limit: Some(limit), ..self }),
    {
        CloudListRequest { limit: Some(limit), ..self }
    }

    /// Sets `--cursor`; blank cursors clear it.
    pub fn cursor(self, cursor: &str) -> (r: Self)
        ensures
            opt_string_view(r.cursor) == non_blank_view(cursor@),
            r.json == self.json && r.limit == self.limit && r.env_id == self.env_id
                && r.overrides == self.overrides,
    {
        CloudListRequest { cursor: non_blank(cursor), ..self }
    }

    pub fn with_overrides(self, overrides: CliOverridesPatch) -> (r: Self)
        ensures
            r == (CloudListRequest { overrides, ..self }),
    {
        CloudListRequest { overrides, ..self }
    }
}

impl Default for CloudListRequest {
    fn default() -> (r: Self)
        ensures
            !r.json && r.env_id is None && r.limit is None && r.cursor is None,
            r.overrides.is_default(),
    {
        CloudListRequest::new()
    }
}

/// Arguments of `cloud_list`.
pub fn cloud_list_args(request: &CloudListRequest) -> (r: Vec<String>)
    ensures
        string_views(r@) == seq!["cloud"@, "list"@] + opt_pair("--env"@, opt_string_view(request.env_id))
            + match request.limit {
            Some(n) => seq!["--limit"@, decimal(n as nat)],
            None => Seq::empty(),
        } + opt_pair("--cursor"@, opt_string_view(request.cursor)) + opt_flag("--json"@, request.json),
{
    let mut args: Vec<String> = Vec::new();
    push_arg(&mut args, "cloud");
    push_arg(&mut args, "list");
    push_opt_pair(&mut args, "--env", &request.env_id);
    push_opt_decimal(&mut args, "--limit", request.limit);
    push_opt_pair(&mut args, "--cursor", &request.cursor);
    push_flag(&mut args, "--json", request.json);
    args
}

/// Request for `codex cloud status <TASK_ID>`.
#[derive(Debug)]
pub struct CloudStatusRequest {
    pub task_id: String,
    pub overrides: CliOverridesPatch,
}

impl CloudStatusRequest {
    pub fn new(task_id: &str) -> (r: Self)
        ensures
            r.task_id@ == task_id@,
            r.overrides.is_default(),
    {
        CloudStatusRequest { task_id: task_id.to_owned(), overrides: CliOverridesPatch::new() }
    }

    pub fn with_overrides(self, overrides: CliOverridesPatch) -> (r: Self)
        ensures
            r == (CloudStatusRequest { overrides, ..self }),
    {
        CloudStatusRequest { overrides, ..self }
    }
}

/// Arguments of `cloud_status`; a blank task id is rejected.
pub fn cloud_status_args(request: &CloudStatusRequest) -> (r: Result<Vec<String>, RequestError>)
    ensures
        is_blank(request.task_id@) ==> r == Err::<Vec<String>, RequestError>(RequestError::EmptyTaskId),
        !is_blank(request.task_id@) ==> (r matches Ok(a) && string_views(a@) == seq![
            "cloud"@,
            "status"@,
            trim(request.task_id@),
        ]),
{
    if blank(request.task_id.as_str()) {
        return Err(RequestError::EmptyTaskId);
    }
    let mut args: Vec<String> = Vec::new();
    push_arg(&mut args, "cloud");
    push_arg(&mut args, "status");
    push_trimmed(&mut args, request.task_id.as_str());
    Ok(args)
}

/// Request for `codex cloud diff [--attempt N] <TASK_ID>`.
#[derive(Debug)]
pub struct CloudDiffRequest {
    pub task_id: String,
    pub attempt: Option<u32>,
    pub overrides: CliOverridesPatch,
}

impl CloudDiffRequest {
    pub fn new(task_id: &str) -> (r: Self)
        ensures
            r.task_id@ == task_id@,
            r.attempt is None,
            r.overrides.is_default(),
    {
        CloudDiffRequest { task_id: task_id.to_owned(), attempt: None, overrides: CliOverridesPatch::new() }
    }

    pub fn attempt(self, attempt: u32) -> (r: Self)
        ensures
            r == (CloudDiffRequest { attempt: Some(attempt), ..self }),
    {
        CloudDiffRequest { attempt: Some(attempt), ..self }
    }

    pub fn with_overrides(self, overrides: CliOverridesPatch) -> (r: Self)
        ensures
            r == (CloudDiffRequest { overrides, ..self }),
    {
        CloudDiffRequest { overrides, ..self }
    }
}

/// Request for `codex cloud apply [--attempt N] <TASK_ID>`.
#[derive(Debug)]
pub struct CloudApplyRequest {
    pub task_id: String,
    pub attempt: Option<u32>,
    pub overrides: CliOverridesPatch,
}

impl CloudApplyRequest {
    pub fn new(task_id: &str) -> (r: Self)
        ensures
            r.task_id@ == task_id@,
            r.attempt is None,
            r.overrides.is_default(),
    {
        CloudApplyRequest { task_id: task_id.to_owned(), attempt: None, overrides: CliOverridesPatch::new() }
    }

    pub fn attempt(self, attempt: u32) -> (r: Self)
        ensures
            r == (CloudApplyRequest { attempt: Some(attempt), ..self }),
    {
        CloudApplyRequest { attempt: Some(attempt), ..self }
    }

    pub fn with_overrides(self, overrides: CliOverridesPatch) -> (r: Self)
        ensures
            r == (CloudApplyRequest { overrides, ..self }),
    {
        CloudApplyRequest { overrides, ..self }
    }
}

/// The arguments `cloud <sub> [--attempt N] <TASK_ID>` for a task-scoped subcommand.
pub open spec fn task_args(sub: Seq<char>, attempt: Option<u32>, task_id: Seq<char>) -> Seq<Seq<char>> {
    seq!["cloud"@, sub] + match attempt {
        Some(n) => seq!["--attempt"@, decimal(n as nat)],
        None => Seq::empty(),
    } + seq![trim(task_id)]
}

fn task_command_args(sub: &str, attempt: Option<u32>, task_id: &str) -> (r: Result<Vec<String>, RequestError>)
    ensures
        is_blank(task_id@) ==> r == Err::<Vec<String>, RequestError>(RequestError::EmptyTaskId),
        !is_blank(task_id@) ==> (r matches Ok(a) && string_views(a@) == task_args(sub@, attempt, task_id@)),
{
    if blank(task_id) {
        return Err(RequestError::EmptyTaskId);
    }
    let mut args: Vec<String> = Vec::new();
    push_arg(&mut args, "cloud");
    push_arg(&mut args, sub);
    push_opt_decimal(&mut args, "--attempt", attempt);
    push_trimmed(&mut args, task_id);
    Ok(args)
}

/// Arguments of `cloud_diff`; a blank task id is rejected.
pub fn cloud_diff_args(request: &CloudDiffRequest) -> (r: Result<Vec<String>, RequestError>)
    ensures
        is_blank(request.task_id@) ==> r == Err::<Vec<String>, RequestError>(RequestError::EmptyTaskId),
        !is_blank(request.task_id@) ==> (r matches Ok(a) && string_views(a@) == task_args(
            "diff"@,
            request.attempt,
            request.task_id@,
        )),
{
    task_command_args("diff", request.attempt, request.task_id.as_str())
}

/// Arguments of `cloud_apply`; a blank task id is rejected.
pub fn cloud_apply_args(request: &CloudApplyRequest) -> (r: Result<Vec<String>, RequestError>)
    ensures
        is_blank(request.task_id@) ==> r == Err::<Vec<String>, RequestError>(RequestError::EmptyTaskId),
        !is_blank(request.task_id@) ==> (r matches Ok(a) && string_views(a@) == task_args(
            "apply"@,
            request.attempt,
            request.task_id@,
        )),
{
    task_command_args("apply", request.attempt, request.task_id.as_str())
}

/// Request for `codex cloud exec`.
#[derive(Debug)]
pub struct CloudExecRequest {
    pub env_id: String,
    pub query: Option<String>,
    pub attempts: Option<u32>,
    pub branch: Option<String>,
    pub overrides: CliOverridesPatch,
}

impl CloudExecRequest {
    pub fn new(env_id: &str) -> (r: Self)
        ensures
            r.env_id@ == env_id@,
            r.query is None && r.attempts is None && r.branch is None,
            r.overrides.is_default(),
    {
        CloudExecRequest {
            env_id: env_id.to_owned(),
            query: None,
            attempts: None,
            branch: None,
            overrides: CliOverridesPatch::new(),
        }
    }

    /// Sets the query; blank queries clear it.
    pub fn query(self, query: &str) -> (r: Self)
        ensures
            opt_string_view(r.query) == non_blank_view(query@),
            r.env_id == self.env_id && r.attempts == self.attempts && r.branch == self.branch
                && r.overrides == self.overrides,
    {
        CloudExecRequest { query: non_blank(query), ..self }
    }

    pub fn attempts(self, attempts: u32) -> (r: Self)
        ensures
            r == (CloudExecRequest { attempts: Some(attempts), ..self }),
    {
        CloudExecRequest { attempts: Some(attempts), ..self }
    }

    /// Sets `--branch`; blank names clear it.
    pub fn branch(self, branch: &str) -> (r: Self)
        ensures
            opt_string_view(r.branch) == non_blank_view(branch@),
            r.env_id == self.env_id && r.attempts == self.attempts && r.query == self.query
                && r.overrides == self.overrides,
    {
        CloudExecRequest { branch: non_blank(branch), ..self }
    }

    pub fn with_overrides(self, overrides: CliOverridesPatch) -> (r: Self)
        ensures
            r == (CloudExecRequest { overrides, ..self }),
    {
        CloudExecRequest { overrides, ..self }
    }
}

/// Arguments of `cloud_exec`; a blank environment id is rejected.
pub fn cloud_exec_args(request: &CloudExecRequest) -> (r: Result<Vec<String>, RequestError>)
    ensures
        is_blank(request.env_id@) ==> r == Err::<Vec<String>, RequestError>(RequestError::EmptyEnvId),
        !is_blank(request.env_id@) ==> (r matches Ok(a) && string_views(a@) == seq![
            "cloud"@,
            "exec"@,
            "--env"@,
            trim(request.env_id@),
        ] + match request.attempts {
            Some(n) => seq!["--attempts"@, decimal(n as nat)],
            None => Seq::empty(),
        } + opt_pair("--branch"@, opt_string_view(request.branch)) + match opt_string_view(
            request.query,
        ) {
            Some(q) => seq![q],
            None => Seq::empty(),
        }),
{
    if blank(request.env_id.as_str()) {
        return Err(RequestError::EmptyEnvId);
    }
    let mut args: Vec<String> = Vec::new();
    push_arg(&mut args, "cloud");
    push_arg(&mut args, "exec");
    push_arg(&mut args, "--env");
    push_trimmed(&mut args, request.env_id.as_str());
    push_opt_decimal(&mut args, "--attempts", request.attempts);
    push_opt_pair(&mut args, "--branch", &request.branch);
    let ghost before = string_views(args@);
    match &request.query {
        Some(q) => push_arg(&mut args, q.as_str()),
        None => {},
    }
    assert(string_views(args@) =~= before + match opt_string_view(request.query) {
        Some(q) => seq![q],
        None => Seq::<Seq<char>>::empty(),
    });
    Ok(args)
}

/// `codex cloud list --json` printed something that is not JSON.
#[derive(Debug)]
pub struct CloudListJsonError {
    pub stdout: String,
}

/// `cloud_list`'s reading of the command's stdout: with `--json`, the JSON it printed (an
/// error carrying the output when it is not JSON); nothing without `--json`.
pub fn cloud_list_json(request: &CloudListRequest, stdout: &str) -> (r: Result<Option<JsonValue>, CloudListJsonError>)
    ensures
        !request.json ==> r matches Ok(None),
        request.json ==> match json_parse(stdout@) {
            Some(v) => r matches Ok(Some(x)) && x == v,
            None => r matches Err(e) && e.stdout@ == stdout@,
        },
{
    if !request.json {
        return Ok(None);
    }
    match parse_json(stdout) {
        Some(v) => Ok(Some(v)),
        None => Err(CloudListJsonError { stdout: stdout.to_owned() }),
    }
}

} // verus!
