//! `codex responses-api-proxy`: the request, its argument vector, and the retry rule for
//! reading the `--server-info` file.

use vstd::prelude::*;
use crate::capabilities::string_views;
use crate::cli::{opt_flag, opt_nonblank_pair, opt_pair, push_arg, push_flag, push_opt_nonblank_pair, push_opt_pair, RequestError};
use crate::overrides::{non_blank, non_blank_view, opt_string_view};
use crate::text::{blank, chars_of, decimal, decimal_chars, is_blank, string_of, trim, trim_chars, CharClass};

verus! {

/// Request for `codex responses-api-proxy`.
#[derive(Debug)]
pub struct ResponsesApiProxyRequest {
    /// API key written to the helper's stdin on startup.
    pub api_key: String,
    /// Port to bind; the OS picks one when absent.
    pub port: Option<u16>,
    /// Path handed to `--server-info` for the `{port,pid}` JSON output.
    pub server_info_path: Option<String>,
    /// Enables the HTTP shutdown endpoint (`GET /shutdown`).
    pub http_shutdown: bool,
    /// Upstream URL handed to `--upstream-url`.
    pub upstream_url: Option<String>,
}

impl ResponsesApiProxyRequest {
    pub fn new(api_key: &str) -> (r: Self)
        ensures
            r.api_key@ == api_key@,
            r.port is None && r.server_info_path is None && !r.http_shutdown && r.upstream_url is None,
    {
        ResponsesApiProxyRequest {
            api_key: api_key.to_owned(),
            port: None,
            server_info_path: None,
            http_shutdown: false,
            upstream_url: None,
        }
    }

    /// Sets `--port`.
    pub fn port(self, port: u16) -> (r: Self)
        ensures
            r == (ResponsesApiProxyRequest { port: Some(port), ..self }),
    {
        ResponsesApiProxyRequest { port: Some(port), ..self }
    }

    /// Sets `--server-info`.
    pub fn server_info(self, path: &str) -> (r: Self)
        ensures
            opt_string_view(r.server_info_path) == Some(path@),
            r.api_key == self.api_key && r.port == self.port && r.http_shutdown == self.http_shutdown
                && r.upstream_url == self.upstream_url,
    {
        ResponsesApiProxyRequest { server_info_path: Some(path.to_owned()), ..self }
    }

    /// Sets `--http-shutdown`.
    pub fn http_shutdown(self, enable: bool) -> (r: Self)
        ensures
            r == (ResponsesApiProxyRequest { http_shutdown: enable, ..self }),
    {
        ResponsesApiProxyRequest { http_shutdown: enable, ..self }
    }

    /// Sets `--upstream-url`; a blank URL clears it.
    pub fn upstream_url(self, url: &str) -> (r: Self)
        ensures
            opt_string_view(r.upstream_url) == non_blank_view(url@),
            r.api_key == self.api_key && r.port == self.port && r.http_shutdown == self.http_shutdown
                && r.server_info_path == self.server_info_path,
    {
        ResponsesApiProxyRequest { upstream_url: non_blank(url), ..self }
    }
}

/// What the helper is started with: its arguments and the key written to its stdin.
pub struct ResponsesApiProxyLaunch {
    pub args: Vec<String>,
    /// The trimmed API key; a newline follows it on stdin.
    pub api_key: String,
}

/// The arguments of `responses-api-proxy` for `request`, in order.
pub open spec fn proxy_args_view(request: ResponsesApiProxyRequest) -> Seq<Seq<char>> {
    seq!["responses-api-proxy"@] + match request.port {
        Some(p) => seq!["--port"@, decimal(p as nat)],
        None => Seq::empty(),
    } + opt_pair("--server-info"@, opt_string_view(request.server_info_path)) + opt_flag(
        "--http-shutdown"@,
        request.http_shutdown,
    ) + opt_nonblank_pair("--upstream-url"@, opt_string_view(request.upstream_url))
}

/// The launch of the proxy helper; a blank API key is rejected.
pub fn responses_api_proxy_launch(request: &ResponsesApiProxyRequest) -> (r: Result<
    ResponsesApiProxyLaunch,
    RequestError,
>)
    ensures
        is_blank(request.api_key@) <==> r == Err::<ResponsesApiProxyLaunch, RequestError>(
            RequestError::EmptyApiKey,
        ),
        !is_blank(request.api_key@) ==> r is Ok,
        r matches Ok(l) ==> string_views(l.args@) == proxy_args_view(*request) && l.api_key@ == trim(
            request.api_key@,
        ),
{
    if blank(request.api_key.as_str()) {
        return Err(RequestError::EmptyApiKey);
    }
    let key = trim_chars(chars_of(request.api_key.as_str()).as_slice(), CharClass::Whitespace);
    let mut args: Vec<String> = Vec::new();
    push_arg(&mut args, "responses-api-proxy");
    let ghost a0 = string_views(args@);
    match request.port {
        Some(p) => {
            push_arg(&mut args, "--port");
            let d = decimal_chars(p as u64);
            let ghost before = string_views(args@);
            args.push(string_of(d.as_slice()));
            assert(string_views(args@) =~= before.push(decimal(p as nat)));
        },
        None => {},
    }
    assert(string_views(args@) =~= a0 + match request.port {
        Some(p) => seq!["--port"@, decimal(p as nat)],
        None => Seq::<Seq<char>>::empty(),
    });
    push_opt_pair(&mut args, "--server-info", &request.server_info_path);
    push_flag(&mut args, "--http-shutdown", request.http_shutdown);
    push_opt_nonblank_pair(&mut args, "--upstream-url", &request.upstream_url);
    Ok(ResponsesApiProxyLaunch { args, api_key: string_of(key.as_slice()) })
}

/// How an attempt to read the `--server-info` file ended.
#[derive(Clone, Copy, Debug, PartialEq, Eq, Structural)]
pub enum ServerInfoAttempt {
    /// The file was read and parsed.
    Parsed,
    /// The file was read but did not parse.
    ParseFailed,
    /// The file does not exist yet.
    Missing,
    /// Reading failed for another reason.
    ReadFailed,
}

/// What to do after an attempt.
#[derive(Clone, Copy, Debug, PartialEq, Eq, Structural)]
pub enum ServerInfoStep {
    /// Hand back the parsed info.
    Done,
    /// Sleep for the backoff and read again.
    Retry,
    /// Report the parse error.
    FailParse,
    /// Report the read error.
    FailRead,
}

/// Number of reads before giving up.
pub const SERVER_INFO_MAX_ATTEMPTS: u32 = 10;

/// Milliseconds slept between reads.
pub const SERVER_INFO_BACKOFF_MS: u64 = 25;

/// The step after attempt number `attempt` (counted from 0) ended with `outcome`: parse errors
/// and a missing file are retried until the last attempt, other read errors end at once.
pub fn server_info_step(attempt: u32, outcome: ServerInfoAttempt) -> (r: ServerInfoStep)
    requires
        attempt < SERVER_INFO_MAX_ATTEMPTS,
    ensures
        r == match outcome {
            ServerInfoAttempt::Parsed => ServerInfoStep::Done,
            ServerInfoAttempt::ParseFailed => if attempt + 1 == SERVER_INFO_MAX_ATTEMPTS {
                ServerInfoStep::FailParse
            } else {
                ServerInfoStep::Retry
            },
            ServerInfoAttempt::Missing => if attempt + 1 == SERVER_INFO_MAX_ATTEMPTS {
                ServerInfoStep::FailRead
            } else {
                ServerInfoStep::Retry
            },
            ServerInfoAttempt::ReadFailed => ServerInfoStep::FailRead,
        },
        attempt + 1 == SERVER_INFO_MAX_ATTEMPTS ==> r != ServerInfoStep::Retry,
{
    let last = attempt + 1 == SERVER_INFO_MAX_ATTEMPTS;
    match outcome {
        ServerInfoAttempt::Parsed => ServerInfoStep::Done,
        ServerInfoAttempt::ParseFailed => if last {
            ServerInfoStep::FailParse
        } else {
            ServerInfoStep::Retry
        },
        ServerInfoAttempt::Missing => if last {
            ServerInfoStep::FailRead
        } else {
            ServerInfoStep::Retry
        },
        ServerInfoAttempt::ReadFailed => ServerInfoStep::FailRead,
    }
}

} // verus!
