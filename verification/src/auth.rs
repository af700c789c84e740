//! Authentication: reading `codex login status` and `codex logout` output, and the login
//! commands.

use vstd::prelude::*;
use crate::capabilities::{guard_support, string_views, CapabilityFeature, CapabilitySupport, CodexCapabilities};
use crate::cli::push_arg;
use crate::client::CodexClient;
use crate::overrides::opt_string_view;
use crate::text::{
    blank, chars_of, contains, contains_chars, copy_range, fields, find_chars, is_blank, lit,
    occurs_at, split_fields, string_of, trim, trim_chars, CharClass,
};

verus! {

/// The full Unicode lowercase mapping of a string (`str::to_lowercase`).
pub uninterp spec fn unicode_lowercase(s: Seq<char>) -> Seq<char>;

/// `str::to_lowercase`: the result is the Unicode lowercase mapping of `s`, which depends on
/// `s` alone. The mapping table itself is not restated here.
#[verifier::external_body]
pub(crate) fn to_lowercase(s: &str) -> (r: String)
    ensures
        r@ == unicode_lowercase(s@),
{
    s.to_lowercase()
}

/// Authentication mechanism used to sign in.
#[derive(Debug, PartialEq, Eq)]
pub enum CodexAuthMethod {
    ChatGpt,
    ApiKey { masked_key: Option<String> },
}

/// Current authentication state reported by `codex login status`.
#[derive(Debug, PartialEq, Eq)]
pub enum CodexAuthStatus {
    /// The CLI reports an active session.
    LoggedIn(CodexAuthMethod),
    /// No credentials stored locally.
    LoggedOut,
}

/// Result of `codex logout`.
#[derive(Clone, Copy, Debug, PartialEq, Eq, Structural)]
pub enum CodexLogoutStatus {
    LoggedOut,
    AlreadyLoggedOut,
}

/// Captured result of a finished command.
#[derive(Debug)]
pub struct CapturedOutput {
    /// The exit status reported success.
    pub success: bool,
    pub stdout: String,
    pub stderr: String,
}

/// The index of the first occurrence of `pat` in `s`.
pub open spec fn first_index(s: Seq<char>, pat: Seq<char>) -> Option<int> {
    if contains(s, pat) {
        Some(
            choose|i: int|
                occurs_at(s, pat, i) && forall|j: int| 0 <= j < i ==> !occurs_at(s, pat, j),
        )
    } else {
        None
    }
}

proof fn lemma_first_index(s: Seq<char>, pat: Seq<char>, i: int)
    requires
        occurs_at(s, pat, i),
        forall|j: int| 0 <= j < i ==> !occurs_at(s, pat, j),
    ensures
        first_index(s, pat) == Some(i),
{
    assert(contains(s, pat));
    let k = choose|k: int| occurs_at(s, pat, k) && forall|j: int| 0 <= j < k ==> !occurs_at(s, pat, j);
    assert(occurs_at(s, pat, k) && forall|j: int| 0 <= j < k ==> !occurs_at(s, pat, j));
    if k < i {
        assert(!occurs_at(s, pat, k));
    }
    if i < k {
        assert(!occurs_at(s, pat, i));
    }
}

/// The last whitespace-separated word of `s`.
pub open spec fn last_word(s: Seq<char>) -> Option<Seq<char>> {
    let f = fields(s, CharClass::Whitespace);
    if f.len() == 0 {
        None
    } else {
        Some(f.last())
    }
}

/// The masked key of an API-key login line: what follows the first ` - `, trimmed, when that
/// is not empty; otherwise the last word of the line.
pub open spec fn masked_key_view(output: Seq<char>) -> Option<Seq<char>> {
    let after = match first_index(output, " - "@) {
        Some(i) => {
            let v = trim(output.subrange(i + 3, output.len() as int));
            if v.len() > 0 {
                Some(v)
            } else {
                None
            }
        },
        None => None,
    };
    match after {
        Some(v) => Some(v),
        None => last_word(output),
    }
}

/// The output names a ChatGPT login.
pub open spec fn says_chatgpt(output: Seq<char>) -> bool {
    contains(unicode_lowercase(output), "chatgpt"@)
}

/// The output names an API-key login.
pub open spec fn says_api_key(output: Seq<char>) -> bool {
    contains(unicode_lowercase(output), "api key"@) || contains(unicode_lowercase(output), "apikey"@)
}

/// `parse_login_success`: the login method named by the output of a successful
/// `codex login status`, compared case-insensitively; ChatGPT wins over an API key.
pub fn parse_login_success(output: &str) -> (r: Option<CodexAuthStatus>)
    ensures
        says_chatgpt(output@) ==> r == Some(CodexAuthStatus::LoggedIn(CodexAuthMethod::ChatGpt)),
        !says_chatgpt(output@) && says_api_key(output@) ==> (r matches Some(
            CodexAuthStatus::LoggedIn(CodexAuthMethod::ApiKey { masked_key }),
        ) && opt_string_view(masked_key) == masked_key_view(output@)),
        !says_chatgpt(output@) && !says_api_key(output@) ==> r is None,
{
    let lower = to_lowercase(output);
    let lc = chars_of(lower.as_str());
    let chatgpt = lit("chatgpt");
    if contains_chars(lc.as_slice(), chatgpt.as_slice()) {
        return Some(CodexAuthStatus::LoggedIn(CodexAuthMethod::ChatGpt));
    }
    let api_key = lit("api key");
    let apikey = lit("apikey");
    if contains_chars(lc.as_slice(), api_key.as_slice()) || contains_chars(
        lc.as_slice(),
        apikey.as_slice(),
    ) {
        let oc = chars_of(output);
        let sep = lit(" - ");
        let after: Option<Vec<char>> = match find_chars(oc.as_slice(), sep.as_slice()) {
            Some(i) => {
                proof {
                    lemma_first_index(output@, " - "@, i as int);
                    reveal_strlit(" - ");
                }
                let rest = copy_range(oc.as_slice(), i + 3, oc.len());
                let v = trim_chars(rest.as_slice(), CharClass::Whitespace);
                if v.len() > 0 {
                    Some(v)
                } else {
                    None
                }
            },
            None => None,
        };
        let masked = match after {
            Some(v) => Some(string_of(v.as_slice())),
            None => {
                let words = split_fields(oc.as_slice(), CharClass::Whitespace);
                if words.len() == 0 {
                    None
                } else {
                    Some(string_of(words[words.len() - 1].as_slice()))
                }
            },
        };
        return Some(CodexAuthStatus::LoggedIn(CodexAuthMethod::ApiKey { masked_key: masked }));
    }
    None
}

/// The text a status or logout command is judged by: stderr, unless it is blank.
pub open spec fn combined_view(out: CapturedOutput) -> Seq<char> {
    if is_blank(out.stderr@) {
        out.stdout@
    } else {
        out.stderr@
    }
}

fn combined_text(out: &CapturedOutput) -> (r: String)
    ensures
        r@ == combined_view(*out),
{
    if blank(out.stderr.as_str()) {
        out.stdout.clone()
    } else {
        out.stderr.clone()
    }
}

/// The output says there is no session.
pub open spec fn says_not_logged_in(text: Seq<char>) -> bool {
    contains(unicode_lowercase(text), "not logged in"@)
}

/// The output confirms a logout.
pub open spec fn says_logged_out(text: Seq<char>) -> bool {
    contains(unicode_lowercase(text), "successfully logged out"@)
}

impl CodexClient {
    /// Arguments of `login_status`.
    pub fn login_status_args(&self) -> (r: Vec<String>)
        ensures
            string_views(r@) == seq!["login"@, "status"@],
    {
        let mut a: Vec<String> = Vec::new();
        push_arg(&mut a, "login");
        push_arg(&mut a, "status");
        a
    }

    /// `login_status`, from the captured output of `codex login status`. On success the login
    /// method must be recognized; on failure a "not logged in" message means logged out. Any
    /// other outcome is an error carrying the judged text.
    pub fn login_status(&self, out: &CapturedOutput) -> (r: Result<CodexAuthStatus, String>)
        ensures
            out.success ==> match r {
                Ok(s) => says_chatgpt(combined_view(*out)) || says_api_key(combined_view(*out)),
                Err(e) => e@ == combined_view(*out) && !says_chatgpt(combined_view(*out))
                    && !says_api_key(combined_view(*out)),
            },
            out.success && says_chatgpt(combined_view(*out)) ==> r == Ok::<CodexAuthStatus, String>(
                CodexAuthStatus::LoggedIn(CodexAuthMethod::ChatGpt),
            ),
            out.success && !says_chatgpt(combined_view(*out)) && says_api_key(combined_view(*out))
                ==> (r matches Ok(CodexAuthStatus::LoggedIn(CodexAuthMethod::ApiKey { masked_key }))
                && opt_string_view(masked_key) == masked_key_view(combined_view(*out))),
            !out.success ==> match r {
                Ok(s) => s == CodexAuthStatus::LoggedOut && says_not_logged_in(combined_view(*out)),
                Err(e) => e@ == combined_view(*out) && !says_not_logged_in(combined_view(*out)),
            },
    {
        let combined = combined_text(out);
        if out.success {
            match parse_login_success(combined.as_str()) {
                Some(s) => Ok(s),
                None => Err(combined),
            }
        } else {
            let lower = to_lowercase(combined.as_str());
            let lc = chars_of(lower.as_str());
            let pat = lit("not logged in");
            if contains_chars(lc.as_slice(), pat.as_slice()) {
                Ok(CodexAuthStatus::LoggedOut)
            } else {
                Err(combined)
            }
        }
    }

    /// Arguments of `logout`.
    pub fn logout_args(&self) -> (r: Vec<String>)
        ensures
            string_views(r@) == seq!["logout"@],
    {
        let mut a: Vec<String> = Vec::new();
        push_arg(&mut a, "logout");
        a
    }

    /// `logout`, from the captured output of `codex logout`: a failed command is an error
    /// carrying the judged text; otherwise "not logged in" (without "successfully logged out")
    /// means there was no session, and anything else counts as logged out.
    pub fn logout(&self, out: &CapturedOutput) -> (r: Result<CodexLogoutStatus, String>)
        ensures
            !out.success ==> (r matches Err(e) && e@ == combined_view(*out)),
            out.success ==> r == Ok::<CodexLogoutStatus, String>(
                if !says_logged_out(combined_view(*out)) && says_not_logged_in(combined_view(*out)) {
                    CodexLogoutStatus::AlreadyLoggedOut
                } else {
                    CodexLogoutStatus::LoggedOut
                },
            ),
    {
        let combined = combined_text(out);
        if !out.success {
            return Err(combined);
        }
        let lower = to_lowercase(combined.as_str());
        let lc = chars_of(lower.as_str());
        let done = lit("successfully logged out");
        let none = lit("not logged in");
        if contains_chars(lc.as_slice(), done.as_slice()) {
            Ok(CodexLogoutStatus::LoggedOut)
        } else if contains_chars(lc.as_slice(), none.as_slice()) {
            Ok(CodexLogoutStatus::AlreadyLoggedOut)
        } else {
            Ok(CodexLogoutStatus::LoggedOut)
        }
    }

    /// Arguments of `spawn_login_process` (the ChatGPT OAuth flow).
    pub fn login_args(&self) -> (r: Vec<String>)
        ensures
            string_views(r@) == seq!["login"@],
    {
        let mut a: Vec<String> = Vec::new();
        push_arg(&mut a, "login");
        a
    }

    /// `spawn_mcp_login_process`: the arguments `login --mcp` when the probed capabilities
    /// report the flag supported; `None` when it is unsupported or unknown.
    pub fn mcp_login_args(&self, capabilities: &CodexCapabilities) -> (r: Option<Vec<String>>)
        ensures
            guard_support(CapabilityFeature::McpLogin, capabilities.features)
                == CapabilitySupport::Supported <==> r is Some,
            r matches Some(a) ==> string_views(a@) == seq!["login"@, "--mcp"@],
    {
        let guard = capabilities.guard_mcp_login();
        if !guard.is_supported() {
            return None;
        }
        let mut a: Vec<String> = Vec::new();
        push_arg(&mut a, "login");
        push_arg(&mut a, "--mcp");
        Some(a)
    }
}

} // verus!
