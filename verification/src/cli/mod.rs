//! Request types for Codex CLI subcommands and the argument vectors they run with.

pub mod app_server;
pub mod cloud;
pub mod debug;
pub mod features;
pub mod help;
pub mod mcp;
pub mod responses_api_proxy;
pub mod stdio_to_uds;

use vstd::prelude::*;
use crate::capabilities::string_views;
use crate::text::{blank, chars_of, decimal, decimal_chars, is_blank, string_of, trim, trim_chars, CharClass};

verus! {

/// Requests that the CLI would reject before spawning anything.
#[derive(Clone, Copy, Debug, PartialEq, Eq, Structural)]
pub enum RequestError {
    EmptyPrompt,
    EmptyTaskId,
    EmptyEnvId,
    EmptyApiKey,
    EmptyMcpServerName,
    EmptySocketPath,
}

/// Appends one argument.
pub fn push_arg(args: &mut Vec<String>, s: &str)
    ensures
        string_views(final(args)@) == string_views(old(args)@).push(s@),
{
    args.push(s.to_owned());
    assert(string_views(args@) =~= string_views(old(args)@).push(s@));
}

/// Appends the decimal rendering of `n`.
pub fn push_decimal(args: &mut Vec<String>, n: u64)
    ensures
        string_views(final(args)@) == string_views(old(args)@).push(decimal(n as nat)),
{
    let d = decimal_chars(n);
    args.push(string_of(d.as_slice()));
    assert(string_views(args@) =~= string_views(old(args)@).push(decimal(n as nat)));
}

/// Appends `s` with surrounding whitespace trimmed.
pub fn push_trimmed(args: &mut Vec<String>, s: &str)
    ensures
        string_views(final(args)@) == string_views(old(args)@).push(trim(s@)),
{
    let t = trim_chars(chars_of(s).as_slice(), CharClass::Whitespace);
    args.push(string_of(t.as_slice()));
    assert(string_views(args@) =~= string_views(old(args)@).push(trim(s@)));
}

/// `flag value` when `value` is present.
pub open spec fn opt_pair(flag: Seq<char>, value: Option<Seq<char>>) -> Seq<Seq<char>> {
    match value {
        Some(v) => seq![flag, v],
        None => Seq::empty(),
    }
}

/// `flag` when `on`.
pub open spec fn opt_flag(flag: Seq<char>, on: bool) -> Seq<Seq<char>> {
    if on {
        seq![flag]
    } else {
        Seq::empty()
    }
}

/// `flag value` when `value` is present and not blank.
pub open spec fn opt_nonblank_pair(flag: Seq<char>, value: Option<Seq<char>>) -> Seq<Seq<char>> {
    match value {
        Some(v) => if is_blank(v) {
            Seq::empty()
        } else {
            seq![flag, v]
        },
        None => Seq::empty(),
    }
}

/// `value` when present and not blank.
pub open spec fn opt_nonblank(value: Option<Seq<char>>) -> Seq<Seq<char>> {
    match value {
        Some(v) => if is_blank(v) {
            Seq::empty()
        } else {
            seq![v]
        },
        None => Seq::empty(),
    }
}

pub fn push_opt_pair(args: &mut Vec<String>, flag: &str, value: &Option<String>)
    ensures
        string_views(final(args)@) == string_views(old(args)@) + opt_pair(
            flag@,
            crate::overrides::opt_string_view(*value),
        ),
{
    match value {
        Some(v) => {
            push_arg(args, flag);
            push_arg(args, v.as_str());
        },
        None => {},
    }
    assert(string_views(args@) =~= string_views(old(args)@) + opt_pair(
        flag@,
        crate::overrides::opt_string_view(*value),
    ));
}

pub fn push_opt_nonblank_pair(args: &mut Vec<String>, flag: &str, value: &Option<String>)
    ensures
        string_views(final(args)@) == string_views(old(args)@) + opt_nonblank_pair(
            flag@,
            crate::overrides::opt_string_view(*value),
        ),
{
    match value {
        Some(v) => {
            if !blank(v.as_str()) {
                push_arg(args, flag);
                push_arg(args, v.as_str());
            }
        },
        None => {},
    }
    assert(string_views(args@) =~= string_views(old(args)@) + opt_nonblank_pair(
        flag@,
        crate::overrides::opt_string_view(*value),
    ));
}

pub fn push_opt_nonblank(args: &mut Vec<String>, value: &Option<String>)
    ensures
        string_views(final(args)@) == string_views(old(args)@) + opt_nonblank(
            crate::overrides::opt_string_view(*value),
        ),
{
    match value {
        Some(v) => {
            if !blank(v.as_str()) {
                push_arg(args, v.as_str());
            }
        },
        None => {},
    }
    assert(string_views(args@) =~= string_views(old(args)@) + opt_nonblank(
        crate::overrides::opt_string_view(*value),
    ));
}

pub fn push_flag(args: &mut Vec<String>, flag: &str, on: bool)
    ensures
        string_views(final(args)@) == string_views(old(args)@) + opt_flag(flag@, on),
{
    if on {
        push_arg(args, flag);
    }
    assert(string_views(args@) =~= string_views(old(args)@) + opt_flag(flag@, on));
}

pub fn push_opt_decimal(args: &mut Vec<String>, flag: &str, value: Option<u32>)
    ensures
        string_views(final(args)@) == string_views(old(args)@) + match value {
            Some(n) => seq![flag@, decimal(n as nat)],
            None => Seq::empty(),
        },
{
    match value {
        Some(n) => {
            push_arg(args, flag);
            push_decimal(args, n as u64);
        },
        None => {},
    }
    assert(string_views(args@) =~= string_views(old(args)@) + match value {
        Some(n) => seq![flag@, decimal(n as nat)],
        None => Seq::empty(),
    });
}

} // verus!
