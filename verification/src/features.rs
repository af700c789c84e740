//! Detection of optional CLI features from `codex features list` and `codex --help` output.

use vstd::prelude::*;
use crate::capabilities::CodexFeatureFlags;
use crate::json::{parse_json, JsonValue};
use crate::text::{
    blank, chars_of, contains, contains_chars, fields, is_alnum, is_alnum_char, is_blank, lit,
    lower, lower_char, lower_char_exec, lower_chars, remove_char, remove_char_chars, split_fields,
    views, CharClass,
};

verus! {

/// Flags set in either input.
pub open spec fn or_flags(a: CodexFeatureFlags, b: CodexFeatureFlags) -> CodexFeatureFlags {
    CodexFeatureFlags {
        supports_features_list: a.supports_features_list || b.supports_features_list,
        supports_output_schema: a.supports_output_schema || b.supports_output_schema,
        supports_add_dir: a.supports_add_dir || b.supports_add_dir,
        supports_mcp_login: a.supports_mcp_login || b.supports_mcp_login,
    }
}

/// `merge_feature_flags`: ORs `update` into `target`.
pub fn merge_feature_flags(target: &mut CodexFeatureFlags, update: CodexFeatureFlags)
    ensures
        *final(target) == or_flags(*old(target), update),
{
    target.supports_features_list = target.supports_features_list || update.supports_features_list;
    target.supports_output_schema = target.supports_output_schema || update.supports_output_schema;
    target.supports_add_dir = target.supports_add_dir || update.supports_add_dir;
    target.supports_mcp_login = target.supports_mcp_login || update.supports_mcp_login;
}

/// True when any of output-schema, add-dir or MCP login support was detected.
pub fn detected_feature_flags(flags: &CodexFeatureFlags) -> (r: bool)
    ensures
        r == (flags.supports_output_schema || flags.supports_add_dir || flags.supports_mcp_login),
{
    flags.supports_output_schema || flags.supports_add_dir || flags.supports_mcp_login
}

/// True when some flag is still undetected, so `codex --help` is worth parsing.
pub fn should_run_help_fallback(flags: &CodexFeatureFlags) -> (r: bool)
    ensures
        r == !(flags.supports_features_list && flags.supports_output_schema
            && flags.supports_add_dir && flags.supports_mcp_login),
{
    !flags.supports_features_list || !flags.supports_output_schema || !flags.supports_add_dir
        || !flags.supports_mcp_login
}

/// Lowercases ASCII letters and digits and turns every other character into `_`.
pub open spec fn normalize_token(t: Seq<char>) -> Seq<char> {
    t.map_values(|c: char| if is_alnum(c) { lower_char(c) } else { '_' })
}

/// Lowercases ASCII letters and digits and turns every other character into `_`.
pub fn normalize_feature_token(token: &[char]) -> (r: Vec<char>)
    ensures
        r@ == normalize_token(token@),
{
    let mut r: Vec<char> = Vec::new();
    let mut i: usize = 0;
    while i < token.len()
        invariant
            i <= token.len(),
            r@ =~= normalize_token(token@.subrange(0, i as int)),
        decreases token.len() - i,
    {
        let c = token[i];
        if is_alnum_char(c) {
            r.push(lower_char_exec(c));
        } else {
            r.push('_');
        }
        i = i + 1;
    }
    assert(token@.subrange(0, token@.len() as int) =~= token@);
    r
}

/// The flags one token advertises.
pub open spec fn token_flags(t: Seq<char>) -> CodexFeatureFlags {
    let n = normalize_token(t);
    let k = remove_char(n, '_');
    CodexFeatureFlags {
        supports_features_list: contains(n, "features_list"@) || contains(k, "featureslist"@),
        supports_output_schema: contains(n, "output_schema"@) || contains(k, "outputschema"@),
        supports_add_dir: contains(n, "add_dir"@) || contains(k, "adddir"@),
        supports_mcp_login: contains(n, "mcp_login"@) || (contains(n, "login"@) && contains(n, "mcp"@)),
    }
}

/// `apply_feature_token`: ORs the token's flags into `flags`.
pub fn apply_feature_token(flags: &mut CodexFeatureFlags, token: &[char])
    ensures
        *final(flags) == or_flags(*old(flags), token_flags(token@)),
{
    let n = normalize_feature_token(token);
    let k = remove_char_chars(n.as_slice(), '_');
    if contains_chars(n.as_slice(), lit("features_list").as_slice()) || contains_chars(
        k.as_slice(),
        lit("featureslist").as_slice(),
    ) {
        flags.supports_features_list = true;
    }
    if contains_chars(n.as_slice(), lit("output_schema").as_slice()) || contains_chars(
        k.as_slice(),
        lit("outputschema").as_slice(),
    ) {
        flags.supports_output_schema = true;
    }
    if contains_chars(n.as_slice(), lit("add_dir").as_slice()) || contains_chars(
        k.as_slice(),
        lit("adddir").as_slice(),
    ) {
        flags.supports_add_dir = true;
    }
    if contains_chars(n.as_slice(), lit("mcp_login").as_slice()) || (contains_chars(
        n.as_slice(),
        lit("login").as_slice(),
    ) && contains_chars(n.as_slice(), lit("mcp").as_slice())) {
        flags.supports_mcp_login = true;
    }
}

/// The flags a sequence of tokens advertises.
pub open spec fn tokens_flags(toks: Seq<Seq<char>>) -> CodexFeatureFlags
    decreases toks.len(),
{
    if toks.len() == 0 {
        crate::capabilities::no_features()
    } else {
        or_flags(tokens_flags(toks.drop_last()), token_flags(toks.last()))
    }
}

fn apply_tokens(flags: &mut CodexFeatureFlags, toks: &Vec<Vec<char>>)
    ensures
        *final(flags) == or_flags(*old(flags), tokens_flags(views(toks@))),
{
    let ghost start = *flags;
    let mut i: usize = 0;
    while i < toks.len()
        invariant
            i <= toks.len(),
            *flags == or_flags(start, tokens_flags(views(toks@).subrange(0, i as int))),
        decreases toks.len() - i,
    {
        assert(views(toks@).subrange(0, i + 1).drop_last() =~= views(toks@).subrange(0, i as int));
        assert(views(toks@).subrange(0, i + 1).last() == toks@[i as int]@);
        apply_feature_token(flags, toks[i].as_slice());
        i = i + 1;
    }
    assert(views(toks@).subrange(0, toks@.len() as int) =~= views(toks@));
}

/// Flags advertised by phrases in lowercased text.
pub open spec fn phrase_flags(lower: Seq<char>) -> CodexFeatureFlags {
    CodexFeatureFlags {
        supports_features_list: contains(lower, "features list"@),
        supports_output_schema: contains(lower, "--output-schema"@) || contains(lower, "output schema"@),
        supports_add_dir: contains(lower, "add-dir"@) || contains(lower, "add dir"@),
        supports_mcp_login: contains(lower, "login --mcp"@) || contains(lower, "mcp login"@) || (
        contains(lower, "login"@) && contains(lower, "mcp"@)),
    }
}

/// Flags that free-form text advertises: phrases in the lowercased text, then every token
/// split on ASCII whitespace, `,`, `;` and `|`.
pub open spec fn text_flags(output: Seq<char>) -> CodexFeatureFlags {
    let l = lower(output);
    or_flags(phrase_flags(l), tokens_flags(fields(l, CharClass::FeatureSeparator)))
}

/// The feature flags that free-form `features list` or help text advertises (see
/// [`text_flags`]).
pub fn parse_features_from_text(output: &str) -> (r: CodexFeatureFlags)
    ensures
        r == text_flags(output@),
{
    let l = lower_chars(chars_of(output).as_slice());
    let ls = l.as_slice();
    let mut flags = CodexFeatureFlags::none();
    if contains_chars(ls, lit("features list").as_slice()) {
        flags.supports_features_list = true;
    }
    if contains_chars(ls, lit("--output-schema").as_slice()) || contains_chars(
        ls,
        lit("output schema").as_slice(),
    ) {
        flags.supports_output_schema = true;
    }
    if contains_chars(ls, lit("add-dir").as_slice()) || contains_chars(ls, lit("add dir").as_slice()) {
        flags.supports_add_dir = true;
    }
    if contains_chars(ls, lit("login --mcp").as_slice()) || contains_chars(
        ls,
        lit("mcp login").as_slice(),
    ) {
        flags.supports_mcp_login = true;
    }
    if contains_chars(ls, lit("login").as_slice()) && contains_chars(ls, lit("mcp").as_slice()) {
        flags.supports_mcp_login = true;
    }
    assert(flags == phrase_flags(l@));
    let toks = split_fields(ls, CharClass::FeatureSeparator);
    apply_tokens(&mut flags, &toks);
    flags
}

/// `parse_help_output`: the text flags, with `features list` mentions counting too.
pub fn parse_help_output(output: &str) -> (r: CodexFeatureFlags)
    ensures
        r == text_flags(output@),
{
    let mut flags = parse_features_from_text(output);
    let l = lower_chars(chars_of(output).as_slice());
    if contains_chars(l.as_slice(), lit("features list").as_slice()) {
        flags.supports_features_list = true;
    }
    flags
}

/// The feature tokens in a JSON value: every non-blank string, and every object key whose
/// value is `true`, in document order.
pub open spec fn json_tokens(v: JsonValue) -> Seq<Seq<char>>
    decreases v,
{
    match v {
        JsonValue::String(s) => if is_blank(s@) {
            Seq::empty()
        } else {
            seq![s@]
        },
        JsonValue::Array(items) => items_tokens(items@),
        JsonValue::Object(members) => members_tokens(members@),
        _ => Seq::empty(),
    }
}

pub open spec fn items_tokens(items: Seq<JsonValue>) -> Seq<Seq<char>>
    decreases items,
{
    if items.len() == 0 {
        Seq::empty()
    } else {
        items_tokens(items.drop_last()) + json_tokens(items.last())
    }
}

pub open spec fn members_tokens(members: Seq<(String, JsonValue)>) -> Seq<Seq<char>>
    decreases members,
{
    if members.len() == 0 {
        Seq::empty()
    } else {
        let (key, value) = members.last();
        members_tokens(members.drop_last()) + (if value matches JsonValue::Bool(true) {
            seq![key@]
        } else {
            Seq::empty()
        }) + json_tokens(value)
    }
}


/// `collect_feature_tokens`: appends the feature tokens of `value` to `tokens`.
pub fn collect_feature_tokens(value: &JsonValue, tokens: &mut Vec<Vec<char>>)
    ensures
        views(final(tokens)@) == views(old(tokens)@) + json_tokens(*value),
    decreases value,
{
    let ghost start = views(tokens@);
    match value {
        JsonValue::String(s) => {
            if !blank(s.as_str()) {
                tokens.push(chars_of(s.as_str()));
            }
            assert(views(tokens@) =~= start + json_tokens(*value));
        },
        JsonValue::Array(items) => {
            let mut i: usize = 0;
            while i < items.len()
                invariant
                    i <= items.len(),
                    views(tokens@) =~= start + items_tokens(items@.subrange(0, i as int)),
                    *value == JsonValue::Array(*items),
                decreases items.len() - i,
            {
                assert(items@.subrange(0, i + 1).drop_last() =~= items@.subrange(0, i as int));
                assert(items@.subrange(0, i + 1).last() == items@[i as int]);
                proof {
                    assert(decreases_to!(*value => (*value)->Array_0));
                    assert(decreases_to!(*items => items@));
                    assert(decreases_to!(items@ => items@[i as int]));
                    assert(decreases_to!(*value => items@[i as int]));
                }
                collect_feature_tokens(&items[i], tokens);
                i = i + 1;
            }
            assert(items@.subrange(0, items@.len() as int) =~= items@);
        },
        JsonValue::Object(members) => {
            let mut i: usize = 0;
            while i < members.len()
                invariant
                    i <= members.len(),
                    views(tokens@) =~= start + members_tokens(members@.subrange(0, i as int)),
                    *value == JsonValue::Object(*members),
                decreases members.len() - i,
            {
                assert(members@.subrange(0, i + 1).drop_last() =~= members@.subrange(0, i as int));
                assert(members@.subrange(0, i + 1).last() == members@[i as int]);
                let (key, v) = &members[i];
                proof {
                    assert(decreases_to!(*value => (*value)->Object_0));
                    assert(decreases_to!(*members => members@));
                    assert(decreases_to!(members@ => members@[i as int]));
                    assert(decreases_to!(members@[i as int] => members@[i as int].1));
                    assert(decreases_to!(*value => members@[i as int].1));
                }
                assert(*key == members@[i as int].0 && *v == members@[i as int].1);
                let ghost before = views(tokens@);
                match v {
                    JsonValue::Bool(true) => {
                        tokens.push(chars_of(key.as_str()));
                    },
                    _ => {},
                }
                assert(views(tokens@) =~= before + (if *v matches JsonValue::Bool(true) {
                    seq![key@]
                } else {
                    Seq::empty()
                }));
                collect_feature_tokens(v, tokens);
                i = i + 1;
            }
            assert(members@.subrange(0, members@.len() as int) =~= members@);
        },
        _ => {
            assert(views(tokens@) =~= start + json_tokens(*value));
        },
    }
}

/// Flags from `codex features list --json` output: `None` when the text is not JSON or
/// holds no feature tokens; otherwise the flags its tokens advertise.
pub open spec fn json_flags(output: Seq<char>) -> Option<CodexFeatureFlags> {
    match crate::json::json_parse(output) {
        None => None,
        Some(v) => if json_tokens(v).len() == 0 {
            None
        } else {
            Some(tokens_flags(json_tokens(v)))
        },
    }
}

/// The feature flags of `codex features list --json` output: `None` when it is not JSON or
/// names no feature (see [`json_flags`]).
pub fn parse_features_from_json(output: &str) -> (r: Option<CodexFeatureFlags>)
    ensures
        r == json_flags(output@),
{
    let parsed = match parse_json(output) {
        Some(v) => v,
        None => {
            return None;
        },
    };
    let mut tokens: Vec<Vec<char>> = Vec::new();
    collect_feature_tokens(&parsed, &mut tokens);
    assert(views(tokens@) =~= json_tokens(parsed));
    if tokens.len() == 0 {
        return None;
    }
    let mut flags = CodexFeatureFlags::none();
    apply_tokens(&mut flags, &tokens);
    proof {
        lemma_or_none(tokens_flags(views(tokens@)));
    }
    Some(flags)
}

proof fn lemma_or_none(f: CodexFeatureFlags)
    ensures
        or_flags(crate::capabilities::no_features(), f) == f,
{
}

} // verus!
