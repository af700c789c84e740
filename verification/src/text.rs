//! Character-level text helpers used by the parsers of the library.
//!
//! Strings are modelled by their `Seq<char>` views; every helper states its result
//! over those views.

use vstd::prelude::*;

verus! {

/// Unicode `White_Space`, the set that `char::is_whitespace` and `str::trim` use.
pub open spec fn is_ws(c: char) -> bool {
    ||| ('\u{9}' <= c && c <= '\u{d}')
    ||| c == ' '
    ||| c == '\u{85}'
    ||| c == '\u{a0}'
    ||| c == '\u{1680}'
    ||| ('\u{2000}' <= c && c <= '\u{200a}')
    ||| c == '\u{2028}'
    ||| c == '\u{2029}'
    ||| c == '\u{202f}'
    ||| c == '\u{205f}'
    ||| c == '\u{3000}'
}

/// True when every character of `s` is whitespace (`s.trim().is_empty()`).
pub open spec fn is_blank(s: Seq<char>) -> bool {
    forall|i: int| 0 <= i < s.len() ==> is_ws(#[trigger] s[i])
}

pub fn is_ws_char(c: char) -> (r: bool)
    ensures
        r == is_ws(c),
{
    ('\u{9}' <= c && c <= '\u{d}') || c == ' ' || c == '\u{85}' || c == '\u{a0}' || c
        == '\u{1680}' || ('\u{2000}' <= c && c <= '\u{200a}') || c == '\u{2028}' || c == '\u{2029}'
        || c == '\u{202f}' || c == '\u{205f}' || c == '\u{3000}'
}

/// The characters of a string slice, in order.
pub fn chars_of(s: &str) -> (r: Vec<char>)
    ensures
        r@ == s@,
{
    let mut out: Vec<char> = Vec::new();
    for c in it: s.chars()
        invariant
            it.seq() == s@,
            out@ == it.seq().take(it.index() as int),
    {
        out.push(c);
    }
    out
}

/// The string made of the given characters, in order.
#[verifier::external_body]
pub fn string_of(v: &[char]) -> (r: String)
    ensures
        r@ == v@,
{
    v.iter().collect()
}

/// `s.trim().is_empty()`.
pub fn blank(s: &str) -> (r: bool)
    ensures
        r == is_blank(s@),
{
    let v = chars_of(s);
    let mut i: usize = 0;
    while i < v.len()
        invariant
            v@ == s@,
            i <= v.len(),
            forall|j: int| 0 <= j < i ==> is_ws(#[trigger] v@[j]),
        decreases v.len() - i,
    {
        if !is_ws_char(v[i]) {
            return false;
        }
        i = i + 1;
    }
    true
}


/// Classes of characters that the parsers trim or split on.
#[derive(Clone, Copy, Debug, PartialEq, Eq)]
pub enum CharClass {
    /// `char::is_whitespace`.
    Whitespace,
    /// One of `(`, `)`, `,`, `;`.
    Punctuation,
    /// ASCII whitespace or one of `,`, `;`, `|`.
    FeatureSeparator,
    /// Exactly the given character.
    Exactly(char),
}

pub open spec fn in_class(c: char, cls: CharClass) -> bool {
    match cls {
        CharClass::Whitespace => is_ws(c),
        CharClass::Punctuation => c == '(' || c == ')' || c == ',' || c == ';',
        CharClass::FeatureSeparator => is_ascii_ws(c) || c == ',' || c == ';' || c == '|',
        CharClass::Exactly(d) => c == d,
    }
}

/// `char::is_ascii_whitespace`.
pub open spec fn is_ascii_ws(c: char) -> bool {
    c == ' ' || c == '\t' || c == '\n' || c == '\u{c}' || c == '\r'
}

pub fn in_class_exec(c: char, cls: CharClass) -> (r: bool)
    ensures
        r == in_class(c, cls),
{
    match cls {
        CharClass::Whitespace => is_ws_char(c),
        CharClass::Punctuation => c == '(' || c == ')' || c == ',' || c == ';',
        CharClass::FeatureSeparator => c == ' ' || c == '\t' || c == '\n' || c == '\u{c}' || c
            == '\r' || c == ',' || c == ';' || c == '|',
        CharClass::Exactly(d) => c == d,
    }
}

/// `s.trim_start_matches(pred)`: drops every leading character of the class.
pub open spec fn trim_start_class(s: Seq<char>, cls: CharClass) -> Seq<char>
    decreases s.len(),
{
    if s.len() > 0 && in_class(s[0], cls) {
        trim_start_class(s.drop_first(), cls)
    } else {
        s
    }
}

/// `s.trim_end_matches(pred)`: drops every trailing character of the class.
pub open spec fn trim_end_class(s: Seq<char>, cls: CharClass) -> Seq<char>
    decreases s.len(),
{
    if s.len() > 0 && in_class(s.last(), cls) {
        trim_end_class(s.drop_last(), cls)
    } else {
        s
    }
}

/// `s.trim_matches(pred)`; with `CharClass::Whitespace` this is `s.trim()`.
pub open spec fn trim_class(s: Seq<char>, cls: CharClass) -> Seq<char> {
    trim_end_class(trim_start_class(s, cls), cls)
}

pub open spec fn trim(s: Seq<char>) -> Seq<char> {
    trim_class(s, CharClass::Whitespace)
}

proof fn lemma_trim_start_head(s: Seq<char>, cls: CharClass)
    ensures
        trim_start_class(s, cls).len() == 0 || !in_class(trim_start_class(s, cls)[0], cls),
    decreases s.len(),
{
    if s.len() > 0 && in_class(s[0], cls) {
        lemma_trim_start_head(s.drop_first(), cls);
    }
}

proof fn lemma_trim_end_prefix(s: Seq<char>, cls: CharClass)
    ensures
        trim_end_class(s, cls).len() <= s.len(),
        forall|i: int| 0 <= i < trim_end_class(s, cls).len() ==> trim_end_class(s, cls)[i] == s[i],
        trim_end_class(s, cls).len() == 0 || !in_class(trim_end_class(s, cls).last(), cls),
    decreases s.len(),
{
    if s.len() > 0 && in_class(s.last(), cls) {
        lemma_trim_end_prefix(s.drop_last(), cls);
        assert forall|i: int| 0 <= i < trim_end_class(s, cls).len() implies trim_end_class(s, cls)[i] == s[i] by {
            assert(s.drop_last()[i] == s[i]);
        }
    }
}

/// Trimming twice trims once.
pub proof fn lemma_trim_idempotent(s: Seq<char>)
    ensures
        trim(trim(s)) == trim(s),
{
    let cls = CharClass::Whitespace;
    let st = trim_start_class(s, cls);
    let t = trim_end_class(st, cls);
    lemma_trim_start_head(s, cls);
    lemma_trim_end_prefix(st, cls);
    if t.len() > 0 {
        assert(t[0] == st[0]);
    }
    assert(trim_start_class(t, cls) == t);
    assert(trim_end_class(t, cls) == t);
}

/// Returns `s.trim_start_matches(cls)`.
pub fn trim_start_chars(s: &[char], cls: CharClass) -> (r: Vec<char>)
    ensures
        r@ == trim_start_class(s@, cls),
{
    let mut i: usize = 0;
    assert(s@.subrange(0, s@.len() as int) =~= s@);
    while i < s.len() && in_class_exec(s[i], cls)
        invariant
            i <= s.len(),
            trim_start_class(s@, cls) == trim_start_class(s@.subrange(i as int, s@.len() as int), cls),
        decreases s.len() - i,
    {
        assert(s@.subrange(i as int, s@.len() as int).drop_first() =~= s@.subrange(
            i + 1,
            s@.len() as int,
        ));
        i = i + 1;
    }
    let mut r: Vec<char> = Vec::new();
    let mut j: usize = i;
    while j < s.len()
        invariant
            i <= j <= s.len(),
            r@ =~= s@.subrange(i as int, j as int),
        decreases s.len() - j,
    {
        r.push(s[j]);
        j = j + 1;
    }
    r
}

/// Returns `s.trim_end_matches(cls)`.
pub fn trim_end_chars(s: &[char], cls: CharClass) -> (r: Vec<char>)
    ensures
        r@ == trim_end_class(s@, cls),
{
    let mut n: usize = s.len();
    assert(s@.subrange(0, s@.len() as int) =~= s@);
    while n > 0 && in_class_exec(s[n - 1], cls)
        invariant
            n <= s.len(),
            trim_end_class(s@, cls) == trim_end_class(s@.subrange(0, n as int), cls),
        decreases n,
    {
        assert(s@.subrange(0, n as int).drop_last() =~= s@.subrange(0, n - 1));
        n = n - 1;
    }
    let mut r: Vec<char> = Vec::new();
    let mut j: usize = 0;
    while j < n
        invariant
            j <= n <= s.len(),
            r@ =~= s@.subrange(0, j as int),
        decreases n - j,
    {
        r.push(s[j]);
        j = j + 1;
    }
    assert(s@.subrange(0, n as int) =~= r@);
    r
}

/// Returns `s.trim_matches(cls)`.
pub fn trim_chars(s: &[char], cls: CharClass) -> (r: Vec<char>)
    ensures
        r@ == trim_class(s@, cls),
{
    let a = trim_start_chars(s, cls);
    trim_end_chars(a.as_slice(), cls)
}

/// Returns `s.trim()` as owned characters.
pub fn trim_str(s: &str) -> (r: Vec<char>)
    ensures
        r@ == trim(s@),
{
    let v = chars_of(s);
    trim_chars(v.as_slice(), CharClass::Whitespace)
}

/// ASCII lowercase of one character (`char::to_ascii_lowercase`).
pub open spec fn lower_char(c: char) -> char {
    if 'A' <= c && c <= 'Z' {
        ((c as u32) + 32) as char
    } else {
        c
    }
}

/// `str::to_ascii_lowercase`.
pub open spec fn lower(s: Seq<char>) -> Seq<char> {
    s.map_values(|c: char| lower_char(c))
}

pub fn lower_char_exec(c: char) -> (r: char)
    ensures
        r == lower_char(c),
{
    if 'A' <= c && c <= 'Z' {
        let n = c as u32;
        let m = (n + 32) as u8;
        assert(((n + 32) as u8) as u32 == n + 32) by (bit_vector)
            requires
                n <= 90,
        ;
        m as char
    } else {
        c
    }
}

pub fn lower_chars(s: &[char]) -> (r: Vec<char>)
    ensures
        r@ == lower(s@),
{
    let mut r: Vec<char> = Vec::new();
    let mut i: usize = 0;
    while i < s.len()
        invariant
            i <= s.len(),
            r@ =~= lower(s@.subrange(0, i as int)),
        decreases s.len() - i,
    {
        r.push(lower_char_exec(s[i]));
        i = i + 1;
    }
    assert(s@.subrange(0, s@.len() as int) =~= s@);
    r
}

/// `pat` occurs in `s` starting at index `i`.
pub open spec fn occurs_at(s: Seq<char>, pat: Seq<char>, i: int) -> bool {
    0 <= i && i + pat.len() <= s.len() && s.subrange(i, i + pat.len()) == pat
}

/// `str::contains`.
pub open spec fn contains(s: Seq<char>, pat: Seq<char>) -> bool {
    exists|i: int| occurs_at(s, pat, i)
}

/// `str::starts_with`.
pub open spec fn starts_with(s: Seq<char>, pat: Seq<char>) -> bool {
    occurs_at(s, pat, 0)
}

pub fn occurs_at_exec(s: &[char], pat: &[char], i: usize) -> (r: bool)
    ensures
        r == occurs_at(s@, pat@, i as int),
{
    if i > s.len() || pat.len() > s.len() - i {
        return false;
    }
    let mut k: usize = 0;
    while k < pat.len()
        invariant
            i + pat.len() <= s.len(),
            k <= pat.len(),
            forall|m: int| 0 <= m < k ==> s@[i + m] == pat@[m],
        decreases pat.len() - k,
    {
        if s[i + k] != pat[k] {
            assert(s@.subrange(i as int, i + pat.len())[k as int] != pat@[k as int]);
            return false;
        }
        k = k + 1;
    }
    assert(s@.subrange(i as int, i + pat.len()) =~= pat@);
    true
}

/// Index of the first occurrence of `pat` in `s` (`str::find`).
pub fn find_chars(s: &[char], pat: &[char]) -> (r: Option<usize>)
    ensures
        match r {
            Some(i) => occurs_at(s@, pat@, i as int) && forall|j: int|
                0 <= j < i ==> !occurs_at(s@, pat@, j),
            None => !contains(s@, pat@),
        },
{
    let mut i: usize = 0;
    loop
        invariant
            i <= s.len(),
            forall|j: int| 0 <= j < i ==> !occurs_at(s@, pat@, j),
        ensures
            forall|j: int| 0 <= j <= s.len() ==> !occurs_at(s@, pat@, j),
        decreases s.len() - i,
    {
        if occurs_at_exec(s, pat, i) {
            return Some(i);
        }
        if i == s.len() {
            break;
        }
        i = i + 1;
    }
    assert forall|j: int| !occurs_at(s@, pat@, j) by {
        if 0 <= j && j <= s@.len() {
        }
    }
    None
}

pub fn contains_chars(s: &[char], pat: &[char]) -> (r: bool)
    ensures
        r == contains(s@, pat@),
{
    find_chars(s, pat).is_some()
}

pub fn starts_with_chars(s: &[char], pat: &[char]) -> (r: bool)
    ensures
        r == starts_with(s@, pat@),
{
    occurs_at_exec(s, pat, 0)
}

/// Sequence equality of two character slices.
pub fn eq_chars(a: &[char], b: &[char]) -> (r: bool)
    ensures
        r == (a@ == b@),
{
    if a.len() != b.len() {
        return false;
    }
    let r = occurs_at_exec(a, b, 0);
    assert(a@.subrange(0, b@.len() as int) =~= a@);
    r
}


/// The non-empty maximal runs of characters outside `cls`, in order
/// (`s.split(pred).filter(|t| !t.is_empty())`; with whitespace, `split_whitespace`).
pub open spec fn fields(s: Seq<char>, cls: CharClass) -> Seq<Seq<char>>
    decreases s.len(),
{
    if s.len() == 0 {
        Seq::empty()
    } else {
        let prev = fields(s.drop_last(), cls);
        let c = s.last();
        if in_class(c, cls) {
            prev
        } else if s.len() >= 2 && !in_class(s[s.len() - 2], cls) {
            prev.update(prev.len() - 1, prev.last().push(c))
        } else {
            prev.push(seq![c])
        }
    }
}

pub open spec fn views(v: Seq<Vec<char>>) -> Seq<Seq<char>> {
    v.map_values(|x: Vec<char>| x@)
}

/// Splits `s` into its fields (see `fields`).
pub fn split_fields(s: &[char], cls: CharClass) -> (r: Vec<Vec<char>>)
    ensures
        views(r@) == fields(s@, cls),
{
    let mut done: Vec<Vec<char>> = Vec::new();
    let mut cur: Vec<char> = Vec::new();
    let mut in_tok = false;
    let mut i: usize = 0;
    while i < s.len()
        invariant
            i <= s.len(),
            in_tok <==> (i > 0 && !in_class(s@[i - 1], cls)),
            in_tok ==> views(done@).push(cur@) =~= fields(s@.subrange(0, i as int), cls),
            !in_tok ==> views(done@) =~= fields(s@.subrange(0, i as int), cls),
        decreases s.len() - i,
    {
        let c = s[i];
        let ghost pre = s@.subrange(0, i as int);
        let ghost post = s@.subrange(0, i + 1);
        assert(post.drop_last() =~= pre);
        assert(post.last() == c);
        if in_tok {
            assert(post[post.len() - 2] == s@[i - 1]);
        }
        if in_class_exec(c, cls) {
            if in_tok {
                let t = cur;
                done.push(t);
                cur = Vec::new();
                in_tok = false;
            }
        } else {
            if in_tok {
                cur.push(c);
            } else {
                cur = Vec::new();
                cur.push(c);
                in_tok = true;
            }
        }
        i = i + 1;
    }
    assert(s@.subrange(0, s@.len() as int) =~= s@);
    if in_tok {
        done.push(cur);
    }
    assert(views(done@) =~= fields(s@, cls));
    done
}

/// `s.trim_start_matches(pat)` for a string pattern: drops every leading copy of `pat`.
pub open spec fn trim_start_pattern(s: Seq<char>, pat: Seq<char>) -> Seq<char>
    decreases s.len(),
{
    if pat.len() > 0 && starts_with(s, pat) {
        trim_start_pattern(s.subrange(pat.len() as int, s.len() as int), pat)
    } else {
        s
    }
}

pub fn trim_start_pattern_chars(s: &[char], pat: &[char]) -> (r: Vec<char>)
    ensures
        r@ == trim_start_pattern(s@, pat@),
{
    let mut i: usize = 0;
    assert(s@.subrange(0, s@.len() as int) =~= s@);
    while pat.len() > 0 && occurs_at_exec(s, pat, i)
        invariant
            i <= s.len(),
            trim_start_pattern(s@, pat@) == trim_start_pattern(s@.subrange(i as int, s@.len() as int), pat@),
        decreases s.len() - i,
    {
        let ghost rest = s@.subrange(i as int, s@.len() as int);
        assert(rest.subrange(0, pat@.len() as int) =~= s@.subrange(i as int, i + pat@.len()));
        assert(rest.subrange(pat@.len() as int, rest.len() as int) =~= s@.subrange(
            i + pat@.len(),
            s@.len() as int,
        ));
        i = i + pat.len();
    }
    let ghost rest = s@.subrange(i as int, s@.len() as int);
    assert(pat@.len() > 0 ==> !starts_with(rest, pat@)) by {
        if pat@.len() > 0 && starts_with(rest, pat@) {
            assert(rest.subrange(0, pat@.len() as int) =~= s@.subrange(i as int, i + pat@.len()));
        }
    }
    copy_range(s, i, s.len())
}

/// `s[from..to]` as owned characters.
pub fn copy_range(s: &[char], from: usize, to: usize) -> (r: Vec<char>)
    requires
        from <= to <= s.len(),
    ensures
        r@ == s@.subrange(from as int, to as int),
{
    let mut r: Vec<char> = Vec::new();
    let mut j: usize = from;
    while j < to
        invariant
            from <= j <= to <= s.len(),
            r@ =~= s@.subrange(from as int, j as int),
        decreases to - j,
    {
        r.push(s[j]);
        j = j + 1;
    }
    r
}

/// Appends `t` to `v`.
pub fn push_all(v: &mut Vec<char>, t: &[char])
    ensures
        final(v)@ == old(v)@ + t@,
{
    let ghost orig = v@;
    let mut j: usize = 0;
    while j < t.len()
        invariant
            j <= t.len(),
            v@ =~= orig + t@.subrange(0, j as int),
        decreases t.len() - j,
    {
        v.push(t[j]);
        j = j + 1;
    }
    assert(t@.subrange(0, t@.len() as int) =~= t@);
}

/// `char::is_ascii_hexdigit`.
pub open spec fn is_hex(c: char) -> bool {
    ('0' <= c && c <= '9') || ('a' <= c && c <= 'f') || ('A' <= c && c <= 'F')
}

/// `char::is_ascii_alphanumeric`.
pub open spec fn is_alnum(c: char) -> bool {
    ('0' <= c && c <= '9') || ('a' <= c && c <= 'z') || ('A' <= c && c <= 'Z')
}

pub open spec fn all_hex(s: Seq<char>) -> bool {
    forall|i: int| 0 <= i < s.len() ==> is_hex(#[trigger] s[i])
}

pub fn all_hex_chars(s: &[char]) -> (r: bool)
    ensures
        r == all_hex(s@),
{
    let mut i: usize = 0;
    while i < s.len()
        invariant
            i <= s.len(),
            forall|j: int| 0 <= j < i ==> is_hex(#[trigger] s@[j]),
        decreases s.len() - i,
    {
        let c = s[i];
        if !(('0' <= c && c <= '9') || ('a' <= c && c <= 'f') || ('A' <= c && c <= 'F')) {
            return false;
        }
        i = i + 1;
    }
    true
}

pub fn is_alnum_char(c: char) -> (r: bool)
    ensures
        r == is_alnum(c),
{
    ('0' <= c && c <= '9') || ('a' <= c && c <= 'z') || ('A' <= c && c <= 'Z')
}

/// `s` with every occurrence of `c` removed (`str::replace(c, "")`).
pub open spec fn remove_char(s: Seq<char>, c: char) -> Seq<char>
    decreases s.len(),
{
    if s.len() == 0 {
        s
    } else if s.last() == c {
        remove_char(s.drop_last(), c)
    } else {
        remove_char(s.drop_last(), c).push(s.last())
    }
}

pub fn remove_char_chars(s: &[char], c: char) -> (r: Vec<char>)
    ensures
        r@ == remove_char(s@, c),
{
    let mut r: Vec<char> = Vec::new();
    let mut i: usize = 0;
    while i < s.len()
        invariant
            i <= s.len(),
            r@ == remove_char(s@.subrange(0, i as int), c),
        decreases s.len() - i,
    {
        assert(s@.subrange(0, i + 1).drop_last() =~= s@.subrange(0, i as int));
        if s[i] != c {
            r.push(s[i]);
        }
        i = i + 1;
    }
    assert(s@.subrange(0, s@.len() as int) =~= s@);
    r
}

/// The decimal digit character for `d < 10`.
pub open spec fn digit_char(d: nat) -> char {
    ((48 + d) as u8) as char
}

/// Decimal rendering of a natural number, as `Display` for integers prints it.
pub open spec fn decimal(n: nat) -> Seq<char>
    decreases n,
{
    if n < 10 {
        seq![digit_char(n)]
    } else {
        decimal(n / 10).push(digit_char(n % 10))
    }
}

/// Different digits are different characters.
pub proof fn lemma_digit_injective(a: nat, b: nat)
    requires
        a < 10,
        b < 10,
        digit_char(a) == digit_char(b),
    ensures
        a == b,
{
    let x: u8 = (48 + a) as u8;
    let y: u8 = (48 + b) as u8;
    assert(x == 48 + a);
    assert(y == 48 + b);
    assert(x as char == y as char);
    assert((x as char) as u32 == x as u32);
    assert((y as char) as u32 == y as u32);
}

/// Different numbers have different decimal renderings.
pub proof fn lemma_decimal_injective(a: nat, b: nat)
    requires
        decimal(a) == decimal(b),
    ensures
        a == b,
    decreases a,
{
    lemma_decimal_len(a);
    lemma_decimal_len(b);
    if a < 10 && b < 10 {
        assert(decimal(a)[0] == digit_char(a));
        assert(decimal(b)[0] == digit_char(b));
        lemma_digit_injective(a, b);
    } else if a >= 10 && b >= 10 {
        assert(decimal(a).last() == digit_char(a % 10));
        assert(decimal(b).last() == digit_char(b % 10));
        lemma_digit_injective(a % 10, b % 10);
        assert(decimal(a).drop_last() =~= decimal(a / 10));
        assert(decimal(b).drop_last() =~= decimal(b / 10));
        lemma_decimal_injective(a / 10, b / 10);
    } else {
        assert(decimal(a).len() != decimal(b).len());
    }
}

pub proof fn lemma_decimal_len(n: nat)
    ensures
        n < 10 ==> decimal(n).len() == 1,
        n >= 10 ==> decimal(n).len() >= 2,
    decreases n,
{
    if n >= 10 {
        lemma_decimal_len(n / 10);
    }
}

pub fn decimal_chars(n: u64) -> (r: Vec<char>)
    ensures
        r@ == decimal(n as nat),
    decreases n,
{
    let d = (n % 10) as u8;
    let ch = (48 + d) as char;
    if n < 10 {
        let mut v: Vec<char> = Vec::new();
        v.push(ch);
        assert(v@ =~= seq![digit_char(n as nat)]);
        v
    } else {
        let mut v = decimal_chars(n / 10);
        v.push(ch);
        v
    }
}

/// The characters of a string literal or slice, as an owned vector.
pub fn lit(s: &str) -> (r: Vec<char>)
    ensures
        r@ == s@,
{
    chars_of(s)
}

} // verus!
