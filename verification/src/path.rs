//! Paths compared as `Path` compares them: by component, so repeated separators, a trailing
//! separator and `.` segments (but a leading one) make no difference.

use vstd::prelude::*;
use crate::text::{chars_of, eq_chars, fields, split_fields, views, CharClass};

verus! {

/// A path by its components: whether it starts at the root, then its segments (a leading
/// `.` of a relative path is kept as a segment of its own).
pub type PathKey = (bool, Seq<Seq<char>>);

pub open spec fn is_dot(s: Seq<char>) -> bool {
    s == seq!['.']
}

/// The segments other than `.`, in order.
pub open spec fn drop_dots(v: Seq<Seq<char>>) -> Seq<Seq<char>>
    decreases v.len(),
{
    if v.len() == 0 {
        v
    } else if is_dot(v.last()) {
        drop_dots(v.drop_last())
    } else {
        drop_dots(v.drop_last()).push(v.last())
    }
}

/// The path is `.` or starts with `./`.
pub open spec fn leading_dot(p: Seq<char>) -> bool {
    p.len() > 0 && p[0] == '.' && (p.len() == 1 || p[1] == '/')
}

/// `Path::components` of a Unix path, as a key.
pub open spec fn path_key(p: Seq<char>) -> PathKey {
    (
        p.len() > 0 && p[0] == '/',
        (if leading_dot(p) {
            seq![seq!['.']]
        } else {
            Seq::empty()
        }) + drop_dots(fields(p, CharClass::Exactly('/'))),
    )
}

fn drop_dots_exec(v: Vec<Vec<char>>) -> (r: Vec<Vec<char>>)
    ensures
        views(r@) == drop_dots(views(v@)),
{
    let ghost all = v@;
    let n = v.len();
    let mut rest = v;
    let mut out: Vec<Vec<char>> = Vec::new();
    let mut i: usize = 0;
    while i < n
        invariant
            i <= n == all.len(),
            rest@ == all.subrange(i as int, n as int),
            views(out@) == drop_dots(views(all.take(i as int))),
        decreases n - i,
    {
        let s = rest.remove(0);
        assert(s == all[i as int]);
        assert(rest@ =~= all.subrange(i + 1, n as int));
        assert(views(all.take(i + 1)).drop_last() =~= views(all.take(i as int)));
        assert(views(all.take(i + 1)).last() == s@);
        let dot = s.len() == 1 && s[0] == '.';
        assert(dot == is_dot(s@)) by {
            if s@.len() == 1 && s@[0] == '.' {
                assert(s@ =~= seq!['.']);
            }
        }
        if !dot {
            let ghost before = out@;
            out.push(s);
            assert(views(out@) =~= views(before).push(all[i as int]@));
        }
        i = i + 1;
    }
    assert(all.take(n as int) =~= all);
    out
}

/// The components of `p` (see [`path_key`]).
pub fn path_key_exec(p: &str) -> (r: (bool, Vec<Vec<char>>))
    ensures
        (r.0, views(r.1@)) == path_key(p@),
{
    let cs = chars_of(p);
    let rooted = cs.len() > 0 && cs[0] == '/';
    let lead = cs.len() > 0 && cs[0] == '.' && (cs.len() == 1 || cs[1] == '/');
    let segs = drop_dots_exec(split_fields(cs.as_slice(), CharClass::Exactly('/')));
    let mut out: Vec<Vec<char>> = Vec::new();
    if lead {
        let mut d: Vec<char> = Vec::new();
        d.push('.');
        assert(d@ =~= seq!['.']);
        out.push(d);
    }
    let ghost head = views(out@);
    assert(head =~= if lead {
        seq![seq!['.']]
    } else {
        Seq::<Seq<char>>::empty()
    });
    let ghost before = out@;
    let mut rest = segs;
    let ghost tail = rest@;
    out.append(&mut rest);
    assert(views(out@) =~= views(before) + views(tail));
    (rooted, out)
}

fn same_segments(a: &Vec<Vec<char>>, b: &Vec<Vec<char>>) -> (r: bool)
    ensures
        r == (views(a@) == views(b@)),
{
    if a.len() != b.len() {
        assert(views(a@).len() != views(b@).len());
        return false;
    }
    let mut i: usize = 0;
    while i < a.len()
        invariant
            i <= a@.len() == b@.len(),
            forall|k: int| 0 <= k < i ==> a@[k]@ == b@[k]@,
        decreases a@.len() - i,
    {
        if !eq_chars(a[i].as_slice(), b[i].as_slice()) {
            assert(views(a@)[i as int] != views(b@)[i as int]);
            return false;
        }
        i = i + 1;
    }
    assert(views(a@) =~= views(b@));
    true
}

/// `Path::eq`: the two paths have the same components.
pub fn same_path(a: &str, b: &str) -> (r: bool)
    ensures
        r == (path_key(a@) == path_key(b@)),
{
    let ka = path_key_exec(a);
    let kb = path_key_exec(b);
    ka.0 == kb.0 && same_segments(&ka.1, &kb.1)
}

} // verus!
