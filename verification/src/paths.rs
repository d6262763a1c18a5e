//! Path strings, modelled as sequences of characters.
//!
//! Snapshots carry canonical absolute paths as plain strings; the
//! functions here compute the pieces the browser needs from them: the
//! parent of a path, the path of an entry under a directory, and the
//! final component used as a display label.

use vstd::prelude::*;
use vstd::string::*;

verus! {

/// A canonical absolute path: it starts with `/` and, except for the
/// root itself, does not end with `/`.
pub open spec fn is_abs_path(p: Seq<char>) -> bool {
    &&& p.len() >= 1
    &&& p[0] == '/'
    &&& (p.len() == 1 || p[p.len() - 1] != '/')
}

/// Index of the last `/` in `p`, if `p` contains one.
pub open spec fn last_slash(p: Seq<char>) -> Option<int>
    decreases p.len(),
{
    if p.len() == 0 {
        None
    } else if p[p.len() - 1] == '/' {
        Some(p.len() - 1)
    } else {
        last_slash(p.drop_last())
    }
}

/// The parent of a canonical absolute path, in the sense of removing
/// the final component: the parent of `/a/b` is `/a`, the parent of
/// `/a` is `/`, and the root has no parent.
pub open spec fn parent_path(p: Seq<char>) -> Option<Seq<char>> {
    if p.len() <= 1 {
        None
    } else {
        match last_slash(p) {
            Some(j) => Some(p.subrange(0, if j == 0 { 1 as int } else { j })),
            None => None,
        }
    }
}

/// The path of the entry named `name` inside the directory `base`:
/// `base` and `name` joined with a `/`, which the root already ends in.
pub open spec fn join_path(base: Seq<char>, name: Seq<char>) -> Seq<char> {
    if base.len() == 1 {
        base + name
    } else {
        base + seq!['/'] + name
    }
}

/// The final component of a path, or `N/A` when the path has none
/// (the root, or the synthetic `..` entry).
pub open spec fn display_name(p: Seq<char>) -> Seq<char> {
    match last_slash(p) {
        Some(j) => if j + 1 < p.len() {
            p.subrange(j + 1, p.len() as int)
        } else {
            "N/A"@
        },
        None => "N/A"@,
    }
}

/// The label a listing row shows for an entry: its final component,
/// or the entry text itself when there is none (so the synthetic `..`
/// entry is shown as `..`).
pub open spec fn entry_label(p: Seq<char>) -> Seq<char> {
    match last_slash(p) {
        Some(j) => if j + 1 < p.len() {
            p.subrange(j + 1, p.len() as int)
        } else {
            p
        },
        None => p,
    }
}

/// Extending a sequence by one character moves the last slash to that
/// character's position exactly when it is a slash.
pub proof fn lemma_last_slash_push(q: Seq<char>, c: char)
    ensures
        last_slash(q.push(c)) == (if c == '/' {
            Some(q.len() as int)
        } else {
            last_slash(q)
        }),
{
    let qp = q.push(c);
    assert(qp.len() == q.len() + 1);
    assert(qp[qp.len() - 1] == c);
    if c != '/' {
        assert(qp.drop_last() =~= q);
    }
}

/// The last slash of a sequence is a slash within bounds, and nothing
/// after it is one.
pub proof fn lemma_last_slash_props(p: Seq<char>, j: int)
    requires
        last_slash(p) == Some(j),
    ensures
        0 <= j < p.len(),
        p[j] == '/',
        forall|k: int| j < k < p.len() ==> p[k] != '/',
    decreases p.len(),
{
    if p.len() == 0 {
    } else if p[p.len() - 1] == '/' {
    } else {
        lemma_last_slash_props(p.drop_last(), j);
        assert forall|k: int| j < k < p.len() implies p[k] != '/' by {
            if k < p.len() - 1 {
                assert(p.drop_last()[k] == p[k]);
            }
        }
    }
}

/// Relies on `String::push`: appends the given character to the end of
/// the string.
#[verifier::external_body]
pub(crate) fn push_char(s: &mut String, c: char)
    ensures
        final(s)@ == old(s)@.push(c),
{
    s.push(c);
}

/// Index of the last `/` of `s`, or `None` if `s` has no slash.
pub fn last_slash_of(s: &str) -> (r: Option<usize>)
    ensures
        match r {
            Some(j) => last_slash(s@) == Some(j as int),
            None => last_slash(s@) is None,
        },
{
    let n = s.unicode_len();
    let mut r: Option<usize> = None;
    let mut i: usize = 0;
    while i < n
        invariant
            n == s@.len(),
            i <= n,
            match r {
                Some(j) => j < i && last_slash(s@.subrange(0, i as int)) == Some(j as int),
                None => last_slash(s@.subrange(0, i as int)) is None,
            },
        decreases n - i,
    {
        let c = s.get_char(i);
        proof {
            assert(s@.subrange(0, i + 1) =~= s@.subrange(0, i as int).push(s@[i as int]));
            lemma_last_slash_push(s@.subrange(0, i as int), s@[i as int]);
        }
        if c == '/' {
            r = Some(i);
        }
        i = i + 1;
    }
    proof {
        assert(s@.subrange(0, n as int) =~= s@);
    }
    r
}

/// Whether `s` is a canonical absolute path.
pub fn check_abs_path(s: &str) -> (b: bool)
    ensures
        b == is_abs_path(s@),
{
    let n = s.unicode_len();
    if n == 0 {
        return false;
    }
    if s.get_char(0) != '/' {
        return false;
    }
    n == 1 || s.get_char(n - 1) != '/'
}

/// The parent directory of `s`, or `None` when `s` is the root or has
/// no slash to strip.
pub fn parent_of(s: &str) -> (r: Option<String>)
    ensures
        match r {
            Some(q) => parent_path(s@) == Some(q@),
            None => parent_path(s@) is None,
        },
{
    let n = s.unicode_len();
    if n <= 1 {
        return None;
    }
    match last_slash_of(s) {
        Some(j) => {
            proof {
                lemma_last_slash_props(s@, j as int);
            }
            if j == 0 {
                Some(s.substring_char(0, 1).to_owned())
            } else {
                Some(s.substring_char(0, j).to_owned())
            }
        },
        None => None,
    }
}

/// The path of the entry named `name` inside the directory `base`.
pub fn join_under(base: &str, name: &str) -> (r: String)
    ensures
        r@ == join_path(base@, name@),
{
    let mut r = base.to_owned();
    if base.unicode_len() != 1 {
        push_char(&mut r, '/');
        proof {
            assert(base@.push('/') =~= base@ + seq!['/']);
        }
    }
    r.append(name);
    r
}

/// The final component of `s`, or `N/A` when it has none.
pub fn display_name_of(s: &str) -> (r: String)
    ensures
        r@ == display_name(s@),
{
    match last_slash_of(s) {
        Some(j) => {
            proof {
                lemma_last_slash_props(s@, j as int);
            }
            let n = s.unicode_len();
            if j + 1 < n {
                s.substring_char(j + 1, n).to_owned()
            } else {
                "N/A".to_owned()
            }
        },
        None => "N/A".to_owned(),
    }
}

/// The label a listing row shows for the entry `s`.
pub fn entry_label_of(s: &str) -> (r: String)
    ensures
        r@ == entry_label(s@),
{
    match last_slash_of(s) {
        Some(j) => {
            proof {
                lemma_last_slash_props(s@, j as int);
            }
            let n = s.unicode_len();
            if j + 1 < n {
                s.substring_char(j + 1, n).to_owned()
            } else {
                s.to_owned()
            }
        },
        None => s.to_owned(),
    }
}

} // verus!
