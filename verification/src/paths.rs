//! Path strings and the two operations the resolver needs: joining a
//! relative name onto a base path, and taking the parent of a path.
//!
//! Paths are plain strings with `/` as the separator.  `join_path` appends
//! a name, inserting a separator when the base does not already end in one.
//! `parent_path` drops the final component, the way a path library does:
//! trailing separators are ignored, a single-component relative path has
//! the empty parent, a path directly under the root has parent `/`, and
//! the root itself (or the empty string) has no parent.

use vstd::prelude::*;
use vstd::string::StrSliceExecFns;

verus! {

/// The base path with `name` appended as one further component.
pub open spec fn join_path(base: Seq<char>, name: Seq<char>) -> Seq<char> {
    if base.len() == 0 {
        name
    } else if base.last() == '/' {
        base + name
    } else {
        base + seq!['/'] + name
    }
}

/// `s` without its trailing run of separators.
pub open spec fn strip_trailing_slashes(s: Seq<char>) -> Seq<char>
    decreases s.len(),
{
    if s.len() > 0 && s.last() == '/' {
        strip_trailing_slashes(s.drop_last())
    } else {
        s
    }
}

/// `s` without its trailing run of non-separator characters.
pub open spec fn strip_last_name(s: Seq<char>) -> Seq<char>
    decreases s.len(),
{
    if s.len() > 0 && s.last() != '/' {
        strip_last_name(s.drop_last())
    } else {
        s
    }
}

/// The path without its final component: `a/b/c` gives `a/b`, `a` gives
/// the empty path, `/a` gives `/`, and the root or the empty path has
/// no parent.
pub open spec fn parent_path(s: Seq<char>) -> Option<Seq<char>> {
    let t = strip_trailing_slashes(s);
    if t.len() == 0 {
        None
    } else {
        let u = strip_last_name(t);
        if u.len() == 0 {
            Some(Seq::empty())
        } else {
            let v = strip_trailing_slashes(u);
            if v.len() == 0 {
                Some(seq!['/'])
            } else {
                Some(v)
            }
        }
    }
}

/// Join `name` onto `base` as one further path component.
pub fn join_path_exec(base: &str, name: &str) -> (r: String)
    ensures
        r@ == join_path(base@, name@),
{
    let n = base.unicode_len();
    if n == 0 {
        name.to_owned()
    } else if base.get_char(n - 1) == '/' {
        let mut r = base.to_owned();
        r.append(name);
        r
    } else {
        let mut r = base.to_owned();
        r.append("/");
        proof {
            reveal_strlit("/");
            assert(r@ =~= base@ + seq!['/']);
        }
        r.append(name);
        r
    }
}

proof fn lemma_strip_trailing_step(s: Seq<char>, i: int)
    requires
        0 < i <= s.len(),
        s[i - 1] == '/',
    ensures
        strip_trailing_slashes(s.subrange(0, i)) == strip_trailing_slashes(s.subrange(0, i - 1)),
{
    let t = s.subrange(0, i);
    assert(t.last() == '/');
    assert(t.drop_last() =~= s.subrange(0, i - 1));
}

proof fn lemma_strip_name_step(s: Seq<char>, i: int)
    requires
        0 < i <= s.len(),
        s[i - 1] != '/',
    ensures
        strip_last_name(s.subrange(0, i)) == strip_last_name(s.subrange(0, i - 1)),
{
    let t = s.subrange(0, i);
    assert(t.last() != '/');
    assert(t.drop_last() =~= s.subrange(0, i - 1));
}

/// The path without its final component, or `None` where it has none.
pub fn parent_path_exec(p: &str) -> (r: Option<String>)
    ensures
        r matches Some(q) ==> parent_path(p@) == Some(q@),
        r is None ==> parent_path(p@) is None,
{
    let len = p.unicode_len();
    proof {
        assert(p@.subrange(0, len as int) =~= p@);
    }
    let mut i: usize = len;
    while i > 0 && p.get_char(i - 1) == '/'
        invariant
            i <= len,
            len == p@.len(),
            strip_trailing_slashes(p@) == strip_trailing_slashes(p@.subrange(0, i as int)),
        decreases i,
    {
        proof {
            lemma_strip_trailing_step(p@, i as int);
        }
        i = i - 1;
    }
    proof {
        assert(strip_trailing_slashes(p@) == p@.subrange(0, i as int));
    }
    if i == 0 {
        return None;
    }
    let mut j: usize = i;
    while j > 0 && p.get_char(j - 1) != '/'
        invariant
            j <= i <= len,
            len == p@.len(),
            strip_last_name(p@.subrange(0, i as int)) == strip_last_name(
                p@.subrange(0, j as int),
            ),
        decreases j,
    {
        proof {
            lemma_strip_name_step(p@, j as int);
        }
        j = j - 1;
    }
    proof {
        assert(strip_last_name(p@.subrange(0, i as int)) == p@.subrange(0, j as int));
    }
    if j == 0 {
        proof {
            assert(p@.subrange(0, 0) =~= Seq::<char>::empty());
        }
        return Some(String::new());
    }
    let mut k: usize = j;
    while k > 0 && p.get_char(k - 1) == '/'
        invariant
            k <= j <= len,
            len == p@.len(),
            strip_trailing_slashes(p@.subrange(0, j as int)) == strip_trailing_slashes(
                p@.subrange(0, k as int),
            ),
        decreases k,
    {
        proof {
            lemma_strip_trailing_step(p@, k as int);
        }
        k = k - 1;
    }
    proof {
        assert(strip_trailing_slashes(p@.subrange(0, j as int)) == p@.subrange(0, k as int));
    }
    if k == 0 {
        let r = "/".to_owned();
        proof {
            reveal_strlit("/");
            assert(r@ =~= seq!['/']);
        }
        return Some(r);
    }
    let part = p.substring_char(0, k);
    Some(part.to_owned())
}

} // verus!
