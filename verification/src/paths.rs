//! The path model: host paths are strings of characters separated by `/`.
//! The jail maps host paths under its root by joining, taking base names,
//! and stripping leading separators; nothing here touches the filesystem.

use vstd::prelude::*;

verus! {

/// Drops every trailing `/`.
pub open spec fn strip_trailing_seps(s: Seq<char>) -> Seq<char>
    decreases s.len(),
{
    if s.len() == 0 {
        s
    } else if s.last() == '/' {
        strip_trailing_seps(s.drop_last())
    } else {
        s
    }
}

/// Drops every leading `/`.
pub open spec fn strip_leading_seps(s: Seq<char>) -> Seq<char>
    decreases s.len(),
{
    if s.len() == 0 {
        s
    } else if s[0] == '/' {
        strip_leading_seps(s.drop_first())
    } else {
        s
    }
}

/// The final component of a path: what remains after the last separator,
/// once trailing separators are dropped. A trailing `.` component names
/// the directory itself and is skipped. A path that reduces to nothing or
/// whose final component is `..` has no usable base name.
pub open spec fn spec_basename(s: Seq<char>) -> Option<Seq<char>>
    decreases s.len(),
    via spec_basename_decreases
{
    let t = strip_trailing_seps(s);
    if t.len() == 0 {
        None
    } else {
        let start: int = match t.index_of_last('/') {
            Some(i) => i + 1,
            None => 0,
        };
        let comp = t.subrange(start, t.len() as int);
        if comp == seq!['.'] {
            spec_basename(t.subrange(0, start))
        } else if comp == seq!['.', '.'] {
            None
        } else {
            Some(comp)
        }
    }
}

/// Stripping trailing separators never lengthens a path, and what remains
/// does not end with a separator.
pub proof fn lemma_strip_trailing_seps_len(s: Seq<char>)
    ensures
        strip_trailing_seps(s).len() <= s.len(),
        strip_trailing_seps(s).len() > 0 ==> strip_trailing_seps(s).last() != '/',
    decreases s.len(),
{
    if s.len() > 0 && s.last() == '/' {
        lemma_strip_trailing_seps_len(s.drop_last());
    }
}

#[via_fn]
proof fn spec_basename_decreases(s: Seq<char>) {
    lemma_strip_trailing_seps_len(s);
    let t = strip_trailing_seps(s);
    t.index_of_last_ensures('/');
    match t.index_of_last('/') {
        Some(i) => {
            assert(t[i] == '/');
            if t.len() > 0 {
                assert(t.last() != '/');
                assert(i < t.len() - 1);
            }
        },
        None => {},
    }
}

/// Joining a relative component under a root: a separator is added unless
/// the root is empty or already ends with one.
pub open spec fn spec_join(root: Seq<char>, rel: Seq<char>) -> Seq<char> {
    if root.len() == 0 {
        rel
    } else if root.last() == '/' {
        root + rel
    } else {
        root + seq!['/'] + rel
    }
}

pub proof fn lemma_strip_trailing_seps(s: Seq<char>, e: int)
    requires
        0 <= e <= s.len(),
        forall|k: int| e <= k < s.len() ==> s[k] == '/',
        e > 0 ==> s[e - 1] != '/',
    ensures
        strip_trailing_seps(s) == s.subrange(0, e),
    decreases s.len(),
{
    if s.len() == 0 {
        assert(s.subrange(0, 0) =~= s);
    } else if s.last() == '/' {
        assert(e < s.len());
        let d = s.drop_last();
        assert(forall|k: int| e <= k < d.len() ==> d[k] == s[k]);
        lemma_strip_trailing_seps(d, e);
        assert(d.subrange(0, e) =~= s.subrange(0, e));
    } else {
        assert(e == s.len());
        assert(s.subrange(0, e) =~= s);
    }
}

pub proof fn lemma_strip_leading_seps(s: Seq<char>, a: int)
    requires
        0 <= a <= s.len(),
        forall|k: int| 0 <= k < a ==> s[k] == '/',
        a < s.len() ==> s[a] != '/',
    ensures
        strip_leading_seps(s) == s.subrange(a, s.len() as int),
    decreases s.len(),
{
    if s.len() == 0 {
        assert(s.subrange(0, 0) =~= s);
    } else if s[0] == '/' {
        assert(a > 0);
        let d = s.drop_first();
        assert(forall|k: int| 0 <= k < d.len() ==> d[k] == s[k + 1]);
        lemma_strip_leading_seps(d, a - 1);
        assert(d.subrange(a - 1, d.len() as int) =~= s.subrange(a, s.len() as int));
    } else {
        assert(a == 0);
        assert(s.subrange(0, s.len() as int) =~= s);
    }
}

/// The base name of a path, or `None` when the path has no usable final
/// component (it reduces to nothing, or ends in `..`). Trailing separators
/// and trailing `.` components are skipped.
pub fn basename(s: &str) -> (r: Option<String>)
    ensures
        match r {
            Some(b) => spec_basename(s@) == Some(b@),
            None => spec_basename(s@) is None,
        },
{
    let n = s.unicode_len();
    let mut e: usize = n;
    proof {
        assert(s@.subrange(0, n as int) =~= s@);
    }
    loop
        invariant
            e <= n,
            n == s@.len(),
            spec_basename(s@) == spec_basename(s@.subrange(0, e as int)),
        decreases e,
    {
        let ghost p = s@.subrange(0, e as int);
        let ghost e0 = e as int;
        while e > 0 && s.get_char(e - 1) == '/'
            invariant
                e <= e0,
                e0 <= n,
                n == s@.len(),
                p == s@.subrange(0, e0),
                forall|k: int| e <= k < e0 ==> s@[k] == '/',
            decreases e,
        {
            e = e - 1;
        }
        proof {
            assert(forall|k: int| 0 <= k < p.len() ==> p[k] == s@[k]);
            lemma_strip_trailing_seps(p, e as int);
        }
        let ghost t = strip_trailing_seps(p);
        proof {
            assert(t =~= s@.subrange(0, e as int));
        }
        if e == 0 {
            proof {
                assert(t.len() == 0);
                assert(spec_basename(p) is None);
            }
            return None;
        }
        let mut i: usize = e;
        let ghost e1 = e as int;
        while i > 0 && s.get_char(i - 1) != '/'
            invariant
                i <= e1,
                e1 <= n,
                n == s@.len(),
                forall|k: int| i <= k < e1 ==> s@[k] != '/',
            decreases i,
        {
            i = i - 1;
        }
        proof {
            assert(forall|k: int| 0 <= k < t.len() ==> t[k] == s@[k]);
            t.index_of_last_ensures('/');
            if i > 0 {
                assert(t[i - 1] == '/');
                assert(t.contains('/')) by {
                    assert(t[i - 1] == '/');
                }
                match t.index_of_last('/') {
                    Some(idx) => {
                        if idx < i - 1 {
                            assert(t[i - 1] != '/');
                            assert(false);
                        } else if idx > i - 1 {
                            assert(idx < e);
                            assert(s@[idx] != '/');
                            assert(false);
                        }
                    },
                    None => {
                        assert(false);
                    },
                }
                assert(t.index_of_last('/') == Some(i as int - 1));
            } else {
                match t.index_of_last('/') {
                    Some(idx) => {
                        assert(t[idx] == '/');
                        assert(s@[idx] != '/');
                        assert(false);
                    },
                    None => {},
                }
            }
        }
        let clen = e - i;
        let ghost comp_spec = t.subrange(i as int, t.len() as int);
        if clen == 1 && s.get_char(i) == '.' {
            // the component names the directory itself: drop it and take
            // the base name of what precedes it
            proof {
                assert(comp_spec =~= seq!['.']);
                assert(t.subrange(0, i as int) =~= s@.subrange(0, i as int));
                assert(spec_basename(p) == spec_basename(s@.subrange(0, i as int)));
            }
            e = i;
        } else if clen == 2 && s.get_char(i) == '.' && s.get_char(i + 1) == '.' {
            proof {
                assert(comp_spec =~= seq!['.', '.']);
                assert(spec_basename(p) is None);
            }
            return None;
        } else {
            let comp = s.substring_char(i, e);
            proof {
                assert(comp@ =~= comp_spec);
                if comp_spec == seq!['.'] {
                    assert(comp_spec.len() == 1 && comp_spec[0] == '.');
                    assert(false);
                }
                if comp_spec == seq!['.', '.'] {
                    assert(comp_spec.len() == 2 && comp_spec[0] == '.' && comp_spec[1] == '.');
                    assert(false);
                }
                assert(spec_basename(p) == Some(comp_spec));
            }
            return Some(comp.to_owned());
        }
    }
}

/// Drops the leading separators of a path, leaving it relative.
pub fn strip_leading(s: &str) -> (r: String)
    ensures
        r@ == strip_leading_seps(s@),
{
    let n = s.unicode_len();
    let mut a: usize = 0;
    while a < n && s.get_char(a) == '/'
        invariant
            a <= n == s@.len(),
            forall|k: int| 0 <= k < a ==> s@[k] == '/',
        decreases n - a,
    {
        a = a + 1;
    }
    proof {
        lemma_strip_leading_seps(s@, a as int);
    }
    let rest = s.substring_char(a, n);
    rest.to_owned()
}

/// Joins a relative component under a root directory.
pub fn join(root: &str, rel: &str) -> (r: String)
    ensures
        r@ == spec_join(root@, rel@),
{
    let n = root.unicode_len();
    if n == 0 {
        return rel.to_owned();
    }
    let mut out = root.to_owned();
    if root.get_char(n - 1) != '/' {
        proof {
            reveal_strlit("/");
        }
        out.append("/");
    }
    out.append(rel);
    out
}

} // verus!
