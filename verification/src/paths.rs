//! Deriving a candidate file path from a request path.
//!
//! A request path of `/` stands for the index file; any other path loses its
//! leading character and the remainder is taken as a path relative to the
//! configured root. Before the two are joined, the relative path is checked:
//! one with an empty or a `..` segment is rejected, so a candidate can never
//! escape the root directory.

use vstd::prelude::*;

verus! {

/// The relative path derived from a request path: the root request `/` means
/// the index file, any other path loses its leading character.
pub open spec fn relative_of(path: Seq<char>) -> Seq<char> {
    if path == "/"@ {
        "index.html"@
    } else if path.len() == 0 {
        path
    } else {
        path.skip(1)
    }
}

/// A slash at both `k` and `k + 1`: an empty segment lies between them.
pub open spec fn double_slash_at(s: Seq<char>, k: int) -> bool {
    0 <= k < s.len() - 1 && s[k] == '/' && s[k + 1] == '/'
}

/// The two characters at `i` are `..` and form a whole `/`-separated segment.
pub open spec fn parent_segment_at(s: Seq<char>, i: int) -> bool {
    &&& 0 <= i
    &&& i + 2 <= s.len()
    &&& i == 0 || s[i - 1] == '/'
    &&& i + 2 == s.len() || s[i + 2] == '/'
    &&& s[i] == '.'
    &&& s[i + 1] == '.'
}

/// Some `/`-separated segment of `s` is empty: `s` itself is empty, or it
/// begins or ends with a slash, or holds two slashes in a row.
pub open spec fn has_empty_segment(s: Seq<char>) -> bool {
    ||| s.len() == 0
    ||| s[0] == '/'
    ||| s[s.len() - 1] == '/'
    ||| exists|k: int| double_slash_at(s, k)
}

/// Some `/`-separated segment of `s` is exactly `..`.
pub open spec fn has_parent_segment(s: Seq<char>) -> bool {
    exists|i: int| parent_segment_at(s, i)
}

/// A relative path safe to join below the root: every `/`-separated segment
/// is non-empty and none is `..`.
pub open spec fn is_safe_relative(s: Seq<char>) -> bool {
    !has_empty_segment(s) && !has_parent_segment(s)
}

/// The root joined with a relative path: a single `/` stands between the two
/// unless the root is empty (files are served from the current directory) or
/// already ends in `/`.
pub open spec fn joined(root: Seq<char>, rel: Seq<char>) -> Seq<char> {
    if root.len() == 0 {
        rel
    } else if root[root.len() - 1] == '/' {
        root + rel
    } else {
        root + seq!['/'] + rel
    }
}

/// Where a request path resolves below the root: `None` when the request
/// carries no path at all or the derived relative path is unsafe.
pub open spec fn candidate_of(root: Seq<char>, path: Option<Seq<char>>) -> Option<Seq<char>> {
    match path {
        Some(p) => {
            if is_safe_relative(relative_of(p)) {
                Some(joined(root, relative_of(p)))
            } else {
                None
            }
        },
        None => None,
    }
}

/// Derive the relative path from a request path: `/` becomes `index.html`,
/// any other path loses its first character.
pub fn derive_relative(path: &str) -> (r: String)
    ensures
        r@ == relative_of(path@),
{
    let n: usize = path.unicode_len();
    if n == 1 && path.get_char(0) == '/' {
        proof {
            reveal_strlit("/");
            assert(path@ =~= "/"@);
        }
        String::from_str("index.html")
    } else {
        proof {
            reveal_strlit("/");
            assert(path@ != "/"@);
        }
        if n == 0 {
            String::new()
        } else {
            String::from_str(path.substring_char(1, n))
        }
    }
}

/// Check that a relative path has no empty and no `..` segment.
pub fn is_safe(rel: &str) -> (r: bool)
    ensures
        r == is_safe_relative(rel@),
{
    let n: usize = rel.unicode_len();
    if n == 0 {
        return false;
    }
    if rel.get_char(0) == '/' {
        return false;
    }
    if rel.get_char(n - 1) == '/' {
        return false;
    }
    let mut k: usize = 0;
    while k < n - 1
        invariant
            n == rel@.len(),
            n >= 1,
            k <= n,
            forall|j: int| 0 <= j < k ==> !double_slash_at(rel@, j),
        decreases n - k,
    {
        if rel.get_char(k) == '/' && rel.get_char(k + 1) == '/' {
            assert(double_slash_at(rel@, k as int));
            return false;
        }
        k = k + 1;
    }
    let mut i: usize = 0;
    while n >= 2 && i <= n - 2
        invariant
            n == rel@.len(),
            i <= n,
            forall|j: int| 0 <= j < i ==> !parent_segment_at(rel@, j),
        decreases n - i,
    {
        let starts: bool = i == 0 || rel.get_char(i - 1) == '/';
        let ends: bool = i + 2 == n || rel.get_char(i + 2) == '/';
        if starts && ends && rel.get_char(i) == '.' && rel.get_char(i + 1) == '.' {
            assert(parent_segment_at(rel@, i as int));
            return false;
        }
        i = i + 1;
    }
    proof {
        assert(forall|j: int| !double_slash_at(rel@, j));
        assert(forall|j: int| !parent_segment_at(rel@, j));
    }
    true
}

/// Join the root directory path with a relative path.
pub fn join(root: &str, rel: &str) -> (r: String)
    ensures
        r@ == joined(root@, rel@),
{
    let n: usize = root.unicode_len();
    if n == 0 {
        String::from_str(rel)
    } else if root.get_char(n - 1) == '/' {
        let mut s = String::from_str(root);
        s.append(rel);
        s
    } else {
        let mut s = String::from_str(root);
        s.append("/");
        s.append(rel);
        proof {
            reveal_strlit("/");
            assert((root@ + "/"@) + rel@ =~= (root@ + seq!['/']) + rel@);
        }
        s
    }
}

/// Two requests with the same path resolve to the same candidate file: the
/// derivation is a function of the request path and the fixed root alone.
pub proof fn lemma_same_path_same_candidate(root: Seq<char>, p1: Seq<char>, p2: Seq<char>)
    requires
        p1 == p2,
    ensures
        candidate_of(root, Some(p1)) == candidate_of(root, Some(p2)),
{
}

/// A candidate file never escapes the root: it is the root extended (after a
/// single separating `/` where one is needed) with a relative path that has
/// no empty and no `..` segment.
pub proof fn lemma_candidate_under_root(root: Seq<char>, p: Seq<char>)
    ensures
        candidate_of(root, Some(p)) matches Some(c) ==> {
            &&& is_safe_relative(relative_of(p))
            &&& c == joined(root, relative_of(p))
            &&& root.len() > 0 ==> c.subrange(0, root.len() as int) == root
        },
{
    if candidate_of(root, Some(p)) is Some {
        let c = joined(root, relative_of(p));
        if root.len() > 0 {
            assert(c.subrange(0, root.len() as int) =~= root);
        }
    }
}

} // verus!
