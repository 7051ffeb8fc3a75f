//! The Path Resolver: validates a client-supplied relative path and joins it
//! onto the configured base directory, rejecting traversal attempts.

use vstd::prelude::*;
use vstd::string::StrSliceExecFns;
use vstd::string::StringExecFns;

use crate::errors::RemoteFileError;

verus! {

/// There is an upward-traversal component (`..`) starting at index `i` of
/// `s`: two dots delimited by the string's ends or by `/` separators.
pub open spec fn parent_component_at(s: Seq<char>, i: int) -> bool {
    &&& 0 <= i
    &&& i + 2 <= s.len()
    &&& s[i] == '.'
    &&& s[i + 1] == '.'
    &&& (i == 0 || s[i - 1] == '/')
    &&& (i + 2 == s.len() || s[i + 2] == '/')
}

/// Some component of the path `s` is the upward-traversal marker `..`.
pub open spec fn has_parent_component(s: Seq<char>) -> bool {
    exists|i: int| parent_component_at(s, i)
}

/// Scan `s` for an upward-traversal component.
pub fn contains_parent_component(s: &str) -> (r: bool)
    ensures
        r == has_parent_component(s@),
{
    let n: usize = s.unicode_len();
    let mut i: usize = 0;
    while i < n
        invariant
            n == s@.len(),
            i <= n,
            forall|j: int| 0 <= j < i ==> !parent_component_at(s@, j),
        decreases n - i,
    {
        if n - i >= 2 {
            let left_ok: bool = if i == 0 {
                true
            } else {
                s.get_char(i - 1) == '/'
            };
            let right_ok: bool = if i + 2 == n {
                true
            } else {
                s.get_char(i + 2) == '/'
            };
            if s.get_char(i) == '.' && s.get_char(i + 1) == '.' && left_ok && right_ok {
                assert(parent_component_at(s@, i as int));
                return true;
            }
        }
        assert(!parent_component_at(s@, i as int));
        i = i + 1;
    }
    assert forall|j: int| !parent_component_at(s@, j) by {
        if 0 <= j < n {
            assert(!parent_component_at(s@, j));
        }
    }
    false
}

/// Standard path joining: an absolute request replaces the base; otherwise
/// the request is appended to the base, with a `/` separator inserted
/// unless the base is empty or already ends in one.
pub open spec fn spec_join(base: Seq<char>, req: Seq<char>) -> Seq<char> {
    if req.len() > 0 && req[0] == '/' {
        req
    } else if base.len() == 0 {
        req
    } else if base[base.len() - 1] == '/' {
        base + req
    } else {
        base + "/"@ + req
    }
}

/// `joined` still lies inside the directory `base`: it has `base` as a
/// prefix, and the prefix ends on a component boundary.
pub open spec fn starts_within(joined: Seq<char>, base: Seq<char>) -> bool {
    &&& joined.len() >= base.len()
    &&& joined.subrange(0, base.len() as int) == base
    &&& (joined.len() == base.len() || base.len() == 0 || base[base.len() - 1] == '/'
        || joined[base.len() as int] == '/')
}

/// Join `req` onto `base` under the rules of `spec_join`.
pub fn join_paths(base: &str, req: &str) -> (r: String)
    ensures
        r@ == spec_join(base@, req@),
{
    let req_len: usize = req.unicode_len();
    if req_len > 0 && req.get_char(0) == '/' {
        return String::from_str(req);
    }
    let base_len: usize = base.unicode_len();
    if base_len == 0 {
        String::from_str(req)
    } else if base.get_char(base_len - 1) == '/' {
        String::from_str(base).concat(req)
    } else {
        let r = String::from_str(base).concat("/").concat(req);
        assert(r@ =~= base@ + "/"@ + req@);
        r
    }
}

/// Decide `starts_within(joined@, base@)`.
pub fn check_starts_within(joined: &str, base: &str) -> (r: bool)
    ensures
        r == starts_within(joined@, base@),
{
    let jn: usize = joined.unicode_len();
    let bn: usize = base.unicode_len();
    if jn < bn {
        return false;
    }
    let mut i: usize = 0;
    while i < bn
        invariant
            jn == joined@.len(),
            bn == base@.len(),
            bn <= jn,
            i <= bn,
            forall|k: int| 0 <= k < i ==> joined@[k] == base@[k],
        decreases bn - i,
    {
        if joined.get_char(i) != base.get_char(i) {
            assert(joined@.subrange(0, bn as int)[i as int] == joined@[i as int]);
            return false;
        }
        i = i + 1;
    }
    assert(joined@.subrange(0, bn as int) =~= base@);
    if jn == bn || bn == 0 {
        return true;
    }
    if base.get_char(bn - 1) == '/' {
        return true;
    }
    joined.get_char(bn) == '/'
}

/// The Path Resolver accepts `name` against `base`: no upward-traversal
/// component, and the joined result still lies inside the base directory.
pub open spec fn spec_resolves(base: Seq<char>, name: Seq<char>) -> bool {
    !has_parent_component(name) && starts_within(spec_join(base, name), base)
}

/// The Path Resolver: validate `file_path` and join it onto `base_path`.
///
/// A path with an upward-traversal component is rejected unconditionally,
/// independent of whether the traversal would actually escape the base
/// directory. As a second, independent check, the joined result must still
/// have the base directory as a prefix.
pub fn get_full_path(file_path: &str, base_path: &str) -> (r: Result<String, RemoteFileError>)
    ensures
        r is Ok <==> spec_resolves(base_path@, file_path@),
        r matches Ok(p) ==> p@ == spec_join(base_path@, file_path@),
        r matches Err(e) ==> e is PathTraversal,
        has_parent_component(file_path@) ==> r is Err,
{
    if contains_parent_component(file_path) {
        return Err(RemoteFileError::PathTraversal);
    }
    let joined = join_paths(base_path, file_path);
    if check_starts_within(joined.as_str(), base_path) {
        Ok(joined)
    } else {
        Err(RemoteFileError::PathTraversal)
    }
}

/// Law: a relative requested path — one that does not start with `/` — with
/// no traversal component always resolves, and the resolved path is exactly
/// the base directory joined with the requested path: with `get_full_path`'s
/// contract, `get_full_path` returns `Ok` of that joined path.
pub proof fn lemma_relative_path_resolves(base: Seq<char>, req: Seq<char>)
    requires
        !has_parent_component(req),
        req.len() == 0 || req[0] != '/',
    ensures
        spec_resolves(base, req),
        spec_join(base, req).len() >= base.len(),
{
    reveal_strlit("/");
    let joined = spec_join(base, req);
    if base.len() == 0 {
        assert(joined.subrange(0, 0) =~= base);
    } else if base[base.len() - 1] == '/' {
        assert(joined.subrange(0, base.len() as int) =~= base);
    } else {
        assert(joined =~= base + "/"@ + req);
        assert(joined.subrange(0, base.len() as int) =~= base);
        assert(joined[base.len() as int] == '/');
    }
}

} // verus!
