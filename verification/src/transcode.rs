//! Stream Transcoder selection: whether a request is served compressed, and
//! which remote name is fetched, decided purely by the requested filename's
//! extension.

use vstd::prelude::*;
use vstd::string::StrSliceExecFns;
use vstd::string::StringExecFns;

use crate::paths::has_parent_component;
use crate::paths::parent_component_at;

verus! {

/// The requested name ends in the recognized compressed-variant suffix
/// `.bz2`. The final component must hold more than the suffix itself: a
/// file named exactly `.bz2` has no extension and is fetched as it is.
pub open spec fn has_bz2_suffix(s: Seq<char>) -> bool {
    &&& s.len() >= 5
    &&& s.subrange(s.len() - 4, s.len() as int) == ".bz2"@
    &&& s[s.len() - 5] != '/'
}

/// The remote name to fetch for a requested name: the `.bz2` suffix is
/// stripped when present, and such a request is served compressed.
pub open spec fn spec_fetch_name(s: Seq<char>) -> Seq<char> {
    if has_bz2_suffix(s) {
        s.take(s.len() - 4)
    } else {
        s
    }
}

/// Decide the remote name to fetch and whether to compress, from the
/// requested filename's extension alone.
pub fn effective_fetch_name(requested: &str) -> (r: (String, bool))
    ensures
        r.1 == has_bz2_suffix(requested@),
        r.0@ == spec_fetch_name(requested@),
{
    proof {
        reveal_strlit(".bz2");
    }
    let n: usize = requested.unicode_len();
    if n >= 5 && requested.get_char(n - 4) == '.' && requested.get_char(n - 3) == 'b'
        && requested.get_char(n - 2) == 'z' && requested.get_char(n - 1) == '2'
        && requested.get_char(n - 5) != '/' {
        proof {
            assert(requested@.subrange(n - 4, n as int) =~= ".bz2"@);
        }
        let stem = requested.substring_char(0, n - 4);
        proof {
            assert(stem@ =~= requested@.take(n - 4));
        }
        (String::from_str(stem), true)
    } else {
        proof {
            if has_bz2_suffix(requested@) {
                let m = requested@.len();
                assert(requested@[m - 4] == requested@.subrange(m - 4, m as int)[0]);
                assert(requested@[m - 3] == requested@.subrange(m - 4, m as int)[1]);
                assert(requested@[m - 2] == requested@.subrange(m - 4, m as int)[2]);
                assert(requested@[m - 1] == requested@.subrange(m - 4, m as int)[3]);
            }
        }
        (String::from_str(requested), false)
    }
}

/// Law: stripping the `.bz2` suffix never erases an upward-traversal
/// component — if the requested name holds one, so does the name fetched,
/// so a traversal check on the fetched name also covers the requested one.
pub proof fn lemma_fetch_name_keeps_traversal(s: Seq<char>)
    requires
        has_parent_component(s),
    ensures
        has_parent_component(spec_fetch_name(s)),
{
    if has_bz2_suffix(s) {
        reveal_strlit(".bz2");
        let n = s.len() as int;
        assert(s[n - 4] == s.subrange(n - 4, n)[0]);
        assert(s[n - 3] == s.subrange(n - 4, n)[1]);
        assert(s[n - 2] == s.subrange(n - 4, n)[2]);
        assert(s[n - 1] == s.subrange(n - 4, n)[3]);
        let i = choose|i: int| parent_component_at(s, i);
        // The `..` cannot end at the string's end: the last two characters
        // are `z2`. So a `/` follows it, and that `/` lies before the
        // suffix and before the non-`/` character just ahead of it.
        assert(i + 2 != n);
        assert(s[i + 2] == '/');
        assert(i + 2 <= n - 6);
        let t = spec_fetch_name(s);
        assert(t == s.take(n - 4));
        assert(parent_component_at(t, i));
    }
}

} // verus!
