//! The suggested file name for "save a copy": `<stem>_copy.<extension>`
//! built from the final component of the original path, with "untitled" and
//! "txt" standing in where the original has no name or no extension.
//!
//! A path's final component is the text after the last `/` once trailing
//! separators are stripped, so `a/b/` names the component `b`. A `.` leading
//! the component (a hidden file) does not begin an extension.

use vstd::prelude::*;
use vstd::string::StrSliceExecFns;
use vstd::string::StringExecFns;

verus! {

/// The index where the final path component begins: just after the last
/// separator, or 0 if there is none.
pub open spec fn file_name_start(s: Seq<char>) -> int
    decreases s.len(),
{
    if s.len() == 0 {
        0
    } else if s[s.len() - 1] == '/' {
        s.len() as int
    } else {
        file_name_start(s.drop_last())
    }
}

/// The index of the last `.` in `name`, or -1 if there is none.
pub open spec fn last_dot(name: Seq<char>) -> int
    decreases name.len(),
{
    if name.len() == 0 {
        -1
    } else if name[name.len() - 1] == '.' {
        name.len() - 1
    } else {
        last_dot(name.drop_last())
    }
}

/// The path with its trailing separators removed.
pub open spec fn strip_trailing_seps(s: Seq<char>) -> Seq<char>
    decreases s.len(),
{
    if s.len() > 0 && s[s.len() - 1] == '/' {
        strip_trailing_seps(s.drop_last())
    } else {
        s
    }
}

/// The suggested name for a copy of `original`.
pub open spec fn spec_copy_name(original: Option<Seq<char>>) -> Seq<char> {
    match original {
        None => "untitled"@ + "_copy."@ + "txt"@,
        Some(p0) => {
            let p = strip_trailing_seps(p0);
            let name = p.skip(file_name_start(p));
            let d = last_dot(name);
            if name.len() == 0 {
                "untitled"@ + "_copy."@ + "txt"@
            } else if d <= 0 {
                name + "_copy."@ + "txt"@
            } else {
                name.take(d) + "_copy."@ + name.skip(d + 1)
            }
        },
    }
}

/// `strip_trailing_seps` cuts the path at `e` when everything from `e` on is
/// a separator and nothing at `e - 1` is.
proof fn lemma_strip_trailing_seps_at(s: Seq<char>, e: int)
    requires
        0 <= e <= s.len(),
        forall|j: int| e <= j < s.len() ==> s[j] == '/',
        e > 0 ==> s[e - 1] != '/',
    ensures
        strip_trailing_seps(s) == s.take(e),
    decreases s.len(),
{
    if s.len() == 0 {
        assert(s.take(0) =~= s);
    } else if s[s.len() - 1] == '/' {
        let t = s.drop_last();
        assert(forall|j: int| 0 <= j < t.len() ==> t[j] == s[j]);
        assert(e < s.len());
        lemma_strip_trailing_seps_at(t, e);
        assert(t.take(e) =~= s.take(e));
    } else {
        assert(e == s.len());
        assert(s.take(e) =~= s);
    }
}

/// `file_name_start` is the position `k` when `s[k - 1]` is the last `/`.
proof fn lemma_file_name_start_at(s: Seq<char>, k: int)
    requires
        0 <= k <= s.len(),
        k > 0 ==> s[k - 1] == '/',
        forall|j: int| k <= j < s.len() ==> s[j] != '/',
    ensures
        file_name_start(s) == k,
    decreases s.len(),
{
    if s.len() == 0 {
    } else if s[s.len() - 1] == '/' {
        assert(k == s.len());
    } else {
        let t = s.drop_last();
        assert(forall|j: int| 0 <= j < t.len() ==> t[j] == s[j]);
        assert(k < s.len());
        lemma_file_name_start_at(t, k);
    }
}

/// `last_dot` is the position `d` when `name[d]` is the last `.`.
proof fn lemma_last_dot_at(name: Seq<char>, d: int)
    requires
        -1 <= d < name.len(),
        d >= 0 ==> name[d] == '.',
        forall|j: int| d < j < name.len() ==> name[j] != '.',
    ensures
        last_dot(name) == d,
    decreases name.len(),
{
    if name.len() == 0 {
    } else if name[name.len() - 1] == '.' {
        assert(d == name.len() - 1);
    } else {
        let t = name.drop_last();
        assert(forall|j: int| 0 <= j < t.len() ==> t[j] == name[j]);
        assert(d < name.len() - 1);
        lemma_last_dot_at(t, d);
    }
}

/// Builds the suggested file name for a copy of `original`:
/// `<stem>_copy.<extension>` as `spec_copy_name` lays it down.
pub fn copy_default_name(original: Option<&String>) -> (r: String)
    ensures
        r@ == spec_copy_name(
            match original {
                Some(p) => Some(p@),
                None => None,
            },
        ),
{
    match original {
        None => {
            let mut r = "untitled".to_owned();
            r.append("_copy.");
            r.append("txt");
            r
        },
        Some(p) => {
            let s = p.as_str();
            let n = s.unicode_len();
            // trailing separators do not count
            let mut e = n;
            while e > 0 && s.get_char(e - 1) == '/'
                invariant
                    e <= n,
                    n == s@.len(),
                    forall|j: int| e <= j < n ==> s@[j] == '/',
                decreases e,
            {
                e = e - 1;
            }
            proof {
                lemma_strip_trailing_seps_at(s@, e as int);
            }
            let ghost q = s@.take(e as int);
            proof {
                assert(forall|j: int| 0 <= j < e ==> q[j] == s@[j]);
            }
            // the final component starts after the last separator before `e`
            let mut k = e;
            while k > 0 && s.get_char(k - 1) != '/'
                invariant
                    k <= e,
                    e <= n,
                    n == s@.len(),
                    forall|j: int| k <= j < e ==> s@[j] != '/',
                decreases k,
            {
                k = k - 1;
            }
            proof {
                lemma_file_name_start_at(q, k as int);
            }
            let ghost name = q.skip(k as int);
            proof {
                assert(forall|j: int| 0 <= j < name.len() ==> name[j] == s@[k + j]);
            }
            if e - k == 0 {
                proof {
                    lemma_last_dot_at(name, -1);
                }
                let mut r = "untitled".to_owned();
                r.append("_copy.");
                r.append("txt");
                r
            } else {
                // the last dot of the final component, if any
                let mut t = e;
                while t > k && s.get_char(t - 1) != '.'
                    invariant
                        k <= t <= e,
                        e <= n,
                        n == s@.len(),
                        forall|j: int| t <= j < e ==> s@[j] != '.',
                    decreases t,
                {
                    t = t - 1;
                }
                if t <= k + 1 {
                    // no dot, or a dot only at the front: no extension
                    proof {
                        if t == k {
                            lemma_last_dot_at(name, -1);
                        } else {
                            lemma_last_dot_at(name, 0);
                        }
                    }
                    let mut r = s.substring_char(k, e).to_owned();
                    r.append("_copy.");
                    r.append("txt");
                    proof {
                        assert(s@.subrange(k as int, e as int) =~= name);
                    }
                    r
                } else {
                    proof {
                        lemma_last_dot_at(name, t - 1 - k);
                    }
                    let mut r = s.substring_char(k, t - 1).to_owned();
                    r.append("_copy.");
                    let ext = s.substring_char(t, e);
                    r.append(ext);
                    proof {
                        assert(s@.subrange(k as int, t - 1) =~= name.take(t - 1 - k));
                        assert(s@.subrange(t as int, e as int) =~= name.skip(t - k));
                    }
                    r
                }
            }
        },
    }
}

} // verus!
