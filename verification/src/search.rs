//! Plain-text search and replacement over character sequences: exact
//! substring match, first match in a range, and the single left-to-right
//! replacement pass. Positions are character indices, so no operation can
//! split a multi-byte character.

use vstd::prelude::*;
use vstd::string::StrSliceExecFns;
use vstd::string::StringExecFns;

verus! {

/// `pat` stands in `s` at position `i`.
pub open spec fn is_match_at(s: Seq<char>, pat: Seq<char>, i: int) -> bool {
    0 <= i && i + pat.len() <= s.len() && s.subrange(i, i + pat.len() as int) == pat
}

/// The first position at or after `from` where `pat` matches within `s` and
/// the match ends by `limit`; `None` if there is none.
pub open spec fn first_match(s: Seq<char>, pat: Seq<char>, from: int, limit: int) -> Option<int>
    decreases limit - from,
{
    if pat.len() == 0 || from < 0 || limit > s.len() || from + pat.len() > limit {
        None
    } else if is_match_at(s, pat, from) {
        Some(from)
    } else {
        first_match(s, pat, from + 1, limit)
    }
}

/// `s` with every non-overlapping occurrence of `pat` replaced by `rep`, in
/// one pass from the left. An empty `pat` replaces nothing.
pub open spec fn replace_all_spec(s: Seq<char>, pat: Seq<char>, rep: Seq<char>) -> Seq<char>
    decreases s.len(),
{
    if pat.len() == 0 || s.len() == 0 {
        s
    } else if is_match_at(s, pat, 0) {
        rep + replace_all_spec(s.skip(pat.len() as int), pat, rep)
    } else {
        seq![s[0]] + replace_all_spec(s.skip(1), pat, rep)
    }
}

/// What `first_match` returns is a real match, the earliest whose start lies
/// at or after `from` and whose end lies by `limit`; `None` means that range
/// holds no match at all.
pub proof fn lemma_first_match_characterization(
    s: Seq<char>,
    pat: Seq<char>,
    from: int,
    limit: int,
)
    requires
        pat.len() >= 1,
        0 <= from,
        limit <= s.len(),
    ensures
        first_match(s, pat, from, limit) matches Some(i) ==> from <= i && i + pat.len() <= limit
            && is_match_at(s, pat, i) && (forall|j: int| from <= j < i ==> !is_match_at(s, pat, j)),
        first_match(s, pat, from, limit) is None ==> forall|j: int|
            from <= j && j + pat.len() <= limit ==> !is_match_at(s, pat, j),
    decreases limit - from,
{
    if from + pat.len() > limit {
    } else if is_match_at(s, pat, from) {
    } else {
        lemma_first_match_characterization(s, pat, from + 1, limit);
        match first_match(s, pat, from, limit) {
            Some(i) => {
                assert forall|j: int| from <= j < i implies !is_match_at(s, pat, j) by {
                    if j != from {
                        assert(!is_match_at(s, pat, j));
                    }
                }
            },
            None => {},
        }
    }
}

/// Tests whether `pat` stands in `text` at character position `i`.
/// `n` and `m` are the character counts of `text` and `pat`.
pub fn match_at(text: &str, pat: &str, i: usize, n: usize, m: usize) -> (r: bool)
    requires
        n == text@.len(),
        m == pat@.len(),
        i + m <= n,
    ensures
        r == is_match_at(text@, pat@, i as int),
{
    let mut k: usize = 0;
    while k < m
        invariant
            k <= m,
            n == text@.len(),
            m == pat@.len(),
            i + m <= n,
            forall|j: int| 0 <= j < k ==> text@[i + j] == pat@[j],
        decreases m - k,
    {
        if text.get_char(i + k) != pat.get_char(k) {
            proof {
                assert(!is_match_at(text@, pat@, i as int)) by {
                    if is_match_at(text@, pat@, i as int) {
                        assert(text@.subrange(i as int, i + m)[k as int] == pat@[k as int]);
                        assert(text@.subrange(i as int, i + m)[k as int] == text@[i + k]);
                    }
                }
            }
            return false;
        }
        k = k + 1;
    }
    proof {
        assert(text@.subrange(i as int, i + m) =~= pat@);
    }
    true
}

/// Finds the first occurrence of `pat` in `text` that starts at or after
/// `from` and ends by `limit`.
pub fn find_match(text: &str, pat: &str, from: usize, limit: usize) -> (r: Option<usize>)
    requires
        limit <= text@.len(),
        pat@.len() >= 1,
    ensures
        match r {
            Some(i) => first_match(text@, pat@, from as int, limit as int) == Some(i as int),
            None => first_match(text@, pat@, from as int, limit as int) is None,
        },
{
    let n = text.unicode_len();
    let m = pat.unicode_len();
    if m > limit || from > limit - m {
        return None;
    }
    let mut i = from;
    while i <= limit - m
        invariant
            from <= i,
            m <= limit,
            i <= limit - m + 1,
            limit <= n,
            n == text@.len(),
            m == pat@.len(),
            m >= 1,
            first_match(text@, pat@, from as int, limit as int) == first_match(
                text@,
                pat@,
                i as int,
                limit as int,
            ),
        decreases limit - i,
    {
        if match_at(text, pat, i, n, m) {
            return Some(i);
        }
        i = i + 1;
    }
    None
}

/// The text before `from`, then `rep`, then the text from `to` on.
pub fn splice(text: &str, from: usize, to: usize, rep: &str) -> (out: String)
    requires
        from <= to <= text@.len(),
    ensures
        out@ == text@.subrange(0, from as int) + rep@ + text@.skip(to as int),
{
    let n = text.unicode_len();
    let mut out = text.substring_char(0, from).to_owned();
    out.append(rep);
    out.append(text.substring_char(to, n));
    proof {
        assert(text@.subrange(to as int, n as int) =~= text@.skip(to as int));
    }
    out
}

/// Matching at `i` is matching at the front of the text from `i` on.
proof fn lemma_match_at_skip(s: Seq<char>, pat: Seq<char>, i: int)
    requires
        0 <= i <= s.len(),
    ensures
        is_match_at(s, pat, i) == is_match_at(s.skip(i), pat, 0),
{
    if i + pat.len() <= s.len() {
        assert(s.skip(i).subrange(0, pat.len() as int) =~= s.subrange(i, i + pat.len() as int));
    }
}

/// Replaces every non-overlapping occurrence of `pat` in `text` by `rep`,
/// left to right in one pass.
pub fn replace_all_text(text: &str, pat: &str, rep: &str) -> (out: String)
    requires
        pat@.len() >= 1,
    ensures
        out@ == replace_all_spec(text@, pat@, rep@),
{
    let n = text.unicode_len();
    let m = pat.unicode_len();
    let mut out = String::new();
    let mut i: usize = 0;
    proof {
        assert(text@.skip(0) =~= text@);
        assert(Seq::<char>::empty() + replace_all_spec(text@, pat@, rep@) =~= replace_all_spec(
            text@,
            pat@,
            rep@,
        ));
    }
    while i < n
        invariant
            i <= n,
            n == text@.len(),
            m == pat@.len(),
            m >= 1,
            out@ + replace_all_spec(text@.skip(i as int), pat@, rep@) == replace_all_spec(
                text@,
                pat@,
                rep@,
            ),
        decreases n - i,
    {
        let ghost rest = text@.skip(i as int);
        proof {
            lemma_match_at_skip(text@, pat@, i as int);
        }
        if m <= n - i && match_at(text, pat, i, n, m) {
            out.append(rep);
            proof {
                assert(rest.skip(m as int) =~= text@.skip(i + m));
                assert(replace_all_spec(rest, pat@, rep@) == rep@ + replace_all_spec(
                    text@.skip(i + m),
                    pat@,
                    rep@,
                ));
            }
            i = i + m;
        } else {
            let c = text.substring_char(i, i + 1);
            out.append(c);
            proof {
                assert(c@ =~= seq![text@[i as int]]);
                assert(rest.skip(1) =~= text@.skip(i + 1));
                assert(rest[0] == text@[i as int]);
                assert(!is_match_at(rest, pat@, 0));
                assert(replace_all_spec(rest, pat@, rep@) == seq![text@[i as int]]
                    + replace_all_spec(text@.skip(i + 1), pat@, rep@));
            }
            i = i + 1;
        }
        proof {
            assert(out@ + replace_all_spec(text@.skip(i as int), pat@, rep@) =~= replace_all_spec(
                text@,
                pat@,
                rep@,
            ));
        }
    }
    proof {
        assert(text@.skip(n as int) =~= Seq::<char>::empty());
        assert(out@ + Seq::<char>::empty() =~= out@);
    }
    out
}

} // verus!
