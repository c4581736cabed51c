//! Persisted user preferences: the palette, font choice, editor options, and
//! the most-recently-used file list (front = most recent, no duplicates,
//! capped at ten entries).
//!
//! The preferences live in a settings file on disk; reading and writing that
//! file, and the numeric conversions the GUI needs, happen outside this
//! library. Sizes that the GUI treats as fractional (font size, window
//! dimensions) are stored here as the exact bit patterns of their 32-bit
//! values, so that a stored record reproduces them bit for bit.

use vstd::prelude::*;
use crate::theme::Theme;

verus! {

/// How many entries the recent-file list keeps at most.
pub const MAX_RECENT_FILES: usize = 10;

/// Bit pattern of the default font size (14 points).
pub const DEFAULT_FONT_SIZE_BITS: u32 = 0x4160_0000;

/// Bit pattern of the default window width (1200).
pub const DEFAULT_WINDOW_WIDTH_BITS: u32 = 0x4496_0000;

/// Bit pattern of the default window height (800).
pub const DEFAULT_WINDOW_HEIGHT_BITS: u32 = 0x4448_0000;

/// The user's preferences.
pub struct Settings {
    pub theme: Theme,
    pub font_family: String,
    /// Bit pattern of the font size in points.
    pub font_size_bits: u32,
    pub word_wrap: bool,
    /// Stored preference; nothing reads it back yet.
    pub auto_save: bool,
    /// Stored preference; nothing reads it back yet.
    pub tab_size: usize,
    /// Bit pattern of the stored window width.
    pub window_width_bits: u32,
    /// Bit pattern of the stored window height.
    pub window_height_bits: u32,
    /// Paths of recently opened or saved files, most recent first.
    pub recent_files: Vec<String>,
}

/// The character sequences of a list of path strings.
pub open spec fn paths_view(v: Seq<String>) -> Seq<Seq<char>> {
    v.map_values(|s: String| s@)
}

/// `l` with every occurrence of `p` removed, order otherwise kept.
pub open spec fn remove_path(l: Seq<Seq<char>>, p: Seq<char>) -> Seq<Seq<char>>
    decreases l.len(),
{
    if l.len() == 0 {
        Seq::empty()
    } else if l[0] == p {
        remove_path(l.drop_first(), p)
    } else {
        seq![l[0]] + remove_path(l.drop_first(), p)
    }
}

/// `l` cut down to the first `MAX_RECENT_FILES` entries.
pub open spec fn cap_recent(l: Seq<Seq<char>>) -> Seq<Seq<char>> {
    if l.len() <= MAX_RECENT_FILES { l } else { l.take(MAX_RECENT_FILES as int) }
}

/// The recent-file list after recording `p`: `p` moves to the front, any
/// earlier occurrence disappears, and the list is capped.
pub open spec fn recent_after(l: Seq<Seq<char>>, p: Seq<char>) -> Seq<Seq<char>> {
    cap_recent(seq![p] + remove_path(l, p))
}

/// No entry occurs twice.
pub open spec fn distinct_paths(l: Seq<Seq<char>>) -> bool {
    forall|i: int, j: int| 0 <= i < j < l.len() ==> l[i] != l[j]
}

impl Default for Settings {
    /// The defaults used when no settings file can be read: the classic
    /// palette, monospace at 14 points, word wrap on, and an empty
    /// recent-file list.
    fn default() -> (s: Settings)
        ensures
            s.theme == crate::theme::spec_classic_theme(),
            s.font_family@ == "Monospace"@,
            s.font_size_bits == DEFAULT_FONT_SIZE_BITS,
            s.word_wrap,
            !s.auto_save,
            s.tab_size == 4usize,
            s.window_width_bits == DEFAULT_WINDOW_WIDTH_BITS,
            s.window_height_bits == DEFAULT_WINDOW_HEIGHT_BITS,
            s.recent_files@.len() == 0,
    {
        Settings {
            theme: Theme::default(),
            font_family: "Monospace".to_owned(),
            font_size_bits: DEFAULT_FONT_SIZE_BITS,
            word_wrap: true,
            auto_save: false,
            tab_size: 4,
            window_width_bits: DEFAULT_WINDOW_WIDTH_BITS,
            window_height_bits: DEFAULT_WINDOW_HEIGHT_BITS,
            recent_files: Vec::new(),
        }
    }
}

impl Settings {
    /// Records `path` as the most recently used file: removes any earlier
    /// occurrence, puts it at the front, and keeps at most
    /// `MAX_RECENT_FILES` entries. Nothing else changes.
    pub fn add_recent_file(&mut self, path: String)
        ensures
            paths_view(final(self).recent_files@) == recent_after(
                paths_view(old(self).recent_files@),
                path@,
            ),
            final(self).theme == old(self).theme,
            final(self).font_family == old(self).font_family,
            final(self).font_size_bits == old(self).font_size_bits,
            final(self).word_wrap == old(self).word_wrap,
            final(self).auto_save == old(self).auto_save,
            final(self).tab_size == old(self).tab_size,
            final(self).window_width_bits == old(self).window_width_bits,
            final(self).window_height_bits == old(self).window_height_bits,
    {
        let ghost l = paths_view(self.recent_files@);
        let n = self.recent_files.len();
        let mut out: Vec<String> = Vec::new();
        out.push(path.clone());
        let mut i: usize = 0;
        while i < n
            invariant
                i <= n,
                n == self.recent_files.len(),
                l == paths_view(self.recent_files@),
                paths_view(out@) == seq![path@] + remove_path(l.take(i as int), path@),
            decreases n - i,
        {
            proof {
                lemma_remove_path_distributes(l.take(i as int), seq![l[i as int]], path@);
                assert(l.take(i as int) + seq![l[i as int]] =~= l.take(i + 1));
                lemma_remove_path_single(l[i as int], path@);
            }
            if !(self.recent_files[i] == path) {
                let ghost prev = out@;
                out.push(self.recent_files[i].clone());
                proof {
                    assert(paths_view(out@) =~= paths_view(prev) + seq![l[i as int]]);
                }
            } else {
                proof {
                    assert(paths_view(out@) =~= seq![path@] + remove_path(
                        l.take(i + 1),
                        path@,
                    ));
                }
            }
            i = i + 1;
        }
        proof {
            assert(l.take(n as int) =~= l);
        }
        out.truncate(MAX_RECENT_FILES);
        proof {
            assert(paths_view(out@) =~= cap_recent(seq![path@] + remove_path(l, path@)));
        }
        self.recent_files = out;
    }

    /// Drops every occurrence of `path` from the recent-file list (used when
    /// a recent file turns out to no longer exist). Nothing else changes.
    pub fn remove_recent_file(&mut self, path: &String)
        ensures
            paths_view(final(self).recent_files@) == remove_path(
                paths_view(old(self).recent_files@),
                path@,
            ),
            final(self).theme == old(self).theme,
            final(self).font_family == old(self).font_family,
            final(self).font_size_bits == old(self).font_size_bits,
            final(self).word_wrap == old(self).word_wrap,
            final(self).auto_save == old(self).auto_save,
            final(self).tab_size == old(self).tab_size,
            final(self).window_width_bits == old(self).window_width_bits,
            final(self).window_height_bits == old(self).window_height_bits,
    {
        let ghost l = paths_view(self.recent_files@);
        let n = self.recent_files.len();
        let mut out: Vec<String> = Vec::new();
        let mut i: usize = 0;
        while i < n
            invariant
                i <= n,
                n == self.recent_files.len(),
                l == paths_view(self.recent_files@),
                paths_view(out@) == remove_path(l.take(i as int), path@),
            decreases n - i,
        {
            proof {
                lemma_remove_path_distributes(l.take(i as int), seq![l[i as int]], path@);
                assert(l.take(i as int) + seq![l[i as int]] =~= l.take(i + 1));
                lemma_remove_path_single(l[i as int], path@);
            }
            if !(self.recent_files[i] == *path) {
                let ghost prev = out@;
                out.push(self.recent_files[i].clone());
                proof {
                    assert(paths_view(out@) =~= paths_view(prev) + seq![l[i as int]]);
                }
            } else {
                proof {
                    assert(paths_view(out@) =~= remove_path(l.take(i + 1), path@));
                }
            }
            i = i + 1;
        }
        proof {
            assert(l.take(n as int) =~= l);
        }
        self.recent_files = out;
    }
}

/// Removing a path from a one-entry list: the entry stays unless it is `p`.
proof fn lemma_remove_path_single(x: Seq<char>, p: Seq<char>)
    ensures
        remove_path(seq![x], p) == if x == p { Seq::<Seq<char>>::empty() } else { seq![x] },
{
    let e = Seq::<Seq<char>>::empty();
    assert(remove_path(e, p) == e);
    assert(seq![x].drop_first() =~= e);
    if x == p {
        assert(remove_path(seq![x], p) == remove_path(e, p));
    } else {
        assert(remove_path(seq![x], p) == seq![x] + remove_path(e, p));
        assert(seq![x] + e =~= seq![x]);
    }
}

/// Removing a path distributes over concatenation.
proof fn lemma_remove_path_distributes(a: Seq<Seq<char>>, b: Seq<Seq<char>>, p: Seq<char>)
    ensures
        remove_path(a + b, p) == remove_path(a, p) + remove_path(b, p),
    decreases a.len(),
{
    if a.len() == 0 {
        assert(a + b =~= b);
        assert(remove_path(a, p) + remove_path(b, p) =~= remove_path(b, p));
    } else {
        lemma_remove_path_distributes(a.drop_first(), b, p);
        assert((a + b).drop_first() =~= a.drop_first() + b);
        if a[0] == p {
            assert(remove_path(a + b, p) == remove_path(a.drop_first() + b, p));
        } else {
            assert(remove_path(a + b, p) =~= seq![a[0]] + (remove_path(a.drop_first(), p)
                + remove_path(b, p)));
            assert(seq![a[0]] + (remove_path(a.drop_first(), p) + remove_path(b, p)) =~= (seq![a[0]]
                + remove_path(a.drop_first(), p)) + remove_path(b, p));
        }
    }
}

/// No entry of `remove_path(l, p)` is `p`, and each was in `l`.
proof fn lemma_remove_path_entries(l: Seq<Seq<char>>, p: Seq<char>)
    ensures
        forall|i: int|
            0 <= i < remove_path(l, p).len() ==> remove_path(l, p)[i] != p && l.contains(
                remove_path(l, p)[i],
            ),
    decreases l.len(),
{
    if l.len() > 0 {
        lemma_remove_path_entries(l.drop_first(), p);
        let tail = l.drop_first();
        let rt = remove_path(tail, p);
        assert forall|i: int| 0 <= i < remove_path(l, p).len() implies remove_path(l, p)[i] != p
            && l.contains(remove_path(l, p)[i]) by {
            if l[0] == p {
                assert(remove_path(l, p) == rt);
                assert(rt[i] != p && tail.contains(rt[i]));
                let j = choose|j: int| 0 <= j < tail.len() && tail[j] == rt[i];
                assert(l[j + 1] == rt[i]);
            } else {
                assert(remove_path(l, p) == seq![l[0]] + rt);
                if i == 0 {
                    assert(remove_path(l, p)[0] == l[0]);
                } else {
                    assert(remove_path(l, p)[i] == rt[i - 1]);
                    assert(rt[i - 1] != p && tail.contains(rt[i - 1]));
                    let j = choose|j: int| 0 <= j < tail.len() && tail[j] == rt[i - 1];
                    assert(l[j + 1] == rt[i - 1]);
                }
            }
        }
    }
}

/// A list without any occurrence of `p` is left alone by `remove_path`.
proof fn lemma_remove_path_absent(l: Seq<Seq<char>>, p: Seq<char>)
    requires
        forall|i: int| 0 <= i < l.len() ==> l[i] != p,
    ensures
        remove_path(l, p) == l,
    decreases l.len(),
{
    if l.len() == 0 {
        assert(remove_path(l, p) =~= l);
    } else {
        assert(l.drop_first()[0] == l[1] || l.drop_first().len() == 0);
        assert(forall|i: int| 0 <= i < l.drop_first().len() ==> l.drop_first()[i] == l[i + 1]);
        lemma_remove_path_absent(l.drop_first(), p);
        assert(remove_path(l, p) =~= seq![l[0]] + l.drop_first());
        assert(seq![l[0]] + l.drop_first() =~= l);
    }
}

/// Recording the same path twice leaves the list exactly as recording it
/// once does: `recent_after` is idempotent.
pub proof fn lemma_add_recent_idempotent(l: Seq<Seq<char>>, p: Seq<char>)
    ensures
        recent_after(recent_after(l, p), p) == recent_after(l, p),
{
    let r = remove_path(l, p);
    let full = seq![p] + r;
    lemma_remove_path_entries(l, p);
    if full.len() <= MAX_RECENT_FILES {
        // the capped list is [p] + r itself
        assert(recent_after(l, p) == full);
        lemma_remove_path_distributes(seq![p], r, p);
        lemma_remove_path_single(p, p);
        lemma_remove_path_absent(r, p);
        assert(remove_path(full, p) =~= r);
        assert(recent_after(full, p) == cap_recent(seq![p] + r));
    } else {
        // the capped list is [p] + the first nine entries of r
        let r9 = r.take(MAX_RECENT_FILES - 1);
        assert(full.take(MAX_RECENT_FILES as int) =~= seq![p] + r9);
        assert(recent_after(l, p) == seq![p] + r9);
        lemma_remove_path_distributes(seq![p], r9, p);
        lemma_remove_path_single(p, p);
        assert(forall|i: int| 0 <= i < r9.len() ==> r9[i] == r[i]);
        lemma_remove_path_absent(r9, p);
        assert(remove_path(seq![p] + r9, p) =~= r9);
        assert(cap_recent(seq![p] + r9) == seq![p] + r9);
    }
}

/// After recording `p` the list starts with `p`, holds at most
/// `MAX_RECENT_FILES` entries, and holds `p` nowhere else.
pub proof fn lemma_add_recent_front(l: Seq<Seq<char>>, p: Seq<char>)
    ensures
        recent_after(l, p).len() >= 1,
        recent_after(l, p).len() <= MAX_RECENT_FILES,
        recent_after(l, p)[0] == p,
        forall|i: int| 1 <= i < recent_after(l, p).len() ==> recent_after(l, p)[i] != p,
{
    let r = remove_path(l, p);
    lemma_remove_path_entries(l, p);
    let full = seq![p] + r;
    assert(full[0] == p);
    if full.len() > MAX_RECENT_FILES {
        assert(forall|i: int|
            0 <= i < MAX_RECENT_FILES ==> cap_recent(full)[i] == full[i]);
    }
}

/// Recording a path keeps the entries distinct, and every entry other than
/// the new one was already in the list.
pub proof fn lemma_add_recent_distinct(l: Seq<Seq<char>>, p: Seq<char>)
    requires
        distinct_paths(l),
    ensures
        distinct_paths(recent_after(l, p)),
        forall|i: int|
            1 <= i < recent_after(l, p).len() ==> l.contains(recent_after(l, p)[i]),
{
    let r = remove_path(l, p);
    lemma_remove_path_entries(l, p);
    lemma_remove_path_distinct(l, p);
    let full = seq![p] + r;
    assert forall|i: int, j: int| 0 <= i < j < full.len() implies full[i] != full[j] by {
        if i == 0 {
            assert(full[j] == r[j - 1]);
        } else {
            assert(full[i] == r[i - 1] && full[j] == r[j - 1]);
        }
    }
    assert forall|i: int, j: int|
        0 <= i < j < recent_after(l, p).len() implies recent_after(l, p)[i] != recent_after(
        l,
        p,
    )[j] by {
        assert(recent_after(l, p)[i] == full[i] && recent_after(l, p)[j] == full[j]);
    }
    assert forall|i: int| 1 <= i < recent_after(l, p).len() implies l.contains(
        recent_after(l, p)[i],
    ) by {
        assert(recent_after(l, p)[i] == full[i]);
        assert(full[i] == r[i - 1]);
    }
}

/// `remove_path` keeps distinct entries distinct.
proof fn lemma_remove_path_distinct(l: Seq<Seq<char>>, p: Seq<char>)
    requires
        distinct_paths(l),
    ensures
        distinct_paths(remove_path(l, p)),
    decreases l.len(),
{
    if l.len() > 0 {
        let tail = l.drop_first();
        assert(forall|i: int| 0 <= i < tail.len() ==> tail[i] == l[i + 1]);
        lemma_remove_path_distinct(tail, p);
        lemma_remove_path_entries(tail, p);
        if l[0] != p {
            let r = remove_path(l, p);
            let rt = remove_path(tail, p);
            assert forall|i: int, j: int| 0 <= i < j < r.len() implies r[i] != r[j] by {
                if i == 0 {
                    assert(r[j] == rt[j - 1]);
                    assert(tail.contains(rt[j - 1]));
                    let k = choose|k: int| 0 <= k < tail.len() && tail[k] == rt[j - 1];
                    assert(l[0] != l[k + 1]);
                } else {
                    assert(r[i] == rt[i - 1] && r[j] == rt[j - 1]);
                }
            }
        }
    }
}

} // verus!
