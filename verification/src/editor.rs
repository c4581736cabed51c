//! The editing session: buffer, current file, modified flag, find/replace
//! state, panel visibility, and the staged preference fields edited in the
//! settings panel before they are committed.
//!
//! Every command is a pure state transition. Results of dialogs and of file
//! reads and writes are passed in as plain values (`confirmed`, `picked`,
//! `write_ok`), so each command's effect is stated exactly for every outcome.

use vstd::prelude::*;
use vstd::string::StrSliceExecFns;
use crate::search::{find_match, first_match, is_match_at, match_at, replace_all_spec,
    replace_all_text, splice};
use crate::settings::{paths_view, recent_after, remove_path, Settings};
use crate::theme::Theme;

verus! {

/// One editing session over one owned `Settings`.
pub struct DNotepadX {
    pub settings: Settings,
    /// The full text being edited.
    pub content: String,
    /// The file the buffer came from or was last saved to; `None` is
    /// "untitled, unsaved".
    pub current_file: Option<String>,
    pub is_modified: bool,
    pub show_settings: bool,
    pub show_find_replace: bool,
    pub find_text: String,
    pub replace_text: String,
    /// Staged palette, committed by `apply_settings`.
    pub temp_theme: Theme,
    /// Staged font family, committed by `apply_settings`.
    pub temp_font_family: String,
    /// Staged bit pattern of the font size, committed by `apply_settings`.
    pub temp_font_size_bits: u32,
    /// Staged word-wrap choice, committed by `apply_settings`.
    pub temp_word_wrap: bool,
    /// Character position the next find starts from; set by find/replace.
    pub cursor_position: Option<usize>,
}

/// Where a find is anchored: the stored cursor, or the buffer start; a
/// stored position beyond the end of the buffer counts as the end.
pub open spec fn spec_find_start(s: DNotepadX) -> int {
    let c: int = match s.cursor_position {
        Some(p) => p as int,
        None => 0,
    };
    if c <= s.content@.len() {
        c
    } else {
        s.content@.len() as int
    }
}

/// The cursor after a find anchored at `start`. With a stored cursor
/// (`from_cursor`) the forward half begins just past it, so a match the
/// cursor already sits on is skipped, never found again; without one it
/// begins at the buffer start. If the forward half holds no match, the
/// wrap-around half takes the first match that ends by `start`; failing
/// both, nothing.
pub open spec fn find_next_result(
    s: Seq<char>,
    pat: Seq<char>,
    start: int,
    from_cursor: bool,
) -> Option<int> {
    let forward_from: int = if from_cursor { start + 1 } else { 0 };
    match first_match(s, pat, forward_from, s.len() as int) {
        Some(i) => Some(i),
        None => first_match(s, pat, 0, start),
    }
}

impl DNotepadX {
    /// Starts a session on the given preferences, with an empty, unsaved,
    /// unmodified buffer, both panels closed, and the staged preference
    /// fields mirroring the committed ones.
    pub fn new(settings: Settings) -> (s: Self)
        ensures
            s.settings == settings,
            s.content@ == Seq::<char>::empty(),
            s.current_file is None,
            !s.is_modified,
            !s.show_settings,
            !s.show_find_replace,
            s.find_text@ == Seq::<char>::empty(),
            s.replace_text@ == Seq::<char>::empty(),
            s.temp_theme == settings.theme,
            s.temp_font_family == settings.font_family,
            s.temp_font_size_bits == settings.font_size_bits,
            s.temp_word_wrap == settings.word_wrap,
            s.cursor_position is None,
    {
        let temp_font_family = settings.font_family.clone();
        DNotepadX {
            temp_theme: settings.theme,
            temp_font_family,
            temp_font_size_bits: settings.font_size_bits,
            temp_word_wrap: settings.word_wrap,
            settings,
            content: String::new(),
            current_file: None,
            is_modified: false,
            show_settings: false,
            show_find_replace: false,
            find_text: String::new(),
            replace_text: String::new(),
            cursor_position: None,
        }
    }

    /// The user typed: the buffer is replaced and counts as modified.
    pub fn set_content(&mut self, text: String)
        ensures
            *final(self) == (DNotepadX { content: text, is_modified: true, ..*old(self) }),
    {
        self.content = text;
        self.is_modified = true;
    }

    /// Sets the text to search for.
    pub fn set_find_text(&mut self, text: String)
        ensures
            *final(self) == (DNotepadX { find_text: text, ..*old(self) }),
    {
        self.find_text = text;
    }

    /// Sets the replacement text.
    pub fn set_replace_text(&mut self, text: String)
        ensures
            *final(self) == (DNotepadX { replace_text: text, ..*old(self) }),
    {
        self.replace_text = text;
    }

    /// Moves the find cursor.
    pub fn set_cursor_position(&mut self, pos: Option<usize>)
        ensures
            *final(self) == (DNotepadX { cursor_position: pos, ..*old(self) }),
    {
        self.cursor_position = pos;
    }

    /// Opens or closes the settings panel.
    pub fn toggle_settings(&mut self)
        ensures
            *final(self) == (DNotepadX { show_settings: !old(self).show_settings, ..*old(self) }),
    {
        self.show_settings = !self.show_settings;
    }

    /// Opens or closes the find/replace panel.
    pub fn toggle_find_replace(&mut self)
        ensures
            *final(self) == (DNotepadX {
                show_find_replace: !old(self).show_find_replace,
                ..*old(self)
            }),
    {
        self.show_find_replace = !self.show_find_replace;
    }

    /// Closes the find/replace panel.
    pub fn close_find_replace(&mut self)
        ensures
            *final(self) == (DNotepadX { show_find_replace: false, ..*old(self) }),
    {
        self.show_find_replace = false;
    }

    /// The New command. `confirmed` is the answer to the unsaved-changes
    /// question (asked only when the buffer is modified). A declined
    /// confirmation changes nothing; otherwise buffer, file, and modified
    /// flag are cleared.
    pub fn new_file(&mut self, confirmed: bool)
        ensures
            old(self).is_modified && !confirmed ==> *final(self) == *old(self),
            !(old(self).is_modified && !confirmed) ==> {
                &&& final(self).content@ == Seq::<char>::empty()
                &&& *final(self) == (DNotepadX {
                    content: final(self).content,
                    current_file: None,
                    is_modified: false,
                    ..*old(self)
                })
            },
    {
        if self.is_modified && !confirmed {
            return;
        }
        self.content = String::new();
        self.current_file = None;
        self.is_modified = false;
    }

    /// The Open command. `picked` is what the file dialog and the read
    /// produced: a path and the file's text, or nothing (cancelled or
    /// unreadable). A declined confirmation, or no pick, changes nothing;
    /// otherwise the buffer takes the text, the path becomes current and
    /// moves to the front of the recent list, and the buffer counts as
    /// unmodified.
    pub fn open_file(&mut self, confirmed: bool, picked: Option<(String, String)>)
        ensures
            old(self).is_modified && !confirmed ==> *final(self) == *old(self),
            !(old(self).is_modified && !confirmed) && picked is None ==> *final(self) == *old(
                self,
            ),
            picked matches Some(pc) ==> !(old(self).is_modified && !confirmed) ==> {
                &&& final(self).content == pc.1
                &&& final(self).current_file == Some(pc.0)
                &&& !final(self).is_modified
                &&& paths_view(final(self).settings.recent_files@) == recent_after(
                    paths_view(old(self).settings.recent_files@),
                    pc.0@,
                )
                &&& final(self).settings == (Settings {
                    recent_files: final(self).settings.recent_files,
                    ..old(self).settings
                })
                &&& *final(self) == (DNotepadX {
                    content: final(self).content,
                    current_file: final(self).current_file,
                    is_modified: false,
                    settings: final(self).settings,
                    ..*old(self)
                })
            },
    {
        if self.is_modified && !confirmed {
            return;
        }
        match picked {
            Some((path, text)) => {
                self.content = text;
                let current = path.clone();
                self.settings.add_recent_file(path);
                self.current_file = Some(current);
                self.is_modified = false;
            },
            None => {},
        }
    }

    /// The Open-Recent command for `path`. `content` is what reading the
    /// file produced, or nothing if the read failed. A declined confirmation
    /// changes nothing. A failed read removes the stale path from the recent
    /// list and touches nothing else. A successful read behaves as Open.
    pub fn open_recent_file(&mut self, path: String, confirmed: bool, content: Option<String>)
        ensures
            old(self).is_modified && !confirmed ==> *final(self) == *old(self),
            content matches Some(text) ==> !(old(self).is_modified && !confirmed) ==> {
                &&& final(self).content == text
                &&& final(self).current_file == Some(path)
                &&& !final(self).is_modified
                &&& paths_view(final(self).settings.recent_files@) == recent_after(
                    paths_view(old(self).settings.recent_files@),
                    path@,
                )
                &&& final(self).settings == (Settings {
                    recent_files: final(self).settings.recent_files,
                    ..old(self).settings
                })
                &&& *final(self) == (DNotepadX {
                    content: final(self).content,
                    current_file: final(self).current_file,
                    is_modified: false,
                    settings: final(self).settings,
                    ..*old(self)
                })
            },
            !(old(self).is_modified && !confirmed) && content is None ==> {
                &&& paths_view(final(self).settings.recent_files@) == remove_path(
                    paths_view(old(self).settings.recent_files@),
                    path@,
                )
                &&& final(self).settings == (Settings {
                    recent_files: final(self).settings.recent_files,
                    ..old(self).settings
                })
                &&& *final(self) == (DNotepadX { settings: final(self).settings, ..*old(self) })
            },
    {
        if self.is_modified && !confirmed {
            return;
        }
        match content {
            Some(text) => {
                self.content = text;
                let current = path.clone();
                self.settings.add_recent_file(path);
                self.current_file = Some(current);
                self.is_modified = false;
            },
            None => {
                self.settings.remove_recent_file(&path);
            },
        }
    }

    /// Whether the Save command must fall back to Save-As.
    pub fn wants_save_as(&self) -> (r: bool)
        ensures
            r == (self.current_file is None),
    {
        match &self.current_file {
            Some(_) => false,
            None => true,
        }
    }

    /// The path the Save command writes to, if one is set.
    pub fn current_file(&self) -> (r: Option<&String>)
        ensures
            match r {
                Some(p) => self.current_file == Some(*p),
                None => self.current_file is None,
            },
    {
        match &self.current_file {
            Some(p) => Some(p),
            None => None,
        }
    }

    /// Ends a Save to the current path: a successful write clears the
    /// modified flag, a failed one leaves everything as it was.
    pub fn finish_save(&mut self, write_ok: bool)
        ensures
            write_ok ==> *final(self) == (DNotepadX { is_modified: false, ..*old(self) }),
            !write_ok ==> *final(self) == *old(self),
    {
        if write_ok {
            self.is_modified = false;
        }
    }

    /// Ends a Save-As after `path` was chosen and written: the path becomes
    /// current and moves to the front of the recent list, and the buffer
    /// counts as unmodified.
    pub fn finish_save_as(&mut self, path: String)
        ensures
            final(self).current_file == Some(path),
            !final(self).is_modified,
            paths_view(final(self).settings.recent_files@) == recent_after(
                paths_view(old(self).settings.recent_files@),
                path@,
            ),
            final(self).settings == (Settings {
                recent_files: final(self).settings.recent_files,
                ..old(self).settings
            }),
            *final(self) == (DNotepadX {
                current_file: final(self).current_file,
                is_modified: false,
                settings: final(self).settings,
                ..*old(self)
            }),
    {
        let current = path.clone();
        self.settings.add_recent_file(path);
        self.current_file = Some(current);
        self.is_modified = false;
    }

    /// The Find-Next command: with an empty find text nothing happens;
    /// otherwise the cursor moves to the first match past it — a match the
    /// cursor already sits on is skipped, so repeated presses walk on — else
    /// to the first match before it (wrap-around), else stays. With no
    /// cursor, the search starts at the buffer's front.
    pub fn find_next(&mut self)
        ensures
            old(self).find_text@.len() == 0 ==> *final(self) == *old(self),
            old(self).find_text@.len() > 0 ==> {
                let r = find_next_result(
                    old(self).content@,
                    old(self).find_text@,
                    spec_find_start(*old(self)),
                    old(self).cursor_position is Some,
                );
                &&& (r matches Some(i) ==> final(self).cursor_position == Some(i as usize))
                &&& (r is None ==> final(self).cursor_position == old(self).cursor_position)
                &&& *final(self) == (DNotepadX {
                    cursor_position: final(self).cursor_position,
                    ..*old(self)
                })
            },
    {
        if self.find_text.as_str().unicode_len() == 0 {
            return;
        }
        let n = self.content.as_str().unicode_len();
        let (start, forward_from) = match self.cursor_position {
            Some(p) => {
                let start = if p <= n {
                    p
                } else {
                    n
                };
                let forward_from = if start < n {
                    start + 1
                } else {
                    n
                };
                proof {
                    if start == n {
                        assert(first_match(self.content@, self.find_text@, n as int, n as int)
                            is None);
                        assert(first_match(self.content@, self.find_text@, n + 1, n as int)
                            is None);
                    }
                }
                (start, forward_from)
            },
            None => (0, 0),
        };
        match find_match(self.content.as_str(), self.find_text.as_str(), forward_from, n) {
            Some(i) => {
                self.cursor_position = Some(i);
            },
            None => {
                match find_match(self.content.as_str(), self.find_text.as_str(), 0, start) {
                    Some(i) => {
                        self.cursor_position = Some(i);
                    },
                    None => {},
                }
            },
        }
    }

    /// The Replace command: fires only when the find text stands in the
    /// buffer exactly at the cursor; that span is replaced, the cursor moves
    /// just past the inserted text, and the buffer counts as modified.
    /// With an empty find text, no cursor, or no match at the cursor,
    /// nothing happens.
    pub fn replace_current(&mut self)
        ensures
            old(self).find_text@.len() == 0 || old(self).cursor_position is None ==> *final(self)
                == *old(self),
            old(self).cursor_position matches Some(p) ==> old(self).find_text@.len() > 0 ==> {
                if is_match_at(old(self).content@, old(self).find_text@, p as int) {
                    &&& final(self).content@ == old(self).content@.subrange(0, p as int) + old(
                        self,
                    ).replace_text@ + old(self).content@.skip(p + old(self).find_text@.len())
                    &&& final(self).cursor_position == Some(
                        (p + old(self).replace_text@.len()) as usize,
                    )
                    &&& final(self).is_modified
                    &&& *final(self) == (DNotepadX {
                        content: final(self).content,
                        cursor_position: final(self).cursor_position,
                        is_modified: true,
                        ..*old(self)
                    })
                } else {
                    *final(self) == *old(self)
                }
            },
    {
        let m = self.find_text.as_str().unicode_len();
        if m == 0 {
            return;
        }
        let p = match self.cursor_position {
            Some(p) => p,
            None => {
                return;
            },
        };
        let n = self.content.as_str().unicode_len();
        if m <= n && p <= n - m {
            if match_at(self.content.as_str(), self.find_text.as_str(), p, n, m) {
                let rep_len = self.replace_text.as_str().unicode_len();
                let newc = splice(self.content.as_str(), p, p + m, self.replace_text.as_str());
                let new_len = newc.as_str().unicode_len();
                proof {
                    assert(new_len == n - m + rep_len);
                    assert(p + rep_len <= new_len);
                }
                self.content = newc;
                self.cursor_position = Some(p + rep_len);
                self.is_modified = true;
            }
        } else {
            proof {
                assert(!is_match_at(self.content@, self.find_text@, p as int));
            }
        }
    }

    /// The Replace-All command: with an empty find text nothing happens;
    /// otherwise every non-overlapping occurrence is replaced in one pass
    /// from the left, and the buffer counts as modified exactly when its
    /// text changed.
    pub fn replace_all(&mut self)
        ensures
            old(self).find_text@.len() == 0 ==> *final(self) == *old(self),
            old(self).find_text@.len() > 0 ==> {
                let newc = replace_all_spec(
                    old(self).content@,
                    old(self).find_text@,
                    old(self).replace_text@,
                );
                &&& final(self).content@ == newc
                &&& final(self).is_modified == (old(self).is_modified || newc != old(
                    self,
                ).content@)
                &&& *final(self) == (DNotepadX {
                    content: final(self).content,
                    is_modified: final(self).is_modified,
                    ..*old(self)
                })
            },
    {
        let m = self.find_text.as_str().unicode_len();
        if m == 0 {
            return;
        }
        let newc = replace_all_text(
            self.content.as_str(),
            self.find_text.as_str(),
            self.replace_text.as_str(),
        );
        if !(newc == self.content) {
            self.content = newc;
            self.is_modified = true;
        }
    }

    /// Selects a palette from the menu: it is committed at once and the
    /// staged palette follows it.
    pub fn set_theme(&mut self, theme: Theme)
        ensures
            *final(self) == (DNotepadX {
                settings: Settings { theme, ..old(self).settings },
                temp_theme: theme,
                ..*old(self)
            }),
    {
        self.settings.theme = theme;
        self.temp_theme = theme;
    }

    /// The settings panel's Apply: commits all four staged preference
    /// fields into the settings.
    pub fn apply_settings(&mut self)
        ensures
            *final(self) == (DNotepadX { settings: final(self).settings, ..*old(self) }),
            final(self).settings == (Settings {
                theme: old(self).temp_theme,
                font_family: old(self).temp_font_family,
                font_size_bits: old(self).temp_font_size_bits,
                word_wrap: old(self).temp_word_wrap,
                ..old(self).settings
            }),
    {
        self.settings.theme = self.temp_theme;
        self.settings.font_family = self.temp_font_family.clone();
        self.settings.font_size_bits = self.temp_font_size_bits;
        self.settings.word_wrap = self.temp_word_wrap;
    }

    /// The settings panel's Cancel: the staged fields fall back to the
    /// committed settings and the panel closes.
    pub fn cancel_settings(&mut self)
        ensures
            *final(self) == (DNotepadX {
                temp_theme: old(self).settings.theme,
                temp_font_family: old(self).settings.font_family,
                temp_font_size_bits: old(self).settings.font_size_bits,
                temp_word_wrap: old(self).settings.word_wrap,
                show_settings: false,
                ..*old(self)
            }),
    {
        self.temp_theme = self.settings.theme;
        self.temp_font_family = self.settings.font_family.clone();
        self.temp_font_size_bits = self.settings.font_size_bits;
        self.temp_word_wrap = self.settings.word_wrap;
        self.show_settings = false;
    }

    /// The settings panel's Reset-to-Default: only the staged fields go
    /// back to the defaults; the committed settings and the panel's
    /// visibility stay as they are.
    pub fn reset_temp_settings(&mut self)
        ensures
            final(self).temp_theme == crate::theme::spec_classic_theme(),
            final(self).temp_font_family@ == "Consolas"@,
            final(self).temp_font_size_bits == crate::settings::DEFAULT_FONT_SIZE_BITS,
            final(self).temp_word_wrap,
            *final(self) == (DNotepadX {
                temp_theme: final(self).temp_theme,
                temp_font_family: final(self).temp_font_family,
                temp_font_size_bits: crate::settings::DEFAULT_FONT_SIZE_BITS,
                temp_word_wrap: true,
                ..*old(self)
            }),
    {
        self.temp_theme = Theme::default();
        self.temp_font_family = "Consolas".to_owned();
        self.temp_font_size_bits = crate::settings::DEFAULT_FONT_SIZE_BITS;
        self.temp_word_wrap = true;
    }
}

} // verus!
