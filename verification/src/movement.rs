//! Cursor movement: line by line, to a line with the line centred
//! ("overscroll", which may leave blank rows above the first line or below
//! the last), by half pages and pages, and to a given position.

use vstd::prelude::*;
use crate::core_types::ViewMode;
use crate::editor::{Editor, RenderState, sat_sub};
use crate::keys::{Key, KeyCode};
use crate::text::{is_whitespace, spec_is_whitespace};

verus! {

/// The index of the first non-whitespace character of `s` at or after
/// `i`, if there is one.
pub open spec fn non_ws_from(s: Seq<char>, i: nat) -> Option<nat>
    decreases s.len() - i,
{
    if i >= s.len() {
        None
    } else if !spec_is_whitespace(s[i as int]) {
        Some(i)
    } else {
        non_ws_from(s, i + 1)
    }
}

/// What `non_ws_from` finds is a non-whitespace character at or after `i`,
/// and all before it from `i` on are whitespace; when it finds none, all
/// characters from `i` on are whitespace.
pub proof fn lemma_non_ws_from(s: Seq<char>, i: nat)
    ensures
        non_ws_from(s, i) matches Some(k) ==> i <= k < s.len() && !spec_is_whitespace(s[k as int])
            && forall|j: int| i <= j < k ==> spec_is_whitespace(s[j]),
        non_ws_from(s, i) is None ==> forall|j: int| i <= j < s.len() ==> spec_is_whitespace(s[j]),
    decreases s.len() - i,
{
    if i < s.len() && spec_is_whitespace(s[i as int]) {
        lemma_non_ws_from(s, i + 1);
    }
}

/// The index of the first non-whitespace character of `s`, or 0 when
/// there is none.
pub open spec fn first_non_ws(s: Seq<char>) -> nat {
    match non_ws_from(s, 0) {
        Some(i) => i,
        None => 0,
    }
}

/// `min(a + b, m)`.
pub open spec fn add_capped(a: usize, b: usize, m: usize) -> usize {
    if a + b <= m {
        (a + b) as usize
    } else {
        m
    }
}

/// The offset and cursor row that show document line `line` in the middle
/// of a viewport `vh` rows high, or at its own row near the top; the row
/// stays inside the viewport.
pub open spec fn overscroll_position(line: usize, vh: usize) -> (usize, usize) {
    let c = vh / 2;
    let (o, y) = if line < c {
        (0usize, line)
    } else {
        ((line - c) as usize, c)
    };
    (o, if y > sat_sub(vh, 1) {
        sat_sub(vh, 1)
    } else {
        y
    })
}

/// The offset and cursor row with which `center_cursor_with_overscroll`
/// shows document line `line` of `total` in a text area `ch` rows high.
pub open spec fn centered_position(line: usize, total: usize, ch: usize, overscroll: bool) -> (usize, usize) {
    let c = ch / 2;
    if overscroll {
        if line < c {
            (0usize, line)
        } else {
            ((line - c) as usize, c)
        }
    } else {
        let (o, y) = if line < c {
            (0usize, line)
        } else if line >= sat_sub(total, c) {
            if total > ch {
                ((total - ch) as usize, (line - (total - ch)) as usize)
            } else {
                (0usize, line)
            }
        } else {
            ((line - c) as usize, c)
        };
        (if o + ch > total {
            sat_sub(total, ch)
        } else {
            o
        }, y)
    }
}

/// `min(a + b, m)` without overflow.
pub fn add_capped_exec(a: usize, b: usize, m: usize) -> (r: usize)
    ensures
        r == add_capped(a, b, m),
{
    if b <= m && a <= m - b {
        a + b
    } else {
        m
    }
}

/// The index of the first non-whitespace character of `s` at or after
/// `from`, if there is one.
pub fn non_ws_index_from(s: &str, from: usize) -> (r: Option<usize>)
    ensures
        r matches Some(i) ==> non_ws_from(s@, from as nat) == Some(i as nat),
        r is None ==> non_ws_from(s@, from as nat) is None,
{
    let n = s.unicode_len();
    let mut i: usize = from;
    while i < n
        invariant
            n == s@.len(),
            from <= i,
            non_ws_from(s@, from as nat) == non_ws_from(s@, i as nat),
        decreases n - i,
    {
        if !is_whitespace(s.get_char(i)) {
            return Some(i);
        }
        i = i + 1;
    }
    proof {
        lemma_non_ws_from(s@, from as nat);
    }
    None
}

/// The index of the first non-whitespace character of `s` (see
/// `first_non_ws`).
pub fn first_non_ws_index(s: &str) -> (r: usize)
    ensures
        r == first_non_ws(s@),
{
    proof {
        lemma_non_ws_from(s@, 0);
    }
    match non_ws_index_from(s, 0) {
        Some(i) => i,
        None => 0,
    }
}

impl Editor {
    /// The document line of the cursor, computed exactly.
    pub open spec fn current_line(self) -> int {
        self.offset + self.cursor_y
    }

    /// The last line of the document (0 for an empty one).
    pub open spec fn last_line(self) -> usize {
        sat_sub(self.total_lines, 1)
    }

    /// Whether `post` is this editor moved to line `target` (kept inside
    /// the document) with the line centred in the active view, the cursor
    /// on its first non-blank character, the position saved to the active
    /// buffer in a split, and a redraw requested.
    pub open spec fn went_to_line(self, target: usize, post: Editor) -> bool {
        let t = if target <= self.last_line() {
            target
        } else {
            self.last_line()
        };
        let (o, y) = overscroll_position(t, self.effective_viewport_height());
        let moved = Editor { offset: o, cursor_y: y, ..self };
        let x = if t < self.lines@.len() {
            first_non_ws(self.lines@[t as int]@) as usize
        } else {
            0usize
        };
        &&& post.buffers@ == (if self.view_mode == ViewMode::HorizontalSplit {
            moved.saved_buffers()
        } else {
            self.buffers@
        })
        &&& post == (Editor {
            offset: o,
            cursor_y: y,
            cursor_x: x,
            buffers: post.buffers,
            render: RenderState { needs_redraw: true, ..self.render },
            ..self
        })
    }

    /// Whether `post` is this editor moved to `(line, col)`: to the line as
    /// `went_to_line` says when it is another line, then to the column,
    /// with a redraw requested.
    pub open spec fn moved_to(self, line: usize, col: usize, post: Editor) -> bool {
        if line != self.current_line() {
            exists|via: Editor|
                #[trigger] self.went_to_line(line, via) && post == (Editor {
                    cursor_x: col,
                    render: RenderState { needs_redraw: true, cursor_moved: true, ..via.render },
                    ..via
                })
        } else {
            post == (Editor {
                cursor_x: col,
                render: RenderState { needs_redraw: true, cursor_moved: true, ..self.render },
                ..self
            })
        }
    }

    /// The `(line, 0)` at the top (`H`), middle (`M`) or bottom (`L`) of
    /// the screen, kept inside the document; for any other character the
    /// cursor's position.
    pub open spec fn screen_position_spec(self, position: char) -> (usize, usize) {
        (match position {
            'H' => (self.offset, 0usize),
            'M' => (
                add_capped(
                    self.offset,
                    self.content_height() / 2,
                    sat_sub(self.lines@.len() as usize, 1),
                ),
                0usize,
            ),
            'L' => (
                add_capped(
                    self.offset,
                    sat_sub(self.content_height(), 1),
                    sat_sub(self.lines@.len() as usize, 1),
                ),
                0usize,
            ),
            _ => (self.cursor_line(), self.cursor_x),
        })
    }

    /// Half the active view, at least one line.
    pub open spec fn half_page(self) -> usize {
        if self.effective_viewport_height() / 2 >= 1 {
            self.effective_viewport_height() / 2
        } else {
            1
        }
    }

    /// Whether `post` is this editor gone to line `target` for a page
    /// move: unchanged when that is the cursor's line.
    pub open spec fn paged_to(self, target: usize, post: Editor) -> bool {
        if target == self.current_line() {
            post == self
        } else {
            self.went_to_line(target, post)
        }
    }

    /// The column kept on line `line`: at most the line's last character.
    pub open spec fn column_on(self, line: usize) -> usize {
        if line < self.lines@.len() {
            let w = sat_sub(self.lines@[line as int]@.len() as usize, 1);
            if self.cursor_x <= w {
                self.cursor_x
            } else {
                w
            }
        } else {
            self.cursor_x
        }
    }

    /// Whether `post` is this editor with the cursor moved to line `line`,
    /// one away from its line, centred in the text area.
    pub open spec fn stepped_to(self, line: usize, post: Editor) -> bool {
        let (o, y) = overscroll_position(line, self.content_height());
        post == (Editor {
            offset: o,
            cursor_y: y,
            cursor_x: self.column_on(line),
            render: RenderState { needs_redraw: true, cursor_moved: true, ..self.render },
            ..self
        })
    }
}

impl Editor {
    /// Goes to line `target_line`, centring it (see `went_to_line`).
    pub fn goto_line_with_overscroll(&mut self, target_line: usize)
        ensures
            old(self).went_to_line(target_line, *final(self)),
    {
        let last = if self.total_lines >= 1 {
            self.total_lines - 1
        } else {
            0
        };
        let t = if target_line <= last {
            target_line
        } else {
            last
        };
        let vh = self.get_effective_viewport_height();
        let c = vh / 2;
        if t < c {
            self.offset = 0;
            self.cursor_y = t;
        } else {
            self.offset = t - c;
            self.cursor_y = c;
        }
        let max_y = if vh >= 1 {
            vh - 1
        } else {
            0
        };
        if self.cursor_y > max_y {
            self.cursor_y = max_y;
        }
        if self.view_mode == ViewMode::HorizontalSplit {
            self.save_current_buffer_state();
        }
        self.mark_dirty();
        self.cursor_x = 0;
        if t < self.lines.len() {
            self.cursor_x = first_non_ws_index(self.lines[t].as_str());
        }
    }

    /// Moves the cursor down one line, centring it; on the last line
    /// nothing changes (see `stepped_to`).
    pub fn move_cursor_down(&mut self)
        ensures
            old(self).current_line() >= old(self).last_line() ==> *final(self) == *old(self),
            old(self).current_line() < old(self).last_line() ==> old(self).stepped_to(
                (old(self).current_line() + 1) as usize,
                *final(self),
            ),
    {
        let last = if self.total_lines >= 1 {
            self.total_lines - 1
        } else {
            0
        };
        if self.offset >= last || self.cursor_y >= last - self.offset {
            return ;
        }
        let new_line = self.offset + self.cursor_y + 1;
        self.step_to(new_line);
    }

    /// Moves the cursor up one line, centring it; on the first line
    /// nothing changes (see `stepped_to`).
    pub fn move_cursor_up(&mut self)
        requires
            old(self).current_line() <= usize::MAX,
        ensures
            old(self).current_line() == 0 ==> *final(self) == *old(self),
            old(self).current_line() > 0 ==> old(self).stepped_to(
                (old(self).current_line() - 1) as usize,
                *final(self),
            ),
    {
        let current = self.offset + self.cursor_y;
        if current == 0 {
            return ;
        }
        self.step_to(current - 1);
    }

    /// Puts the cursor on `line`, centred (see `stepped_to`).
    fn step_to(&mut self, line: usize)
        ensures
            old(self).stepped_to(line, *final(self)),
    {
        self.render.cursor_moved = true;
        let vh = if self.height >= 1 {
            self.height - 1
        } else {
            0
        };
        let c = vh / 2;
        if line < c {
            self.offset = 0;
            self.cursor_y = line;
        } else {
            self.offset = line - c;
            self.cursor_y = c;
        }
        let max_y = if vh >= 1 {
            vh - 1
        } else {
            0
        };
        if self.cursor_y > max_y {
            self.cursor_y = max_y;
        }
        if line < self.lines.len() {
            let n = self.lines[line].as_str().unicode_len();
            let w = if n >= 1 {
                n - 1
            } else {
                0
            };
            if self.cursor_x > w {
                self.cursor_x = w;
            }
        }
        self.mark_dirty();
    }

    /// Moves the cursor one character left, if it is not in the first
    /// column.
    pub fn move_cursor_left(&mut self)
        ensures
            old(self).cursor_x == 0 ==> *final(self) == *old(self),
            old(self).cursor_x > 0 ==> *final(self) == (Editor {
                cursor_x: (old(self).cursor_x - 1) as usize,
                render: RenderState { needs_redraw: true, cursor_moved: true, ..old(self).render },
                ..*old(self)
            }),
    {
        if self.cursor_x > 0 {
            self.cursor_x = self.cursor_x - 1;
            self.render.cursor_moved = true;
            self.mark_dirty();
        }
    }

    /// Moves the cursor one character right, if that keeps it on its
    /// line's characters.
    pub fn move_cursor_right(&mut self)
        ensures
            ({
                let l = old(self).current_line();
                if l < old(self).lines@.len() && old(self).cursor_x + 1 < old(self).lines@[l]@.len() {
                    *final(self) == (Editor {
                        cursor_x: (old(self).cursor_x + 1) as usize,
                        render: RenderState {
                            needs_redraw: true,
                            cursor_moved: true,
                            ..old(self).render
                        },
                        ..*old(self)
                    })
                } else {
                    *final(self) == *old(self)
                }
            }),
    {
        let n = self.lines.len();
        if self.offset < n && self.cursor_y < n - self.offset {
            let idx = self.offset + self.cursor_y;
            let len = self.lines[idx].as_str().unicode_len();
            if len >= 1 && self.cursor_x < len - 1 {
                self.cursor_x = self.cursor_x + 1;
                self.render.cursor_moved = true;
                self.mark_dirty();
            }
        }
    }

    /// Moves to `(target_line, target_col)`: to the line as
    /// `goto_line_with_overscroll` does when it is another line, then to
    /// the column.
    pub fn move_to_position(&mut self, target_line: usize, target_col: usize)
        ensures
            old(self).moved_to(target_line, target_col, *final(self)),
    {
        let same = self.offset <= target_line && self.cursor_y == target_line - self.offset;
        if !same {
            self.goto_line_with_overscroll(target_line);
        }
        let ghost via = *self;
        self.cursor_x = target_col;
        self.render.cursor_moved = true;
        self.mark_dirty();
    }

    /// Moves half a view up (at least one line), centring the line.
    pub fn half_page_up(&mut self)
        requires
            old(self).current_line() <= usize::MAX,
        ensures
            old(self).went_to_line(
                sat_sub(old(self).current_line() as usize, old(self).half_page()),
                *final(self),
            ),
    {
        let current = self.offset + self.cursor_y;
        let vh = self.get_effective_viewport_height();
        let half = if vh / 2 >= 1 {
            vh / 2
        } else {
            1
        };
        let target = if current >= half {
            current - half
        } else {
            0
        };
        self.goto_line_with_overscroll(target);
    }

    /// Moves half a view down (at least one line), centring the line.
    pub fn half_page_down(&mut self)
        requires
            old(self).current_line() <= usize::MAX,
        ensures
            old(self).went_to_line(
                add_capped(
                    old(self).current_line() as usize,
                    old(self).half_page(),
                    old(self).last_line(),
                ),
                *final(self),
            ),
    {
        let current = self.offset + self.cursor_y;
        let vh = self.get_effective_viewport_height();
        let half = if vh / 2 >= 1 {
            vh / 2
        } else {
            1
        };
        let last = if self.total_lines >= 1 {
            self.total_lines - 1
        } else {
            0
        };
        let target = add_capped_exec(current, half, last);
        self.goto_line_with_overscroll(target);
    }

    /// Shows the cursor's line (kept inside the document) in the middle of
    /// the text area (see `centered_position`), and asks for a redraw.
    #[verifier::rlimit(30)]
    pub fn center_cursor_with_overscroll(&mut self, allow_overscroll: bool)
        requires
            old(self).current_line() <= usize::MAX,
        ensures
            ({
                let l = if old(self).current_line() <= old(self).last_line() {
                    old(self).current_line() as usize
                } else {
                    old(self).last_line()
                };
                let (o, y) = centered_position(
                    l,
                    old(self).total_lines,
                    old(self).content_height(),
                    allow_overscroll,
                );
                *final(self) == (Editor {
                    offset: o,
                    cursor_y: y,
                    render: RenderState { needs_redraw: true, ..old(self).render },
                    ..*old(self)
                })
            }),
    {
        let last = if self.total_lines >= 1 {
            self.total_lines - 1
        } else {
            0
        };
        let current = self.offset + self.cursor_y;
        let current = if current <= last {
            current
        } else {
            last
        };
        let ch = if self.height >= 1 {
            self.height - 1
        } else {
            0
        };
        let c = ch / 2;
        if allow_overscroll {
            if current < c {
                self.offset = 0;
                self.cursor_y = current;
            } else {
                self.offset = current - c;
                self.cursor_y = c;
            }
        } else {
            let total = self.total_lines;
            let near_end = if total >= c {
                total - c
            } else {
                0
            };
            if current < c {
                self.offset = 0;
                self.cursor_y = current;
            } else if current >= near_end {
                if total > ch {
                    self.offset = total - ch;
                    self.cursor_y = current - self.offset;
                } else {
                    self.offset = 0;
                    self.cursor_y = current;
                }
            } else {
                self.offset = current - c;
                self.cursor_y = c;
            }
            if self.offset > total || ch > total - self.offset {
                self.offset = if total >= ch {
                    total - ch
                } else {
                    0
                };
            }
        }
        self.mark_dirty();
    }

    /// Centres the cursor's line, allowing blank rows past either end.
    pub fn center_cursor(&mut self)
        requires
            old(self).current_line() <= usize::MAX,
        ensures
            ({
                let l = if old(self).current_line() <= old(self).last_line() {
                    old(self).current_line() as usize
                } else {
                    old(self).last_line()
                };
                let (o, y) = centered_position(
                    l,
                    old(self).total_lines,
                    old(self).content_height(),
                    true,
                );
                *final(self) == (Editor {
                    offset: o,
                    cursor_y: y,
                    render: RenderState { needs_redraw: true, ..old(self).render },
                    ..*old(self)
                })
            }),
    {
        self.center_cursor_with_overscroll(true)
    }

    /// The `(line, 0)` at the top (`H`), middle (`M`) or bottom (`L`) of
    /// the screen, kept inside the document; for any other character the
    /// cursor's position.
    pub fn get_screen_position(&self, position: char) -> (r: (usize, usize))
        ensures
            r == self.screen_position_spec(position),
    {
        let vh = if self.height >= 1 {
            self.height - 1
        } else {
            0
        };
        let last = if self.lines.len() >= 1 {
            self.lines.len() - 1
        } else {
            0
        };
        match position {
            'H' => (self.offset, 0),
            'M' => (add_capped_exec(self.offset, vh / 2, last), 0),
            'L' => {
                let below = if vh >= 1 {
                    vh - 1
                } else {
                    0
                };
                (add_capped_exec(self.offset, below, last), 0)
            },
            _ => self.get_cursor_position(),
        }
    }

    /// Whether `r` and `post` are what `handle_page_navigation` gives for `key`.
    pub open spec fn page_key_done(self, key: Key, r: Option<bool>, post: Editor) -> bool {
        &&& (r == (if key.code == KeyCode::PageDown || key.code == KeyCode::PageUp || (key.ctrl && (
                key.code == KeyCode::Char('u') || key.code == KeyCode::Char('d'))) {
                    Some(false)
                } else {
                    None
                }))
        &&& (r is None ==> post == self)
        &&& (key.code == KeyCode::PageDown ==> self.paged_to(
                    add_capped(
                        self.current_line() as usize,
                        sat_sub(self.content_height(), 3),
                        self.last_line(),
                    ),
                    post,
                ))
        &&& (key.code == KeyCode::PageUp ==> self.paged_to(
                    sat_sub(self.current_line() as usize, sat_sub(self.content_height(), 3)),
                    post,
                ))
        &&& (key.ctrl && key.code == KeyCode::Char('u') ==> self.went_to_line(
                    sat_sub(self.current_line() as usize, self.half_page()),
                    post,
                ))
        &&& (key.ctrl && key.code == KeyCode::Char('d') ==> self.went_to_line(
                    add_capped(
                        self.current_line() as usize,
                        self.half_page(),
                        self.last_line(),
                    ),
                    post,
                ))
    }

    /// Page Down and Page Up move by the text area less three lines of
    /// overlap, centring the line; Control-U and Control-D move by half a
    /// view. Returns `Some(false)` for these keys and `None`, changing
    /// nothing, for any other.
    pub fn handle_page_navigation(&mut self, key: Key) -> (r: Option<bool>)
        requires
            old(self).current_line() <= usize::MAX,
        ensures
            old(self).page_key_done(key, r, *final(self)),
    {
        let vh = if self.height >= 1 {
            self.height - 1
        } else {
            0
        };
        let page = if vh >= 3 {
            vh - 3
        } else {
            0
        };
        if key.code == KeyCode::PageDown {
            let current = self.offset + self.cursor_y;
            let last = if self.total_lines >= 1 {
                self.total_lines - 1
            } else {
                0
            };
            let target = add_capped_exec(current, page, last);
            if target != current {
                self.goto_line_with_overscroll(target);
            }
            Some(false)
        } else if key.code == KeyCode::PageUp {
            let current = self.offset + self.cursor_y;
            let target = if current >= page {
                current - page
            } else {
                0
            };
            if target != current {
                self.goto_line_with_overscroll(target);
            }
            Some(false)
        } else if key.ctrl && key.code == KeyCode::Char('u') {
            self.half_page_up();
            Some(false)
        } else if key.ctrl && key.code == KeyCode::Char('d') {
            self.half_page_down();
            Some(false)
        } else {
            None
        }
    }
}

impl Editor {
    /// Moves to `target`, the `(line, column)` a word motion found: onto
    /// the line (scrolling it into the view if needed) and column, then the
    /// line is centred as `center_cursor` does. As that centring depends on
    /// the line alone, the view ends up as centring on the target line
    /// (kept inside the document) gives it.
    pub fn move_to_word_boundary(&mut self, target: (usize, usize))
        requires
            old(self).current_line() <= usize::MAX,
        ensures
            ({
                let l = if target.0 <= old(self).last_line() {
                    target.0
                } else {
                    old(self).last_line()
                };
                let (o, y) = centered_position(l, old(self).total_lines, old(self).content_height(), true);
                *final(self) == (Editor {
                    offset: o,
                    cursor_y: y,
                    cursor_x: target.1,
                    render: RenderState { needs_redraw: true, ..old(self).render },
                    ..*old(self)
                })
            }),
    {
        let (new_line, new_col) = target;
        let current = self.offset + self.cursor_y;
        if new_line != current {
            let th: usize = if self.height >= 1 {
                self.height - 1
            } else {
                0
            };
            let vh = if self.view_mode == ViewMode::HorizontalSplit {
                let top = crate::split::split_top_rows(self.height, self.settings.split_ratio_percent);
                if self.active_pane == 0 {
                    top
                } else {
                    let rest = th - top;
                    if rest >= 1 {
                        rest - 1
                    } else {
                        0
                    }
                }
            } else {
                th
            };
            let c = vh / 2;
            if new_line >= self.offset && new_line - self.offset < vh {
                self.cursor_y = new_line - self.offset;
            } else if new_line < c {
                self.offset = 0;
                self.cursor_y = new_line;
            } else {
                self.offset = new_line - c;
                self.cursor_y = c;
            }
        }
        self.cursor_x = new_col;
        self.center_cursor_with_overscroll(true);
        self.mark_dirty();
    }
}

} // verus!