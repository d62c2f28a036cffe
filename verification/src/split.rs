//! The horizontal split: the document (or the tutorial) above, the output of
//! a command below.

use vstd::prelude::*;
use crate::buffers::loaded_position;
use crate::core_types::{
    BufferState, BufferView, EditorMode, EditorStateView, SplitPosition, ViewMode,
};
use crate::editor::{Editor, RenderState, sat_sub};
use crate::justify::strings_view;
use crate::overlay::buffer_views;
use crate::text::string_of;

verus! {

/// The rows of the top pane: the given percentage, at most 100, of the
/// text area, rounded down.
pub open spec fn split_top(height: usize, percent: usize) -> usize {
    let p = if percent <= 100 {
        percent
    } else {
        100
    };
    (sat_sub(height, 1) * p / 100) as usize
}

/// The rows of the bottom pane: the rest of the text area.
pub open spec fn split_bottom(height: usize, percent: usize) -> usize {
    sat_sub(sat_sub(height, 1), split_top(height, percent))
}

/// The command buffer of a split, refreshed to show `lines` for `cmd` from
/// the top in a pane `bottom` rows high.
pub open spec fn refreshed_split(b: BufferView, cmd: Seq<char>, lines: Seq<Seq<char>>, bottom: usize) -> BufferView {
    BufferView {
        lines,
        command: Some(cmd),
        offset: 0,
        cursor_x: 0,
        cursor_y: 0,
        viewport_height: bottom,
        split_height: Some(bottom),
        is_split_buffer: true,
        split_position: SplitPosition::Bottom,
        ..b
    }
}

/// A new command buffer of a split (see `refreshed_split`), at overlay
/// level 2 above the tutorial and 1 otherwise.
pub open spec fn fresh_split(cmd: Seq<char>, lines: Seq<Seq<char>>, bottom: usize, level: usize) -> BufferView {
    BufferView {
        overlay_level: level,
        ..refreshed_split(BufferState::new_view(lines), cmd, lines, bottom)
    }
}

impl Editor {
    /// Whether the split is made under the tutorial: the tutorial is
    /// running and its overlay is open.
    pub open spec fn split_over_tutorial(self) -> bool {
        self.tutorial.active && self.buffers@.len() > 1
    }

    /// The buffer that a new split shows its command output in: 2 under
    /// the tutorial, 1 otherwise.
    pub open spec fn split_command_index(self) -> usize {
        if self.split_over_tutorial() {
            2
        } else {
            1
        }
    }

    /// The saved buffers with the top buffer (the tutorial or the
    /// document) given the top pane.
    pub open spec fn top_pane_buffers(self) -> Seq<BufferView> {
        let saved = buffer_views(self.saved_buffers());
        let top = split_top(self.height, self.settings.split_ratio_percent);
        let top_idx: int = if self.split_over_tutorial() {
            1
        } else {
            0
        };
        if top_idx < saved.len() {
            saved.update(
                top_idx,
                BufferView {
                    viewport_height: top,
                    split_height: Some(top),
                    split_position: SplitPosition::Top,
                    ..saved[top_idx]
                },
            )
        } else {
            saved
        }
    }

    /// The buffers once a split shows `lines` for `cmd`, before the mode of
    /// the command buffer is reset: the active buffer saved, the top
    /// buffer given the top pane (see `top_pane_buffers`), and the command
    /// buffer refreshed, or added with copies to fill any gap.
    pub open spec fn split_buffers(self, cmd: Seq<char>, lines: Seq<Seq<char>>) -> Seq<BufferView> {
        let bottom = split_bottom(self.height, self.settings.split_ratio_percent);
        let ci = self.split_command_index();
        let with_top = self.top_pane_buffers();
        if with_top.len() > ci {
            with_top.update(ci as int, refreshed_split(with_top[ci as int], cmd, lines, bottom))
        } else {
            let f = fresh_split(
                cmd,
                lines,
                bottom,
                if ci == 2 {
                    2
                } else {
                    1
                },
            );
            with_top + Seq::new((ci + 1 - with_top.len()) as nat, |i: int| f)
        }
    }

    /// Whether `post` is this editor showing a split with the output
    /// `lines` of `cmd` below: the command buffer active in the bottom pane
    /// in normal mode, its text loaded from the top, the command line
    /// cleared.
    pub open spec fn shows_split(self, cmd: Seq<char>, lines: Seq<Seq<char>>, post: Editor) -> bool {
        let sb = self.split_buffers(cmd, lines);
        let ci = self.split_command_index();
        let b = sb[ci as int];
        &&& buffer_views(post.buffers@) == sb.update(
            ci as int,
            BufferView { mode: EditorMode::Normal, ..b },
        )
        &&& strings_view(post.lines@) == lines
        &&& post.editor_state@ == (EditorStateView {
            search_query: b.search_query,
            current_match: b.current_match,
            selection_start: b.selection_start,
            selection_end: b.selection_end,
            mode: EditorMode::Normal,
            command_buffer: seq![],
            command_cursor_pos: 0,
            ..self.editor_state@
        })
        &&& post == (Editor {
            lines: post.lines,
            total_lines: lines.len() as usize,
            offset: 0,
            cursor_x: 0,
            cursor_y: 0,
            editor_state: post.editor_state,
            buffers: post.buffers,
            active_buffer: ci,
            view_mode: ViewMode::HorizontalSplit,
            active_pane: 1,
            ..self
        })
    }

    /// Whether `post` is this editor with the split closed: the command
    /// buffer dropped, the tutorial (when it had been split) or else the
    /// document given the whole text area again and loaded.
    pub open spec fn split_closed(self, post: Editor) -> bool {
        let n = self.buffers@.len();
        let over_tutorial = self.tutorial.active && n > 2;
        let bs = if over_tutorial || n > 1 {
            self.buffers@.drop_last()
        } else {
            self.buffers@
        };
        let r: usize = if over_tutorial {
            1
        } else {
            0
        };
        let restored = if r < bs.len() {
            bs.update(
                r as int,
                BufferState {
                    viewport_height: sat_sub(self.height, 1),
                    split_height: None,
                    ..bs[r as int]
                },
            )
        } else {
            bs
        };
        let mid = Editor {
            buffers: post.buffers,
            active_buffer: r,
            active_pane: 0,
            view_mode: if r == 1 {
                ViewMode::Overlay
            } else {
                ViewMode::Normal
            },
            render: RenderState { buffer_just_switched: true, ..self.render },
            ..self
        };
        &&& post.buffers@ == restored
        &&& (r < restored.len() ==> mid.loaded_from(restored[r as int], post))
        &&& (r >= restored.len() ==> post == mid)
    }

    /// The buffer shown in `pane` of a split: under the tutorial the
    /// tutorial above and the command output below, otherwise buffer
    /// `pane`.
    pub open spec fn pane_buffer(self, pane: usize) -> usize {
        if self.tutorial.active && self.buffers@.len() > 2 {
            if pane == 0 {
                1
            } else {
                2
            }
        } else {
            pane
        }
    }

    /// Whether `post` is this editor with the focus moved to `pane` of the
    /// split: the active buffer saved, the pane's buffer loaded, and a
    /// redraw requested.
    pub open spec fn pane_switched(self, pane: usize, post: Editor) -> bool {
        let saved = self.saved_buffers();
        let idx = self.pane_buffer(pane);
        let mid = Editor {
            buffers: post.buffers,
            active_buffer: idx,
            active_pane: pane,
            render: RenderState {
                needs_redraw: true,
                cursor_moved: true,
                buffer_just_switched: true,
                ..self.render
            },
            ..self
        };
        &&& post.buffers@ == saved
        &&& (idx < saved.len() ==> mid.loaded_from(saved[idx as int], post))
        &&& (idx >= saved.len() ==> post == mid)
    }
}

/// The top pane's rows: a share of the text area.
pub(crate) fn split_top_rows(height: usize, percent: usize) -> (top: usize)
    ensures
        top == split_top(height, percent),
        top <= sat_sub(height, 1),
{
    let th: usize = if height >= 1 {
        height - 1
    } else {
        0
    };
    let p: usize = if percent <= 100 {
        percent
    } else {
        100
    };
    assert((th as u128) * (p as u128) <= 0xffff_ffff_ffff_ffffu128 * 100) by (nonlinear_arith)
        requires
            th <= 0xffff_ffff_ffff_ffffu128,
            p <= 100,
    ;
    let wide: u128 = (th as u128) * (p as u128) / 100;
    assert(wide <= th) by (nonlinear_arith)
        requires
            wide == (th as u128) * (p as u128) / 100,
            p <= 100,
    ;
    assert(wide == th * p / 100) by (nonlinear_arith)
        requires
            wide == (th as u128) * (p as u128) / 100,
    ;
    wide as usize
}

/// Shows `lines` for `cmd` in buffer `i`, which exists already.
fn refresh_split(bs: &mut Vec<BufferState>, i: usize, cmd: &str, lines: Vec<String>, bottom: usize)
    requires
        i < old(bs)@.len(),
    ensures
        final(bs)@.len() == old(bs)@.len(),
        forall|k: int| 0 <= k < old(bs)@.len() && k != i ==> final(bs)@[k] == old(bs)@[k],
        final(bs)@[i as int]@ == refreshed_split(old(bs)@[i as int]@, cmd@, strings_view(lines@), bottom),
{
    bs[i].lines = lines;
    bs[i].command = Some(string_of(cmd));
    bs[i].offset = 0;
    bs[i].cursor_x = 0;
    bs[i].cursor_y = 0;
    bs[i].viewport_height = bottom;
    bs[i].split_height = Some(bottom);
    bs[i].is_split_buffer = true;
    bs[i].split_position = SplitPosition::Bottom;
}

/// Gives buffer `i`, if there is one, the top pane of `top` rows.
fn set_top_pane(bs: &mut Vec<BufferState>, i: usize, top: usize)
    ensures
        i < old(bs)@.len() ==> final(bs)@ == old(bs)@.update(
            i as int,
            BufferState {
                viewport_height: top,
                split_height: Some(top),
                split_position: SplitPosition::Top,
                ..old(bs)@[i as int]
            },
        ),
        i >= old(bs)@.len() ==> final(bs)@ == old(bs)@,
{
    if i < bs.len() {
        bs[i].viewport_height = top;
        bs[i].split_height = Some(top);
        bs[i].split_position = SplitPosition::Top;
    }
}

/// A new command buffer for a split (see `fresh_split`).
fn new_split(cmd: &str, lines: Vec<String>, bottom: usize, level: usize) -> (b: BufferState)
    ensures
        b@ == fresh_split(cmd@, strings_view(lines@), bottom, level),
{
    let mut b = BufferState::new(lines);
    b.command = Some(string_of(cmd));
    b.viewport_height = bottom;
    b.viewport_start = 0;
    b.overlay_level = level;
    b.split_height = Some(bottom);
    b.is_split_buffer = true;
    b.split_position = SplitPosition::Bottom;
    b
}

impl Editor {
    /// Splits the screen: the document (or, while the tutorial is open,
    /// the tutorial) above, the output `lines` of `cmd` below with the
    /// focus (see `shows_split`).
    pub fn create_horizontal_split(&mut self, cmd: &str, lines: Vec<String>)
        ensures
            old(self).shows_split(cmd@, strings_view(lines@), *final(self)),
    {
        let ghost pre = *self;
        let ghost lv = strings_view(lines@);
        self.save_current_buffer_state();
        let top = split_top_rows(self.height, self.settings.split_ratio_percent);
        let th: usize = if self.height >= 1 {
            self.height - 1
        } else {
            0
        };
        let bottom = th - top;
        let over_tutorial = self.tutorial.active && self.buffers.len() > 1;
        let top_idx: usize = if over_tutorial {
            1
        } else {
            0
        };
        set_top_pane(&mut self.buffers, top_idx, top);
        let ci: usize = if over_tutorial {
            2
        } else {
            1
        };
        let ghost with_top = buffer_views(self.buffers@);
        assert(with_top =~= pre.top_pane_buffers());
        let ghost sb = pre.split_buffers(cmd@, lv);
        if self.buffers.len() > ci {
            refresh_split(&mut self.buffers, ci, cmd, lines, bottom);
            assert(buffer_views(self.buffers@) =~= sb);
        } else {
            let level: usize = if ci == 2 {
                2
            } else {
                1
            };
            let buffer = new_split(cmd, lines, bottom, level);
            let ghost f = buffer@;
            let ghost before_loop = *self;
            while self.buffers.len() <= ci
                invariant
                    *self == (Editor { buffers: self.buffers, ..before_loop }),
                    ci <= 2,
                    self.buffers@.len() <= ci + 1,
                    self.buffers@.len() >= with_top.len(),
                    buffer@ == f,
                    buffer_views(self.buffers@) =~= with_top + Seq::new(
                        (self.buffers@.len() - with_top.len()) as nat,
                        |i: int| f,
                    ),
                decreases ci + 1 - self.buffers@.len(),
            {
                let ghost prev = self.buffers@;
                let copy = buffer.duplicate();
                self.buffers.push(copy);
                proof {
                    let k = (prev.len() - with_top.len()) as nat;
                    assert(buffer_views(self.buffers@) =~= buffer_views(prev).push(f));
                    assert(Seq::new(k + 1, |i: int| f) =~= Seq::new(k, |i: int| f).push(f));
                }
            }
            self.buffers[ci] = buffer;
            assert(self.buffers@.len() == ci + 1);
            assert(buffer_views(self.buffers@) =~= sb);
        }
        self.view_mode = ViewMode::HorizontalSplit;
        self.active_buffer = ci;
        self.active_pane = 1;
        let ghost before_load = *self;
        self.load_buffer_state(ci);
        proof {
            let b = before_load.buffers@[ci as int];
            assert(b@ == sb[ci as int]);
            assert(b.lines.len() == b.lines@.len());
            assert(loaded_position(0, 0, before_load.load_height(b), b.lines.len()) == (0usize, 0usize));
        }
        self.set_active_mode(EditorMode::Normal);
        self.editor_state.command_buffer = String::new();
        self.editor_state.command_cursor_pos = 0;
        proof {
            assert(buffer_views(self.buffers@) =~= sb.update(
                ci as int,
                BufferView { mode: EditorMode::Normal, ..sb[ci as int] },
            ));
            assert(strings_view(self.lines@).len() == self.lines@.len());
            let b = sb[ci as int];
            assert(ci == pre.split_command_index());
            assert(strings_view(self.lines@) == lv);
            assert(self.editor_state@ == (EditorStateView {
                search_query: b.search_query,
                current_match: b.current_match,
                selection_start: b.selection_start,
                selection_end: b.selection_end,
                mode: EditorMode::Normal,
                command_buffer: seq![],
                command_cursor_pos: 0,
                ..pre.editor_state@
            }));
            assert(self.total_lines == lv.len() as usize);
            assert(self.offset == 0);
            assert(self.cursor_y == 0);
            assert(self.cursor_x == 0);
        }
    }

    /// Closes the split (see `split_closed`). Returns whether the view was
    /// split.
    #[verifier::spinoff_prover]
    #[verifier::rlimit(30)]
    pub fn close_split(&mut self) -> (closed: bool)
        ensures
            closed == (old(self).view_mode == ViewMode::HorizontalSplit),
            !closed ==> *final(self) == *old(self),
            closed ==> old(self).split_closed(*final(self)),
    {
        if self.view_mode != ViewMode::HorizontalSplit {
            return false;
        }
        let over_tutorial = self.tutorial.active && self.buffers.len() > 2;
        let r: usize = if over_tutorial {
            self.buffers.pop();
            1
        } else {
            if self.buffers.len() > 1 {
                self.buffers.pop();
            }
            0
        };
        if r < self.buffers.len() {
            let h: usize = if self.height >= 1 {
                self.height - 1
            } else {
                0
            };
            self.buffers[r].viewport_height = h;
            self.buffers[r].split_height = None;
        }
        self.active_buffer = r;
        self.active_pane = 0;
        self.view_mode = if r == 1 {
            ViewMode::Overlay
        } else {
            ViewMode::Normal
        };
        self.render.buffer_just_switched = true;
        let ghost before_load = *self;
        self.load_buffer_state(r);
        proof {
            let n = old(self).buffers@.len();
            let ot = old(self).tutorial.active && n > 2;
            let bs = if ot || n > 1 { old(self).buffers@.drop_last() } else { old(self).buffers@ };
            assert(ot == over_tutorial);
            assert(before_load.buffers@ == (if r < bs.len() {
                bs.update(
                    r as int,
                    BufferState {
                        viewport_height: sat_sub(old(self).height, 1),
                        split_height: None,
                        ..bs[r as int]
                    },
                )
            } else {
                bs
            }));
        }
        true
    }

    /// Moves the focus to `pane` (0 above, 1 below) of a split (see
    /// `pane_switched`); outside a split nothing changes.
    pub fn switch_split_pane(&mut self, pane: usize)
        ensures
            old(self).view_mode != ViewMode::HorizontalSplit ==> *final(self) == *old(self),
            old(self).view_mode == ViewMode::HorizontalSplit ==> old(self).pane_switched(
                pane,
                *final(self),
            ),
    {
        if self.view_mode != ViewMode::HorizontalSplit {
            return ;
        }
        self.save_current_buffer_state();
        let idx = if self.tutorial.active && self.buffers.len() > 2 {
            if pane == 0 {
                1
            } else {
                2
            }
        } else {
            pane
        };
        self.active_buffer = idx;
        self.active_pane = pane;
        self.mark_dirty();
        self.render.cursor_moved = true;
        self.render.buffer_just_switched = true;
        self.load_buffer_state(idx);
    }
}

/// Splitting the document to show command output and closing the split
/// again gives back the document as it was shown, over the whole text
/// area: its lines, the view position and cursor, and the search,
/// selection, mode and command line, as long as the cursor lay inside the
/// text area and, for a non-empty document, on one of its lines.
pub proof fn lemma_split_round_trip(
    pre: Editor,
    cmd: Seq<char>,
    lines: Seq<Seq<char>>,
    mid: Editor,
    post: Editor,
)
    requires
        pre.buffers@.len() == 1,
        pre.active_buffer == 0,
        pre.view_mode == ViewMode::Normal,
        !pre.tutorial.active,
        pre.shows_split(cmd, lines, mid),
        mid.split_closed(post),
        pre.cursor_y < sat_sub(pre.height, 1),
        pre.offset + pre.cursor_y < pre.buffers@[0].lines@.len() || pre.buffers@[0].lines@.len()
            == 0,
    ensures
        post.view_mode == ViewMode::Normal,
        post.active_buffer == 0,
        post.active_pane == 0,
        post.buffers@.len() == 1,
        post.buffers@[0].viewport_height == sat_sub(pre.height, 1),
        post.buffers@[0].split_height.is_none(),
        strings_view(post.lines@) == strings_view(pre.buffers@[0].lines@),
        post.offset == pre.offset,
        post.cursor_x == pre.cursor_x,
        post.cursor_y == pre.cursor_y,
        post.editor_state@ == pre.editor_state@,
{
    let sb = pre.split_buffers(cmd, lines);
    assert(pre.split_command_index() == 1);
    assert(sb.len() == 2);
    assert(buffer_views(mid.buffers@).len() == mid.buffers@.len());
    assert(mid.buffers@.len() == 2);
    let b0 = mid.buffers@[0];
    assert(b0@ == buffer_views(mid.buffers@)[0]);
    let r0 = BufferState { viewport_height: sat_sub(pre.height, 1), split_height: None, ..b0 };
    assert(post.buffers@ == seq![r0]);
    let closing = Editor {
        buffers: post.buffers,
        active_buffer: 0,
        active_pane: 0,
        view_mode: ViewMode::Normal,
        render: RenderState { buffer_just_switched: true, ..mid.render },
        ..mid
    };
    assert(closing.load_height(r0) == sat_sub(pre.height, 1));
    assert(r0.lines.len() == r0.lines@.len());
    assert(strings_view(r0.lines@).len() == r0.lines@.len());
    assert(strings_view(pre.buffers@[0].lines@).len() == pre.buffers@[0].lines@.len());
    crate::buffers::lemma_load_restores_saved_position(
        pre.offset,
        pre.cursor_y,
        sat_sub(pre.height, 1),
        r0.lines.len(),
    );
    assert(post.editor_state@ == pre.editor_state@);
}

} // verus!
