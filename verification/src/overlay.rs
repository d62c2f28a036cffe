//! The full-screen overlay that shows the output of a command over the
//! document.

use vstd::prelude::*;
use crate::buffers::{clamped_row, loaded_position, overlay_lines};
use crate::core_types::{BufferState, BufferView, EditorMode, EditorState, EditorStateView, ViewMode};
use crate::editor::{Editor, sat_sub};
use crate::justify::strings_view;
use crate::text::string_of;

verus! {

/// The abstract states of a list of buffers.
pub open spec fn buffer_views(bs: Seq<BufferState>) -> Seq<BufferView> {
    bs.map_values(|b: BufferState| b@)
}

/// The overlay buffer once it shows `lines` for `cmd`: at the top of the
/// text, with the cursor kept on a line and inside that line.
pub open spec fn refreshed_overlay(b: BufferView, cmd: Seq<char>, lines: Seq<Seq<char>>) -> BufferView {
    let last = if lines.len() >= 1 {
        (lines.len() - 1) as usize
    } else {
        0usize
    };
    let y = if b.cursor_y > last {
        last
    } else {
        b.cursor_y
    };
    let x = if y < lines.len() && b.cursor_x > lines[y as int].len() {
        lines[y as int].len() as usize
    } else {
        b.cursor_x
    };
    BufferView { lines, command: Some(cmd), offset: 0, cursor_y: y, cursor_x: x, ..b }
}

/// A new overlay buffer showing `lines` for `cmd` on a screen `height`
/// rows high.
pub open spec fn fresh_overlay(cmd: Seq<char>, lines: Seq<Seq<char>>, height: usize) -> BufferView {
    let vh = sat_sub(height, 1);
    BufferView {
        command: Some(cmd),
        viewport_height: if vh >= 1 {
            vh
        } else {
            1
        },
        viewport_start: 0,
        overlay_level: 1,
        ..BufferState::new_view(lines)
    }
}

impl Editor {
    /// The buffers once the overlay for `cmd` holds `lines`, before its
    /// mode is reset: the active buffer saved, a document buffer made if
    /// there was none, and buffer 1 refreshed or added.
    pub open spec fn overlay_buffers(self, cmd: Seq<char>, lines: Seq<Seq<char>>) -> Seq<BufferView> {
        let saved = buffer_views(self.saved_buffers());
        let base = if saved.len() == 0 {
            seq![BufferState::new_view(seq![seq![]])]
        } else {
            saved
        };
        let shown = overlay_lines(lines);
        if base.len() > 1 {
            base.update(1, refreshed_overlay(base[1], cmd, shown))
        } else {
            base.push(fresh_overlay(cmd, shown, self.height))
        }
    }

    /// Whether `post` is this editor showing the overlay for `cmd` with
    /// `lines`: buffer 1 active in normal mode, its text and position
    /// loaded, the command line cleared.
    pub open spec fn shows_overlay(self, cmd: Seq<char>, lines: Seq<Seq<char>>, post: Editor) -> bool {
        let ob = self.overlay_buffers(cmd, lines);
        let b = ob[1];
        &&& buffer_views(post.buffers@) == ob.update(1, BufferView { mode: EditorMode::Normal, ..b })
        &&& strings_view(post.lines@) == b.lines
        &&& post.editor_state@ == (EditorStateView {
            search_query: b.search_query,
            current_match: b.current_match,
            selection_start: b.selection_start,
            selection_end: b.selection_end,
            mode: EditorMode::Normal,
            command_buffer: seq![],
            command_cursor_pos: 0,
            ..self.editor_state@
        })
        &&& post == (Editor {
            lines: post.lines,
            total_lines: b.lines.len() as usize,
            offset: 0,
            cursor_x: b.cursor_x,
            cursor_y: clamped_row(b.cursor_y, sat_sub(self.height, 1)),
            editor_state: post.editor_state,
            buffers: post.buffers,
            active_buffer: 1,
            view_mode: ViewMode::Overlay,
            ..self
        })
    }
}

/// A buffer shown from its first line, with the cursor on one of its
/// lines, is loaded with the cursor row only kept inside the viewport.
pub proof fn lemma_load_from_top(y: usize, vh: usize, total: usize)
    requires
        y < total,
    ensures
        loaded_position(0, y, vh, total) == (0usize, clamped_row(y, vh)),
{
}

impl Editor {
    /// Whether `post` is this editor after `close_overlay`: the overlay
    /// closed when it was shown, unchanged otherwise.
    pub open spec fn closes_overlay(self, post: Editor) -> bool {
        if self.view_mode == ViewMode::Overlay {
            self.overlay_closed(post)
        } else {
            post == self
        }
    }

    /// Whether `post` is this editor with the overlay closed: the last
    /// buffer dropped if there were several, and the document, buffer 0,
    /// loaded in the normal view.
    pub open spec fn overlay_closed(self, post: Editor) -> bool {
        let bs = if self.buffers@.len() > 1 {
            self.buffers@.drop_last()
        } else {
            self.buffers@
        };
        let mid = Editor {
            buffers: post.buffers,
            active_buffer: 0,
            view_mode: ViewMode::Normal,
            ..self
        };
        &&& post.buffers@ == bs
        &&& (bs.len() > 0 ==> mid.loaded_from(bs[0], post))
        &&& (bs.len() == 0 ==> post == mid)
    }
}

/// Whether `s` holds a NUL character.
fn has_nul(s: &str) -> (r: bool)
    ensures
        r == s@.contains('\0'),
{
    let n = s.unicode_len();
    let mut i: usize = 0;
    while i < n
        invariant
            n == s@.len(),
            i <= n,
            forall|k: int| 0 <= k < i ==> s@[k] != '\0',
        decreases n - i,
    {
        if s.get_char(i) == '\0' {
            assert(s@[i as int] == '\0');
            return true;
        }
        i = i + 1;
    }
    false
}

/// The lines an overlay shows for `lines` (see `overlay_lines`).
fn validate_overlay_lines(lines: Vec<String>) -> (r: Vec<String>)
    ensures
        strings_view(r@) == overlay_lines(strings_view(lines@)),
{
    if lines.len() == 0 {
        let mut r: Vec<String> = Vec::new();
        r.push(string_of("No content available"));
        r.push(string_of("Press :q to exit"));
        assert(strings_view(r@) == overlay_lines(strings_view(lines@)));
        return r;
    }
    let mut r: Vec<String> = Vec::new();
    let mut i: usize = 0;
    while i < lines.len()
        invariant
            i <= lines@.len(),
            lines@.len() > 0,
            r@.len() == i,
            forall|k: int|
                0 <= k < i ==> r@[k]@ == overlay_lines(strings_view(lines@))[k],
        decreases lines@.len() - i,
    {
        if has_nul(lines[i].as_str()) {
            r.push(string_of("INVALID_LINE"));
        } else {
            r.push(lines[i].clone());
        }
        i = i + 1;
    }
    assert(strings_view(r@) == overlay_lines(strings_view(lines@)));
    r
}

/// Shows `lines` for `cmd` in buffer 1, which exists already.
fn refresh_overlay(bs: &mut Vec<BufferState>, cmd: &str, lines: Vec<String>)
    requires
        old(bs)@.len() > 1,
        lines@.len() > 0,
    ensures
        final(bs)@.len() == old(bs)@.len(),
        forall|i: int| 0 <= i < old(bs)@.len() && i != 1 ==> final(bs)@[i] == old(bs)@[i],
        final(bs)@[1]@ == refreshed_overlay(old(bs)@[1]@, cmd@, strings_view(lines@)),
{
    let n = lines.len();
    bs[1].lines = lines;
    bs[1].command = Some(string_of(cmd));
    bs[1].offset = 0;
    if bs[1].cursor_y > n - 1 {
        bs[1].cursor_y = n - 1;
    }
    let y = bs[1].cursor_y;
    let w = bs[1].lines[y].as_str().unicode_len();
    if bs[1].cursor_x > w {
        bs[1].cursor_x = w;
    }
}

/// A new overlay buffer (see `fresh_overlay`).
fn new_overlay(cmd: &str, lines: Vec<String>, height: usize) -> (b: BufferState)
    ensures
        b@ == fresh_overlay(cmd@, strings_view(lines@), height),
{
    let mut b = BufferState::new(lines);
    b.command = Some(string_of(cmd));
    let vh = if height >= 1 {
        height - 1
    } else {
        0
    };
    b.viewport_height = if vh >= 1 {
        vh
    } else {
        1
    };
    b.viewport_start = 0;
    b.overlay_level = 1;
    b.cursor_y = 0;
    b.cursor_x = 0;
    b
}

impl Editor {
    /// Shows the output `lines` of `cmd` in the overlay, buffer 1, creating
    /// it or refreshing it, after saving the active buffer (see
    /// `shows_overlay`). No lines show a placeholder, and a line with a NUL
    /// character shows `INVALID_LINE`.
    pub fn create_overlay(&mut self, cmd: &str, lines: Vec<String>)
        ensures
            old(self).shows_overlay(cmd@, strings_view(lines@), *final(self)),
    {
        let ghost pre = *self;
        let validated = validate_overlay_lines(lines);
        assert(strings_view(validated@).len() == validated@.len());
        assert(validated@.len() > 0);
        self.save_current_buffer_state();
        let ghost saved = self.buffers@;
        if self.buffers.len() == 0 {
            let mut first: Vec<String> = Vec::new();
            first.push(String::new());
            assert(strings_view(first@) =~= seq![seq![]]);
            self.buffers.push(BufferState::new(first));
        }
        let ghost base = self.buffers@;
        assert(buffer_views(base) == (if buffer_views(saved).len() == 0 {
            seq![BufferState::new_view(seq![seq![]])]
        } else {
            buffer_views(saved)
        }));
        if self.buffers.len() > 1 {
            refresh_overlay(&mut self.buffers, cmd, validated);
        } else {
            let b = new_overlay(cmd, validated, self.height);
            self.buffers.push(b);
        }
        let ghost ob = pre.overlay_buffers(cmd@, strings_view(lines@));
        assert(buffer_views(self.buffers@) == ob);
        self.active_buffer = 1;
        self.view_mode = ViewMode::Overlay;
        let ghost before_load = *self;
        self.load_buffer_state(1);
        proof {
            let b = before_load.buffers@[1];
            assert(b@ == ob[1]);
            assert(b.lines@.len() > 0);
            assert(b.offset == 0);
            assert(b.cursor_y < b.lines@.len());
            assert(before_load.load_height(b) == sat_sub(pre.height, 1));
            assert(b.lines.len() == b.lines@.len());
            lemma_load_from_top(b.cursor_y, sat_sub(pre.height, 1), b.lines.len());
        }
        self.set_active_mode(EditorMode::Normal);
        self.editor_state.command_buffer = String::new();
        self.editor_state.command_cursor_pos = 0;
        proof {
            assert(buffer_views(self.buffers@) == ob.update(
                1,
                BufferView { mode: EditorMode::Normal, ..ob[1] },
            ));
            let b = ob[1];
            assert(strings_view(self.lines@) == b.lines);
            assert(self.editor_state@ == (EditorStateView {
                search_query: b.search_query,
                current_match: b.current_match,
                selection_start: b.selection_start,
                selection_end: b.selection_end,
                mode: EditorMode::Normal,
                command_buffer: seq![],
                command_cursor_pos: 0,
                ..pre.editor_state@
            }));
            assert(self.total_lines == b.lines.len() as usize);
            assert(self.offset == 0);
            assert(self.cursor_x == b.cursor_x);
            assert(self.cursor_y == clamped_row(b.cursor_y, sat_sub(pre.height, 1)));
        }
    }

    /// Leaves the overlay: drops the last buffer and loads the document.
    /// Returns whether an overlay was shown.
    pub fn close_overlay(&mut self) -> (closed: bool)
        ensures
            closed == (old(self).view_mode == ViewMode::Overlay),
            !closed ==> *final(self) == *old(self),
            closed ==> old(self).overlay_closed(*final(self)),
    {
        if self.view_mode != ViewMode::Overlay {
            return false;
        }
        if self.buffers.len() > 1 {
            self.buffers.pop();
        }
        self.active_buffer = 0;
        self.view_mode = ViewMode::Normal;
        self.load_buffer_state(0);
        true
    }
}

/// Opening an overlay over the document and closing it again gives back the
/// document as it was shown: its lines, the view position and cursor, and
/// the search, selection, mode and command line, as long as the cursor lay
/// inside the text area and, for a non-empty document, on one of its lines.
pub proof fn lemma_overlay_round_trip(
    pre: Editor,
    cmd: Seq<char>,
    lines: Seq<Seq<char>>,
    mid: Editor,
    post: Editor,
)
    requires
        pre.buffers@.len() == 1,
        pre.active_buffer == 0,
        pre.view_mode == ViewMode::Normal,
        pre.shows_overlay(cmd, lines, mid),
        mid.overlay_closed(post),
        pre.cursor_y < sat_sub(pre.height, 1),
        pre.offset + pre.cursor_y < pre.buffers@[0].lines@.len() || pre.buffers@[0].lines@.len()
            == 0,
    ensures
        post.view_mode == ViewMode::Normal,
        post.active_buffer == 0,
        post.buffers@.len() == 1,
        strings_view(post.lines@) == strings_view(pre.buffers@[0].lines@),
        post.offset == pre.offset,
        post.cursor_x == pre.cursor_x,
        post.cursor_y == pre.cursor_y,
        post.editor_state@ == pre.editor_state@,
{
    let ob = pre.overlay_buffers(cmd, lines);
    assert(ob.len() == 2);
    assert(buffer_views(mid.buffers@).len() == mid.buffers@.len());
    assert(mid.buffers@.len() == 2);
    let b0 = mid.buffers@[0];
    assert(b0@ == buffer_views(mid.buffers@)[0]);
    assert(b0@ == pre.stored_into(pre.buffers@[0])@);
    let closing = Editor {
        buffers: post.buffers,
        active_buffer: 0,
        view_mode: ViewMode::Normal,
        ..mid
    };
    assert(post.buffers@ == mid.buffers@.drop_last());
    assert(closing.load_height(b0) == sat_sub(pre.height, 1));
    assert(b0.lines.len() == b0.lines@.len());
    assert(strings_view(b0.lines@).len() == b0.lines@.len());
    assert(strings_view(pre.buffers@[0].lines@).len() == pre.buffers@[0].lines@.len());
    crate::buffers::lemma_load_restores_saved_position(
        pre.offset,
        pre.cursor_y,
        sat_sub(pre.height, 1),
        b0.lines.len(),
    );
    assert(post.editor_state@ == pre.editor_state@);
}

} // verus!
