//! The editor's modes and the state kept for each buffer and across buffers.

use vstd::prelude::*;
use crate::justify::strings_view;

verus! {

/// Where a split buffer is shown.
#[derive(Clone, Copy, Debug, PartialEq, Eq, Structural)]
pub enum SplitPosition {
    Top,
    Bottom,
}

/// How buffers are shown: one buffer, a full-screen overlay, or a
/// horizontal split with command output below.
#[derive(Clone, Copy, Debug, PartialEq, Eq, Structural)]
pub enum ViewMode {
    Normal,
    Overlay,
    HorizontalSplit,
}

/// The input mode of a buffer.
#[derive(Clone, Copy, Debug, PartialEq, Eq, Structural)]
pub enum EditorMode {
    Normal,
    Command,
    CommandExecution,
    Search,
    ReverseSearch,
    VisualChar,
    VisualLine,
    Tutorial,
}

/// The state of one buffer: its text, view position, search, selection and
/// command line, and where it is shown.
#[derive(Debug)]
pub struct BufferState {
    pub lines: Vec<String>,
    pub offset: usize,
    pub cursor_x: usize,
    pub cursor_y: usize,
    pub search_query: String,
    pub current_match: Option<(usize, usize, usize)>,
    pub selection_start: Option<(usize, usize)>,
    pub selection_end: Option<(usize, usize)>,
    pub viewport_height: usize,
    pub viewport_start: usize,
    pub command: Option<String>,
    pub mode: EditorMode,
    pub command_buffer: String,
    pub command_cursor_pos: usize,
    /// 0 for the main buffer, 1 and more for overlays.
    pub overlay_level: usize,
    pub split_height: Option<usize>,
    pub is_split_buffer: bool,
    pub split_position: SplitPosition,
}

/// The abstract state of a buffer: strings are taken as their characters.
pub struct BufferView {
    pub lines: Seq<Seq<char>>,
    pub offset: usize,
    pub cursor_x: usize,
    pub cursor_y: usize,
    pub search_query: Seq<char>,
    pub current_match: Option<(usize, usize, usize)>,
    pub selection_start: Option<(usize, usize)>,
    pub selection_end: Option<(usize, usize)>,
    pub viewport_height: usize,
    pub viewport_start: usize,
    pub command: Option<Seq<char>>,
    pub mode: EditorMode,
    pub command_buffer: Seq<char>,
    pub command_cursor_pos: usize,
    pub overlay_level: usize,
    pub split_height: Option<usize>,
    pub is_split_buffer: bool,
    pub split_position: SplitPosition,
}

/// The characters of an optional string.
pub open spec fn opt_string_view(s: Option<String>) -> Option<Seq<char>> {
    match s {
        Some(t) => Some(t@),
        None => None,
    }
}

impl View for BufferState {
    type V = BufferView;

    open spec fn view(&self) -> BufferView {
        BufferView {
            lines: strings_view(self.lines@),
            offset: self.offset,
            cursor_x: self.cursor_x,
            cursor_y: self.cursor_y,
            search_query: self.search_query@,
            current_match: self.current_match,
            selection_start: self.selection_start,
            selection_end: self.selection_end,
            viewport_height: self.viewport_height,
            viewport_start: self.viewport_start,
            command: opt_string_view(self.command),
            mode: self.mode,
            command_buffer: self.command_buffer@,
            command_cursor_pos: self.command_cursor_pos,
            overlay_level: self.overlay_level,
            split_height: self.split_height,
            is_split_buffer: self.is_split_buffer,
            split_position: self.split_position,
        }
    }
}

/// The abstract state shared across buffers.
pub struct EditorStateView {
    pub yank_buffer: Seq<char>,
    pub operator_pending: Option<char>,
    pub search_direction: bool,
    pub mode: EditorMode,
    pub command_buffer: Seq<char>,
    pub command_cursor_pos: usize,
    pub search_query: Seq<char>,
    pub last_search_index: Option<usize>,
    pub current_match: Option<(usize, usize, usize)>,
    pub selection_start: Option<(usize, usize)>,
    pub selection_end: Option<(usize, usize)>,
    pub visual_selection_active: bool,
    pub previous_visual_mode: Option<EditorMode>,
    pub last_visual_start: Option<(usize, usize)>,
    pub last_visual_end: Option<(usize, usize)>,
    pub last_visual_mode: Option<EditorMode>,
    pub search_preview_active: bool,
    pub search_original_cursor: Option<(usize, usize)>,
    pub search_original_offset: Option<usize>,
    pub search_preview_match: Option<(usize, usize, usize)>,
}

impl View for EditorState {
    type V = EditorStateView;

    open spec fn view(&self) -> EditorStateView {
        EditorStateView {
            yank_buffer: self.yank_buffer@,
            operator_pending: self.operator_pending,
            search_direction: self.search_direction,
            mode: self.mode,
            command_buffer: self.command_buffer@,
            command_cursor_pos: self.command_cursor_pos,
            search_query: self.search_query@,
            last_search_index: self.last_search_index,
            current_match: self.current_match,
            selection_start: self.selection_start,
            selection_end: self.selection_end,
            visual_selection_active: self.visual_selection_active,
            previous_visual_mode: self.previous_visual_mode,
            last_visual_start: self.last_visual_start,
            last_visual_end: self.last_visual_end,
            last_visual_mode: self.last_visual_mode,
            search_preview_active: self.search_preview_active,
            search_original_cursor: self.search_original_cursor,
            search_original_offset: self.search_original_offset,
            search_preview_match: self.search_preview_match,
        }
    }
}

/// A copy of a list of strings.
pub fn clone_lines(lines: &Vec<String>) -> (r: Vec<String>)
    ensures
        r@ == lines@,
{
    let mut r: Vec<String> = Vec::new();
    let mut i: usize = 0;
    while i < lines.len()
        invariant
            i <= lines@.len(),
            r@ == lines@.take(i as int),
        decreases lines@.len() - i,
    {
        r.push(lines[i].clone());
        i = i + 1;
        assert(r@ == lines@.take(i as int));
    }
    assert(lines@.take(i as int) == lines@);
    r
}

/// A copy of an optional string.
pub fn clone_opt_string(s: &Option<String>) -> (r: Option<String>)
    ensures
        r == *s,
{
    match s {
        Some(t) => Some(t.clone()),
        None => None,
    }
}

impl BufferState {
    /// The state of a fresh buffer showing `lines` from the top, in normal
    /// mode, with no search, selection or command.
    pub open spec fn new_view(lines: Seq<Seq<char>>) -> BufferView {
        BufferView {
            lines,
            offset: 0,
            cursor_x: 0,
            cursor_y: 0,
            search_query: seq![],
            current_match: None,
            selection_start: None,
            selection_end: None,
            viewport_height: 0,
            viewport_start: 0,
            command: None,
            mode: EditorMode::Normal,
            command_buffer: seq![],
            command_cursor_pos: 0,
            overlay_level: 0,
            split_height: None,
            is_split_buffer: false,
            split_position: SplitPosition::Bottom,
        }
    }

    /// A fresh buffer showing `lines` (see `new_view`).
    pub fn new(lines: Vec<String>) -> (b: Self)
        ensures
            b@ == Self::new_view(strings_view(lines@)),
    {
        BufferState {
            lines,
            offset: 0,
            cursor_x: 0,
            cursor_y: 0,
            search_query: String::new(),
            current_match: None,
            selection_start: None,
            selection_end: None,
            viewport_height: 0,
            viewport_start: 0,
            command: None,
            mode: EditorMode::Normal,
            command_buffer: String::new(),
            command_cursor_pos: 0,
            overlay_level: 0,
            split_height: None,
            is_split_buffer: false,
            split_position: SplitPosition::Bottom,
        }
    }

    /// A copy of this buffer.
    pub fn duplicate(&self) -> (r: Self)
        ensures
            r@ == self@,
    {
        BufferState {
            lines: clone_lines(&self.lines),
            offset: self.offset,
            cursor_x: self.cursor_x,
            cursor_y: self.cursor_y,
            search_query: self.search_query.clone(),
            current_match: self.current_match,
            selection_start: self.selection_start,
            selection_end: self.selection_end,
            viewport_height: self.viewport_height,
            viewport_start: self.viewport_start,
            command: clone_opt_string(&self.command),
            mode: self.mode,
            command_buffer: self.command_buffer.clone(),
            command_cursor_pos: self.command_cursor_pos,
            overlay_level: self.overlay_level,
            split_height: self.split_height,
            is_split_buffer: self.is_split_buffer,
            split_position: self.split_position,
        }
    }
}

/// State shared across buffers: the yank register, pending operator,
/// search direction and preview, and the last visual selection. The mode,
/// command line, search query, match and selection here mirror those of
/// the active buffer.
#[derive(Debug)]
pub struct EditorState {
    pub yank_buffer: String,
    pub operator_pending: Option<char>,
    /// `true` for forward search.
    pub search_direction: bool,
    pub mode: EditorMode,
    pub command_buffer: String,
    pub command_cursor_pos: usize,
    pub search_query: String,
    pub last_search_index: Option<usize>,
    pub current_match: Option<(usize, usize, usize)>,
    pub selection_start: Option<(usize, usize)>,
    pub selection_end: Option<(usize, usize)>,
    pub visual_selection_active: bool,
    pub previous_visual_mode: Option<EditorMode>,
    pub last_visual_start: Option<(usize, usize)>,
    pub last_visual_end: Option<(usize, usize)>,
    pub last_visual_mode: Option<EditorMode>,
    pub search_preview_active: bool,
    /// `(cursor_y, cursor_x)` when the search started.
    pub search_original_cursor: Option<(usize, usize)>,
    pub search_original_offset: Option<usize>,
    /// `(line, start, end)` of the match shown while typing a search.
    pub search_preview_match: Option<(usize, usize, usize)>,
}

impl EditorState {
    /// The initial shared state: normal mode, forward search, nothing
    /// pending, searched, selected or remembered.
    pub open spec fn new_view() -> EditorStateView {
        EditorStateView {
            yank_buffer: seq![],
            operator_pending: None,
            search_direction: true,
            mode: EditorMode::Normal,
            command_buffer: seq![],
            command_cursor_pos: 0,
            search_query: seq![],
            last_search_index: None,
            current_match: None,
            selection_start: None,
            selection_end: None,
            visual_selection_active: false,
            previous_visual_mode: None,
            last_visual_start: None,
            last_visual_end: None,
            last_visual_mode: None,
            search_preview_active: false,
            search_original_cursor: None,
            search_original_offset: None,
            search_preview_match: None,
        }
    }

    /// The initial shared state (see `new_view`).
    pub fn new() -> (s: Self)
        ensures
            s@ == Self::new_view(),
    {
        EditorState {
            yank_buffer: String::new(),
            operator_pending: None,
            search_direction: true,
            mode: EditorMode::Normal,
            command_buffer: String::new(),
            command_cursor_pos: 0,
            search_query: String::new(),
            last_search_index: None,
            current_match: None,
            selection_start: None,
            selection_end: None,
            visual_selection_active: false,
            previous_visual_mode: None,
            last_visual_start: None,
            last_visual_end: None,
            last_visual_mode: None,
            search_preview_active: false,
            search_original_cursor: None,
            search_original_offset: None,
            search_preview_match: None,
        }
    }
}

} // verus!
