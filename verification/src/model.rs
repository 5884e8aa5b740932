//! The hex editor's model: a 128-byte window into the inspected file, a
//! cursor/anchor selection, and an inspector that decodes the bytes under
//! the anchor as fixed-width integers.
//!
//! File access stays outside this crate. The event handler records how the
//! state changes and reports which reads the caller owes it afterwards: the
//! caller fetches the bytes and hands them to [`HexData::read_view`] and
//! [`HexData::calc_inspector`].

use vstd::prelude::*;

use crate::decode::{
    read_i16,
    read_i32,
    read_i8,
    read_u16,
    read_u32,
    signed16,
    signed32,
    signed8,
    u16_val,
    u32_val,
};

pub use crate::decode::Endian;

verus! {

/// Bytes shown at once: sixteen lines of eight.
pub const VIEW_BYTES: usize = 128;

/// Bytes per line of the view; scrolling moves by one line.
pub const LINE_BYTES: usize = 8;

/// Everything the hex editor reacts to.
#[derive(Clone, Copy, Debug)]
pub enum AppEvent {
    Test,
    Selection(usize),
    SelectionLeft,
    SelectionRight,
    SelectionUp,
    SelectionDown,
    SelectionStart,
    SelectionEnd,
    SelectionPageUp,
    SelectionPageDown,
    SetCursor(usize),
    SelectionDrag,
    SelectionDrop,
    SetLittleEndian,
    SetBigEndian,
    SetColumns(usize),
}

/// Cursor/anchor pair over a buffer of `data_len` bytes, laid out in rows of
/// `columns`. Kept apart from `HexData` so that moving the selection does not
/// rebuild the byte grid.
#[derive(Clone, Copy, Debug, PartialEq, Eq, Structural)]
pub struct Selection {
    pub data_len: usize,
    pub columns: usize,
    pub anchor: usize,
    pub cursor: usize,
    pub dragging: bool,
}

impl Selection {
    /// The lower end of the selected range.
    pub open spec fn spec_start(self) -> usize {
        if self.cursor <= self.anchor {
            self.cursor
        } else {
            self.anchor
        }
    }

    /// The upper end of the selected range.
    pub open spec fn spec_end(self) -> usize {
        if self.cursor >= self.anchor {
            self.cursor
        } else {
            self.anchor
        }
    }

    /// First selected index: the smaller of cursor and anchor.
    pub fn start(&self) -> (r: usize)
        ensures
            r == self.spec_start(),
    {
        if self.cursor <= self.anchor {
            self.cursor
        } else {
            self.anchor
        }
    }

    /// Last selected index: the larger of cursor and anchor.
    pub fn end(&self) -> (r: usize)
        ensures
            r == self.spec_end(),
    {
        if self.cursor >= self.anchor {
            self.cursor
        } else {
            self.anchor
        }
    }
}

/// The selection's start never exceeds its end, whatever the cursor and
/// anchor are.
pub proof fn lemma_selection_start_le_end(s: Selection)
    ensures
        s.spec_start() <= s.spec_end(),
{
}

/// The bytes under the anchor decoded as fixed-width integers.
#[derive(Clone, Copy, Debug, PartialEq, Eq, Structural)]
pub struct Inspector {
    pub num_i8: i8,
    pub num_u8: u8,
    pub num_i16: i16,
    pub num_u16: u16,
    pub num_i32: i32,
    pub num_u32: u32,
}

impl Default for Inspector {
    /// All readings zero, as before anything is selected.
    fn default() -> (r: Self)
        ensures
            r == inspector_zero(),
    {
        Inspector { num_i8: 0, num_u8: 0, num_i16: 0, num_u16: 0, num_i32: 0, num_u32: 0 }
    }
}

/// The inspector before anything is selected: every reading zero.
pub open spec fn inspector_zero() -> Inspector {
    Inspector { num_i8: 0, num_u8: 0, num_i16: 0, num_u16: 0, num_i32: 0, num_u32: 0 }
}

/// Every inspector field equals the decode of the leading bytes of `b` in
/// the given byte order.
pub open spec fn inspector_matches(ins: Inspector, endian: Endian, b: Seq<u8>) -> bool
    recommends
        b.len() >= 4,
{
    &&& ins.num_u8 == b[0]
    &&& ins.num_i8 as int == signed8(b[0] as int)
    &&& ins.num_u16 as int == u16_val(endian, b[0], b[1])
    &&& ins.num_i16 as int == signed16(u16_val(endian, b[0], b[1]))
    &&& ins.num_u32 as int == u32_val(endian, b[0], b[1], b[2], b[3])
    &&& ins.num_i32 as int == signed32(u32_val(endian, b[0], b[1], b[2], b[3]))
}

/// The hex editor's whole state, minus the file it inspects.
pub struct HexData {
    /// The visible window: each entry pairs an absolute file offset with the
    /// byte read there.
    pub view: Vec<(usize, u8)>,
    /// File offset of the first visible byte; always a whole number of lines.
    pub view_start: usize,
    /// Where the reader stood after the initial fill.
    pub seek_pos: usize,
    pub view_changed: bool,
    pub endian: Endian,
    pub selection: Selection,
    pub inspector: Inspector,
}

/// What an event asks of the caller once the state has changed: whether the
/// event was consumed, and which bytes must be fetched again.
#[derive(Clone, Copy, Debug, PartialEq, Eq, Structural)]
pub struct EventResult {
    pub handled: bool,
    /// Fetch `VIEW_BYTES` bytes at `view_start` and call `read_view`.
    pub reload_view: bool,
    /// Fetch eight bytes at the anchor and call `calc_inspector`.
    pub reload_inspector: bool,
}

/// Cursor after a step right: one forward, clamped to the last byte.
pub open spec fn right_cursor(sel: Selection) -> int
    recommends
        sel.data_len > 0,
{
    let c = if sel.cursor < usize::MAX {
        sel.cursor + 1
    } else {
        usize::MAX as int
    };
    if c >= sel.data_len {
        sel.data_len - 1
    } else {
        c
    }
}

/// Cursor after a step left: one back, stopping at zero.
pub open spec fn left_cursor(sel: Selection) -> int {
    if sel.cursor > 0 {
        sel.cursor - 1
    } else {
        0
    }
}

/// Cursor after a step up: one row back, or unmoved on the first row.
pub open spec fn up_cursor(sel: Selection) -> int {
    if sel.cursor >= sel.columns {
        sel.cursor - sel.columns
    } else {
        sel.cursor as int
    }
}

/// Cursor after a step down: one row forward, or unmoved past the end.
pub open spec fn down_cursor(sel: Selection) -> int {
    if sel.cursor + sel.columns < sel.data_len {
        sel.cursor + sel.columns
    } else {
        sel.cursor as int
    }
}

/// The selection once the cursor lands on `c`: without shift the anchor
/// follows the cursor, with shift it stays.
pub open spec fn moved_selection(sel: Selection, c: int, shift: bool) -> Selection {
    Selection {
        data_len: sel.data_len,
        columns: sel.columns,
        cursor: c as usize,
        anchor: if shift {
            sel.anchor
        } else {
            c as usize
        },
        dragging: sel.dragging,
    }
}

/// View start after a forward move: one line on when the cursor left the
/// window's far edge.
pub open spec fn scroll_fwd(vs: usize, c: int) -> int {
    if c >= vs + VIEW_BYTES {
        vs + LINE_BYTES
    } else {
        vs as int
    }
}

/// View start after a backward move: one line back when the cursor left the
/// window's near edge.
pub open spec fn scroll_back(vs: usize, c: int) -> int {
    if c < vs {
        vs - LINE_BYTES
    } else {
        vs as int
    }
}

impl HexData {
    /// The view window always starts on a line boundary.
    pub open spec fn wf(self) -> bool {
        self.view_start % LINE_BYTES == 0
    }

    /// Which states an event may be delivered in: the window is on a line
    /// boundary, and the arithmetic the event performs cannot overflow.
    pub open spec fn event_enabled(self, event: AppEvent) -> bool {
        &&& self.wf()
        &&& match event {
            AppEvent::Test => self.view_start + LINE_BYTES <= usize::MAX,
            AppEvent::SelectionRight => self.selection.data_len > 0 && self.view_start
                + VIEW_BYTES <= usize::MAX,
            AppEvent::SelectionDown => self.selection.cursor + self.selection.columns
                <= usize::MAX && self.view_start + VIEW_BYTES <= usize::MAX,
            _ => true,
        }
    }

    /// The state an event leaves behind. The view's bytes are untouched
    /// here: when the window moved, the caller re-fills it.
    pub open spec fn event_step(self, event: AppEvent, shift: bool) -> HexData {
        match event {
            AppEvent::Test => HexData { view_start: (self.view_start + LINE_BYTES) as usize, ..self },
            AppEvent::Selection(i) => HexData {
                selection: Selection { cursor: i, anchor: i, ..self.selection },
                ..self
            },
            AppEvent::SetCursor(i) => HexData {
                selection: Selection { cursor: i, ..self.selection },
                ..self
            },
            AppEvent::SelectionRight => {
                let c = right_cursor(self.selection);
                HexData {
                    selection: moved_selection(self.selection, c, shift),
                    view_start: scroll_fwd(self.view_start, c) as usize,
                    ..self
                }
            },
            AppEvent::SelectionLeft => {
                let c = left_cursor(self.selection);
                HexData {
                    selection: moved_selection(self.selection, c, shift),
                    view_start: scroll_back(self.view_start, c) as usize,
                    ..self
                }
            },
            AppEvent::SelectionUp => {
                let c = up_cursor(self.selection);
                HexData {
                    selection: moved_selection(self.selection, c, shift),
                    view_start: scroll_back(self.view_start, c) as usize,
                    ..self
                }
            },
            AppEvent::SelectionDown => {
                let c = down_cursor(self.selection);
                HexData {
                    selection: moved_selection(self.selection, c, shift),
                    view_start: scroll_fwd(self.view_start, c) as usize,
                    ..self
                }
            },
            AppEvent::SelectionDrag => HexData {
                selection: Selection { dragging: true, ..self.selection },
                ..self
            },
            AppEvent::SelectionDrop => HexData {
                selection: Selection { dragging: false, ..self.selection },
                ..self
            },
            AppEvent::SetColumns(c) => HexData {
                selection: Selection { columns: c, ..self.selection },
                ..self
            },
            AppEvent::SetLittleEndian => HexData { endian: Endian::LittleEndian, ..self },
            AppEvent::SetBigEndian => HexData { endian: Endian::BigEndian, ..self },
            _ => self,
        }
    }

    /// Whether the event is one this model consumes.
    pub open spec fn event_handled(event: AppEvent) -> bool {
        match event {
            AppEvent::SelectionStart
            | AppEvent::SelectionEnd
            | AppEvent::SelectionPageUp
            | AppEvent::SelectionPageDown => false,
            _ => true,
        }
    }

    /// Whether the event moved the window, so the view must be re-read.
    pub open spec fn event_reloads_view(self, event: AppEvent, shift: bool) -> bool {
        self.event_step(event, shift).view_start != self.view_start || event is Test
    }

    /// Whether the event changed what the inspector shows.
    pub open spec fn event_reloads_inspector(event: AppEvent) -> bool {
        match event {
            AppEvent::Selection(_)
            | AppEvent::SelectionLeft
            | AppEvent::SelectionRight
            | AppEvent::SelectionUp
            | AppEvent::SelectionDown
            | AppEvent::SetLittleEndian
            | AppEvent::SetBigEndian => true,
            _ => false,
        }
    }

    /// Fresh state over a buffer of `data_len` bytes whose first
    /// `VIEW_BYTES` bytes are `bytes`; `seek_pos` is where the reader stood
    /// after filling them.
    pub fn new(data_len: usize, bytes: &Vec<u8>, seek_pos: usize) -> (r: Self)
        requires
            bytes@.len() == VIEW_BYTES,
        ensures
            r.view@.len() == VIEW_BYTES,
            forall|i: int|
                0 <= i < VIEW_BYTES ==> r.view@[i] == ((i as usize, bytes@[i])),
            r.view_start == 0,
            r.seek_pos == seek_pos,
            r.view_changed == false,
            r.endian == Endian::LittleEndian,
            r.selection == (Selection {
                data_len,
                columns: 8,
                cursor: 0,
                anchor: 0,
                dragging: false,
            }),
            r.inspector == inspector_zero(),
            r.wf(),
    {
        let mut view: Vec<(usize, u8)> = Vec::new();
        let mut i: usize = 0;
        while i < VIEW_BYTES
            invariant
                i <= VIEW_BYTES,
                bytes@.len() == VIEW_BYTES,
                view@.len() == i,
                forall|j: int| 0 <= j < i ==> view@[j] == ((j as usize, bytes@[j])),
            decreases VIEW_BYTES - i,
        {
            view.push((i, bytes[i]));
            i = i + 1;
        }
        HexData {
            view,
            view_start: 0,
            seek_pos,
            view_changed: false,
            endian: Endian::LittleEndian,
            selection: Selection { data_len, columns: 8, cursor: 0, anchor: 0, dragging: false },
            inspector: Inspector::default(),
        }
    }

    /// Move the window one line forward; the caller re-reads it afterwards.
    pub fn next_line(&mut self)
        requires
            old(self).view_start + LINE_BYTES <= usize::MAX,
        ensures
            *final(self) == (HexData {
                view_start: (old(self).view_start + LINE_BYTES) as usize,
                ..*old(self)
            }),
    {
        self.view_start = self.view_start + LINE_BYTES;
    }

    /// Move the window one line back; the caller re-reads it afterwards.
    pub fn prev_line(&mut self)
        requires
            old(self).view_start >= LINE_BYTES,
        ensures
            *final(self) == (HexData {
                view_start: (old(self).view_start - LINE_BYTES) as usize,
                ..*old(self)
            }),
    {
        self.view_start = self.view_start - LINE_BYTES;
    }

    /// Re-fill the window from `bytes`, the `VIEW_BYTES` bytes fetched at
    /// `view_start`: entry `i` pairs offset `view_start + i` with `bytes[i]`.
    pub fn read_view(&mut self, bytes: &Vec<u8>)
        requires
            bytes@.len() == VIEW_BYTES,
            old(self).view_start + VIEW_BYTES <= usize::MAX,
        ensures
            final(self).view@.len() == VIEW_BYTES,
            forall|i: int|
                0 <= i < VIEW_BYTES ==> final(self).view@[i] == ((
                    (old(self).view_start + i) as usize,
                    bytes@[i],
                )),
            *final(self) == (HexData { view: final(self).view, ..*old(self) }),
    {
        let mut view: Vec<(usize, u8)> = Vec::new();
        let mut i: usize = 0;
        while i < VIEW_BYTES
            invariant
                i <= VIEW_BYTES,
                bytes@.len() == VIEW_BYTES,
                self.view_start + VIEW_BYTES <= usize::MAX,
                view@.len() == i,
                forall|j: int|
                    0 <= j < i ==> view@[j] == (((self.view_start + j) as usize, bytes@[j])),
            decreases VIEW_BYTES - i,
        {
            view.push((self.view_start + i, bytes[i]));
            i = i + 1;
        }
        self.view = view;
    }

    /// Decode `bytes`, the eight bytes fetched at the selection anchor, into
    /// the inspector, using the current byte order.
    pub fn calc_inspector(&mut self, bytes: &Vec<u8>)
        requires
            bytes@.len() == 8,
        ensures
            inspector_matches(final(self).inspector, old(self).endian, bytes@),
            *final(self) == (HexData { inspector: final(self).inspector, ..*old(self) }),
    {
        self.inspector = Inspector {
            num_i8: read_i8(bytes[0]),
            num_u8: bytes[0],
            num_i16: read_i16(self.endian, bytes[0], bytes[1]),
            num_u16: read_u16(self.endian, bytes[0], bytes[1]),
            num_i32: read_i32(self.endian, bytes[0], bytes[1], bytes[2], bytes[3]),
            num_u32: read_u32(self.endian, bytes[0], bytes[1], bytes[2], bytes[3]),
        };
    }

    /// React to an event: update selection, window position and settings as
    /// the event asks, and report which bytes the caller must fetch again.
    #[verifier::rlimit(60)]
    pub fn event(&mut self, event: &AppEvent, shift: bool) -> (r: EventResult)
        requires
            old(self).event_enabled(*event),
        ensures
            *final(self) == old(self).event_step(*event, shift),
            final(self).wf(),
            r.handled == HexData::event_handled(*event),
            r.reload_view == old(self).event_reloads_view(*event, shift),
            r.reload_inspector == HexData::event_reloads_inspector(*event),
    {
        match event {
            AppEvent::Test => {
                self.next_line();
                EventResult { handled: true, reload_view: true, reload_inspector: false }
            },
            AppEvent::Selection(index) => {
                self.selection.anchor = *index;
                self.selection.cursor = *index;
                EventResult { handled: true, reload_view: false, reload_inspector: true }
            },
            AppEvent::SetCursor(index) => {
                self.selection.cursor = *index;
                EventResult { handled: true, reload_view: false, reload_inspector: false }
            },
            AppEvent::SelectionRight => {
                let mut cursor: usize = if self.selection.cursor < usize::MAX {
                    self.selection.cursor + 1
                } else {
                    usize::MAX
                };
                if cursor >= self.selection.data_len {
                    cursor = self.selection.data_len - 1;
                }
                self.selection.cursor = cursor;
                if !shift {
                    self.selection.anchor = cursor;
                }
                let scrolled = cursor >= self.view_start + VIEW_BYTES;
                if scrolled {
                    self.next_line();
                }
                EventResult { handled: true, reload_view: scrolled, reload_inspector: true }
            },
            AppEvent::SelectionLeft => {
                let cursor: usize = if self.selection.cursor > 0 {
                    self.selection.cursor - 1
                } else {
                    0
                };
                self.selection.cursor = cursor;
                if !shift {
                    self.selection.anchor = cursor;
                }
                let scrolled = cursor < self.view_start;
                if scrolled {
                    self.prev_line();
                }
                EventResult { handled: true, reload_view: scrolled, reload_inspector: true }
            },
            AppEvent::SelectionUp => {
                let cursor: usize = if self.selection.cursor >= self.selection.columns {
                    self.selection.cursor - self.selection.columns
                } else {
                    self.selection.cursor
                };
                self.selection.cursor = cursor;
                if !shift {
                    self.selection.anchor = cursor;
                }
                let scrolled = cursor < self.view_start;
                if scrolled {
                    self.prev_line();
                }
                EventResult { handled: true, reload_view: scrolled, reload_inspector: true }
            },
            AppEvent::SelectionDown => {
                let cursor: usize = if self.selection.cursor + self.selection.columns
                    < self.selection.data_len {
                    self.selection.cursor + self.selection.columns
                } else {
                    self.selection.cursor
                };
                self.selection.cursor = cursor;
                if !shift {
                    self.selection.anchor = cursor;
                }
                let scrolled = cursor >= self.view_start + VIEW_BYTES;
                if scrolled {
                    self.next_line();
                }
                EventResult { handled: true, reload_view: scrolled, reload_inspector: true }
            },
            AppEvent::SelectionDrag => {
                self.selection.dragging = true;
                EventResult { handled: true, reload_view: false, reload_inspector: false }
            },
            AppEvent::SelectionDrop => {
                self.selection.dragging = false;
                EventResult { handled: true, reload_view: false, reload_inspector: false }
            },
            AppEvent::SetColumns(columns) => {
                self.selection.columns = *columns;
                EventResult { handled: true, reload_view: false, reload_inspector: false }
            },
            AppEvent::SetLittleEndian => {
                self.endian = Endian::LittleEndian;
                EventResult { handled: true, reload_view: false, reload_inspector: true }
            },
            AppEvent::SetBigEndian => {
                self.endian = Endian::BigEndian;
                EventResult { handled: true, reload_view: false, reload_inspector: true }
            },
            _ => EventResult { handled: false, reload_view: false, reload_inspector: false },
        }
    }
}

/// Delivering any enabled event keeps the view window on a line boundary:
/// the window only ever moves by whole lines, so scrolling back can never
/// underrun offset zero.
pub proof fn lemma_event_keeps_alignment(pre: HexData, event: AppEvent, shift: bool)
    requires
        pre.event_enabled(event),
    ensures
        pre.event_step(event, shift).wf(),
{
}

} // verus!
