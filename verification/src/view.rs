//! The viewport: scroll state, cursor navigation, the information band at
//! the top of the screen, and the paint plan for one frame.
//!
//! Rendering is split from I/O: `render` returns the rows to repaint as
//! plain text, and the terminal collaborator outside this library writes
//! them to the screen.
use crate::buffer::Buffer;
use crate::editorcommand::{direction_name, Direction, EditorCommand};
use crate::geometry::{sat_add, sat_add_usize, sat_sub, sat_sub_usize, Location, Position, Size};
use crate::line::{display_slice_spec, Line};
use crate::strfmt::{dec_rep, decimal_string, push_char, push_spaces, spaces};
use std::collections::VecDeque;
use vstd::prelude::*;
use vstd::view::View as VstdView;

verus! {

/// Height of the information band at the top of the screen, in rows.  The
/// band is never part of the scrollable document region: document rows begin
/// below it.
pub const INFO_SECTION_SIZE: usize = 5;

#[derive(Copy, Clone, Debug, PartialEq, Eq, Structural)]
pub enum ViewMode {
    Normal,
    Insert,
    Visual,
    Command,
}

/// One row of the paint plan: print `text` on screen row `row`, replacing
/// what the row held before.
pub struct RowPaint {
    pub row: usize,
    pub text: String,
}

/// The editor view: the loaded document, the cursor location in document
/// space, the scroll offset mapping it onto the screen, and the event log
/// shown in the information band.
pub struct View {
    /// Event log entries, oldest first, at most `INFO_SECTION_SIZE`.
    pub key_events_info: VecDeque<String>,
    /// The loaded document.
    pub buffer: Buffer,
    /// Current terminal size.
    pub size: Size,
    /// Cursor location in document space.
    pub location: Location,
    /// Document coordinate shown at the viewport's top-left cell.
    pub scroll_offset: Location,
    /// Current interaction mode.
    pub mode: ViewMode,
    /// Set when the document region must be repainted.
    pub needs_redraw_buffer: bool,
    /// When set, key events other than presses are not logged.
    pub only_log_key_press: bool,
}

/// The rendered form of a log entry: the tag in brackets, padded to four
/// characters, then the message.
pub open spec fn log_line_spec(tag: Seq<char>, info: Seq<char>) -> Seq<char> {
    "["@ + tag + spaces(4 - tag.len()) + "] "@ + info
}

/// The log queue after appending one entry: the oldest entry leaves once the
/// information band is full.
pub open spec fn push_log_spec(q: Seq<Seq<char>>, entry: Seq<char>) -> Seq<Seq<char>> {
    (if q.len() >= INFO_SECTION_SIZE { q.drop_first() } else { q }).push(entry)
}

/// The only change from `pre` to `post` is one appended log entry.
pub open spec fn log_appended(pre: View, post: View, entry: Seq<char>) -> bool {
    &&& post.key_events_info.deep_view() == push_log_spec(pre.key_events_info.deep_view(), entry)
    &&& post.buffer == pre.buffer
    &&& post.size == pre.size
    &&& post.location == pre.location
    &&& post.scroll_offset == pre.scroll_offset
    &&& post.mode == pre.mode
    &&& post.needs_redraw_buffer == pre.needs_redraw_buffer
    &&& post.only_log_key_press == pre.only_log_key_press
}

impl View {
    /// A fresh view of an empty document filling a terminal of `size`.
    pub fn new(size: Size) -> (v: View)
        ensures
            v.key_events_info.deep_view() == Seq::<Seq<char>>::empty(),
            v.buffer.lines@.len() == 0,
            v.size == size,
            v.location == (Location { x: 0, y: 0 }),
            v.scroll_offset == (Location { x: 0, y: 0 }),
            v.mode == ViewMode::Normal,
            v.needs_redraw_buffer == true,
            v.only_log_key_press == true,
    {
        let v = View {
            key_events_info: VecDeque::new(),
            buffer: Buffer::default(),
            size,
            location: Location { x: 0, y: 0 },
            scroll_offset: Location { x: 0, y: 0 },
            mode: ViewMode::Normal,
            needs_redraw_buffer: true,
            only_log_key_press: true,
        };
        proof {
            assert(v.key_events_info.deep_view() =~= Seq::<Seq<char>>::empty());
        }
        v
    }

    /// The current interaction mode.
    pub fn get_mode(&self) -> (m: ViewMode)
        ensures
            m == self.mode,
    {
        self.mode
    }

    /// Appends one entry to the event log shown in the information band:
    /// the tag, padded to four characters inside brackets, then the message.
    /// The oldest entry leaves once the band is full.
    pub fn log_event(&mut self, tag: &str, info: &str)
        ensures
            log_appended(*old(self), *final(self), log_line_spec(tag@, info@)),
    {
        let mut entry = String::from_str("[");
        entry.append(tag);
        let mut pad = tag.unicode_len();
        proof {
            assert(entry@ =~= "["@ + tag@ + spaces(0));
        }
        while pad < 4
            invariant
                pad >= tag@.len(),
                pad <= 4 || pad == tag@.len(),
                entry@ == "["@ + tag@ + spaces(pad - tag@.len()),
            decreases 4 - pad,
        {
            push_char(&mut entry, ' ');
            pad = pad + 1;
            proof {
                assert(entry@ =~= "["@ + tag@ + spaces(pad - tag@.len()));
            }
        }
        entry.append("] ");
        entry.append(info);
        proof {
            assert(entry@ =~= log_line_spec(tag@, info@));
        }
        let ghost pre_q = self.key_events_info.deep_view();
        if self.key_events_info.len() >= INFO_SECTION_SIZE {
            let ghost before = self.key_events_info@;
            let _ = self.key_events_info.pop_front();
            proof {
                assert(self.key_events_info.deep_view() =~= pre_q.drop_first());
            }
        }
        let ghost mid_q = self.key_events_info.deep_view();
        let ghost mid = self.key_events_info@;
        self.key_events_info.push_back(entry);
        proof {
            assert(self.key_events_info.deep_view() =~= mid_q.push(entry@));
        }
    }

    /// Logs the help hint in the information band.
    fn help(&mut self)
        ensures
            log_appended(
                *old(self),
                *final(self),
                log_line_spec("HELP"@, "Press <Ctrl+q> to quit the editor"@),
            ),
    {
        self.log_event("HELP", "Press <Ctrl+q> to quit the editor");
    }

    /// Logs a key event that is not a press.
    fn handle_other_key_command(&mut self, s: &str)
        ensures
            log_appended(*old(self), *final(self), log_line_spec("KEY"@, s@)),
    {
        self.log_event("KEY", s);
    }

    /// Logs an event that is neither a key nor a resize.
    fn handle_other_event(&mut self, s: &str)
        ensures
            log_appended(*old(self), *final(self), log_line_spec("OTH"@, s@)),
    {
        self.log_event("OTH", s);
    }

    /// Where the cursor sits on screen: its document location shifted by the
    /// scroll offset, pushed below the information band.  Both axes
    /// saturate rather than wrap.
    pub fn get_cursor_position(&self) -> (p: Position)
        ensures
            p.x as int == sat_sub(self.location.x as int, self.scroll_offset.x as int),
            p.y as int == sat_add(
                sat_sub(self.location.y as int, self.scroll_offset.y as int),
                INFO_SECTION_SIZE as int,
            ),
    {
        let x = sat_sub_usize(self.location.x, self.scroll_offset.x);
        let y = sat_add_usize(sat_sub_usize(self.location.y, self.scroll_offset.y), INFO_SECTION_SIZE);
        Position { x, y }
    }
}

/// The log message recorded when the terminal size changes.
pub open spec fn resize_message(to: Size) -> Seq<char> {
    "Change window size to { height: "@ + dec_rep(to.height as int) + " }, { width:  "@ + dec_rep(
        to.width as int,
    ) + " }"@
}

impl View {
    /// Adopts the new terminal size, marks the document region for repaint,
    /// and logs the change.
    fn resize(&mut self, to: Size)
        ensures
            final(self).size == to,
            final(self).needs_redraw_buffer == true,
            final(self).key_events_info.deep_view() == push_log_spec(
                old(self).key_events_info.deep_view(),
                log_line_spec("INFO"@, resize_message(to)),
            ),
            final(self).buffer == old(self).buffer,
            final(self).location == old(self).location,
            final(self).scroll_offset == old(self).scroll_offset,
            final(self).mode == old(self).mode,
            final(self).only_log_key_press == old(self).only_log_key_press,
    {
        self.size = to;
        self.needs_redraw_buffer = true;
        let mut msg = String::from_str("Change window size to { height: ");
        let h = decimal_string(to.height);
        msg.append(h.as_str());
        msg.append(" }, { width:  ");
        let w = decimal_string(to.width);
        msg.append(w.as_str());
        msg.append(" }");
        proof {
            assert(msg@ =~= resize_message(to));
        }
        self.log_event("INFO", msg.as_str());
    }
}

/// Grapheme length of document row `y`; zero for rows past the end.
pub open spec fn row_grapheme_len(buffer: Buffer, y: int) -> nat {
    if 0 <= y < buffer.lines@.len() {
        buffer.lines@[y].spec_fragments().len()
    } else {
        0
    }
}

/// Rows of the viewport available for document content: everything below
/// the information band.
pub open spec fn content_height(size: Size) -> int {
    sat_sub(size.height as int, INFO_SECTION_SIZE as int)
}

/// Where a directional command puts the cursor, before clamping, as a pair
/// of (grapheme column, row).  Left at column zero wraps to the end of the
/// previous row; Right past the end of a row wraps to the start of the next;
/// page moves shift by one screenful less one row; all axes saturate.
pub open spec fn moved_location(loc: Location, d: Direction, buffer: Buffer, size: Size) -> (
    int,
    int,
) {
    let x = loc.x as int;
    let y = loc.y as int;
    match d {
        Direction::Up => (x, sat_sub(y, 1)),
        Direction::Down => (x, sat_add(y, 1)),
        Direction::Left => if x > 0 {
            (x - 1, y)
        } else if y > 0 {
            (row_grapheme_len(buffer, y - 1) as int, y - 1)
        } else {
            (x, y)
        },
        Direction::Right => if x < row_grapheme_len(buffer, y) {
            (x + 1, y)
        } else {
            (0int, sat_add(y, 1))
        },
        Direction::PageUp => (x, sat_sub(y, sat_sub(content_height(size), 1))),
        Direction::PageDown => (x, sat_add(y, sat_sub(content_height(size), 1))),
        Direction::Home => (0int, y),
        Direction::End => (row_grapheme_len(buffer, y) as int, y),
    }
}

/// Clamps a moved cursor: the column to the target row's grapheme length
/// (zero when the row lies past the document), the row to the line count.
pub open spec fn clamped_location(p: (int, int), buffer: Buffer) -> Location {
    let lines = buffer.lines@.len() as int;
    let x = if 0 <= p.1 < lines {
        if p.0 <= row_grapheme_len(buffer, p.1) {
            p.0
        } else {
            row_grapheme_len(buffer, p.1) as int
        }
    } else {
        0int
    };
    let y = if p.1 <= lines {
        p.1
    } else {
        lines
    };
    Location { x: x as usize, y: y as usize }
}

/// The minimal scroll adjustment on one axis: scroll back to `pos` when it
/// lies before the window, forward to `pos - extent + 1` when it lies at or
/// past the window's end, else stay.
pub open spec fn reveal_axis(pos: int, off: int, extent: int) -> int {
    if pos < off {
        pos
    } else if pos >= sat_add(off, extent) {
        sat_add(sat_sub(pos, extent), 1)
    } else {
        off
    }
}

/// The scroll offset that keeps `loc` visible: the horizontal axis against
/// the viewport width, the vertical axis against the rows below the
/// information band.
pub open spec fn revealed_offset(loc: Location, off: Location, size: Size) -> Location {
    Location {
        x: reveal_axis(loc.x as int, off.x as int, size.width as int) as usize,
        y: reveal_axis(loc.y as int, off.y as int, content_height(size)) as usize,
    }
}

/// Law: after revealing, the position lies inside the window `[offset,
/// offset + extent)` on the axis, for any viewport extent of at least one.
pub proof fn lemma_reveal_in_window(pos: int, off: int, extent: int)
    requires
        0 <= pos <= usize::MAX,
        0 <= off <= usize::MAX,
        1 <= extent,
    ensures
        reveal_axis(pos, off, extent) <= pos < reveal_axis(pos, off, extent) + extent,
{
}

/// Law: revealing is idempotent on the axis — revealing an already revealed
/// position moves nothing.
pub proof fn lemma_reveal_idempotent(pos: int, off: int, extent: int)
    requires
        0 <= pos <= usize::MAX,
        0 <= off <= usize::MAX,
        1 <= extent <= usize::MAX,
    ensures
        reveal_axis(pos, reveal_axis(pos, off, extent), extent) == reveal_axis(pos, off, extent),
{
}

/// Law: after revealing a location, it lies inside the viewport on both
/// axes, whenever the viewport has any width and any row below the
/// information band.
pub proof fn lemma_reveal_location_visible(loc: Location, off: Location, size: Size)
    requires
        size.width >= 1,
        size.height > INFO_SECTION_SIZE,
    ensures
        revealed_offset(loc, off, size).x <= loc.x,
        loc.x < revealed_offset(loc, off, size).x + size.width,
        revealed_offset(loc, off, size).y <= loc.y,
        loc.y < revealed_offset(loc, off, size).y + content_height(size),
{
    lemma_reveal_in_window(loc.x as int, off.x as int, size.width as int);
    lemma_reveal_in_window(loc.y as int, off.y as int, content_height(size));
}

/// Law: a second reveal with no state change is a no-op — the offset stays,
/// so the redraw flag is not raised again.
pub proof fn lemma_reveal_location_idempotent(loc: Location, off: Location, size: Size)
    requires
        size.width >= 1,
        size.height > INFO_SECTION_SIZE,
    ensures
        revealed_offset(loc, revealed_offset(loc, off, size), size) == revealed_offset(
            loc,
            off,
            size,
        ),
{
    lemma_reveal_idempotent(loc.x as int, off.x as int, size.width as int);
    lemma_reveal_idempotent(loc.y as int, off.y as int, content_height(size));
}

/// Law: revealing a position already inside the window is a no-op on the
/// axis: the offset does not move.  The bound on `off + extent` excludes
/// the saturated corner at the machine limit, where the adjustment formula
/// itself saturates.
pub proof fn lemma_reveal_visible_noop(pos: int, off: int, extent: int)
    requires
        0 <= pos <= usize::MAX,
        0 <= off,
        1 <= extent,
        off + extent <= usize::MAX,
        off <= pos < off + extent,
    ensures
        reveal_axis(pos, off, extent) == off,
{
}

/// Law: revealing a location already visible on both axes moves the offset
/// nowhere — and since the redraw flag is raised only on an offset change,
/// such a reveal leaves the flag untouched.
pub proof fn lemma_reveal_visible_location_noop(loc: Location, off: Location, size: Size)
    requires
        size.width >= 1,
        size.height > INFO_SECTION_SIZE,
        off.x + size.width <= usize::MAX,
        off.y + content_height(size) <= usize::MAX,
        off.x <= loc.x < off.x + size.width,
        off.y <= loc.y < off.y + content_height(size),
    ensures
        revealed_offset(loc, off, size) == off,
{
    lemma_reveal_visible_noop(loc.x as int, off.x as int, size.width as int);
    lemma_reveal_visible_noop(loc.y as int, off.y as int, content_height(size));
}

/// Law: revealing twice with no state change in between is idempotent — the
/// second reveal moves the offset nowhere and leaves the redraw flag
/// exactly as the first left it.  `mid` is the view after the first reveal
/// of `pre`, `post` the view after revealing `mid` again.
pub proof fn lemma_second_reveal_is_noop(pre: View, mid: View, post: View)
    requires
        pre.size.width >= 1,
        pre.size.height > INFO_SECTION_SIZE,
        mid.location == pre.location,
        mid.size == pre.size,
        mid.scroll_offset == revealed_offset(pre.location, pre.scroll_offset, pre.size),
        mid.needs_redraw_buffer == (pre.needs_redraw_buffer || mid.scroll_offset
            != pre.scroll_offset),
        post.scroll_offset == revealed_offset(mid.location, mid.scroll_offset, mid.size),
        post.needs_redraw_buffer == (mid.needs_redraw_buffer || post.scroll_offset
            != mid.scroll_offset),
    ensures
        post.scroll_offset == mid.scroll_offset,
        post.needs_redraw_buffer == mid.needs_redraw_buffer,
{
    lemma_reveal_location_idempotent(pre.location, pre.scroll_offset, pre.size);
}

/// The full effect of one cursor movement: the clamped new location, the
/// minimal scroll to keep it visible, the redraw flag raised exactly when
/// the offset changed, and one log entry naming the direction.
pub open spec fn moved_relation(pre: View, post: View, d: Direction) -> bool {
    let loc = clamped_location(moved_location(pre.location, d, pre.buffer, pre.size), pre.buffer);
    let off = revealed_offset(loc, pre.scroll_offset, pre.size);
    &&& post.location == loc
    &&& post.scroll_offset == off
    &&& post.needs_redraw_buffer == (pre.needs_redraw_buffer || off != pre.scroll_offset)
    &&& post.key_events_info.deep_view() == push_log_spec(
        pre.key_events_info.deep_view(),
        log_line_spec("MOVE"@, direction_name(d)),
    )
    &&& post.buffer == pre.buffer
    &&& post.size == pre.size
    &&& post.mode == pre.mode
    &&& post.only_log_key_press == pre.only_log_key_press
}

/// Law: Left at column zero of a later row wraps the cursor to the end of
/// the previous row.  The length bound is the validity of a real document:
/// a row's grapheme count fits the machine word.
pub proof fn lemma_left_wraps_to_previous_row_end(pre: View, post: View)
    requires
        moved_relation(pre, post, Direction::Left),
        pre.location.x == 0,
        0 < pre.location.y <= pre.buffer.lines@.len(),
        row_grapheme_len(pre.buffer, pre.location.y - 1) <= usize::MAX,
    ensures
        post.location.y == pre.location.y - 1,
        post.location.x == row_grapheme_len(pre.buffer, pre.location.y - 1),
{
}

/// Law: Right at the end of the last row moves to the one-past-end row,
/// clamped to the line count — the row never exceeds the document length.
pub proof fn lemma_right_at_end_clamps(pre: View, post: View)
    requires
        moved_relation(pre, post, Direction::Right),
        pre.buffer.lines@.len() > 0,
        pre.buffer.lines@.len() <= usize::MAX,
        pre.location.y == pre.buffer.lines@.len() - 1,
        pre.location.x == row_grapheme_len(pre.buffer, pre.location.y as int),
    ensures
        post.location.y == pre.buffer.lines@.len(),
        post.location.x == 0,
{
}

/// Law: once the cursor stands at the one-past-end row, further Right
/// moves keep it there — row and column do not change.
pub proof fn lemma_right_past_end_stays(pre: View, post: View)
    requires
        moved_relation(pre, post, Direction::Right),
        pre.buffer.lines@.len() <= usize::MAX,
        pre.location.y == pre.buffer.lines@.len(),
        pre.location.x == 0,
    ensures
        post.location.y == pre.buffer.lines@.len(),
        post.location.x == 0,
{
}

impl View {
    /// Grapheme length of document row `y`, zero past the end.
    fn row_len(&self, y: usize) -> (n: usize)
        ensures
            n == row_grapheme_len(self.buffer, y as int),
    {
        if y < self.buffer.lines.len() {
            self.buffer.lines[y].fragment_len()
        } else {
            0
        }
    }

    /// Scrolls just enough to bring the cursor location back into the
    /// visible window; raises the redraw flag exactly when the offset
    /// changed, and leaves it untouched otherwise.  Whenever the viewport
    /// has any width and any row below the information band, the location
    /// afterwards lies inside the window on both axes.
    fn scroll_location_into_view(&mut self)
        ensures
            final(self).scroll_offset == revealed_offset(
                old(self).location,
                old(self).scroll_offset,
                old(self).size,
            ),
            (old(self).size.width >= 1 && old(self).size.height > INFO_SECTION_SIZE) ==> {
                &&& final(self).scroll_offset.x <= old(self).location.x
                &&& old(self).location.x < final(self).scroll_offset.x + old(self).size.width
                &&& final(self).scroll_offset.y <= old(self).location.y
                &&& old(self).location.y < final(self).scroll_offset.y + content_height(
                    old(self).size,
                )
            },
            final(self).needs_redraw_buffer == (old(self).needs_redraw_buffer || final(self).scroll_offset != old(self).scroll_offset),
            final(self).key_events_info == old(self).key_events_info,
            final(self).buffer == old(self).buffer,
            final(self).size == old(self).size,
            final(self).location == old(self).location,
            final(self).mode == old(self).mode,
            final(self).only_log_key_press == old(self).only_log_key_press,
    {
        let x = self.location.x;
        let y = self.location.y;
        let width = self.size.width;
        let buffer_height = sat_sub_usize(self.size.height, INFO_SECTION_SIZE);
        let mut offset_changed = false;
        if x < self.scroll_offset.x {
            self.scroll_offset.x = x;
            offset_changed = true;
        } else if x >= sat_add_usize(self.scroll_offset.x, width) {
            let next = sat_add_usize(sat_sub_usize(x, width), 1);
            if next != self.scroll_offset.x {
                offset_changed = true;
            }
            self.scroll_offset.x = next;
        }
        if y < self.scroll_offset.y {
            self.scroll_offset.y = y;
            offset_changed = true;
        } else if y >= sat_add_usize(self.scroll_offset.y, buffer_height) {
            let next = sat_add_usize(sat_sub_usize(y, buffer_height), 1);
            if next != self.scroll_offset.y {
                offset_changed = true;
            }
            self.scroll_offset.y = next;
        }
        if offset_changed {
            self.needs_redraw_buffer = true;
        }
        proof {
            if self.size.width >= 1 && self.size.height > INFO_SECTION_SIZE {
                lemma_reveal_location_visible(self.location, old(self).scroll_offset, self.size);
            }
        }
    }

    /// Applies one directional command: moves the cursor, clamps it to the
    /// document, scrolls it into view and logs the move.
    fn move_text_location(&mut self, direction: Direction)
        ensures
            moved_relation(*old(self), *final(self), direction),
    {
        let mut x = self.location.x;
        let mut y = self.location.y;
        let buffer_height = sat_sub_usize(self.size.height, INFO_SECTION_SIZE);
        match direction {
            Direction::Up => {
                y = sat_sub_usize(y, 1);
            },
            Direction::Down => {
                y = sat_add_usize(y, 1);
            },
            Direction::Left => {
                if x > 0 {
                    x = x - 1;
                } else if y > 0 {
                    y = y - 1;
                    x = self.row_len(y);
                }
            },
            Direction::Right => {
                let width = self.row_len(y);
                if x < width {
                    x = x + 1;
                } else {
                    y = sat_add_usize(y, 1);
                    x = 0;
                }
            },
            Direction::PageUp => {
                y = sat_sub_usize(y, sat_sub_usize(buffer_height, 1));
            },
            Direction::PageDown => {
                y = sat_add_usize(y, sat_sub_usize(buffer_height, 1));
            },
            Direction::Home => {
                x = 0;
            },
            Direction::End => {
                x = self.row_len(y);
            },
        }
        if y < self.buffer.lines.len() {
            let len = self.row_len(y);
            if x > len {
                x = len;
            }
        } else {
            x = 0;
        }
        if y > self.buffer.lines.len() {
            y = self.buffer.lines.len();
        }
        self.location = Location { x, y };
        self.scroll_location_into_view();
        let name = direction.name();
        self.log_event("MOVE", name.as_str());
    }
}

/// The log message recorded when a file was opened.
pub open spec fn opened_message(filename: Seq<char>) -> Seq<char> {
    "\""@ + filename + "\" opened."@
}

/// The log message recorded when a file could not be read.
pub open spec fn open_failed_message(filename: Seq<char>) -> Seq<char> {
    "Could not open \""@ + filename + "\"."@
}

impl View {
    /// Takes the freshly read lines of `filename` into the buffer, or, when
    /// the read failed (`contents` is `None`), leaves the buffer exactly as
    /// it was.  Either way one log entry records the outcome.  Replacing
    /// the buffer is a content change, so a successful load raises the
    /// redraw flag; a failed load changes no visible cell and leaves it
    /// untouched.  The length bound on each line is a machine limit (see
    /// `Line::from`).
    pub fn load_file(&mut self, filename: &str, contents: Option<Vec<String>>)
        requires
            match contents {
                Some(lines) => forall|i: int|
                    0 <= i < lines@.len() ==> (#[trigger] lines@[i])@.len() <= usize::MAX / 2,
                None => true,
            },
        ensures
            match contents {
                Some(lines) => {
                    &&& final(self).buffer.lines@.len() == lines@.len()
                    &&& forall|i: int|
                        0 <= i < lines@.len() ==> (#[trigger] final(self).buffer.lines@[i]).text()
                            == lines@[i]@
                    &&& final(self).key_events_info.deep_view() == push_log_spec(
                        old(self).key_events_info.deep_view(),
                        log_line_spec("INFO"@, opened_message(filename@)),
                    )
                    &&& final(self).needs_redraw_buffer == true
                },
                None => log_appended(
                    *old(self),
                    *final(self),
                    log_line_spec("INFO"@, open_failed_message(filename@)),
                ),
            },
            final(self).size == old(self).size,
            final(self).location == old(self).location,
            final(self).scroll_offset == old(self).scroll_offset,
            final(self).mode == old(self).mode,
            final(self).only_log_key_press == old(self).only_log_key_press,
    {
        match contents {
            Some(lines) => {
                self.buffer = Buffer::from_lines(lines);
                self.needs_redraw_buffer = true;
                let mut msg = String::from_str("\"");
                msg.append(filename);
                msg.append("\" opened.");
                proof {
                    assert(msg@ =~= opened_message(filename@));
                }
                self.log_event("INFO", msg.as_str());
            },
            None => {
                let mut msg = String::from_str("Could not open \"");
                msg.append(filename);
                msg.append("\".");
                proof {
                    assert(msg@ =~= open_failed_message(filename@));
                }
                self.log_event("INFO", msg.as_str());
            },
        }
    }
}

/// What one editor command does to the view: a move navigates, a resize
/// adopts the new size and repaints, other events are logged, and a quit
/// leaves the view untouched.
pub open spec fn handle_command_relation(pre: View, post: View, command: EditorCommand) -> bool {
    match command {
        EditorCommand::Help => log_appended(
            pre,
            post,
            log_line_spec("HELP"@, "Press <Ctrl+q> to quit the editor"@),
        ),
        EditorCommand::Move(d) => moved_relation(pre, post, d),
        EditorCommand::Resize(to) => {
            &&& post.size == to
            &&& post.needs_redraw_buffer == true
            &&& post.key_events_info.deep_view() == push_log_spec(
                pre.key_events_info.deep_view(),
                log_line_spec("INFO"@, resize_message(to)),
            )
            &&& post.buffer == pre.buffer
            &&& post.location == pre.location
            &&& post.scroll_offset == pre.scroll_offset
            &&& post.mode == pre.mode
            &&& post.only_log_key_press == pre.only_log_key_press
        },
        EditorCommand::OtherKeyCommand(s) => if !pre.only_log_key_press {
            log_appended(pre, post, log_line_spec("KEY"@, s@))
        } else {
            post == pre
        },
        EditorCommand::OtherEvent(s) => log_appended(pre, post, log_line_spec("OTH"@, s@)),
        EditorCommand::Quit => post == pre,
    }
}

impl View {
    /// Routes one editor command to the matching view operation.
    pub fn handle_command(&mut self, command: EditorCommand)
        ensures
            handle_command_relation(*old(self), *final(self), command),
    {
        match command {
            EditorCommand::Help => {
                self.help();
            },
            EditorCommand::Move(direction) => {
                self.move_text_location(direction);
            },
            EditorCommand::Resize(to) => {
                self.resize(to);
            },
            EditorCommand::OtherKeyCommand(s) => {
                if !self.only_log_key_press {
                    self.handle_other_key_command(s.as_str());
                }
            },
            EditorCommand::OtherEvent(s) => {
                self.handle_other_event(s.as_str());
            },
            EditorCommand::Quit => {},
        }
    }
}

/// The banner shown in an empty document.
pub open spec fn welcome_message() -> Seq<char> {
    "rim editor -- version 0.1.0"@
}

/// The key hint shown below the banner in an empty document.
pub open spec fn help_message() -> Seq<char> {
    "Press <Ctrl+h> for help; Press <Ctrl+q> to exit"@
}

/// The warning shown when the terminal has no room below the information
/// band.
pub open spec fn size_warning_message() -> Seq<char> {
    "Terminal size too small, please resize the window"@
}

/// A banner row: a tilde, then spaces centering `msg` in `width` cells, the
/// whole cut to `width` characters.
pub open spec fn centered_row_spec(msg: Seq<char>, width: int) -> Seq<char> {
    let len = msg.len() as int;
    let padding = if width > len {
        (width - len) / 2
    } else {
        0
    };
    let full = seq!['~'] + spaces(padding - 1) + msg;
    if full.len() > width {
        full.take(width)
    } else {
        full
    }
}

/// The text of information-band row `row`: the matching log entry, or blank
/// below the last entry.
pub open spec fn info_row_spec(q: Seq<Seq<char>>, row: int) -> Seq<char> {
    if 0 <= row < q.len() {
        q[row]
    } else {
        Seq::empty()
    }
}

/// The text of document-region row `row`: the visible cell window of the
/// document row it shows, or a tilde for rows past the document's end.
pub open spec fn buffer_row_spec(v: View, row: int) -> Seq<char> {
    let idx = sat_add(row - INFO_SECTION_SIZE as int, v.scroll_offset.y as int);
    if 0 <= idx < v.buffer.lines@.len() {
        display_slice_spec(
            v.buffer.lines@[idx],
            v.scroll_offset.x as int,
            sat_add(v.scroll_offset.x as int, v.size.width as int),
        )
    } else {
        "~"@
    }
}

/// The text of document-region row `row` for an empty document: the welcome
/// banner a third of the way down, the key hint two rows below it, tildes
/// elsewhere.
pub open spec fn welcome_row_spec(v: View, row: int) -> Seq<char> {
    let start_index = sat_sub(v.size.height as int, INFO_SECTION_SIZE as int) / 3;
    let buffer_index = row - INFO_SECTION_SIZE as int;
    if buffer_index == start_index {
        centered_row_spec(welcome_message(), v.size.width as int)
    } else if buffer_index == start_index + 2 {
        centered_row_spec(help_message(), v.size.width as int)
    } else {
        "~"@
    }
}

/// The text of screen row `row` when the terminal is too small: the warning
/// on the first row, blank rows below.
pub open spec fn warning_row_spec(row: int) -> Seq<char> {
    if row == 0 {
        size_warning_message()
    } else {
        Seq::empty()
    }
}

/// The text of screen row `row` in a full repaint: the information band on
/// top, then the document region (or the welcome screen when the document
/// is empty).
pub open spec fn screen_row_spec(v: View, row: int) -> Seq<char> {
    if row < INFO_SECTION_SIZE as int {
        info_row_spec(v.key_events_info.deep_view(), row)
    } else if v.buffer.lines@.len() == 0 {
        welcome_row_spec(v, row)
    } else {
        buffer_row_spec(v, row)
    }
}

/// Builds one centered banner row.
fn centered_row(msg: &str, width: usize) -> (r: String)
    ensures
        r@ == centered_row_spec(msg@, width as int),
{
    let len = msg.unicode_len();
    let padding: usize = if width > len {
        (width - len) / 2
    } else {
        0
    };
    let pad_count: usize = if padding > 0 {
        padding - 1
    } else {
        0
    };
    let mut s = String::from_str("~");
    proof {
        reveal_strlit("~");
        assert(s@ =~= seq!['~'] + spaces(0));
    }
    push_spaces(&mut s, pad_count);
    s.append(msg);
    proof {
        assert(s@ =~= seq!['~'] + spaces(padding - 1) + msg@);
    }
    let total = s.unicode_len();
    if total > width {
        let t = s.as_str().substring_char(0, width);
        let cut = String::from_str(t);
        proof {
            assert(cut@ =~= centered_row_spec(msg@, width as int));
        }
        cut
    } else {
        s
    }
}

impl View {
    /// The tilde marking a row past the document's end.
    fn draw_empty_row() -> (s: String)
        ensures
            s@ == "~"@,
    {
        String::from_str("~")
    }

    /// The centered welcome banner for this view's width.
    fn draw_welcome_msg(&self) -> (s: String)
        ensures
            s@ == centered_row_spec(welcome_message(), self.size.width as int),
    {
        centered_row("rim editor -- version 0.1.0", self.size.width)
    }

    /// The centered key hint for this view's width.
    fn draw_help_msg(&self) -> (s: String)
        ensures
            s@ == centered_row_spec(help_message(), self.size.width as int),
    {
        centered_row("Press <Ctrl+h> for help; Press <Ctrl+q> to exit", self.size.width)
    }

    /// The paint plan when the terminal is too small: the warning on the
    /// first row, every other row blank.
    fn draw_size_warning(&self) -> (rows: Vec<RowPaint>)
        ensures
            rows@.len() == self.size.height as int,
            forall|r: int|
                0 <= r < rows@.len() ==> (#[trigger] rows@[r]).row == r && rows@[r].text@
                    == warning_row_spec(r),
    {
        let mut rows: Vec<RowPaint> = Vec::new();
        let mut row: usize = 0;
        while row < self.size.height
            invariant
                row <= self.size.height,
                rows@.len() == row as int,
                forall|r: int|
                    0 <= r < rows@.len() ==> (#[trigger] rows@[r]).row == r && rows@[r].text@
                        == warning_row_spec(r),
            decreases self.size.height - row,
        {
            let text = if row == 0 {
                String::from_str("Terminal size too small, please resize the window")
            } else {
                String::new()
            };
            rows.push(RowPaint { row, text });
            row = row + 1;
        }
        rows
    }

    /// The paint plan of the information band: one row per log entry, blank
    /// rows below the last entry.
    fn render_info(&self) -> (rows: Vec<RowPaint>)
        ensures
            rows@.len() == INFO_SECTION_SIZE as int,
            forall|r: int|
                0 <= r < rows@.len() ==> (#[trigger] rows@[r]).row == r && rows@[r].text@
                    == info_row_spec(self.key_events_info.deep_view(), r),
    {
        let mut rows: Vec<RowPaint> = Vec::new();
        let mut row: usize = 0;
        while row < INFO_SECTION_SIZE
            invariant
                row <= INFO_SECTION_SIZE,
                rows@.len() == row as int,
                forall|r: int|
                    0 <= r < rows@.len() ==> (#[trigger] rows@[r]).row == r && rows@[r].text@
                        == info_row_spec(self.key_events_info.deep_view(), r),
            decreases INFO_SECTION_SIZE - row,
        {
            let text = if row < self.key_events_info.len() {
                let entry = &self.key_events_info[row];
                entry.clone()
            } else {
                String::new()
            };
            rows.push(RowPaint { row, text });
            row = row + 1;
        }
        rows
    }

    /// The paint plan of the document region, and clears the redraw flag.
    fn render_buffer(&mut self) -> (rows: Vec<RowPaint>)
        requires
            old(self).size.height > INFO_SECTION_SIZE,
        ensures
            final(self).needs_redraw_buffer == false,
            final(self).key_events_info == old(self).key_events_info,
            final(self).buffer == old(self).buffer,
            final(self).size == old(self).size,
            final(self).location == old(self).location,
            final(self).scroll_offset == old(self).scroll_offset,
            final(self).mode == old(self).mode,
            final(self).only_log_key_press == old(self).only_log_key_press,
            rows@.len() == old(self).size.height - INFO_SECTION_SIZE,
            forall|i: int|
                0 <= i < rows@.len() ==> (#[trigger] rows@[i]).row == INFO_SECTION_SIZE + i
                    && rows@[i].text@ == buffer_row_spec(*old(self), INFO_SECTION_SIZE + i),
    {
        let height = self.size.height;
        let top_row = self.scroll_offset.y;
        let mut rows: Vec<RowPaint> = Vec::new();
        let mut row: usize = INFO_SECTION_SIZE;
        while row < height
            invariant
                INFO_SECTION_SIZE <= row <= height,
                height == self.size.height,
                top_row == self.scroll_offset.y,
                *self == *old(self),
                rows@.len() == row - INFO_SECTION_SIZE,
                forall|i: int|
                    0 <= i < rows@.len() ==> (#[trigger] rows@[i]).row == INFO_SECTION_SIZE + i
                        && rows@[i].text@ == buffer_row_spec(*old(self), INFO_SECTION_SIZE + i),
            decreases height - row,
        {
            let buffer_index = row - INFO_SECTION_SIZE;
            let idx = sat_add_usize(buffer_index, top_row);
            let text = if idx < self.buffer.lines.len() {
                let start = self.scroll_offset.x;
                let end = sat_add_usize(self.scroll_offset.x, self.size.width);
                self.buffer.lines[idx].get_display_string(start..end)
            } else {
                Self::draw_empty_row()
            };
            rows.push(RowPaint { row, text });
            row = row + 1;
        }
        self.needs_redraw_buffer = false;
        rows
    }

    /// The paint plan of the welcome screen shown for an empty document, and
    /// clears the redraw flag.
    fn render_welcome_buffer(&mut self) -> (rows: Vec<RowPaint>)
        requires
            old(self).size.height > INFO_SECTION_SIZE,
        ensures
            final(self).needs_redraw_buffer == false,
            final(self).key_events_info == old(self).key_events_info,
            final(self).buffer == old(self).buffer,
            final(self).size == old(self).size,
            final(self).location == old(self).location,
            final(self).scroll_offset == old(self).scroll_offset,
            final(self).mode == old(self).mode,
            final(self).only_log_key_press == old(self).only_log_key_press,
            rows@.len() == old(self).size.height - INFO_SECTION_SIZE,
            forall|i: int|
                0 <= i < rows@.len() ==> (#[trigger] rows@[i]).row == INFO_SECTION_SIZE + i
                    && rows@[i].text@ == welcome_row_spec(*old(self), INFO_SECTION_SIZE + i),
    {
        let height = self.size.height;
        let start_index = (height - INFO_SECTION_SIZE) / 3;
        let mut rows: Vec<RowPaint> = Vec::new();
        let mut row: usize = INFO_SECTION_SIZE;
        while row < height
            invariant
                INFO_SECTION_SIZE <= row <= height,
                height == self.size.height,
                height > INFO_SECTION_SIZE,
                start_index == (height - INFO_SECTION_SIZE) / 3,
                *self == *old(self),
                rows@.len() == row - INFO_SECTION_SIZE,
                forall|i: int|
                    0 <= i < rows@.len() ==> (#[trigger] rows@[i]).row == INFO_SECTION_SIZE + i
                        && rows@[i].text@ == welcome_row_spec(*old(self), INFO_SECTION_SIZE + i),
            decreases height - row,
        {
            let buffer_index = row - INFO_SECTION_SIZE;
            let text = if buffer_index == start_index {
                self.draw_welcome_msg()
            } else if buffer_index == start_index + 2 {
                self.draw_help_msg()
            } else {
                Self::draw_empty_row()
            };
            rows.push(RowPaint { row, text });
            row = row + 1;
        }
        self.needs_redraw_buffer = false;
        rows
    }

    /// The paint plan for one frame.  A terminal with no room below the
    /// information band gets only the size warning.  Otherwise the
    /// information band is always repainted; the document region is
    /// repainted only when the redraw flag is set, and the flag is cleared
    /// afterwards.  An empty document shows the welcome screen in place of
    /// content.
    pub fn render(&mut self) -> (plan: Vec<RowPaint>)
        ensures
            final(self).key_events_info == old(self).key_events_info,
            final(self).buffer == old(self).buffer,
            final(self).size == old(self).size,
            final(self).location == old(self).location,
            final(self).scroll_offset == old(self).scroll_offset,
            final(self).mode == old(self).mode,
            final(self).only_log_key_press == old(self).only_log_key_press,
            old(self).size.height > INFO_SECTION_SIZE ==> {
                &&& final(self).needs_redraw_buffer == false
                &&& plan@.len() == (if old(self).needs_redraw_buffer {
                    old(self).size.height as int
                } else {
                    INFO_SECTION_SIZE as int
                })
                &&& forall|r: int|
                    0 <= r < plan@.len() ==> (#[trigger] plan@[r]).row == r && plan@[r].text@
                        == screen_row_spec(*old(self), r)
            },
            old(self).size.height <= INFO_SECTION_SIZE ==> {
                &&& final(self).needs_redraw_buffer == old(self).needs_redraw_buffer
                &&& plan@.len() == old(self).size.height as int
                &&& forall|r: int|
                    0 <= r < plan@.len() ==> (#[trigger] plan@[r]).row == r && plan@[r].text@
                        == warning_row_spec(r)
            },
    {
        let height = self.size.height;
        if height > INFO_SECTION_SIZE {
            let mut plan = self.render_info();
            if self.needs_redraw_buffer {
                let mut rest = if self.buffer.is_empty() {
                    self.render_welcome_buffer()
                } else {
                    self.render_buffer()
                };
                plan.append(&mut rest);
            }
            plan
        } else {
            self.draw_size_warning()
        }
    }
}

} // verus!
