//! The document: an ordered sequence of text lines.
use crate::line::Line;
use vstd::prelude::*;

verus! {

/// Ordered text lines of the loaded document, row `i` at index `i`.
pub struct Buffer {
    pub lines: Vec<Line>,
}

impl Default for Buffer {
    /// An empty buffer.
    fn default() -> (buffer: Self)
        ensures
            buffer.lines@.len() == 0,
    {
        Buffer { lines: Vec::new() }
    }
}

impl Buffer {
    /// Builds a buffer from already-read text lines, one `Line` per entry.
    /// The length bound on each entry is a machine limit (see `Line::from`).
    pub fn from_lines(line_strs: Vec<String>) -> (buffer: Buffer)
        requires
            forall|i: int|
                0 <= i < line_strs@.len() ==> (#[trigger] line_strs@[i])@.len() <= usize::MAX / 2,
        ensures
            buffer.lines@.len() == line_strs@.len(),
            forall|i: int|
                0 <= i < line_strs@.len() ==> (#[trigger] buffer.lines@[i]).text() == line_strs@[i]@,
    {
        let mut lines: Vec<Line> = Vec::new();
        let mut i: usize = 0;
        while i < line_strs.len()
            invariant
                i <= line_strs@.len(),
                lines@.len() == i,
                forall|j: int|
                    0 <= j < line_strs@.len() ==> (#[trigger] line_strs@[j])@.len() <= usize::MAX
                        / 2,
                forall|j: int|
                    0 <= j < i ==> (#[trigger] lines@[j]).text() == line_strs@[j]@,
            decreases line_strs@.len() - i,
        {
            let line = Line::from(line_strs[i].as_str());
            lines.push(line);
            i = i + 1;
        }
        Buffer { lines }
    }

    /// True when the buffer holds no lines at all.
    pub fn is_empty(&self) -> (r: bool)
        ensures
            r == (self.lines@.len() == 0),
    {
        self.lines.len() == 0
    }
}

} // verus!
