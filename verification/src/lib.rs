//! rim: the text-layout and viewport core of a terminal text viewer.
//!
//! The crate turns Unicode text lines into exact screen-cell output under
//! variable glyph widths, and keeps an abstract cursor location visible
//! through horizontal and vertical scrolling.  Raw terminal I/O, input
//! decoding and file loading are collaborators that live outside this
//! library.
pub mod buffer;
pub mod editor;
pub mod editorcommand;
pub mod geometry;
pub mod line;
pub mod strfmt;
pub mod view;
