//! A small library for vim-style navigation over a fixed document of text
//! lines: a cursor that always stays on a valid cell, word-wise and line-wise
//! motions, and a scroll window that keeps the cursor visible.

pub mod tui;
pub mod util;
