//! A template-driven log-line formatter in the style of a browser console:
//! the first argument, when textual, is scanned for `%`-directives which
//! consume the remaining arguments; anything left over is appended with a
//! type-sensitive default rendering.

pub mod compose;
pub mod eserror;
pub mod laws;
pub mod render;
pub mod text;
pub mod value;
