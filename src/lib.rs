//! A terminal text viewer: a line buffer, a cursor that navigates it, and the
//! drawing commands that render both. The terminal itself is driven by the
//! caller, which executes the drawing commands and feeds key events back in.
pub mod edit;
pub mod file;
pub mod nav;
pub mod row;
pub mod term;
