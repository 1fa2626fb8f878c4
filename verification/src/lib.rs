//! Keystroke-driven command sender: key tables, session state and the two
//! wire encodings (a structured text command and a fixed binary pose frame).
//!
//! Every quantity is held as an exact fixed-point integer, so that each rule
//! of the key tables is stated, and proved, over whole numbers.
//!
//! - [`keybindings`]: the editor's context, key table and dispatch
//! - [`pose`]: the simulated vehicle's pose and its keys
//! - [`command`]: the text commands; [`decode`]: reading a move request back
//! - [`frame`]: the binary pose frame
//! - [`decimal`]: decimal text of fixed-point numbers
//! - [`screen`]: what each program shows
//! - [`session`]: one turn of each program's input loop

pub mod command;
pub mod decimal;
pub mod decode;
pub mod frame;
pub mod keybindings;
pub mod pose;
pub mod screen;
pub mod session;
