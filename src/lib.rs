//! Interactive state engine of a terminal browser over installed packages:
//! cursor arithmetic, editable text fields, incremental filtering, the mode
//! state machine and the command dispatcher, each stated and proved with Verus.

pub mod cursor;
pub mod text;
pub mod app;
pub mod filter;
pub mod config;
pub mod display_texts;
pub mod command;
pub mod keys;
pub mod paclist;
