//! Recognition of ANSI SGR ("Select Graphic Rendition") escape sequences
//! of the form `ESC '[' (param (';' param)*)? 'm'` in a raw byte stream.

pub mod attribute;
pub mod cursor;
pub mod scanner;
pub mod laws;
