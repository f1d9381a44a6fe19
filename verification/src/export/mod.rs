//! The report rendered as text. Writing the text to a file is left to the
//! caller.

pub mod csv;
pub mod html;
