//! Decorates the ASCII letters and digits of a text with Unicode glyph
//! variants (bold, italic, script, monospace, regional-indicator emoji, ...)
//! drawn from a fixed catalog of font styles, and drives the interactive
//! live-preview prompt that lets a user cycle through the candidate fonts
//! before confirming one.

pub mod convert;
pub mod font;
pub mod prompt;
