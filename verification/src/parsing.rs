//! Parsing of styling data handed in as plain text.

pub mod styles;
