//! Styling data for the declarative UI layer.

pub mod style;
