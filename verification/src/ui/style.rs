//! Styles: named bundles of rules applied to UI elements by tag name.

use vstd::prelude::*;

verus! {

/// An RGBA color with eight bits per channel.
#[derive(Clone, Copy, Debug, PartialEq, Eq, Structural)]
pub struct Color {
    pub r: u8,
    pub g: u8,
    pub b: u8,
    pub a: u8,
}

/// One styling rule.
#[derive(Clone, Copy, Debug, PartialEq, Eq, Structural)]
pub enum StyleRule {
    BackgroundColor(Color),
    TextColor(Color),
}

/// The rules of one style, in declaration order.
pub struct Style {
    pub rules: Vec<StyleRule>,
}

impl Style {
    pub fn get_rules(&self) -> (r: &Vec<StyleRule>)
        ensures
            r@ == self.rules@,
    {
        &self.rules
    }
}

} // verus!
