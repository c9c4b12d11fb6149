//! Sorting layers: the fixed draw-order partition of the scene. Everything
//! on the background layer is drawn before anything on the foreground
//! layer, so the foreground always occludes the background.

use vstd::prelude::*;

verus! {

/// The two-layer draw-order policy.
#[derive(Clone, Copy, Debug, PartialEq, Eq, Structural)]
pub enum SortingLayer {
    Background,
    Foreground,
}

} // verus!
