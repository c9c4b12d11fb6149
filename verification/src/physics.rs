//! Physics utilities consumed by the component layer.

pub mod collider;
