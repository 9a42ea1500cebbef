//! Conversion of binding patterns into parameter descriptors, and their
//! canonical rendering as signature text.
//!
//! `pattern` models the patterns a parser hands over, `convert` turns them
//! into the descriptors of `params`, which render themselves, and `laws`
//! states what holds of every conversion and rendering.
pub mod convert;
pub mod laws;
pub mod params;
pub mod pattern;
