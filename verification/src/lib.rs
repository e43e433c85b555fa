//! A real-number capability layer: one trait that generic numeric code can be
//! written against, together with a fixed-point decimal representation that
//! satisfies it with explicit saturation at the extremes of the input range.

pub mod backend;
pub mod decimal;
pub mod num;
