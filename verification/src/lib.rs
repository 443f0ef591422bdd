//! Verified core of a battery system-tray indicator.
//!
//! The library covers the logic of the tray pipeline: formatting a battery
//! sample into display text, fitting that text onto a fixed square canvas by
//! binary search over the font scale, rasterizing and encoding the icon,
//! memoizing icons per battery state, and the sampler / channel state
//! machines that connect the polling side to the consumer side.

pub mod cache;
pub mod channel;
pub mod icon;
pub mod sample;
pub mod text;
