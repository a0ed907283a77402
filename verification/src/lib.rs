//! Core of an on-screen virtual keyboard overlay for touch-only devices.
//!
//! The crate is deliberately independent of any concrete GUI toolkit: it
//! decides when the keyboard should be visible (a small hysteresis state
//! machine, [`visibility`]), computes exact button geometry for a grid of
//! keys ([`geometry`]), and turns key presses into synthetic input events
//! together with the focus bookkeeping the host needs ([`state`]).  A thin
//! host-specific layer renders the computed geometry and moves events and
//! focus requests between this core and the toolkit.
//!
//! All layout arithmetic is exact: lengths are fractions of the available
//! width or height, held as integer numerators over a common denominator,
//! so conservation laws (each row fills the width exactly, the grid fills
//! exactly one third of the height) are theorems rather than float
//! approximations.

pub mod clipboard;
pub mod geometry;
pub mod keys;
pub mod state;
pub mod visibility;
