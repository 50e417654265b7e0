//! Verified core of a single-pass renderer for a regular polygon.
//!
//! The library models colors as fixed-point channel values, assembles the
//! shader sources that a render pass compiles, decides the outcome of each
//! pipeline stage, and drives one render pass as a state machine.  A thin
//! unverified shell performs the graphics and document calls and feeds their
//! outcomes back into the machine as events.
pub mod channel;
pub mod colors;
pub mod config;
pub mod errors;
pub mod numerals;
pub mod pass;
pub mod polygons;
pub mod renderer;
pub mod shaders;
