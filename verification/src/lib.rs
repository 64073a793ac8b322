//! A real-time frame pipeline that renders camera frames as styled text:
//! a pure conversion engine that maps raw RGB buffers to glyph grids, a
//! capture engine that drives a device stream as a verified state machine,
//! and a dispatch loop that coalesces frame bursts down to the newest
//! frame so a slow consumer never builds a backlog.

use vstd::prelude::*;

pub mod action;
pub mod ascii;
pub mod camera;
pub mod dispatch;
pub mod home;

verus! {

} // verus!
