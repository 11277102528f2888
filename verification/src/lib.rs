//! Deterministic core of a small idle-animation scene viewer.
//!
//! A host rendering engine drives a frame loop and hands this library the
//! elapsed time since start-up.  The library decides, purely from that time,
//! which idle-animation window is active and which rotation command each
//! entity's transform should receive this frame (`idle`), applies commands to
//! a transform while provably touching nothing but the rotation components it
//! was asked to write (`transform`), and reconciles a render surface's size
//! with the embedding page's viewport (`viewport`).  Evaluating the commands
//! into scalar rotation angles is the host's job: the formulas are fixed by
//! the command, and the command itself is what is verified here.

pub mod idle;
pub mod transform;
pub mod viewport;

