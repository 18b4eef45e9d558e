//! A pixel-buffer presentation engine.
//!
//! Given a borrowed array of packed 32-bit pixels and target dimensions, the
//! engine delivers the frame to an on-screen drawable through the fastest
//! available transport: a shared-memory segment mapped into both this process
//! and the display service, falling back to serialising the pixel bytes into a
//! protocol request whenever the fast path is unavailable or fails.
//!
//! The engine itself is a verified decision core: every request it would issue
//! against the display service or the system appears as an explicit
//! [`action::Action`], and the outcomes of those requests are supplied to it
//! as plain values. A thin unverified driver performs the actual foreign
//! calls.

pub mod action;
pub mod engine;
pub mod error;
pub mod frame;
pub mod laws;
pub mod segment;
