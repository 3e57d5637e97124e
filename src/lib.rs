//! Verified core of a bridge between a scripting host and a native window
//! that embeds a web-content renderer.
//!
//! The window runs on a thread of its own. Two one-directional channels
//! connect it to the host: commands go towards the window, events come back.
//! This crate holds the decisions of both sides: the pointer classifier that
//! drives resizing of a borderless window, the parser of the small command
//! protocol spoken by the rendered content, the per-tick decisions of the
//! window thread, the checks that guard the opaque handle handed to the host,
//! and the host-side operations of the bridge handle.

pub mod bridge;
pub mod channel;
pub mod handle;
pub mod ipc;
pub mod messages;
pub mod page;
pub mod resize;
pub mod text;
pub mod window;
