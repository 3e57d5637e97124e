//! The messages carried by the two channels of the bridge.

use vstd::prelude::*;

verus! {

/// A command from the host to the window thread.
#[derive(Debug)]
pub enum ToWindow {
    /// Replace the page body with this markup.
    ReplaceHtml(String),
    /// Request (`true`) or clear (`false`) the user's attention.
    SetAlert(bool),
    /// Ask for a `SizeReturned` reply.
    SizeRequested,
    /// End the window thread.
    Close,
}

/// An event from the window thread to the host.
#[derive(Debug)]
pub enum ToLuau {
    /// Application content posted by the page.
    IpcMessage(String),
    /// The inner size of the window, in logical units; sent only in reply
    /// to `SizeRequested`.
    SizeReturned(i32, i32),
    /// The window is gone; nothing follows.
    WindowClosed,
}

} // verus!
