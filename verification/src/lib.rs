//! A window-tabbing container: one on-screen container window adopts
//! arbitrary client windows as tabs by reparenting them into itself, and
//! gives the user keyboard and mouse control over which tab is visible and
//! in what order.
//!
//! This crate holds the verified core: the event-driven controller that
//! tracks the managed children, maintains the focus and ordering
//! invariants, lays out the tab bar, interprets keybindings into actions,
//! and runs the attach/detach/cleanup protocol.  The windowing transport
//! and the rendering surface are external collaborators: the controller
//! consumes plain events and emits plain commands, which a thin unverified
//! shell carries to and from the display server.

use vstd::prelude::*;

pub mod color;
pub mod config;
pub mod draw;
pub mod laws;
pub mod state;

verus! {

/// Identity string by which any process can recognise a tab container:
/// it is stored in the class and name properties of the container window.
pub fn tabbed_window_class() -> (r: &'static str)
    ensures
        r@ == "tabbed-rs"@,
{
    "tabbed-rs"
}

} // verus!
