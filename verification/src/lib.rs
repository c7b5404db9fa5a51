//! Focus-state pipeline of a window-manager status indicator.
//!
//! The library tracks which window currently has input focus: it reconciles
//! an initial snapshot of open windows, filters a live stream of
//! window-manager events down to focus-relevant transitions, and fixes the
//! exact ordered sequence of focus-state updates that is forwarded to the
//! rendering side. The surrounding widget toolkit, the IPC client and the
//! worker thread are unverified collaborators that feed plain values in and
//! take plain values out.

pub mod config;
pub mod filter;
pub mod tracker;
pub mod window;
