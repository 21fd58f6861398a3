//! Core of a small always-on-top webview shell: where the window goes on
//! the monitor, which commands the hosted page may relay into the native
//! event loop, and how the loop reacts to them.

pub mod dispatch;
pub mod geometry;
pub mod relay;
