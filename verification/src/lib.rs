//! A verified core for a userspace driver of a circular trackpad: configuration
//! resolution and the gesture state machine that turns multitouch events into
//! pointer frames, clicks and keyboard shortcuts.
pub mod config;
pub mod gestures;
pub mod laws;
