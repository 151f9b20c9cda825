//! Change detection and notification core of a development-mode live-reload
//! assistant: a polling watcher over a fixed set of project directories, a
//! process-wide watermark of the newest modification seen, and the per-client
//! notification loop that turns detected changes into push messages.

pub mod config;
pub mod detector;
pub mod message;
pub mod session;
pub mod spark;
pub mod text;
pub mod watermark;

