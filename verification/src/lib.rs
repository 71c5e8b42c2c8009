//! The decisions behind a desktop downloader for ROM archives.
//!
//! Everything that a click, a message from a worker thread or an answer from the
//! network makes the program decide stands here, as functions on plain values.
//! Drawing, networking, files and threads are left to the program around it.

pub mod app;
pub mod data;
pub mod download;
pub mod download_laws;
pub mod filename;
pub mod model;
pub mod navigation;
pub mod panels;
pub mod patterns;
pub mod progress;
pub mod queue;
pub mod queue_laws;
pub mod removal;
pub mod search;
pub mod selection;
pub mod session_laws;
pub mod step_laws;
pub mod text;
pub mod view_laws;
pub mod window_laws;
