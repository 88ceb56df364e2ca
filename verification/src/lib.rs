//! Verified core of a release-archive mirror.
//!
//! The library holds the logic of the mirror pipeline: decoding the hosting
//! API's JSON replies, building request and artifact paths, the per-tag
//! resolution session, the per-commit download task, the bounded admission
//! window, and the progress board. Network and file I/O live outside, in a
//! thin driver that feeds these state machines plain values.

pub mod decimal;
pub mod download;
pub mod json;
pub mod progress;
pub mod resolve;
pub mod tags;
pub mod urls;
pub mod window;
