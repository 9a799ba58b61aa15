//! The decisions of an image-folder service: which files belong to the initial
//! snapshot, which directory is watched, how raw change notifications are
//! classified, and what a decode job reports.
//!
//! Threads, channels and file access are left to the caller. Every function
//! here maps plain values to plain values and carries a contract.

pub mod diff;
pub mod error;
pub mod events;
pub mod format;
pub mod funnel;
pub mod paths;
pub mod pixels;
pub mod resolver;
pub mod service;
pub mod thumbnail;
pub mod tracker;
