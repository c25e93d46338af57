//! Per-character action execution engine for a rate-limited game API.
//!
//! Each character owns a single-slot hand-off queue of fully built action
//! requests. A consumer drains the queue one request at a time, interprets
//! the server's response envelope into a cooldown or an error class, and the
//! execution loop paces the next dequeue accordingly. The library holds the
//! verified logic: queue ordering, envelope classification, loop pacing,
//! request construction, inventory mapping and task plans. The surrounding
//! binary performs the HTTP transfers, the JSON decoding and the sleeps.

pub mod action_queue;
pub mod character;
pub mod conditions;
pub mod config;
pub mod encode;
pub mod error;
pub mod execution;
pub mod request;
pub mod response;
pub mod tasks;
