//! Synchronized video recording over a local network: the decisions of a node.
//!
//! One leader tells all nodes when to start and stop recording; followers keep
//! their clocks in step with it. This crate holds what a node knows and
//! decides. Sockets, timers, the terminal and the video pipeline are up to the
//! program around it, which hands in what happened and does what it is told.

pub mod arith;
pub mod clock;
pub mod console;
pub mod laws;
pub mod laws_console;
pub mod laws_messages;
pub mod laws_recording;
pub mod laws_time;
pub mod name_map;
pub mod network;
pub mod orchestrator;
pub mod pipeline;
pub mod recorder;
pub mod sync;
pub mod tasks;
pub mod text;
