//! Records global mouse and keyboard activity as a timestamped log of
//! discrete input events.
//!
//! The crate holds the decisions of a recorder: how two successive device
//! samples turn into events, how those events are worded, how the log and
//! the recording flag evolve, and what the exported table looks like.
//! Reading the devices, the clock and the window, and writing the file,
//! are left to the caller.

pub mod differ;
pub mod event;
pub mod export;
pub mod geometry;
pub mod log;
pub mod recorder;
pub mod sample;
pub mod sampler;
pub mod system_info;
pub mod text;
