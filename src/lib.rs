//! Verified core of a two-backend triangle renderer: adapter selection,
//! swap-chain ring, resource-state tracking, frame recording and the
//! per-frame orchestration that drives them.

pub mod backend;
pub mod config;
pub mod device;
pub mod error;
pub mod immediate;
pub mod pipeline;
pub mod pump;
pub mod recorder;
pub mod swapchain;
pub mod tracker;
pub mod tuple;

