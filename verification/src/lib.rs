//! A verified frame-distribution pipeline for a live MJPEG stream: one
//! producer publishes encoded frames into a shared slot, and any number of
//! per-client stream workers read the latest frame at their own pace,
//! never observing a torn (partially overwritten) frame.

pub mod frame;
pub mod http;
pub mod registry;
pub mod slot;
pub mod worker;

pub use frame::Frame;
pub use slot::FrameSlot;
pub use slot::SlotState;
