//! Audio input: the decisions of the capture loop and the description of input devices.

pub mod device;
pub mod manager;
