//! Verified core of a desktop workflow step recorder: the recorder's start/stop
//! state machine, the step log built from captured input events, the session
//! directory layout, and the screenshot crops and file names of a step.
pub mod error;
pub mod events;
pub mod stamps;
pub mod recorder;
pub mod storage;
pub mod screenshots;
pub mod raster;
pub mod listener;
pub mod processor;
