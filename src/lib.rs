//! Decision logic of a screen-capture source element: which delivered frames
//! are handed on, how the capture session moves between its two states, and
//! how a captured frame fills a pipeline buffer.

pub mod config;
pub mod element;
pub mod fill;
pub mod frame;
pub mod session;
