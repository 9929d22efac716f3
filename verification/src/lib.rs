//! Decisions of a minimal container launcher: which registry requests to make,
//! which platform image to take, in which order layers are unpacked, how the
//! isolated root is prepared, and what the launcher exits with.
//!
//! The library performs no input or output. A driver sends the requests and
//! touches the filesystem; it hands each outcome back as an event and receives
//! the next action to perform.

pub mod error;
pub mod guarantees;
pub mod layer;
pub mod manifest;
pub mod pipeline;
pub mod reference;
pub mod report;
pub mod request;
pub mod root;
