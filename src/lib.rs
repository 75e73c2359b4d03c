//! Client-side logic for the ESDM entropy daemon: reference-counted sessions on
//! its two channels, the retry envelope around every call, the random generator
//! built on its byte fetches, the reading of its status report, and the handle
//! on its "entropy needed" wait channel.
//!
//! The daemon is reached through its C client libraries, which the caller invokes.
//! Each type here decides what call to make next and what its answer means: the
//! caller makes the call and hands the answer back.

pub mod error;
pub mod notifier;
pub mod retry;
pub mod rng;
pub mod session;
pub mod status;
