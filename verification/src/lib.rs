//! Verified core of a terminal emulator's pty input/output pipeline.
//!
//! Three mechanisms move bytes between a pty and the terminal:
//!
//! - [`writer`]: input for the pty is queued, so that whoever produces it
//!   never waits for the pty's consumer;
//! - [`reader`] and [`pipeline`]: output of the pty is relayed, decoded and
//!   delivered to the terminal model in batches, with
//!   [`pipeline_laws`] stating what the batching guarantees;
//! - [`keyboard`] and [`scroll`]: a key event moves the scroll view, is
//!   encoded under the keyboard protocol in force, and is sent.
//!
//! [`color`] holds the palette. [`decoder`] is the boundary to the
//! escape-sequence decoder.
//!
//! Nothing here blocks, spawns a thread or touches a descriptor: every
//! function takes what happened and says what is to be done.

pub mod color;
pub mod decoder;
pub mod keyboard;
pub mod pipeline;
pub mod pipeline_laws;
pub mod reader;
pub mod scroll;
pub mod writer;
