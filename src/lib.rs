//! Planning and bookkeeping for cutting a video into per-chapter clips.
//!
//! The library decides which external commands run, in what order, with which
//! arguments, and what a failure of each one means for the rest of the run.
//! Running the commands themselves is left to the caller.
pub mod text;
pub mod media;
pub mod naming;
pub mod pipeline;
pub mod plan;
pub mod url;
