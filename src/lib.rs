//! Runs a command line periodically and shows its output only when it
//! differs from the previous run.
//!
//! The library holds the logic: the line differ, the renderer that turns
//! process and timer events into terminal paint commands, the multiplexer
//! that orders those events, the status bar text and the command-line
//! grammar. Spawning processes, timers and terminal writes live outside.

pub mod cli;
pub mod differ;
pub mod misc;
pub mod output;
pub mod process_wrapper;
pub mod progbar;
pub mod stream;
pub mod text;
pub mod time_wrapper;
pub mod view;
