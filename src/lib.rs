//! A line-oriented concatenation tool in the style of Unix `cat`, with the
//! logic that decides what each output line looks like proved correct.

pub mod config;
pub mod emit;
pub mod format;
pub mod laws;

pub use config::{Config, InputSource, Mode, UsageError};
pub use emit::{open_failure_message, render_lines, render_run, InputOutcome, LineNumberer, RunOutput};
pub use format::{decimal_string, format_numbered, pad_number};
