//! Archive and compression orchestration: format detection from file names,
//! command-line policies, and the decision logic of the progress display.
pub mod archive;
pub mod cli;
pub mod extension;
pub mod macros;
pub mod progress;
