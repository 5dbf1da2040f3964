//! Snapforge: the verified core of an LLM-oriented screen capture tool.
//!
//! The library holds the logic that decides what a capture becomes: output
//! naming and format detection, shortcut validation, settings editing, image
//! sizing for LLM input, annotation rendering and prompt hints, preview-stack
//! bookkeeping, recording and desktop decisions, and the command-line
//! decisions. Input/output (screens, files, clipboard, windows) lives in the
//! application around it.

pub mod text;
pub mod output;
pub mod sizing;
pub mod shortcut;
pub mod json;
pub mod settings;
pub mod imaging;
pub mod encoding;
pub mod optimizer;
pub mod capture;
pub mod prompt;
pub mod raster;
pub mod annotation;
pub mod preview;
pub mod engine;
pub mod command;
pub mod cli;
pub mod recording;
pub mod desktop;
