//! Command-channel library for a line-oriented remote track interpreter.
//!
//! The crate provides the frame codec for the wire format, the response
//! parser, the dispatcher that pairs commands with responses one at a
//! time, and the editor panels' state logic.

pub mod cli;
pub mod codec;
pub mod colors;
pub mod console;
pub mod header;
pub mod monitor;
pub mod numbers;
pub mod parser;
pub mod patterns;
pub mod preview;
pub mod project;
pub mod queue;
pub mod response;
pub mod screen;
pub mod sections;
pub mod text;
pub mod util;
