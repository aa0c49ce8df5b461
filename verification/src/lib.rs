//! Typed records recovered from the text replies of an embedded device shell.
//!
//! The device answers each command with a few lines of loosely structured
//! text. [`parse`] cleans the lines of a reply and reads them by the grammar
//! of the command, and gives a [`ParsedMessage`]. It gives one for every
//! command and every reply: a field that the reply does not give is left
//! absent, and a reply that cannot be read at all becomes the fallback
//! record, which keeps the command and the cleaned lines.
//!
//! - [`text`] and [`number`] hold the primitives on characters and digits;
//! - [`normalize`] cleans the raw lines;
//! - [`fields`] holds the splitters that several grammars use;
//! - [`grammar`] holds one grammar for each family of commands;
//! - [`pattern`] is the door to the regular expression engine;
//! - [`parser`] picks the grammar for a command;
//! - [`model`] holds the records and their mathematical models.

pub mod fields;
pub mod grammar;
pub mod model;
pub mod normalize;
pub mod number;
pub mod parser;
pub mod pattern;
pub mod text;

pub use model::{
    Dns, FlagWord, Free, IfConfig, KVLine, Netstat, ParseError, ParsedMessage, PortLine,
    ProcessParams, Status, SubStatus, ThreadRow, VersionInfo, WorkTime,
};
pub use parser::parse;
