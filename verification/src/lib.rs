//! A declarative, table-driven command-line option engine for multi-file,
//! multi-stream media-processing tools.
//!
//! The engine tokenizes an argument vector into named options and positional
//! file arguments, routes each option to a typed destination or a handler,
//! and scopes options into ordered groups: one group per input or output
//! file, plus a global scope.
//!
//! - [`types`] holds the registry records, the parse context and the
//!   per-file destination structure, each with its mathematical model;
//! - [`flags`] holds the option flag bits;
//! - [`split`] tokenizes the argument vector;
//! - [`apply`] validates and applies a realized group;
//! - [`dest`] performs the typed destination writes;
//! - [`registry`] models the external pass-through registry;
//! - [`numparse`] and [`timeparse`] parse numeral and duration values;
//! - [`window`] reconciles a file's recording and seek timestamps;
//! - [`laws`] states the engine-wide laws.

pub mod apply;
pub mod dest;
pub mod driver;
pub mod flags;
pub mod laws;
pub mod numparse;
pub mod registry;
pub mod split;
pub mod strutil;
pub mod timeparse;
pub mod types;
pub mod window;
