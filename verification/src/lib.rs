//! Shell completion scripts generated from a description of a command-line
//! program.
//!
//! A program is described as a tree of [`command::Command`] nodes, each with
//! its [`command::Argument`]s. The [`nu`] module turns such a tree into the
//! text of a Nushell module body: one completion function per argument with a
//! closed set of values, followed by one `export extern` signature per command.
//!
//! Every function states its result over the character sequences that the
//! strings hold, and every statement is machine-checked.
//!
//! ```
//! use clap_completions::command::{Argument, Command, ValueHint};
//! use clap_completions::nu::Completions;
//!
//! let file = Argument {
//!     id: "file".to_string(),
//!     long: None,
//!     short: None,
//!     help: Some("File to show".to_string()),
//!     value_hint: ValueHint::FilePath,
//!     required: true,
//!     takes_value: true,
//!     multiple_values: false,
//!     possible_values: None,
//!     positional: true,
//!     hidden: false,
//! };
//! let app = Command {
//!     name: "show".to_string(),
//!     about: Some("Shows a file".to_string()),
//!     hidden: false,
//!     args: vec![file],
//!     subcommands: vec![],
//! };
//! assert_eq!(
//!     Completions::new(&app).render(),
//!     "# Shows a file\nexport extern 'show' [\n  file: path # File to show\n]\n\n"
//! );
//! ```

pub mod command;
pub mod nu;
pub mod text;
