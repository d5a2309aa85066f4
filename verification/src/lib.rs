//! zam: discovery, attribution and management of zsh aliases.
//!
//! This is the verified core of the tool: everything that it decides and
//! computes. The shell, the files and the terminal are the business of the
//! program around it, which hands over what it read and carries out what is
//! asked of it.
//!
//! - [`alias`]: the domain model, the parser of the shell's listing, and the
//!   attribution of each alias to the file that defines it.
//! - [`collision`]: names that already mean something.
//! - [`extensions`]: the built-in bundles of aliases.
//! - [`managed`]: the rules and the file formats of the managed store.
//! - [`app`]: the state machine of the interactive session.
//! - [`event`]: the key bindings.
//! - [`ui`]: the text of every panel, and the partition of the screen.
//! - [`cli`]: the command line.
//! - [`text`] and [`order`]: character sequences and their order.
//! - [`laws`]: what holds between the parts.

pub mod action;
pub mod alias;
pub mod app;
pub mod cli;
pub mod collision;
pub mod event;
pub mod extensions;
pub mod laws;
pub mod managed;
pub mod order;
pub mod text;
pub mod ui;
