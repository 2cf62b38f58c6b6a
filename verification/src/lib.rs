//! Install files while copying owner, group and permission bits from a
//! reference file.
//!
//! The library holds the decisions of the tool and performs no I/O itself.
//!
//! - [`args`] resolves what the command-line tokenizer recognized into an
//!   [`args::Operation`].
//! - [`dispatch`] decides, from the state of the destination and the number
//!   of sources, between a single-file and a directory install. It hands out
//!   one [`dispatch::Action`] after another; a driver does what the action
//!   asks for and answers it.
//! - [`install`] decides one install: which file is the reference, and which
//!   invocation of the installer mimics it.
//! - [`laws`] states what holds of every run.
//! - [`path`], [`number`] and [`shell`] hold the text operations underneath,
//!   [`system`] what a driver reports, and [`error`] the failures.

pub mod args;
pub mod dispatch;
pub mod error;
pub mod install;
pub mod laws;
pub mod number;
pub mod path;
pub mod shell;
pub mod system;
pub mod text;
