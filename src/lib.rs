//! A small interactive shell: quoting-aware tokenizing, command
//! classification, redirection resolution and output routing.

pub mod tokenizer;
pub mod text;
pub mod redirect;
pub mod command;
pub mod output;
pub mod builtins;
mod lookup;
pub mod step;

pub use tokenizer::tokenize;
pub use redirect::{split_redirect, Redirect};
pub use command::ShellCommand;
