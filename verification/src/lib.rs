//! Argument specifications for a command-line interface, and the completion
//! script that a shell needs to complete them.

pub mod arg;
pub mod arg_builder;
pub mod completions;
pub mod error;
pub mod settings;
pub mod text;
pub mod val_names;
