//! The generator's commands.

pub mod generate;
pub mod init;
pub mod hydrate;
