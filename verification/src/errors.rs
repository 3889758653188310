//! Errors that the generator's logic reports.

use vstd::prelude::*;

verus! {

/// An error of the generator.
#[derive(Debug)]
pub enum AppError {
    /// The configuration or the specification is not usable.
    ConfigError(String),
    /// The specification lacks a required `x-kubernetes-operator-*` extension.
    MissingRequiredExtension(String),
    /// A YAML text could not be read or written; the parser's or writer's message.
    YamlError(String),
    /// A JSON text could not be read; the parser's message.
    JsonError(String),
    /// Any other failure.
    Other(String),
}

} // verus!
