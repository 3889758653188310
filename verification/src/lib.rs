//! Verified core of the Kubernetes operator generator.

pub mod cli;
pub mod config;
pub mod errors;
pub mod inflect;
pub mod text;
pub mod templates;
pub mod openapi;
pub mod utils;
pub mod order;
pub mod commands;
pub mod types;
pub mod operator;
pub mod controllers;
pub mod fake_server;
pub mod document;
pub mod outside;
