//! A user-account web service: data model, persistence rules, error taxonomy
//! and request handlers, with the command-line tool's pure helpers.

pub mod cli;
pub mod config;
pub mod error;
pub mod handlers;
pub mod models;
pub mod services;
pub mod store;
