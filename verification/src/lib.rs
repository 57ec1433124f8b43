//! Verified core of the `af` command-line client for the Auto Fish Android
//! control service.

pub mod text;
pub mod errors;
pub mod proxy;
pub mod record;
pub mod http;
pub mod commands;
pub mod output;
pub mod memory;
pub mod command_laws;
