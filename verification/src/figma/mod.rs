pub mod client;
pub mod commands;
pub mod config;
pub mod error;
pub mod models;
pub mod output;
pub mod tree;
pub mod url;
