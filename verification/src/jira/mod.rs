//! Jira and Confluence: configuration, errors, request routing, the data
//! the servers send, and the Markdown written from it.
pub mod config;
pub mod error;
pub mod models;
pub mod client;
pub mod render;
