//! The data the Jira and Confluence servers send and receive.
pub mod jira;
pub mod wiki;
