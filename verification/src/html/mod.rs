//! Confluence storage HTML to Markdown.
pub mod tables;
pub mod markup;
pub mod convert;
pub mod images;
pub mod guard;
