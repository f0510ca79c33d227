pub mod format;
pub mod report;
pub mod review;
pub mod sections;
pub mod laws;
