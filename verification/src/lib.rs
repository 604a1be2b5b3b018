pub mod fs;
pub mod grading;
pub mod laws;
pub mod paths;
pub mod project;
