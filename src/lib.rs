pub mod prompt;
pub mod raw_example;
pub mod report;
pub mod request;
