//! The directory of companies and their sites.
pub mod operations;
