//! The releases of the mobile app.
pub mod operations;
