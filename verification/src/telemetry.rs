//! What devices report of themselves.
pub mod pings;
