//! Users, sessions, and who may call what.
pub mod guard;
pub mod login;
pub mod signup;
