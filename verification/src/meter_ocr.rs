//! Reading fuel pump totalizers from photos, and recording what an attendant confirmed.
pub mod confirm;
pub mod form;
pub mod read;
pub mod reading;
pub mod vision;
