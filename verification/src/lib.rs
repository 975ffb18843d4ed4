//! The rules of the backend of a fleet of mobile apps: users and sessions, the directory of
//! companies, releases, the pings of devices, and the reading of fuel meters.
pub mod authentication;
pub mod companies;
pub mod configuration;
pub mod external;
pub mod json;
pub mod meter_ocr;
pub mod paging;
pub mod reply;
pub mod telemetry;
pub mod text;
