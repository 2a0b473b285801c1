//! Verified decision logic of the eye-in-desk client: the addresses of the
//! local services, the calibration procedure and the loading of the
//! configuration file.

pub mod endpoint;
pub mod calibration;
pub mod config;
