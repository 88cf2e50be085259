//! A bridge between bench instruments and a publish/subscribe network: topic
//! naming, payloads, security limits, drivers, the driver factory, the
//! per-device command protocol and the restart supervisor.
pub mod client;
pub mod config;
pub mod decimal;
pub mod driver;
pub mod emulator;
pub mod factory;
pub mod kd3005p;
pub mod paths;
pub mod payload;
pub mod random;
pub mod runner;
pub mod serial;
pub mod supervisor;
pub mod text;
pub mod topics;
