//! Everyday shell helpers: subscription decoding for v2fly and clash,
//! the selection list behind the terminal picker, and small command builders.
pub mod ui;
pub mod text;
pub mod subscription;
pub mod numbers;
pub mod v2fly_config;
pub mod json;
pub mod v2fly;
pub mod clash;
pub mod commands;
pub mod laws;
