//! Verified kernel of a protocol-simulator core: devices, tags, capabilities,
//! configuration validation, logging configuration and simulation settings.
pub mod text;
pub mod strmap;
pub mod protocol;
pub mod capabilities;
pub mod tags;
pub mod device;
pub mod device_builder;
pub mod engine;
pub mod factory;
pub mod error;
pub mod time;
pub mod lifecycle;
pub mod config;
pub mod logging;
pub mod types;
pub mod utils;
pub mod simulation;
pub mod metrics;
pub mod profiling;
