//! Logging configuration: levels, formats, targets, rotation and retention,
//! and the context carried with requests.
pub mod config;
pub mod context;
pub mod dynamic;
pub mod rotation;

pub use config::{LogConfig, LogConfigBuilder, LogFormat, LogLevel, LogTarget};
pub use context::{shared_context, DeviceContext, RequestContext, TraceContext};
pub use dynamic::{LevelChangeEvent, LevelChangeStats, LevelChangeType, LevelSettings, SavedLevels};
pub use rotation::{LogFileEntry, LogFileStats, RetentionPolicy, RotationConfig, RotationStrategy};
