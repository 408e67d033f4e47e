//! Configuration: the engine configuration, file formats and discovery, and
//! validation rules.
pub mod engine;
pub mod env;
pub mod file_watcher;
pub mod hot_reload;
pub mod loader;
pub mod validation;
pub mod watcher;

pub use engine::{
    BacnetIpConfig, EngineConfig, KnxIpConfig, ModbusRtuConfig, ModbusTcpConfig, OpcUaConfig,
    ProtocolConfig,
};
pub use loader::{ConfigDiscovery, ConfigFormat, ConfigLoader, LayeredConfigBuilder};
