use mabi_core::config::loader::{ConfigDiscovery, ConfigFormat, ConfigLoader, LayeredConfigBuilder};

#[test]
fn test_format_from_extension() {
    assert_eq!(ConfigFormat::from_extension("yaml"), Some(ConfigFormat::Yaml));
    assert_eq!(ConfigFormat::from_extension("yml"), Some(ConfigFormat::Yaml));
    assert_eq!(ConfigFormat::from_extension("json"), Some(ConfigFormat::Json));
    assert_eq!(ConfigFormat::from_extension("toml"), Some(ConfigFormat::Toml));
    assert_eq!(ConfigFormat::from_extension("txt"), None);
}

#[test]
fn test_format_from_path() {
    assert_eq!(ConfigFormat::from_path("config.yaml"), Some(ConfigFormat::Yaml));
    assert_eq!(ConfigFormat::from_path("/etc/app/config.toml"), Some(ConfigFormat::Toml));
    assert_eq!(ConfigFormat::from_path("data.json"), Some(ConfigFormat::Json));
    assert_eq!(ConfigFormat::from_path("noext"), None);
}

#[test]
fn test_is_supported() {
    assert!(ConfigLoader::is_supported("config.yaml"));
    assert!(ConfigLoader::is_supported("config.yml"));
    assert!(ConfigLoader::is_supported("config.json"));
    assert!(ConfigLoader::is_supported("config.toml"));
    assert!(!ConfigLoader::is_supported("config.txt"));
    assert!(!ConfigLoader::is_supported("config"));
}

#[test]
fn test_config_discovery_candidates() {
    let discovery = ConfigDiscovery::new("config").search_dir("/etc/app").search_dir(".");

    let candidates = discovery.candidates();

    // Should have candidates for each dir × format × extension
    assert!(candidates.iter().any(|p| p.contains("config.yaml")));
    assert!(candidates.iter().any(|p| p.contains("config.toml")));
    assert!(candidates.iter().any(|p| p.contains("config.json")));
}

#[test]
fn discovery_candidates_in_order() {
    let discovery = ConfigDiscovery::new("app")
        .search_dirs(&["/etc/app", "conf/"])
        .formats(vec![ConfigFormat::Json, ConfigFormat::Yaml]);
    assert_eq!(
        discovery.candidates(),
        vec![
            "/etc/app/app.json".to_string(),
            "/etc/app/app.yaml".to_string(),
            "/etc/app/app.yml".to_string(),
            "conf/app.json".to_string(),
            "conf/app.yaml".to_string(),
            "conf/app.yml".to_string(),
        ]
    );
    let standard = ConfigDiscovery::new("c").with_standard_dirs("sim", Some("/home/u"));
    let c = standard.candidates();
    assert_eq!(c.len(), 4 * 4);
    assert_eq!(c[0], "./c.yaml");
    assert_eq!(c[8], "/home/u/.config/sim/c.yaml");
    assert_eq!(c[12], "/etc/sim/c.yaml");
    assert_eq!(ConfigDiscovery::new("c").with_standard_dirs("sim", None).candidates().len(), 12);
}

#[derive(Debug, Clone, PartialEq, Default)]
struct TestConfig {
    name: String,
    count: u32,
}

#[test]
fn test_layered_config_builder() {
    let config = LayeredConfigBuilder::<TestConfig>::new().build();
    assert_eq!(config.name, "");
    assert_eq!(config.count, 0);
}

#[test]
fn layered_builder_takes_later_layers() {
    let b = LayeredConfigBuilder::with_base(1u32).layer(2, "a.yaml").layer(3, "b.toml");
    assert_eq!(b.loaded_from(), &["a.yaml".to_string(), "b.toml".to_string()]);
    assert_eq!(b.build(), 3);
}

#[test]
fn test_format_display() {
    assert_eq!(format!("{}", ConfigFormat::Yaml.to_string()), "YAML");
    assert_eq!(format!("{}", ConfigFormat::Json.to_string()), "JSON");
    assert_eq!(format!("{}", ConfigFormat::Toml.to_string()), "TOML");
}

#[test]
fn test_format_mime_type() {
    assert_eq!(ConfigFormat::Yaml.mime_type(), "application/x-yaml");
    assert_eq!(ConfigFormat::Json.mime_type(), "application/json");
    assert_eq!(ConfigFormat::Toml.mime_type(), "application/toml");
}

#[test]
fn extensions_are_recognized_ignoring_case() {
    for f in [ConfigFormat::Yaml, ConfigFormat::Json, ConfigFormat::Toml] {
        for e in f.extensions() {
            assert_eq!(ConfigFormat::from_extension(e), Some(f));
        }
        assert_eq!(f.extensions()[0], f.extension());
    }
    assert_eq!(ConfigFormat::from_extension("YML"), Some(ConfigFormat::Yaml));
    assert_eq!(ConfigFormat::from_path("Settings.JSON"), Some(ConfigFormat::Json));
    assert_eq!(ConfigFormat::from_path(".yaml"), None);
}

#[test]
fn every_extension_round_trips_in_any_case() {
    for f in [ConfigFormat::Yaml, ConfigFormat::Json, ConfigFormat::Toml] {
        assert_eq!(ConfigFormat::from_extension(f.extension()), Some(f));
        for e in f.extensions() {
            assert_eq!(ConfigFormat::from_extension(&e.to_uppercase()), Some(f));
        }
    }
    assert_eq!(ConfigFormat::from_extension("TXT"), None);
}
