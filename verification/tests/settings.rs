use blights::config::{
    Config, DimMode, CONFIG_DIR_NAME, CONFIG_FILE_NAME, DEFAULT_CONFIG,
};

#[test]
fn the_default_settings_are_the_fixed_ones() {
    let config = Config::default();
    assert_eq!(config.default_dim_mode, DimMode::Log10);
    assert_eq!(config.default_dim_steps, 1);
    assert_eq!(config.api_url, "http://192.168.1.81/api/v1");
    assert_eq!(config.led_max_dim_value, 1023);
}

#[test]
fn loading_the_default_file_gives_the_default_settings() {
    let table: toml::Table = DEFAULT_CONFIG.parse().unwrap();
    let config = Config::default();
    assert_eq!(table.len(), 4);
    let mode = match table.get("default_dim_mode").and_then(|v| v.as_str()) {
        Some("Log10") => DimMode::Log10,
        Some("Log2") => DimMode::Log2,
        Some("Linear") => DimMode::Linear,
        other => panic!("no dim mode: {:?}", other),
    };
    assert_eq!(mode, config.default_dim_mode);
    assert_eq!(
        table.get("default_dim_steps").and_then(|v| v.as_integer()),
        Some(i64::from(config.default_dim_steps))
    );
    assert_eq!(
        table.get("api_url").and_then(|v| v.as_str()),
        Some(config.api_url.as_str())
    );
    assert_eq!(
        table.get("led_max_dim_value").and_then(|v| v.as_integer()),
        Some(i64::from(config.led_max_dim_value))
    );
}

#[test]
fn the_default_file_has_its_fixed_text() {
    let lines: Vec<&str> = DEFAULT_CONFIG.lines().collect();
    assert_eq!(
        lines,
        vec![
            "",
            "        default_dim_mode = \"Log10\"",
            "        default_dim_steps = 1",
            "        api_url = \"http://192.168.1.81/api/v1\"",
            "        led_max_dim_value = 1023",
            "    ",
        ]
    );
}

#[test]
fn the_config_file_has_its_place() {
    assert_eq!(CONFIG_DIR_NAME, "blights");
    assert_eq!(CONFIG_FILE_NAME, "config.toml");
}

#[test]
fn the_default_endpoints_are_those_of_the_light() {
    let config = Config::default();
    assert_eq!(config.status_url(), "http://192.168.1.81/api/v1/status");
    assert_eq!(config.brightness_url(), "http://192.168.1.81/api/v1/light/brightness");
}

#[test]
fn the_endpoints_follow_the_configured_base() {
    let config = Config {
        default_dim_mode: DimMode::Linear,
        default_dim_steps: 4,
        api_url: String::from("http://lamp.local/api/v2"),
        led_max_dim_value: 255,
    };
    assert_eq!(config.status_url(), "http://lamp.local/api/v2/status");
    assert_eq!(config.brightness_url(), "http://lamp.local/api/v2/light/brightness");
    assert_eq!(config.api_url, "http://lamp.local/api/v2");
}

#[test]
fn a_cloned_config_is_equal() {
    let config = Config {
        default_dim_mode: DimMode::Log2,
        default_dim_steps: 3,
        api_url: String::from("http://10.0.0.2/api/v1"),
        led_max_dim_value: 4095,
    };
    assert_eq!(config.clone(), config);
}
