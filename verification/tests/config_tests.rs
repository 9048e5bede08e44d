use pip_switch_core::{
    decode_setting_value, Config, HotkeysConfig, InputSource, MonitorConfig, PipConfig, PipMode,
    PipPosition, PipSize, Setting,
};

fn value<'a>(doc: &'a toml::Value, table: &str, key: &str) -> &'a str {
    doc.get(table)
        .and_then(|t| t.get(key))
        .and_then(toml::Value::as_str)
        .unwrap()
}

#[test]
fn parses_example_config() {
    let doc: toml::Value = toml::from_str(
        r#"
            [monitor]
            serial = "abc"
            fallback = "first"

            [hotkeys]
            swap = "Super+Shift+P"
            pip_toggle = "Super+Shift+O"

            [pip]
            mode = "pip"
            input = "usbc"
            size = "small"
            position = "right_bottom"
            "#,
    )
    .unwrap();

    assert_eq!(value(&doc, "monitor", "serial"), "abc");
    assert_eq!(
        value(&doc, "pip", "input"),
        decode_setting_value(Setting::PipInput, InputSource::Usbc.encoded())
    );
}

#[test]
fn example_config_documents_values_and_matches_defaults() {
    let text = Config::example_toml();
    assert!(text.contains(r#"swap = "Super+Shift+P""#));
    assert!(text.contains(r#"pip_toggle = "Super+Shift+O""#));
    assert!(text.contains(r#"input = "usbc""#));
    assert!(text.contains(r#"size = "small""#));
    assert!(text.contains(r#"position = "right_bottom""#));
    assert!(text.contains(r#"Possible values: "hdmi1", "hdmi2", "dp", "usbc""#));

    let parsed: toml::Value = toml::from_str(text).unwrap();
    let defaults = Config::default();
    assert_eq!(value(&parsed, "monitor", "serial"), defaults.monitor.serial);
    assert_eq!(value(&parsed, "monitor", "fallback"), defaults.monitor.fallback);
    assert_eq!(value(&parsed, "hotkeys", "swap"), defaults.hotkeys.swap);
    assert_eq!(value(&parsed, "hotkeys", "pip_toggle"), defaults.hotkeys.pip_toggle);
    assert_eq!(
        value(&parsed, "pip", "mode"),
        decode_setting_value(Setting::PipMode, defaults.pip.mode.encoded())
    );
    assert_eq!(
        value(&parsed, "pip", "input"),
        decode_setting_value(Setting::PipInput, defaults.pip.input.encoded())
    );
    assert_eq!(
        value(&parsed, "pip", "size"),
        decode_setting_value(Setting::PipSize, defaults.pip.size.encoded())
    );
    assert_eq!(
        value(&parsed, "pip", "position"),
        decode_setting_value(Setting::PipPosition, defaults.pip.position.encoded())
    );
}

#[test]
fn defaults() {
    let config = Config::default();
    assert_eq!(
        config.monitor,
        MonitorConfig {
            serial: String::new(),
            fallback: "first".to_string()
        }
    );
    assert_eq!(
        config.hotkeys,
        HotkeysConfig {
            swap: "Super+Shift+P".to_string(),
            pip_toggle: "Super+Shift+O".to_string()
        }
    );
    assert_eq!(
        config.pip,
        PipConfig {
            mode: PipMode::Pip,
            input: InputSource::Usbc,
            size: PipSize::Small,
            position: PipPosition::RightBottom
        }
    );
    assert_eq!(PipConfig::default(), config.pip);
    assert_eq!(MonitorConfig::default(), config.monitor);
    assert_eq!(HotkeysConfig::default(), config.hotkeys);
}
