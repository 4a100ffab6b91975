use banana::config::{
    valid_aspect_ratio, valid_size, ApiConfig, Config, ConfigSetError, DefaultsConfig,
    DisplayMode, OutputConfig, TuiConfig,
};

#[test]
fn default_config_has_the_documented_values() {
    let c = Config::default();
    assert_eq!(c.api.key, None);
    assert_eq!(c.api.model, "gemini-3-pro-image-preview");
    assert_eq!(c.api.base_url, "https://generativelanguage.googleapis.com/v1beta");
    assert_eq!(c.defaults.aspect_ratio, "1:1");
    assert_eq!(c.defaults.size, "1K");
    assert_eq!(c.output.directory, "./banana-output");
    assert!(c.output.auto_download);
    assert_eq!(c.output.display, DisplayMode::Terminal);
    assert!(c.tui.show_images);
    assert_eq!(c.tui.theme, "dark");
    assert_eq!(c.config_path, "");
}

#[test]
fn default_sections_have_the_documented_values() {
    assert_eq!(ApiConfig::default().model, "gemini-3-pro-image-preview");
    assert_eq!(DefaultsConfig::default().size, "1K");
    assert_eq!(OutputConfig::default().directory, "./banana-output");
    assert_eq!(TuiConfig::default().theme, "dark");
    assert_eq!(DisplayMode::default(), DisplayMode::Terminal);
}

#[test]
fn display_mode_names() {
    assert_eq!(DisplayMode::Terminal.as_str(), "terminal");
    assert_eq!(DisplayMode::Viewer.as_str(), "viewer");
    assert_eq!(DisplayMode::Off.as_str(), "none");
    assert_eq!(DisplayMode::variants().to_vec(), vec!["terminal", "viewer", "none"]);
}

#[test]
fn display_mode_from_str_ignores_case() {
    assert_eq!(DisplayMode::from_str("terminal"), DisplayMode::Terminal);
    assert_eq!(DisplayMode::from_str("viewer"), DisplayMode::Viewer);
    assert_eq!(DisplayMode::from_str("none"), DisplayMode::Off);
    assert_eq!(DisplayMode::from_str("VIEWER"), DisplayMode::Viewer);
    assert_eq!(DisplayMode::from_str("None"), DisplayMode::Off);
    assert_eq!(DisplayMode::from_str("TeRmInAl"), DisplayMode::Terminal);
}

#[test]
fn display_mode_from_unknown_name_is_terminal() {
    assert_eq!(DisplayMode::from_str(""), DisplayMode::Terminal);
    assert_eq!(DisplayMode::from_str("window"), DisplayMode::Terminal);
    assert_eq!(DisplayMode::from_str(" viewer"), DisplayMode::Terminal);
}

#[test]
fn display_mode_from_exact_is_case_sensitive() {
    assert_eq!(DisplayMode::from_exact("viewer"), DisplayMode::Viewer);
    assert_eq!(DisplayMode::from_exact("none"), DisplayMode::Off);
    assert_eq!(DisplayMode::from_exact("Viewer"), DisplayMode::Terminal);
    assert_eq!(DisplayMode::from_exact("NONE"), DisplayMode::Terminal);
}

#[test]
fn api_key_is_read_as_set() {
    let mut c = Config::default();
    assert_eq!(c.api_key(), None);
    c.set("api.key", "SECRET-REDACTED").unwrap();
    assert_eq!(c.api_key(), Some("SECRET-REDACTED"));
}

#[test]
fn set_writes_each_free_text_setting() {
    let mut c = Config::default();
    assert_eq!(c.set("api.model", "my-model"), Ok(()));
    assert_eq!(c.set("api.base_url", "http://localhost:1"), Ok(()));
    assert_eq!(c.set("output.directory", "/tmp/out"), Ok(()));
    assert_eq!(c.set("tui.theme", "light"), Ok(()));
    assert_eq!(c.api.model, "my-model");
    assert_eq!(c.api.base_url, "http://localhost:1");
    assert_eq!(c.output.directory, "/tmp/out");
    assert_eq!(c.tui.theme, "light");
    assert_eq!(c.defaults.aspect_ratio, "1:1");
}

#[test]
fn set_takes_every_offered_aspect_ratio() {
    for ratio in Config::aspect_ratios() {
        let mut c = Config::default();
        assert_eq!(c.set("defaults.aspect_ratio", ratio), Ok(()));
        assert_eq!(c.defaults.aspect_ratio, *ratio);
    }
}

#[test]
fn set_rejects_an_unknown_aspect_ratio() {
    let mut c = Config::default();
    c.set("defaults.aspect_ratio", "16:9").unwrap();
    assert_eq!(c.set("defaults.aspect_ratio", "7:5"), Err(ConfigSetError::InvalidAspectRatio));
    assert_eq!(c.set("defaults.aspect_ratio", ""), Err(ConfigSetError::InvalidAspectRatio));
    assert_eq!(c.set("defaults.aspect_ratio", "16:9 "), Err(ConfigSetError::InvalidAspectRatio));
    assert_eq!(c.defaults.aspect_ratio, "16:9");
}

#[test]
fn set_takes_every_offered_size_and_no_other() {
    for size in Config::sizes() {
        let mut c = Config::default();
        assert_eq!(c.set("defaults.size", size), Ok(()));
        assert_eq!(c.defaults.size, *size);
    }
    let mut c = Config::default();
    assert_eq!(c.set("defaults.size", "8K"), Err(ConfigSetError::InvalidSize));
    assert_eq!(c.set("defaults.size", "1k"), Err(ConfigSetError::InvalidSize));
    assert_eq!(c.defaults.size, "1K");
}

#[test]
fn set_reads_booleans_exactly() {
    let mut c = Config::default();
    assert_eq!(c.set("output.auto_download", "false"), Ok(()));
    assert!(!c.output.auto_download);
    assert_eq!(c.set("output.auto_download", "true"), Ok(()));
    assert!(c.output.auto_download);
    assert_eq!(c.set("tui.show_images", "false"), Ok(()));
    assert!(!c.tui.show_images);
    assert_eq!(c.set("output.auto_download", "yes"), Err(ConfigSetError::InvalidBoolean));
    assert_eq!(c.set("tui.show_images", "TRUE"), Err(ConfigSetError::InvalidBoolean));
    assert!(c.output.auto_download);
    assert!(!c.tui.show_images);
}

#[test]
fn set_display_takes_any_text() {
    let mut c = Config::default();
    assert_eq!(c.set("output.display", "Viewer"), Ok(()));
    assert_eq!(c.output.display, DisplayMode::Viewer);
    assert_eq!(c.set("output.display", "none"), Ok(()));
    assert_eq!(c.output.display, DisplayMode::Off);
    assert_eq!(c.set("output.display", "whatever"), Ok(()));
    assert_eq!(c.output.display, DisplayMode::Terminal);
}

#[test]
fn set_rejects_an_unknown_key() {
    let mut c = Config::default();
    assert_eq!(c.set("api.secret", "x"), Err(ConfigSetError::UnknownKey("api.secret".to_string())));
    assert_eq!(c.set("", "x"), Err(ConfigSetError::UnknownKey(String::new())));
    assert_eq!(c.set("API.KEY", "x"), Err(ConfigSetError::UnknownKey("API.KEY".to_string())));
    assert_eq!(c.api.key, None);
}

#[test]
fn set_errors_read_as_documented() {
    assert_eq!(
        ConfigSetError::InvalidAspectRatio.to_string(),
        "Invalid aspect ratio. Valid values: 1:1, 2:3, 3:2, 3:4, 4:3, 4:5, 5:4, 9:16, 16:9, 21:9"
    );
    assert_eq!(ConfigSetError::InvalidSize.to_string(), "Invalid size. Valid values: 1K, 2K, 4K");
    assert_eq!(ConfigSetError::InvalidBoolean.to_string(), "Invalid boolean value");
    assert_eq!(
        ConfigSetError::UnknownKey("a.b".to_string()).to_string(),
        "Unknown config key: a.b"
    );
}

#[test]
fn get_reads_each_setting_as_text() {
    let c = Config::default();
    assert_eq!(c.get("api.model").as_deref(), Some("gemini-3-pro-image-preview"));
    assert_eq!(
        c.get("api.base_url").as_deref(),
        Some("https://generativelanguage.googleapis.com/v1beta")
    );
    assert_eq!(c.get("defaults.aspect_ratio").as_deref(), Some("1:1"));
    assert_eq!(c.get("defaults.size").as_deref(), Some("1K"));
    assert_eq!(c.get("output.directory").as_deref(), Some("./banana-output"));
    assert_eq!(c.get("output.auto_download").as_deref(), Some("true"));
    assert_eq!(c.get("output.display").as_deref(), Some("terminal"));
    assert_eq!(c.get("tui.show_images").as_deref(), Some("true"));
    assert_eq!(c.get("tui.theme").as_deref(), Some("dark"));
}

#[test]
fn get_never_shows_the_api_key() {
    let mut c = Config::default();
    assert_eq!(c.get("api.key"), None);
    c.set("api.key", "SECRET-REDACTED").unwrap();
    assert_eq!(c.get("api.key").as_deref(), Some("****"));
}

#[test]
fn get_of_unknown_key_is_nothing() {
    let c = Config::default();
    assert_eq!(c.get("nope"), None);
    assert_eq!(c.get(""), None);
    assert_eq!(c.get("api"), None);
}

#[test]
fn get_returns_what_set_wrote() {
    let mut c = Config::default();
    c.set("defaults.aspect_ratio", "21:9").unwrap();
    c.set("output.auto_download", "false").unwrap();
    c.set("output.display", "VIEWER").unwrap();
    assert_eq!(c.get("defaults.aspect_ratio").as_deref(), Some("21:9"));
    assert_eq!(c.get("output.auto_download").as_deref(), Some("false"));
    assert_eq!(c.get("output.display").as_deref(), Some("viewer"));
}

#[test]
fn every_listed_key_can_be_read_or_is_the_unset_api_key() {
    let c = Config::default();
    assert_eq!(Config::keys().len(), 10);
    for key in Config::keys() {
        if *key == "api.key" {
            assert_eq!(c.get(key), None);
        } else {
            assert!(c.get(key).is_some());
        }
    }
}

#[test]
fn lists_of_offered_values() {
    assert_eq!(
        Config::aspect_ratios().to_vec(),
        vec!["1:1", "2:3", "3:2", "3:4", "4:3", "4:5", "5:4", "9:16", "16:9", "21:9"]
    );
    assert_eq!(Config::sizes().to_vec(), vec!["1K", "2K", "4K"]);
    assert_eq!(
        Config::models().to_vec(),
        vec!["gemini-3-pro-image-preview", "gemini-2.5-flash-image", "imagen-4.0-generate-001"]
    );
    assert_eq!(Config::keys()[0], "api.key");
    assert_eq!(Config::keys()[9], "tui.theme");
}

#[test]
fn validity_checks_agree_with_the_lists() {
    for ratio in Config::aspect_ratios() {
        assert!(valid_aspect_ratio(ratio));
    }
    for size in Config::sizes() {
        assert!(valid_size(size));
    }
    assert!(!valid_aspect_ratio("1:2"));
    assert!(!valid_size("3K"));
}

#[test]
fn env_key_takes_precedence_when_present() {
    let mut c = Config::default();
    c.set("api.key", "stored").unwrap();
    c.apply_env_key(None);
    assert_eq!(c.api_key(), Some("stored"));
    c.apply_env_key(Some("from-env".to_string()));
    assert_eq!(c.api_key(), Some("from-env"));
}

#[test]
fn reset_restores_defaults_but_keeps_the_path() {
    let mut c = Config::default();
    c.config_path = "/home/u/.config/banana/config.toml".to_string();
    c.set("api.key", "stored").unwrap();
    c.set("defaults.size", "4K").unwrap();
    c.set("tui.theme", "light").unwrap();
    c.set("output.auto_download", "false").unwrap();
    c.reset(None);
    assert_eq!(c.config_path, "/home/u/.config/banana/config.toml");
    assert_eq!(c.api.key, None);
    assert_eq!(c.defaults.size, "1K");
    assert_eq!(c.tui.theme, "dark");
    assert!(c.output.auto_download);
    c.reset(Some("from-env".to_string()));
    assert_eq!(c.api_key(), Some("from-env"));
}

#[test]
fn clone_of_config_keeps_every_field() {
    let mut c = Config::default();
    c.config_path = "p".to_string();
    c.set("api.key", "k").unwrap();
    c.set("output.display", "viewer").unwrap();
    let d = c.clone();
    assert_eq!(d.config_path, "p");
    assert_eq!(d.api_key(), Some("k"));
    assert_eq!(d.output.display, DisplayMode::Viewer);
    assert_eq!(d.api.base_url, c.api.base_url);
    assert_eq!(d.defaults.aspect_ratio, c.defaults.aspect_ratio);
    assert_eq!(d.tui.theme, c.tui.theme);
}

#[test]
fn keys_and_values_are_compared_character_by_character() {
    let mut c = Config::default();
    assert_eq!(c.get("api.mode"), None);
    assert_eq!(c.get("api.modell"), None);
    assert_eq!(c.get("api.modél"), None);
    assert_eq!(c.set("tui.thème", "x"), Err(ConfigSetError::UnknownKey("tui.thème".to_string())));
    assert_eq!(c.set("defaults.size", "1Ｋ"), Err(ConfigSetError::InvalidSize));
    assert_eq!(c.set("defaults.size", "2"), Err(ConfigSetError::InvalidSize));
    assert_eq!(c.set("defaults.size", "2K"), Ok(()));
    assert_eq!(DisplayMode::from_exact("vïewer"), DisplayMode::Terminal);
    assert_eq!(DisplayMode::from_exact("viewe"), DisplayMode::Terminal);
}
