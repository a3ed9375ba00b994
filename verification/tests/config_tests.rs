use nvidia_zerodb::config::{Config, ConfigError, Setting};

fn defaults() -> Config {
    Config { idle_temp: 40, cooling_temp: 50, refresh_delay: 1000, failsafe_shutdown_delay: 30000 }
}

#[test]
fn default_config_values() {
    assert_eq!(Config::default(), defaults());
}

#[test]
fn empty_file_gives_defaults() {
    assert_eq!(Config::from_file_contents(b""), Ok(defaults()));
}

#[test]
fn file_without_settings_gives_defaults() {
    let text = b"[OTHER]\nREFRESH_DELAY = 5\n\n[MAIN]\nUNRELATED = 7\n";
    assert_eq!(Config::from_file_contents(text), Ok(defaults()));
}

#[test]
fn documented_file_is_read() {
    let text = "[MAIN]\n# Delay between checking the temperature in milliseconds\nREFRESH_DELAY = 1000\n\n[TEMPERATURES]\n# Peak temperature\nMAX_TEMP = 50\n# Minimal temperature\nMIN_TEMP = 40\n\n[FAILSAFES]\n# The time in milliseconds\nSHUTDOWN_DELAY = 30000\n";
    assert_eq!(Config::from_file_contents(text.as_bytes()), Ok(defaults()));
}

#[test]
fn every_setting_overrides_its_field() {
    let text = "[MAIN]\nREFRESH_DELAY = 250\n[TEMPERATURES]\nMAX_TEMP = 65\nMIN_TEMP = 45\n[FAILSAFES]\nSHUTDOWN_DELAY = 12000\n";
    assert_eq!(
        Config::from_file_contents(text.as_bytes()),
        Ok(Config { idle_temp: 45, cooling_temp: 65, refresh_delay: 250, failsafe_shutdown_delay: 12000 })
    );
}

#[test]
fn partial_file_keeps_other_defaults() {
    let text = "[TEMPERATURES]\nMIN_TEMP = 35\n";
    assert_eq!(
        Config::from_file_contents(text.as_bytes()),
        Ok(Config { idle_temp: 35, ..defaults() })
    );
}

#[test]
fn byte_order_mark_is_skipped() {
    let mut bytes = vec![0xEFu8, 0xBB, 0xBF];
    bytes.extend_from_slice(b"[MAIN]\nREFRESH_DELAY = 20\n");
    assert_eq!(Config::from_file_contents(&bytes), Ok(Config { refresh_delay: 20, ..defaults() }));
}

#[test]
fn plus_sign_is_accepted() {
    let text = "[FAILSAFES]\nSHUTDOWN_DELAY = +500\n";
    assert_eq!(
        Config::from_file_contents(text.as_bytes()),
        Ok(Config { failsafe_shutdown_delay: 500, ..defaults() })
    );
}

#[test]
fn non_number_is_an_error() {
    let text = "[MAIN]\nREFRESH_DELAY = soon\n";
    assert_eq!(
        Config::from_file_contents(text.as_bytes()),
        Err(ConfigError::InvalidSetting(Setting::RefreshDelay))
    );
}

#[test]
fn negative_number_is_an_error() {
    let text = "[TEMPERATURES]\nMIN_TEMP = -5\n";
    assert_eq!(
        Config::from_file_contents(text.as_bytes()),
        Err(ConfigError::InvalidSetting(Setting::MinTemp))
    );
}

#[test]
fn overflowing_number_is_an_error() {
    let text = "[FAILSAFES]\nSHUTDOWN_DELAY = 18446744073709551616\n";
    assert_eq!(
        Config::from_file_contents(text.as_bytes()),
        Err(ConfigError::InvalidSetting(Setting::ShutdownDelay))
    );
}

#[test]
fn largest_number_is_accepted() {
    let text = "[FAILSAFES]\nSHUTDOWN_DELAY = 18446744073709551615\n";
    assert_eq!(
        Config::from_file_contents(text.as_bytes()),
        Ok(Config { failsafe_shutdown_delay: u64::MAX, ..defaults() })
    );
}

#[test]
fn first_bad_setting_in_order_is_reported() {
    let text = "[FAILSAFES]\nSHUTDOWN_DELAY = x\n[TEMPERATURES]\nMIN_TEMP = y\nMAX_TEMP = z\n";
    assert_eq!(
        Config::from_file_contents(text.as_bytes()),
        Err(ConfigError::InvalidSetting(Setting::MaxTemp))
    );
}

#[test]
fn invalid_utf8_is_malformed() {
    assert_eq!(Config::from_file_contents(&[b'[', 0xFF, b']']), Err(ConfigError::Malformed));
}

#[test]
fn broken_section_is_malformed() {
    assert_eq!(Config::from_file_contents(b"[MAIN\nREFRESH_DELAY = 3\n"), Err(ConfigError::Malformed));
}

#[test]
fn first_value_of_a_key_is_used() {
    let text = "[MAIN]\nREFRESH_DELAY = 300\nREFRESH_DELAY = 400\n";
    assert_eq!(Config::from_file_contents(text.as_bytes()), Ok(Config { refresh_delay: 300, ..defaults() }));
}

#[test]
fn from_ini_reads_a_built_document() {
    let mut doc = ini::Ini::new();
    doc.with_section(Some("TEMPERATURES")).set("MAX_TEMP", "70").set("MIN_TEMP", "60");
    assert_eq!(Config::from_ini(&doc), Ok(Config { idle_temp: 60, cooling_temp: 70, ..defaults() }));
}

#[test]
fn from_ini_reports_bad_value() {
    let mut doc = ini::Ini::new();
    doc.with_section(Some("MAIN")).set("REFRESH_DELAY", "1.5");
    assert_eq!(Config::from_ini(&doc), Err(ConfigError::InvalidSetting(Setting::RefreshDelay)));
}

#[test]
fn from_ini_section_names_are_case_sensitive() {
    let mut doc = ini::Ini::new();
    doc.with_section(Some("main")).set("REFRESH_DELAY", "5");
    assert_eq!(Config::from_ini(&doc), Ok(defaults()));
}

#[test]
fn fallback_keeps_loaded_config() {
    let loaded = Config { idle_temp: 1, cooling_temp: 2, refresh_delay: 3, failsafe_shutdown_delay: 4 };
    assert_eq!(Config::load_from_file_with_fallback(Ok(loaded)), loaded);
}

#[test]
fn fallback_uses_defaults_on_error() {
    assert_eq!(Config::load_from_file_with_fallback(Err(ConfigError::Unreadable)), defaults());
    assert_eq!(Config::load_from_file_with_fallback(Err(ConfigError::Malformed)), defaults());
    assert_eq!(
        Config::load_from_file_with_fallback(Err(ConfigError::InvalidSetting(Setting::MaxTemp))),
        defaults()
    );
}

#[test]
fn setting_names() {
    assert_eq!((Setting::RefreshDelay.section(), Setting::RefreshDelay.key()), ("MAIN", "REFRESH_DELAY"));
    assert_eq!((Setting::MaxTemp.section(), Setting::MaxTemp.key()), ("TEMPERATURES", "MAX_TEMP"));
    assert_eq!((Setting::MinTemp.section(), Setting::MinTemp.key()), ("TEMPERATURES", "MIN_TEMP"));
    assert_eq!((Setting::ShutdownDelay.section(), Setting::ShutdownDelay.key()), ("FAILSAFES", "SHUTDOWN_DELAY"));
}
