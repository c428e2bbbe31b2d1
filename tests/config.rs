use yap::config::{config_file_path, ConfigCommand, ConfigSettings, Configuration, SettingKey};
use yap::Error;

fn sample() -> Configuration {
    Configuration::from_parts(
        ConfigSettings { remote_url: "url".to_string(), session: "sess".to_string() },
        "dir/config.yaml".to_string(),
    )
}

#[test]
fn parses_known_setting_names_only() {
    assert_eq!(SettingKey::parse("remote_url"), Some(SettingKey::RemoteURL));
    assert_eq!(SettingKey::parse("session"), Some(SettingKey::Session));
    assert_eq!(SettingKey::parse("Session"), None);
    assert_eq!(SettingKey::parse(""), None);
    assert_eq!(SettingKey::parse("remote_url "), None);
}

#[test]
fn init_set_get_save_values() {
    let mut test_config = Configuration::from_parts(ConfigSettings::default(), ".yap_test/config.yaml".to_string());

    let test_session = String::from("test session");
    test_config.set_key(SettingKey::Session, test_session.clone());
    assert_eq!(test_config.get_key(SettingKey::Session), test_session);

    let test_url = String::from("test remote url");
    test_config.set_key(SettingKey::RemoteURL, test_url.clone());
    assert_eq!(test_config.get_key(SettingKey::RemoteURL), test_url);

    assert_eq!(test_config.settings().session, test_session);
    assert_eq!(test_config.settings().remote_url, test_url);
    assert_eq!(test_config.store(), ".yap_test/config.yaml");
}

#[test]
fn default_settings_are_empty() {
    let s = ConfigSettings::default();
    assert_eq!(s.remote_url, "");
    assert_eq!(s.session, "");
}

#[test]
fn setting_one_key_leaves_the_other() {
    let mut c = sample();
    c.set_key(SettingKey::Session, "new".to_string());
    assert_eq!(c.get_key(SettingKey::Session), "new");
    assert_eq!(c.get_key(SettingKey::RemoteURL), "url");
    assert_eq!(c.store(), "dir/config.yaml");
}

#[test]
fn get_command_reports_the_value() {
    let mut c = sample();
    let cmd = ConfigCommand::Get { key: "remote_url".to_string() };
    assert!(!cmd.changes_config());
    assert_eq!(cmd.execute_on(&mut c), Ok("url".to_string()));
}

#[test]
fn update_command_changes_the_value() {
    let mut c = sample();
    let cmd = ConfigCommand::Update { key: "session".to_string(), value: "v2".to_string() };
    assert!(cmd.changes_config());
    assert_eq!(cmd.execute_on(&mut c), Ok("Successfully updated config.\n".to_string()));
    assert_eq!(c.get_key(SettingKey::Session), "v2");
    assert_eq!(c.get_key(SettingKey::RemoteURL), "url");
}

#[test]
fn unknown_setting_is_rejected() {
    let mut c = sample();
    let r = ConfigCommand::Update { key: "colour".to_string(), value: "red".to_string() }.execute_on(&mut c);
    assert_eq!(r, Err(Error::BadConfigKey { key: "colour".to_string() }));
    assert_eq!(c.get_key(SettingKey::Session), "sess");
    let r = ConfigCommand::Get { key: "colour".to_string() }.execute_on(&mut c);
    assert_eq!(r, Err(Error::BadConfigKey { key: "colour".to_string() }));
}

#[test]
fn settings_file_sits_in_the_store_directory() {
    assert_eq!(config_file_path("/home/u/.yap"), "/home/u/.yap/config.yaml");
}
