use vstd::prelude::*;

use crate::error::Error;
use crate::global::{join_path, joined_path, CONFIG_FILE};

verus! {

/// Settings that persist between runs, kept in the store's settings file.
pub struct ConfigSettings {
    pub remote_url: String,
    pub session: String,
}

impl Default for ConfigSettings {
    /// Both settings empty.
    fn default() -> (r: ConfigSettings)
        ensures
            r.remote_url@.len() == 0,
            r.session@.len() == 0,
    {
        ConfigSettings { remote_url: String::new(), session: String::new() }
    }
}

/// The settings that a user may read or change.
#[derive(Debug, Clone, Copy, PartialEq, Eq, Structural)]
pub enum SettingKey {
    RemoteURL,
    Session,
}

/// The setting that a name stands for, if any.
pub open spec fn setting_key_of(setting: Seq<char>) -> Option<SettingKey> {
    if setting == "remote_url"@ {
        Some(SettingKey::RemoteURL)
    } else if setting == "session"@ {
        Some(SettingKey::Session)
    } else {
        None
    }
}

impl SettingKey {
    /// The setting named `setting`: `"remote_url"` or `"session"`; `None` for
    /// any other name.
    pub fn parse(setting: &str) -> (r: Option<SettingKey>)
        ensures
            r == setting_key_of(setting@),
    {
        let s = setting.to_owned();
        if s == "remote_url".to_owned() {
            Some(SettingKey::RemoteURL)
        } else if s == "session".to_owned() {
            Some(SettingKey::Session)
        } else {
            None
        }
    }
}

/// The settings of one store, with the path of the file they belong in.
pub struct Configuration {
    settings: ConfigSettings,
    store: String,
}

impl Configuration {
    /// The current value of a setting.
    pub closed spec fn setting(&self, key: SettingKey) -> Seq<char> {
        match key {
            SettingKey::RemoteURL => self.settings.remote_url@,
            SettingKey::Session => self.settings.session@,
        }
    }

    /// The path of the settings file.
    pub closed spec fn store_path(&self) -> Seq<char> {
        self.store@
    }

    /// Settings read from the file at `store`.
    pub fn from_parts(settings: ConfigSettings, store: String) -> (r: Configuration)
        ensures
            r.setting(SettingKey::RemoteURL) == settings.remote_url@,
            r.setting(SettingKey::Session) == settings.session@,
            r.store_path() == store@,
    {
        Configuration { settings, store }
    }

    /// The settings, for writing them back.
    pub fn settings(&self) -> (r: &ConfigSettings)
        ensures
            r.remote_url@ == self.setting(SettingKey::RemoteURL),
            r.session@ == self.setting(SettingKey::Session),
    {
        &self.settings
    }

    /// The path of the settings file.
    pub fn store(&self) -> (r: &str)
        ensures
            r@ == self.store_path(),
    {
        self.store.as_str()
    }

    /// The value of the given setting.
    pub fn get_key(&self, key: SettingKey) -> (r: &str)
        ensures
            r@ == self.setting(key),
    {
        match key {
            SettingKey::RemoteURL => self.settings.remote_url.as_str(),
            SettingKey::Session => self.settings.session.as_str(),
        }
    }

    /// Sets the given setting to `value`; the other setting and the path stay.
    pub fn set_key(&mut self, key: SettingKey, value: String)
        ensures
            final(self).setting(key) == value@,
            forall|other: SettingKey|
                other != key ==> #[trigger] final(self).setting(other) == old(self).setting(other),
            final(self).store_path() == old(self).store_path(),
    {
        match key {
            SettingKey::RemoteURL => self.settings.remote_url = value,
            SettingKey::Session => self.settings.session = value,
        }
    }
}

/// The path of the settings file inside the store directory `dir`.
pub fn config_file_path(dir: &str) -> (r: String)
    ensures
        r@ == joined_path(dir@, CONFIG_FILE@),
{
    join_path(dir, CONFIG_FILE)
}

/// The subcommands that read or change a setting.
pub enum ConfigCommand {
    /// Get the value of the given setting.
    Get { key: String },
    /// Set the given setting to the given value.
    Update { key: String, value: String },
}

/// The message reported after a setting was changed.
pub open spec fn updated_message() -> Seq<char> {
    "Successfully updated config.\n"@
}

impl ConfigCommand {
    /// Whether running the command changes the settings, so that they must be
    /// saved afterwards.
    pub fn changes_config(&self) -> (r: bool)
        ensures
            r == (self is Update),
    {
        match self {
            ConfigCommand::Get { .. } => false,
            ConfigCommand::Update { .. } => true,
        }
    }

    /// Runs the command on loaded settings. `Get` reports the setting's value;
    /// `Update` changes it and reports success. An unknown setting name fails
    /// with `BadConfigKey` and leaves the settings as they were.
    pub fn execute_on(self, config: &mut Configuration) -> (r: Result<String, Error>)
        ensures
            match self {
                ConfigCommand::Get { key } => match setting_key_of(key@) {
                    None => {
                        &&& r == Err::<String, Error>(Error::BadConfigKey { key })
                        &&& *final(config) == *old(config)
                    },
                    Some(k) => {
                        &&& r is Ok
                        &&& r->Ok_0@ == old(config).setting(k)
                        &&& *final(config) == *old(config)
                    },
                },
                ConfigCommand::Update { key, value } => match setting_key_of(key@) {
                    None => {
                        &&& r == Err::<String, Error>(Error::BadConfigKey { key })
                        &&& *final(config) == *old(config)
                    },
                    Some(k) => {
                        &&& r is Ok
                        &&& r->Ok_0@ == updated_message()
                        &&& final(config).setting(k) == value@
                        &&& forall|other: SettingKey|
                            other != k ==> #[trigger] final(config).setting(other)
                                == old(config).setting(other)
                        &&& final(config).store_path() == old(config).store_path()
                    },
                },
            },
    {
        match self {
            ConfigCommand::Get { key } => match SettingKey::parse(key.as_str()) {
                None => Err(Error::BadConfigKey { key }),
                Some(k) => Ok(config.get_key(k).to_owned()),
            },
            ConfigCommand::Update { key, value } => match SettingKey::parse(key.as_str()) {
                None => Err(Error::BadConfigKey { key }),
                Some(k) => {
                    config.set_key(k, value);
                    Ok("Successfully updated config.\n".to_owned())
                },
            },
        }
    }
}

} // verus!
