//! The daemon's settings and how they are read from its INI configuration file.

use vstd::prelude::*;
use ini::Ini;
use crate::text::{parse_u64, u64_from_decimal};

verus! {

#[verifier::external_type_specification]
#[verifier::external_body]
pub struct ExIni(Ini);

#[verifier::external_type_specification]
#[verifier::external_body]
pub struct ExIniError(ini::Error);

/// What an `Ini` holds, as `Ini::get_from(Some(section), key)` sees it: for each
/// section name and key, the value found there (that of the first section of that name,
/// and the first value of that key in it).
pub uninterp spec fn ini_entries(ini: Ini) -> Map<(Seq<char>, Seq<char>), Seq<char>>;

/// What `Ini::read_from` makes of the bytes of a document: the entries of the document
/// read, or nothing where the bytes are not UTF-8 or not INI.
pub uninterp spec fn ini_read_entries(bytes: Seq<u8>) -> Option<Map<(Seq<char>, Seq<char>), Seq<char>>>;

/// `ini::Ini::read_from` on bytes held in memory. The crate reads the bytes into a
/// string (failing on invalid UTF-8) and parses it; the result depends on the bytes
/// alone, and is named by `ini_read_entries`. What the parser accepts and how it trims
/// keys and values is left to that name.
#[verifier::external_body]
fn read_ini(bytes: &[u8]) -> (res: Result<Ini, ini::Error>)
    ensures
        match res {
            Ok(ini) => ini_read_entries(bytes@) == Some(ini_entries(ini)),
            Err(_) => ini_read_entries(bytes@) is None,
        },
{
    let mut reader = bytes;
    Ini::read_from(&mut reader)
}

/// `ini::Ini::get_from(Some(section), key)`: the value that `ini` holds under `key` in
/// the section named `section`, if any.
#[verifier::external_body]
fn ini_get_from<'a>(ini: &'a Ini, section: &str, key: &str) -> (value: Option<&'a str>)
    ensures
        value is Some <==> ini_entries(*ini).contains_key((section@, key@)),
        value matches Some(v) ==> v@ == ini_entries(*ini)[(section@, key@)],
{
    ini.get_from(Some(section), key)
}

/// The settings of the fan manager.
#[derive(Debug, Clone, Copy, PartialEq, Eq, Structural)]
pub struct Config {
    /// Temperature (degrees C) below which the fans are stopped.
    pub idle_temp: u64,
    /// Temperature (degrees C) above which the fans are handed back to the vBIOS.
    pub cooling_temp: u64,
    /// Delay between two temperature checks, in milliseconds.
    pub refresh_delay: u64,
    /// How long, in milliseconds, the fans may fail to come back before the machine is
    /// shut down.
    pub failsafe_shutdown_delay: u64,
}

/// The settings used when the configuration file says nothing else.
pub open spec fn default_config() -> Config {
    Config { idle_temp: 40, cooling_temp: 50, refresh_delay: 1000, failsafe_shutdown_delay: 30000 }
}

impl Default for Config {
    fn default() -> (c: Config)
        ensures
            c == default_config(),
    {
        Config { idle_temp: 40, cooling_temp: 50, refresh_delay: 1000, failsafe_shutdown_delay: 30000 }
    }
}

/// The settings that the configuration file can hold.
#[derive(Debug, Clone, Copy, PartialEq, Eq, Structural)]
pub enum Setting {
    /// `REFRESH_DELAY` in `[MAIN]`, into `Config::refresh_delay`.
    RefreshDelay,
    /// `MAX_TEMP` in `[TEMPERATURES]`, into `Config::cooling_temp`.
    MaxTemp,
    /// `MIN_TEMP` in `[TEMPERATURES]`, into `Config::idle_temp`.
    MinTemp,
    /// `SHUTDOWN_DELAY` in `[FAILSAFES]`, into `Config::failsafe_shutdown_delay`.
    ShutdownDelay,
}

impl Setting {
    pub open spec fn spec_section(self) -> Seq<char> {
        match self {
            Setting::RefreshDelay => "MAIN"@,
            Setting::MaxTemp => "TEMPERATURES"@,
            Setting::MinTemp => "TEMPERATURES"@,
            Setting::ShutdownDelay => "FAILSAFES"@,
        }
    }

    pub open spec fn spec_key(self) -> Seq<char> {
        match self {
            Setting::RefreshDelay => "REFRESH_DELAY"@,
            Setting::MaxTemp => "MAX_TEMP"@,
            Setting::MinTemp => "MIN_TEMP"@,
            Setting::ShutdownDelay => "SHUTDOWN_DELAY"@,
        }
    }

    /// The section of the file that holds this setting.
    pub fn section(&self) -> (name: &'static str)
        ensures
            name@ == self.spec_section(),
    {
        match self {
            Setting::RefreshDelay => "MAIN",
            Setting::MaxTemp => "TEMPERATURES",
            Setting::MinTemp => "TEMPERATURES",
            Setting::ShutdownDelay => "FAILSAFES",
        }
    }

    /// The key of this setting in its section.
    pub fn key(&self) -> (name: &'static str)
        ensures
            name@ == self.spec_key(),
    {
        match self {
            Setting::RefreshDelay => "REFRESH_DELAY",
            Setting::MaxTemp => "MAX_TEMP",
            Setting::MinTemp => "MIN_TEMP",
            Setting::ShutdownDelay => "SHUTDOWN_DELAY",
        }
    }
}

/// Why the configuration file could not be used.
#[derive(Debug, Clone, Copy, PartialEq, Eq, Structural)]
pub enum ConfigError {
    /// The file could not be read.
    Unreadable,
    /// The file is not UTF-8 text in INI form.
    Malformed,
    /// The setting is present but is not a number that fits in 64 bits.
    InvalidSetting(Setting),
}

/// The text of `setting` in the entries of a document, if it is there.
pub open spec fn setting_text(entries: Map<(Seq<char>, Seq<char>), Seq<char>>, setting: Setting) -> Option<Seq<char>> {
    let at = (setting.spec_section(), setting.spec_key());
    if entries.contains_key(at) {
        Some(entries[at])
    } else {
        None
    }
}

/// `setting` as read from a document: absent (`Ok(None)`), a number, or an error.
pub open spec fn setting_value(entries: Map<(Seq<char>, Seq<char>), Seq<char>>, setting: Setting) -> Result<Option<u64>, ConfigError> {
    match setting_text(entries, setting) {
        None => Ok(None),
        Some(text) => match u64_from_decimal(text) {
            Some(v) => Ok(Some(v)),
            None => Err(ConfigError::InvalidSetting(setting)),
        },
    }
}

/// The number read for a setting, or `default` where the document does not have it.
pub open spec fn value_or(read: Option<u64>, default: u64) -> u64 {
    match read {
        Some(v) => v,
        None => default,
    }
}

/// The settings that a document with these entries gives. The settings are checked in
/// the order `REFRESH_DELAY`, `MAX_TEMP`, `MIN_TEMP`, `SHUTDOWN_DELAY`; the first that
/// is present and not a number is the error. Absent settings keep their defaults.
pub open spec fn config_from_entries(entries: Map<(Seq<char>, Seq<char>), Seq<char>>) -> Result<Config, ConfigError> {
    let d = default_config();
    match setting_value(entries, Setting::RefreshDelay) {
        Err(e) => Err(e),
        Ok(refresh) => match setting_value(entries, Setting::MaxTemp) {
            Err(e) => Err(e),
            Ok(max) => match setting_value(entries, Setting::MinTemp) {
                Err(e) => Err(e),
                Ok(min) => match setting_value(entries, Setting::ShutdownDelay) {
                    Err(e) => Err(e),
                    Ok(shutdown) => Ok(
                        Config {
                            idle_temp: value_or(min, d.idle_temp),
                            cooling_temp: value_or(max, d.cooling_temp),
                            refresh_delay: value_or(refresh, d.refresh_delay),
                            failsafe_shutdown_delay: value_or(shutdown, d.failsafe_shutdown_delay),
                        },
                    ),
                },
            },
        },
    }
}

/// `bytes` begins with the UTF-8 byte order mark.
pub open spec fn starts_with_bom(bytes: Seq<u8>) -> bool {
    bytes.len() >= 3 && bytes[0] == 0xEF && bytes[1] == 0xBB && bytes[2] == 0xBF
}

/// The bytes of a file as INI text: without a leading byte order mark.
pub open spec fn without_bom(bytes: Seq<u8>) -> Seq<u8> {
    if starts_with_bom(bytes) {
        bytes.subrange(3, bytes.len() as int)
    } else {
        bytes
    }
}

/// The settings that a configuration file with these bytes gives.
pub open spec fn config_from_contents(contents: Seq<u8>) -> Result<Config, ConfigError> {
    match ini_read_entries(without_bom(contents)) {
        None => Err(ConfigError::Malformed),
        Some(entries) => config_from_entries(entries),
    }
}

/// Reads one setting from the document.
fn read_setting(ini: &Ini, setting: Setting) -> (value: Result<Option<u64>, ConfigError>)
    ensures
        value == setting_value(ini_entries(*ini), setting),
{
    match ini_get_from(ini, setting.section(), setting.key()) {
        None => Ok(None),
        Some(text) => match parse_u64(text) {
            Some(v) => Ok(Some(v)),
            None => Err(ConfigError::InvalidSetting(setting)),
        },
    }
}

impl Config {
    /// The settings given by a configuration file with these contents: the defaults,
    /// overridden by each setting that the file holds. A leading UTF-8 byte order mark
    /// is skipped, as the `ini` crate does when it loads a file.
    pub fn from_file_contents(contents: &[u8]) -> (res: Result<Config, ConfigError>)
        ensures
            res == config_from_contents(contents@),
    {
        let has_bom = contents.len() >= 3 && contents[0] == 0xEFu8 && contents[1] == 0xBBu8
            && contents[2] == 0xBFu8;
        let text = if has_bom {
            contents.split_at(3).1
        } else {
            contents
        };
        assert(text@ == without_bom(contents@));
        match read_ini(text) {
            Ok(ini) => Config::from_ini(&ini),
            Err(_) => Err(ConfigError::Malformed),
        }
    }

    /// The settings given by a parsed configuration document: the defaults, overridden
    /// by each setting that the document holds.
    pub fn from_ini(ini: &Ini) -> (res: Result<Config, ConfigError>)
        ensures
            res == config_from_entries(ini_entries(*ini)),
    {
        let mut conf = Config::default();
        if let Some(v) = read_setting(ini, Setting::RefreshDelay)? {
            conf.refresh_delay = v;
        }
        if let Some(v) = read_setting(ini, Setting::MaxTemp)? {
            conf.cooling_temp = v;
        }
        if let Some(v) = read_setting(ini, Setting::MinTemp)? {
            conf.idle_temp = v;
        }
        if let Some(v) = read_setting(ini, Setting::ShutdownDelay)? {
            conf.failsafe_shutdown_delay = v;
        }
        Ok(conf)
    }

    /// The settings that were loaded, or the defaults where loading failed.
    pub fn load_from_file_with_fallback(loaded: Result<Config, ConfigError>) -> (conf: Config)
        ensures
            conf == match loaded {
                Ok(c) => c,
                Err(_) => default_config(),
            },
    {
        match loaded {
            Ok(config) => config,
            Err(_) => Config::default(),
        }
    }
}

/// A document that holds none of the settings gives the defaults.
pub proof fn lemma_absent_settings_keep_defaults(entries: Map<(Seq<char>, Seq<char>), Seq<char>>)
    requires
        forall|s: Setting| !entries.contains_key((#[trigger] s.spec_section(), s.spec_key())),
    ensures
        config_from_entries(entries) == Ok::<Config, ConfigError>(default_config()),
{
    assert(!entries.contains_key((Setting::RefreshDelay.spec_section(), Setting::RefreshDelay.spec_key())));
    assert(!entries.contains_key((Setting::MaxTemp.spec_section(), Setting::MaxTemp.spec_key())));
    assert(!entries.contains_key((Setting::MinTemp.spec_section(), Setting::MinTemp.spec_key())));
    assert(!entries.contains_key((Setting::ShutdownDelay.spec_section(), Setting::ShutdownDelay.spec_key())));
}

/// A setting that is present and a number replaces its default and nothing else; the
/// others keep what the rest of the document gives them.
pub proof fn lemma_valid_setting_overrides_its_field(entries: Map<(Seq<char>, Seq<char>), Seq<char>>, setting: Setting, value: u64)
    requires
        config_from_entries(entries) is Ok,
        setting_value(entries, setting) == Ok::<Option<u64>, ConfigError>(Some(value)),
    ensures
        ({
            let c = config_from_entries(entries)->Ok_0;
            match setting {
                Setting::RefreshDelay => c.refresh_delay == value,
                Setting::MaxTemp => c.cooling_temp == value,
                Setting::MinTemp => c.idle_temp == value,
                Setting::ShutdownDelay => c.failsafe_shutdown_delay == value,
            }
        }),
{
}

/// The field of `c` that `setting` fills.
pub open spec fn field_of(c: Config, setting: Setting) -> u64 {
    match setting {
        Setting::RefreshDelay => c.refresh_delay,
        Setting::MaxTemp => c.cooling_temp,
        Setting::MinTemp => c.idle_temp,
        Setting::ShutdownDelay => c.failsafe_shutdown_delay,
    }
}

/// Each field of a loaded configuration comes from its own setting and from nothing
/// else: the number the document writes there, or the fixed default (40, 50, 1000 and
/// 30000) when the document does not hold that setting.
pub proof fn lemma_each_field_from_its_own_setting(entries: Map<(Seq<char>, Seq<char>), Seq<char>>)
    requires
        config_from_entries(entries) is Ok,
    ensures
        ({
            let c = config_from_entries(entries)->Ok_0;
            &&& (setting_text(entries, Setting::MinTemp) is None ==> c.idle_temp == 40)
            &&& (setting_text(entries, Setting::MaxTemp) is None ==> c.cooling_temp == 50)
            &&& (setting_text(entries, Setting::RefreshDelay) is None ==> c.refresh_delay == 1000)
            &&& (setting_text(entries, Setting::ShutdownDelay) is None ==> c.failsafe_shutdown_delay == 30000)
            &&& (setting_text(entries, Setting::MinTemp) matches Some(t) ==> u64_from_decimal(t) == Some(c.idle_temp))
            &&& (setting_text(entries, Setting::MaxTemp) matches Some(t) ==> u64_from_decimal(t) == Some(c.cooling_temp))
            &&& (setting_text(entries, Setting::RefreshDelay) matches Some(t) ==> u64_from_decimal(t) == Some(c.refresh_delay))
            &&& (setting_text(entries, Setting::ShutdownDelay) matches Some(t) ==> u64_from_decimal(t) == Some(
                c.failsafe_shutdown_delay,
            ))
        }),
{
}

/// Two documents that agree on one setting give the same value for its field, whatever
/// else they hold.
pub proof fn lemma_fields_are_independent(
    e1: Map<(Seq<char>, Seq<char>), Seq<char>>,
    e2: Map<(Seq<char>, Seq<char>), Seq<char>>,
    setting: Setting,
)
    requires
        config_from_entries(e1) is Ok,
        config_from_entries(e2) is Ok,
        setting_text(e1, setting) == setting_text(e2, setting),
    ensures
        field_of(config_from_entries(e1)->Ok_0, setting) == field_of(config_from_entries(e2)->Ok_0, setting),
{
    lemma_each_field_from_its_own_setting(e1);
    lemma_each_field_from_its_own_setting(e2);
}

/// A document is refused exactly when one of the settings is present and not a number;
/// the error names such a setting.
pub proof fn lemma_refused_exactly_on_bad_setting(entries: Map<(Seq<char>, Seq<char>), Seq<char>>)
    ensures
        config_from_entries(entries) is Err <==> exists|s: Setting| #[trigger] setting_text(entries, s) matches Some(t)
            && u64_from_decimal(t) is None,
        config_from_entries(entries) matches Err(err) ==> (err matches ConfigError::InvalidSetting(s)
            && setting_text(entries, s) matches Some(t) && u64_from_decimal(t) is None),
{
    if config_from_entries(entries) is Err {
        let s = config_from_entries(entries)->Err_0->InvalidSetting_0;
        assert(setting_text(entries, s) is Some);
    }
    if exists|s: Setting| #[trigger] setting_text(entries, s) matches Some(t) && u64_from_decimal(t) is None {
        let s = choose|s: Setting| #[trigger] setting_text(entries, s) matches Some(t) && u64_from_decimal(t) is None;
        assert(setting_value(entries, s) is Err);
    }
}

/// A leading byte order mark does not change what a file gives; without one, the bytes
/// are read as they are.
pub proof fn lemma_byte_order_mark_is_ignored(body: Seq<u8>)
    requires
        !starts_with_bom(body),
    ensures
        config_from_contents(seq![0xEFu8, 0xBBu8, 0xBFu8] + body) == config_from_contents(body),
        config_from_contents(body) == match ini_read_entries(body) {
            None => Err(ConfigError::Malformed),
            Some(entries) => config_from_entries(entries),
        },
{
    let bytes = seq![0xEFu8, 0xBBu8, 0xBFu8] + body;
    assert(bytes.subrange(3, bytes.len() as int) =~= body);
}

/// The setting is present in the document and is not a number.
pub open spec fn bad_setting(entries: Map<(Seq<char>, Seq<char>), Seq<char>>, setting: Setting) -> bool {
    setting_text(entries, setting) matches Some(t) && u64_from_decimal(t) is None
}

/// The error names the first bad setting in the order `REFRESH_DELAY`, `MAX_TEMP`,
/// `MIN_TEMP`, `SHUTDOWN_DELAY`.
pub proof fn lemma_first_bad_setting_is_reported(entries: Map<(Seq<char>, Seq<char>), Seq<char>>)
    ensures
        bad_setting(entries, Setting::RefreshDelay) ==> config_from_entries(entries) == Err::<Config, ConfigError>(
            ConfigError::InvalidSetting(Setting::RefreshDelay),
        ),
        !bad_setting(entries, Setting::RefreshDelay) && bad_setting(entries, Setting::MaxTemp)
            ==> config_from_entries(entries) == Err::<Config, ConfigError>(
            ConfigError::InvalidSetting(Setting::MaxTemp),
        ),
        !bad_setting(entries, Setting::RefreshDelay) && !bad_setting(entries, Setting::MaxTemp)
            && bad_setting(entries, Setting::MinTemp) ==> config_from_entries(entries) == Err::<
            Config,
            ConfigError,
        >(ConfigError::InvalidSetting(Setting::MinTemp)),
        !bad_setting(entries, Setting::RefreshDelay) && !bad_setting(entries, Setting::MaxTemp)
            && !bad_setting(entries, Setting::MinTemp) && bad_setting(entries, Setting::ShutdownDelay)
            ==> config_from_entries(entries) == Err::<Config, ConfigError>(
            ConfigError::InvalidSetting(Setting::ShutdownDelay),
        ),
{
}

} // verus!