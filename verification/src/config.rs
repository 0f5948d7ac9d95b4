//! The configuration of the daemon and the key=value text that sets it.
//!
//! A configuration text is searched for each setting by a regular
//! expression. The search is the `regex` crate's; what is done with a match
//! is decided here.

use crate::text::{all_digits, decimal_value, parse_decimal, text_equals};
use vstd::prelude::*;
use vstd::string::StringExecFns;
use vstd::utf8::encode_utf8;

verus! {

/// Where the configuration lives, below `/etc/` and below the user's
/// configuration directory.
pub const CONFIG_PATH: &'static str = "wlbreaktime/config";

/// Seconds that a break lasts, unless configured.
pub const DEFAULT_BREAK_DURATION_SECONDS: u64 = 80;

/// Seconds of work between breaks, unless configured.
pub const DEFAULT_BREAK_INTERVAL_SECONDS: u64 = 1800;

/// Whether a popup covers the screen during a break, unless configured.
pub const DEFAULT_SHOW_POPUP: bool = true;

/// Whether a sound marks the start and the end of a break, unless
/// configured.
pub const DEFAULT_PLAY_SOUND: bool = true;

/// Whether a notification announces a break, unless configured.
pub const DEFAULT_SHOW_NOTIFICATION: bool = true;

/// Whether the monitors are powered off during a break, unless configured.
pub const DEFAULT_TURN_OFF_MONITORS: bool = false;

/// The setting of the work interval: digits, then an optional unit.
pub const BREAK_INTERVAL_PATTERN: &'static str = r"break_interval=(\d+)(s|m)?";

/// The setting of the break length: digits, then an optional unit.
pub const BREAK_DURATION_PATTERN: &'static str = r"break_duration=(\d+)(s|m)?";

/// The setting of the popup toggle.
pub const SHOW_POPUP_PATTERN: &'static str = r"show_popup=(true|false)";

/// The setting of the sound toggle.
pub const PLAY_SOUND_PATTERN: &'static str = r"play_sound=(true|false)";

/// The setting of the notification toggle.
pub const SHOW_NOTIFICATION_PATTERN: &'static str = r"show_notification=(true|false)";

/// The setting of the monitor toggle.
pub const TURN_OFF_MONITORS_PATTERN: &'static str = r"turn_off_monitors=(true|false)";

/// What the daemon is configured to do.
#[derive(Clone, Copy, Debug, PartialEq, Eq, Structural)]
pub struct Config {
    /// Seconds of work between breaks.
    pub break_interval: u64,
    /// Seconds that a break lasts.
    pub break_duration: u64,
    /// Whether a popup covers the screen during a break.
    pub show_popup: bool,
    /// Whether a sound marks the start and the end of a break.
    pub play_sound: bool,
    /// Whether a notification announces a break that is due.
    pub show_notification: bool,
    /// Whether the monitors are powered off during a break.
    pub turn_off_monitors: bool,
}

/// Why a configuration could not be read.
#[derive(Clone, Copy, Debug, PartialEq, Eq, Structural)]
pub enum ConfigError {
    /// The pattern of a setting is no regular expression.
    BadPattern,
    /// A setting matched without the group that holds its value.
    MissingValue,
    /// The value of a duration is not a decimal number of 64 bits.
    BadNumber,
    /// A duration in minutes is too long to be counted in seconds.
    TooLarge,
    /// Neither the configuration directory nor the home directory is known.
    NoHome,
}

/// The two capture groups of a match, as found.
pub type Groups = (Option<String>, Option<String>);

/// The two capture groups of a match, as text.
pub type GroupsView = (Option<Seq<char>>, Option<Seq<char>>);

/// Whether `regex::Regex::new` accepts `pattern`.
pub uninterp spec fn regex_compiles(pattern: Seq<char>) -> bool;

/// What `regex::Regex::captures` finds for `pattern` in `haystack`: `None`
/// where nothing matches, else the text of the first and the second capture
/// group of the leftmost match, each `None` where the group took no part.
pub uninterp spec fn regex_captures(pattern: Seq<char>, haystack: Seq<char>) -> Option<
    GroupsView,
>;

/// `regex::Error`: why a pattern did not compile. Nothing is read from it.
#[verifier::external_type_specification]
#[verifier::external_body]
pub struct ExRegexError(regex::Error);

/// The text of a capture group.
pub open spec fn group_view(group: Option<String>) -> Option<Seq<char>> {
    match group {
        Some(text) => Some(text@),
        None => None,
    }
}

/// The text of the capture groups of a search.
pub open spec fn groups_view(found: Option<Groups>) -> Option<GroupsView> {
    match found {
        Some(groups) => Some((group_view(groups.0), group_view(groups.1))),
        None => None,
    }
}

/// Compiles `pattern` with `regex::Regex::new` and searches `haystack` with
/// `Regex::captures`; the groups are read with `Captures::get` and
/// `Match::as_str`. Fails exactly where the pattern does not compile. The
/// outcome of the search is a function of the pattern and the haystack
/// alone, and nothing more is claimed of it.
#[verifier::external_body]
fn search(pattern: &str, haystack: &str) -> (r: Result<Option<Groups>, regex::Error>)
    ensures
        r.is_ok() == regex_compiles(pattern@),
        r matches Ok(found) ==> groups_view(found) == regex_captures(pattern@, haystack@),
{
    let re = regex::Regex::new(pattern)?;
    Ok(
        re.captures(haystack).map(
            |c| (c.get(1).map(|m| m.as_str().to_owned()), c.get(2).map(|m| m.as_str().to_owned())),
        ),
    )
}

/// The seconds that a duration setting asks for, given what its pattern
/// found: the old value where nothing matched; else the digits read as a
/// number, times sixty where the unit is `m`.
pub open spec fn duration_from(found: Option<GroupsView>, current: u64) -> Result<
    u64,
    ConfigError,
> {
    match found {
        None => Ok(current),
        Some((None, _)) => Err(ConfigError::MissingValue),
        Some((Some(digits), unit)) => {
            let bytes = encode_utf8(digits);
            if !(bytes.len() > 0 && all_digits(bytes) && decimal_value(bytes) <= u64::MAX) {
                Err(ConfigError::BadNumber)
            } else if unit == Some("m"@) {
                if decimal_value(bytes) * 60 <= u64::MAX {
                    Ok((decimal_value(bytes) * 60) as u64)
                } else {
                    Err(ConfigError::TooLarge)
                }
            } else {
                Ok(decimal_value(bytes) as u64)
            }
        },
    }
}

/// The value that a toggle setting asks for, given what its pattern found:
/// the old value where nothing matched; else whether the word is `true`.
pub open spec fn flag_from(found: Option<GroupsView>, current: bool) -> Result<bool, ConfigError> {
    match found {
        None => Ok(current),
        Some((None, _)) => Err(ConfigError::MissingValue),
        Some((Some(word), _)) => Ok(word == "true"@),
    }
}

/// What a duration setting with `pattern` makes of `current`, given the
/// configuration text.
pub open spec fn duration_setting(pattern: Seq<char>, content: Seq<char>, current: u64) -> Result<
    u64,
    ConfigError,
> {
    if regex_compiles(pattern) {
        duration_from(regex_captures(pattern, content), current)
    } else {
        Err(ConfigError::BadPattern)
    }
}

/// What a toggle setting with `pattern` makes of `current`, given the
/// configuration text.
pub open spec fn flag_setting(pattern: Seq<char>, content: Seq<char>, current: bool) -> Result<
    bool,
    ConfigError,
> {
    if regex_compiles(pattern) {
        flag_from(regex_captures(pattern, content), current)
    } else {
        Err(ConfigError::BadPattern)
    }
}

/// The configuration after the six settings have been read from `content`,
/// in their order; the first setting that fails decides the error.
pub open spec fn configured(config: Config, content: Seq<char>) -> Result<Config, ConfigError> {
    let interval = duration_setting(BREAK_INTERVAL_PATTERN@, content, config.break_interval);
    let duration = duration_setting(BREAK_DURATION_PATTERN@, content, config.break_duration);
    let popup = flag_setting(SHOW_POPUP_PATTERN@, content, config.show_popup);
    let sound = flag_setting(PLAY_SOUND_PATTERN@, content, config.play_sound);
    let notification = flag_setting(
        SHOW_NOTIFICATION_PATTERN@,
        content,
        config.show_notification,
    );
    let monitors = flag_setting(TURN_OFF_MONITORS_PATTERN@, content, config.turn_off_monitors);
    if interval is Err {
        Err(interval->Err_0)
    } else if duration is Err {
        Err(duration->Err_0)
    } else if popup is Err {
        Err(popup->Err_0)
    } else if sound is Err {
        Err(sound->Err_0)
    } else if notification is Err {
        Err(notification->Err_0)
    } else if monitors is Err {
        Err(monitors->Err_0)
    } else {
        Ok(
            Config {
                break_interval: interval->Ok_0,
                break_duration: duration->Ok_0,
                show_popup: popup->Ok_0,
                play_sound: sound->Ok_0,
                show_notification: notification->Ok_0,
                turn_off_monitors: monitors->Ok_0,
            },
        )
    }
}

/// The configuration after the system-wide text and then the user's text
/// have been read over the defaults; a text that is absent changes nothing.
pub open spec fn loaded(system: Option<Seq<char>>, user: Option<Seq<char>>) -> Result<
    Config,
    ConfigError,
> {
    let after_system = match system {
        Some(content) => configured(Config::defaults(), content),
        None => Ok(Config::defaults()),
    };
    match after_system {
        Err(e) => Err(e),
        Ok(config) => match user {
            Some(content) => configured(config, content),
            None => Ok(config),
        },
    }
}

impl Config {
    /// The configuration that holds where nothing is configured.
    pub open spec fn defaults() -> Config {
        Config {
            break_interval: DEFAULT_BREAK_INTERVAL_SECONDS,
            break_duration: DEFAULT_BREAK_DURATION_SECONDS,
            show_popup: DEFAULT_SHOW_POPUP,
            play_sound: DEFAULT_PLAY_SOUND,
            show_notification: DEFAULT_SHOW_NOTIFICATION,
            turn_off_monitors: DEFAULT_TURN_OFF_MONITORS,
        }
    }
}

impl Default for Config {
    fn default() -> (config: Config)
        ensures
            config == Config::defaults(),
    {
        Config {
            break_interval: DEFAULT_BREAK_INTERVAL_SECONDS,
            break_duration: DEFAULT_BREAK_DURATION_SECONDS,
            show_popup: DEFAULT_SHOW_POPUP,
            play_sound: DEFAULT_PLAY_SOUND,
            show_notification: DEFAULT_SHOW_NOTIFICATION,
            turn_off_monitors: DEFAULT_TURN_OFF_MONITORS,
        }
    }
}

/// Decides a duration from what the pattern of its setting found.
pub fn duration_from_match(found: &Option<Groups>, current: u64) -> (r: Result<u64, ConfigError>)
    ensures
        r == duration_from(groups_view(*found), current),
{
    match found {
        None => Ok(current),
        Some((None, _)) => Err(ConfigError::MissingValue),
        Some((Some(digits), unit)) => {
            let number: u64 = match parse_decimal(digits.as_str().as_bytes()) {
                Some(n) => n,
                None => {
                    return Err(ConfigError::BadNumber);
                },
            };
            let minutes: bool = match unit {
                Some(u) => text_equals(u.as_str(), "m"),
                None => false,
            };
            if minutes {
                match number.checked_mul(60) {
                    Some(seconds) => Ok(seconds),
                    None => Err(ConfigError::TooLarge),
                }
            } else {
                Ok(number)
            }
        },
    }
}

/// Decides a toggle from what the pattern of its setting found.
pub fn flag_from_match(found: &Option<Groups>, current: bool) -> (r: Result<bool, ConfigError>)
    ensures
        r == flag_from(groups_view(*found), current),
{
    match found {
        None => Ok(current),
        Some((None, _)) => Err(ConfigError::MissingValue),
        Some((Some(word), _)) => Ok(text_equals(word.as_str(), "true")),
    }
}

/// Searches `content` for a duration setting and decides its value.
pub fn read_duration(pattern: &str, content: &str, current: u64) -> (r: Result<u64, ConfigError>)
    ensures
        r == duration_setting(pattern@, content@, current),
{
    match search(pattern, content) {
        Ok(found) => duration_from_match(&found, current),
        Err(_) => Err(ConfigError::BadPattern),
    }
}

/// Searches `content` for a toggle setting and decides its value.
pub fn read_flag(pattern: &str, content: &str, current: bool) -> (r: Result<bool, ConfigError>)
    ensures
        r == flag_setting(pattern@, content@, current),
{
    match search(pattern, content) {
        Ok(found) => flag_from_match(&found, current),
        Err(_) => Err(ConfigError::BadPattern),
    }
}

/// Reads the settings that `content` holds into `config`. A setting that
/// `content` does not hold keeps its value. On an error `config` is left as
/// it was.
pub fn read_configuration(config: &mut Config, content: &str) -> (r: Result<(), ConfigError>)
    ensures
        match configured(*old(config), content@) {
            Ok(read) => r.is_ok() && *final(config) == read,
            Err(e) => r == Err::<(), ConfigError>(e) && *final(config) == *old(config),
        },
{
    let break_interval: u64 = match read_duration(
        BREAK_INTERVAL_PATTERN,
        content,
        config.break_interval,
    ) {
        Ok(v) => v,
        Err(e) => {
            return Err(e);
        },
    };
    let break_duration: u64 = match read_duration(
        BREAK_DURATION_PATTERN,
        content,
        config.break_duration,
    ) {
        Ok(v) => v,
        Err(e) => {
            return Err(e);
        },
    };
    let show_popup: bool = match read_flag(SHOW_POPUP_PATTERN, content, config.show_popup) {
        Ok(v) => v,
        Err(e) => {
            return Err(e);
        },
    };
    let play_sound: bool = match read_flag(PLAY_SOUND_PATTERN, content, config.play_sound) {
        Ok(v) => v,
        Err(e) => {
            return Err(e);
        },
    };
    let show_notification: bool = match read_flag(
        SHOW_NOTIFICATION_PATTERN,
        content,
        config.show_notification,
    ) {
        Ok(v) => v,
        Err(e) => {
            return Err(e);
        },
    };
    let turn_off_monitors: bool = match read_flag(
        TURN_OFF_MONITORS_PATTERN,
        content,
        config.turn_off_monitors,
    ) {
        Ok(v) => v,
        Err(e) => {
            return Err(e);
        },
    };
    *config = Config {
        break_interval,
        break_duration,
        show_popup,
        play_sound,
        show_notification,
        turn_off_monitors,
    };
    Ok(())
}

/// The configuration of the daemon: the defaults, then what the system-wide
/// text sets, then what the user's text sets. Each text is the content of
/// its file, or `None` where there is no such file.
pub fn load_configuration(system: Option<&str>, user: Option<&str>) -> (r: Result<
    Config,
    ConfigError,
>)
    ensures
        r == loaded(
            match system {
                Some(s) => Some(s@),
                None => None,
            },
            match user {
                Some(s) => Some(s@),
                None => None,
            },
        ),
{
    let mut config: Config = Config::default();
    match system {
        Some(content) => {
            match read_configuration(&mut config, content) {
                Ok(_) => {},
                Err(e) => {
                    return Err(e);
                },
            }
        },
        None => {},
    }
    match user {
        Some(content) => {
            match read_configuration(&mut config, content) {
                Ok(_) => {},
                Err(e) => {
                    return Err(e);
                },
            }
        },
        None => {},
    }
    Ok(config)
}

/// The path of the system-wide configuration file.
pub fn system_config_path() -> (path: String)
    ensures
        path@ == "/etc/"@ + CONFIG_PATH@,
{
    let mut path: String = "/etc/".to_owned();
    path.append(CONFIG_PATH);
    path
}

/// The path of the user's configuration file: below the configuration
/// directory where one is set, else below `.config` in the home directory.
pub fn user_config_path(config_home: Option<&str>, home: Option<&str>) -> (r: Result<
    String,
    ConfigError,
>)
    ensures
        match (config_home, home) {
            (Some(dir), _) => r.is_ok() && r.unwrap()@ == dir@ + "/"@ + CONFIG_PATH@,
            (None, Some(dir)) => r.is_ok() && r.unwrap()@ == dir@ + "/.config"@ + "/"@
                + CONFIG_PATH@,
            (None, None) => r == Err::<String, ConfigError>(ConfigError::NoHome),
        },
{
    let mut path: String = match config_home {
        Some(dir) => dir.to_owned(),
        None => match home {
            Some(dir) => {
                let mut base: String = dir.to_owned();
                base.append("/.config");
                base
            },
            None => {
                return Err(ConfigError::NoHome);
            },
        },
    };
    path.append("/");
    path.append(CONFIG_PATH);
    Ok(path)
}

} // verus!
