use wlbreaktime::config::{
    duration_from_match, flag_from_match, load_configuration, read_configuration, read_duration,
    read_flag, system_config_path, user_config_path, Config, ConfigError, BREAK_INTERVAL_PATTERN,
    SHOW_POPUP_PATTERN,
};

fn groups(first: Option<&str>, second: Option<&str>) -> Option<(Option<String>, Option<String>)> {
    Some((first.map(|s| s.to_string()), second.map(|s| s.to_string())))
}

#[test]
fn defaults_hold_where_nothing_is_configured() {
    let c = Config::default();
    assert_eq!(
        c,
        Config {
            break_interval: 1800,
            break_duration: 80,
            show_popup: true,
            play_sound: true,
            show_notification: true,
            turn_off_monitors: false,
        }
    );
    assert_eq!(load_configuration(None, None), Ok(c));
    assert_eq!(load_configuration(Some(""), Some("# nothing here\n")), Ok(c));
}

#[test]
fn every_setting_is_read() {
    let mut c = Config::default();
    let text = "break_interval=25m\nbreak_duration=90s\nshow_popup=false\nplay_sound=false\n\
                show_notification=false\nturn_off_monitors=true\n";
    assert_eq!(read_configuration(&mut c, text), Ok(()));
    assert_eq!(
        c,
        Config {
            break_interval: 1500,
            break_duration: 90,
            show_popup: false,
            play_sound: false,
            show_notification: false,
            turn_off_monitors: true,
        }
    );
}

#[test]
fn settings_that_are_absent_keep_their_value() {
    let mut c = Config::default();
    c.break_duration = 33;
    c.play_sound = false;
    assert_eq!(read_configuration(&mut c, "break_interval=600\nshow_popup=true"), Ok(()));
    assert_eq!(c.break_interval, 600);
    assert_eq!(c.break_duration, 33);
    assert!(c.show_popup);
    assert!(!c.play_sound);
    assert!(c.show_notification);
    assert!(!c.turn_off_monitors);
}

#[test]
fn the_first_match_in_the_text_counts() {
    assert_eq!(read_duration(BREAK_INTERVAL_PATTERN, "break_interval=5m break_interval=7", 1), Ok(300));
    assert_eq!(read_duration(BREAK_INTERVAL_PATTERN, "break_interval=x break_interval=7", 1), Ok(7));
    assert_eq!(read_duration(BREAK_INTERVAL_PATTERN, "my_break_interval=12s", 1), Ok(12));
    assert_eq!(read_duration(BREAK_INTERVAL_PATTERN, "break_interval=10h", 1), Ok(10));
    assert_eq!(read_duration(BREAK_INTERVAL_PATTERN, "break_interval = 10", 1), Ok(1));
    assert_eq!(read_duration(BREAK_INTERVAL_PATTERN, "break_interval=", 4), Ok(4));
    assert_eq!(read_duration(BREAK_INTERVAL_PATTERN, "break_interval=0m", 4), Ok(0));
    assert_eq!(read_flag(SHOW_POPUP_PATTERN, "show_popup=falsetto", true), Ok(false));
    assert_eq!(read_flag(SHOW_POPUP_PATTERN, "show_popup=yes show_popup=true", false), Ok(true));
    assert_eq!(read_flag(SHOW_POPUP_PATTERN, "show_popup=TRUE", false), Ok(false));
    assert_eq!(read_flag(SHOW_POPUP_PATTERN, "show_popup=TRUE", true), Ok(true));
}

#[test]
fn durations_that_do_not_fit_are_errors() {
    assert_eq!(
        read_duration(BREAK_INTERVAL_PATTERN, "break_interval=18446744073709551615", 1),
        Ok(u64::MAX)
    );
    assert_eq!(
        read_duration(BREAK_INTERVAL_PATTERN, "break_interval=18446744073709551616", 1),
        Err(ConfigError::BadNumber)
    );
    assert_eq!(
        read_duration(BREAK_INTERVAL_PATTERN, "break_interval=307445734561825860m", 1),
        Ok(18446744073709551600)
    );
    assert_eq!(
        read_duration(BREAK_INTERVAL_PATTERN, "break_interval=307445734561825861m", 1),
        Err(ConfigError::TooLarge)
    );
    assert_eq!(
        read_duration(BREAK_INTERVAL_PATTERN, "break_interval=٣", 1),
        Err(ConfigError::BadNumber)
    );
}

#[test]
fn a_pattern_that_does_not_compile_is_an_error() {
    assert_eq!(read_duration("break_interval=(\\d+", "break_interval=5", 1), Err(ConfigError::BadPattern));
    assert_eq!(read_flag("show_popup=(true|false", "show_popup=true", false), Err(ConfigError::BadPattern));
}

#[test]
fn an_error_leaves_the_configuration_as_it_was() {
    let mut c = Config::default();
    let text = "break_interval=10m\nbreak_duration=99999999999999999999\nshow_popup=false";
    assert_eq!(read_configuration(&mut c, text), Err(ConfigError::BadNumber));
    assert_eq!(c, Config::default());
    assert_eq!(load_configuration(Some(text), None), Err(ConfigError::BadNumber));
    assert_eq!(load_configuration(None, Some(text)), Err(ConfigError::BadNumber));
}

#[test]
fn the_user_overrides_the_system() {
    let system = "break_interval=20m\nbreak_duration=60\nplay_sound=false";
    let user = "break_interval=45m\nturn_off_monitors=true";
    assert_eq!(
        load_configuration(Some(system), Some(user)),
        Ok(Config {
            break_interval: 2700,
            break_duration: 60,
            show_popup: true,
            play_sound: false,
            show_notification: true,
            turn_off_monitors: true,
        })
    );
    assert_eq!(load_configuration(Some(system), None).unwrap().break_interval, 1200);
    assert_eq!(load_configuration(None, Some(user)).unwrap().break_duration, 80);
}

#[test]
fn a_match_decides_a_duration() {
    assert_eq!(duration_from_match(&None, 9), Ok(9));
    assert_eq!(duration_from_match(&groups(Some("12"), None), 9), Ok(12));
    assert_eq!(duration_from_match(&groups(Some("12"), Some("s")), 9), Ok(12));
    assert_eq!(duration_from_match(&groups(Some("12"), Some("m")), 9), Ok(720));
    assert_eq!(duration_from_match(&groups(Some("12"), Some("h")), 9), Ok(12));
    assert_eq!(duration_from_match(&groups(Some(""), None), 9), Err(ConfigError::BadNumber));
    assert_eq!(duration_from_match(&groups(Some("1x"), Some("m")), 9), Err(ConfigError::BadNumber));
    assert_eq!(duration_from_match(&groups(None, Some("m")), 9), Err(ConfigError::MissingValue));
    assert_eq!(
        duration_from_match(&groups(Some("18446744073709551615"), Some("m")), 9),
        Err(ConfigError::TooLarge)
    );
}

#[test]
fn a_match_decides_a_flag() {
    assert_eq!(flag_from_match(&None, true), Ok(true));
    assert_eq!(flag_from_match(&None, false), Ok(false));
    assert_eq!(flag_from_match(&groups(Some("true"), None), false), Ok(true));
    assert_eq!(flag_from_match(&groups(Some("false"), None), true), Ok(false));
    assert_eq!(flag_from_match(&groups(Some("True"), None), true), Ok(false));
    assert_eq!(flag_from_match(&groups(None, None), true), Err(ConfigError::MissingValue));
}

#[test]
fn configuration_paths_are_built() {
    assert_eq!(system_config_path(), "/etc/wlbreaktime/config");
    assert_eq!(
        user_config_path(Some("/home/u/.cfg"), Some("/home/u")),
        Ok("/home/u/.cfg/wlbreaktime/config".to_string())
    );
    assert_eq!(
        user_config_path(None, Some("/home/u")),
        Ok("/home/u/.config/wlbreaktime/config".to_string())
    );
    assert_eq!(user_config_path(Some("rel"), None), Ok("rel/wlbreaktime/config".to_string()));
    assert_eq!(user_config_path(None, None), Err(ConfigError::NoHome));
}
