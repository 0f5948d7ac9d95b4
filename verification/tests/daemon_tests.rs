use wlbreaktime::config::Config;
use wlbreaktime::daemon::{check_activation, plan_break, ActivationError, BreakPlan, NOTIFICATION_LEAD_SECS};
use wlbreaktime::timer::Outcome;

#[test]
fn a_break_that_is_due_is_announced() {
    let plan = plan_break(&Config::default(), Outcome::NaturalExpiry);
    assert_eq!(
        plan,
        BreakPlan {
            notify: true,
            lead_secs: 10,
            play_sound: true,
            power_off_monitors: false,
            show_popup: true,
        }
    );
    assert_eq!(NOTIFICATION_LEAD_SECS, 10);
}

#[test]
fn a_break_that_was_asked_for_is_not_announced() {
    let plan = plan_break(&Config::default(), Outcome::Skipped);
    assert!(!plan.notify);
    assert_eq!(plan.lead_secs, 0);
    assert!(plan.play_sound);
    assert!(plan.show_popup);
}

#[test]
fn the_plan_follows_the_configuration() {
    let config = Config {
        break_interval: 1,
        break_duration: 1,
        show_popup: false,
        play_sound: false,
        show_notification: false,
        turn_off_monitors: true,
    };
    assert_eq!(
        plan_break(&config, Outcome::NaturalExpiry),
        BreakPlan {
            notify: false,
            lead_secs: 0,
            play_sound: false,
            power_off_monitors: true,
            show_popup: false,
        }
    );
}

#[test]
fn exactly_one_unix_socket_is_expected() {
    assert_eq!(check_activation(1, true), Ok(()));
    assert_eq!(check_activation(0, true), Err(ActivationError::WrongCount));
    assert_eq!(check_activation(2, true), Err(ActivationError::WrongCount));
    assert_eq!(check_activation(0, false), Err(ActivationError::WrongCount));
    assert_eq!(check_activation(1, false), Err(ActivationError::NotUnix));
}
