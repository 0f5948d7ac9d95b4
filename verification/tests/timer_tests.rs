use wlbreaktime::command::{Command, Reply};
use wlbreaktime::time::Timestamp;
use wlbreaktime::timer::{Outcome, Phase, TimerState};

fn at(ms: u64) -> Timestamp {
    Timestamp::from_millis(ms)
}

#[test]
fn a_new_timer_works() {
    let t = TimerState::new(1800, 80, at(5_000));
    assert_eq!(t.phase, Phase::Working);
    assert_eq!(t.work_duration, 1800);
    assert_eq!(t.default_work_duration, 1800);
    assert_eq!(t.break_duration, 80);
    assert_eq!(t.phase_start, at(5_000));
    assert!(!t.skip_requested);
    assert_eq!(t.current_length(), 1800);
    assert_eq!(t.elapsed(at(5_000)), 0);
    assert_eq!(t.remaining(at(5_000)), 1800);
    assert_eq!(t.outcome(at(5_000)), None);
}

#[test]
fn remaining_is_floored_at_zero() {
    let t = TimerState::new(10, 80, at(0));
    assert_eq!(t.remaining(at(9_999)), 1);
    assert_eq!(t.remaining(at(10_000)), 0);
    assert_eq!(t.remaining(at(1_000_000)), 0);
    assert!(!t.is_expired(at(9_999)));
    assert!(t.is_expired(at(10_000)));
    assert_eq!(t.outcome(at(10_000)), Some(Outcome::NaturalExpiry));
}

#[test]
fn receive_timeout_is_clamped_to_one_second() {
    let t = TimerState::new(10, 80, at(0));
    assert_eq!(t.receive_timeout(at(0)), 10);
    assert_eq!(t.receive_timeout(at(8_500)), 2);
    assert_eq!(t.receive_timeout(at(9_000)), 1);
    assert_eq!(t.receive_timeout(at(10_000)), 1);
    assert_eq!(t.receive_timeout(at(99_000)), 1);
    let zero = TimerState::new(0, 0, at(0));
    assert_eq!(zero.receive_timeout(at(0)), 1);
    assert!(zero.is_expired(at(0)));
}

#[test]
fn a_clock_that_runs_backwards_shows_no_elapsed_time() {
    let t = TimerState::new(100, 80, at(50_000));
    assert_eq!(t.elapsed(at(10_000)), 0);
    assert_eq!(t.remaining(at(10_000)), 100);
    assert_eq!(t.receive_timeout(at(10_000)), 100);
}

#[test]
fn get_replies_with_the_remaining_seconds() {
    let mut t = TimerState::new(1800, 80, at(0));
    let before = t;
    assert_eq!(t.dispatch(Command::Get, at(0)), Some(Reply { seconds: 1800 }));
    assert_eq!(t.dispatch(Command::Get, at(999)), Some(Reply { seconds: 1800 }));
    assert_eq!(t.dispatch(Command::Get, at(1_000)), Some(Reply { seconds: 1799 }));
    assert_eq!(t.dispatch(Command::Get, at(1_799_999)), Some(Reply { seconds: 1 }));
    assert_eq!(t.dispatch(Command::Get, at(1_800_000)), Some(Reply { seconds: 0 }));
    assert_eq!(t.dispatch(Command::Get, at(9_000_000)), Some(Reply { seconds: 0 }));
    assert_eq!(t, before);
}

#[test]
fn successive_get_replies_never_increase() {
    let mut t = TimerState::new(30, 80, at(0));
    let mut last = u64::MAX;
    for ms in [0u64, 10, 999, 1_000, 1_001, 15_500, 29_999, 30_000, 30_001, 45_000] {
        let reply = t.dispatch(Command::Get, at(ms)).unwrap().seconds;
        assert!(reply <= last);
        last = reply;
    }
    assert_eq!(last, 0);
}

#[test]
fn set_thirty_then_get_is_within_a_second() {
    let mut t = TimerState::new(1800, 80, at(0));
    assert_eq!(t.dispatch(Command::SetTimer(30), at(600_000)), None);
    assert_eq!(t.work_duration, 1800);
    assert_eq!(t.phase_start, at(600_000));
    let immediately = t.dispatch(Command::Get, at(600_000)).unwrap().seconds;
    assert_eq!(immediately, 1800);
    let soon = t.dispatch(Command::Get, at(601_200)).unwrap().seconds;
    assert!((1799..=1800).contains(&soon));
    assert_eq!(soon, 1799);
}

#[test]
fn set_stores_minutes_as_seconds() {
    let mut t = TimerState::new(1800, 80, at(0));
    assert_eq!(t.dispatch(Command::SetTimer(45), at(7_000)), None);
    assert_eq!(t.work_duration, 2700);
    assert_eq!(t.default_work_duration, 1800);
    assert_eq!(t.break_duration, 80);
    assert_eq!(t.dispatch(Command::SetTimer(65535), at(8_000)), None);
    assert_eq!(t.work_duration, 3_932_100);
    assert_eq!(t.dispatch(Command::SetTimer(0), at(9_000)), None);
    assert_eq!(t.work_duration, 0);
    assert_eq!(t.outcome(at(9_000)), Some(Outcome::NaturalExpiry));
}

#[test]
fn reset_restores_the_default_after_any_sets() {
    let mut t = TimerState::new(1500, 80, at(0));
    for (i, m) in [1u16, 90, 0, 65535, 7].iter().enumerate() {
        assert_eq!(t.dispatch(Command::SetTimer(*m), at(1_000 * i as u64)), None);
    }
    assert_eq!(t.work_duration, 420);
    assert_eq!(t.dispatch(Command::Reset, at(50_000)), Some(Reply { seconds: 1500 }));
    assert_eq!(t.work_duration, 1500);
    assert_eq!(t.phase_start, at(50_000));
    assert_eq!(t.dispatch(Command::Get, at(50_000)), Some(Reply { seconds: 1500 }));
    let soon = t.dispatch(Command::Get, at(51_900)).unwrap().seconds;
    assert!((1499..=1500).contains(&soon));
}

#[test]
fn break_ends_work_before_its_deadline() {
    let mut t = TimerState::new(1800, 80, at(0));
    assert_eq!(t.dispatch(Command::Break, at(3_000)), None);
    assert!(t.skip_requested);
    assert!(!t.is_expired(at(3_000)));
    assert_eq!(t.outcome(at(3_000)), Some(Outcome::Skipped));
    assert_eq!(t.work_duration, 1800);
    assert_eq!(t.phase_start, at(0));
}

#[test]
fn skip_is_not_served_while_working() {
    let mut t = TimerState::new(1800, 80, at(0));
    let before = t;
    assert_eq!(t.dispatch(Command::Skip, at(3_000)), None);
    assert_eq!(t, before);
}

#[test]
fn only_skip_is_served_during_a_break() {
    let mut t = TimerState::new(1800, 80, at(0));
    assert_eq!(t.advance(at(1_800_000)), Outcome::NaturalExpiry);
    assert_eq!(t.phase, Phase::Break);
    let before = t;
    for c in [Command::Break, Command::SetTimer(5), Command::Reset, Command::Get] {
        assert_eq!(t.dispatch(c, at(1_810_000)), None);
        assert_eq!(t, before);
    }
    assert_eq!(t.dispatch(Command::Skip, at(1_810_000)), None);
    assert!(t.skip_requested);
    assert_eq!(t.outcome(at(1_810_000)), Some(Outcome::Skipped));
}

#[test]
fn phases_alternate_and_work_starts_from_the_default() {
    let mut t = TimerState::new(1800, 80, at(0));
    assert_eq!(t.dispatch(Command::SetTimer(1), at(0)), None);
    assert_eq!(t.dispatch(Command::Break, at(10_000)), None);
    assert_eq!(t.advance(at(10_000)), Outcome::Skipped);
    assert_eq!(t.phase, Phase::Break);
    assert!(!t.skip_requested);
    assert_eq!(t.phase_start, at(10_000));
    assert_eq!(t.current_length(), 80);
    assert_eq!(t.remaining(at(20_000)), 70);
    assert_eq!(t.outcome(at(89_999)), None);
    assert_eq!(t.outcome(at(90_000)), Some(Outcome::NaturalExpiry));
    assert_eq!(t.advance(at(90_000)), Outcome::NaturalExpiry);
    assert_eq!(t.phase, Phase::Working);
    assert_eq!(t.work_duration, 1800);
    assert_eq!(t.current_length(), 1800);
    assert_eq!(t.phase_start, at(90_000));
}

#[test]
fn restart_leaves_the_whole_interval() {
    let mut t = TimerState::new(1200, 80, at(0));
    assert_eq!(t.dispatch(Command::SetTimer(2), at(0)), None);
    t.restart(at(500_000));
    assert_eq!(t.work_duration, 1200);
    assert_eq!(t.phase_start, at(500_000));
    assert_eq!(t.remaining(at(500_000)), 1200);
}
