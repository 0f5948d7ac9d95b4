use wlbreaktime::channel::ReplyChannel;
use wlbreaktime::client::{Client, ClientAction, ClientEvent, Request};
use wlbreaktime::command::{encode_command, Command, DecodeError, Reply};
use wlbreaktime::config::Config;
use wlbreaktime::scheduler::{Awaiting, Next, Notice, Scheduler, Step, SECONDARY_TIMEOUT_SECS};
use wlbreaktime::time::Timestamp;
use wlbreaktime::timer::{Outcome, Phase};

fn at(ms: u64) -> Timestamp {
    Timestamp::from_millis(ms)
}

fn bound() -> Option<ReplyChannel> {
    ReplyChannel::from_sender(Some(b"/run/user/1000/wlbreaktime-helper.socket".to_vec()))
}

fn unbound() -> Option<ReplyChannel> {
    ReplyChannel::from_sender(None)
}

fn quiet(next: Next) -> Step {
    Step { reply: None, reply_dropped: false, notice: Notice::Quiet, next }
}

#[test]
fn a_new_scheduler_awaits_a_keyword() {
    let s = Scheduler::new(1800, 80, at(0));
    assert_eq!(s.awaiting, Awaiting::Keyword);
    assert_eq!(s.timer.phase, Phase::Working);
    assert_eq!(s.receive_timeout(at(0)), 1800);
    assert_eq!(s.receive_timeout(at(1_799_500)), 1);
    assert_eq!(s.receive_timeout(at(1_900_000)), 1);
}

#[test]
fn get_is_answered_with_the_remaining_seconds() {
    let mut s = Scheduler::new(1800, 80, at(0));
    let before = s;
    let step = s.on_datagram(b"get", &bound(), at(61_000)).unwrap();
    assert_eq!(
        step,
        Step {
            reply: Some(Reply { seconds: 1739 }),
            reply_dropped: false,
            notice: Notice::Quiet,
            next: Next::Receive { timeout_secs: 1739 },
        }
    );
    assert_eq!(s, before);
}

#[test]
fn get_from_an_unbound_sender_is_dropped_and_the_loop_goes_on() {
    let mut s = Scheduler::new(1800, 80, at(0));
    let before = s;
    let step = s.on_datagram(b"get", &unbound(), at(61_000)).unwrap();
    assert_eq!(step.reply, None);
    assert!(step.reply_dropped);
    assert_eq!(step.next, Next::Receive { timeout_secs: 1739 });
    assert_eq!(s, before);
    let later = s.on_datagram(b"get", &bound(), at(62_000)).unwrap();
    assert_eq!(later.reply, Some(Reply { seconds: 1738 }));
    assert!(!later.reply_dropped);
}

#[test]
fn reset_from_an_unbound_sender_still_resets() {
    let mut s = Scheduler::new(1800, 80, at(0));
    let step = s.on_datagram(b"reset", &unbound(), at(100_000)).unwrap();
    assert_eq!(step.reply, None);
    assert!(step.reply_dropped);
    assert_eq!(step.notice, Notice::TimerReset { seconds: 1800 });
    assert_eq!(s.timer.phase_start, at(100_000));
}

#[test]
fn reset_replies_with_the_default() {
    let mut s = Scheduler::new(1800, 80, at(0));
    s.on_datagram(b"set", &bound(), at(1_000)).unwrap();
    s.on_datagram(b"5", &bound(), at(1_100)).unwrap();
    assert_eq!(s.timer.work_duration, 300);
    let step = s.on_datagram(b"reset", &bound(), at(2_000)).unwrap();
    assert_eq!(
        step,
        Step {
            reply: Some(Reply { seconds: 1800 }),
            reply_dropped: false,
            notice: Notice::TimerReset { seconds: 1800 },
            next: Next::Receive { timeout_secs: 1800 },
        }
    );
    assert_eq!(s.timer.work_duration, 1800);
    assert_eq!(s.timer.phase_start, at(2_000));
    let get = s.on_datagram(b"get", &bound(), at(2_500)).unwrap();
    assert_eq!(get.reply, Some(Reply { seconds: 1800 }));
}

#[test]
fn break_ends_the_working_phase_without_reply() {
    let mut s = Scheduler::new(1800, 80, at(0));
    let step = s.on_datagram(b"break", &bound(), at(5_000)).unwrap();
    assert_eq!(
        step,
        Step {
            reply: None,
            reply_dropped: false,
            notice: Notice::PhaseSkipped,
            next: Next::Finish(Outcome::Skipped),
        }
    );
    assert!(s.timer.skip_requested);
    assert_eq!(s.advance(at(5_000)), Outcome::Skipped);
    assert_eq!(s.timer.phase, Phase::Break);
    assert!(!s.timer.skip_requested);
}

#[test]
fn set_takes_two_datagrams() {
    let mut s = Scheduler::new(1800, 80, at(0));
    let first = s.on_datagram(b"set", &bound(), at(10_000)).unwrap();
    assert_eq!(first, quiet(Next::Receive { timeout_secs: SECONDARY_TIMEOUT_SECS }));
    assert_eq!(SECONDARY_TIMEOUT_SECS, 3);
    assert_eq!(s.awaiting, Awaiting::Minutes);
    assert_eq!(s.receive_timeout(at(10_000)), 3);
    assert_eq!(s.timer.work_duration, 1800);
    let second = s.on_datagram(b"30", &bound(), at(10_200)).unwrap();
    assert_eq!(
        second,
        Step {
            reply: None,
            reply_dropped: false,
            notice: Notice::TimerSet { seconds: 1800 },
            next: Next::Receive { timeout_secs: 1800 },
        }
    );
    assert_eq!(s.awaiting, Awaiting::Keyword);
    assert_eq!(s.timer.phase_start, at(10_200));
    let get = s.on_datagram(b"get", &bound(), at(10_900)).unwrap();
    assert_eq!(get.reply, Some(Reply { seconds: 1800 }));
    let get = s.on_datagram(b"get", &bound(), at(11_200)).unwrap();
    assert_eq!(get.reply, Some(Reply { seconds: 1799 }));
}

#[test]
fn the_minutes_are_taken_even_where_they_spell_a_keyword() {
    let mut s = Scheduler::new(1800, 80, at(0));
    s.on_datagram(b"set", &bound(), at(0)).unwrap();
    assert_eq!(s.on_datagram(b"get", &bound(), at(100)), Err(DecodeError::BadNumber));
    assert_eq!(s.awaiting, Awaiting::Keyword);
    assert_eq!(s.timer.work_duration, 1800);
    assert_eq!(s.timer.phase_start, at(0));
}

#[test]
fn an_abandoned_set_changes_nothing() {
    let mut s = Scheduler::new(1800, 80, at(0));
    let before = s;
    s.on_datagram(b"set", &bound(), at(10_000)).unwrap();
    let step = s.on_timeout(at(13_000));
    assert_eq!(
        step,
        Step {
            reply: None,
            reply_dropped: false,
            notice: Notice::SetAbandoned,
            next: Next::Receive { timeout_secs: 1787 },
        }
    );
    assert_eq!(s, before);
    let get = s.on_datagram(b"get", &bound(), at(14_000)).unwrap();
    assert_eq!(get.reply, Some(Reply { seconds: 1786 }));
}

#[test]
fn set_zero_ends_the_phase_at_once() {
    let mut s = Scheduler::new(1800, 80, at(0));
    s.on_datagram(b"set", &bound(), at(0)).unwrap();
    let step = s.on_datagram(b"0", &bound(), at(10)).unwrap();
    assert_eq!(step.notice, Notice::TimerSet { seconds: 0 });
    assert_eq!(step.next, Next::Finish(Outcome::NaturalExpiry));
}

#[test]
fn unknown_words_are_ignored() {
    let mut s = Scheduler::new(1800, 80, at(0));
    let before = s;
    for payload in [&b"hello"[..], b"", b"  ", b"30", b"GET"] {
        let step = s.on_datagram(payload, &bound(), at(1_000)).unwrap();
        assert_eq!(
            step,
            Step {
                reply: None,
                reply_dropped: false,
                notice: Notice::UnknownCommand,
                next: Next::Receive { timeout_secs: 1799 },
            }
        );
        assert_eq!(s, before);
    }
}

#[test]
fn skip_is_not_served_while_working_on_the_wire() {
    let mut s = Scheduler::new(1800, 80, at(0));
    let before = s;
    let step = s.on_datagram(b"skip", &bound(), at(1_000)).unwrap();
    assert_eq!(step.notice, Notice::NotServed);
    assert_eq!(step.reply, None);
    assert!(!step.reply_dropped);
    assert_eq!(step.next, Next::Receive { timeout_secs: 1799 });
    assert_eq!(s, before);
}

#[test]
fn payloads_that_are_no_text_change_nothing() {
    let mut s = Scheduler::new(1800, 80, at(0));
    let before = s;
    assert_eq!(s.on_datagram(b"get\xff", &bound(), at(1_000)), Err(DecodeError::NotText));
    assert_eq!(s, before);
    s.on_datagram(b"set", &bound(), at(1_000)).unwrap();
    assert_eq!(s.on_datagram(b"\xff", &bound(), at(1_000)), Err(DecodeError::NotText));
    assert_eq!(s, before);
}

#[test]
fn a_timeout_ends_the_phase_only_once_it_has_run() {
    let mut s = Scheduler::new(10, 80, at(0));
    assert_eq!(s.on_timeout(at(9_999)), quiet(Next::Receive { timeout_secs: 1 }));
    assert_eq!(s.on_timeout(at(4_000)), quiet(Next::Receive { timeout_secs: 6 }));
    assert_eq!(s.on_timeout(at(10_000)), quiet(Next::Finish(Outcome::NaturalExpiry)));
    assert_eq!(s.advance(at(10_000)), Outcome::NaturalExpiry);
}

#[test]
fn an_interrupted_wait_resets_the_timer() {
    let mut s = Scheduler::new(1800, 80, at(0));
    s.on_datagram(b"set", &bound(), at(0)).unwrap();
    s.on_datagram(b"10", &bound(), at(0)).unwrap();
    assert_eq!(s.timer.work_duration, 600);
    let step = s.on_interrupt(at(7_000_000));
    assert_eq!(
        step,
        Step {
            reply: None,
            reply_dropped: false,
            notice: Notice::SuspendReset { seconds: 1800 },
            next: Next::Receive { timeout_secs: 1800 },
        }
    );
    assert_eq!(s.timer.phase_start, at(7_000_000));
    assert_eq!(s.timer.work_duration, 1800);
    let get = s.on_datagram(b"get", &bound(), at(7_000_000)).unwrap();
    assert_eq!(get.reply, Some(Reply { seconds: 1800 }));
}

#[test]
fn an_interrupted_wait_abandons_a_pending_set() {
    let mut s = Scheduler::new(1800, 80, at(0));
    s.on_datagram(b"set", &bound(), at(0)).unwrap();
    s.on_interrupt(at(1_000));
    assert_eq!(s.awaiting, Awaiting::Keyword);
    assert_eq!(s.on_datagram(b"30", &bound(), at(1_100)).unwrap().notice, Notice::UnknownCommand);
}

#[test]
fn the_break_phase_serves_skip_only() {
    let mut s = Scheduler::new(1800, 80, at(0));
    s.on_timeout(at(1_800_000));
    assert_eq!(s.advance(at(1_800_000)), Outcome::NaturalExpiry);
    assert_eq!(s.receive_timeout(at(1_800_000)), 80);
    let before = s;
    for payload in [&b"get"[..], b"reset", b"break", b"set"] {
        let step = s.on_datagram(payload, &bound(), at(1_810_000)).unwrap();
        assert_eq!(
            step,
            Step {
                reply: None,
                reply_dropped: false,
                notice: Notice::NotServed,
                next: Next::Receive { timeout_secs: 70 },
            }
        );
        assert_eq!(s, before);
    }
    assert_eq!(s.on_interrupt(at(1_820_000)), quiet(Next::Receive { timeout_secs: 60 }));
    assert_eq!(s, before);
    let step = s.on_datagram(b"skip", &unbound(), at(1_830_000)).unwrap();
    assert_eq!(
        step,
        Step {
            reply: None,
            reply_dropped: false,
            notice: Notice::PhaseSkipped,
            next: Next::Finish(Outcome::Skipped),
        }
    );
    assert_eq!(s.advance(at(1_830_000)), Outcome::Skipped);
    assert_eq!(s.timer.phase, Phase::Working);
    assert_eq!(s.timer.work_duration, 1800);
}

#[test]
fn the_break_ends_by_itself() {
    let mut s = Scheduler::new(1800, 80, at(0));
    s.advance(at(0));
    assert_eq!(s.on_timeout(at(79_999)), quiet(Next::Receive { timeout_secs: 1 }));
    assert_eq!(s.on_timeout(at(80_000)), quiet(Next::Finish(Outcome::NaturalExpiry)));
}

#[test]
fn the_scheduler_starts_from_the_configuration() {
    let config = Config {
        break_interval: 1500,
        break_duration: 300,
        show_popup: false,
        play_sound: false,
        show_notification: false,
        turn_off_monitors: false,
    };
    let mut s = Scheduler::from_config(&config, at(2_000));
    assert_eq!(s, Scheduler::new(1500, 300, at(2_000)));
    assert_eq!(s.timer, wlbreaktime::timer::TimerState::from_config(&config, at(2_000)));
    assert_eq!(s.receive_timeout(at(2_000)), 1500);
    s.advance(at(3_000));
    assert_eq!(s.receive_timeout(at(3_000)), 300);
}

#[test]
fn the_wire_carries_every_command() {
    for command in
        [Command::Break, Command::SetTimer(25), Command::Reset, Command::Get, Command::Skip]
    {
        for break_phase in [false, true] {
            let mut s = Scheduler::new(1800, 80, at(0));
            if break_phase {
                s.advance(at(0));
            }
            let mut timer = s.timer;
            let (first, second) = encode_command(command);
            let served = match command {
                Command::Skip => break_phase,
                _ => !break_phase,
            };
            let step = s.on_datagram(&first, &bound(), at(4_000)).unwrap();
            let step = match (second, served) {
                (Some(minutes), true) => s.on_datagram(&minutes, &bound(), at(4_000)).unwrap(),
                _ => step,
            };
            let owed = timer.dispatch(command, at(4_000));
            assert_eq!(s.timer, timer);
            assert_eq!(step.reply, owed);
            assert_eq!(s.awaiting, Awaiting::Keyword);
        }
    }
}

#[test]
fn a_reply_travels_from_the_daemon_to_the_client() {
    let mut s = Scheduler::new(1800, 80, at(0));
    let (mut client, _) = Client::start(Request { command: Command::Get, short: false });
    let keyword = match client.on_event(ClientEvent::Bound) {
        ClientAction::SendKeyword(keyword) => keyword,
        other => panic!("unexpected step {other:?}"),
    };
    client.on_event(ClientEvent::Sent);
    let sender = bound();
    let step = s.on_datagram(keyword.as_str().as_bytes(), &sender, at(125_000)).unwrap();
    let out = sender.unwrap().send(step.reply.unwrap());
    assert_eq!(out.payload, b"1675".to_vec());
    assert_eq!(client.on_reply(&out.payload), ClientAction::RemoveSocket);
    assert_eq!(
        client.on_event(ClientEvent::Removed),
        ClientAction::Exit(Ok(Some(Reply { seconds: 1675 })))
    );
}
