//! The decisions of the daemon outside its two waits: whether the start-up
//! hand-over is in order, and what marks the way into a break.

use crate::config::Config;
use crate::timer::Outcome;
use vstd::prelude::*;

verus! {

/// The seconds between the notification and the break that it announces.
pub const NOTIFICATION_LEAD_SECS: u64 = 10;

/// What is wrong with the sockets that the supervisor handed over.
#[derive(Clone, Copy, Debug, PartialEq, Eq, Structural)]
pub enum ActivationError {
    /// Not exactly one descriptor was handed over.
    WrongCount,
    /// The descriptor is no Unix socket.
    NotUnix,
}

/// What the daemon does on its way into a break.
#[derive(Clone, Copy, Debug, PartialEq, Eq, Structural)]
pub struct BreakPlan {
    /// Announce the break with a notification.
    pub notify: bool,
    /// Seconds to wait after the notification before the break begins.
    pub lead_secs: u64,
    /// Play the sound at the start and at the end of the break.
    pub play_sound: bool,
    /// Power the monitors off for the break and on again after it.
    pub power_off_monitors: bool,
    /// Cover the screen with the popup during the break.
    pub show_popup: bool,
}

/// The plan for a break that follows a working phase which ended in
/// `outcome`: a break that the user asked for is not announced.
pub open spec fn planned(config: Config, outcome: Outcome) -> BreakPlan {
    let notify = outcome == Outcome::NaturalExpiry && config.show_notification;
    BreakPlan {
        notify,
        lead_secs: if notify {
            NOTIFICATION_LEAD_SECS
        } else {
            0
        },
        play_sound: config.play_sound,
        power_off_monitors: config.turn_off_monitors,
        show_popup: config.show_popup,
    }
}

/// Plans the way into a break.
pub fn plan_break(config: &Config, outcome: Outcome) -> (plan: BreakPlan)
    ensures
        plan == planned(*config, outcome),
{
    let notify: bool = match outcome {
        Outcome::NaturalExpiry => config.show_notification,
        Outcome::Skipped => false,
    };
    BreakPlan {
        notify,
        lead_secs: if notify {
            NOTIFICATION_LEAD_SECS
        } else {
            0
        },
        play_sound: config.play_sound,
        power_off_monitors: config.turn_off_monitors,
        show_popup: config.show_popup,
    }
}

/// Checks what the supervisor handed over at start-up: exactly one
/// descriptor, and that one a Unix socket. `first_is_unix` is looked at only
/// where there is exactly one descriptor.
pub fn check_activation(descriptors: usize, first_is_unix: bool) -> (r: Result<
    (),
    ActivationError,
>)
    ensures
        r == if descriptors != 1 {
            Err::<(), ActivationError>(ActivationError::WrongCount)
        } else if !first_is_unix {
            Err::<(), ActivationError>(ActivationError::NotUnix)
        } else {
            Ok::<(), ActivationError>(())
        },
{
    if descriptors != 1 {
        Err(ActivationError::WrongCount)
    } else if !first_is_unix {
        Err(ActivationError::NotUnix)
    } else {
        Ok(())
    }
}

} // verus!
