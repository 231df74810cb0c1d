//! What the main loop does now and then: the splash screen, the top bar, the
//! animation and the synchronisation of the clock.
//!
//! Moments are readings of a timer in microseconds, which may wrap around.

use crate::clock::{has_come, reached};
use crate::screen::lines::VIEW_RAT;
use vstd::prelude::*;

verus! {

/// Time between two frames of the animation.
pub const FRAME_MICROS: u64 = 250_000;

/// After this time the splash screen gives way to the menu.
pub const SPLASH_MICROS: u64 = 3_500_000;

/// Time between two readings of the battery.
pub const BATTERY_EVERY_MICROS: u64 = 5_000_000;

/// Time to the next synchronisation of the clock after one that succeeded.
pub const SNTP_RESYNC_MICROS: u64 = 3_600_000_000;

/// Time to the next synchronisation of the clock after one that failed.
pub const SNTP_RETRY_MICROS: u64 = 30_000_000;

/// What is due when.
#[derive(Clone, Copy, Debug)]
pub struct Schedule {
    pub splash_start: u64,
    pub splash_done: bool,
    pub last_switch: u64,
    pub frame: u32,
    pub next_sntp_at: u64,
    pub link_was_up: bool,
    /// The link that the top bar shows; -1 before the first.
    pub shown_link: i32,
    /// The time that the top bar shows; nothing before the first.
    pub shown_clock: Option<Option<(u8, u8)>>,
    pub battery_at: Option<u64>,
    pub reboot: bool,
}

/// So much time has passed since a moment.
pub open spec fn passed(since: u64, now: u64, time: u64) -> bool {
    now.wrapping_sub(since) >= time
}

/// The link as the top bar shows it: 1 while connecting, 3 with an address, 2
/// without one, 0 without a link.
pub open spec fn link_level(connecting: bool, online: bool, link_up: bool) -> i32 {
    if connecting {
        1
    } else if online {
        3
    } else if link_up {
        2
    } else {
        0
    }
}

/// The link as the top bar shows it.
pub fn link_state(connecting: bool, online: bool, link_up: bool) -> (state: i32)
    ensures
        state == link_level(connecting, online, link_up),
{
    if connecting {
        1
    } else if online {
        3
    } else if link_up {
        2
    } else {
        0
    }
}

/// When the clock is synchronised next.
pub open spec fn next_sync(success: bool, finished: u64) -> u64 {
    finished.wrapping_add(
        if success {
            SNTP_RESYNC_MICROS
        } else {
            SNTP_RETRY_MICROS
        },
    )
}

/// Whether the splash has been shown for its time.
pub open spec fn splash_over(schedule: Schedule, now: u64) -> bool {
    !schedule.splash_done && passed(schedule.splash_start, now, SPLASH_MICROS)
}

/// Whether keys are dropped.
pub open spec fn drops_input(schedule: Schedule, radio_busy: bool) -> bool {
    !schedule.splash_done || radio_busy
}

/// Whether the link went down while the radio had nothing to do.
pub open spec fn loses_link(schedule: Schedule, link_up: bool, radio_busy: bool) -> bool {
    schedule.link_was_up && !link_up && !radio_busy
}

/// The schedule after a look at the link; one that came up is reason to ask for the time.
pub open spec fn with_link(schedule: Schedule, link_up: bool, now: u64) -> Schedule {
    Schedule {
        next_sntp_at: if link_up && !schedule.link_was_up {
            now
        } else {
            schedule.next_sntp_at
        },
        link_was_up: link_up,
        ..schedule
    }
}

/// Whether it is time to ask for the time.
pub open spec fn syncs_now(schedule: Schedule, online: bool, running: bool, now: u64) -> bool {
    online && !running && has_come(now, schedule.next_sntp_at)
}

/// Whether it is time to measure the battery.
pub open spec fn measures_now(schedule: Schedule, now: u64) -> bool {
    match schedule.battery_at {
        Some(at) => passed(at, now, BATTERY_EVERY_MICROS),
        None => true,
    }
}

/// Whether it is time for the next frame of what moves.
pub open spec fn frame_moves(
    schedule: Schedule,
    view_state: i32,
    radio_busy: bool,
    now: u64,
) -> bool {
    (!schedule.splash_done || view_state == VIEW_RAT || radio_busy) && passed(
        schedule.last_switch,
        now,
        FRAME_MICROS,
    )
}

/// Whether the bars of the link are others than those that are shown.
pub open spec fn is_news(schedule: Schedule, state: i32) -> bool {
    state != schedule.shown_link
}

/// Whether the time is another than the one that is shown.
pub open spec fn is_new_time(schedule: Schedule, time: Option<(u8, u8)>) -> bool {
    schedule.shown_clock != Some(time)
}

/// Whether to start anew, once all output has left.
pub open spec fn reboots_now(schedule: Schedule, output_idle: bool) -> bool {
    schedule.reboot && output_idle
}

/// The schedule with the next of the four frames.
pub open spec fn with_next_frame(schedule: Schedule, now: u64) -> Schedule {
    Schedule { frame: ((schedule.frame + 1) % 4) as u32, last_switch: now, ..schedule }
}

impl Schedule {
    pub fn new(now: u64) -> (schedule: Self)
        ensures
            schedule == (Schedule {
                splash_start: now,
                splash_done: false,
                last_switch: now,
                frame: 0,
                next_sntp_at: now,
                link_was_up: false,
                shown_link: -1i32,
                shown_clock: None,
                battery_at: None,
                reboot: false,
            }),
    {
        Schedule {
            splash_start: now,
            splash_done: false,
            last_switch: now,
            frame: 0,
            next_sntp_at: now,
            link_was_up: false,
            shown_link: -1,
            shown_clock: None,
            battery_at: None,
            reboot: false,
        }
    }

    /// Whether the splash screen ends now.
    pub fn splash_ends(&mut self, now: u64) -> (ends: bool)
        ensures
            ends == splash_over(*old(self), now),
            *final(self) == (Schedule { splash_done: old(self).splash_done || ends, ..*old(self) }),
    {
        if !self.splash_done && now.wrapping_sub(self.splash_start) >= SPLASH_MICROS {
            self.splash_done = true;
            true
        } else {
            false
        }
    }

    /// Keys are dropped while the splash screen is up or the radio works.
    pub fn discards_input(&self, radio_busy: bool) -> (discards: bool)
        ensures
            discards == drops_input(*self, radio_busy),
    {
        !self.splash_done || radio_busy
    }

    /// A synchronisation of the clock has ended.
    pub fn sntp_finished(&mut self, success: bool, finished: u64)
        ensures
            *final(self) == (Schedule {
                next_sntp_at: next_sync(success, finished),
                ..*old(self)
            }),
    {
        self.next_sntp_at =
        finished.wrapping_add(
            if success {
                SNTP_RESYNC_MICROS
            } else {
                SNTP_RETRY_MICROS
            },
        );
    }

    /// Takes note of the link: a fresh one synchronises the clock at once. `true`
    /// when a link was lost while the radio had nothing to do.
    pub fn link_seen(&mut self, link_up: bool, radio_busy: bool, now: u64) -> (lost: bool)
        ensures
            lost == loses_link(*old(self), link_up, radio_busy),
            *final(self) == with_link(*old(self), link_up, now),
    {
        let lost = !link_up && self.link_was_up && !radio_busy;
        if link_up && !self.link_was_up {
            self.next_sntp_at = now;
        }
        self.link_was_up = link_up;
        lost
    }

    /// Whether the clock is synchronised now.
    pub fn sntp_due(&self, online: bool, running: bool, now: u64) -> (due: bool)
        ensures
            due == syncs_now(*self, online, running, now),
    {
        online && !running && reached(now, self.next_sntp_at)
    }

    /// Whether the top bar has to show another link.
    pub fn link_changes(&mut self, state: i32) -> (changes: bool)
        ensures
            changes == is_news(*old(self), state),
            *final(self) == (Schedule { shown_link: state, ..*old(self) }),
    {
        let changes = state != self.shown_link;
        self.shown_link = state;
        changes
    }

    /// Whether the top bar has to show another time.
    pub fn clock_changes(&mut self, time: Option<(u8, u8)>) -> (changes: bool)
        ensures
            changes == is_new_time(*old(self), time),
            *final(self) == (Schedule { shown_clock: Some(time), ..*old(self) }),
    {
        let same = match (self.shown_clock, time) {
            (Some(Some(shown)), Some(wanted)) => shown.0 == wanted.0 && shown.1 == wanted.1,
            (Some(None), None) => true,
            _ => false,
        };
        self.shown_clock = Some(time);
        !same
    }

    /// Whether the battery is read now.
    pub fn battery_due(&mut self, now: u64) -> (due: bool)
        ensures
            due == measures_now(*old(self), now),
            *final(self) == (Schedule {
                battery_at: if due {
                    Some(now)
                } else {
                    old(self).battery_at
                },
                ..*old(self)
            }),
    {
        let due = match self.battery_at {
            Some(at) => now.wrapping_sub(at) >= BATTERY_EVERY_MICROS,
            None => true,
        };
        if due {
            self.battery_at = Some(now);
        }
        due
    }

    /// Moves the animation on: on the splash screen, in the view of the rat and
    /// while the radio works. `true` when there is a new frame.
    pub fn tick(&mut self, view_state: i32, radio_busy: bool, now: u64) -> (moves: bool)
        ensures
            moves == frame_moves(*old(self), view_state, radio_busy, now),
            *final(self) == if moves {
                with_next_frame(*old(self), now)
            } else {
                *old(self)
            },
    {
        let animated = !self.splash_done || view_state == VIEW_RAT || radio_busy;
        if animated && now.wrapping_sub(self.last_switch) >= FRAME_MICROS {
            self.frame = (self.frame % 4 + 1) % 4;
            self.last_switch = now;
            true
        } else {
            false
        }
    }

    /// The console asked for a restart.
    pub fn request_reboot(&mut self)
        ensures
            *final(self) == (Schedule { reboot: true, ..*old(self) }),
    {
        self.reboot = true;
    }

    /// Whether to restart now: once the answer has left.
    pub fn reboots(&self, output_idle: bool) -> (now: bool)
        ensures
            now == reboots_now(*self, output_idle),
    {
        self.reboot && output_idle
    }
}

/// A clock that was synchronised rests for an hour, one that could not be for half
/// a minute; the timer may wrap around meanwhile.
pub proof fn sync_waits(success: bool, finished: u64, now: u64)
    requires
        now.wrapping_sub(finished) <= 0x7fff_ffff_ffff_ffff,
    ensures
        has_come(now, next_sync(success, finished)) <==> passed(
            finished,
            now,
            if success {
                SNTP_RESYNC_MICROS
            } else {
                SNTP_RETRY_MICROS
            },
        ),
{
}

/// What is timed takes its time: the splash three and a half seconds, a frame a quarter, and
/// five seconds pass between looks at the battery.
pub proof fn timed_things_take_their_time(
    schedule: Schedule,
    view_state: i32,
    radio_busy: bool,
    now: u64,
)
    ensures
        now >= schedule.splash_start ==> (splash_over(schedule, now) <==> !schedule.splash_done
            && now - schedule.splash_start >= 3_500 * 1_000),
        now >= schedule.last_switch ==> (frame_moves(schedule, view_state, radio_busy, now) <==> (
        view_state == 1 || radio_busy || !schedule.splash_done) && now - schedule.last_switch
            >= 250 * 1_000),
        schedule.battery_at is None ==> measures_now(schedule, now),
        schedule.battery_at matches Some(at) ==> now >= at ==> (measures_now(schedule, now) <==> now
            - at >= 5_000 * 1_000),
{
}

/// The four frames follow each other round, and nothing else of the schedule moves with them.
pub proof fn frames_go_round(schedule: Schedule, now: u64)
    requires
        schedule.frame < 4,
    ensures
        ({
            let after = with_next_frame(schedule, now);
            &&& schedule.frame < 3 ==> after.frame == schedule.frame + 1
            &&& schedule.frame == 3 ==> after.frame == 0
            &&& after.last_switch == now
            &&& after.next_sntp_at == schedule.next_sntp_at
            &&& after.splash_done == schedule.splash_done
            &&& after.battery_at == schedule.battery_at
        }),
{
}

/// The time is asked for as soon as the link comes up, an hour after it was told, and half a
/// minute after it was not; never without a link or while a question is under way.
pub proof fn time_is_asked_for(
    schedule: Schedule,
    online: bool,
    running: bool,
    success: bool,
    now: u64,
    later: u64,
)
    requires
        now <= later,
        later < 0x4000_0000_0000_0000,
    ensures
        !schedule.link_was_up ==> syncs_now(with_link(schedule, true, now), true, false, later),
        schedule.link_was_up ==> with_link(schedule, true, now).next_sntp_at
            == schedule.next_sntp_at,
        with_link(schedule, false, now).next_sntp_at == schedule.next_sntp_at,
        syncs_now(schedule, online, running, now) ==> online && !running,
        schedule.next_sntp_at == next_sync(true, now) ==> (syncs_now(schedule, true, false, later)
            <==> later - now >= 3_600 * 1_000_000),
        schedule.next_sntp_at == next_sync(false, now) ==> (syncs_now(schedule, true, false, later)
            <==> later - now >= 30 * 1_000_000),
{
}

/// The bars of the link, from none to an address; connecting comes before all.
pub proof fn link_has_its_bars(online: bool, link_up: bool)
    ensures
        link_level(true, online, link_up) == 1,
        link_level(false, true, link_up) == 3,
        link_level(false, false, true) == 2,
        link_level(false, false, false) == 0,
{
}

/// Keys count after the splash and while the radio rests; a link that goes down is told then.
pub proof fn keys_and_links_are_seen(schedule: Schedule, link_up: bool, radio_busy: bool)
    ensures
        drops_input(schedule, true),
        !schedule.splash_done ==> drops_input(schedule, radio_busy),
        schedule.splash_done ==> !drops_input(schedule, false),
        loses_link(schedule, link_up, radio_busy) <==> schedule.link_was_up && !link_up
            && !radio_busy,
{
}

/// The top bar is drawn when what it shows has changed, and at first in any case; a reboot that
/// was asked for waits until all output has left.
pub proof fn changes_are_drawn(schedule: Schedule, state: i32, time: Option<(u8, u8)>)
    ensures
        schedule.shown_link == state ==> !is_news(schedule, state),
        schedule.shown_link != state ==> is_news(schedule, state),
        schedule.shown_clock == Some(time) ==> !is_new_time(schedule, time),
        schedule.shown_clock is None ==> is_new_time(schedule, time),
        schedule.shown_clock matches Some(shown) ==> (is_new_time(schedule, time) <==> shown
            != time),
        !reboots_now(schedule, false),
        schedule.reboot ==> reboots_now(schedule, true),
        !schedule.reboot ==> !reboots_now(schedule, true),
{
}

} // verus!
