//! The vertical motion of the dock: where it is, where it is heading, and
//! the timers that send it into hiding and back.
//!
//! Positions are in 16.16 fixed point. Times are in milliseconds, counted
//! from any fixed moment.

use vstd::prelude::*;
use crate::wave::{ease_position, eased_position, position_moving};

verus! {

/// The time that has passed at `now` since `since`; none where the clock
/// reads earlier than `since`.
pub open spec fn elapsed(now: u64, since: u64) -> int {
    if now >= since {
        now - since
    } else {
        0
    }
}

/// The time that has passed at `now` since `since`.
pub fn elapsed_ms(now: u64, since: u64) -> (r: u64)
    ensures
        r == elapsed(now, since),
{
    if now >= since {
        now - since
    } else {
        0
    }
}

/// The dock's vertical position and its timers.
#[derive(Debug, Clone, Copy, PartialEq, Eq, Structural)]
pub struct MotionState {
    /// Where the top of the dock is.
    pub dock_y_current: i64,
    /// Where it is heading: `dock_y_visible` or `dock_y_hidden`.
    pub dock_y_target: i64,
    pub dock_y_hidden: i64,
    pub dock_y_visible: i64,
    /// The time the pointer left the dock, while hiding is pending.
    pub hide_timer: Option<u64>,
    /// The time the pointer reached the screen edge, while showing is pending.
    pub show_timer: Option<u64>,
}

impl MotionState {
    /// The state heading for the visible position, with both timers off.
    pub open spec fn shown(self) -> MotionState {
        MotionState {
            dock_y_target: self.dock_y_visible,
            hide_timer: None,
            show_timer: None,
            ..self
        }
    }

    /// The state heading for the hidden position, with the hide timer off.
    pub open spec fn hidden(self) -> MotionState {
        MotionState { dock_y_target: self.dock_y_hidden, hide_timer: None, ..self }
    }

    /// The state with the hide timer armed at `now`, where the dock hides
    /// itself and the timer is not running yet.
    pub open spec fn hiding_from(self, auto_hide: bool, now: u64) -> MotionState {
        if auto_hide && self.hide_timer is None {
            MotionState { hide_timer: Some(now), ..self }
        } else {
            self
        }
    }

    /// The state after the hide timer was looked at: heading for the hidden
    /// position once `delay` has passed since the timer was armed.
    pub open spec fn after_hide_check(self, auto_hide: bool, delay: u64, now: u64) -> MotionState {
        match self.hide_timer {
            Some(t) => if auto_hide && elapsed(now, t) >= delay {
                self.hidden()
            } else {
                self
            },
            None => self,
        }
    }

    /// The state after the show timer was looked at: heading for the
    /// visible position once `delay` has passed since the timer was armed.
    pub open spec fn after_show_check(self, auto_hide: bool, delay: u64, now: u64) -> MotionState {
        match self.show_timer {
            Some(t) => if auto_hide && elapsed(now, t) >= delay {
                self.shown()
            } else {
                self
            },
            None => self,
        }
    }

    /// Whether the dock stands within five pixels of its visible position.
    pub open spec fn near_visible(self) -> bool {
        -5 * 65536 < self.dock_y_current - self.dock_y_visible < 5 * 65536
    }

    /// Whether the dock is still on its way to its target.
    pub open spec fn moving(self) -> bool {
        position_moving(self.dock_y_current as int, self.dock_y_target as int)
    }

    /// The state one animation step later.
    pub open spec fn stepped(self) -> MotionState {
        MotionState {
            dock_y_current: eased_position(
                self.dock_y_current as int,
                self.dock_y_target as int,
            ) as i64,
            ..self
        }
    }

    /// Heads for the visible position and stops both timers.
    pub fn show_dock(&mut self)
        ensures
            *final(self) == old(self).shown(),
    {
        self.dock_y_target = self.dock_y_visible;
        self.hide_timer = None;
        self.show_timer = None;
    }

    /// Heads for the hidden position at once, whatever the timers say.
    pub fn force_hide(&mut self)
        ensures
            *final(self) == old(self).hidden(),
    {
        self.dock_y_target = self.dock_y_hidden;
        self.hide_timer = None;
    }

    /// Arms the hide timer, unless it runs already or the dock never hides.
    pub fn start_hide(&mut self, auto_hide: bool, now: u64)
        ensures
            *final(self) == old(self).hiding_from(auto_hide, now),
    {
        if auto_hide && self.hide_timer.is_none() {
            self.hide_timer = Some(now);
        }
    }

    /// Sends the dock into hiding once the hide timer has run for `delay`.
    pub fn check_hide(&mut self, auto_hide: bool, delay: u64, now: u64)
        ensures
            *final(self) == old(self).after_hide_check(auto_hide, delay, now),
    {
        if !auto_hide {
            return ;
        }
        match self.hide_timer {
            Some(t) => {
                if elapsed_ms(now, t) >= delay {
                    self.force_hide();
                }
            },
            None => {},
        }
    }

    /// Brings the dock back once the show timer has run for `delay`.
    pub fn check_show(&mut self, auto_hide: bool, delay: u64, now: u64)
        ensures
            *final(self) == old(self).after_show_check(auto_hide, delay, now),
    {
        if !auto_hide {
            return ;
        }
        match self.show_timer {
            Some(t) => {
                if elapsed_ms(now, t) >= delay {
                    self.show_dock();
                }
            },
            None => {},
        }
    }

    /// Whether the dock stands within five pixels of its visible position.
    pub fn is_near_visible(&self) -> (r: bool)
        ensures
            r == self.near_visible(),
    {
        let d: i128 = self.dock_y_current as i128 - self.dock_y_visible as i128;
        -5 * 65536 < d && d < 5 * 65536
    }

    /// Whether the dock is still on its way to its target.
    pub fn is_moving(&self) -> (r: bool)
        ensures
            r == self.moving(),
    {
        let d: i128 = self.dock_y_target as i128 - self.dock_y_current as i128;
        d > 32768 || d < -32768
    }

    /// Moves the dock one step toward its target, and says whether it moved.
    pub fn step(&mut self) -> (moved: bool)
        ensures
            *final(self) == old(self).stepped(),
            moved == old(self).moving(),
    {
        let (next, moved) = ease_position(self.dock_y_current, self.dock_y_target);
        self.dock_y_current = next;
        moved
    }
}

/// Once the pointer has left a visible dock that hides itself, and the
/// hide delay has passed with nothing else happening, the dock heads for
/// its hidden position.
pub proof fn lemma_hides_after_delay(m: MotionState, left_at: u64, delay: u64, now: u64)
    requires
        m.hide_timer is None,
        now >= left_at,
        now - left_at >= delay,
    ensures
        m.hiding_from(true, left_at).after_hide_check(true, delay, now).dock_y_target
            == m.dock_y_hidden,
        m.hiding_from(true, left_at).after_hide_check(true, delay, now).hide_timer is None,
{
}

/// Before the hide delay has passed, the timer changes nothing.
pub proof fn lemma_stays_before_delay(m: MotionState, left_at: u64, delay: u64, now: u64)
    requires
        m.hide_timer is None,
        left_at <= now,
        now - left_at < delay,
    ensures
        m.hiding_from(true, left_at).after_hide_check(true, delay, now) == m.hiding_from(
            true,
            left_at,
        ),
{
}

} // verus!
