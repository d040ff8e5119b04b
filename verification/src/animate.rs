//! The animation controller: one step per frame, and the frame cadence.

use vstd::prelude::*;
use crate::dock::{
    AnimationStep, Cadence, DockApp, ANIMATION_FRAME_TIME, CONFIG_POLL_INTERVAL,
    FULLSCREEN_CHECK_INTERVAL, MOUSE_POLL_INTERVAL, PROCESS_CHECK_INTERVAL,
};
use crate::fixed::whole;
use crate::motion::{elapsed, elapsed_ms};

use crate::wave::{ease_scale, eased_scale, scale_moving};

verus! {

impl DockApp {
    /// The scale that icon `i` is heading for.
    pub open spec fn target_of(&self, i: int) -> int {
        self.renderer->0.scale_target(
            self.items@,
            self.hovering(),
            whole(self.pointer.cursor_x as int),
            self.settings.magnification as int,
            i,
        )
    }

    /// Whether some icon is still more than a thousandth away from the
    /// scale it is heading for.
    pub open spec fn scales_moving(&self) -> bool {
        self.renderer is Some && exists|i: int|
            0 <= i < self.icon_scales@.len() && scale_moving(
                #[trigger] self.icon_scales@[i] as int,
                self.target_of(i),
            )
    }

    /// Whether the host is to keep drawing frames: the dock is more than
    /// half a pixel from where it is heading, or an icon more than a
    /// thousandth from the scale it is heading for, or the hide timer runs,
    /// or the pointer is over the surface.
    pub open spec fn animating(&self) -> bool {
        self.motion.moving() || self.scales_moving() || self.motion.hide_timer is Some
            || self.pointer.cursor_in_window
    }

    /// Whether one of the periodic checks is due at `now`.
    pub open spec fn check_due(&self, now: u64) -> bool {
        ||| elapsed(now, self.schedule.last_process_check) >= PROCESS_CHECK_INTERVAL
        ||| elapsed(now, self.schedule.last_config_poll) >= CONFIG_POLL_INTERVAL
        ||| self.needs_reload
        ||| elapsed(now, self.schedule.last_mouse_poll) >= MOUSE_POLL_INTERVAL
        ||| elapsed(now, self.schedule.last_fullscreen_check) >= FULLSCREEN_CHECK_INTERVAL
    }

    /// Advances the animation by one frame: the dock moves toward its
    /// target position, and every icon toward the scale that the wave
    /// gives it. Without a renderer the scales stay as they are.
    pub fn update_animations(&mut self) -> (step: AnimationStep)
        ensures
            final(self).motion == old(self).motion.stepped(),
            step.moved == old(self).motion.moving(),
            step.animating == (old(self).motion.moving() || old(self).scales_moving()),
            final(self).icon_scales@.len() == old(self).icon_scales@.len(),
            old(self).renderer is Some ==> forall|i: int|
                0 <= i < old(self).icon_scales@.len() ==> #[trigger] final(self).icon_scales@[i]
                    == eased_scale(old(self).icon_scales@[i] as int, old(self).target_of(i)),
            old(self).renderer is None ==> final(self).icon_scales@ == old(self).icon_scales@,
            final(self).settings == old(self).settings,
            final(self).items == old(self).items,
            final(self).renderer == old(self).renderer,
            final(self).running_states == old(self).running_states,
            final(self).pointer == old(self).pointer,
            final(self).schedule == old(self).schedule,
            final(self).screen_width == old(self).screen_width,
            final(self).screen_height == old(self).screen_height,
            final(self).needs_reload == old(self).needs_reload,
            final(self).last_config_modified == old(self).last_config_modified,
            final(self).taskbar_hidden == old(self).taskbar_hidden,
            final(self).fullscreen_active == old(self).fullscreen_active,
    {
        let moved: bool = self.motion.step();
        let mut animating: bool = moved;
        let hovering: bool = self.pointer.cursor_in_window && self.pointer.cursor_x >= 0
            && !self.pointer.dragging;
        let cursor_x: i32 = self.pointer.cursor_x;
        let max_scale: u32 = self.settings.magnification;
        let ghost before = *old(self);
        match &self.renderer {
            Some(renderer) => {
                let n: usize = self.icon_scales.len();
                let targets: Vec<u32> = renderer.target_scales(
                    self.items.as_slice(),
                    hovering,
                    cursor_x,
                    max_scale,
                    n,
                );
                let mut i: usize = 0;
                while i < n
                    invariant
                        i <= n,
                        targets@.len() == n,
                        forall|k: int|
                            0 <= k < n ==> #[trigger] targets@[k] == before.target_of(k),
                        n == self.icon_scales@.len(),
                        n == before.icon_scales@.len(),
                        before.renderer == Some(*renderer),
                        self.motion == before.motion.stepped(),
                        self.settings == before.settings,
                        self.items == before.items,
                        self.renderer == before.renderer,
                        self.running_states == before.running_states,
                        self.pointer == before.pointer,
                        self.schedule == before.schedule,
                        self.screen_width == before.screen_width,
                        self.screen_height == before.screen_height,
                        self.needs_reload == before.needs_reload,
                        self.last_config_modified == before.last_config_modified,
                        self.taskbar_hidden == before.taskbar_hidden,
                        self.fullscreen_active == before.fullscreen_active,
                        hovering == before.hovering(),
                        cursor_x == before.pointer.cursor_x,
                        max_scale == before.settings.magnification,
                        forall|k: int|
                            0 <= k < i ==> #[trigger] self.icon_scales@[k] == eased_scale(
                                before.icon_scales@[k] as int,
                                before.target_of(k),
                            ),
                        forall|k: int|
                            i <= k < n ==> #[trigger] self.icon_scales@[k]
                                == before.icon_scales@[k],
                        animating == (moved || exists|k: int|
                            0 <= k < i && scale_moving(
                                #[trigger] before.icon_scales@[k] as int,
                                before.target_of(k),
                            )),
                    decreases n - i,
                {
                    let (next, moving) = ease_scale(self.icon_scales[i], targets[i]);
                    self.icon_scales[i] = next;
                    if moving {
                        animating = true;
                    }
                    i += 1;
                }
            },
            None => {},
        }
        AnimationStep { animating, moved }
    }

    /// Whether the host is to keep drawing frames.
    pub fn is_animating(&self) -> (r: bool)
        ensures
            r == self.animating(),
    {
        if self.motion.is_moving() || self.motion.hide_timer.is_some()
            || self.pointer.cursor_in_window {
            return true;
        }
        match &self.renderer {
            Some(renderer) => {
                let n: usize = self.icon_scales.len();
                let hovering: bool = self.pointer.cursor_in_window && self.pointer.cursor_x >= 0
                    && !self.pointer.dragging;
                let targets: Vec<u32> = renderer.target_scales(
                    self.items.as_slice(),
                    hovering,
                    self.pointer.cursor_x,
                    self.settings.magnification,
                    n,
                );
                let mut i: usize = 0;
                while i < n
                    invariant
                        i <= n,
                        n == self.icon_scales@.len(),
                        targets@.len() == n,
                        self.renderer is Some,
                        forall|k: int| 0 <= k < n ==> #[trigger] targets@[k] == self.target_of(k),
                        forall|k: int|
                            0 <= k < i ==> !scale_moving(
                                #[trigger] self.icon_scales@[k] as int,
                                self.target_of(k),
                            ),
                    decreases n - i,
                {
                    let (_, moving) = ease_scale(self.icon_scales[i], targets[i]);
                    if moving {
                        return true;
                    }
                    i += 1;
                }
                false
            },
            None => false,
        }
    }

    /// Whether another frame is needed right away.
    pub fn needs_another_frame(&self) -> (r: bool)
        ensures
            r == self.animating(),
    {
        self.is_animating()
    }

    /// When the host is to wake up next: after one frame time while
    /// anything is animating; after a twentieth of a second, with a frame
    /// drawn first, while a periodic check is due; and after the shorter of
    /// the polling intervals, with no frame, while idle.
    pub fn about_to_wait(&self, now: u64) -> (cadence: Cadence)
        ensures
            cadence == (if self.animating() {
                Cadence { redraw: true, wait_ms: ANIMATION_FRAME_TIME }
            } else if self.check_due(now) {
                Cadence { redraw: true, wait_ms: 50 }
            } else {
                Cadence { redraw: false, wait_ms: MOUSE_POLL_INTERVAL }
            }),
    {
        if self.is_animating() {
            return Cadence { redraw: true, wait_ms: ANIMATION_FRAME_TIME };
        }
        let due: bool = elapsed_ms(now, self.schedule.last_process_check)
            >= PROCESS_CHECK_INTERVAL || elapsed_ms(now, self.schedule.last_config_poll)
            >= CONFIG_POLL_INTERVAL || self.needs_reload || elapsed_ms(
            now,
            self.schedule.last_mouse_poll,
        ) >= MOUSE_POLL_INTERVAL || elapsed_ms(now, self.schedule.last_fullscreen_check)
            >= FULLSCREEN_CHECK_INTERVAL;
        if due {
            Cadence { redraw: true, wait_ms: 50 }
        } else {
            Cadence { redraw: false, wait_ms: MOUSE_POLL_INTERVAL }
        }
    }
}

} // verus!
