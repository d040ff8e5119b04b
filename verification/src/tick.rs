//! One tick of the dock: timers first, then the animation, then the frame.

use vstd::prelude::*;
use crate::dock::{AnimationStep, DockApp, Schedule, TASKBAR_CHECK_INTERVAL};
use crate::layout::{DragState, MAX_ITEMS};
use crate::motion::{elapsed, MotionState};
use crate::wave::eased_scale;

verus! {

/// What one tick did.
#[derive(Debug, Clone, Copy, PartialEq, Eq, Structural)]
pub struct Tick {
    /// What the animation step did.
    pub step: AnimationStep,
    /// Whether the host is to hide the taskbar again.
    pub hide_taskbar: bool,
}

impl DockApp {
    /// The motion after the timers were looked at: first the hide timer,
    /// then the show timer.
    pub open spec fn motion_after_timers(&self, now: u64) -> MotionState {
        self.motion.after_hide_check(
            self.settings.auto_hide,
            self.settings.auto_hide_delay_ms,
            now,
        ).after_show_check(self.settings.auto_hide, self.settings.auto_show_delay_ms, now)
    }

    /// Whether the taskbar is looked after now.
    pub open spec fn taskbar_check_due(&self, now: u64) -> bool {
        self.settings.hide_windows_taskbar && elapsed(now, self.schedule.last_taskbar_check)
            >= TASKBAR_CHECK_INTERVAL
    }

    /// The drag that the frame is to show: the dragged item, where it
    /// would be dropped, and the pointer's column.
    pub open spec fn drag_shown(&self) -> Option<DragState> {
        if self.pointer.dragging && self.pointer.drag_start_idx is Some {
            Some(
                DragState {
                    from: self.pointer.drag_start_idx->0,
                    to: self.drop_target() as usize,
                    cursor_x: self.pointer.cursor_x,
                },
            )
        } else {
            None
        }
    }

    /// Whether a frame can be painted: there is a renderer, and the list
    /// is no longer than a row can be.
    pub open spec fn can_paint(&self) -> bool {
        self.renderer is Some && self.items@.len() <= MAX_ITEMS
    }

    /// Advances the session by one tick, in the order that a tick has: the
    /// timers are looked at, then the animation moves one step. What the
    /// pointer did since the last tick has been applied before, and the
    /// frame is painted after.
    pub fn tick(&mut self, now: u64) -> (tick: Tick)
        ensures
            final(self).motion == old(self).motion_after_timers(now).stepped(),
            tick.step.moved == old(self).motion_after_timers(now).moving(),
            tick.step.animating == (old(self).motion_after_timers(now).moving() || old(
                self,
            ).scales_moving()),
            tick.hide_taskbar == (old(self).taskbar_check_due(now) && old(self).taskbar_hidden),
            final(self).schedule == (if old(self).taskbar_check_due(now) {
                Schedule { last_taskbar_check: now, ..old(self).schedule }
            } else {
                old(self).schedule
            }),
            final(self).icon_scales@.len() == old(self).icon_scales@.len(),
            old(self).renderer is Some ==> forall|i: int|
                0 <= i < old(self).icon_scales@.len() ==> #[trigger] final(self).icon_scales@[i]
                    == eased_scale(old(self).icon_scales@[i] as int, old(self).target_of(i)),
            old(self).renderer is None ==> final(self).icon_scales@ == old(self).icon_scales@,
            final(self).settings == old(self).settings,
            final(self).items == old(self).items,
            final(self).renderer == old(self).renderer,
            final(self).running_states == old(self).running_states,
            final(self).pointer == old(self).pointer,
            final(self).screen_width == old(self).screen_width,
            final(self).screen_height == old(self).screen_height,
            final(self).needs_reload == old(self).needs_reload,
            final(self).last_config_modified == old(self).last_config_modified,
            final(self).taskbar_hidden == old(self).taskbar_hidden,
            final(self).fullscreen_active == old(self).fullscreen_active,
    {
        self.check_hide(now);
        self.check_show(now);
        let hide_taskbar: bool = self.check_taskbar_visibility(now);
        let ghost checked = *self;
        let step: AnimationStep = self.update_animations();
        proof {
            assert(checked.hovering() == old(self).hovering());
            assert forall|i: int| checked.target_of(i) == old(self).target_of(i) by {}
            assert(checked.scales_moving() == old(self).scales_moving());
        }
        Tick { step, hide_taskbar }
    }

    /// Paints the frame for the session as it stands into the buffer, and
    /// says whether it did. Nothing is painted while there is no renderer;
    /// the buffer then stays as it is.
    pub fn redraw(&self, buffer: &mut [u32]) -> (painted: bool)
        ensures
            painted == self.can_paint(),
            self.can_paint() ==> final(buffer)@ == self.renderer->0.rendered(
                old(buffer)@.len(),
                self.items@,
                self.running_states@,
                self.icon_scales@,
                self.drag_shown(),
            ),
            !self.can_paint() ==> final(buffer)@ == old(buffer)@,
    {
        let drag: Option<DragState> = match (self.pointer.dragging, self.pointer.drag_start_idx) {
            (true, Some(from)) => Some(
                DragState { from, to: self.get_drop_index(), cursor_x: self.pointer.cursor_x },
            ),
            _ => None,
        };
        match &self.renderer {
            Some(renderer) => {
                if self.items.len() > MAX_ITEMS {
                    return false;
                }
                renderer.render(
                    buffer,
                    self.items.as_slice(),
                    self.running_states.as_slice(),
                    self.pointer.hovered_item,
                    self.icon_scales.as_slice(),
                    drag,
                );
                true
            },
            None => false,
        }
    }
}

} // verus!
