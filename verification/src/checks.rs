//! The periodic checks of the session, and its dealings with the screen.
//!
//! The host reads the system (the pointer's place, the running programs,
//! the settings file) and hands in what it found; the session decides.

use vstd::prelude::*;
use crate::config::{running_states, runs, DockItem, DockSettings};
use crate::dock::{
    centered_x, no_flags, unit_scales, visible_y, window_coord, DockApp, Placement, PointerState,
    Schedule, CONFIG_POLL_INTERVAL, EDGE_TRIGGER_DISTANCE, FULLSCREEN_CHECK_INTERVAL,
    MOUSE_POLL_INTERVAL, PROCESS_CHECK_INTERVAL, TASKBAR_CHECK_INTERVAL,
};
use crate::fixed::whole;
use crate::motion::{elapsed, elapsed_ms, MotionState};
use crate::renderer::Renderer;

verus! {

/// What the host is to do when the session starts on a screen.
#[derive(Debug, Clone, Copy, PartialEq, Eq, Structural)]
pub struct Startup {
    /// Where the window goes.
    pub placement: Placement,
    /// Whether the system's taskbar is to be hidden.
    pub hide_taskbar: bool,
}

/// What is to happen when an item is activated.
#[derive(Debug, Clone, Copy, PartialEq, Eq, Structural)]
pub enum LaunchPlan {
    /// Nothing: there is no such item, or it has nothing to start.
    Nothing,
    /// The item's system action is to be carried out.
    Special,
    /// The item's program is to be brought to the front, or started.
    Program,
}

/// A rectangle of the screen, by its edges.
#[derive(Debug, Clone, Copy, PartialEq, Eq, Structural)]
pub struct ScreenRect {
    pub left: i32,
    pub top: i32,
    pub right: i32,
    pub bottom: i32,
}

/// How far a window may fall short of the screen's edges, in pixels, and
/// still count as covering the screen.
pub const FULLSCREEN_TOLERANCE: i32 = 5;

/// Whether a window covers the screen, give or take the tolerance.
pub open spec fn covers(window: ScreenRect, screen: ScreenRect) -> bool {
    &&& window.left <= screen.left + FULLSCREEN_TOLERANCE
    &&& window.top <= screen.top + FULLSCREEN_TOLERANCE
    &&& window.right >= screen.right - FULLSCREEN_TOLERANCE
    &&& window.bottom >= screen.bottom - FULLSCREEN_TOLERANCE
}

/// Whether a window is a fullscreen one: it covers its screen, and it
/// lacks a caption or a sizing frame.
pub fn is_fullscreen_window(
    window: ScreenRect,
    screen: ScreenRect,
    has_caption: bool,
    has_thickframe: bool,
) -> (r: bool)
    ensures
        r == (covers(window, screen) && (!has_caption || !has_thickframe)),
{
    let t: i64 = FULLSCREEN_TOLERANCE as i64;
    let covering: bool = window.left as i64 <= screen.left as i64 + t && window.top as i64
        <= screen.top as i64 + t && window.right as i64 >= screen.right as i64 - t
        && window.bottom as i64 >= screen.bottom as i64 - t;
    covering && (!has_caption || !has_thickframe)
}

/// A number held to the range of `i32`.
pub open spec fn held_i32(v: int) -> int {
    if v < i32::MIN as int {
        i32::MIN as int
    } else if v > i32::MAX as int {
        i32::MAX as int
    } else {
        v
    }
}

fn hold_i32(v: i64) -> (r: i32)
    ensures
        r == held_i32(v as int),
{
    if v < -0x8000_0000 {
        -0x8000_0000
    } else if v > 0x7fff_ffff {
        0x7fff_ffff
    } else {
        v as i32
    }
}

/// The time `interval` before `now`, or the beginning of time.
pub open spec fn back_by(now: u64, interval: u64) -> u64 {
    if now >= interval {
        (now - interval) as u64
    } else {
        0
    }
}

/// The motion and the pointer's presence after a look at where the pointer
/// is on the screen.
///
/// At the lower screen edge the dock is called: at once where no show
/// delay is set, else by arming the show timer unless it runs or the dock
/// is heading for its visible position already. Away from the edge the
/// show timer stops. A pointer that is neither at the edge nor over the
/// dock arms the hide timer of a dock that is heading for its visible
/// position; so does a pointer that was over the dock and is no longer.
pub open spec fn after_pointer_poll(
    motion: MotionState,
    in_window: bool,
    at_edge: bool,
    in_dock: bool,
    show_delay: u64,
    now: u64,
) -> (MotionState, bool) {
    let m1 = if at_edge {
        if show_delay == 0 {
            motion.shown()
        } else if motion.show_timer is None && motion.dock_y_target != motion.dock_y_visible {
            MotionState { show_timer: Some(now), ..motion }
        } else {
            motion
        }
    } else {
        MotionState { show_timer: None, ..motion }
    };
    let c1 = if at_edge {
        in_dock
    } else {
        in_window
    };
    let m2 = if !at_edge && !in_dock && m1.dock_y_target == m1.dock_y_visible && !c1 {
        m1.hiding_from(true, now)
    } else {
        m1
    };
    if !in_dock && c1 {
        (m2.hiding_from(true, now), false)
    } else {
        (m2, c1)
    }
}

impl DockApp {
    /// Whether the screen point lies within the dock's window, given the
    /// window's upper left corner.
    pub open spec fn inside_dock(&self, point: (i32, i32), origin: Option<(i32, i32)>) -> bool {
        &&& origin matches Some(o)
        &&& self.renderer matches Some(r)
        &&& o.0 <= point.0 < o.0 + r.width
        &&& o.1 <= point.1 < o.1 + r.height
    }

    /// Whether the height `y` of the screen is at its lower edge.
    pub open spec fn at_lower_edge(&self, y: int) -> bool {
        y >= self.screen_height - EDGE_TRIGGER_DISTANCE
    }

    /// Whether the pointer's place on the screen is to be looked up now.
    pub open spec fn pointer_poll_due(&self, now: u64) -> bool {
        self.settings.auto_hide && !self.fullscreen_active && elapsed(
            now,
            self.schedule.last_mouse_poll,
        ) >= MOUSE_POLL_INTERVAL
    }

    /// Whether the host is to look for a fullscreen window now.
    pub open spec fn fullscreen_poll_due(&self, now: u64) -> bool {
        self.settings.hide_in_fullscreen && elapsed(now, self.schedule.last_fullscreen_check)
            >= FULLSCREEN_CHECK_INTERVAL
    }

    /// Looks at where the pointer is on the screen. `point` is the
    /// pointer's place, if the system told it; `origin` is the upper left
    /// corner of the dock's window, if there is a window. The result says
    /// whether a frame is to be drawn.
    ///
    /// Nothing happens unless the dock hides itself, no fullscreen window
    /// is up, and the polling interval has passed.
    pub fn check_mouse_position(
        &mut self,
        now: u64,
        point: Option<(i32, i32)>,
        origin: Option<(i32, i32)>,
    ) -> (redraw: bool)
        ensures
            !old(self).pointer_poll_due(now) ==> *final(self) == *old(self) && !redraw,
            old(self).pointer_poll_due(now) && point is None ==> !redraw && *final(self) == (
            DockApp {
                schedule: Schedule { last_mouse_poll: now, ..old(self).schedule },
                ..*old(self)
            }),
            old(self).pointer_poll_due(now) && point is Some ==> {
                let at_edge = old(self).at_lower_edge((point->0).1 as int);
                let after = after_pointer_poll(
                    old(self).motion,
                    old(self).pointer.cursor_in_window,
                    at_edge,
                    old(self).inside_dock(point->0, origin),
                    old(self).settings.auto_show_delay_ms,
                    now,
                );
                &&& redraw == at_edge
                &&& *final(self) == (DockApp {
                    schedule: Schedule { last_mouse_poll: now, ..old(self).schedule },
                    motion: after.0,
                    pointer: PointerState { cursor_in_window: after.1, ..old(self).pointer },
                    ..*old(self)
                })
            },
    {
        if !self.settings.auto_hide || self.fullscreen_active {
            return false;
        }
        if elapsed_ms(now, self.schedule.last_mouse_poll) < MOUSE_POLL_INTERVAL {
            return false;
        }
        self.schedule.last_mouse_poll = now;
        let p: (i32, i32) = match point {
            Some(p) => p,
            None => {
                return false;
            },
        };
        let at_edge: bool = p.1 as i64 >= self.screen_height as i64 - EDGE_TRIGGER_DISTANCE as i64;
        let in_dock: bool = match (origin, &self.renderer) {
            (Some(o), Some(r)) => {
                o.0 <= p.0 && (p.0 as i64) < o.0 as i64 + r.width as i64 && o.1 <= p.1 && (
                p.1 as i64) < o.1 as i64 + r.height as i64
            },
            _ => false,
        };
        if at_edge {
            if self.settings.auto_show_delay_ms == 0 {
                self.motion.show_dock();
            } else if self.motion.show_timer.is_none() && self.motion.dock_y_target
                != self.motion.dock_y_visible {
                self.motion.show_timer = Some(now);
            }
            self.pointer.cursor_in_window = in_dock;
        } else {
            self.motion.show_timer = None;
        }
        if !at_edge && !in_dock && self.motion.dock_y_target == self.motion.dock_y_visible {
            if !self.pointer.cursor_in_window {
                self.motion.start_hide(true, now);
            }
        }
        if !in_dock && self.pointer.cursor_in_window {
            self.pointer.cursor_in_window = false;
            self.motion.start_hide(true, now);
        }
        at_edge
    }

    /// Whether the host is to look for a fullscreen window now.
    pub fn fullscreen_check_due(&self, now: u64) -> (due: bool)
        ensures
            due == self.fullscreen_poll_due(now),
    {
        self.settings.hide_in_fullscreen && elapsed_ms(now, self.schedule.last_fullscreen_check)
            >= FULLSCREEN_CHECK_INTERVAL
    }

    /// Takes note of whether a fullscreen window is up. A fullscreen
    /// window that has just come up sends the dock into hiding at once.
    ///
    /// Nothing happens unless the dock gives way to fullscreen windows and
    /// the checking interval has passed.
    pub fn check_fullscreen(&mut self, now: u64, active: bool)
        ensures
            !old(self).fullscreen_poll_due(now) ==> *final(self) == *old(self),
            old(self).fullscreen_poll_due(now) ==> *final(self) == (DockApp {
                schedule: Schedule { last_fullscreen_check: now, ..old(self).schedule },
                fullscreen_active: active,
                motion: if active && !old(self).fullscreen_active {
                    old(self).motion.hidden()
                } else {
                    old(self).motion
                },
                ..*old(self)
            }),
    {
        if !self.fullscreen_check_due(now) {
            return ;
        }
        self.schedule.last_fullscreen_check = now;
        let was: bool = self.fullscreen_active;
        self.fullscreen_active = active;
        if active && !was {
            self.motion.force_hide();
        }
    }

    /// Whether the taskbar is to be hidden again now, in case the system
    /// brought it back.
    pub fn check_taskbar_visibility(&mut self, now: u64) -> (hide_again: bool)
        ensures
            ({
                let due = old(self).settings.hide_windows_taskbar && elapsed(
                    now,
                    old(self).schedule.last_taskbar_check,
                ) >= TASKBAR_CHECK_INTERVAL;
                &&& hide_again == (due && old(self).taskbar_hidden)
                &&& *final(self) == (if due {
                    DockApp {
                        schedule: Schedule { last_taskbar_check: now, ..old(self).schedule },
                        ..*old(self)
                    }
                } else {
                    *old(self)
                })
            }),
    {
        if !self.settings.hide_windows_taskbar {
            return false;
        }
        if elapsed_ms(now, self.schedule.last_taskbar_check) < TASKBAR_CHECK_INTERVAL {
            return false;
        }
        self.schedule.last_taskbar_check = now;
        self.taskbar_hidden
    }

    /// Whether the running programs are to be looked up now.
    pub fn process_check_due(&self, now: u64) -> (due: bool)
        ensures
            due == (elapsed(now, self.schedule.last_process_check) >= PROCESS_CHECK_INTERVAL),
    {
        elapsed_ms(now, self.schedule.last_process_check) >= PROCESS_CHECK_INTERVAL
    }

    /// Marks the items whose program is among `running`, if the lookup was
    /// due.
    pub fn update_running_states(&mut self, now: u64, running: &Vec<String>)
        ensures
            elapsed(now, old(self).schedule.last_process_check) < PROCESS_CHECK_INTERVAL
                ==> *final(self) == *old(self),
            elapsed(now, old(self).schedule.last_process_check) >= PROCESS_CHECK_INTERVAL ==> {
                &&& final(self).schedule == (Schedule {
                    last_process_check: now,
                    ..old(self).schedule
                })
                &&& final(self).running_states@.len() == old(self).items@.len()
                &&& forall|k: int|
                    0 <= k < old(self).items@.len() ==> #[trigger] final(self).running_states@[k]
                        == runs(old(self).items@[k].path@, running@)
                &&& final(self).settings == old(self).settings
                &&& final(self).items == old(self).items
                &&& final(self).renderer == old(self).renderer
                &&& final(self).icon_scales == old(self).icon_scales
                &&& final(self).pointer == old(self).pointer
                &&& final(self).motion == old(self).motion
                &&& final(self).screen_width == old(self).screen_width
                &&& final(self).screen_height == old(self).screen_height
                &&& final(self).needs_reload == old(self).needs_reload
                &&& final(self).last_config_modified == old(self).last_config_modified
                &&& final(self).taskbar_hidden == old(self).taskbar_hidden
                &&& final(self).fullscreen_active == old(self).fullscreen_active
            },
    {
        if !self.process_check_due(now) {
            return ;
        }
        self.schedule.last_process_check = now;
        self.running_states = running_states(&self.items, running);
    }

    /// Takes note of what the host saw of the settings file: whether a
    /// change was reported, and the time of the last change as the file
    /// system gives it. The time is looked at once per polling interval; a
    /// later time than the last one seen asks for a reload.
    pub fn check_config_reload(&mut self, now: u64, change_reported: bool, modified: Option<u64>)
        ensures
            ({
                let due = elapsed(now, old(self).schedule.last_config_poll)
                    >= CONFIG_POLL_INTERVAL;
                let newer = due && modified is Some && old(self).last_config_modified is Some
                    && modified->0 > old(self).last_config_modified->0;
                *final(self) == (DockApp {
                    needs_reload: old(self).needs_reload || change_reported || newer,
                    schedule: if due {
                        Schedule { last_config_poll: now, ..old(self).schedule }
                    } else {
                        old(self).schedule
                    },
                    last_config_modified: if due && modified is Some {
                        modified
                    } else {
                        old(self).last_config_modified
                    },
                    ..*old(self)
                })
            }),
    {
        if change_reported {
            self.needs_reload = true;
        }
        if elapsed_ms(now, self.schedule.last_config_poll) >= CONFIG_POLL_INTERVAL {
            self.schedule.last_config_poll = now;
            match modified {
                Some(m) => {
                    match self.last_config_modified {
                        Some(last) => {
                            if m > last {
                                self.needs_reload = true;
                            }
                        },
                        None => {},
                    }
                    self.last_config_modified = Some(m);
                },
                None => {},
            }
        }
    }

    /// Says whether a reload was asked for, and takes the request back.
    pub fn take_reload_request(&mut self) -> (asked: bool)
        ensures
            asked == old(self).needs_reload,
            *final(self) == (DockApp { needs_reload: false, ..*old(self) }),
    {
        let asked: bool = self.needs_reload;
        self.needs_reload = false;
        asked
    }

    /// Where the dock's window belongs while the dock is on its way: in
    /// the middle of the screen, at the dock's current height.
    pub fn window_position(&self) -> (p: Option<Placement>)
        ensures
            match self.renderer {
                Some(r) => p == Some(
                    Placement {
                        x: centered_x(self.screen_width as int, r.width as int) as i32,
                        y: window_coord(self.motion.dock_y_current as int) as i32,
                    },
                ),
                None => p is None,
            },
    {
        match &self.renderer {
            Some(r) => {
                let x: i64 = (self.screen_width as i64 - r.width as i64) / 2;
                let y: i64 = self.motion.dock_y_current / 65536;
                Some(Placement { x: x as i32, y: hold_i32(y) })
            },
            None => None,
        }
    }

    /// Starts the session on a screen, with the renderer made for its
    /// settings. The dock stands on the lower screen edge; hidden, five
    /// pixels of it stay on the screen so that the pointer can find it. It
    /// begins ten pixels below its place and rises into it.
    pub fn resumed(&mut self, screen_width: u32, screen_height: u32, renderer: Renderer) -> (start:
        Startup)
        ensures
            ({
                let y = visible_y(
                    screen_height as int,
                    renderer.height as int,
                    old(self).settings.negative_vertical_offset as int,
                );
                &&& start.placement.x == centered_x(screen_width as int, renderer.width as int)
                &&& start.placement.y == held_i32(y)
                &&& start.hide_taskbar == (old(self).settings.hide_windows_taskbar && !old(
                    self,
                ).taskbar_hidden)
                &&& final(self).taskbar_hidden == (old(self).taskbar_hidden
                    || old(self).settings.hide_windows_taskbar)
                &&& final(self).motion == (MotionState {
                    dock_y_visible: whole(y) as i64,
                    dock_y_hidden: whole(screen_height as int - 5) as i64,
                    dock_y_target: whole(y) as i64,
                    dock_y_current: whole(y + 10) as i64,
                    ..old(self).motion
                })
            }),
            final(self).screen_width == screen_width,
            final(self).screen_height == screen_height,
            final(self).renderer == Some(renderer),
            final(self).running_states@.len() == old(self).items@.len(),
            forall|k: int| 0 <= k < old(self).items@.len() ==> !final(self).running_states@[k],
            final(self).icon_scales@.len() == old(self).items@.len(),
            forall|k: int| 0 <= k < old(self).items@.len() ==> final(self).icon_scales@[k] == 65536,
            final(self).settings == old(self).settings,
            final(self).items == old(self).items,
            final(self).pointer == old(self).pointer,
            final(self).schedule == old(self).schedule,
            final(self).needs_reload == old(self).needs_reload,
            final(self).last_config_modified == old(self).last_config_modified,
            final(self).fullscreen_active == old(self).fullscreen_active,
    {
        self.screen_width = screen_width;
        self.screen_height = screen_height;
        let x: i64 = (screen_width as i64 - renderer.width as i64) / 2;
        let y: i64 = screen_height as i64 - renderer.height as i64
            + self.settings.negative_vertical_offset as i64;
        self.motion.dock_y_visible = y * 65536;
        self.motion.dock_y_hidden = (screen_height as i64 - 5) * 65536;
        self.motion.dock_y_target = y * 65536;
        self.motion.dock_y_current = (y + 10) * 65536;
        self.renderer = Some(renderer);
        self.running_states = no_flags(self.items.len());
        self.icon_scales = unit_scales(self.items.len());
        let hide_taskbar: bool = self.settings.hide_windows_taskbar && !self.taskbar_hidden;
        if hide_taskbar {
            self.taskbar_hidden = true;
        }
        Startup { placement: Placement { x: x as i32, y: hold_i32(y) }, hide_taskbar }
    }

    /// Ends the session, and says whether the taskbar is to be brought back.
    pub fn exiting(&mut self) -> (restore_taskbar: bool)
        ensures
            restore_taskbar == old(self).taskbar_hidden,
            *final(self) == (DockApp { taskbar_hidden: false, ..*old(self) }),
    {
        let restore: bool = self.taskbar_hidden;
        self.taskbar_hidden = false;
        restore
    }

    /// Takes over settings and items that were read anew, with the
    /// renderer made for them if one could be made. Every scale goes back
    /// to 1, no item counts as running until the next lookup, which is due
    /// at once, and the dock shows itself. With a renderer and a window the
    /// dock's visible and hidden places are set for the new size, and the
    /// result says where the window belongs; hidden, the dock then lies
    /// twenty pixels below the screen. Where the dock stands at the moment
    /// is left as it is: it slides to its new place.
    pub fn reload_config(
        &mut self,
        settings: DockSettings,
        items: Vec<DockItem>,
        renderer: Option<Renderer>,
        has_window: bool,
        now: u64,
    ) -> (placement: Option<Placement>)
        ensures
            ({
                let placed = renderer is Some && has_window;
                let y = visible_y(
                    old(self).screen_height as int,
                    renderer->0.height as int,
                    settings.negative_vertical_offset as int,
                );
                &&& placement == (if placed {
                    Some(
                        Placement {
                            x: centered_x(
                                old(self).screen_width as int,
                                renderer->0.width as int,
                            ) as i32,
                            y: held_i32(y) as i32,
                        },
                    )
                } else {
                    None
                })
                &&& final(self).motion == (if placed {
                    MotionState {
                        dock_y_visible: whole(y) as i64,
                        dock_y_hidden: whole(old(self).screen_height as int + 20) as i64,
                        dock_y_target: whole(y) as i64,
                        hide_timer: None,
                        ..old(self).motion
                    }
                } else {
                    MotionState {
                        dock_y_target: old(self).motion.dock_y_visible,
                        hide_timer: None,
                        ..old(self).motion
                    }
                })
            }),
            final(self).settings == settings,
            final(self).items == items,
            final(self).renderer == (if renderer is Some {
                renderer
            } else {
                old(self).renderer
            }),
            final(self).running_states@.len() == items@.len(),
            forall|k: int| 0 <= k < items@.len() ==> !final(self).running_states@[k],
            final(self).icon_scales@.len() == items@.len(),
            forall|k: int| 0 <= k < items@.len() ==> final(self).icon_scales@[k] == 65536,
            final(self).schedule == (Schedule {
                last_process_check: back_by(now, PROCESS_CHECK_INTERVAL),
                ..old(self).schedule
            }),
            final(self).pointer == old(self).pointer,
            final(self).screen_width == old(self).screen_width,
            final(self).screen_height == old(self).screen_height,
            final(self).needs_reload == old(self).needs_reload,
            final(self).last_config_modified == old(self).last_config_modified,
            final(self).taskbar_hidden == old(self).taskbar_hidden,
            final(self).fullscreen_active == old(self).fullscreen_active,
    {
        let n: usize = items.len();
        self.settings = settings;
        self.items = items;
        let mut placement: Option<Placement> = None;
        match renderer {
            Some(r) => {
                if has_window {
                    let x: i64 = (self.screen_width as i64 - r.width as i64) / 2;
                    let y: i64 = self.screen_height as i64 - r.height as i64
                        + self.settings.negative_vertical_offset as i64;
                    self.motion.dock_y_visible = y * 65536;
                    self.motion.dock_y_hidden = (self.screen_height as i64 + 20) * 65536;
                    self.motion.dock_y_target = y * 65536;
                    placement = Some(Placement { x: x as i32, y: hold_i32(y) });
                }
                self.renderer = Some(r);
            },
            None => {},
        }
        self.running_states = no_flags(n);
        self.icon_scales = unit_scales(n);
        self.schedule.last_process_check = if now >= PROCESS_CHECK_INTERVAL {
            now - PROCESS_CHECK_INTERVAL
        } else {
            0
        };
        self.motion.dock_y_target = self.motion.dock_y_visible;
        self.motion.hide_timer = None;
        placement
    }

    /// Brings the dock up under the pointer: centred on the screen column
    /// `point_x` as far as the screen allows, at its visible height. The
    /// result says where the window goes. Without the pointer's place, or
    /// without a window, the dock only shows itself where it is.
    pub fn show_dock_at_cursor(&mut self, point_x: Option<i32>, has_window: bool) -> (placement:
        Option<Placement>)
        ensures
            ({
                let placed = point_x is Some && has_window && old(self).renderer is Some;
                let width = old(self).renderer->0.width as int;
                let left = point_x->0 - width / 2;
                let room = old(self).screen_width - width;
                let x = if left < 0 {
                    0
                } else {
                    left
                };
                let y = window_coord(old(self).motion.dock_y_visible as int);
                &&& placement == (if placed {
                    Some(
                        Placement {
                            x: held_i32(
                                if x > room {
                                    room
                                } else {
                                    x
                                },
                            ) as i32,
                            y: y as i32,
                        },
                    )
                } else {
                    None
                })
                &&& *final(self) == (DockApp {
                    motion: (if placed {
                        MotionState { dock_y_current: whole(y) as i64, ..old(self).motion }
                    } else {
                        old(self).motion
                    }).shown(),
                    ..*old(self)
                })
            }),
    {
        let mut placement: Option<Placement> = None;
        match (point_x, &self.renderer) {
            (Some(px), Some(r)) => {
                if has_window {
                    let width: i64 = r.width as i64;
                    let left: i64 = px as i64 - width / 2;
                    let room: i64 = self.screen_width as i64 - width;
                    let x: i64 = if left < 0 {
                        0
                    } else {
                        left
                    };
                    let x: i64 = if x > room {
                        room
                    } else {
                        x
                    };
                    let y: i32 = hold_i32(self.motion.dock_y_visible / 65536);
                    self.motion.dock_y_current = y as i64 * 65536;
                    placement = Some(Placement { x: hold_i32(x), y });
                }
            },
            _ => {},
        }
        self.motion.show_dock();
        placement
    }

    /// What activating the item at `index` comes to.
    pub fn launch_plan(&self, index: usize) -> (plan: LaunchPlan)
        ensures
            plan == (if index >= self.items@.len() {
                LaunchPlan::Nothing
            } else if self.items@[index as int].special is Some {
                LaunchPlan::Special
            } else if self.items@[index as int].path@.len() == 0 {
                LaunchPlan::Nothing
            } else {
                LaunchPlan::Program
            }),
    {
        if index >= self.items.len() {
            return LaunchPlan::Nothing;
        }
        if self.items[index].is_special() {
            LaunchPlan::Special
        } else if crate::config::is_default_path(self.items[index].path.as_str()) {
            LaunchPlan::Nothing
        } else {
            LaunchPlan::Program
        }
    }
}

} // verus!
