//! The dock session: everything one dock surface owns between two frames.
//!
//! The host feeds the session with events and with what it read from the
//! system; the session decides, and says what the host is to do.

use vstd::prelude::*;
use crate::config::{DockItem, DockSettings};
use crate::fixed::trunc_div;
use crate::motion::MotionState;
use crate::renderer::Renderer;

verus! {

/// How often the running programs are looked up, in milliseconds.
pub const PROCESS_CHECK_INTERVAL: u64 = 2000;

/// The time between two frames of an animation, in milliseconds.
pub const ANIMATION_FRAME_TIME: u64 = 16;

/// How often a hidden taskbar is hidden again, in milliseconds.
pub const TASKBAR_CHECK_INTERVAL: u64 = 1000;

/// How often the pointer's place on the screen is looked up, in milliseconds.
pub const MOUSE_POLL_INTERVAL: u64 = 50;

/// How often the host looks for a fullscreen window, in milliseconds.
pub const FULLSCREEN_CHECK_INTERVAL: u64 = 500;

/// How often the settings file is looked at, in milliseconds.
pub const CONFIG_POLL_INTERVAL: u64 = 500;

/// How close to the lower screen edge the pointer calls the dock, in pixels.
pub const EDGE_TRIGGER_DISTANCE: u32 = 2;

/// Where the pointer is said to be while it is off the surface.
pub const OFF_SURFACE: i32 = -1000;

/// The pointer over the surface, and the drag it may be making.
#[derive(Debug, Clone, Copy, PartialEq, Eq, Structural)]
pub struct PointerState {
    pub cursor_in_window: bool,
    pub cursor_x: i32,
    pub cursor_y: i32,
    /// The item under the pointer.
    pub hovered_item: Option<usize>,
    /// Whether an item is being dragged.
    pub dragging: bool,
    /// The item the primary button went down on, while it is held.
    pub drag_start_idx: Option<usize>,
    /// The pixel column at which the button went down.
    pub drag_start_x: i32,
}

/// When each periodic check was last made.
#[derive(Debug, Clone, Copy, PartialEq, Eq, Structural)]
pub struct Schedule {
    pub last_process_check: u64,
    pub last_config_poll: u64,
    pub last_taskbar_check: u64,
    pub last_mouse_poll: u64,
    pub last_fullscreen_check: u64,
}

/// Where the host is to put the dock's window, in screen pixels.
#[derive(Debug, Clone, Copy, PartialEq, Eq, Structural)]
pub struct Placement {
    pub x: i32,
    pub y: i32,
}

/// What one animation step did.
#[derive(Debug, Clone, Copy, PartialEq, Eq, Structural)]
pub struct AnimationStep {
    /// Whether anything is still on its way.
    pub animating: bool,
    /// Whether the dock itself moved, so that its window is to follow.
    pub moved: bool,
}

/// When the host is to wake up next.
#[derive(Debug, Clone, Copy, PartialEq, Eq, Structural)]
pub struct Cadence {
    /// Whether a frame is to be drawn now.
    pub redraw: bool,
    /// How long the host may sleep, in milliseconds.
    pub wait_ms: u64,
}

/// One dock surface and its state.
pub struct DockApp {
    pub settings: DockSettings,
    pub items: Vec<DockItem>,
    pub renderer: Option<Renderer>,
    /// Which items are running, one flag per item.
    pub running_states: Vec<bool>,
    /// The scale of each item, in 16.16 fixed point.
    pub icon_scales: Vec<u32>,
    pub pointer: PointerState,
    pub motion: MotionState,
    pub schedule: Schedule,
    pub screen_width: u32,
    pub screen_height: u32,
    /// Whether the settings changed and are to be read again.
    pub needs_reload: bool,
    /// When the settings file was last seen changed.
    pub last_config_modified: Option<u64>,
    pub taskbar_hidden: bool,
    pub fullscreen_active: bool,
}

/// `n` scales of 1.
pub fn unit_scales(n: usize) -> (scales: Vec<u32>)
    ensures
        scales@.len() == n,
        forall|i: int| 0 <= i < n ==> scales@[i] == 65536,
{
    let mut scales: Vec<u32> = Vec::new();
    let mut i: usize = 0;
    while i < n
        invariant
            i <= n,
            scales@.len() == i,
            forall|k: int| 0 <= k < i ==> scales@[k] == 65536,
        decreases n - i,
    {
        scales.push(65536);
        i += 1;
    }
    scales
}

/// `n` flags, none set.
pub fn no_flags(n: usize) -> (flags: Vec<bool>)
    ensures
        flags@.len() == n,
        forall|i: int| 0 <= i < n ==> !flags@[i],
{
    let mut flags: Vec<bool> = Vec::new();
    let mut i: usize = 0;
    while i < n
        invariant
            i <= n,
            flags@.len() == i,
            forall|k: int| 0 <= k < i ==> !flags@[k],
        decreases n - i,
    {
        flags.push(false);
        i += 1;
    }
    flags
}

/// A pixel position as a window coordinate: the fixed-point value rounded
/// toward zero and held to 32 bits.
pub open spec fn window_coord(v: int) -> int {
    let p = trunc_div(v, 65536);
    if p < i32::MIN as int {
        i32::MIN as int
    } else if p > i32::MAX as int {
        i32::MAX as int
    } else {
        p
    }
}

/// The window column that centres a surface of `width` on a screen of
/// `screen_width`.
pub open spec fn centered_x(screen_width: int, width: int) -> int {
    trunc_div(screen_width - width, 2)
}

/// The top of the visible dock: its surface stands on the lower screen
/// edge, pushed down by `offset`.
pub open spec fn visible_y(screen_height: int, height: int, offset: int) -> int {
    screen_height - height + offset
}

impl DockApp {
    /// Whether the wave follows the pointer: it is over the surface, at a
    /// column that is not negative, and nothing is being dragged.
    pub open spec fn hovering(&self) -> bool {
        self.pointer.cursor_in_window && self.pointer.cursor_x >= 0 && !self.pointer.dragging
    }

    /// The session as it starts: at rest, every scale at 1, the pointer off
    /// the surface, on a screen assumed to be 1920 by 1080 until the host
    /// knows better. The first look at the running programs is due at once.
    pub fn new(settings: DockSettings, items: Vec<DockItem>, now: u64) -> (app: Self)
        ensures
            app.settings == settings,
            app.items == items,
            app.renderer is None,
            app.running_states@.len() == 0,
            app.icon_scales@.len() == items@.len(),
            forall|i: int| 0 <= i < items@.len() ==> app.icon_scales@[i] == 65536,
            app.pointer == (PointerState {
                cursor_in_window: false,
                cursor_x: OFF_SURFACE,
                cursor_y: OFF_SURFACE,
                hovered_item: None,
                dragging: false,
                drag_start_idx: None,
                drag_start_x: 0,
            }),
            app.motion == (MotionState {
                dock_y_current: 0,
                dock_y_target: 0,
                dock_y_hidden: 0,
                dock_y_visible: 0,
                hide_timer: None,
                show_timer: None,
            }),
            app.schedule == (Schedule {
                last_process_check: (if now >= PROCESS_CHECK_INTERVAL {
                    now - PROCESS_CHECK_INTERVAL
                } else {
                    0
                }) as u64,
                last_config_poll: now,
                last_taskbar_check: now,
                last_mouse_poll: now,
                last_fullscreen_check: now,
            }),
            app.screen_width == 1920,
            app.screen_height == 1080,
            !app.needs_reload,
            app.last_config_modified is None,
            !app.taskbar_hidden,
            !app.fullscreen_active,
    {
        let scales: Vec<u32> = unit_scales(items.len());
        DockApp {
            settings,
            items,
            renderer: None,
            running_states: Vec::new(),
            icon_scales: scales,
            pointer: PointerState {
                cursor_in_window: false,
                cursor_x: OFF_SURFACE,
                cursor_y: OFF_SURFACE,
                hovered_item: None,
                dragging: false,
                drag_start_idx: None,
                drag_start_x: 0,
            },
            motion: MotionState {
                dock_y_current: 0,
                dock_y_target: 0,
                dock_y_hidden: 0,
                dock_y_visible: 0,
                hide_timer: None,
                show_timer: None,
            },
            schedule: Schedule {
                last_process_check: if now >= PROCESS_CHECK_INTERVAL {
                    now - PROCESS_CHECK_INTERVAL
                } else {
                    0
                },
                last_config_poll: now,
                last_taskbar_check: now,
                last_mouse_poll: now,
                last_fullscreen_check: now,
            },
            screen_width: 1920,
            screen_height: 1080,
            needs_reload: false,
            last_config_modified: None,
            taskbar_hidden: false,
            fullscreen_active: false,
        }
    }

    /// Heads for the visible position and stops both timers.
    pub fn show_dock(&mut self)
        ensures
            *final(self) == (DockApp { motion: old(self).motion.shown(), ..*old(self) }),
    {
        self.motion.show_dock();
    }

    /// Arms the hide timer, unless it runs already or the dock never hides.
    pub fn start_hide(&mut self, now: u64)
        ensures
            *final(self) == (DockApp {
                motion: old(self).motion.hiding_from(old(self).settings.auto_hide, now),
                ..*old(self)
            }),
    {
        self.motion.start_hide(self.settings.auto_hide, now);
    }

    /// Sends the dock into hiding once the pointer has been away for the
    /// configured delay.
    pub fn check_hide(&mut self, now: u64)
        ensures
            *final(self) == (DockApp {
                motion: old(self).motion.after_hide_check(
                    old(self).settings.auto_hide,
                    old(self).settings.auto_hide_delay_ms,
                    now,
                ),
                ..*old(self)
            }),
    {
        self.motion.check_hide(self.settings.auto_hide, self.settings.auto_hide_delay_ms, now);
    }

    /// Brings the dock back once the pointer has stayed at the screen edge
    /// for the configured delay.
    pub fn check_show(&mut self, now: u64)
        ensures
            *final(self) == (DockApp {
                motion: old(self).motion.after_show_check(
                    old(self).settings.auto_hide,
                    old(self).settings.auto_show_delay_ms,
                    now,
                ),
                ..*old(self)
            }),
    {
        self.motion.check_show(self.settings.auto_hide, self.settings.auto_show_delay_ms, now);
    }

    /// Hides the dock at once, whatever the timers say. The host calls this
    /// when something outside, a fullscreen window for one, wants the dock
    /// out of the way.
    pub fn force_hide(&mut self)
        ensures
            *final(self) == (DockApp { motion: old(self).motion.hidden(), ..*old(self) }),
    {
        self.motion.force_hide();
    }
}

} // verus!
