//! The interaction state machine: what pointer events do to the session.

use vstd::prelude::*;
use crate::config::DockItem;
use crate::dock::{DockApp, PointerState, OFF_SURFACE};
use crate::drag::{moved, moves, reorder};
use crate::fixed::distance;

verus! {

/// How far the pointer must travel with the button held, in pixels,
/// before a press becomes a drag.
pub const DRAG_THRESHOLD: i32 = 5;

/// Something the pointer did on the surface. Coordinates are in pixels
/// from the surface's upper left corner.
#[derive(Debug, Clone, Copy, PartialEq, Eq, Structural)]
pub enum PointerEvent {
    /// The pointer moved to a point of the surface.
    Moved { x: i32, y: i32 },
    /// The pointer left the surface.
    Left,
    /// The primary button went down.
    PrimaryPressed,
    /// The primary button came up.
    PrimaryReleased,
    /// The secondary button went down, with the pointer at the point given.
    SecondaryPressed { x: i32, y: i32 },
}

/// What the host is to do after an event.
#[derive(Debug, Clone, Copy, PartialEq, Eq, Structural)]
pub enum Intent {
    /// Nothing.
    Nothing,
    /// Show the name of the item at `index` near the surface column `x`.
    ShowTooltip { index: usize, x: i32 },
    /// Take the tooltip away.
    HideTooltip,
    /// Activate the item at `index`.
    Launch { index: usize },
    /// The order of the items changed: write the settings and read them again.
    PersistAndReload,
    /// Open the context menu for the item hit, if any.
    OpenContextMenu { hit: Option<usize>, locked: bool, is_separator: bool, is_recycle_bin: bool },
}

impl DockApp {
    /// What is under the point `(x, y)` of the surface; nothing while
    /// there is no renderer.
    pub open spec fn under(&self, x: int, y: int) -> Option<usize> {
        match self.renderer {
            Some(r) => r.hit_at(self.items@, x, y),
            None => None,
        }
    }

    /// Where an item dragged to the pointer's column would be dropped;
    /// position 0 while there is no renderer.
    pub open spec fn drop_target(&self) -> int {
        match self.renderer {
            Some(r) => r.drop_index(self.items@, self.pointer.cursor_x as int),
            None => 0,
        }
    }

    /// The pointer after it moved to `(x, y)`: it is over the surface; a
    /// press that has travelled more than the threshold sideways, on an
    /// unlocked dock, has become a drag; and unless an item is dragged,
    /// the item under the pointer is the hovered one.
    pub open spec fn pointer_after_move(&self, x: i32, y: i32) -> PointerState {
        let starts = !self.pointer.dragging && self.pointer.drag_start_idx is Some
            && !self.settings.locked && distance(x as int, self.pointer.drag_start_x as int)
            > DRAG_THRESHOLD;
        let dragging = self.pointer.dragging || starts;
        PointerState {
            cursor_in_window: true,
            cursor_x: x,
            cursor_y: y,
            dragging,
            hovered_item: if !dragging && self.renderer is Some {
                self.under(x as int, y as int)
            } else {
                self.pointer.hovered_item
            },
            ..self.pointer
        }
    }

    /// What the tooltip is to do after the pointer moved to column `x`:
    /// show the name of the hovered item if it has one and is no
    /// separator, go away otherwise, and stay as it is during a drag.
    pub open spec fn tooltip_after_move(&self, x: i32, y: i32) -> Intent {
        let p = self.pointer_after_move(x, y);
        if p.dragging || self.renderer is None {
            Intent::Nothing
        } else {
            match p.hovered_item {
                Some(i) => if !self.items@[i as int].separates() && self.items@[i as int].name@.len()
                    > 0 {
                    Intent::ShowTooltip { index: i, x }
                } else {
                    Intent::HideTooltip
                },
                None => Intent::HideTooltip,
            }
        }
    }

    /// The pointer after it left the surface: off the surface, hovering
    /// over nothing, and any press or drag forgotten.
    pub open spec fn pointer_after_leave(&self) -> PointerState {
        PointerState {
            cursor_in_window: false,
            cursor_x: OFF_SURFACE,
            cursor_y: OFF_SURFACE,
            hovered_item: None,
            dragging: false,
            drag_start_idx: None,
            ..self.pointer
        }
    }

    /// The pointer after the primary button went down: on an unlocked
    /// dock the hovered item, if any, is remembered with the pointer's column.
    pub open spec fn pointer_after_press(&self) -> PointerState {
        if !self.settings.locked && self.pointer.hovered_item is Some {
            PointerState {
                drag_start_idx: self.pointer.hovered_item,
                drag_start_x: self.pointer.cursor_x,
                ..self.pointer
            }
        } else {
            self.pointer
        }
    }

    /// What a release of the primary button asks of the host: after a drag
    /// that moved an item, to write and reload; after a plain click on an
    /// item that is no separator, to activate it.
    pub open spec fn intent_after_release(&self) -> Intent {
        if self.pointer.dragging {
            match self.pointer.drag_start_idx {
                Some(from) => if moves(
                    self.items@.len() as int,
                    from as int,
                    self.drop_target(),
                ) {
                    Intent::PersistAndReload
                } else {
                    Intent::Nothing
                },
                None => Intent::Nothing,
            }
        } else if self.pointer.drag_start_idx is Some {
            match self.pointer.hovered_item {
                Some(index) => if index < self.items@.len() && self.items@[index as int].separates() {
                    Intent::Nothing
                } else {
                    Intent::Launch { index }
                },
                None => Intent::Nothing,
            }
        } else {
            Intent::Nothing
        }
    }

    /// The items after a release of the primary button: after a drag, the
    /// dragged item stands at the drop position.
    pub open spec fn items_after_release(&self) -> Seq<DockItem> {
        if self.pointer.dragging && self.pointer.drag_start_idx is Some {
            moved(self.items@, self.pointer.drag_start_idx->0 as int, self.drop_target())
        } else {
            self.items@
        }
    }

    /// The context menu request for a secondary press at `(x, y)`.
    pub open spec fn menu_request(&self, x: i32, y: i32) -> Intent {
        let hit = self.under(x as int, y as int);
        Intent::OpenContextMenu {
            hit,
            locked: self.settings.locked,
            is_separator: hit is Some && self.items@[hit->0 as int].separates(),
            is_recycle_bin: hit is Some && self.items@[hit->0 as int].recycles(),
        }
    }

    /// Whether everything but the pointer, the motion, the items and the
    /// reload request is as in `before`.
    pub open spec fn same_surroundings(&self, before: &DockApp) -> bool {
        &&& self.settings == before.settings
        &&& self.renderer == before.renderer
        &&& self.running_states == before.running_states
        &&& self.icon_scales == before.icon_scales
        &&& self.schedule == before.schedule
        &&& self.screen_width == before.screen_width
        &&& self.screen_height == before.screen_height
        &&& self.last_config_modified == before.last_config_modified
        &&& self.taskbar_hidden == before.taskbar_hidden
        &&& self.fullscreen_active == before.fullscreen_active
    }

    /// Applies a pointer event to the session and says what the host is to
    /// do about it.
    ///
    /// - A move shows the dock, may turn a press into a drag, and updates
    ///   the hovered item and the tooltip.
    /// - Leaving clears hover and drag without moving any item, and arms
    ///   the hide timer if the dock stands at its visible position.
    /// - A primary press on a hovered item of an unlocked dock is
    ///   remembered as the possible start of a drag.
    /// - A primary release ends a drag by moving the item to the drop
    ///   position, and a plain click by activating the item.
    /// - A secondary press cancels any drag and asks for the context menu.
    pub fn window_event(&mut self, event: PointerEvent, now: u64) -> (intent: Intent)
        ensures
            final(self).same_surroundings(old(self)),
            match event {
                PointerEvent::Moved { x, y } => {
                    &&& final(self).pointer == old(self).pointer_after_move(x, y)
                    &&& final(self).motion == old(self).motion.shown()
                    &&& final(self).items == old(self).items
                    &&& final(self).needs_reload == old(self).needs_reload
                    &&& intent == old(self).tooltip_after_move(x, y)
                },
                PointerEvent::Left => {
                    &&& final(self).pointer == old(self).pointer_after_leave()
                    &&& final(self).motion == (if old(self).motion.near_visible() {
                        old(self).motion.hiding_from(old(self).settings.auto_hide, now)
                    } else {
                        old(self).motion
                    })
                    &&& final(self).items == old(self).items
                    &&& final(self).needs_reload == old(self).needs_reload
                    &&& intent == Intent::HideTooltip
                },
                PointerEvent::PrimaryPressed => {
                    &&& final(self).pointer == old(self).pointer_after_press()
                    &&& final(self).motion == old(self).motion
                    &&& final(self).items == old(self).items
                    &&& final(self).needs_reload == old(self).needs_reload
                    &&& intent == Intent::Nothing
                },
                PointerEvent::PrimaryReleased => {
                    &&& final(self).pointer == (PointerState {
                        dragging: false,
                        drag_start_idx: None,
                        ..old(self).pointer
                    })
                    &&& final(self).motion == old(self).motion
                    &&& final(self).items@ == old(self).items_after_release()
                    &&& final(self).needs_reload == (old(self).needs_reload || intent
                        == Intent::PersistAndReload)
                    &&& intent == old(self).intent_after_release()
                },
                PointerEvent::SecondaryPressed { x, y } => {
                    &&& final(self).pointer == (PointerState {
                        dragging: false,
                        drag_start_idx: None,
                        ..old(self).pointer
                    })
                    &&& final(self).motion == old(self).motion
                    &&& final(self).items == old(self).items
                    &&& final(self).needs_reload == old(self).needs_reload
                    &&& intent == old(self).menu_request(x, y)
                },
            },
    {
        match event {
            PointerEvent::Moved { x, y } => self.cursor_moved(x, y),
            PointerEvent::Left => {
                self.pointer.cursor_in_window = false;
                self.pointer.cursor_x = OFF_SURFACE;
                self.pointer.cursor_y = OFF_SURFACE;
                self.pointer.hovered_item = None;
                self.pointer.dragging = false;
                self.pointer.drag_start_idx = None;
                if self.motion.is_near_visible() {
                    self.motion.start_hide(self.settings.auto_hide, now);
                }
                Intent::HideTooltip
            },
            PointerEvent::PrimaryPressed => {
                if !self.settings.locked {
                    match self.pointer.hovered_item {
                        Some(idx) => {
                            self.pointer.drag_start_idx = Some(idx);
                            self.pointer.drag_start_x = self.pointer.cursor_x;
                        },
                        None => {},
                    }
                }
                Intent::Nothing
            },
            PointerEvent::PrimaryReleased => self.primary_released(),
            PointerEvent::SecondaryPressed { x, y } => {
                self.pointer.dragging = false;
                self.pointer.drag_start_idx = None;
                self.handle_right_click(x, y)
            },
        }
    }

    fn cursor_moved(&mut self, x: i32, y: i32) -> (intent: Intent)
        ensures
            *final(self) == (DockApp {
                pointer: old(self).pointer_after_move(x, y),
                motion: old(self).motion.shown(),
                ..*old(self)
            }),
            intent == old(self).tooltip_after_move(x, y),
    {
        self.pointer.cursor_in_window = true;
        self.pointer.cursor_x = x;
        self.pointer.cursor_y = y;
        self.motion.show_dock();
        if !self.pointer.dragging && self.pointer.drag_start_idx.is_some()
            && !self.settings.locked {
            let dx: i64 = x as i64 - self.pointer.drag_start_x as i64;
            if dx > DRAG_THRESHOLD as i64 || dx < -(DRAG_THRESHOLD as i64) {
                self.pointer.dragging = true;
            }
        }
        if self.pointer.dragging {
            return Intent::Nothing;
        }
        match &self.renderer {
            Some(renderer) => {
                let hovered: Option<usize> = renderer.hit_test(x, y, self.items.as_slice());
                self.pointer.hovered_item = hovered;
                match hovered {
                    Some(idx) => {
                        if !self.items[idx].is_separator() && self.items[idx].name.as_str().unicode_len()
                            > 0 {
                            Intent::ShowTooltip { index: idx, x }
                        } else {
                            Intent::HideTooltip
                        }
                    },
                    None => Intent::HideTooltip,
                }
            },
            None => Intent::Nothing,
        }
    }

    /// Where an item dragged to the pointer's column would be dropped.
    pub fn get_drop_index(&self) -> (r: usize)
        ensures
            r == self.drop_target(),
            r <= self.items@.len(),
    {
        match &self.renderer {
            Some(renderer) => renderer.get_drop_index(self.pointer.cursor_x, self.items.as_slice()),
            None => 0,
        }
    }

    fn primary_released(&mut self) -> (intent: Intent)
        ensures
            final(self).same_surroundings(old(self)),
            final(self).pointer == (PointerState {
                dragging: false,
                drag_start_idx: None,
                ..old(self).pointer
            }),
            final(self).motion == old(self).motion,
            final(self).items@ == old(self).items_after_release(),
            final(self).needs_reload == (old(self).needs_reload || intent
                == Intent::PersistAndReload),
            intent == old(self).intent_after_release(),
    {
        let mut intent: Intent = Intent::Nothing;
        if self.pointer.dragging {
            match self.pointer.drag_start_idx {
                Some(from) => {
                    let to: usize = self.get_drop_index();
                    if reorder(&mut self.items, from, to) {
                        self.needs_reload = true;
                        intent = Intent::PersistAndReload;
                    }
                },
                None => {},
            }
            self.pointer.dragging = false;
            self.pointer.drag_start_idx = None;
        } else if self.pointer.drag_start_idx.is_some() {
            match self.pointer.hovered_item {
                Some(index) => {
                    let separator: bool = index < self.items.len()
                        && self.items[index].is_separator();
                    if !separator {
                        intent = Intent::Launch { index };
                    }
                },
                None => {},
            }
            self.pointer.drag_start_idx = None;
        }
        intent
    }

    /// The context menu request for a secondary press at the point
    /// `(x, y)` of the surface: the item hit, whether the dock is locked,
    /// and whether the item is a separator or the recycle bin.
    pub fn handle_right_click(&self, x: i32, y: i32) -> (intent: Intent)
        ensures
            intent == self.menu_request(x, y),
    {
        let hit: Option<usize> = match &self.renderer {
            Some(renderer) => renderer.hit_test(x, y, self.items.as_slice()),
            None => None,
        };
        let (is_separator, is_recycle_bin) = match hit {
            Some(i) => (self.items[i].is_separator(), self.items[i].is_recycle_bin()),
            None => (false, false),
        };
        Intent::OpenContextMenu { hit, locked: self.settings.locked, is_separator, is_recycle_bin }
    }
}

} // verus!
