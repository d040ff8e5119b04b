//! The compositor: one whole frame of the dock.

use vstd::prelude::*;
use crate::config::DockItem;
use crate::draw::glow_radius;
use crate::fixed::{floor_div, pixel_of, to_pixel, whole};
use crate::layout::{item_of_slot, scale_at, slot_count, DragState, Layout, LayoutSlot, MAX_ITEMS};
use crate::paint::{drawn, lemma_drawn_len, Ink};
use crate::renderer::{icon_resolution, Renderer};

verus! {

/// A number held to the range of `u32`.
pub open spec fn held_u32(v: int) -> u32 {
    if v > u32::MAX as int {
        u32::MAX
    } else if v < 0 {
        0
    } else {
        v as u32
    }
}

/// How strongly an icon at the scale given glows: twice what the scale
/// exceeds 1 by, all in fixed point.
pub open spec fn glow_intensity(scale: int) -> u32 {
    held_u32(2 * (scale - 65536))
}

/// Whether an icon at the scale given glows: it is more than a twentieth
/// larger than at rest.
pub open spec fn glows(scale: int) -> bool {
    scale * 100 > 105 * 65536
}

impl Renderer {
    /// The side of the icon of an item at the scale given, in pixels.
    pub open spec fn icon_side(&self, scale: int) -> u32 {
        pixel_of(self.icon_size as int * scale) as u32
    }

    /// The row of the upper edge of an icon at the scale given: icons rise
    /// by one and a half times what they grow, but never above row 2.
    pub open spec fn icon_top(&self, scale: int) -> u32 {
        let risen = whole(self.padding.top as int) - (scale - 65536) * self.icon_size * 3 / 2;
        pixel_of(if risen < 131072 {
            131072int
        } else {
            risen
        }) as u32
    }

    /// The row of the running indicators: five rows above the lower edge
    /// of the surface, and as much higher as the dock is pushed into the
    /// screen edge, but never above the lower edge of the icons.
    pub open spec fn indicator_row(&self) -> int {
        if self.negative_vertical_offset > 0 {
            let raised = self.height - 5 - self.negative_vertical_offset;
            if raised < self.padding.top + self.icon_size {
                self.padding.top + self.icon_size
            } else {
                raised
            }
        } else {
            self.height - 5
        }
    }

    /// Whether the icon of the item is in the cache.
    pub open spec fn has_icon(&self, item: DockItem) -> bool {
        item.icon matches Some(path) && self.icons@.contains_key(path@)
    }

    /// The ink of the cached icon of an item, scaled to `size`.
    pub open spec fn icon_ink(&self, item: DockItem, size: u32) -> Ink {
        Ink::Icon {
            pixels: self.icons@[item.icon->0@],
            src: held_u32(icon_resolution(self.icon_size as int)),
            dst: size,
            smooth: true,
        }
    }

    /// The ink of the reflection of the cached icon of an item.
    pub open spec fn reflection_ink(&self, item: DockItem, size: u32) -> Ink {
        Ink::Reflection {
            pixels: self.icons@[item.icon->0@],
            src: held_u32(icon_resolution(self.icon_size as int)),
            dst: size,
            smooth: true,
        }
    }

    /// The surface with one item painted into its slot at column `x`: a
    /// separator as a line; any other item as its icon, or as a placeholder
    /// where it has none in the cache, over a glow if it is magnified. An
    /// item that runs gets the running indicator below it.
    pub open spec fn item_painted(
        &self,
        buf: Seq<u32>,
        item: DockItem,
        runs: bool,
        scale: int,
        x: int,
    ) -> Seq<u32> {
        let w = self.width as int;
        let size = self.icon_side(scale);
        let y = self.icon_top(scale) as int;
        if item.separates() {
            self.with_separator(buf, w, x, self.padding.top as int, self.icon_size)
        } else {
            let lit = if glows(scale) {
                drawn(
                    buf,
                    w,
                    x + size / 2 - glow_radius(size),
                    y + size / 2 - glow_radius(size),
                    self.glow_ink(size, glow_intensity(scale)),
                )
            } else {
                buf
            };
            let shown = if self.has_icon(item) {
                drawn(lit, w, x, y, self.icon_ink(item, size))
            } else {
                drawn(lit, w, x, y, Ink::Placeholder { size, color: self.placeholder_pixel() })
            };
            if runs {
                self.with_indicator(shown, w, x + size / 2, self.indicator_row())
            } else {
                shown
            }
        }
    }

    /// Whether item `i` is marked as running.
    pub open spec fn marked(running: Seq<bool>, i: int) -> bool {
        0 <= i < running.len() && running[i]
    }

    /// The surface with the slot `s` of the row painted: the drop mark
    /// first where the gap stands before this slot, then the item.
    pub open spec fn slot_painted(
        &self,
        buf: Seq<u32>,
        items: Seq<DockItem>,
        running: Seq<bool>,
        scales: Seq<u32>,
        drag: Option<DragState>,
        s: int,
    ) -> Seq<u32> {
        let i = item_of_slot(drag, s);
        let marked = match self.drop_gap(items, scales, drag) {
            Some((position, x)) => if position == s {
                drawn(
                    buf,
                    self.width as int,
                    pixel_of(x),
                    self.padding.top as int,
                    self.drop_ink(self.icon_size),
                )
            } else {
                buf
            },
            None => buf,
        };
        self.item_painted(
            marked,
            items[i],
            Self::marked(running, i),
            scale_at(scales, i),
            pixel_of(self.slot_x(items, scales, drag, i)),
        )
    }

    /// The surface with the first `count` slots of the row painted.
    pub open spec fn row_painted(
        &self,
        buf: Seq<u32>,
        items: Seq<DockItem>,
        running: Seq<bool>,
        scales: Seq<u32>,
        drag: Option<DragState>,
        count: int,
    ) -> Seq<u32>
        decreases count,
    {
        if count <= 0 {
            buf
        } else {
            self.slot_painted(
                self.row_painted(buf, items, running, scales, drag, count - 1),
                items,
                running,
                scales,
                drag,
                count - 1,
            )
        }
    }

    /// The surface with the drop mark after the last slot, where the gap
    /// stands there.
    pub open spec fn end_mark_painted(
        &self,
        buf: Seq<u32>,
        items: Seq<DockItem>,
        scales: Seq<u32>,
        drag: Option<DragState>,
    ) -> Seq<u32> {
        match self.drop_gap(items, scales, drag) {
            Some((position, x)) => if position == slot_count(drag, items.len() as int) {
                drawn(
                    buf,
                    self.width as int,
                    pixel_of(x),
                    self.padding.top as int,
                    self.drop_ink(self.icon_size),
                )
            } else {
                buf
            },
            None => buf,
        }
    }

    /// The surface with the reflection of the item in slot `s`, if the
    /// item shows an icon from the cache: two rows below the icon.
    pub open spec fn reflection_painted(
        &self,
        buf: Seq<u32>,
        items: Seq<DockItem>,
        scales: Seq<u32>,
        drag: Option<DragState>,
        s: int,
    ) -> Seq<u32> {
        let i = item_of_slot(drag, s);
        let scale = scale_at(scales, i);
        let size = self.icon_side(scale);
        if !items[i].separates() && self.has_icon(items[i]) {
            drawn(
                buf,
                self.width as int,
                pixel_of(self.slot_x(items, scales, drag, i)),
                self.icon_top(scale) + size + 2,
                self.reflection_ink(items[i], size),
            )
        } else {
            buf
        }
    }

    /// The surface with the reflections of the first `count` slots.
    pub open spec fn reflections_painted(
        &self,
        buf: Seq<u32>,
        items: Seq<DockItem>,
        scales: Seq<u32>,
        drag: Option<DragState>,
        count: int,
    ) -> Seq<u32>
        decreases count,
    {
        if count <= 0 {
            buf
        } else {
            self.reflection_painted(
                self.reflections_painted(buf, items, scales, drag, count - 1),
                items,
                scales,
                drag,
                count - 1,
            )
        }
    }

    /// The surface with the dragged item under the pointer: its icon at
    /// rest size, centred on the pointer's column, in the row of the icons.
    /// A separator, or an item without an icon in the cache, is not shown.
    pub open spec fn dragged_painted(
        &self,
        buf: Seq<u32>,
        items: Seq<DockItem>,
        drag: Option<DragState>,
    ) -> Seq<u32> {
        match drag {
            Some(d) => if d.from < items.len() && !items[d.from as int].separates()
                && self.has_icon(items[d.from as int]) {
                let left = whole(d.cursor_x as int) - self.icon_size * 32768;
                drawn(
                    buf,
                    self.width as int,
                    pixel_of(
                        if left < 0 {
                            0
                        } else {
                            left
                        },
                    ),
                    self.padding.top as int,
                    self.icon_ink(items[d.from as int], self.icon_size),
                )
            } else {
                buf
            },
            None => buf,
        }
    }

    /// One whole frame in a buffer of `len` pixels. Back to front: the
    /// background on a cleared buffer; the row, slot by slot from the
    /// left; the drop mark behind the row, if it belongs there; the
    /// reflections; the dragged item.
    pub open spec fn rendered(
        &self,
        len: nat,
        items: Seq<DockItem>,
        running: Seq<bool>,
        scales: Seq<u32>,
        drag: Option<DragState>,
    ) -> Seq<u32> {
        let cleared = Seq::new(len, |i: int| 0u32);
        let backed = drawn(
            cleared,
            self.width as int,
            0,
            0,
            self.background_ink(self.width, self.height),
        );
        let count = slot_count(drag, items.len() as int);
        let row = self.row_painted(backed, items, running, scales, drag, count);
        let ended = self.end_mark_painted(row, items, scales, drag);
        let mirrored = self.reflections_painted(ended, items, scales, drag, count);
        self.dragged_painted(mirrored, items, drag)
    }
}

impl Renderer {
    proof fn lemma_item_painted_len(
        &self,
        buf: Seq<u32>,
        item: DockItem,
        runs: bool,
        scale: int,
        x: int,
    )
        ensures
            self.item_painted(buf, item, runs, scale, x).len() == buf.len(),
    {
        assert forall|b: Seq<u32>, w: int, ox: int, oy: int, ink: Ink| #[trigger]
            drawn(b, w, ox, oy, ink).len() == b.len() by {
            lemma_drawn_len(b, w, ox, oy, ink);
        }
    }

    proof fn lemma_row_painted_len(
        &self,
        buf: Seq<u32>,
        items: Seq<DockItem>,
        running: Seq<bool>,
        scales: Seq<u32>,
        drag: Option<DragState>,
        count: int,
    )
        ensures
            self.row_painted(buf, items, running, scales, drag, count).len() == buf.len(),
        decreases count,
    {
        if count > 0 {
            self.lemma_row_painted_len(buf, items, running, scales, drag, count - 1);
            let before = self.row_painted(buf, items, running, scales, drag, count - 1);
            let i = item_of_slot(drag, count - 1);
            assert forall|b: Seq<u32>, w: int, ox: int, oy: int, ink: Ink| #[trigger]
                drawn(b, w, ox, oy, ink).len() == b.len() by {
                lemma_drawn_len(b, w, ox, oy, ink);
            }
            assert forall|b: Seq<u32>| #[trigger]
                self.item_painted(
                    b,
                    items[i],
                    Self::marked(running, i),
                    scale_at(scales, i),
                    pixel_of(self.slot_x(items, scales, drag, i)),
                ).len() == b.len() by {
                self.lemma_item_painted_len(
                    b,
                    items[i],
                    Self::marked(running, i),
                    scale_at(scales, i),
                    pixel_of(self.slot_x(items, scales, drag, i)),
                );
            }
        }
    }

    proof fn lemma_reflections_painted_len(
        &self,
        buf: Seq<u32>,
        items: Seq<DockItem>,
        scales: Seq<u32>,
        drag: Option<DragState>,
        count: int,
    )
        ensures
            self.reflections_painted(buf, items, scales, drag, count).len() == buf.len(),
        decreases count,
    {
        if count > 0 {
            self.lemma_reflections_painted_len(buf, items, scales, drag, count - 1);
            assert forall|b: Seq<u32>, w: int, ox: int, oy: int, ink: Ink| #[trigger]
                drawn(b, w, ox, oy, ink).len() == b.len() by {
                lemma_drawn_len(b, w, ox, oy, ink);
            }
        }
    }

    /// A frame is as large as the buffer it is painted into, and depends
    /// on nothing that the buffer held before.
    pub proof fn lemma_rendered_len(
        &self,
        len: nat,
        items: Seq<DockItem>,
        running: Seq<bool>,
        scales: Seq<u32>,
        drag: Option<DragState>,
    )
        ensures
            self.rendered(len, items, running, scales, drag).len() == len,
    {
        let cleared = Seq::new(len, |i: int| 0u32);
        let backed = drawn(
            cleared,
            self.width as int,
            0,
            0,
            self.background_ink(self.width, self.height),
        );
        let count = slot_count(drag, items.len() as int);
        let row = self.row_painted(backed, items, running, scales, drag, count);
        let ended = self.end_mark_painted(row, items, scales, drag);
        assert forall|b: Seq<u32>, w: int, ox: int, oy: int, ink: Ink| #[trigger]
            drawn(b, w, ox, oy, ink).len() == b.len() by {
            lemma_drawn_len(b, w, ox, oy, ink);
        }
        self.lemma_row_painted_len(backed, items, running, scales, drag, count);
        self.lemma_reflections_painted_len(ended, items, scales, drag, count);
    }

    /// A frame is a function of the inputs: two frames painted for the
    /// same items, flags, scales and drag into buffers of one length are
    /// the same, whatever the buffers held before.
    pub proof fn lemma_frames_agree(
        &self,
        items: Seq<DockItem>,
        running: Seq<bool>,
        scales: Seq<u32>,
        drag: Option<DragState>,
        before1: Seq<u32>,
        before2: Seq<u32>,
        after1: Seq<u32>,
        after2: Seq<u32>,
    )
        requires
            before1.len() == before2.len(),
            after1 == self.rendered(before1.len(), items, running, scales, drag),
            after2 == self.rendered(before2.len(), items, running, scales, drag),
        ensures
            after1 == after2,
    {
    }

    fn icon_side_of(&self, scale: u32) -> (size: u32)
        ensures
            size == self.icon_side(scale as int),
    {
        assert(0 <= self.icon_size * scale <= 0xffff_ffff * 0xffff_ffff) by (nonlinear_arith)
            requires
                0 <= self.icon_size <= 0xffff_ffff,
                0 <= scale <= 0xffff_ffff,
        ;
        to_pixel(self.icon_size as i128 * scale as i128)
    }

    fn icon_top_of(&self, scale: u32) -> (y: u32)
        ensures
            y == self.icon_top(scale as int),
    {
        let grown: i128 = scale as i128 - 65536;
        proof {
            crate::fixed::lemma_mul_bound(
                grown as int,
                0xffff_ffff,
                self.icon_size as int,
                0xffff_ffff,
            );
        }
        let lift: i128 = floor_div(grown * self.icon_size as i128 * 3, 2);
        let risen: i128 = self.padding.top as i128 * 65536 - lift;
        to_pixel(if risen < 131072 {
            131072
        } else {
            risen
        })
    }

    fn indicator_row_of(&self) -> (y: i64)
        ensures
            y == self.indicator_row(),
    {
        if self.negative_vertical_offset > 0 {
            let raised: i64 = self.height as i64 - 5 - self.negative_vertical_offset as i64;
            let floor: i64 = self.padding.top as i64 + self.icon_size as i64;
            if raised < floor {
                floor
            } else {
                raised
            }
        } else {
            self.height as i64 - 5
        }
    }

    fn source_side(&self) -> (side: u32)
        ensures
            side == held_u32(icon_resolution(self.icon_size as int)),
    {
        let side: u64 = self.source_size();
        if side > 0xffff_ffff {
            0xffff_ffff
        } else {
            side as u32
        }
    }

    fn paint_item(
        &self,
        buffer: &mut [u32],
        item: &DockItem,
        runs: bool,
        scale: u32,
        x: u32,
    )
        ensures
            final(buffer)@ == self.item_painted(old(buffer)@, *item, runs, scale as int, x as int),
    {
        let w: usize = self.width as usize;
        let size: u32 = self.icon_side_of(scale);
        let y: u32 = self.icon_top_of(scale);
        if item.is_separator() {
            self.draw_separator(buffer, w, x as i64, self.padding.top as i64, self.icon_size);
            return ;
        }
        if scale as u64 * 100 > 105 * 65536 {
            let twice: u64 = 2 * (scale as u64 - 65536);
            let intensity: u32 = if twice > 0xffff_ffff {
                0xffff_ffff
            } else {
                twice as u32
            };
            self.draw_glow_scaled(
                buffer,
                w,
                x as i64 + (size / 2) as i64,
                y as i64 + (size / 2) as i64,
                size,
                intensity,
            );
        }
        match &item.icon {
            Some(path) => {
                match self.icons.get(path.as_str()) {
                    Some(pixels) => {
                        self.draw_icon_bicubic(
                            buffer,
                            w,
                            pixels.as_slice(),
                            self.source_side(),
                            x as i64,
                            y as i64,
                            size,
                        );
                    },
                    None => {
                        self.draw_placeholder(buffer, w, x as i64, y as i64, size);
                    },
                }
            },
            None => {
                self.draw_placeholder(buffer, w, x as i64, y as i64, size);
            },
        }
        if runs {
            self.draw_indicator_glow(
                buffer,
                w,
                x as i64 + (size / 2) as i64,
                self.indicator_row_of(),
            );
        }
    }

    fn paint_slot(
        &self,
        buffer: &mut [u32],
        items: &[DockItem],
        running: &[bool],
        scales: &[u32],
        drag: Option<DragState>,
        layout: &Layout,
        s: usize,
    )
        requires
            self.lays_out(items@, scales@, drag, *layout),
            s < layout.slots@.len(),
            items@.len() <= MAX_ITEMS,
        ensures
            final(buffer)@ == self.slot_painted(
                old(buffer)@,
                items@,
                running@,
                scales@,
                drag,
                s as int,
            ),
    {
        let slot: LayoutSlot = layout.slots[s];
        let i: usize = slot.index;
        assert(i == item_of_slot(drag, s as int));
        assert(i < items@.len());
        match layout.gap {
            Some(g) => {
                if g.position == s {
                    self.draw_drop_indicator(
                        buffer,
                        self.width as usize,
                        to_pixel(g.x) as i64,
                        self.padding.top as i64,
                        self.icon_size,
                    );
                }
            },
            None => {},
        }
        let scale: u32 = if i < scales.len() {
            scales[i]
        } else {
            65536
        };
        let runs: bool = i < running.len() && running[i];
        self.paint_item(buffer, &items[i], runs, scale, to_pixel(slot.x));
    }

    fn paint_reflection(
        &self,
        buffer: &mut [u32],
        items: &[DockItem],
        scales: &[u32],
        drag: Option<DragState>,
        layout: &Layout,
        s: usize,
    )
        requires
            self.lays_out(items@, scales@, drag, *layout),
            s < layout.slots@.len(),
            items@.len() <= MAX_ITEMS,
        ensures
            final(buffer)@ == self.reflection_painted(
                old(buffer)@,
                items@,
                scales@,
                drag,
                s as int,
            ),
    {
        let slot: LayoutSlot = layout.slots[s];
        let i: usize = slot.index;
        assert(i == item_of_slot(drag, s as int));
        assert(i < items@.len());
        if items[i].is_separator() {
            return ;
        }
        let scale: u32 = if i < scales.len() {
            scales[i]
        } else {
            65536
        };
        match &items[i].icon {
            Some(path) => {
                match self.icons.get(path.as_str()) {
                    Some(pixels) => {
                        let size: u32 = self.icon_side_of(scale);
                        let y: u32 = self.icon_top_of(scale);
                        self.draw_reflection_bicubic(
                            buffer,
                            self.width as usize,
                            pixels.as_slice(),
                            self.source_side(),
                            to_pixel(slot.x) as i64,
                            y as i64 + size as i64 + 2,
                            size,
                        );
                    },
                    None => {},
                }
            },
            None => {},
        }
    }

    fn paint_dragged(&self, buffer: &mut [u32], items: &[DockItem], drag: Option<DragState>)
        ensures
            final(buffer)@ == self.dragged_painted(old(buffer)@, items@, drag),
    {
        let d: DragState = match drag {
            Some(d) => d,
            None => {
                return ;
            },
        };
        if d.from >= items.len() || items[d.from].is_separator() {
            return ;
        }
        match &items[d.from].icon {
            Some(path) => {
                match self.icons.get(path.as_str()) {
                    Some(pixels) => {
                        let left: i128 = d.cursor_x as i128 * 65536 - self.icon_size as i128
                            * 32768;
                        let x: u32 = to_pixel(if left < 0 {
                            0
                        } else {
                            left
                        });
                        self.draw_icon_bicubic(
                            buffer,
                            self.width as usize,
                            pixels.as_slice(),
                            self.source_side(),
                            x as i64,
                            self.padding.top as i64,
                            self.icon_size,
                        );
                    },
                    None => {},
                }
            },
            None => {},
        }
    }

    /// Paints one whole frame into the buffer, over whatever it held.
    /// `running` says which items run, `scales` how large each item is,
    /// and `drag_state` which item is being dragged, if any.
    pub fn render(
        &self,
        buffer: &mut [u32],
        items: &[DockItem],
        running: &[bool],
        _hovered: Option<usize>,
        scales: &[u32],
        drag_state: Option<DragState>,
    )
        requires
            items@.len() <= MAX_ITEMS,
        ensures
            final(buffer)@ == self.rendered(
                old(buffer)@.len(),
                items@,
                running@,
                scales@,
                drag_state,
            ),
            final(buffer)@.len() == old(buffer)@.len(),
    {
        proof {
            self.lemma_rendered_len(old(buffer)@.len(), items@, running@, scales@, drag_state);
        }
        clear(buffer);
        self.draw_background(buffer, self.width, self.height);
        let layout: Layout = self.compute_layout(items, scales, drag_state);
        let count: usize = layout.slots.len();
        let ghost backed = buffer@;
        let mut s: usize = 0;
        while s < count
            invariant
                s <= count,
                count == layout.slots@.len(),
                items@.len() <= MAX_ITEMS,
                self.lays_out(items@, scales@, drag_state, layout),
                buffer@ == self.row_painted(
                    backed,
                    items@,
                    running@,
                    scales@,
                    drag_state,
                    s as int,
                ),
            decreases count - s,
        {
            self.paint_slot(buffer, items, running, scales, drag_state, &layout, s);
            s += 1;
        }
        match layout.gap {
            Some(g) => {
                if g.position == count {
                    self.draw_drop_indicator(
                        buffer,
                        self.width as usize,
                        to_pixel(g.x) as i64,
                        self.padding.top as i64,
                        self.icon_size,
                    );
                }
            },
            None => {},
        }
        let ghost ended = buffer@;
        s = 0;
        while s < count
            invariant
                s <= count,
                count == layout.slots@.len(),
                items@.len() <= MAX_ITEMS,
                self.lays_out(items@, scales@, drag_state, layout),
                buffer@ == self.reflections_painted(ended, items@, scales@, drag_state, s as int),
            decreases count - s,
        {
            self.paint_reflection(buffer, items, scales, drag_state, &layout, s);
            s += 1;
        }
        self.paint_dragged(buffer, items, drag_state);
    }
}

/// Sets every pixel of the buffer to transparent black.
pub fn clear(buffer: &mut [u32])
    ensures
        final(buffer)@ == Seq::new(old(buffer)@.len(), |i: int| 0u32),
{
    let n: usize = buffer.len();
    let mut i: usize = 0;
    while i < n
        invariant
            i <= n,
            n == buffer@.len(),
            n == old(buffer)@.len(),
            forall|k: int| 0 <= k < i ==> buffer@[k] == 0,
        decreases n - i,
    {
        buffer[i] = 0;
        i += 1;
    }
    assert(buffer@ =~= Seq::new(old(buffer)@.len(), |i: int| 0u32));
}

} // verus!
