//! The layout engine: where each item of the row stands, how wide the row
//! is, and which item a point falls on.
//!
//! All positions and widths are in 16.16 fixed point, held in `i128`.

use vstd::prelude::*;
use crate::config::DockItem;
use crate::fixed::{floor_div, whole};
use crate::renderer::Renderer;

verus! {

/// The longest item list that a row is laid out for.
pub const MAX_ITEMS: usize = 0xffff_ffff;

/// A drag in progress: the item at `from` is held at `cursor_x` and would
/// be dropped at position `to`.
#[derive(Debug, Clone, Copy, PartialEq, Eq)]
pub struct DragState {
    pub from: usize,
    pub to: usize,
    pub cursor_x: i32,
}

/// The place of one item in the row.
#[derive(Debug, Clone, Copy, PartialEq, Eq)]
pub struct LayoutSlot {
    /// The item's index in the list.
    pub index: usize,
    /// The left edge.
    pub x: i128,
    /// The width.
    pub width: i128,
    pub is_separator: bool,
}

/// The gap kept open where a dragged item would be dropped.
#[derive(Debug, Clone, Copy, PartialEq, Eq)]
pub struct DropGap {
    /// How many slots stand to the left of the gap.
    pub position: usize,
    /// The left edge.
    pub x: i128,
}

/// A laid-out row.
#[derive(Debug, Clone)]
pub struct Layout {
    /// The width of the whole row.
    pub total_width: i128,
    /// The left edge of the row, which centres it in the surface.
    pub start_x: i128,
    /// One slot for each item that is not being dragged, left to right.
    pub slots: Vec<LayoutSlot>,
    pub gap: Option<DropGap>,
}

/// The scale of item `i`: 1 where the list of scales has no entry for it.
pub open spec fn scale_at(scales: Seq<u32>, i: int) -> int {
    if 0 <= i < scales.len() {
        scales[i] as int
    } else {
        65536
    }
}

/// Whether item `i` is the one being dragged.
pub open spec fn is_dragged(drag: Option<DragState>, i: int) -> bool {
    drag matches Some(d) && d.from == i
}

/// How many of the items before `i` are not being dragged.
pub open spec fn placed_before(drag: Option<DragState>, i: int) -> int {
    match drag {
        Some(d) => if d.from < i {
            i - 1
        } else {
            i
        },
        None => i,
    }
}

/// The item that stands in slot `s`.
pub open spec fn item_of_slot(drag: Option<DragState>, s: int) -> int {
    match drag {
        Some(d) => if d.from <= s {
            s + 1
        } else {
            s
        },
        None => s,
    }
}

/// How many slots a row of `n` items has.
pub open spec fn slot_count(drag: Option<DragState>, n: int) -> int {
    placed_before(drag, n)
}

/// Whether the drop gap lies to the left of item `i`.
pub open spec fn gap_before(drag: Option<DragState>, i: int) -> bool {
    drag matches Some(d) && d.to != d.from && d.to <= placed_before(drag, i)
}

/// The sum of the widths of a run of slots.
pub open spec fn slots_width(slots: Seq<LayoutSlot>) -> int
    decreases slots.len(),
{
    if slots.len() == 0 {
        0
    } else {
        slots_width(slots.drop_last()) + slots.last().width
    }
}

impl Renderer {
    /// The space between neighbours, in fixed point.
    pub open spec fn gap_width(&self) -> int {
        whole(self.spacing.x as int)
    }

    /// The width of an item at a scale: the icon size times the scale, or
    /// a third of the icon size for a separator.
    pub open spec fn item_width(&self, item: DockItem, scale: int) -> int {
        if item.separates() {
            whole(self.icon_size as int / 3)
        } else {
            self.icon_size as int * scale
        }
    }

    /// The width of item `i` of the list.
    pub open spec fn width_at(&self, items: Seq<DockItem>, scales: Seq<u32>, i: int) -> int {
        self.item_width(items[i], scale_at(scales, i))
    }

    /// The widths of the first `k` items that are not dragged, each with
    /// the space that follows it.
    pub open spec fn advance(
        &self,
        items: Seq<DockItem>,
        scales: Seq<u32>,
        drag: Option<DragState>,
        k: int,
    ) -> int
        decreases k,
    {
        if k <= 0 {
            0
        } else if is_dragged(drag, k - 1) {
            self.advance(items, scales, drag, k - 1)
        } else {
            self.advance(items, scales, drag, k - 1) + self.width_at(items, scales, k - 1)
                + self.gap_width()
        }
    }

    /// The width of the whole row: the widths of the items that are not
    /// dragged, one space between each two neighbours of them, and during
    /// a drag one space more, for the gap.
    pub open spec fn total_width(
        &self,
        items: Seq<DockItem>,
        scales: Seq<u32>,
        drag: Option<DragState>,
    ) -> int {
        self.advance(items, scales, drag, items.len() as int) - (if slot_count(
            drag,
            items.len() as int,
        ) > 0 {
            self.gap_width()
        } else {
            0
        }) + (if drag is Some {
            self.gap_width()
        } else {
            0
        })
    }

    /// The left edge of the row: half of what the surface has left over.
    pub open spec fn start_x(
        &self,
        items: Seq<DockItem>,
        scales: Seq<u32>,
        drag: Option<DragState>,
    ) -> int {
        (whole(self.width as int) - self.total_width(items, scales, drag)) / 2
    }

    /// The left edge of item `i`.
    pub open spec fn slot_x(
        &self,
        items: Seq<DockItem>,
        scales: Seq<u32>,
        drag: Option<DragState>,
        i: int,
    ) -> int {
        self.start_x(items, scales, drag) + self.advance(items, scales, drag, i) + (if gap_before(
            drag,
            i,
        ) {
            self.gap_width()
        } else {
            0
        })
    }

    /// The drop gap of the row, as its position and left edge. It stands
    /// before the slot at the drop position, or after the last slot where
    /// the drop position is at or beyond the end. Dropping an item where it
    /// came from opens no gap.
    pub open spec fn drop_gap(
        &self,
        items: Seq<DockItem>,
        scales: Seq<u32>,
        drag: Option<DragState>,
    ) -> Option<(int, int)> {
        match drag {
            None => None,
            Some(d) => {
                let count = slot_count(drag, items.len() as int);
                if d.to >= count {
                    Some(
                        (
                            count,
                            self.start_x(items, scales, drag) + self.advance(
                                items,
                                scales,
                                drag,
                                items.len() as int,
                            ),
                        ),
                    )
                } else if d.to != d.from {
                    Some(
                        (
                            d.to as int,
                            self.start_x(items, scales, drag) + self.advance(
                                items,
                                scales,
                                drag,
                                item_of_slot(drag, d.to as int),
                            ),
                        ),
                    )
                } else {
                    None
                }
            },
        }
    }

    /// Whether `layout` is the layout of the row.
    pub open spec fn lays_out(
        &self,
        items: Seq<DockItem>,
        scales: Seq<u32>,
        drag: Option<DragState>,
        layout: Layout,
    ) -> bool {
        &&& layout.total_width == self.total_width(items, scales, drag)
        &&& layout.start_x == self.start_x(items, scales, drag)
        &&& layout.slots@.len() == slot_count(drag, items.len() as int)
        &&& forall|s: int|
            0 <= s < layout.slots@.len() ==> {
                let i = item_of_slot(drag, s);
                &&& (#[trigger] layout.slots@[s]).index == i
                &&& layout.slots@[s].x == self.slot_x(items, scales, drag, i)
                &&& layout.slots@[s].width == self.width_at(items, scales, i)
                &&& layout.slots@[s].is_separator == items[i].separates()
            }
        &&& match self.drop_gap(items, scales, drag) {
            Some((position, x)) => layout.gap matches Some(g) && g.position == position && g.x
                == x,
            None => layout.gap is None,
        }
    }

    /// The running sum is bounded by the number of items, and holds a
    /// space for each item placed.
    proof fn lemma_sums_bounded(
        &self,
        items: Seq<DockItem>,
        scales: Seq<u32>,
        drag: Option<DragState>,
        k: int,
    )
        requires
            0 <= k <= items.len(),
        ensures
            placed_before(drag, k) * self.gap_width() <= self.advance(items, scales, drag, k)
                <= k * 0x2_0000_0000_0000_0000,
            0 <= self.advance(items, scales, drag, k),
        decreases k,
    {
        self.lemma_width_bounded(items, scales, k - 1);
        if k > 0 {
            self.lemma_sums_bounded(items, scales, drag, k - 1);
            let g = self.gap_width();
            assert((placed_before(drag, k - 1) + 1) * g == placed_before(drag, k - 1) * g + g)
                by (nonlinear_arith);
        } else {
            assert(0 * self.gap_width() == 0) by (nonlinear_arith);
        }
        assert(0 <= placed_before(drag, k) * self.gap_width()) by (nonlinear_arith)
            requires
                0 <= placed_before(drag, k),
                0 <= self.gap_width(),
        ;
    }

    proof fn lemma_width_bounded(&self, items: Seq<DockItem>, scales: Seq<u32>, i: int)
        ensures
            0 <= self.width_at(items, scales, i) <= 0xffff_ffff * 0xffff_ffff,
            0 <= self.gap_width() <= 0xffff_ffff * 0x1_0000,
    {
        let scale = scale_at(scales, i);
        assert(0 <= self.icon_size as int * scale <= 0xffff_ffff * 0xffff_ffff)
            by (nonlinear_arith)
            requires
                0 <= self.icon_size <= 0xffff_ffff,
                0 <= scale <= 0xffff_ffff,
        ;
    }

    fn width_of(&self, items: &[DockItem], scales: &[u32], i: usize) -> (w: i128)
        requires
            i < items@.len(),
        ensures
            w == self.width_at(items@, scales@, i as int),
    {
        proof {
            self.lemma_width_bounded(items@, scales@, i as int);
        }
        if items[i].is_separator() {
            (self.icon_size / 3) as i128 * 65536
        } else {
            let scale: u32 = if i < scales.len() {
                scales[i]
            } else {
                65536
            };
            self.icon_size as i128 * scale as i128
        }
    }

    /// Lays out the row: the width of the whole, the left edge that centres
    /// it, one slot for each item that is not dragged, and the drop gap.
    pub fn compute_layout(&self, items: &[DockItem], scales: &[u32], drag: Option<DragState>) -> (layout:
        Layout)
        requires
            items@.len() <= MAX_ITEMS,
        ensures
            self.lays_out(items@, scales@, drag, layout),
            slots_width(layout.slots@) + (if layout.slots@.len() > 0 {
                (layout.slots@.len() - 1) * self.gap_width()
            } else {
                0
            }) + (if drag is Some {
                self.gap_width()
            } else {
                0
            }) == layout.total_width,
    {
        let n: usize = items.len();
        let space: i128 = self.spacing.x as i128 * 65536;
        let mut total: i128 = 0;
        let mut i: usize = 0;
        while i < n
            invariant
                n == items@.len(),
                n <= MAX_ITEMS,
                i <= n,
                space == self.gap_width(),
                total == self.advance(items@, scales@, drag, i as int),
            decreases n - i,
        {
            proof {
                self.lemma_sums_bounded(items@, scales@, drag, i as int);
                self.lemma_sums_bounded(items@, scales@, drag, i as int + 1);
            }
            let dragged: bool = match drag {
                Some(d) => d.from == i,
                None => false,
            };
            if !dragged {
                total = total + self.width_of(items, scales, i) + space;
            }
            i += 1;
        }
        proof {
            self.lemma_sums_bounded(items@, scales@, drag, n as int);
        }
        let placed: usize = match drag {
            Some(d) => if d.from < n {
                n - 1
            } else {
                n
            },
            None => n,
        };
        if placed > 0 {
            total = total - space;
        }
        if drag.is_some() {
            total = total + space;
        }
        let start: i128 = floor_div(self.width as i128 * 65536 - total, 2);
        let mut slots: Vec<LayoutSlot> = Vec::new();
        let mut gap: Option<DropGap> = None;
        let mut x: i128 = start;
        let mut shifted: bool = false;
        i = 0;
        while i < n
            invariant
                n == items@.len(),
                n <= MAX_ITEMS,
                i <= n,
                space == self.gap_width(),
                start == self.start_x(items@, scales@, drag),
                x == start + self.advance(items@, scales@, drag, i as int) + (if shifted {
                    space as int
                } else {
                    0
                }),
                slots@.len() == placed_before(drag, i as int),
                shifted == (drag matches Some(d) && d.to != d.from && d.to < slots@.len()),
                forall|s: int|
                    0 <= s < slots@.len() ==> {
                        let k = item_of_slot(drag, s);
                        &&& (#[trigger] slots@[s]).index == k
                        &&& slots@[s].x == self.slot_x(items@, scales@, drag, k)
                        &&& slots@[s].width == self.width_at(items@, scales@, k)
                        &&& slots@[s].is_separator == items@[k].separates()
                    },
                match drag {
                    Some(d) => if d.to != d.from && d.to < slots@.len() {
                        gap matches Some(g) && g.position == d.to && g.x == start + self.advance(
                            items@,
                            scales@,
                            drag,
                            item_of_slot(drag, d.to as int),
                        )
                    } else {
                        gap is None
                    },
                    None => gap is None,
                },
                slots_width(slots@) + slots@.len() * space == self.advance(
                    items@,
                    scales@,
                    drag,
                    i as int,
                ),
            decreases n - i,
        {
            proof {
                self.lemma_sums_bounded(items@, scales@, drag, i as int);
                self.lemma_sums_bounded(items@, scales@, drag, i as int + 1);
                self.lemma_sums_bounded(items@, scales@, drag, n as int);
                assert((slots@.len() + 1) * space == slots@.len() * space + space)
                    by (nonlinear_arith);
            }
            let dragged: bool = match drag {
                Some(d) => d.from == i,
                None => false,
            };
            if !dragged {
                let here: bool = match drag {
                    Some(d) => d.to != d.from && d.to == slots.len(),
                    None => false,
                };
                if here {
                    gap = Some(DropGap { position: slots.len(), x });
                    x = x + space;
                    shifted = true;
                }
                let w: i128 = self.width_of(items, scales, i);
                let ghost before = slots@;
                slots.push(
                    LayoutSlot { index: i, x, width: w, is_separator: items[i].is_separator() },
                );
                proof {
                    assert(slots@.drop_last() =~= before);
                    assert(item_of_slot(drag, before.len() as int) == i);
                }
                x = x + w + space;
            }
            i += 1;
        }
        proof {
            self.lemma_sums_bounded(items@, scales@, drag, n as int);
        }
        match drag {
            Some(d) => {
                if d.to >= slots.len() {
                    gap = Some(DropGap { position: slots.len(), x });
                }
            },
            None => {},
        }
        proof {
            assert(slots@.len() * space == (slots@.len() - 1) * self.gap_width()
                + self.gap_width()) by (nonlinear_arith)
                requires
                    space == self.gap_width(),
            ;
            assert(0 * space == 0) by (nonlinear_arith);
        }
        Layout { total_width: total, start_x: start, slots, gap }
    }

    /// The widths of the first `k` items at their scales, added up.
    pub open spec fn widths_sum(&self, items: Seq<DockItem>, scales: Seq<u32>, k: int) -> int
        decreases k,
    {
        if k <= 0 {
            0
        } else {
            self.widths_sum(items, scales, k - 1) + self.width_at(items, scales, k - 1)
        }
    }

    proof fn lemma_advance_is_widths_and_spaces(
        &self,
        items: Seq<DockItem>,
        scales: Seq<u32>,
        k: int,
    )
        requires
            0 <= k,
        ensures
            self.advance(items, scales, None, k) == self.widths_sum(items, scales, k) + k
                * self.gap_width(),
        decreases k,
    {
        let g = self.gap_width();
        if k > 0 {
            self.lemma_advance_is_widths_and_spaces(items, scales, k - 1);
            assert(k * g == (k - 1) * g + g) by (nonlinear_arith);
        } else {
            assert(0 * g == 0) by (nonlinear_arith);
        }
    }

    /// Without a drag the row adds up: it has one slot for each item, in
    /// the order of the list; the widths of the slots and one space between
    /// each two neighbours make the width of the row; the first slot begins
    /// where the row begins; and each further slot begins one width and one
    /// space after the slot before it.
    pub proof fn lemma_row_adds_up(&self, items: Seq<DockItem>, scales: Seq<u32>)
        requires
            items.len() >= 1,
        ensures
            slot_count(None, items.len() as int) == items.len(),
            forall|s: int| item_of_slot(None, s) == s,
            self.total_width(items, scales, None) == self.widths_sum(
                items,
                scales,
                items.len() as int,
            ) + (items.len() - 1) * self.gap_width(),
            self.slot_x(items, scales, None, 0) == self.start_x(items, scales, None),
            forall|i: int|
                0 <= i ==> #[trigger] self.slot_x(items, scales, None, i + 1) == self.slot_x(
                    items,
                    scales,
                    None,
                    i,
                ) + self.width_at(items, scales, i) + self.gap_width(),
    {
        let n = items.len() as int;
        let g = self.gap_width();
        self.lemma_advance_is_widths_and_spaces(items, scales, n);
        assert(n * g == (n - 1) * g + g) by (nonlinear_arith);
        assert(self.advance(items, scales, None, 0) == 0);
        assert forall|i: int| 0 <= i implies #[trigger] self.slot_x(items, scales, None, i + 1)
            == self.slot_x(items, scales, None, i) + self.width_at(items, scales, i)
            + self.gap_width() by {
            assert(self.advance(items, scales, None, i + 1) == self.advance(
                items,
                scales,
                None,
                i,
            ) + self.width_at(items, scales, i) + self.gap_width());
        }
    }

    /// The layout is a function of its inputs: two layouts of the same row
    /// are the same.
    pub proof fn lemma_layout_unique(
        &self,
        items: Seq<DockItem>,
        scales: Seq<u32>,
        drag: Option<DragState>,
        a: Layout,
        b: Layout,
    )
        requires
            self.lays_out(items, scales, drag, a),
            self.lays_out(items, scales, drag, b),
        ensures
            a.total_width == b.total_width,
            a.start_x == b.start_x,
            a.slots@ == b.slots@,
            a.gap == b.gap,
    {
        assert(a.slots@ =~= b.slots@);
    }

}

} // verus!
