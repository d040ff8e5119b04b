//! Hit-testing: which item of the row at rest a point falls on.

use vstd::prelude::*;
use crate::config::DockItem;
use crate::fixed::{floor_div, whole};
use crate::renderer::Renderer;

verus! {

impl Renderer {
    /// How far above and below the icons a point still counts as on the
    /// row: three tenths of an icon.
    pub open spec fn hit_margin(&self) -> int {
        self.icon_size as int * 3 / 10
    }

    /// Whether the height `y` lies on the row.
    pub open spec fn in_row(&self, y: int) -> bool {
        self.padding.top - self.hit_margin() <= y < self.padding.top + self.icon_size
            + self.hit_margin()
    }

    /// Half the space between neighbours, in fixed point.
    pub open spec fn half_gap(&self) -> int {
        self.spacing.x as int * 32768
    }

    /// The left edge of item `i` in the row at rest: every scale 1, no drag.
    pub open spec fn rest_x(&self, items: Seq<DockItem>, i: int) -> int {
        self.slot_x(items, Seq::empty(), None, i)
    }

    /// The width of item `i` in the row at rest.
    pub open spec fn rest_width(&self, items: Seq<DockItem>, i: int) -> int {
        self.width_at(items, Seq::empty(), i)
    }

    /// Whether the pixel column `x` falls on item `i`: on its span at rest,
    /// widened by half the space between neighbours on each side.
    pub open spec fn hits(&self, items: Seq<DockItem>, i: int, x: int) -> bool {
        self.rest_x(items, i) - self.half_gap() <= whole(x) < self.rest_x(items, i)
            + self.rest_width(items, i) + self.half_gap()
    }

    /// Whether `found` is what the point hits: the first item that the
    /// column falls on, if the height lies on the row and there is one.
    pub open spec fn is_hit(&self, items: Seq<DockItem>, x: int, y: int, found: Option<usize>) -> bool {
        match found {
            Some(i) => {
                &&& i < items.len()
                &&& self.in_row(y)
                &&& self.hits(items, i as int, x)
                &&& forall|j: int| 0 <= j < i ==> !self.hits(items, j, x)
            },
            None => !self.in_row(y) || forall|j: int| 0 <= j < items.len() ==> !self.hits(
                items,
                j,
                x,
            ),
        }
    }

    /// What the point `(x, y)` hits.
    pub open spec fn hit_at(&self, items: Seq<DockItem>, x: int, y: int) -> Option<usize> {
        choose|found: Option<usize>| self.is_hit(items, x, y, found)
    }

    /// A point hits at most one thing.
    pub proof fn lemma_hit_unique(
        &self,
        items: Seq<DockItem>,
        x: int,
        y: int,
        a: Option<usize>,
        b: Option<usize>,
    )
        requires
            self.is_hit(items, x, y, a),
            self.is_hit(items, x, y, b),
        ensures
            a == b,
    {
        match (a, b) {
            (Some(i), Some(j)) => {
                if i < j {
                    assert(!self.hits(items, i as int, x));
                } else if j < i {
                    assert(!self.hits(items, j as int, x));
                }
            },
            (Some(i), None) => {
                assert(!self.hits(items, i as int, x));
            },
            (None, Some(j)) => {
                assert(!self.hits(items, j as int, x));
            },
            (None, None) => {},
        }
    }

    /// The pixel column under the middle of item `i` in the row at rest.
    pub open spec fn rest_middle(&self, items: Seq<DockItem>, i: int) -> int {
        (self.rest_x(items, i) + self.rest_width(items, i) / 2) / 65536
    }

    pub(crate) proof fn lemma_rest_bounded(&self, items: Seq<DockItem>, k: int)
        requires
            0 <= k <= items.len(),
        ensures
            0 <= self.advance(items, Seq::empty(), None, k) <= k * 0x2_0000_0000_0000,
            k * self.gap_width() <= self.advance(items, Seq::empty(), None, k),
            self.advance(items, Seq::empty(), None, k) % 65536 == 0,
        decreases k,
    {
        let g = self.gap_width();
        if k > 0 {
            self.lemma_rest_bounded(items, k - 1);
            assert(k * g == (k - 1) * g + g) by (nonlinear_arith);
        } else {
            assert(0 * g == 0) by (nonlinear_arith);
        }
    }

    /// The left edge of the row at rest.
    pub(crate) fn rest_start(&self, items: &[DockItem]) -> (start: i128)
        ensures
            start == self.start_x(items@, Seq::empty(), None),
            -0x2_0000_0000_0000 * items@.len() - 0x1_0000_0000_0000 <= start
                <= 0x1_0000_0000_0000,
    {
        let n: usize = items.len();
        let space: i128 = self.spacing.x as i128 * 65536;
        let mut total: i128 = 0;
        let mut i: usize = 0;
        while i < n
            invariant
                n == items@.len(),
                i <= n,
                space == self.gap_width(),
                total == self.advance(items@, Seq::empty(), None, i as int),
            decreases n - i,
        {
            proof {
                self.lemma_rest_bounded(items@, i as int);
                self.lemma_rest_bounded(items@, i as int + 1);
            }
            total = total + self.rest_width_of(items, i) + space;
            i += 1;
        }
        proof {
            self.lemma_rest_bounded(items@, n as int);
            if n > 0 {
                assert(n * self.gap_width() >= self.gap_width()) by (nonlinear_arith)
                    requires
                        n >= 1,
                        self.gap_width() >= 0,
                ;
            }
        }
        if n > 0 {
            total = total - space;
        }
        floor_div(self.width as i128 * 65536 - total, 2)
    }

    /// The item that the point `(x, y)` of the surface falls on, if any.
    pub fn hit_test(&self, x: i32, y: i32, items: &[DockItem]) -> (found: Option<usize>)
        ensures
            self.is_hit(items@, x as int, y as int, found),
            found == self.hit_at(items@, x as int, y as int),
    {
        let found: Option<usize> = self.find_hit(x, y, items);
        proof {
            self.lemma_hit_unique(
                items@,
                x as int,
                y as int,
                found,
                self.hit_at(items@, x as int, y as int),
            );
        }
        found
    }

    fn find_hit(&self, x: i32, y: i32, items: &[DockItem]) -> (found: Option<usize>)
        ensures
            self.is_hit(items@, x as int, y as int, found),
    {
        let extra: i64 = (self.icon_size as i64) * 3 / 10;
        let top: i64 = self.padding.top as i64 - extra;
        let bottom: i64 = self.padding.top as i64 + self.icon_size as i64 + extra;
        if (y as i64) < top || (y as i64) >= bottom {
            return None;
        }
        let n: usize = items.len();
        let space: i128 = self.spacing.x as i128 * 65536;
        let half: i128 = self.spacing.x as i128 * 32768;
        let start: i128 = self.rest_start(items);
        let point: i128 = x as i128 * 65536;
        let mut x_pos: i128 = start;
        let mut i: usize = 0;
        while i < n
            invariant
                n == items@.len(),
                i <= n,
                space == self.gap_width(),
                half == self.half_gap(),
                point == whole(x as int),
                start == self.start_x(items@, Seq::empty(), None),
                -0x2_0000_0000_0000 * n - 0x1_0000_0000_0000 <= start <= 0x1_0000_0000_0000,
                x_pos == self.rest_x(items@, i as int),
                forall|j: int| 0 <= j < i ==> !self.hits(items@, j, x as int),
                self.in_row(y as int),
            decreases n - i,
        {
            proof {
                self.lemma_rest_bounded(items@, i as int);
                self.lemma_rest_bounded(items@, i as int + 1);
            }
            let w: i128 = self.rest_width_of(items, i);
            if point >= x_pos - half && point < x_pos + w + half {
                return Some(i);
            }
            x_pos = x_pos + w + space;
            i += 1;
        }
        None
    }

    pub(crate) fn rest_width_of(&self, items: &[DockItem], i: usize) -> (w: i128)
        requires
            i < items@.len(),
        ensures
            w == self.rest_width(items@, i as int),
            0 <= w <= 0xffff_ffff * 0x1_0000,
    {
        if items[i].is_separator() {
            (self.icon_size / 3) as i128 * 65536
        } else {
            self.icon_size as i128 * 65536
        }
    }

    pub(crate) proof fn lemma_advance_grows(&self, items: Seq<DockItem>, j: int, i: int)
        requires
            0 <= j < i <= items.len(),
        ensures
            self.advance(items, Seq::empty(), None, j) + self.rest_width(items, j)
                + self.gap_width() <= self.advance(items, Seq::empty(), None, i),
        decreases i - j,
    {
        if j + 1 < i {
            self.lemma_advance_grows(items, j, i - 1);
        }
    }

    proof fn lemma_rest_x_on_half_pixel(&self, items: Seq<DockItem>, i: int)
        requires
            0 <= i <= items.len(),
        ensures
            self.rest_x(items, i) % 32768 == 0,
    {
        self.lemma_rest_bounded(items, items.len() as int);
        self.lemma_rest_bounded(items, i);
        let total = self.total_width(items, Seq::empty(), None);
        let d = whole(self.width as int) - total;
        assert(d % 65536 == 0);
        assert(d == 65536 * (d / 65536));
        assert(d / 2 == 32768 * (d / 65536));
    }

    /// Hit-testing undoes layout: the pixel column under the middle of an
    /// item's slot at rest falls on that item, at every height on the row.
    /// This holds for an item whose slot and the space beside it are not
    /// both empty.
    pub proof fn lemma_middle_hits_item(
        &self,
        items: Seq<DockItem>,
        i: int,
        y: int,
        found: Option<usize>,
    )
        requires
            0 <= i < items.len(),
            self.in_row(y),
            self.rest_width(items, i) + self.gap_width() > 0,
            self.is_hit(items, self.rest_middle(items, i), y, found),
        ensures
            found == Some(i as usize),
    {
        let x = self.rest_middle(items, i);
        self.lemma_rest_x_on_half_pixel(items, i);
        lemma_middle_in_span(
            self.rest_x(items, i),
            self.rest_width(items, i),
            self.spacing.x as int,
        );
        assert(self.hits(items, i, x));
        assert forall|j: int| 0 <= j < i implies !self.hits(items, j, x) by {
            self.lemma_advance_grows(items, j, i);
        }
        match found {
            Some(k) => {
                if i < k {
                    assert(!self.hits(items, i, x));
                }
            },
            None => {
                assert(!self.hits(items, i, x));
            },
        }
    }
}

/// The pixel under the middle of a span lies in the span widened by half a
/// space on each side, where edge and width fall on half and whole pixels.
proof fn lemma_middle_in_span(left: int, w: int, spacing: int)
    requires
        left % 32768 == 0,
        w % 65536 == 0,
        w >= 0,
        spacing >= 0,
        w + spacing * 65536 > 0,
    ensures
        left - spacing * 32768 <= ((left + w / 2) / 65536) * 65536 < left + w + spacing * 32768,
{
    let a = left / 32768;
    let b = w / 65536;
    assert(left == 32768 * a);
    assert(w == 65536 * b);
    assert(w / 2 == 32768 * b);
    assert(b + spacing >= 1);
    lemma_floor_to_pixel(a + b);
}

/// A whole number of half pixels, rounded down to whole pixels, loses at
/// most one half pixel.
proof fn lemma_floor_to_pixel(h: int)
    ensures
        32768 * h - 32768 <= ((32768 * h) / 65536) * 65536 <= 32768 * h,
{
    let q = h / 2;
    assert(h == 2 * q || h == 2 * q + 1);
    if h == 2 * q {
        assert(32768 * h == 65536 * q);
        vstd::arithmetic::div_mod::lemma_fundamental_div_mod_converse(32768 * h, 65536, q, 0);
    } else {
        assert(32768 * h == 65536 * q + 32768);
        vstd::arithmetic::div_mod::lemma_fundamental_div_mod_converse(
            32768 * h,
            65536,
            q,
            32768,
        );
    }
}

} // verus!
