//! The wave over the row: the scale each icon grows to under the pointer.
//!
//! The wave is centred on the pointer, and each icon is as far from the
//! pointer as the middle of its slot in the row at rest.

use vstd::prelude::*;
use crate::config::DockItem;
use crate::fixed::{distance, whole};
use crate::renderer::Renderer;
use crate::wave::{lemma_wave_shape, wave_radius, wave_scale, wave_target};

verus! {

impl Renderer {
    /// The column of the middle of the slot of item `i` in the row at
    /// rest, in fixed point.
    pub open spec fn rest_center(&self, items: Seq<DockItem>, i: int) -> int {
        self.rest_x(items, i) + self.rest_width(items, i) / 2
    }

    /// The scale that an icon with its middle at the fixed-point column
    /// `center` is to grow to for a pointer at `cursor`.
    pub open spec fn wave_at(&self, cursor: int, center: int, max_scale: int) -> int {
        wave_target(distance(cursor, center), wave_radius(self.icon_size as int), max_scale)
    }

    /// The scale that icon `i` is to grow to for a pointer at the
    /// fixed-point column `cursor`: the wave's height at the distance of
    /// the middle of the icon's slot from the pointer while the wave
    /// follows the pointer, and 1 otherwise. A scale that belongs to no
    /// item of the list goes to 1.
    pub open spec fn scale_target(
        &self,
        items: Seq<DockItem>,
        hovering: bool,
        cursor: int,
        max_scale: int,
        i: int,
    ) -> int {
        if hovering && 0 <= i < items.len() {
            self.wave_at(cursor, self.rest_center(items, i), max_scale)
        } else {
            65536
        }
    }

    /// The middles of the slots of the row at rest, one for each item.
    pub fn rest_centers(&self, items: &[DockItem]) -> (centers: Vec<i128>)
        ensures
            centers@.len() == items@.len(),
            forall|i: int|
                0 <= i < items@.len() ==> #[trigger] centers@[i] == self.rest_center(items@, i),
    {
        let n: usize = items.len();
        let space: i128 = self.spacing.x as i128 * 65536;
        let start: i128 = self.rest_start(items);
        let mut centers: Vec<i128> = Vec::new();
        let mut x: i128 = start;
        let mut i: usize = 0;
        while i < n
            invariant
                n == items@.len(),
                i <= n,
                space == self.gap_width(),
                start == self.start_x(items@, Seq::empty(), None),
                -0x2_0000_0000_0000 * n - 0x1_0000_0000_0000 <= start <= 0x1_0000_0000_0000,
                x == self.rest_x(items@, i as int),
                centers@.len() == i,
                forall|k: int|
                    0 <= k < i ==> #[trigger] centers@[k] == self.rest_center(items@, k),
            decreases n - i,
        {
            proof {
                self.lemma_rest_bounded(items@, i as int);
                self.lemma_rest_bounded(items@, i as int + 1);
            }
            let w: i128 = self.rest_width_of(items, i);
            centers.push(x + w / 2);
            x = x + w + space;
            i += 1;
        }
        centers
    }

    /// The scale that an icon with its middle at `center` is to grow to
    /// for a pointer at the pixel column `cursor_x`.
    pub fn wave_scale_at(&self, cursor_x: i32, center: i128, max_scale: u32) -> (target: u32)
        requires
            -0x10_0000_0000_0000_0000_0000_0000_0000 <= center
                <= 0x10_0000_0000_0000_0000_0000_0000_0000,
        ensures
            target == self.wave_at(whole(cursor_x as int), center as int, max_scale as int),
    {
        let cursor: i128 = cursor_x as i128 * 65536;
        let dist: i128 = if cursor >= center {
            cursor - center
        } else {
            center - cursor
        };
        let radius: i128 = self.icon_size as i128 * 7 * 32768;
        if dist < radius {
            wave_scale(dist as u64, radius as u64, max_scale)
        } else {
            65536
        }
    }

    /// The scale that icon `i` is to grow to for a pointer at the pixel
    /// column `cursor_x`.
    pub fn target_scale(
        &self,
        items: &[DockItem],
        hovering: bool,
        cursor_x: i32,
        max_scale: u32,
        i: usize,
    ) -> (target: u32)
        ensures
            target == self.scale_target(
                items@,
                hovering,
                whole(cursor_x as int),
                max_scale as int,
                i as int,
            ),
    {
        if !hovering || i >= items.len() {
            return 65536;
        }
        let centers: Vec<i128> = self.rest_centers(items);
        proof {
            self.lemma_center_bounded(items@, i as int);
        }
        self.wave_scale_at(cursor_x, centers[i], max_scale)
    }

    /// The scales that the first `count` icons are to grow to for a pointer
    /// at the pixel column `cursor_x`.
    pub fn target_scales(
        &self,
        items: &[DockItem],
        hovering: bool,
        cursor_x: i32,
        max_scale: u32,
        count: usize,
    ) -> (targets: Vec<u32>)
        ensures
            targets@.len() == count,
            forall|i: int|
                0 <= i < count ==> #[trigger] targets@[i] == self.scale_target(
                    items@,
                    hovering,
                    whole(cursor_x as int),
                    max_scale as int,
                    i,
                ),
    {
        let centers: Vec<i128> = self.rest_centers(items);
        let n: usize = centers.len();
        let mut targets: Vec<u32> = Vec::new();
        let mut i: usize = 0;
        while i < count
            invariant
                i <= count,
                n == items@.len(),
                n == centers@.len(),
                forall|k: int|
                    0 <= k < n ==> #[trigger] centers@[k] == self.rest_center(items@, k),
                targets@.len() == i,
                forall|k: int|
                    0 <= k < i ==> #[trigger] targets@[k] == self.scale_target(
                        items@,
                        hovering,
                        whole(cursor_x as int),
                        max_scale as int,
                        k,
                    ),
            decreases count - i,
        {
            let target: u32 = if hovering && i < n {
                proof {
                    self.lemma_center_bounded(items@, i as int);
                }
                self.wave_scale_at(cursor_x, centers[i], max_scale)
            } else {
                65536
            };
            targets.push(target);
            i += 1;
        }
        targets
    }

    /// The middles of the slots lie within what the arithmetic can hold.
    pub proof fn lemma_center_bounded(&self, items: Seq<DockItem>, i: int)
        requires
            0 <= i < items.len(),
            items.len() <= usize::MAX,
        ensures
            -0x10_0000_0000_0000_0000_0000_0000_0000 <= self.rest_center(items, i)
                <= 0x10_0000_0000_0000_0000_0000_0000_0000,
    {
        let n = items.len() as int;
        self.lemma_rest_bounded(items, n);
        self.lemma_rest_bounded(items, i);
        assert(n * 0x2_0000_0000_0000 <= 0xffff_ffff_ffff_ffff * 0x2_0000_0000_0000
            && i * 0x2_0000_0000_0000 <= 0xffff_ffff_ffff_ffff * 0x2_0000_0000_0000)
            by (nonlinear_arith)
            requires
                0 <= i < n <= 0xffff_ffff_ffff_ffff,
        ;
        let total = self.total_width(items, Seq::empty(), None);
        assert(-0xffff_ffff * 65536 <= total <= 0xffff_ffff_ffff_ffff * 0x2_0000_0000_0000);
        assert(0 <= self.rest_width(items, i) <= 0xffff_ffff * 65536);
        let start = self.start_x(items, Seq::empty(), None);
        assert(0 <= whole(self.width as int) <= 0xffff_ffff * 65536);
        assert(-0xffff_ffff_ffff_ffff * 0x2_0000_0000_0000 <= start <= 0xffff_ffff * 65536);
        assert(self.rest_x(items, i) == start + self.advance(items, Seq::empty(), None, i));
        assert(0 <= self.rest_width(items, i) / 2 <= 0xffff_ffff * 65536);
    }

    /// The middles of the slots stand in the order of the items.
    pub proof fn lemma_centers_ordered(&self, items: Seq<DockItem>, j: int, k: int)
        requires
            0 <= j <= k < items.len(),
        ensures
            self.rest_center(items, j) <= self.rest_center(items, k),
    {
        if j < k {
            self.lemma_advance_grows(items, j, k);
        }
    }

    /// With the pointer on the middle of the slot of item `i`, that icon
    /// is at least as large as every other and, if icons have a size at
    /// all, exactly at the largest scale; every icon stays between its own
    /// size and the largest scale; and an icon whose middle is at or beyond
    /// the radius from the pointer keeps its own size.
    pub proof fn lemma_wave_peaks_at_pointer(
        &self,
        items: Seq<DockItem>,
        max_scale: int,
        i: int,
        j: int,
    )
        requires
            max_scale >= 65536,
            0 <= i < items.len(),
            0 <= j < items.len(),
        ensures
            self.scale_target(items, true, self.rest_center(items, i), max_scale, j)
                <= self.scale_target(items, true, self.rest_center(items, i), max_scale, i),
            65536 <= self.scale_target(items, true, self.rest_center(items, i), max_scale, j)
                <= max_scale,
            self.icon_size > 0 ==> self.scale_target(
                items,
                true,
                self.rest_center(items, i),
                max_scale,
                i,
            ) == max_scale,
            distance(self.rest_center(items, i), self.rest_center(items, j)) >= wave_radius(
                self.icon_size as int,
            ) ==> self.scale_target(items, true, self.rest_center(items, i), max_scale, j)
                == 65536,
    {
        let radius = wave_radius(self.icon_size as int);
        let c = self.rest_center(items, i);
        let d = distance(c, self.rest_center(items, j));
        lemma_wave_shape(0, d, radius, max_scale);
        lemma_wave_shape(d, d, radius, max_scale);
    }

    /// The wave does not reach an icon at or beyond the radius: wherever
    /// the pointer is, an icon whose slot has its middle that far from it is
    /// heading for its own size, and stays there if it is there.
    pub proof fn lemma_beyond_radius_rests(
        &self,
        items: Seq<DockItem>,
        hovering: bool,
        cursor: int,
        max_scale: int,
        j: int,
    )
        requires
            0 <= j < items.len(),
            distance(cursor, self.rest_center(items, j)) >= wave_radius(self.icon_size as int),
        ensures
            self.scale_target(items, hovering, cursor, max_scale, j) == 65536,
            crate::wave::eased_scale(
                65536,
                self.scale_target(items, hovering, cursor, max_scale, j),
            ) == 65536,
    {
    }

    /// On each side of the pointer the wave falls with the distance: with
    /// the pointer on the middle of the slot of item `i`, of two icons on
    /// one side of it the one further from `i` is no larger.
    pub proof fn lemma_wave_falls_on_each_side(
        &self,
        items: Seq<DockItem>,
        max_scale: int,
        i: int,
        j: int,
        k: int,
    )
        requires
            max_scale >= 65536,
            0 <= i < items.len(),
            i <= j <= k < items.len() || 0 <= k <= j <= i,
        ensures
            self.scale_target(items, true, self.rest_center(items, i), max_scale, k)
                <= self.scale_target(items, true, self.rest_center(items, i), max_scale, j),
    {
        let radius = wave_radius(self.icon_size as int);
        let c = self.rest_center(items, i);
        if i <= j && j <= k {
            self.lemma_centers_ordered(items, i, j);
            self.lemma_centers_ordered(items, j, k);
        } else {
            self.lemma_centers_ordered(items, k, j);
            self.lemma_centers_ordered(items, j, i);
        }
        lemma_wave_shape(
            distance(c, self.rest_center(items, j)),
            distance(c, self.rest_center(items, k)),
            radius,
            max_scale,
        );
    }

    /// In a row without separators the slots are all one pitch apart.
    pub proof fn lemma_even_pitch(&self, items: Seq<DockItem>, k: int)
        requires
            0 <= k <= items.len(),
            forall|m: int| 0 <= m < items.len() ==> !(#[trigger] items[m]).separates(),
        ensures
            self.advance(items, Seq::empty(), None, k) == k * (whole(self.icon_size as int)
                + self.gap_width()),
        decreases k,
    {
        let p = whole(self.icon_size as int) + self.gap_width();
        if k > 0 {
            self.lemma_even_pitch(items, k - 1);
            assert(!items[k - 1].separates());
            assert(k * p == (k - 1) * p + p) by (nonlinear_arith);
        } else {
            assert(0 * p == 0) by (nonlinear_arith);
        }
    }

    /// The wave is symmetric in a row without separators: with the pointer
    /// on the middle of the slot of item `i`, of two icons the one more
    /// places away from `i` is no larger, and icons as many places away
    /// on either side are of one size.
    pub proof fn lemma_wave_symmetric(
        &self,
        items: Seq<DockItem>,
        max_scale: int,
        i: int,
        j: int,
        k: int,
    )
        requires
            max_scale >= 65536,
            0 <= i < items.len(),
            0 <= j < items.len(),
            0 <= k < items.len(),
            forall|m: int| 0 <= m < items.len() ==> !(#[trigger] items[m]).separates(),
            distance(j, i) <= distance(k, i),
        ensures
            self.scale_target(items, true, self.rest_center(items, i), max_scale, k)
                <= self.scale_target(items, true, self.rest_center(items, i), max_scale, j),
            distance(j, i) == distance(k, i) ==> self.scale_target(
                items,
                true,
                self.rest_center(items, i),
                max_scale,
                k,
            ) == self.scale_target(items, true, self.rest_center(items, i), max_scale, j),
    {
        let radius = wave_radius(self.icon_size as int);
        let p = whole(self.icon_size as int) + self.gap_width();
        let c = self.rest_center(items, i);
        self.lemma_even_pitch(items, i);
        self.lemma_even_pitch(items, j);
        self.lemma_even_pitch(items, k);
        assert(!items[i].separates() && !items[j].separates() && !items[k].separates());
        let dj = distance(c, self.rest_center(items, j));
        let dk = distance(c, self.rest_center(items, k));
        assert(dj == distance(j, i) * p && dk == distance(k, i) * p) by (nonlinear_arith)
            requires
                p >= 0,
                c - self.rest_center(items, j) == i * p - j * p,
                c - self.rest_center(items, k) == i * p - k * p,
                dj == distance(c, self.rest_center(items, j)),
                dk == distance(c, self.rest_center(items, k)),
        ;
        assert(0 <= dj <= dk) by (nonlinear_arith)
            requires
                dj == distance(j, i) * p,
                dk == distance(k, i) * p,
                0 <= distance(j, i) <= distance(k, i),
                p >= 0,
        ;
        lemma_wave_shape(dj, dk, radius, max_scale);
    }
}

} // verus!
