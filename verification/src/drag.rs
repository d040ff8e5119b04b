//! Dragging an item to a new place in the list.

use vstd::prelude::*;
use crate::config::DockItem;
use crate::fixed::whole;
use crate::renderer::Renderer;

verus! {

/// The list after the item at `from` was dropped at position `to`, where
/// positions are counted before the item is taken out. A drop at the item's
/// own place, or just behind it, changes nothing; nor does one with an
/// index out of range.
pub open spec fn moved<T>(s: Seq<T>, from: int, to: int) -> Seq<T> {
    if moves(s.len() as int, from, to) {
        s.remove(from).insert(
            if to > from {
                to - 1
            } else {
                to
            },
            s[from],
        )
    } else {
        s
    }
}

/// Whether a drop of the item at `from` at position `to` changes a list of
/// `len` items.
pub open spec fn moves(len: int, from: int, to: int) -> bool {
    0 <= from < len && 0 <= to <= len && to != from && to != from + 1
}

impl Renderer {
    /// How many of the first `k` items have the middle of their slot, in
    /// the row at rest, left of the fixed-point column `cursor`.
    pub open spec fn middles_left_of(&self, items: Seq<DockItem>, cursor: int, k: int) -> int
        decreases k,
    {
        if k <= 0 {
            0
        } else {
            self.middles_left_of(items, cursor, k - 1) + (if self.rest_center(items, k - 1)
                < cursor {
                1int
            } else {
                0int
            })
        }
    }

    /// The drop position for a pointer at the pixel column `cursor_x`: the
    /// number of items whose slot has its middle left of the pointer. So an
    /// item is dropped before the slot that the pointer is in the left half
    /// of, and after the slot that it is in the right half of.
    pub open spec fn drop_index(&self, items: Seq<DockItem>, cursor_x: int) -> int {
        self.middles_left_of(items, whole(cursor_x), items.len() as int)
    }

    proof fn lemma_middles_count(&self, items: Seq<DockItem>, cursor: int, k: int, j: int)
        requires
            0 <= k <= items.len(),
            0 <= j <= items.len(),
            k == 0 || self.rest_center(items, k - 1) < cursor,
            k == items.len() || cursor <= self.rest_center(items, k),
        ensures
            self.middles_left_of(items, cursor, j) == (if j < k {
                j
            } else {
                k
            }),
        decreases j,
    {
        if j > 0 {
            self.lemma_middles_count(items, cursor, k, j - 1);
            if j - 1 < k {
                self.lemma_centers_ordered(items, j - 1, k - 1);
            } else {
                self.lemma_centers_ordered(items, k, j - 1);
            }
        }
    }

    /// The drop position is `k` exactly for a pointer that has passed the
    /// middle of slot `k - 1` and not that of slot `k`: in the right half
    /// of the one, between the two, or in the left half of the other.
    pub proof fn lemma_drop_between_middles(&self, items: Seq<DockItem>, cursor_x: int, k: int)
        requires
            0 <= k <= items.len(),
            k == 0 || self.rest_center(items, k - 1) < whole(cursor_x),
            k == items.len() || whole(cursor_x) <= self.rest_center(items, k),
        ensures
            self.drop_index(items, cursor_x) == k,
    {
        self.lemma_middles_count(items, whole(cursor_x), k, items.len() as int);
    }

    proof fn lemma_middles_grow(&self, items: Seq<DockItem>, a: int, b: int, k: int)
        requires
            a <= b,
        ensures
            0 <= self.middles_left_of(items, a, k) <= self.middles_left_of(items, b, k),
            self.middles_left_of(items, b, k) <= k || k < 0,
        decreases k,
    {
        if k > 0 {
            self.lemma_middles_grow(items, a, b, k - 1);
        }
    }

    /// The drop position never falls as the pointer moves right, and lies
    /// between 0 and the number of items.
    pub proof fn lemma_drop_index_grows(&self, items: Seq<DockItem>, x1: int, x2: int)
        requires
            x1 <= x2,
        ensures
            0 <= self.drop_index(items, x1) <= self.drop_index(items, x2) <= items.len(),
    {
        self.lemma_middles_grow(items, whole(x1), whole(x2), items.len() as int);
    }

    /// The position at which an item dragged to the pixel column `cursor_x`
    /// would be dropped into the list.
    pub fn get_drop_index(&self, cursor_x: i32, items: &[DockItem]) -> (r: usize)
        ensures
            r == self.drop_index(items@, cursor_x as int),
            r <= items@.len(),
    {
        let centers: Vec<i128> = self.rest_centers(items);
        let cursor: i128 = cursor_x as i128 * 65536;
        let n: usize = centers.len();
        let mut count: usize = 0;
        let mut i: usize = 0;
        while i < n
            invariant
                i <= n,
                n == items@.len(),
                n == centers@.len(),
                cursor == whole(cursor_x as int),
                forall|k: int|
                    0 <= k < n ==> #[trigger] centers@[k] == self.rest_center(items@, k),
                count <= i,
                count == self.middles_left_of(items@, cursor as int, i as int),
            decreases n - i,
        {
            if centers[i] < cursor {
                count += 1;
            }
            i += 1;
        }
        count
    }
}

/// Moves the item at `from` to the drop position `to`, and says whether the
/// list changed.
pub fn reorder<T>(items: &mut Vec<T>, from: usize, to: usize) -> (changed: bool)
    ensures
        final(items)@ == moved(old(items)@, from as int, to as int),
        changed == moves(old(items)@.len() as int, from as int, to as int),
{
    if from >= items.len() || to > items.len() {
        return false;
    }
    if to == from || to == from + 1 {
        return false;
    }
    let item: T = items.remove(from);
    let at: usize = if to > from {
        to - 1
    } else {
        to
    };
    items.insert(at, item);
    true
}

/// Dropping an item at its own place or just behind it leaves the list as
/// it was.
pub proof fn lemma_drop_beside_changes_nothing<T>(s: Seq<T>, from: int)
    ensures
        moved(s, from, from) == s,
        moved(s, from, from + 1) == s,
{
}

/// Dropping an item at position 0 moves it to the front; the items that
/// stood before it move one place back, the others stay.
pub proof fn lemma_drop_at_front<T>(s: Seq<T>, from: int)
    requires
        0 < from < s.len(),
    ensures
        moved(s, from, 0).len() == s.len(),
        moved(s, from, 0)[0] == s[from],
        forall|k: int| 0 < k <= from ==> moved(s, from, 0)[k] == s[k - 1],
        forall|k: int| from < k < s.len() ==> moved(s, from, 0)[k] == s[k],
{
}

/// A drop keeps the items of the list: only their order changes.
pub proof fn lemma_move_keeps_items<T>(s: Seq<T>, from: int, to: int)
    ensures
        moved(s, from, to).to_multiset() == s.to_multiset(),
{
    broadcast use vstd::multiset::group_multiset_axioms;

    if moves(s.len() as int, from, to) {
        let at = if to > from {
            to - 1
        } else {
            to
        };
        let rest = s.remove(from);
        vstd::seq_lib::to_multiset_remove(s, from);
        vstd::seq_lib::to_multiset_insert(rest, at, s[from]);
        s.to_multiset_ensures();
        assert(s.contains(s[from]));
        assert(s.to_multiset().remove(s[from]).insert(s[from]) =~= s.to_multiset());
    }
}

} // verus!
