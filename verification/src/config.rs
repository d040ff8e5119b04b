//! The dock's settings and the items it shows.

use vstd::prelude::*;
use crate::text::{str_equal, lowercased, to_lowercase};

verus! {

/// Space around a box, one amount for each side.
#[derive(Debug, Clone, Copy)]
pub struct Spacing {
    pub top: u32,
    pub right: u32,
    pub bottom: u32,
    pub left: u32,
}

impl Spacing {
    /// The same space on all four sides.
    pub fn uniform(v: u32) -> (s: Self)
        ensures
            s.top == v,
            s.right == v,
            s.bottom == v,
            s.left == v,
    {
        Self { top: v, right: v, bottom: v, left: v }
    }

    /// `x` to the left and right, `y` above and below.
    pub fn xy(x: u32, y: u32) -> (s: Self)
        ensures
            s.top == y,
            s.right == x,
            s.bottom == y,
            s.left == x,
    {
        Self { top: y, right: x, bottom: y, left: x }
    }

    /// The horizontal space: left and right together.
    pub fn x(&self) -> (r: u32)
        requires
            self.left + self.right <= u32::MAX,
        ensures
            r == self.left + self.right,
    {
        self.left + self.right
    }

    /// The vertical space: top and bottom together.
    pub fn y(&self) -> (r: u32)
        requires
            self.top + self.bottom <= u32::MAX,
        ensures
            r == self.top + self.bottom,
    {
        self.top + self.bottom
    }
}

/// The forms in which the space around a box is written down: one
/// amount for all sides, two for the horizontal and the vertical sides, or
/// four for top, right, bottom and left.
#[derive(Debug, Clone, Copy, PartialEq, Eq, Structural)]
pub enum SpacingForm {
    Single(u32),
    Two(u32, u32),
    Four(u32, u32, u32, u32),
}

impl Spacing {
    /// The shortest form that says what the spacing is.
    pub fn to_form(&self) -> (form: SpacingForm)
        ensures
            form == (if self.top == self.bottom && self.left == self.right {
                if self.top == self.left {
                    SpacingForm::Single(self.top)
                } else {
                    SpacingForm::Two(self.left, self.top)
                }
            } else {
                SpacingForm::Four(self.top, self.right, self.bottom, self.left)
            }),
            Spacing::of_form(form) == *self,
    {
        if self.top == self.bottom && self.left == self.right {
            if self.top == self.left {
                SpacingForm::Single(self.top)
            } else {
                SpacingForm::Two(self.left, self.top)
            }
        } else {
            SpacingForm::Four(self.top, self.right, self.bottom, self.left)
        }
    }

    /// The spacing that a form says.
    pub open spec fn of_form(form: SpacingForm) -> Spacing {
        match form {
            SpacingForm::Single(v) => Spacing { top: v, right: v, bottom: v, left: v },
            SpacingForm::Two(x, y) => Spacing { top: y, right: x, bottom: y, left: x },
            SpacingForm::Four(t, r, b, l) => Spacing { top: t, right: r, bottom: b, left: l },
        }
    }

    /// The spacing that a form says.
    pub fn from_form(form: SpacingForm) -> (s: Self)
        ensures
            s == Spacing::of_form(form),
    {
        match form {
            SpacingForm::Single(v) => Spacing::uniform(v),
            SpacingForm::Two(x, y) => Spacing::xy(x, y),
            SpacingForm::Four(t, r, b, l) => Spacing { top: t, right: r, bottom: b, left: l },
        }
    }
}

/// The forms in which the space between items is written down: one
/// amount for both directions, or two.
#[derive(Debug, Clone, Copy, PartialEq, Eq, Structural)]
pub enum ItemSpacingForm {
    Single(u32),
    Two(u32, u32),
}

impl ItemSpacing {
    /// The shortest form that says what the spacing is.
    pub fn to_form(&self) -> (form: ItemSpacingForm)
        ensures
            form == (if self.x == self.y {
                ItemSpacingForm::Single(self.x)
            } else {
                ItemSpacingForm::Two(self.x, self.y)
            }),
            ItemSpacing::of_form(form) == *self,
    {
        if self.x == self.y {
            ItemSpacingForm::Single(self.x)
        } else {
            ItemSpacingForm::Two(self.x, self.y)
        }
    }

    /// The spacing that a form says.
    pub open spec fn of_form(form: ItemSpacingForm) -> ItemSpacing {
        match form {
            ItemSpacingForm::Single(v) => ItemSpacing { x: v, y: v },
            ItemSpacingForm::Two(x, y) => ItemSpacing { x, y },
        }
    }

    /// The spacing that a form says.
    pub fn from_form(form: ItemSpacingForm) -> (s: Self)
        ensures
            s == ItemSpacing::of_form(form),
    {
        match form {
            ItemSpacingForm::Single(v) => ItemSpacing::uniform(v),
            ItemSpacingForm::Two(x, y) => ItemSpacing { x, y },
        }
    }
}

impl Default for Spacing {
    fn default() -> (s: Self)
        ensures
            s.top == 12,
            s.right == 12,
            s.bottom == 12,
            s.left == 12,
    {
        Self::uniform(12)
    }
}

/// Space between neighbouring items, horizontally and vertically.
#[derive(Debug, Clone, Copy)]
pub struct ItemSpacing {
    pub x: u32,
    pub y: u32,
}

impl ItemSpacing {
    /// The same space in both directions.
    pub fn uniform(v: u32) -> (s: Self)
        ensures
            s.x == v,
            s.y == v,
    {
        Self { x: v, y: v }
    }
}

impl Default for ItemSpacing {
    fn default() -> (s: Self)
        ensures
            s.x == 8,
            s.y == 8,
    {
        Self::uniform(8)
    }
}

/// One entry of the dock: an application, a system action or a separator.
/// An item has no identity but its place in the list.
#[derive(Debug, Clone)]
pub struct DockItem {
    /// The name shown in the tooltip.
    pub name: String,
    /// The executable; empty for separators and system actions.
    pub path: String,
    /// The image file of the icon, if the item has one.
    pub icon: Option<String>,
    /// The arguments the executable is started with.
    pub args: Vec<String>,
    /// Whether the item only divides its neighbours.
    pub separator: bool,
    /// The system action the item stands for, if any.
    pub special: Option<String>,
}

/// Whether a path is the empty one that items without an executable carry.
pub fn is_default_path(p: &str) -> (r: bool)
    ensures
        r == (p@.len() == 0),
{
    p.unicode_len() == 0
}

impl DockItem {
    /// Whether the item divides its neighbours: it is marked so, or its name
    /// is three dashes.
    pub open spec fn separates(&self) -> bool {
        self.separator || self.name@ == "---"@
    }

    /// Whether the item is the system's recycle bin.
    pub open spec fn recycles(&self) -> bool {
        self.special matches Some(tag) && tag@ == "recycle_bin"@
    }

    /// A separator: named by three dashes, with no path, icon or arguments.
    pub fn new_separator() -> (item: Self)
        ensures
            item.name@ == "---"@,
            item.path@.len() == 0,
            item.icon is None,
            item.args@.len() == 0,
            item.separator,
            item.special is None,
            item.separates(),
    {
        Self {
            name: String::from_str("---"),
            path: String::new(),
            icon: None,
            args: Vec::new(),
            separator: true,
            special: None,
        }
    }

    /// An item for the system action `tag`, shown under `name`.
    pub fn new_special(name: String, tag: String) -> (item: Self)
        ensures
            item.name == name,
            item.path@.len() == 0,
            item.icon is None,
            item.args@.len() == 0,
            !item.separator,
            item.special == Some(tag),
    {
        Self {
            name,
            path: String::new(),
            icon: None,
            args: Vec::new(),
            separator: false,
            special: Some(tag),
        }
    }

    /// Whether the item divides its neighbours.
    pub fn is_separator(&self) -> (r: bool)
        ensures
            r == self.separates(),
    {
        self.separator || str_equal(self.name.as_str(), "---")
    }

    /// Whether the item stands for a system action.
    pub fn is_special(&self) -> (r: bool)
        ensures
            r == self.special.is_some(),
    {
        self.special.is_some()
    }

    /// Whether the item is the system's recycle bin.
    pub fn is_recycle_bin(&self) -> (r: bool)
        ensures
            r == self.recycles(),
    {
        match &self.special {
            Some(tag) => str_equal(tag.as_str(), "recycle_bin"),
            None => false,
        }
    }
}

/// The settings of the dock, with every number already resolved. Opacity
/// and magnification are in 16.16 fixed point.
#[derive(Debug, Clone)]
pub struct DockSettings {
    pub icon_size: u32,
    pub spacing: ItemSpacing,
    pub padding: Spacing,
    /// How far the dock is pushed down into the screen edge, in pixels.
    pub negative_vertical_offset: i32,
    pub background_color: String,
    pub background_opacity: u32,
    pub indicator_color: String,
    pub auto_hide: bool,
    pub auto_hide_delay_ms: u64,
    pub auto_show_delay_ms: u64,
    pub corner_radius: u32,
    pub magnification: u32,
    pub locked: bool,
    pub hide_windows_taskbar: bool,
    pub hide_in_fullscreen: bool,
}

/// The icon size used when none is configured.
pub fn default_icon_size() -> (r: u32)
    ensures
        r == 48,
{
    48
}

/// The background colour used when none is configured.
pub fn default_background_color() -> (r: String)
    ensures
        r@ == "#1e1e2e"@,
{
    String::from_str("#1e1e2e")
}

/// The background opacity used when none is configured: nine tenths.
pub fn default_background_opacity() -> (r: u32)
    ensures
        r == 9 * 65536 / 10,
{
    58982
}

/// The indicator colour used when none is configured.
pub fn default_indicator_color() -> (r: String)
    ensures
        r@ == "#cba6f7"@,
{
    String::from_str("#cba6f7")
}

/// Whether the dock hides itself when none is configured.
pub fn default_auto_hide() -> (r: bool)
    ensures
        r,
{
    true
}

/// The delay before hiding used when none is configured, in milliseconds.
pub fn default_auto_hide_delay() -> (r: u64)
    ensures
        r == 400,
{
    400
}

/// The corner radius used when none is configured.
pub fn default_corner_radius() -> (r: u32)
    ensures
        r == 12,
{
    12
}

/// The magnification used when none is configured: one and a half.
pub fn default_magnification() -> (r: u32)
    ensures
        r == 3 * 65536 / 2,
{
    98304
}

impl Default for DockSettings {
    fn default() -> (s: Self)
        ensures
            s.icon_size == 48,
            s.spacing.x == 8,
            s.spacing.y == 8,
            s.padding.top == 12,
            s.padding.right == 12,
            s.padding.bottom == 12,
            s.padding.left == 12,
            s.negative_vertical_offset == 0,
            s.background_color@ == "#1e1e2e"@,
            s.background_opacity == 58982,
            s.indicator_color@ == "#cba6f7"@,
            s.auto_hide,
            s.auto_hide_delay_ms == 400,
            s.auto_show_delay_ms == 0,
            s.corner_radius == 12,
            s.magnification == 98304,
            !s.locked,
            !s.hide_windows_taskbar,
            !s.hide_in_fullscreen,
    {
        Self {
            icon_size: default_icon_size(),
            spacing: ItemSpacing::uniform(8),
            padding: Spacing::uniform(12),
            negative_vertical_offset: 0,
            background_color: default_background_color(),
            background_opacity: default_background_opacity(),
            indicator_color: default_indicator_color(),
            auto_hide: default_auto_hide(),
            auto_hide_delay_ms: default_auto_hide_delay(),
            auto_show_delay_ms: 0,
            corner_radius: default_corner_radius(),
            magnification: default_magnification(),
            locked: false,
            hide_windows_taskbar: false,
            hide_in_fullscreen: false,
        }
    }
}

/// Whether some text of `lowered` equals `wanted`.
pub fn contains_text(wanted: &str, lowered: &Vec<String>) -> (r: bool)
    ensures
        r == exists|i: int| 0 <= i < lowered@.len() && lowered@[i]@ == wanted@,
{
    let mut i: usize = 0;
    while i < lowered.len()
        invariant
            i <= lowered@.len(),
            forall|k: int| 0 <= k < i ==> lowered@[k]@ != wanted@,
        decreases lowered@.len() - i,
    {
        if str_equal(lowered[i].as_str(), wanted) {
            return true;
        }
        i += 1;
    }
    false
}

/// Whether `path` is among the running executables, letter case set
/// aside: both sides are compared in lowercase.
pub open spec fn runs(path: Seq<char>, running: Seq<String>) -> bool {
    exists|i: int| 0 <= i < running.len() && lowercased(running[i]@) == lowercased(path)
}

/// The texts of a list in lower case, in the order of the list.
fn lowered_paths(running: &Vec<String>) -> (lowered: Vec<String>)
    ensures
        lowered@.len() == running@.len(),
        forall|k: int| 0 <= k < running@.len() ==> lowered@[k]@ == lowercased(running@[k]@),
{
    let mut lowered: Vec<String> = Vec::new();
    let mut i: usize = 0;
    while i < running.len()
        invariant
            i <= running@.len(),
            lowered@.len() == i,
            forall|k: int| 0 <= k < i ==> lowered@[k]@ == lowercased(running@[k]@),
        decreases running@.len() - i,
    {
        lowered.push(to_lowercase(running[i].as_str()));
        i += 1;
    }
    lowered
}

/// Whether the executable at `exe_path` is among the running ones, whose
/// paths are given in lower case.
fn is_among(exe_path: &str, running: &Vec<String>, lowered: &Vec<String>) -> (r: bool)
    requires
        lowered@.len() == running@.len(),
        forall|k: int| 0 <= k < running@.len() ==> lowered@[k]@ == lowercased(running@[k]@),
    ensures
        r == runs(exe_path@, running@),
{
    let normalized: String = to_lowercase(exe_path);
    let found: bool = contains_text(normalized.as_str(), lowered);
    proof {
        if found {
            let k = choose|k: int| 0 <= k < lowered@.len() && lowered@[k]@ == normalized@;
            assert(lowercased(running@[k]@) == lowercased(exe_path@));
        } else {
            assert forall|k: int| 0 <= k < running@.len() implies lowercased(running@[k]@)
                != lowercased(exe_path@) by {
                assert(lowered@[k]@ == lowercased(running@[k]@));
            }
        }
    }
    found
}

/// Whether the executable at `exe_path` is among the running ones, letter
/// case set aside.
pub fn is_running(exe_path: &str, running: &Vec<String>) -> (r: bool)
    ensures
        r == runs(exe_path@, running@),
{
    let lowered: Vec<String> = lowered_paths(running);
    is_among(exe_path, running, &lowered)
}

/// Which items of the list are running: one flag per item, in order.
pub fn running_states(items: &Vec<DockItem>, running: &Vec<String>) -> (flags: Vec<bool>)
    ensures
        flags@.len() == items@.len(),
        forall|k: int|
            0 <= k < items@.len() ==> #[trigger] flags@[k] == runs(items@[k].path@, running@),
{
    let lowered: Vec<String> = lowered_paths(running);
    let mut flags: Vec<bool> = Vec::new();
    let mut k: usize = 0;
    while k < items.len()
        invariant
            k <= items@.len(),
            flags@.len() == k,
            lowered@.len() == running@.len(),
            forall|j: int| 0 <= j < running@.len() ==> lowered@[j]@ == lowercased(running@[j]@),
            forall|j: int|
                0 <= j < k ==> #[trigger] flags@[j] == runs(items@[j].path@, running@),
        decreases items@.len() - k,
    {
        flags.push(is_among(items[k].path.as_str(), running, &lowered));
        k += 1;
    }
    flags
}

} // verus!
