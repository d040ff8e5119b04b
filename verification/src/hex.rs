//! Colours written as hexadecimal text, such as `#cba6f7`.

use vstd::prelude::*;
use crate::color::{argb, red_of, green_of, blue_of, red, green, blue, pack};

verus! {

/// The indicator colour used when a colour string cannot be read.
pub const FALLBACK_INDICATOR: u32 = 0xcba6f7;

/// The background colour used when a colour string cannot be read.
pub const FALLBACK_BACKGROUND: u32 = 0x1e1e2e;

/// The tooltip colour, blue first, used when a colour string cannot be read.
pub const FALLBACK_TOOLTIP_BGR: u32 = 0x2e1e1e;

/// The value of one hexadecimal digit, in either case.
pub open spec fn digit_value(c: char) -> Option<int> {
    let n = c as int;
    if 48 <= n <= 57 {
        Some(n - 48)
    } else if 97 <= n <= 102 {
        Some(n - 87)
    } else if 65 <= n <= 70 {
        Some(n - 55)
    } else {
        None
    }
}

/// The number that a run of hexadecimal digits writes, most significant
/// digit first; `None` where a character is no digit.
pub open spec fn digits_value(s: Seq<char>) -> Option<int>
    decreases s.len(),
{
    if s.len() == 0 {
        Some(0)
    } else {
        match (digits_value(s.drop_last()), digit_value(s.last())) {
            (Some(high), Some(d)) => Some(high * 16 + d),
            _ => None,
        }
    }
}

/// The text without its leading `#` characters.
pub open spec fn strip_hashes(s: Seq<char>) -> Seq<char>
    decreases s.len(),
{
    if s.len() > 0 && s[0] == '#' {
        strip_hashes(s.skip(1))
    } else {
        s
    }
}

/// The digits of a number: the text without one leading `+`, if more follows it.
pub open spec fn unsigned_body(s: Seq<char>) -> Seq<char> {
    if s.len() > 1 && s[0] == '+' {
        s.skip(1)
    } else {
        s
    }
}

/// The 32-bit number that the text writes in base 16: one or more digits,
/// optionally after a `+`. `None` for empty text, for any other character,
/// and for a number that does not fit in 32 bits.
pub open spec fn hex_number(s: Seq<char>) -> Option<u32> {
    let body = unsigned_body(s);
    if body.len() == 0 {
        None
    } else {
        match digits_value(body) {
            Some(v) => if v <= u32::MAX as int {
                Some(v as u32)
            } else {
                None
            },
            None => None,
        }
    }
}

/// The number that a colour string writes after its leading `#`s, or
/// `fallback` where it writes none.
pub open spec fn color_number(s: Seq<char>, fallback: u32) -> u32 {
    match hex_number(strip_hashes(s)) {
        Some(v) => v,
        None => fallback,
    }
}

/// How many `#` characters the text begins with.
pub open spec fn leading_hashes(s: Seq<char>) -> nat
    decreases s.len(),
{
    if s.len() > 0 && s[0] == '#' {
        1 + leading_hashes(s.skip(1))
    } else {
        0
    }
}

proof fn lemma_strip_is_skip(s: Seq<char>)
    ensures
        leading_hashes(s) <= s.len(),
        strip_hashes(s) == s.skip(leading_hashes(s) as int),
    decreases s.len(),
{
    if s.len() > 0 && s[0] == '#' {
        lemma_strip_is_skip(s.skip(1));
        assert(s.skip(1).skip(leading_hashes(s.skip(1)) as int) =~= s.skip(
            leading_hashes(s) as int,
        ));
    } else {
        assert(s.skip(0) =~= s);
    }
}

proof fn lemma_leading_hashes_step(s: Seq<char>, k: int)
    requires
        0 <= k <= s.len(),
        forall|j: int| 0 <= j < k ==> s[j] == '#',
        k == s.len() || s[k] != '#',
    ensures
        leading_hashes(s) == k,
    decreases s.len(),
{
    if k > 0 {
        let t = s.skip(1);
        assert forall|j: int| 0 <= j < k - 1 implies t[j] == '#' by {
            assert(t[j] == s[j + 1]);
        }
        lemma_leading_hashes_step(t, k - 1);
    }
}

/// The text without its leading `#`s is as much shorter as it has such.
pub proof fn lemma_strip_length(s: Seq<char>, k: int)
    requires
        0 <= k <= s.len(),
        forall|j: int| 0 <= j < k ==> s[j] == '#',
        k == s.len() || s[k] != '#',
    ensures
        strip_hashes(s) == s.skip(k),
        strip_hashes(s).len() == s.len() - k,
{
    lemma_leading_hashes_step(s, k);
    lemma_strip_is_skip(s);
}

fn hex_digit(c: char) -> (r: Option<u32>)
    ensures
        match r {
            Some(d) => digit_value(c) == Some(d as int) && d < 16,
            None => digit_value(c) is None,
        },
{
    let n: u32 = c as u32;
    if 48 <= n && n <= 57 {
        Some(n - 48)
    } else if 97 <= n && n <= 102 {
        Some(n - 87)
    } else if 65 <= n && n <= 70 {
        Some(n - 55)
    } else {
        None
    }
}

/// Reads the number that a colour string writes after its leading `#`s.
pub fn read_hex(text: &str) -> (r: Option<u32>)
    ensures
        r == hex_number(strip_hashes(text@)),
{
    let n: usize = text.unicode_len();
    let mut start: usize = 0;
    while start < n && text.get_char(start) == '#'
        invariant
            n == text@.len(),
            start <= n,
            forall|j: int| 0 <= j < start ==> text@[j] == '#',
        decreases n - start,
    {
        start += 1;
    }
    proof {
        lemma_leading_hashes_step(text@, start as int);
        lemma_strip_is_skip(text@);
    }
    let ghost stripped = text@.skip(start as int);
    assert(stripped == strip_hashes(text@));
    if start < n && n - start > 1 && text.get_char(start) == '+' {
        assert(stripped[0] == text@[start as int]);
        start += 1;
    }
    let ghost body = text@.skip(start as int);
    assert(body =~= unsigned_body(stripped)) by {
        if stripped.len() > 1 && stripped[0] == '+' {
            assert(stripped.skip(1) =~= body);
        } else {
            if start < n {
                assert(stripped[0] == text@[start as int]);
            }
        }
    }
    if start >= n {
        return None;
    }
    let mut value: u64 = 0;
    let mut malformed: bool = false;
    let mut too_large: bool = false;
    let mut i: usize = start;
    assert(body.subrange(0, 0) =~= Seq::<char>::empty());
    while i < n
        invariant
            n == text@.len(),
            start <= i <= n,
            body == text@.skip(start as int),
            malformed ==> digits_value(body.subrange(0, i - start)) is None,
            !malformed ==> (digits_value(body.subrange(0, i - start)) matches Some(v) && (
            if too_large {
                v > u32::MAX
            } else {
                v == value
            })),
            value <= u32::MAX,
        decreases n - i,
    {
        let c: char = text.get_char(i);
        let ghost prefix = body.subrange(0, i - start + 1);
        assert(prefix.drop_last() =~= body.subrange(0, i - start));
        assert(prefix.last() == c);
        match hex_digit(c) {
            Some(d) => {
                if !malformed && !too_large {
                    let next: u64 = value * 16 + d as u64;
                    if next > 0xffff_ffff {
                        too_large = true;
                    } else {
                        value = next;
                    }
                }
            },
            None => {
                malformed = true;
            },
        }
        i += 1;
    }
    assert(body.subrange(0, n - start) =~= body);
    if malformed || too_large {
        None
    } else {
        Some(value as u32)
    }
}

/// Reads the colour number of `text`, or `fallback` where it has none.
pub fn parse_color_number(text: &str, fallback: u32) -> (r: u32)
    ensures
        r == color_number(text@, fallback),
{
    match read_hex(text) {
        Some(v) => v,
        None => fallback,
    }
}

/// The red, green and blue channels of a colour string such as `#cba6f7`;
/// those of the fallback indicator colour where the string cannot be read.
pub fn parse_hex_rgb(hex: &str) -> (rgb: (u8, u8, u8))
    ensures
        rgb.0 == red_of(color_number(hex@, FALLBACK_INDICATOR)),
        rgb.1 == green_of(color_number(hex@, FALLBACK_INDICATOR)),
        rgb.2 == blue_of(color_number(hex@, FALLBACK_INDICATOR)),
{
    let val: u32 = parse_color_number(hex, FALLBACK_INDICATOR);
    (red(val) as u8, green(val) as u8, blue(val) as u8)
}

/// The alpha channel for an opacity in 16.16 fixed point: 255 times the
/// opacity, rounded down.
pub open spec fn opacity_alpha(opacity: u32) -> u32 {
    (opacity as int * 255 / 65536) as u32
}

/// The packed background colour for a colour string and an opacity in 16.16
/// fixed point: the alpha of the opacity moved into the highest byte, joined
/// bit by bit with the colour number.
pub fn parse_hex_color(hex: &str, opacity: u32) -> (out: u32)
    ensures
        out == (opacity_alpha(opacity) << 24) | color_number(hex@, FALLBACK_BACKGROUND),
{
    let rgb: u32 = parse_color_number(hex, FALLBACK_BACKGROUND);
    let a: u32 = ((opacity as u64) * 255 / 65536) as u32;
    (a << 24) | rgb
}

/// An opacity of at most 1 and a colour of six digits give the pixel with
/// that alpha and that colour's three channels.
pub proof fn lemma_tint_is_argb(alpha: u32, rgb: u32)
    requires
        alpha <= 255,
        rgb <= 0xff_ffff,
    ensures
        (alpha << 24) | rgb == argb(alpha as int, red_of(rgb), green_of(rgb), blue_of(rgb)),
{
    assert((alpha << 24) | rgb == alpha * 0x100_0000 + rgb) by (bit_vector)
        requires
            alpha <= 255,
            rgb <= 0xff_ffff,
    ;
    crate::color::lemma_argb_of_channels(rgb);
    assert(crate::color::alpha_of(rgb) == 0);
}

/// The colour of a string of at least six digits with red and blue
/// exchanged, as a window system that puts blue first wants it; the dark
/// fallback where the string is shorter or cannot be read.
pub open spec fn color_bgr(s: Seq<char>) -> u32 {
    let body = strip_hashes(s);
    match hex_number(body) {
        Some(v) => if body.len() >= 6 {
            argb(0, blue_of(v), green_of(v), red_of(v))
        } else {
            FALLBACK_TOOLTIP_BGR
        },
        None => FALLBACK_TOOLTIP_BGR,
    }
}

/// Reads a colour string for a window system that puts blue first.
pub fn parse_color_bgr(hex: &str) -> (out: u32)
    ensures
        out == color_bgr(hex@),
{
    let n: usize = hex.unicode_len();
    let mut start: usize = 0;
    while start < n && hex.get_char(start) == '#'
        invariant
            n == hex@.len(),
            start <= n,
            forall|j: int| 0 <= j < start ==> hex@[j] == '#',
        decreases n - start,
    {
        start += 1;
    }
    proof {
        lemma_leading_hashes_step(hex@, start as int);
        lemma_strip_is_skip(hex@);
    }
    if n - start < 6 {
        return FALLBACK_TOOLTIP_BGR;
    }
    match read_hex(hex) {
        Some(v) => pack(0, blue(v), green(v), red(v)),
        None => FALLBACK_TOOLTIP_BGR,
    }
}

/// A channel raised by `amount`, held to eight bits.
pub open spec fn lighter(c: int, amount: int) -> int {
    if c + amount > 255 {
        255
    } else {
        c + amount
    }
}

fn lighten_channel(c: u32, amount: u32) -> (r: u32)
    requires
        c <= 255,
    ensures
        r == lighter(c as int, amount as int),
        r <= 255,
{
    if amount > 255 - c {
        255
    } else {
        c + amount
    }
}

/// Raises each colour channel of `color` by `amount`, saturating, and
/// clears the highest byte.
pub fn lighten_color(color: u32, amount: u32) -> (out: u32)
    ensures
        out == argb(
            0,
            lighter(red_of(color), amount as int),
            lighter(green_of(color), amount as int),
            lighter(blue_of(color), amount as int),
        ),
{
    let hi: u32 = lighten_channel(red(color), amount);
    let mid: u32 = lighten_channel(green(color), amount);
    let lo: u32 = lighten_channel(blue(color), amount);
    pack(0, hi, mid, lo)
}

} // verus!
