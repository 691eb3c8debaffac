//! The names under which the platform keeps its fonts, and the fitting of
//! rendered text to the grid.
use vstd::prelude::*;
use vstd::string::StringExecFns;
use crate::pages::SQUARE_SIZE;
use crate::platform::FontStyle;
use crate::rect::Rect;

verus! {

/// The digit `d` as text.
pub open spec fn digit_text(d: int) -> Seq<char> {
    if d == 0 {
        "0"@
    } else if d == 1 {
        "1"@
    } else if d == 2 {
        "2"@
    } else if d == 3 {
        "3"@
    } else if d == 4 {
        "4"@
    } else if d == 5 {
        "5"@
    } else if d == 6 {
        "6"@
    } else if d == 7 {
        "7"@
    } else if d == 8 {
        "8"@
    } else {
        "9"@
    }
}

/// The number `n` in decimal digits, without leading zeros.
pub open spec fn decimal(n: nat) -> Seq<char>
    decreases n,
{
    if n < 10 {
        digit_text(n as int)
    } else {
        decimal(n / 10) + digit_text((n % 10) as int)
    }
}

/// What a style adds to the name of a font family: the weight, then the
/// slant. Underline and strike-through add nothing.
pub open spec fn style_suffix(style: FontStyle) -> Seq<char> {
    if style.bold && style.italic {
        "-Bold"@ + "Italic"@
    } else if style.bold {
        "-Bold"@
    } else if style.italic {
        "-Italic"@
    } else {
        Seq::empty()
    }
}

/// The name under which the font of a family, style and size is kept: the
/// family, the style's suffix, an underscore and the size in points.
pub open spec fn font_key_spec(font_name: Seq<char>, style: FontStyle, point: u16) -> Seq<char> {
    font_name + style_suffix(style) + "_"@ + decimal(point as nat)
}

fn digit_str(d: u16) -> (s: &'static str)
    requires
        d < 10,
    ensures
        s@ == digit_text(d as int),
{
    if d == 0 {
        "0"
    } else if d == 1 {
        "1"
    } else if d == 2 {
        "2"
    } else if d == 3 {
        "3"
    } else if d == 4 {
        "4"
    } else if d == 5 {
        "5"
    } else if d == 6 {
        "6"
    } else if d == 7 {
        "7"
    } else if d == 8 {
        "8"
    } else {
        "9"
    }
}

/// Writes `n` in decimal digits behind `s`.
pub fn push_decimal(s: &mut String, n: u16)
    ensures
        final(s)@ == old(s)@ + decimal(n as nat),
    decreases n,
{
    if n >= 10 {
        push_decimal(s, n / 10);
    }
    s.append(digit_str(n % 10));
    assert(s@ =~= old(s)@ + decimal(n as nat));
}

/// The name under which the font of a family, style and size is kept.
pub fn font_key(font_name: &str, font_style: FontStyle, point: u16) -> (key: String)
    ensures
        key@ == font_key_spec(font_name@, font_style, point),
{
    let mut key = String::from_str(font_name);
    if font_style.bold {
        key.append("-Bold");
        if font_style.italic {
            key.append("Italic");
        }
    } else if font_style.italic {
        key.append("-Italic");
    }
    assert(key@ =~= font_name@ + style_suffix(font_style));
    key.append("_");
    push_decimal(&mut key, point);
    key
}

/// How far the top of rendered text is cut so that its baseline meets the
/// bottom line of a cell: the font's ascent less the cell's inside.
pub open spec fn baseline_cut(ascent: int) -> int {
    ascent - (SQUARE_SIZE - 1)
}

/// The part of a line rendered `width` pixels wide, in a font of the given
/// ascent and height, that is kept: all of its width, from the baseline cut
/// down to the font's height. `None` where the numbers make no rectangle.
pub fn text_clip(width: u32, ascent: i32, height: i32) -> (clip: Option<Rect>)
    ensures
        clip is Some <==> 0 <= height - baseline_cut(ascent as int) <= u32::MAX && baseline_cut(
            ascent as int,
        ) >= i32::MIN,
        clip matches Some(r) ==> {
            &&& r.x == 0
            &&& r.y == baseline_cut(ascent as int)
            &&& r.w == width
            &&& r.h == height - baseline_cut(ascent as int)
        },
{
    let cut: i64 = ascent as i64 - (SQUARE_SIZE as i64 - 1);
    let kept: i64 = height as i64 - cut;
    if kept < 0 || kept > 0xffff_ffff || cut < -0x8000_0000 {
        None
    } else {
        Some(Rect::new(0, cut as i32, width, kept as u32))
    }
}

/// Where a new texture of an object goes among the textures it has.
#[derive(Clone, Copy, Debug, PartialEq, Eq, Structural)]
pub enum Slot {
    /// In place of the texture at this index.
    Replace(usize),
    /// Behind the last texture.
    Append,
}

/// Where a texture meant for `index` goes among `len` textures: at `index`
/// where there is a texture, and behind the last otherwise, as it does
/// where no index is given.
pub fn texture_slot(len: usize, index: Option<usize>) -> (slot: Slot)
    ensures
        slot == match index {
            Some(i) => if i < len {
                Slot::Replace(i)
            } else {
                Slot::Append
            },
            None => Slot::Append,
        },
{
    match index {
        Some(i) => {
            if i < len {
                Slot::Replace(i)
            } else {
                Slot::Append
            }
        },
        None => Slot::Append,
    }
}

} // verus!
