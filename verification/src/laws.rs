//! Laws that relate several functions of the library.

use vstd::prelude::*;
use crate::call::{flag, GxCall};
use crate::color::{Color, OPAQUE};
use crate::gx::{Gx, CLIP_DISABLE, CLIP_ENABLE};

verus! {

/// `Color::new(r, g, b)` is `Color::with_alpha(r, g, b, 255)`: a color made without an alpha
/// is fully opaque.
pub proof fn lemma_new_is_opaque(r: u8, g: u8, b: u8)
    ensures
        Color::spec_new(r, g, b) == Color::spec_with_alpha(r, g, b, OPAQUE),
        Color::spec_new(r, g, b).a == 255,
{
}

/// `Gx::enable_clip()` is `Gx::set_clip_mode(GX_CLIP_ENABLE)`, `Gx::disable_clip()` is
/// `Gx::set_clip_mode(GX_CLIP_DISABLE)`, and the two set different modes.
pub proof fn lemma_clip_toggles()
    ensures
        Gx::spec_enable_clip() == Gx::spec_set_clip_mode(CLIP_ENABLE),
        Gx::spec_disable_clip() == Gx::spec_set_clip_mode(CLIP_DISABLE),
        Gx::spec_enable_clip() != Gx::spec_disable_clip(),
{
}

/// `Gx::color_color(c)` sends what `Gx::color_4u8(c.r, c.b, c.g, c.a)` sends: `color_4u8`
/// takes its second and third arguments as blue and green.
pub proof fn lemma_color_color_is_color_4u8(c: Color)
    ensures
        Gx::spec_color_color(c) == Gx::spec_color_4u8(c.r, c.b, c.g, c.a),
{
}

/// Sending a color made by `Color::new` sends its components in RGBA order with alpha 255.
pub proof fn lemma_color_color_of_new(r: u8, g: u8, b: u8)
    ensures
        Gx::spec_color_color(Color::spec_new(r, g, b)) == (GxCall::Color4u8 { r, g, b, a: 255 }),
{
}

/// libogc's booleans: `true` is sent as 1 and `false` as 0, so the two never meet.
pub proof fn lemma_flag_values(b: bool)
    ensures
        flag(b) == 1 || flag(b) == 0,
        flag(b) == 1 <==> b,
        flag(true) != flag(false),
{
}

/// A color made with an alpha keeps every component it was given, the alpha included: red,
/// green, blue and alpha are the first, second, third and fourth argument, for every value.
pub proof fn lemma_with_alpha_keeps_components(r: u8, g: u8, b: u8, a: u8)
    ensures
        Color::spec_with_alpha(r, g, b, a).r == r,
        Color::spec_with_alpha(r, g, b, a).g == g,
        Color::spec_with_alpha(r, g, b, a).b == b,
        Color::spec_with_alpha(r, g, b, a).a == a,
{
}

/// Two colors made with an alpha are equal exactly when all four arguments are.
pub proof fn lemma_with_alpha_injective(
    r1: u8, g1: u8, b1: u8, a1: u8,
    r2: u8, g2: u8, b2: u8, a2: u8,
)
    ensures
        Color::spec_with_alpha(r1, g1, b1, a1) == Color::spec_with_alpha(r2, g2, b2, a2)
            <==> (r1 == r2 && g1 == g2 && b1 == b2 && a1 == a2),
{
}

/// An opaque color keeps its red, green and blue in argument order, and its alpha is 255.
pub proof fn lemma_new_keeps_components(r: u8, g: u8, b: u8)
    ensures
        Color::spec_new(r, g, b).r == r,
        Color::spec_new(r, g, b).g == g,
        Color::spec_new(r, g, b).b == b,
        Color::spec_new(r, g, b).a == 255,
{
}

/// Sending a color sends each of its components unchanged, for every color and any alpha.
pub proof fn lemma_color_color_sends_components(c: Color)
    ensures
        Gx::spec_color_color(c) == (GxCall::Color4u8 { r: c.r, g: c.g, b: c.b, a: c.a }),
{
}

/// `color_4u8(x1, x2, x3, x4)` sends `x1` as red, `x3` as green, `x2` as blue and `x4` as
/// alpha, unchanged, for every value.
pub proof fn lemma_color_4u8_argument_order(x1: u8, x2: u8, x3: u8, x4: u8)
    ensures
        Gx::spec_color_4u8(x1, x2, x3, x4) == (GxCall::Color4u8 { r: x1, g: x3, b: x2, a: x4 }),
{
}

/// Clearing the copy to a color made by `Color::new` clears to that color, fully opaque.
pub proof fn lemma_copy_clear_of_new(r: u8, g: u8, b: u8, z: u32)
    ensures
        (GxCall::SetCopyClear { background: Color::spec_new(r, g, b), z_value: z })
            == (GxCall::SetCopyClear { background: Color { r, g, b, a: 255 }, z_value: z }),
{
}

/// The clip calls send the mode they are given: `set_clip_mode(m)` sends `m`, `enable_clip`
/// sends 0 (`GX_CLIP_ENABLE`) and `disable_clip` sends 1 (`GX_CLIP_DISABLE`).
pub proof fn lemma_clip_modes_sent(m: u8)
    ensures
        Gx::spec_set_clip_mode(m) == (GxCall::SetClipMode { mode: m }),
        Gx::spec_enable_clip() == (GxCall::SetClipMode { mode: 0 }),
        Gx::spec_disable_clip() == (GxCall::SetClipMode { mode: 1 }),
{
}

} // verus!
