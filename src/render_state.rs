use vstd::prelude::*;

verus! {

/// Opaque white, `0xAARRGGBB`.
pub const WHITE: u32 = 0xFFFF_FFFF;

/// Opaque red, `0xAARRGGBB`.
pub const RED: u32 = 0xFFFF_0000;

/// The bit pattern of the single-precision value `+0.0`.
pub const ZERO_BITS: u32 = 0;

/// A color packed as `0xAARRGGBB`, the layout of the drawing library's color word.
pub open spec fn argb(a: u8, r: u8, g: u8, b: u8) -> u32 {
    (a as int * 0x100_0000 + r as int * 0x1_0000 + g as int * 0x100 + b as int) as u32
}

/// Packs alpha, red, green and blue into one color word.
pub fn color_from_argb(a: u8, r: u8, g: u8, b: u8) -> (c: u32)
    ensures
        c == argb(a, r, g, b),
{
    (a as u32) * 0x100_0000 + (r as u32) * 0x1_0000 + (g as u32) * 0x100 + (b as u32)
}

/// A 2D offset; each coordinate is the bit pattern of an IEEE-754
/// single-precision number.
#[derive(Clone, Copy, Debug, PartialEq, Eq, Structural)]
pub struct Offset {
    pub x: u32,
    pub y: u32,
}

/// An axis-aligned rectangle given by origin and size. Each coordinate is the
/// bit pattern of an IEEE-754 single-precision number, exactly as it came off
/// the wire; the drawing side reinterprets the bits.
#[derive(Clone, Copy, Debug, PartialEq, Eq, Structural)]
pub struct Rect {
    pub x: u32,
    pub y: u32,
    pub width: u32,
    pub height: u32,
}

/// Everything that decides the content of one frame.
///
/// `translate` is carried over from one script to the next.
#[derive(Clone, Copy, Debug, PartialEq, Eq, Structural)]
pub struct RenderState {
    pub clear_color: u32,
    pub fill_color: u32,
    pub rect: Option<Rect>,
    pub translate: Offset,
}

/// The translation `(0.0, 0.0)`.
pub open spec fn origin() -> Offset {
    Offset { x: ZERO_BITS, y: ZERO_BITS }
}

/// White background, red fill, nothing to draw, no translation.
pub open spec fn default_render_state() -> RenderState {
    RenderState { clear_color: WHITE, fill_color: RED, rect: None, translate: origin() }
}

impl Default for RenderState {
    fn default() -> (s: RenderState)
        ensures
            s == default_render_state(),
    {
        RenderState { clear_color: WHITE, fill_color: RED, rect: None, translate: Offset { x: ZERO_BITS, y: ZERO_BITS } }
    }
}

impl RenderState {
    /// The state with the rectangle removed and the translation reset.
    pub open spec fn spec_reset(self) -> RenderState {
        RenderState { rect: None, translate: origin(), ..self }
    }

    /// Removes the rectangle and resets the translation; the colors stay.
    pub fn reset(&mut self)
        ensures
            *final(self) == old(self).spec_reset(),
    {
        self.rect = None;
        self.translate = Offset { x: ZERO_BITS, y: ZERO_BITS };
    }
}

} // verus!
