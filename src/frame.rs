use vstd::prelude::*;
use crate::render_state::{Rect, RenderState};

verus! {

/// Opaque black, `0xAARRGGBB`: the color of the caption.
pub const BLACK: u32 = 0xFF00_0000;

/// What one redraw paints, in order: the background, then the rectangle if
/// there is one, then the caption if there is any text.
#[derive(Clone, Copy, Debug, PartialEq, Eq, Structural)]
pub struct FramePlan {
    pub clear_color: u32,
    pub rect: Option<Rect>,
    pub fill_color: u32,
    pub draw_text: bool,
    pub text_color: u32,
}

/// The frame that `state` and the caption `text` call for.
pub fn frame_plan(state: &RenderState, text: &str) -> (p: FramePlan)
    ensures
        p.clear_color == state.clear_color,
        p.rect == state.rect,
        p.fill_color == state.fill_color,
        p.draw_text == (text@.len() > 0),
        p.text_color == BLACK,
{
    FramePlan {
        clear_color: state.clear_color,
        rect: state.rect,
        fill_color: state.fill_color,
        draw_text: !text.is_empty(),
        text_color: BLACK,
    }
}

} // verus!
