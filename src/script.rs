use vstd::prelude::*;
use crate::render_state::{argb, Offset, Rect, RenderState};
use crate::stack::{pop_of, pop_push_of, TranslationStack};

verus! {

/// Skips a length-prefixed sub-script without reading it.
pub const OP_DRAW_SCRIPT: u16 = 0x0f;

/// Saves the current translation.
pub const OP_PUSH_STATE: u16 = 0x40;

/// Restores the last saved translation.
pub const OP_POP_STATE: u16 = 0x41;

/// Restores the last saved translation and keeps it saved.
pub const OP_POP_PUSH_STATE: u16 = 0x42;

/// Sets the fill color.
pub const OP_FILL_COLOR: u16 = 0x60;

/// Sets the current translation.
pub const OP_TRANSLATE: u16 = 0x53;

/// Places the rectangle at the current translation.
pub const OP_DRAW_RECT: u16 = 0x04;

/// Why a script was refused.
#[derive(Clone, Copy, Debug, PartialEq, Eq, Structural)]
pub enum DecodeError {
    /// A sub-script opcode without its two-byte length.
    DrawScriptTruncated,
    /// A sub-script shorter than its length and padding say.
    DrawScriptPayloadTruncated,
    PushStateTruncated,
    PopStateTruncated,
    PopPushStateTruncated,
    FillColorTruncated,
    TranslateTruncated,
    DrawRectTruncated,
    /// An opcode outside the table, with its value.
    UnsupportedOpcode(u16),
}

/// The big-endian 16-bit word at `i`.
pub open spec fn be16(b: Seq<u8>, i: int) -> u16 {
    (b[i] as int * 0x100 + b[i + 1] as int) as u16
}

/// The big-endian 32-bit word at `i`.
pub open spec fn be32(b: Seq<u8>, i: int) -> u32 {
    (b[i] as int * 0x100_0000 + b[i + 1] as int * 0x1_0000 + b[i + 2] as int * 0x100
        + b[i + 3] as int) as u32
}

/// Padding that brings a sub-script of `len` bytes to a multiple of four.
pub open spec fn pad_of(len: int) -> int {
    (4 - len % 4) % 4
}

/// Whether `op` is in the opcode table.
pub open spec fn is_known_opcode(op: u16) -> bool {
    op == OP_DRAW_SCRIPT || op == OP_PUSH_STATE || op == OP_POP_STATE || op == OP_POP_PUSH_STATE
        || op == OP_FILL_COLOR || op == OP_TRANSLATE || op == OP_DRAW_RECT
}

/// The number of bytes that must follow a known opcode before anything of it
/// is read (for a sub-script: its length field).
pub open spec fn fixed_payload(op: u16) -> int {
    if op == OP_FILL_COLOR {
        6
    } else if op == OP_TRANSLATE || op == OP_DRAW_RECT {
        10
    } else {
        2
    }
}

/// The error for a known opcode whose fixed payload is cut short.
pub open spec fn truncation_error(op: u16) -> DecodeError {
    if op == OP_DRAW_SCRIPT {
        DecodeError::DrawScriptTruncated
    } else if op == OP_PUSH_STATE {
        DecodeError::PushStateTruncated
    } else if op == OP_POP_STATE {
        DecodeError::PopStateTruncated
    } else if op == OP_POP_PUSH_STATE {
        DecodeError::PopPushStateTruncated
    } else if op == OP_FILL_COLOR {
        DecodeError::FillColorTruncated
    } else if op == OP_TRANSLATE {
        DecodeError::TranslateTruncated
    } else {
        DecodeError::DrawRectTruncated
    }
}

/// Decodes `b` from byte `pos` on, with `state` so far, the current
/// translation `t` and the saved translations `saved`. Fewer than two bytes
/// left end the script; the translation in effect then is kept in the result.
pub open spec fn decode_from(
    b: Seq<u8>,
    pos: int,
    state: RenderState,
    t: Offset,
    saved: Seq<Offset>,
) -> Result<RenderState, DecodeError>
    decreases b.len() - pos,
{
    if pos < 0 || b.len() - pos < 2 {
        Ok(RenderState { translate: t, ..state })
    } else {
        let op = be16(b, pos);
        let p = pos + 2;
        let left = b.len() - p;
        if !is_known_opcode(op) {
            Err(DecodeError::UnsupportedOpcode(op))
        } else if left < fixed_payload(op) {
            Err(truncation_error(op))
        } else if op == OP_DRAW_SCRIPT {
            let len = be16(b, p) as int;
            if left - 2 < len + pad_of(len) {
                Err(DecodeError::DrawScriptPayloadTruncated)
            } else {
                decode_from(b, p + 2 + len + pad_of(len), state, t, saved)
            }
        } else if op == OP_PUSH_STATE {
            decode_from(b, p + 2, state, t, saved.push(t))
        } else if op == OP_POP_STATE {
            decode_from(b, p + 2, state, pop_of(saved).0, pop_of(saved).1)
        } else if op == OP_POP_PUSH_STATE {
            decode_from(b, p + 2, state, pop_push_of(saved).0, pop_push_of(saved).1)
        } else if op == OP_FILL_COLOR {
            let color = argb(b[p + 5], b[p + 2], b[p + 3], b[p + 4]);
            decode_from(b, p + 6, RenderState { fill_color: color, ..state }, t, saved)
        } else if op == OP_TRANSLATE {
            decode_from(b, p + 10, state, Offset { x: be32(b, p + 2), y: be32(b, p + 6) }, saved)
        } else {
            let rect = Rect { x: t.x, y: t.y, width: be32(b, p + 2), height: be32(b, p + 6) };
            let next = if be16(b, p) % 2 == 1 {
                RenderState { rect: Some(rect), ..state }
            } else {
                state
            };
            decode_from(b, p + 10, next, t, saved)
        }
    }
}

/// The state that decoding script `b` over `state` gives, or why it fails.
/// The translation starts at `state.translate` with nothing saved.
pub open spec fn decode(b: Seq<u8>, state: RenderState) -> Result<RenderState, DecodeError> {
    decode_from(b, 0, state, state.translate, Seq::empty())
}

fn read_u16(b: &[u8], i: usize) -> (v: u16)
    requires
        i + 2 <= b@.len(),
    ensures
        v == be16(b@, i as int),
{
    (b[i] as u16) * 0x100 + (b[i + 1] as u16)
}

fn read_u32(b: &[u8], i: usize) -> (v: u32)
    requires
        i + 4 <= b@.len(),
    ensures
        v == be32(b@, i as int),
{
    (b[i] as u32) * 0x100_0000 + (b[i + 1] as u32) * 0x1_0000 + (b[i + 2] as u32) * 0x100
        + (b[i + 3] as u32)
}

/// Applies the scene script `script` to `state`.
///
/// On success `state` becomes exactly what `decode` gives; on failure it is
/// left as it was, so a malformed script is never half applied.
pub fn parse_script(script: &[u8], state: &mut RenderState) -> (r: Result<(), DecodeError>)
    ensures
        match decode(script@, *old(state)) {
            Ok(s) => r is Ok && *final(state) == s,
            Err(e) => r == Err::<(), DecodeError>(e) && *final(state) == *old(state),
        },
{
    let ghost start = *state;
    let n = script.len();
    let mut work = *state;
    let mut t = state.translate;
    let mut saved = TranslationStack::new();
    let mut pos: usize = 0;
    while n - pos >= 2
        invariant
            n == script@.len(),
            pos <= n,
            start == *state,
            decode_from(script@, pos as int, work, t, saved@) == decode(script@, start),
        decreases n - pos,
    {
        let op = read_u16(script, pos);
        let p = pos + 2;
        let left = n - p;
        if op == OP_DRAW_SCRIPT {
            if left < 2 {
                return Err(DecodeError::DrawScriptTruncated);
            }
            let len = read_u16(script, p) as usize;
            let total = len + (4 - len % 4) % 4;
            if left - 2 < total {
                return Err(DecodeError::DrawScriptPayloadTruncated);
            }
            pos = p + 2 + total;
        } else if op == OP_PUSH_STATE {
            if left < 2 {
                return Err(DecodeError::PushStateTruncated);
            }
            saved.push(t);
            pos = p + 2;
        } else if op == OP_POP_STATE {
            if left < 2 {
                return Err(DecodeError::PopStateTruncated);
            }
            t = saved.pop();
            pos = p + 2;
        } else if op == OP_POP_PUSH_STATE {
            if left < 2 {
                return Err(DecodeError::PopPushStateTruncated);
            }
            t = saved.pop_push();
            pos = p + 2;
        } else if op == OP_FILL_COLOR {
            if left < 6 {
                return Err(DecodeError::FillColorTruncated);
            }
            work.fill_color = crate::render_state::color_from_argb(
                script[p + 5],
                script[p + 2],
                script[p + 3],
                script[p + 4],
            );
            pos = p + 6;
        } else if op == OP_TRANSLATE {
            if left < 10 {
                return Err(DecodeError::TranslateTruncated);
            }
            t = Offset { x: read_u32(script, p + 2), y: read_u32(script, p + 6) };
            pos = p + 10;
        } else if op == OP_DRAW_RECT {
            if left < 10 {
                return Err(DecodeError::DrawRectTruncated);
            }
            let flag = read_u16(script, p);
            if flag % 2 == 1 {
                work.rect = Some(
                    Rect { x: t.x, y: t.y, width: read_u32(script, p + 2), height: read_u32(script, p + 6) },
                );
            }
            pos = p + 10;
        } else {
            return Err(DecodeError::UnsupportedOpcode(op));
        }
    }
    work.translate = t;
    *state = work;
    Ok(())
}

} // verus!

verus! {

/// The lowercase hexadecimal digit of `d`.
pub open spec fn hex_digit(d: int) -> char {
    "0123456789abcdef"@[d]
}

/// `v` in lowercase hexadecimal, without leading zeros but at least two digits.
pub open spec fn hex_of(v: u16) -> Seq<char> {
    let v = v as int;
    if v >= 0x1000 {
        seq![hex_digit(v / 0x1000), hex_digit(v / 0x100 % 16), hex_digit(v / 16 % 16), hex_digit(v % 16)]
    } else if v >= 0x100 {
        seq![hex_digit(v / 0x100), hex_digit(v / 16 % 16), hex_digit(v % 16)]
    } else {
        seq![hex_digit(v / 16), hex_digit(v % 16)]
    }
}

fn push_hex_digit(s: &mut String, d: u16)
    requires
        d < 16,
    ensures
        final(s)@ == old(s)@.push(hex_digit(d as int)),
{
    let digits = "0123456789abcdef";
    proof {
        reveal_strlit("0123456789abcdef");
    }
    let one = digits.substring_ascii(d as usize, d as usize + 1);
    s.append(one);
    proof {
        assert(one@ =~= seq![hex_digit(d as int)]);
    }
}

impl DecodeError {
    /// The text of `message`.
    pub open spec fn spec_message(self) -> Seq<char> {
        match self {
            DecodeError::DrawScriptTruncated => "draw_script opcode truncated"@,
            DecodeError::DrawScriptPayloadTruncated => "draw_script payload truncated"@,
            DecodeError::PushStateTruncated => "push_state opcode truncated"@,
            DecodeError::PopStateTruncated => "pop_state opcode truncated"@,
            DecodeError::PopPushStateTruncated => "pop_push_state opcode truncated"@,
            DecodeError::FillColorTruncated => "fill_color opcode truncated"@,
            DecodeError::TranslateTruncated => "translate opcode truncated"@,
            DecodeError::DrawRectTruncated => "draw_rect opcode truncated"@,
            DecodeError::UnsupportedOpcode(op) => "unsupported opcode: 0x"@ + hex_of(op),
        }
    }

    /// A one-line description for the caller.
    pub fn message(&self) -> (r: String)
        ensures
            r@ == self.spec_message(),
    {
        match self {
            DecodeError::DrawScriptTruncated => String::from_str("draw_script opcode truncated"),
            DecodeError::DrawScriptPayloadTruncated => String::from_str("draw_script payload truncated"),
            DecodeError::PushStateTruncated => String::from_str("push_state opcode truncated"),
            DecodeError::PopStateTruncated => String::from_str("pop_state opcode truncated"),
            DecodeError::PopPushStateTruncated => String::from_str("pop_push_state opcode truncated"),
            DecodeError::FillColorTruncated => String::from_str("fill_color opcode truncated"),
            DecodeError::TranslateTruncated => String::from_str("translate opcode truncated"),
            DecodeError::DrawRectTruncated => String::from_str("draw_rect opcode truncated"),
            DecodeError::UnsupportedOpcode(op) => {
                let v = *op;
                let mut s = String::from_str("unsupported opcode: 0x");
                if v >= 0x1000 {
                    push_hex_digit(&mut s, v / 0x1000);
                }
                if v >= 0x100 {
                    push_hex_digit(&mut s, v / 0x100 % 16);
                }
                push_hex_digit(&mut s, v / 16 % 16);
                push_hex_digit(&mut s, v % 16);
                proof {
                    let p = "unsupported opcode: 0x"@;
                    assert(s@ =~= p + hex_of(v));
                }
                s
            },
        }
    }
}

} // verus!
