use vstd::prelude::*;
use crate::render_state::{argb, Offset, Rect, RenderState};
use crate::script::{
    be16, be32, decode, decode_from, fixed_payload, is_known_opcode, pad_of, truncation_error,
    DecodeError, OP_DRAW_SCRIPT, OP_FILL_COLOR, OP_POP_PUSH_STATE, OP_POP_STATE, OP_PUSH_STATE,
    OP_TRANSLATE,
};
use crate::stack::{pop_of, pop_push_of};

verus! {

/// Decoding the two states `s1` and `s2` with the same bytes, translation and
/// saved translations gives the same outcome, except that a field the script
/// never writes keeps each state's own value.
proof fn lemma_decode_two_states(
    b: Seq<u8>,
    pos: int,
    s1: RenderState,
    s2: RenderState,
    t: Offset,
    saved: Seq<Offset>,
)
    ensures
        (decode_from(b, pos, s1, t, saved) is Ok) == (decode_from(b, pos, s2, t, saved) is Ok),
        decode_from(b, pos, s1, t, saved) is Err ==> decode_from(b, pos, s1, t, saved)
            == decode_from(b, pos, s2, t, saved),
        decode_from(b, pos, s1, t, saved) is Ok ==> ({
            let r1 = decode_from(b, pos, s1, t, saved)->Ok_0;
            let r2 = decode_from(b, pos, s2, t, saved)->Ok_0;
            &&& r1.clear_color == s1.clear_color
            &&& r2.clear_color == s2.clear_color
            &&& ((r1.fill_color == s1.fill_color && r2.fill_color == s2.fill_color)
                || r1.fill_color == r2.fill_color)
            &&& ((r1.rect == s1.rect && r2.rect == s2.rect) || r1.rect == r2.rect)
            &&& r1.translate == r2.translate
        }),
    decreases b.len() - pos,
{
    if pos < 0 || b.len() - pos < 2 {
    } else {
        let op = be16(b, pos);
        let p = pos + 2;
        let left = b.len() - p;
        if !is_known_opcode(op) || left < fixed_payload(op) {
        } else if op == OP_DRAW_SCRIPT {
            let len = be16(b, p) as int;
            if left - 2 >= len + pad_of(len) {
                lemma_decode_two_states(b, p + 2 + len + pad_of(len), s1, s2, t, saved);
            }
        } else if op == OP_PUSH_STATE {
            lemma_decode_two_states(b, p + 2, s1, s2, t, saved.push(t));
        } else if op == OP_POP_STATE {
            lemma_decode_two_states(b, p + 2, s1, s2, pop_of(saved).0, pop_of(saved).1);
        } else if op == OP_POP_PUSH_STATE {
            lemma_decode_two_states(b, p + 2, s1, s2, pop_push_of(saved).0, pop_push_of(saved).1);
        } else if op == OP_FILL_COLOR {
            let color = argb(b[p + 5], b[p + 2], b[p + 3], b[p + 4]);
            lemma_decode_two_states(
                b,
                p + 6,
                RenderState { fill_color: color, ..s1 },
                RenderState { fill_color: color, ..s2 },
                t,
                saved,
            );
        } else if op == OP_TRANSLATE {
            lemma_decode_two_states(
                b,
                p + 10,
                s1,
                s2,
                Offset { x: be32(b, p + 2), y: be32(b, p + 6) },
                saved,
            );
        } else {
            let rect = Rect { x: t.x, y: t.y, width: be32(b, p + 2), height: be32(b, p + 6) };
            if be16(b, p) % 2 == 1 {
                lemma_decode_two_states(
                    b,
                    p + 10,
                    RenderState { rect: Some(rect), ..s1 },
                    RenderState { rect: Some(rect), ..s2 },
                    t,
                    saved,
                );
            } else {
                lemma_decode_two_states(b, p + 10, s1, s2, t, saved);
            }
        }
    }
}

/// Re-applying a script to the state it produced changes nothing, provided
/// the script left the translation where it found it (otherwise the second
/// pass would place its rectangle from another starting translation).
pub proof fn lemma_reapply_is_idempotent(b: Seq<u8>, s: RenderState)
    requires
        decode(b, s) is Ok,
        decode(b, s)->Ok_0.translate == s.translate,
    ensures
        decode(b, decode(b, s)->Ok_0) == decode(b, s),
{
    let s1 = decode(b, s)->Ok_0;
    lemma_decode_two_states(b, 0, s, s1, s.translate, Seq::empty());
}

/// A known opcode followed by fewer bytes than its fixed payload fails with
/// the truncation error that names it, whatever the state.
pub proof fn lemma_truncated_opcode_fails(b: Seq<u8>, s: RenderState)
    requires
        b.len() >= 2,
        is_known_opcode(be16(b, 0)),
        b.len() - 2 < fixed_payload(be16(b, 0)),
    ensures
        decode(b, s) == Err::<RenderState, DecodeError>(truncation_error(be16(b, 0))),
{
}

/// A sub-script whose length field promises more bytes (with padding) than
/// remain fails with the payload-truncation error.
pub proof fn lemma_truncated_sub_script_fails(b: Seq<u8>, s: RenderState)
    requires
        b.len() >= 4,
        be16(b, 0) == OP_DRAW_SCRIPT,
        b.len() - 4 < be16(b, 2) as int + pad_of(be16(b, 2) as int),
    ensures
        decode(b, s) == Err::<RenderState, DecodeError>(DecodeError::DrawScriptPayloadTruncated),
{
}

/// An opcode outside the table fails with its value, whatever follows it and
/// whatever the state.
pub proof fn lemma_unknown_opcode_fails(b: Seq<u8>, s: RenderState)
    requires
        b.len() >= 2,
        !is_known_opcode(be16(b, 0)),
    ensures
        decode(b, s) == Err::<RenderState, DecodeError>(DecodeError::UnsupportedOpcode(be16(b, 0))),
{
}

/// Decoding from a position past a prefix `a` reads only the bytes of `c`.
proof fn lemma_decode_suffix(
    a: Seq<u8>,
    c: Seq<u8>,
    pos: int,
    s: RenderState,
    t: Offset,
    saved: Seq<Offset>,
)
    requires
        pos >= a.len(),
    ensures
        decode_from(a + c, pos, s, t, saved) == decode_from(c, pos - a.len(), s, t, saved),
    decreases (a + c).len() - pos,
{
    let b = a + c;
    let q = pos - a.len();
    if b.len() - pos >= 2 {
        assert forall|i: int| 0 <= i < c.len() - q implies #[trigger] b[pos + i] == c[q + i] by {}
        assert(b[pos] == c[q] && b[pos + 1] == c[q + 1]);
        let op = be16(b, pos);
        let p = pos + 2;
        let left = b.len() - p;
        if !is_known_opcode(op) || left < fixed_payload(op) {
        } else if op == OP_DRAW_SCRIPT {
            assert(b[p] == c[q + 2] && b[p + 1] == c[q + 3]);
            let len = be16(b, p) as int;
            if left - 2 >= len + pad_of(len) {
                lemma_decode_suffix(a, c, p + 2 + len + pad_of(len), s, t, saved);
            }
        } else if op == OP_PUSH_STATE {
            lemma_decode_suffix(a, c, p + 2, s, t, saved.push(t));
        } else if op == OP_POP_STATE {
            lemma_decode_suffix(a, c, p + 2, s, pop_of(saved).0, pop_of(saved).1);
        } else if op == OP_POP_PUSH_STATE {
            lemma_decode_suffix(a, c, p + 2, s, pop_push_of(saved).0, pop_push_of(saved).1);
        } else if op == OP_FILL_COLOR {
            assert(b[p + 2] == c[q + 4] && b[p + 3] == c[q + 5] && b[p + 4] == c[q + 6]
                && b[p + 5] == c[q + 7]);
            let color = argb(b[p + 5], b[p + 2], b[p + 3], b[p + 4]);
            lemma_decode_suffix(a, c, p + 6, RenderState { fill_color: color, ..s }, t, saved);
        } else {
            assert forall|k: int| 0 <= k < 10 implies #[trigger] b[p + k] == c[q + 2 + k] by {
                assert(b[pos + (2 + k)] == c[q + (2 + k)]);
            }
            assert(b[p] == c[q + 2] && b[p + 1] == c[q + 3]);
            assert(b[p + 2] == c[q + 4] && b[p + 3] == c[q + 5] && b[p + 4] == c[q + 6]
                && b[p + 5] == c[q + 7]);
            assert(b[p + 6] == c[q + 8] && b[p + 7] == c[q + 9] && b[p + 8] == c[q + 10]
                && b[p + 9] == c[q + 11]);
            let x = Offset { x: be32(b, p + 2), y: be32(b, p + 6) };
            let rect = Rect { x: t.x, y: t.y, width: be32(b, p + 2), height: be32(b, p + 6) };
            if op == OP_TRANSLATE {
                lemma_decode_suffix(a, c, p + 10, s, x, saved);
            } else if be16(b, p) % 2 == 1 {
                lemma_decode_suffix(a, c, p + 10, RenderState { rect: Some(rect), ..s }, t, saved);
            } else {
                lemma_decode_suffix(a, c, p + 10, s, t, saved);
            }
        }
    }
}

/// A sub-script is skipped whole: its length field, then exactly `len` bytes
/// and `pad_of(len)` bytes of padding, whatever they hold. Decoding then goes
/// on with what follows as if the sub-script had not been there.
pub proof fn lemma_sub_script_is_skipped(len: u16, body: Seq<u8>, rest: Seq<u8>, s: RenderState)
    requires
        body.len() == len as int + pad_of(len as int),
    ensures
        decode(seq![0u8, 0x0fu8, (len / 256) as u8, (len % 256) as u8] + body + rest, s)
            == decode(rest, s),
{
    let head = seq![0u8, 0x0fu8, (len / 256) as u8, (len % 256) as u8];
    let b = head + body + rest;
    assert(b[0] == 0u8 && b[1] == 0x0fu8);
    assert(b[2] == (len / 256) as u8 && b[3] == (len % 256) as u8);
    assert(be16(b, 2) == len);
    assert(b == (head + body) + rest);
    lemma_decode_suffix(head + body, rest, 4 + len as int + pad_of(len as int), s, s.translate, Seq::empty());
}

} // verus!
