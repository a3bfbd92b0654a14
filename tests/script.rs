use scenic_driver_skia::parse_script;
use scenic_driver_skia::render_state::{color_from_argb, Offset, Rect, RenderState};
use scenic_driver_skia::script::DecodeError;
use scenic_driver_skia::stack::TranslationStack;

fn rect_of(x: f32, y: f32, w: f32, h: f32) -> Rect {
    Rect { x: x.to_bits(), y: y.to_bits(), width: w.to_bits(), height: h.to_bits() }
}

fn error_text(script: &[u8]) -> String {
    let mut state = RenderState::default();
    parse_script(script, &mut state).unwrap_err().message()
}

#[test]
fn parse_fill_and_rect() {
    let script: [u8; 20] = [
        0x00, 0x60, 0x00, 0x00, 0xFF, 0x00, 0x00, 0xFF, 0x00, 0x04, 0x00, 0x01, 0x42, 0x20,
        0x00, 0x00, 0x41, 0xA0, 0x00, 0x00,
    ];
    let mut state = RenderState::default();
    state.rect = None;
    parse_script(&script, &mut state).expect("parse_script failed");

    assert_eq!(state.fill_color, color_from_argb(0xFF, 0xFF, 0x00, 0x00));
    assert_eq!(state.rect, Some(rect_of(0.0, 0.0, 40.0, 20.0)));
}

#[test]
fn parse_rejects_truncated_fill_color() {
    let script: [u8; 4] = [0x00, 0x60, 0x00, 0x00];
    let err = error_text(&script);
    assert!(err.contains("fill_color opcode truncated"));
}

#[test]
fn parse_rejects_truncated_rect() {
    let script: [u8; 6] = [0x00, 0x04, 0x00, 0x01, 0x00, 0x00];
    let err = error_text(&script);
    assert!(err.contains("draw_rect opcode truncated"));
}

#[test]
fn parse_rejects_unknown_opcode() {
    let script: [u8; 2] = [0x12, 0x34];
    let err = error_text(&script);
    assert!(err.contains("unsupported opcode"));
}

#[test]
fn parse_translate_affects_rect() {
    let script: [u8; 40] = [
        0x00, 0x40, 0x00, 0x00, 0x00, 0x53, 0x00, 0x00, 0x42, 0x48, 0x00, 0x00, 0x42, 0x70,
        0x00, 0x00, 0x00, 0x60, 0x00, 0x00, 0x00, 0xFF, 0x00, 0xFF, 0x00, 0x04, 0x00, 0x01,
        0x41, 0x20, 0x00, 0x00, 0x41, 0xA0, 0x00, 0x00, 0x00, 0x41, 0x00, 0x00,
    ];
    let mut state = RenderState::default();
    parse_script(&script, &mut state).expect("parse_script failed");

    assert_eq!(state.rect, Some(rect_of(50.0, 60.0, 10.0, 20.0)));
}

#[test]
fn parse_skips_draw_script() {
    let mut script: Vec<u8> = vec![0x00, 0x0f, 0x00, 0x04];
    script.extend_from_slice(b"root");
    script.extend_from_slice(&[
        0x00, 0x60, 0x00, 0x00, 0xFF, 0x00, 0x00, 0xFF, 0x00, 0x04, 0x00, 0x01, 0x41, 0x20,
        0x00, 0x00, 0x41, 0xA0, 0x00, 0x00,
    ]);

    let mut state = RenderState::default();
    parse_script(&script, &mut state).expect("parse_script failed");
    assert!(state.rect.is_some());
}

#[test]
fn unknown_opcode_names_its_value_and_keeps_state() {
    let script: [u8; 12] = [0x00, 0x60, 0x00, 0x00, 0x01, 0x02, 0x03, 0x04, 0x12, 0x34, 0x00, 0x00];
    let mut state = RenderState::default();
    let before = state;
    let err = parse_script(&script, &mut state).unwrap_err();
    assert_eq!(err, DecodeError::UnsupportedOpcode(0x1234));
    assert_eq!(err.message(), "unsupported opcode: 0x1234");
    assert_eq!(state, before);
    assert_eq!(DecodeError::UnsupportedOpcode(0x7).message(), "unsupported opcode: 0x07");
    assert_eq!(DecodeError::UnsupportedOpcode(0x123).message(), "unsupported opcode: 0x123");
}

#[test]
fn every_truncated_opcode_is_named() {
    assert_eq!(error_text(&[0x00, 0x0f, 0x00]), "draw_script opcode truncated");
    assert_eq!(error_text(&[0x00, 0x0f, 0x00, 0x05, 1, 2, 3, 4, 5, 0, 0]), "draw_script payload truncated");
    assert_eq!(error_text(&[0x00, 0x40, 0x00]), "push_state opcode truncated");
    assert_eq!(error_text(&[0x00, 0x41]), "pop_state opcode truncated");
    assert_eq!(error_text(&[0x00, 0x42, 0x00]), "pop_push_state opcode truncated");
    assert_eq!(error_text(&[0x00, 0x60, 0, 0, 1, 2, 3]), "fill_color opcode truncated");
    assert_eq!(error_text(&[0x00, 0x53, 0, 0, 0, 0, 0, 0, 0, 0, 0]), "translate opcode truncated");
}

#[test]
fn sub_script_padding_is_skipped() {
    // length 5 is padded to 8; whatever the bytes hold is not read
    let script: Vec<u8> = vec![
        0x00, 0x0f, 0x00, 0x05, 0x12, 0x34, 0x56, 0x78, 0x9a, 0xbc, 0xde, 0xf0, 0x00, 0x60, 0x00,
        0x00, 0x01, 0x02, 0x03, 0x04,
    ];
    let mut state = RenderState::default();
    parse_script(&script, &mut state).expect("parse_script failed");
    assert_eq!(state.fill_color, 0x0401_0203);
}

#[test]
fn reapplying_a_translation_neutral_script_changes_nothing() {
    let script: [u8; 20] = [
        0x00, 0x60, 0x00, 0x00, 0xFF, 0x00, 0x00, 0xFF, 0x00, 0x04, 0x00, 0x01, 0x42, 0x20,
        0x00, 0x00, 0x41, 0xA0, 0x00, 0x00,
    ];
    let mut once = RenderState::default();
    parse_script(&script, &mut once).unwrap();
    let mut twice = once;
    parse_script(&script, &mut twice).unwrap();
    assert_eq!(once, twice);
}

#[test]
fn translation_persists_and_pop_on_empty_gives_origin() {
    let script: [u8; 12] = [0x00, 0x53, 0x00, 0x00, 0x3F, 0x80, 0x00, 0x00, 0x40, 0x00, 0x00, 0x00];
    let mut state = RenderState::default();
    parse_script(&script, &mut state).unwrap();
    assert_eq!(state.translate, Offset { x: 1.0f32.to_bits(), y: 2.0f32.to_bits() });
    parse_script(&[0x00, 0x41, 0x00, 0x00], &mut state).unwrap();
    assert_eq!(state.translate, Offset { x: 0, y: 0 });
}

#[test]
fn rect_flag_clear_draws_nothing_and_odd_tail_is_ignored() {
    let script: [u8; 13] = [0x00, 0x04, 0x00, 0x02, 0x41, 0x20, 0, 0, 0x41, 0xA0, 0, 0, 0x99];
    let mut state = RenderState::default();
    parse_script(&script, &mut state).unwrap();
    assert_eq!(state.rect, None);
}

#[test]
fn pop_push_keeps_depth_and_returns_top() {
    let mut stack = TranslationStack::new();
    let a = Offset { x: 1, y: 2 };
    let b = Offset { x: 3, y: 4 };
    stack.push(a);
    stack.push(b);
    assert_eq!(stack.pop_push(), b);
    assert_eq!(stack.len(), 2);
    assert_eq!(stack.pop(), b);
    assert_eq!(stack.pop(), a);
    assert_eq!(stack.pop(), Offset { x: 0, y: 0 });
    assert_eq!(stack.len(), 0);
}
