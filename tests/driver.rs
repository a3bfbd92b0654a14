use scenic_driver_skia::backend_name::{kind_from_lowered, select_backend, BackendKind};
use scenic_driver_skia::driver::{
    DriverError, Signal, StartPlan, StopPlan, Supervisor, UserEvent,
};
use scenic_driver_skia::frame::{frame_plan, BLACK};
use scenic_driver_skia::render_state::{color_from_argb, RenderState, RED, WHITE};
use scenic_driver_skia::script::DecodeError;
use scenic_driver_skia::{
    reset_scene, set_clear_color, set_raster_output, set_text, start, stop, submit_script,
};

fn running(kind: BackendKind) -> Supervisor {
    let mut d = Supervisor::new();
    assert_eq!(start(&mut d, None).unwrap(), StartPlan::Spawn(BackendKind::Wayland));
    d.install(kind);
    d
}

#[test]
fn backend_names_are_case_insensitive_with_kms_alias() {
    assert_eq!(select_backend(None), BackendKind::Wayland);
    assert_eq!(select_backend(Some("KMS")), BackendKind::Drm);
    assert_eq!(select_backend(Some("Drm")), BackendKind::Drm);
    assert_eq!(select_backend(Some("RASTER")), BackendKind::Raster);
    assert_eq!(select_backend(Some("vulkan")), BackendKind::Wayland);
    assert_eq!(kind_from_lowered("raster"), BackendKind::Raster);
    assert_eq!(kind_from_lowered("Raster"), BackendKind::Wayland);
}

#[test]
fn start_spawns_the_named_backend() {
    let mut d = Supervisor::new();
    assert_eq!(start(&mut d, Some("kms")), Ok(StartPlan::Spawn(BackendKind::Drm)));
    assert!(d.session.is_none());
    d.install(BackendKind::Drm);
    let s = d.session.as_ref().unwrap();
    assert!(s.running);
    assert_eq!(s.text, "Hello, Wayland");
    assert_eq!(s.render_state, RenderState::default());
}

#[test]
fn start_while_running_fails_for_every_backend() {
    for kind in [BackendKind::Wayland, BackendKind::Drm, BackendKind::Raster] {
        let mut d = running(kind);
        let err = start(&mut d, Some("raster")).unwrap_err();
        assert_eq!(err, DriverError::AlreadyRunning);
        assert_eq!(err.message(), "renderer already running");
    }
}

#[test]
fn start_resumes_a_stopped_windowed_session() {
    let mut d = running(BackendKind::Wayland);
    assert_eq!(stop(&mut d), Ok(StopPlan::SendStop));
    assert_eq!(start(&mut d, Some("drm")), Ok(StartPlan::Resume));
    assert!(d.session.as_ref().unwrap().running);
    d.resume_failed();
    assert!(!d.session.as_ref().unwrap().running);
}

#[test]
fn stop_without_session_fails() {
    let mut d = Supervisor::new();
    let err = stop(&mut d).unwrap_err();
    assert_eq!(err, DriverError::NoSession);
    assert_eq!(err.message(), "renderer not running");
}

#[test]
fn stop_twice_on_windowed_is_a_no_op() {
    let mut d = running(BackendKind::Wayland);
    assert_eq!(stop(&mut d), Ok(StopPlan::SendStop));
    assert_eq!(stop(&mut d), Ok(StopPlan::Nothing));
    assert!(d.session.is_some());
}

#[test]
fn stop_removes_a_polling_session() {
    let mut d = running(BackendKind::Raster);
    assert_eq!(stop(&mut d), Ok(StopPlan::CancelAndJoin));
    assert!(d.session.is_none());
    assert_eq!(stop(&mut d), Err(DriverError::NoSession));
}

#[test]
fn commands_without_session_fail() {
    let mut d = Supervisor::new();
    assert!(matches!(set_text(&mut d, "x".to_string()), Err(DriverError::NoSession)));
    assert!(matches!(reset_scene(&mut d), Err(DriverError::NoSession)));
    assert!(matches!(set_clear_color(&mut d, (1, 2, 3, 4)), Err(DriverError::NoSession)));
    assert!(matches!(submit_script(&mut d, &[]), Err(DriverError::NoSession)));
    assert_eq!(set_raster_output(&d, "a.png".to_string()), Err(DriverError::NoSession));
}

#[test]
fn set_raster_output_on_windowed_session_fails() {
    let d = running(BackendKind::Wayland);
    let err = set_raster_output(&d, "frame.png".to_string()).unwrap_err();
    assert_eq!(err, DriverError::RasterNotActive);
    assert!(err.message().contains("backend not active"));
    let d = running(BackendKind::Drm);
    assert_eq!(set_raster_output(&d, "frame.png".to_string()), Err(DriverError::RasterNotActive));
}

#[test]
fn set_raster_output_on_offscreen_session_arms_path() {
    let d = running(BackendKind::Raster);
    assert_eq!(set_raster_output(&d, "frame.png".to_string()), Ok("frame.png".to_string()));
}

#[test]
fn set_text_signals_by_backend_kind() {
    let mut d = running(BackendKind::Wayland);
    match set_text(&mut d, "hi".to_string()).unwrap() {
        Signal::Event(UserEvent::SetText(t)) => assert_eq!(t, "hi"),
        _ => panic!("expected a text event"),
    }
    assert_eq!(d.session.as_ref().unwrap().text, "hi");
    let mut d = running(BackendKind::Drm);
    assert!(matches!(set_text(&mut d, "hi".to_string()).unwrap(), Signal::MarkDirty));
}

#[test]
fn clear_color_and_reset_update_the_state() {
    let mut d = running(BackendKind::Wayland);
    match set_clear_color(&mut d, (0x10, 0x20, 0x30, 0x40)).unwrap() {
        Signal::Event(UserEvent::SetRenderState(s)) => assert_eq!(s.clear_color, 0x4010_2030),
        _ => panic!("expected a state event"),
    }
    assert_eq!(d.session.as_ref().unwrap().render_state.clear_color, color_from_argb(0x40, 0x10, 0x20, 0x30));
    let script = [0x00, 0x53, 0, 0, 0x3F, 0x80, 0, 0, 0x3F, 0x80, 0, 0, 0x00, 0x04, 0x00, 0x01, 0x41, 0x20, 0, 0, 0x41, 0xA0, 0, 0];
    submit_script(&mut d, &script).unwrap();
    assert!(d.session.as_ref().unwrap().render_state.rect.is_some());
    reset_scene(&mut d).unwrap();
    let s = d.session.as_ref().unwrap().render_state;
    assert_eq!(s.rect, None);
    assert_eq!(s.translate.x, 0);
    assert_eq!(s.clear_color, 0x4010_2030);
}

#[test]
fn refused_script_leaves_session_state() {
    let mut d = running(BackendKind::Raster);
    let before = d.session.as_ref().unwrap().render_state;
    let err = submit_script(&mut d, &[0x00, 0x60, 0x00, 0x00, 0xFF, 0x00, 0x00, 0xFF, 0xAB, 0xCD]).unwrap_err();
    assert_eq!(err, DriverError::Script(DecodeError::UnsupportedOpcode(0xABCD)));
    assert_eq!(err.message(), "unsupported opcode: 0xabcd");
    assert_eq!(d.session.as_ref().unwrap().render_state, before);
}

#[test]
fn default_state_and_frame_plan() {
    let s = RenderState::default();
    assert_eq!(s.clear_color, WHITE);
    assert_eq!(s.fill_color, RED);
    let p = frame_plan(&s, "");
    assert!(!p.draw_text);
    assert_eq!(p.rect, None);
    let p = frame_plan(&s, "caption");
    assert!(p.draw_text);
    assert_eq!(p.text_color, BLACK);
    assert_eq!(p.clear_color, 0xFFFF_FFFF);
}
