use ptz_control::axis::ControlConfig;
use ptz_control::camera::{Axis, CameraConfig, CameraController, ConfigError, SendRequest};

fn cfg(min: i32, max: i32, step: i32) -> ControlConfig {
    ControlConfig { min, max, step }
}

fn config() -> CameraConfig {
    CameraConfig {
        device: "/dev/video0".to_string(),
        pan: cfg(-100, 100, 10),
        tilt: cfg(-100, 100, 10),
        zoom: cfg(0, 100, 5),
    }
}

#[test]
fn clamp_restricts_to_bounds() {
    let c = cfg(-100, 100, 10);
    assert_eq!(c.clamp(-500), -100);
    assert_eq!(c.clamp(500), 100);
    assert_eq!(c.clamp(42), 42);
    assert_eq!(c.clamp(i64::MIN), -100);
}

#[test]
fn new_starts_at_defaults() {
    let c = CameraController::new(config());
    assert_eq!(c.get_pan(), 0);
    assert_eq!(c.get_tilt(), 0);
    assert_eq!(c.get_zoom(), 50);
}

#[test]
fn new_clamps_defaults_into_bounds() {
    let mut conf = config();
    conf.pan = cfg(10, 20, 1);
    conf.zoom = cfg(0, 40, 1);
    let c = CameraController::new(conf);
    assert_eq!(c.get_pan(), 10);
    assert_eq!(c.get_zoom(), 40);
    assert_eq!(c.pan_prev, 10);
}

#[test]
fn validate_reports_each_defect() {
    assert_eq!(config().validate(), Ok(()));
    let mut a = config();
    a.pan = cfg(5, 1, 1);
    assert_eq!(a.validate(), Err(ConfigError::InvertedBounds(Axis::Pan)));
    let mut b = config();
    b.tilt = cfg(0, 1, 0);
    assert_eq!(b.validate(), Err(ConfigError::NonPositiveStep(Axis::Tilt)));
    let mut c = config();
    c.zoom = cfg(7, 7, 1);
    assert_eq!(c.validate(), Err(ConfigError::EmptyZoomRange));
}

#[test]
fn half_zoom_halves_pan_step_and_moves() {
    let mut c = CameraController::new(config());
    assert_eq!(c.get_zoom_adjusted_pan_step(), 5);
    let r = c.set_pan(10);
    assert_eq!(c.get_pan(), 5);
    assert_eq!(r, Some(SendRequest { axis: Axis::Pan, value: 5 }));
}

#[test]
fn adjusted_step_endpoints() {
    let mut c = CameraController::new(config());
    c.set_zoom(-100);
    assert_eq!(c.get_zoom(), 0);
    assert_eq!(c.get_zoom_adjusted_pan_step(), 10);
    c.set_zoom(100);
    assert_eq!(c.get_zoom(), 100);
    // a tenth of 10, rounded down
    assert_eq!(c.get_zoom_adjusted_pan_step(), 1);
    assert_eq!(c.get_zoom_adjusted_tilt_step(), 1);
}

#[test]
fn adjusted_step_never_grows_with_zoom() {
    let mut c = CameraController::new(config());
    c.set_zoom(-100);
    let mut last = c.get_zoom_adjusted_pan_step();
    for _ in 0..25 {
        c.set_zoom(5);
        let s = c.get_zoom_adjusted_pan_step();
        assert!(s <= last);
        last = s;
    }
}

#[test]
fn pan_clamps_at_max_then_skips_write() {
    let mut c = CameraController::new(config());
    c.set_zoom(-50);
    c.pan_current = 98;
    c.pan_prev = 98;
    let r = c.set_pan(1);
    assert_eq!(c.get_pan(), 100);
    assert_eq!(r, Some(SendRequest { axis: Axis::Pan, value: 100 }));
    assert_eq!(c.complete_send(r.unwrap(), Ok(())).unwrap(), true);
    assert_eq!(c.pan_prev, 100);
    let again = c.set_pan(1);
    assert_eq!(c.get_pan(), 100);
    assert_eq!(again, None);
}

#[test]
fn negative_or_zero_delta_moves_down() {
    let mut c = CameraController::new(config());
    c.set_tilt(0);
    assert_eq!(c.get_tilt(), -5);
    c.set_tilt(-1);
    assert_eq!(c.get_tilt(), -10);
}

#[test]
fn zoom_moves_by_raw_delta() {
    let mut c = CameraController::new(config());
    let r = c.set_zoom(5);
    assert_eq!(c.get_zoom(), 55);
    assert_eq!(r, Some(SendRequest { axis: Axis::Zoom, value: 55 }));
}

#[test]
fn positions_stay_within_bounds() {
    let mut c = CameraController::new(config());
    for i in 0..200 {
        let d = if i % 3 == 0 { -7 } else { 9 };
        c.set_pan(d);
        c.set_tilt(-d);
        c.set_zoom(d * 3);
        assert!(-100 <= c.get_pan() && c.get_pan() <= 100);
        assert!(-100 <= c.get_tilt() && c.get_tilt() <= 100);
        assert!(0 <= c.get_zoom() && c.get_zoom() <= 100);
    }
}

#[test]
fn failed_write_leaves_sent_and_is_retried() {
    let mut c = CameraController::new(config());
    let r = c.set_pan(1).unwrap();
    let e = c.complete_send(r, Err("device busy".to_string())).unwrap_err();
    assert_eq!(e.control, "pan_absolute");
    assert_eq!(e.value, 5);
    assert_eq!(e.message, "device busy");
    assert_eq!(c.pan_prev, 0);
    assert_eq!(c.get_pan(), 5);
    let retry = c.set_pan(-1);
    assert_eq!(c.get_pan(), 0);
    assert_eq!(retry, None);
}

#[test]
fn transport_error_text_names_control_value_and_message() {
    let mut c = CameraController::new(config());
    let r = c.set_tilt(-1).unwrap();
    let e = c.complete_send(r, Err("timeout".to_string())).unwrap_err();
    assert_eq!(e.describe(), "Error setting tilt_absolute to -5: timeout");
}

#[test]
fn control_names() {
    assert_eq!(Axis::Pan.control_name(), "pan_absolute");
    assert_eq!(Axis::Tilt.control_name(), "tilt_absolute");
    assert_eq!(Axis::Zoom.control_name(), "zoom_absolute");
}

#[test]
fn zoom_adjusted_step_for_any_base() {
    let mut c = CameraController::new(config());
    assert_eq!(c.get_zoom_adjusted_step(20), 11);
    c.set_zoom(100);
    assert_eq!(c.get_zoom_adjusted_step(25), 2);
    assert_eq!(c.get_zoom_adjusted_step(0), 0);
}
