use ptz_control::app::{intent_of_key, App, Intent, Key, Step, VideoStart};
use ptz_control::axis::ControlConfig;
use ptz_control::camera::{Axis, CameraConfig, SendRequest};

fn config() -> CameraConfig {
    CameraConfig {
        device: "/dev/video0".to_string(),
        pan: ControlConfig { min: -100, max: 100, step: 10 },
        tilt: ControlConfig { min: -100, max: 100, step: 10 },
        zoom: ControlConfig { min: 0, max: 100, step: 5 },
    }
}

#[test]
fn second_intent_within_interval_is_throttled() {
    let mut app = App::new(config(), 0);
    let first = app.update(Intent::PanRight, 1000);
    assert_eq!(first, Step::Send(SendRequest { axis: Axis::Pan, value: 5 }));
    let second = app.update(Intent::PanRight, 1050);
    assert_eq!(second, Step::Throttled);
    assert_eq!(app.get_pan(), 5);
    let third = app.update(Intent::PanRight, 1110);
    assert_eq!(third, Step::Send(SendRequest { axis: Axis::Pan, value: 10 }));
}

#[test]
fn throttling_is_global_across_axes() {
    let mut app = App::new(config(), 0);
    app.update(Intent::PanLeft, 1000);
    assert_eq!(app.update(Intent::ZoomIn, 1099), Step::Throttled);
    assert_eq!(app.get_zoom(), 50);
    assert_eq!(app.update(Intent::ZoomIn, 1100), Step::Send(SendRequest { axis: Axis::Zoom, value: 55 }));
}

#[test]
fn unchanged_position_is_done_without_send() {
    let mut app = App::new(config(), 0);
    let s = app.update(Intent::PanRight, 1000);
    assert_eq!(s, Step::Send(SendRequest { axis: Axis::Pan, value: 5 }));
    // not acknowledged: moving back to the acknowledged position sends nothing
    assert_eq!(app.update(Intent::PanLeft, 1200), Step::Done);
    assert_eq!(app.status_message, "Command sent.");
}

#[test]
fn complete_send_sets_status() {
    let mut app = App::new(config(), 0);
    let req = match app.update(Intent::TiltUp, 1000) {
        Step::Send(r) => r,
        other => panic!("unexpected {:?}", other),
    };
    assert_eq!(app.complete_send(req, Ok(())).unwrap(), true);
    assert_eq!(app.status_message, "Command sent.");
    assert_eq!(app.camera_controller.tilt_prev, 5);
    let req2 = match app.update(Intent::TiltUp, 1500) {
        Step::Send(r) => r,
        other => panic!("unexpected {:?}", other),
    };
    assert!(app.complete_send(req2, Err("no device".to_string())).is_err());
    assert_eq!(app.status_message, "Error: Error setting tilt_absolute to 10: no device");
    assert_eq!(app.camera_controller.tilt_prev, 5);
}

#[test]
fn quit_and_other_keys() {
    let mut app = App::new(config(), 0);
    assert_eq!(app.update(Intent::Other, 1000), Step::Done);
    assert!(!app.should_quit);
    assert_eq!(app.update(Intent::Other, 1050), Step::Throttled);
    assert_eq!(app.update(Intent::Quit, 1150), Step::Done);
    assert!(app.should_quit);
}

#[test]
fn video_toggle_round_trip() {
    let mut app = App::new(config(), 0);
    assert_eq!(app.update(Intent::ToggleVideo, 1000), Step::StartVideo);
    app.video_started(VideoStart::Running(4321));
    assert_eq!(app.status_message, "Video feed started (PID: 4321). Press 'v' again to stop.");
    assert_eq!(app.video_feed_pid, Some(4321));
    assert_eq!(app.update(Intent::ToggleVideo, 1100), Step::StopVideo(4321));
    assert_eq!(app.status_message, "Video feed stopped.");
    assert_eq!(app.video_feed_pid, None);
}

#[test]
fn video_start_failures() {
    let mut app = App::new(config(), 0);
    app.video_started(VideoStart::Failed);
    assert_eq!(app.status_message, "Failed to start video feed.");
    app.video_started(VideoStart::SpawnError("not found".to_string()));
    assert_eq!(app.status_message, "Failed to start video feed: not found");
    app.video_started(VideoStart::RunningUnknown);
    assert_eq!(app.status_message, "Video feed started in background. Press 'v' again to stop.");
    assert_eq!(app.cleanup(), None);
}

#[test]
fn cleanup_hands_out_running_preview() {
    let mut app = App::new(config(), 0);
    app.video_started(VideoStart::Running(77));
    assert_eq!(app.cleanup(), Some(77));
    assert_eq!(app.cleanup(), None);
}

#[test]
fn keys_map_to_intents() {
    assert_eq!(intent_of_key(Key::Left, false), Intent::PanLeft);
    assert_eq!(intent_of_key(Key::Right, true), Intent::PanRight);
    assert_eq!(intent_of_key(Key::Up, false), Intent::TiltUp);
    assert_eq!(intent_of_key(Key::Down, false), Intent::TiltDown);
    assert_eq!(intent_of_key(Key::Up, true), Intent::ZoomIn);
    assert_eq!(intent_of_key(Key::Down, true), Intent::ZoomOut);
    assert_eq!(intent_of_key(Key::Char('v'), false), Intent::ToggleVideo);
    assert_eq!(intent_of_key(Key::Char('q'), false), Intent::Quit);
    assert_eq!(intent_of_key(Key::Char('x'), false), Intent::Other);
    assert_eq!(intent_of_key(Key::Other, true), Intent::Other);
}

#[test]
fn app_getters_follow_camera() {
    let mut app = App::new(config(), 0);
    assert_eq!(app.get_zoom_adjusted_pan_step(), 5);
    assert_eq!(app.get_zoom_adjusted_tilt_step(), 5);
    app.update(Intent::ZoomOut, 1000);
    assert_eq!(app.get_zoom(), 45);
    assert_eq!(app.get_tilt(), 0);
    assert!(app.status_message.starts_with("Press 'q' to quit."));
}

#[test]
fn intent_right_after_start_is_throttled() {
    let mut app = App::new(config(), 500);
    assert_eq!(app.last_command_time, Some(500));
    assert_eq!(app.update(Intent::PanRight, 550), Step::Throttled);
    assert_eq!(app.get_pan(), 0);
    assert_eq!(app.update(Intent::PanRight, 600), Step::Send(SendRequest { axis: Axis::Pan, value: 5 }));
}
