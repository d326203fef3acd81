use vstd::prelude::*;

use crate::camera::{Axis, CameraConfig, CameraController, SendRequest, TransportError};
use crate::text::{decimal_string, decimal_text};

verus! {

/// A key as the controller distinguishes it.
#[derive(Clone, Copy, Debug, PartialEq, Eq, Structural)]
pub enum Key {
    Left,
    Right,
    Up,
    Down,
    Char(char),
    Other,
}

/// What the operator asked for.
#[derive(Clone, Copy, Debug, PartialEq, Eq, Structural)]
pub enum Intent {
    PanLeft,
    PanRight,
    TiltUp,
    TiltDown,
    ZoomIn,
    ZoomOut,
    ToggleVideo,
    Quit,
    Other,
}

/// Arrows pan and tilt; with Shift as the only modifier, up and down zoom;
/// `v` toggles the preview and `q` quits.
pub open spec fn intent_spec(key: Key, shift_only: bool) -> Intent {
    match key {
        Key::Left => Intent::PanLeft,
        Key::Right => Intent::PanRight,
        Key::Up => if shift_only {
            Intent::ZoomIn
        } else {
            Intent::TiltUp
        },
        Key::Down => if shift_only {
            Intent::ZoomOut
        } else {
            Intent::TiltDown
        },
        Key::Char(c) => if c == 'v' {
            Intent::ToggleVideo
        } else if c == 'q' {
            Intent::Quit
        } else {
            Intent::Other
        },
        Key::Other => Intent::Other,
    }
}

/// Maps a key, and whether Shift is the only modifier held, to an intent.
pub fn intent_of_key(key: Key, shift_only: bool) -> (r: Intent)
    ensures
        r == intent_spec(key, shift_only),
{
    match key {
        Key::Left => Intent::PanLeft,
        Key::Right => Intent::PanRight,
        Key::Up => if shift_only {
            Intent::ZoomIn
        } else {
            Intent::TiltUp
        },
        Key::Down => if shift_only {
            Intent::ZoomOut
        } else {
            Intent::TiltDown
        },
        Key::Char(c) => if c == 'v' {
            Intent::ToggleVideo
        } else if c == 'q' {
            Intent::Quit
        } else {
            Intent::Other
        },
        Key::Other => Intent::Other,
    }
}

/// What the caller has to do after an intent was handled.
#[derive(Clone, Copy, Debug, PartialEq, Eq, Structural)]
pub enum Step {
    /// Dropped: it came too soon after the last accepted one.
    Throttled,
    /// Handled completely; nothing is to be sent.
    Done,
    /// Write the position to the device, then report with `complete_send`.
    Send(SendRequest),
    /// Start the preview of the device, then report with `video_started`.
    StartVideo,
    /// Stop the preview process with this id.
    StopVideo(u32),
}

/// How an attempt to start the preview went.
#[derive(Clone, Debug)]
pub enum VideoStart {
    /// Started, with the process id it reported.
    Running(u32),
    /// Started, but no process id could be read back.
    RunningUnknown,
    /// The launcher reported failure.
    Failed,
    /// The launcher could not be run at all.
    SpawnError(String),
}

pub open spec fn welcome_text() -> Seq<char> {
    "Press 'q' to quit. Arrow keys for Pan/Tilt. Shift+Arrows for Zoom. 'v' for video feed."@
}

pub open spec fn sent_text() -> Seq<char> {
    "Command sent."@
}

pub open spec fn stopped_text() -> Seq<char> {
    "Video feed stopped."@
}

/// Status line for each way a preview start can go.
pub open spec fn video_text(v: VideoStart) -> Seq<char> {
    match v {
        VideoStart::Running(pid) => "Video feed started (PID: "@ + decimal_text(pid as int)
            + "). Press 'v' again to stop."@,
        VideoStart::RunningUnknown => "Video feed started in background. Press 'v' again to stop."@,
        VideoStart::Failed => "Failed to start video feed."@,
        VideoStart::SpawnError(e) => "Failed to start video feed: "@ + e@,
    }
}

/// Least time between two accepted intents, in milliseconds.
pub const COMMAND_INTERVAL_MS: u64 = 100;

/// The operator session: the camera, a global rate gate on intents, the
/// status line, and the preview process if one runs.
pub struct App {
    pub camera_controller: CameraController,
    pub should_quit: bool,
    pub status_message: String,
    /// When the last intent was accepted (at first, when the session was
    /// created), in milliseconds of a monotonic clock.
    pub last_command_time: Option<u64>,
    pub command_interval: u64,
    pub video_feed_pid: Option<u32>,
}

impl App {
    pub open spec fn wf(&self) -> bool {
        self.camera_controller.wf()
    }

    /// An intent at `now` comes less than the interval after the last accepted one.
    pub open spec fn throttles(&self, now: u64) -> bool {
        match self.last_command_time {
            Some(t) => (now as int) - (t as int) < self.command_interval as int,
            None => false,
        }
    }

    /// The axis an intent moves and the delta it requests, if it moves one.
    pub open spec fn movement(&self, intent: Intent) -> Option<(Axis, int)> {
        let cfg = self.camera_controller.config;
        match intent {
            Intent::PanLeft => Some((Axis::Pan, -(cfg.pan.step as int))),
            Intent::PanRight => Some((Axis::Pan, cfg.pan.step as int)),
            Intent::TiltUp => Some((Axis::Tilt, cfg.tilt.step as int)),
            Intent::TiltDown => Some((Axis::Tilt, -(cfg.tilt.step as int))),
            Intent::ZoomIn => Some((Axis::Zoom, cfg.zoom.step as int)),
            Intent::ZoomOut => Some((Axis::Zoom, -(cfg.zoom.step as int))),
            _ => None,
        }
    }

    /// A session on a camera built from `config`, created at time `now`; the
    /// rate gate starts then, as if an intent had been accepted.
    pub fn new(config: CameraConfig, now: u64) -> (r: Self)
        requires
            config.wf(),
        ensures
            r.wf(),
            r.camera_controller == CameraController::new_spec(config),
            !r.should_quit,
            r.status_message@ == welcome_text(),
            r.last_command_time == Some(now),
            r.command_interval == COMMAND_INTERVAL_MS,
            r.video_feed_pid is None,
    {
        App {
            camera_controller: CameraController::new(config),
            should_quit: false,
            status_message: String::from_str(
                "Press 'q' to quit. Arrow keys for Pan/Tilt. Shift+Arrows for Zoom. 'v' for video feed.",
            ),
            last_command_time: Some(now),
            command_interval: COMMAND_INTERVAL_MS,
            video_feed_pid: None,
        }
    }

    /// Handles one intent at time `now`. One that comes less than the interval
    /// after the last accepted intent is dropped with no change at all.
    /// Otherwise it is accepted: its time is recorded and a movement intent
    /// moves its axis, which asks for a device write only when the new
    /// position differs from the acknowledged one.
    pub fn update(&mut self, intent: Intent, now: u64) -> (r: Step)
        requires
            old(self).wf(),
        ensures
            final(self).wf(),
            old(self).throttles(now) ==> r == Step::Throttled && *final(self) == *old(self),
            !old(self).throttles(now) ==> {
                &&& r != Step::Throttled
                &&& final(self).last_command_time == Some(now)
                &&& final(self).command_interval == old(self).command_interval
                &&& r == Step::Done ==> final(self).status_message@ == sent_text()
                &&& r is Send || r is StartVideo ==> final(self).status_message
                    == old(self).status_message
            },
            !old(self).throttles(now) && old(self).movement(intent) is Some ==> {
                let (a, d) = old(self).movement(intent)->Some_0;
                let cam = old(self).camera_controller;
                &&& cam.moves_to(&final(self).camera_controller, a, cam.target(a, d))
                &&& r == match cam.request_for(a, final(self).camera_controller.current(a)) {
                    Some(q) => Step::Send(q),
                    None => Step::Done,
                }
                &&& final(self).should_quit == old(self).should_quit
                &&& final(self).video_feed_pid == old(self).video_feed_pid
            },
            !old(self).throttles(now) && old(self).movement(intent) is None ==> {
                &&& final(self).camera_controller == old(self).camera_controller
                &&& final(self).should_quit == (old(self).should_quit || intent == Intent::Quit)
                &&& intent != Intent::ToggleVideo ==> r == Step::Done && final(self).video_feed_pid
                    == old(self).video_feed_pid
                &&& intent == Intent::ToggleVideo ==> final(self).video_feed_pid is None && r
                    == match old(self).video_feed_pid {
                    Some(pid) => Step::StopVideo(pid),
                    None => Step::StartVideo,
                }
                &&& r is StopVideo ==> final(self).status_message@ == stopped_text()
            },
    {
        if let Some(t) = self.last_command_time {
            if now < t || now - t < self.command_interval {
                return Step::Throttled;
            }
        }
        self.last_command_time = Some(now);
        let pan_step = self.camera_controller.config.pan.step;
        let tilt_step = self.camera_controller.config.tilt.step;
        let zoom_step = self.camera_controller.config.zoom.step;
        let request = match intent {
            Intent::PanLeft => self.camera_controller.set_pan(-pan_step),
            Intent::PanRight => self.camera_controller.set_pan(pan_step),
            Intent::TiltUp => self.camera_controller.set_tilt(tilt_step),
            Intent::TiltDown => self.camera_controller.set_tilt(-tilt_step),
            Intent::ZoomIn => self.camera_controller.set_zoom(zoom_step),
            Intent::ZoomOut => self.camera_controller.set_zoom(-zoom_step),
            Intent::ToggleVideo => {
                return self.toggle_video_feed();
            },
            Intent::Quit => {
                self.should_quit = true;
                None
            },
            Intent::Other => None,
        };
        match request {
            Some(q) => Step::Send(q),
            None => {
                self.status_message = String::from_str("Command sent.");
                Step::Done
            },
        }
    }

    /// Stops the preview when one runs, else asks for it to be started.
    fn toggle_video_feed(&mut self) -> (r: Step)
        ensures
            final(self).camera_controller == old(self).camera_controller,
            final(self).should_quit == old(self).should_quit,
            final(self).last_command_time == old(self).last_command_time,
            final(self).command_interval == old(self).command_interval,
            final(self).video_feed_pid is None,
            r == match old(self).video_feed_pid {
                Some(pid) => Step::StopVideo(pid),
                None => Step::StartVideo,
            },
            r is StopVideo ==> final(self).status_message@ == stopped_text(),
            r is StartVideo ==> final(self).status_message == old(self).status_message,
    {
        match self.video_feed_pid.take() {
            Some(pid) => {
                self.status_message = String::from_str("Video feed stopped.");
                Step::StopVideo(pid)
            },
            None => Step::StartVideo,
        }
    }

    /// Records the transport's answer to a `Step::Send` request, as the
    /// camera does, and shows it on the status line.
    pub fn complete_send(&mut self, req: SendRequest, outcome: Result<(), String>) -> (r: Result<
        bool,
        TransportError,
    >)
        requires
            old(self).wf(),
        ensures
            final(self).wf(),
            final(self).should_quit == old(self).should_quit,
            final(self).last_command_time == old(self).last_command_time,
            final(self).command_interval == old(self).command_interval,
            final(self).video_feed_pid == old(self).video_feed_pid,
            outcome is Ok ==> {
                &&& r == Ok::<bool, TransportError>(true)
                &&& old(self).camera_controller.acknowledges(&final(self).camera_controller, req)
                &&& final(self).status_message@ == sent_text()
            },
            outcome is Err ==> {
                &&& final(self).camera_controller == old(self).camera_controller
                &&& r is Err
                &&& r->Err_0.control@ == crate::camera::control_label(req.axis)
                &&& r->Err_0.value == req.value
                &&& r->Err_0.message == outcome->Err_0
                &&& final(self).status_message@ == "Error: "@ + r->Err_0.text()
            },
    {
        let r = self.camera_controller.complete_send(req, outcome);
        match &r {
            Ok(_) => {
                self.status_message = String::from_str("Command sent.");
            },
            Err(e) => {
                let mut s = String::from_str("Error: ");
                let d = e.describe();
                s.append(d.as_str());
                self.status_message = s;
            },
        }
        r
    }

    /// Records how the start of the preview went, keeping the process id when
    /// one was reported.
    pub fn video_started(&mut self, outcome: VideoStart) -> (r: ())
        ensures
            final(self).camera_controller == old(self).camera_controller,
            final(self).should_quit == old(self).should_quit,
            final(self).last_command_time == old(self).last_command_time,
            final(self).command_interval == old(self).command_interval,
            final(self).video_feed_pid == match outcome {
                VideoStart::Running(pid) => Some(pid),
                _ => old(self).video_feed_pid,
            },
            final(self).status_message@ == video_text(outcome),
    {
        let text = match &outcome {
            VideoStart::Running(pid) => {
                let mut s = String::from_str("Video feed started (PID: ");
                let d = decimal_string(*pid as i64);
                s.append(d.as_str());
                s.append("). Press 'v' again to stop.");
                s
            },
            VideoStart::RunningUnknown => String::from_str(
                "Video feed started in background. Press 'v' again to stop.",
            ),
            VideoStart::Failed => String::from_str("Failed to start video feed."),
            VideoStart::SpawnError(e) => {
                let mut s = String::from_str("Failed to start video feed: ");
                s.append(e.as_str());
                s
            },
        };
        if let VideoStart::Running(pid) = outcome {
            self.video_feed_pid = Some(pid);
        }
        self.status_message = text;
    }

    /// Hands out the preview process to stop at shutdown, if one runs.
    pub fn cleanup(&mut self) -> (r: Option<u32>)
        ensures
            r == old(self).video_feed_pid,
            final(self).video_feed_pid is None,
            final(self).camera_controller == old(self).camera_controller,
            final(self).should_quit == old(self).should_quit,
            final(self).status_message == old(self).status_message,
            final(self).last_command_time == old(self).last_command_time,
            final(self).command_interval == old(self).command_interval,
    {
        self.video_feed_pid.take()
    }

    pub fn get_pan(&self) -> (r: i32)
        ensures
            r == self.camera_controller.current(Axis::Pan),
    {
        self.camera_controller.get_pan()
    }

    pub fn get_tilt(&self) -> (r: i32)
        ensures
            r == self.camera_controller.current(Axis::Tilt),
    {
        self.camera_controller.get_tilt()
    }

    pub fn get_zoom(&self) -> (r: i32)
        ensures
            r == self.camera_controller.current(Axis::Zoom),
    {
        self.camera_controller.get_zoom()
    }

    pub fn get_zoom_adjusted_pan_step(&self) -> (r: i32)
        requires
            self.wf(),
        ensures
            r == self.camera_controller.adjusted(self.camera_controller.config.pan.step as int),
    {
        self.camera_controller.get_zoom_adjusted_pan_step()
    }

    pub fn get_zoom_adjusted_tilt_step(&self) -> (r: i32)
        requires
            self.wf(),
        ensures
            r == self.camera_controller.adjusted(self.camera_controller.config.tilt.step as int),
    {
        self.camera_controller.get_zoom_adjusted_tilt_step()
    }

    /// Once an intent has been accepted at `t1`, an intent at any `t2` less
    /// than the interval later is throttled; with `update`'s contract it then
    /// changes nothing, the camera included.
    pub proof fn lemma_throttle_window(app: Self, t1: u64, t2: u64)
        requires
            app.last_command_time == Some(t1),
            (t2 as int) - (t1 as int) < app.command_interval as int,
        ensures
            app.throttles(t2),
    {
    }
}

} // verus!
