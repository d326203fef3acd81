use vstd::prelude::*;

use crate::axis::ControlConfig;
use crate::text::{decimal_string, decimal_text};
#[allow(unused_imports)]
use vstd::arithmetic::div_mod::{
    lemma_div_by_multiple,
    lemma_div_is_ordered,
    lemma_div_multiples_vanish_quotient,
};

verus! {

/// One of the three controllable dimensions of the camera.
#[derive(Clone, Copy, Debug, PartialEq, Eq, Structural)]
pub enum Axis {
    Pan,
    Tilt,
    Zoom,
}

/// Name under which the device exposes the absolute position of `a`.
pub open spec fn control_label(a: Axis) -> Seq<char> {
    match a {
        Axis::Pan => "pan_absolute"@,
        Axis::Tilt => "tilt_absolute"@,
        Axis::Zoom => "zoom_absolute"@,
    }
}

impl Axis {
    /// The device control name of this axis.
    pub fn control_name(&self) -> (r: &'static str)
        ensures
            r@ == control_label(*self),
    {
        match self {
            Axis::Pan => "pan_absolute",
            Axis::Tilt => "tilt_absolute",
            Axis::Zoom => "zoom_absolute",
        }
    }
}

/// Device identifier and the three axis configurations.
pub struct CameraConfig {
    pub device: String,
    pub pan: ControlConfig,
    pub tilt: ControlConfig,
    pub zoom: ControlConfig,
}

/// Why a configuration cannot drive a camera.
#[derive(Clone, Copy, Debug, PartialEq, Eq, Structural)]
pub enum ConfigError {
    /// The axis has `min > max`.
    InvertedBounds(Axis),
    /// The axis has `step <= 0`.
    NonPositiveStep(Axis),
    /// The zoom axis has `min == max`, which leaves the step scaling undefined.
    EmptyZoomRange,
}

/// The first defect of one axis configuration, if any.
pub open spec fn axis_error(c: ControlConfig, a: Axis) -> Option<ConfigError> {
    if c.min > c.max {
        Some(ConfigError::InvertedBounds(a))
    } else if c.step <= 0 {
        Some(ConfigError::NonPositiveStep(a))
    } else {
        None
    }
}

impl CameraConfig {
    pub open spec fn control(&self, a: Axis) -> ControlConfig {
        match a {
            Axis::Pan => self.pan,
            Axis::Tilt => self.tilt,
            Axis::Zoom => self.zoom,
        }
    }

    /// Every axis is well formed and the zoom range is not empty.
    pub open spec fn wf(&self) -> bool {
        &&& self.pan.wf()
        &&& self.tilt.wf()
        &&& self.zoom.wf()
        &&& self.zoom.min < self.zoom.max
    }

    /// The first defect found, checking pan, tilt, then zoom.
    pub open spec fn first_error(&self) -> Option<ConfigError> {
        if axis_error(self.pan, Axis::Pan) is Some {
            axis_error(self.pan, Axis::Pan)
        } else if axis_error(self.tilt, Axis::Tilt) is Some {
            axis_error(self.tilt, Axis::Tilt)
        } else if axis_error(self.zoom, Axis::Zoom) is Some {
            axis_error(self.zoom, Axis::Zoom)
        } else if self.zoom.min == self.zoom.max {
            Some(ConfigError::EmptyZoomRange)
        } else {
            None
        }
    }

    pub fn control_of(&self, a: Axis) -> (r: &ControlConfig)
        ensures
            *r == self.control(a),
    {
        match a {
            Axis::Pan => &self.pan,
            Axis::Tilt => &self.tilt,
            Axis::Zoom => &self.zoom,
        }
    }

    /// Checks the configuration before a camera is built from it.
    pub fn validate(&self) -> (r: Result<(), ConfigError>)
        ensures
            r is Ok <==> self.wf(),
            r is Err ==> Some(r->Err_0) == self.first_error(),
            self.first_error() is None <==> self.wf(),
    {
        if let Some(e) = check_axis(&self.pan, Axis::Pan) {
            return Err(e);
        }
        if let Some(e) = check_axis(&self.tilt, Axis::Tilt) {
            return Err(e);
        }
        if let Some(e) = check_axis(&self.zoom, Axis::Zoom) {
            return Err(e);
        }
        if self.zoom.min == self.zoom.max {
            return Err(ConfigError::EmptyZoomRange);
        }
        Ok(())
    }
}

fn check_axis(c: &ControlConfig, a: Axis) -> (r: Option<ConfigError>)
    ensures
        r == axis_error(*c, a),
{
    if c.min > c.max {
        Some(ConfigError::InvertedBounds(a))
    } else if c.step <= 0 {
        Some(ConfigError::NonPositiveStep(a))
    } else {
        None
    }
}

/// Step for pan and tilt at zoom position `z`: `base * (1 - 0.9 * t)` rounded
/// toward zero, where `t = (z - zoom.min) / (zoom.max - zoom.min)`, computed
/// exactly as `base * (10r - 9(z - min)) / 10r` with `r` the zoom range.
pub open spec fn adjusted_step(zoom: ControlConfig, z: int, base: int) -> int {
    let r = zoom.max - zoom.min;
    (base * (10 * r - 9 * (z - zoom.min))) / (10 * r)
}

/// The adjusted step lies between zero and the base step.
pub proof fn lemma_adjusted_step_bounds(zoom: ControlConfig, z: int, base: int)
    requires
        zoom.min < zoom.max,
        zoom.min <= z <= zoom.max,
        base >= 0,
    ensures
        0 <= adjusted_step(zoom, z, base) <= base,
{
    let r = zoom.max - zoom.min;
    let k = 10 * r - 9 * (z - zoom.min);
    assert(0 <= base * k <= base * (10 * r)) by (nonlinear_arith)
        requires
            base >= 0,
            r <= k <= 10 * r,
    ;
    lemma_div_is_ordered(base * k, base * (10 * r), 10 * r);
    lemma_div_by_multiple(base, 10 * r);
    lemma_div_is_ordered(0, base * k, 10 * r);
}

/// The adjusted step never grows as zoom increases; it is the base step at
/// minimum zoom and a tenth of it, rounded down, at maximum zoom.
pub proof fn lemma_adjusted_step_monotone(zoom: ControlConfig, z1: int, z2: int, base: int)
    requires
        zoom.min < zoom.max,
        zoom.min <= z1 <= z2 <= zoom.max,
        base >= 0,
    ensures
        adjusted_step(zoom, z2, base) <= adjusted_step(zoom, z1, base),
        adjusted_step(zoom, zoom.min as int, base) == base,
        adjusted_step(zoom, zoom.max as int, base) == base / 10,
{
    let r = zoom.max - zoom.min;
    let k1 = 10 * r - 9 * (z1 - zoom.min);
    let k2 = 10 * r - 9 * (z2 - zoom.min);
    assert(base * k2 <= base * k1) by (nonlinear_arith)
        requires
            base >= 0,
            k2 <= k1,
    ;
    lemma_div_is_ordered(base * k2, base * k1, 10 * r);
    assert(10 * r - 9 * (zoom.min - zoom.min) == 10 * r);
    lemma_div_by_multiple(base, 10 * r);
    assert(10 * r - 9 * (zoom.max - zoom.min) == r);
    lemma_div_multiples_vanish_quotient(r, base, 10);
    assert(r * base == base * r && r * 10 == 10 * r) by (nonlinear_arith);
}

/// A position that differs from the last acknowledged one and must be
/// written to the device.
#[derive(Clone, Copy, Debug, PartialEq, Eq, Structural)]
pub struct SendRequest {
    pub axis: Axis,
    pub value: i32,
}

/// A device write that did not succeed: the control, the value it was to be
/// set to, and the transport's diagnostic text.
#[derive(Clone, Debug)]
pub struct TransportError {
    pub control: String,
    pub value: i32,
    pub message: String,
}

impl TransportError {
    /// The one-line text `Error setting <control> to <value>: <message>`.
    pub open spec fn text(&self) -> Seq<char> {
        "Error setting "@ + self.control@ + " to "@ + decimal_text(self.value as int) + ": "@
            + self.message@
    }

    pub fn describe(&self) -> (r: String)
        ensures
            r@ == self.text(),
    {
        let mut s = String::from_str("Error setting ");
        s.append(self.control.as_str());
        s.append(" to ");
        let v = decimal_string(self.value as i64);
        s.append(v.as_str());
        s.append(": ");
        s.append(self.message.as_str());
        s
    }
}

/// Live and last acknowledged positions of the three axes. Methods keep
/// `wf`; the `_prev` fields hold what the device last acknowledged.
pub struct CameraController {
    pub config: CameraConfig,
    pub pan_current: i32,
    pub tilt_current: i32,
    pub zoom_current: i32,
    pub pan_prev: i32,
    pub tilt_prev: i32,
    pub zoom_prev: i32,
}

impl CameraController {
    /// Position the camera is at, as far as the controller knows.
    pub open spec fn current(&self, a: Axis) -> int {
        match a {
            Axis::Pan => self.pan_current as int,
            Axis::Tilt => self.tilt_current as int,
            Axis::Zoom => self.zoom_current as int,
        }
    }

    /// Last position the device acknowledged.
    pub open spec fn sent(&self, a: Axis) -> int {
        match a {
            Axis::Pan => self.pan_prev as int,
            Axis::Tilt => self.tilt_prev as int,
            Axis::Zoom => self.zoom_prev as int,
        }
    }

    /// The configuration is valid and every position lies within its bounds.
    pub open spec fn wf(&self) -> bool {
        &&& self.config.wf()
        &&& forall|a: Axis|
            self.config.control(a).min <= #[trigger] self.current(a) <= self.config.control(a).max
    }

    /// Step for pan and tilt at the current zoom position.
    pub open spec fn adjusted(&self, base: int) -> int {
        adjusted_step(self.config.zoom, self.current(Axis::Zoom), base)
    }

    /// Position `a` moves to for a request of `delta`: pan and tilt move by the
    /// zoom-adjusted step in the direction of `delta` (up for positive, down
    /// otherwise), zoom by `delta` itself; the result is clamped.
    pub open spec fn target(&self, a: Axis, delta: int) -> int {
        let c = self.config.control(a);
        let d = if a == Axis::Zoom {
            delta
        } else if delta > 0 {
            self.adjusted(c.step as int)
        } else {
            -self.adjusted(c.step as int)
        };
        c.clamp_spec(self.current(a) + d)
    }

    /// The request a move of `a` to `v` calls for: none when `v` is already
    /// what the device acknowledged.
    pub open spec fn request_for(&self, a: Axis, v: int) -> Option<SendRequest> {
        if v == self.sent(a) {
            None
        } else {
            Some(SendRequest { axis: a, value: v as i32 })
        }
    }

    /// `self` with the position of `a` set to `v`.
    pub open spec fn with_current(self, a: Axis, v: int) -> Self {
        match a {
            Axis::Pan => CameraController { pan_current: v as i32, ..self },
            Axis::Tilt => CameraController { tilt_current: v as i32, ..self },
            Axis::Zoom => CameraController { zoom_current: v as i32, ..self },
        }
    }

    /// The state after a move of `a` by `delta`.
    pub open spec fn moved(self, a: Axis, delta: int) -> Self {
        self.with_current(a, self.target(a, delta))
    }

    /// The state after each move of `moves` in turn.
    pub open spec fn after_moves(self, moves: Seq<(Axis, int)>) -> Self
        decreases moves.len(),
    {
        if moves.len() == 0 {
            self
        } else {
            self.moved(moves[0].0, moves[0].1).after_moves(moves.drop_first())
        }
    }

    /// `next` differs from `self` only in the position of `a`, which is `v`.
    pub open spec fn moves_to(&self, next: &Self, a: Axis, v: int) -> bool {
        &&& next.config == self.config
        &&& next.current(a) == v
        &&& forall|b: Axis| b != a ==> #[trigger] next.current(b) == self.current(b)
        &&& forall|b: Axis| #[trigger] next.sent(b) == self.sent(b)
    }

    /// `next` is `self` with the write of `req` acknowledged.
    pub open spec fn acknowledges(&self, next: &Self, req: SendRequest) -> bool {
        &&& next.config == self.config
        &&& forall|b: Axis| #[trigger] next.current(b) == self.current(b)
        &&& next.sent(req.axis) == req.value
        &&& forall|b: Axis| b != req.axis ==> #[trigger] next.sent(b) == self.sent(b)
    }

    /// The controller `new` builds from `config`.
    pub open spec fn new_spec(config: CameraConfig) -> Self {
        let pan = config.pan.clamp_spec(0) as i32;
        let tilt = config.tilt.clamp_spec(0) as i32;
        let zoom = config.zoom.clamp_spec(50) as i32;
        CameraController {
            config,
            pan_current: pan,
            tilt_current: tilt,
            zoom_current: zoom,
            pan_prev: pan,
            tilt_prev: tilt,
            zoom_prev: zoom,
        }
    }

    /// A controller at pan 0, tilt 0 and zoom 50, each clamped into its bounds,
    /// with those positions taken as acknowledged.
    pub fn new(config: CameraConfig) -> (r: Self)
        requires
            config.wf(),
        ensures
            r == Self::new_spec(config),
            r.wf(),
            r.config == config,
            r.current(Axis::Pan) == config.pan.clamp_spec(0),
            r.current(Axis::Tilt) == config.tilt.clamp_spec(0),
            r.current(Axis::Zoom) == config.zoom.clamp_spec(50),
            forall|a: Axis| #[trigger] r.sent(a) == r.current(a),
    {
        let pan = config.pan.clamp(0);
        let tilt = config.tilt.clamp(0);
        let zoom = config.zoom.clamp(50);
        CameraController {
            config,
            pan_current: pan,
            tilt_current: tilt,
            zoom_current: zoom,
            pan_prev: pan,
            tilt_prev: tilt,
            zoom_prev: zoom,
        }
    }

    /// Step for a base increment of `base_step` at the current zoom.
    pub fn get_zoom_adjusted_step(&self, base_step: i32) -> (r: i32)
        requires
            self.wf(),
            base_step >= 0,
        ensures
            r == self.adjusted(base_step as int),
            0 <= r <= base_step,
    {
        proof {
            assert(self.config.zoom.min <= self.current(Axis::Zoom) <= self.config.zoom.max);
        }
        let range: u64 = (self.config.zoom.max as i64 - self.config.zoom.min as i64) as u64;
        let d: u64 = (self.zoom_current as i64 - self.config.zoom.min as i64) as u64;
        let k: u128 = 10 * (range as u128) - 9 * (d as u128);
        proof {
            assert(k <= 10 * range);
            assert((base_step as u128) * k <= (base_step as int) * (10 * range)) by (nonlinear_arith)
                requires
                    base_step >= 0,
                    k <= 10 * range,
            ;
            assert((base_step as int) * (10 * range) <= 0x8000_0000 * (10 * 0x1_0000_0000int))
                by (nonlinear_arith)
                requires
                    0 <= base_step < 0x8000_0000,
                    range < 0x1_0000_0000,
            ;
            lemma_adjusted_step_bounds(
                self.config.zoom,
                self.current(Axis::Zoom),
                base_step as int,
            );
        }
        let num: u128 = (base_step as u128) * k;
        let q: u128 = num / (10 * (range as u128));
        q as i32
    }

    /// Pan step at the current zoom.
    pub fn get_zoom_adjusted_pan_step(&self) -> (r: i32)
        requires
            self.wf(),
        ensures
            r == self.adjusted(self.config.pan.step as int),
    {
        self.get_zoom_adjusted_step(self.config.pan.step)
    }

    /// Tilt step at the current zoom.
    pub fn get_zoom_adjusted_tilt_step(&self) -> (r: i32)
        requires
            self.wf(),
        ensures
            r == self.adjusted(self.config.tilt.step as int),
    {
        self.get_zoom_adjusted_step(self.config.tilt.step)
    }

    fn move_axis(&mut self, a: Axis, delta: i32) -> (r: Option<SendRequest>)
        requires
            old(self).wf(),
        ensures
            final(self).wf(),
            *final(self) == old(self).moved(a, delta as int),
            old(self).moves_to(&*final(self), a, old(self).target(a, delta as int)),
            r == old(self).request_for(a, final(self).current(a)),
    {
        let c: ControlConfig = *self.config.control_of(a);
        let d: i64 = if a == Axis::Zoom {
            delta as i64
        } else {
            let s = self.get_zoom_adjusted_step(c.step);
            if delta > 0 {
                s as i64
            } else {
                -(s as i64)
            }
        };
        let cur: i32 = match a {
            Axis::Pan => self.pan_current,
            Axis::Tilt => self.tilt_current,
            Axis::Zoom => self.zoom_current,
        };
        proof {
            assert(c.min <= self.current(a) <= c.max);
        }
        let v = c.clamp(cur as i64 + d);
        let prev: i32 = match a {
            Axis::Pan => {
                self.pan_current = v;
                self.pan_prev
            },
            Axis::Tilt => {
                self.tilt_current = v;
                self.tilt_prev
            },
            Axis::Zoom => {
                self.zoom_current = v;
                self.zoom_prev
            },
        };
        proof {
            assert(forall|b: Axis| b != a ==> #[trigger] self.current(b) == old(self).current(b));
            assert(forall|b: Axis|
                #![trigger self.current(b)]
                self.config.control(b).min <= self.current(b) <= self.config.control(b).max) by {
                assert(old(self).wf());
            }
        }
        if v == prev {
            None
        } else {
            Some(SendRequest { axis: a, value: v })
        }
    }

    /// Moves pan one zoom-adjusted step up when `delta > 0`, down otherwise,
    /// clamped; asks for a device write only when the new position differs
    /// from the acknowledged one.
    pub fn set_pan(&mut self, delta: i32) -> (r: Option<SendRequest>)
        requires
            old(self).wf(),
        ensures
            final(self).wf(),
            *final(self) == old(self).moved(Axis::Pan, delta as int),
            old(self).moves_to(&*final(self), Axis::Pan, old(self).target(Axis::Pan, delta as int)),
            r == old(self).request_for(Axis::Pan, final(self).current(Axis::Pan)),
    {
        self.move_axis(Axis::Pan, delta)
    }

    /// Moves tilt one zoom-adjusted step up when `delta > 0`, down otherwise,
    /// clamped; asks for a device write only when the new position differs
    /// from the acknowledged one.
    pub fn set_tilt(&mut self, delta: i32) -> (r: Option<SendRequest>)
        requires
            old(self).wf(),
        ensures
            final(self).wf(),
            *final(self) == old(self).moved(Axis::Tilt, delta as int),
            old(self).moves_to(&*final(self), Axis::Tilt, old(self).target(Axis::Tilt, delta as int)),
            r == old(self).request_for(Axis::Tilt, final(self).current(Axis::Tilt)),
    {
        self.move_axis(Axis::Tilt, delta)
    }

    /// Moves zoom by `delta` itself, clamped; asks for a device write only
    /// when the new position differs from the acknowledged one.
    pub fn set_zoom(&mut self, delta: i32) -> (r: Option<SendRequest>)
        requires
            old(self).wf(),
        ensures
            final(self).wf(),
            *final(self) == old(self).moved(Axis::Zoom, delta as int),
            old(self).moves_to(&*final(self), Axis::Zoom, old(self).target(Axis::Zoom, delta as int)),
            r == old(self).request_for(Axis::Zoom, final(self).current(Axis::Zoom)),
    {
        self.move_axis(Axis::Zoom, delta)
    }

    /// Records the transport's answer to `req`: on success the requested value
    /// becomes the acknowledged one and the result is `Ok(true)`; on failure
    /// nothing changes and the error names the control, value and diagnostic.
    pub fn complete_send(&mut self, req: SendRequest, outcome: Result<(), String>) -> (r: Result<
        bool,
        TransportError,
    >)
        requires
            old(self).wf(),
        ensures
            final(self).wf(),
            outcome is Ok ==> r == Ok::<bool, TransportError>(true) && old(self).acknowledges(
                &*final(self),
                req,
            ),
            outcome is Err ==> {
                &&& *final(self) == *old(self)
                &&& r is Err
                &&& r->Err_0.control@ == control_label(req.axis)
                &&& r->Err_0.value == req.value
                &&& r->Err_0.message == outcome->Err_0
            },
    {
        match outcome {
            Ok(()) => {
                match req.axis {
                    Axis::Pan => self.pan_prev = req.value,
                    Axis::Tilt => self.tilt_prev = req.value,
                    Axis::Zoom => self.zoom_prev = req.value,
                }
                proof {
                    assert(forall|b: Axis| #[trigger] self.current(b) == old(self).current(b));
                    assert(forall|b: Axis|
                        #![trigger self.current(b)]
                        self.config.control(b).min <= self.current(b) <= self.config.control(b).max)
                        by {
                        assert(old(self).wf());
                    }
                }
                Ok(true)
            },
            Err(message) => Err(
                TransportError {
                    control: String::from_str(req.axis.control_name()),
                    value: req.value,
                    message,
                },
            ),
        }
    }

    pub fn get_pan(&self) -> (r: i32)
        ensures
            r == self.current(Axis::Pan),
    {
        self.pan_current
    }

    pub fn get_tilt(&self) -> (r: i32)
        ensures
            r == self.current(Axis::Tilt),
    {
        self.tilt_current
    }

    pub fn get_zoom(&self) -> (r: i32)
        ensures
            r == self.current(Axis::Zoom),
    {
        self.zoom_current
    }
}

impl CameraController {
    /// One move keeps every position within its axis bounds and changes only
    /// the moved axis.
    pub proof fn lemma_move_keeps_bounds(c0: Self, c1: Self, a: Axis, delta: int)
        requires
            c0.wf(),
            c1 == c0.moved(a, delta),
        ensures
            c1.wf(),
            c0.moves_to(&c1, a, c0.target(a, delta)),
    {
        let c = c0.config.control(a);
        assert(c.min <= c.clamp_spec(c0.current(a) + 0) <= c.max);
        assert(forall|b: Axis|
            #![trigger c1.current(b)]
            c1.config.control(b).min <= c1.current(b) <= c1.config.control(b).max) by {
            assert forall|b: Axis|
                #![trigger c1.current(b)]
                c1.config.control(b).min <= c1.current(b) <= c1.config.control(b).max by {
                if b != a {
                    assert(c0.config.control(b).min <= c0.current(b));
                }
            }
        }
    }

    /// Every position stays within its axis bounds through any sequence of
    /// pan, tilt and zoom moves.
    pub proof fn lemma_moves_keep_bounds(c: Self, moves: Seq<(Axis, int)>)
        requires
            c.wf(),
        ensures
            c.after_moves(moves).wf(),
            c.after_moves(moves).config == c.config,
        decreases moves.len(),
    {
        if moves.len() > 0 {
            let (a, d) = moves[0];
            Self::lemma_move_keeps_bounds(c, c.moved(a, d), a, d);
            Self::lemma_moves_keep_bounds(c.moved(a, d), moves.drop_first());
        }
    }

    /// For two controllers with the same configuration, the one zoomed further
    /// in has the smaller or equal adjusted step; at minimum zoom the step is
    /// the base step, at maximum zoom a tenth of it rounded down.
    pub proof fn lemma_step_shrinks_with_zoom(c1: Self, c2: Self, base: int)
        requires
            c1.wf(),
            c2.wf(),
            c1.config == c2.config,
            c1.current(Axis::Zoom) <= c2.current(Axis::Zoom),
            base >= 0,
        ensures
            c2.adjusted(base) <= c1.adjusted(base),
            c1.current(Axis::Zoom) == c1.config.zoom.min ==> c1.adjusted(base) == base,
            c2.current(Axis::Zoom) == c2.config.zoom.max ==> c2.adjusted(base) == base / 10,
    {
        assert(c1.config.zoom.min <= c1.current(Axis::Zoom));
        assert(c2.current(Axis::Zoom) <= c2.config.zoom.max);
        lemma_adjusted_step_monotone(
            c1.config.zoom,
            c1.current(Axis::Zoom),
            c2.current(Axis::Zoom),
            base,
        );
    }

    /// A move whose new position equals the acknowledged one asks for no write.
    pub proof fn lemma_no_write_when_unchanged(c0: Self, c1: Self, a: Axis, delta: int)
        requires
            c1 == c0.moved(a, delta),
            c1.current(a) == c0.sent(a),
        ensures
            c0.request_for(a, c1.current(a)) is None,
    {
    }

    /// After a move and a successful write of the request it produced, the
    /// axis is acknowledged at its new position.
    pub proof fn lemma_success_synchronises(
        c0: Self,
        c1: Self,
        c2: Self,
        a: Axis,
        delta: int,
        req: SendRequest,
    )
        requires
            c0.wf(),
            c1 == c0.moved(a, delta),
            c0.request_for(a, c1.current(a)) == Some(req),
            c1.acknowledges(&c2, req),
        ensures
            c2.sent(a) == c2.current(a),
            c2.current(a) == c0.target(a, delta),
    {
        Self::lemma_move_keeps_bounds(c0, c1, a, delta);
    }
}

} // verus!
