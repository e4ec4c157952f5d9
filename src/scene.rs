//! Camera, scene transform and pointer-drag state, and how input events and
//! elapsed time change them.
//!
//! All quantities are fixed-point integers: a length, a scale factor or an
//! angle in radians of 1 is stored as [`ONE`] (one millionth resolution).
//! Time is counted in microseconds, and a rotation speed in millionths of a
//! radian per second, so the rotation angles, which integrate speed × time,
//! are held exactly in units of 10⁻¹² radian.
use vstd::prelude::*;
use crate::event::{Event, XKeyEvent, XMotionEvent};

verus! {

/// The fixed-point value of 1.
pub const ONE: i64 = 1_000_000;
/// How far one key press moves the camera (0.01).
pub const CAMERA_STEP: i64 = 10_000;
/// How much one key press adds to a scale factor (0.1).
pub const SCALE_STEP: i64 = 100_000;
/// How far one key press moves the scene (0.1).
pub const TRANSLATE_STEP: i64 = 100_000;
/// How much one key press changes the rotation speed (0.1 radian per second).
pub const SPEED_STEP: i64 = 100_000;
/// Pointer sensitivity while dragging: 0.001 radian per pixel.
pub const SENSITIVITY: i64 = 1_000;
/// Pitch is kept within ±1.5 radian, short of straight up or down.
pub const PITCH_LIMIT: i64 = 1_500_000;
/// Starting yaw, −π/2 to the nearest millionth: the camera looks down −z.
pub const START_YAW: i64 = -1_570_796;
/// Starting distance of the camera from the origin along z.
pub const START_Z: i64 = 2_000_000;
/// Largest magnitude of an accumulated rotation angle.
pub const ANGLE_LIMIT: i128 = 0x7fff_ffff_ffff_ffff_ffff_ffff_ffff_ffff;

pub const KEY_QUIT: u32 = 9;
pub const KEY_FORWARD: u32 = 25;
pub const KEY_BACK: u32 = 39;
pub const KEY_LEFT: u32 = 38;
pub const KEY_RIGHT: u32 = 40;
pub const KEY_SCALE_X: u32 = 53;
pub const KEY_SCALE_Y: u32 = 29;
pub const KEY_SCALE_Z: u32 = 52;
pub const KEY_MOVE_UP: u32 = 111;
pub const KEY_MOVE_DOWN: u32 = 116;
pub const KEY_MOVE_LEFT: u32 = 113;
pub const KEY_MOVE_RIGHT: u32 = 114;
pub const KEY_FASTER: u32 = 48;
pub const KEY_SLOWER: u32 = 51;
pub const KEY_RESET: u32 = 27;
pub const KEY_COLOUR: u32 = 54;

pub const BUTTON_LOOK: u32 = 1;
pub const BUTTON_DOLLY_IN: u32 = 4;
pub const BUTTON_DOLLY_OUT: u32 = 5;

/// `v`, or the nearest bound of `i64` when it lies outside.
pub open spec fn clamp64(v: int) -> i64 {
    if v < i64::MIN {
        i64::MIN
    } else if v > i64::MAX {
        i64::MAX
    } else {
        v as i64
    }
}

/// `v`, or the nearest of ±[`ANGLE_LIMIT`] when it lies outside.
pub open spec fn clamp_angle(v: int) -> i128 {
    if v < -ANGLE_LIMIT {
        (-ANGLE_LIMIT) as i128
    } else if v > ANGLE_LIMIT {
        ANGLE_LIMIT
    } else {
        v as i128
    }
}

/// `v`, or the nearest of ±[`PITCH_LIMIT`] when it lies outside.
pub open spec fn clamp_pitch(v: int) -> i64 {
    if v < -PITCH_LIMIT {
        (-PITCH_LIMIT) as i64
    } else if v > PITCH_LIMIT {
        PITCH_LIMIT
    } else {
        v as i64
    }
}

/// `v`, or `u64::MAX` when it is larger.
pub open spec fn clamp_u64(v: int) -> u64 {
    if v > u64::MAX {
        u64::MAX
    } else {
        v as u64
    }
}

fn add_clamped(a: i64, b: i64) -> (r: i64)
    ensures
        r == clamp64(a + b),
{
    let v: i128 = a as i128 + b as i128;
    if v < i64::MIN as i128 {
        i64::MIN
    } else if v > i64::MAX as i128 {
        i64::MAX
    } else {
        v as i64
    }
}

fn sub_clamped(a: i64, b: i64) -> (r: i64)
    ensures
        r == clamp64(a - b),
{
    let v: i128 = a as i128 - b as i128;
    if v < i64::MIN as i128 {
        i64::MIN
    } else if v > i64::MAX as i128 {
        i64::MAX
    } else {
        v as i64
    }
}

fn add_angle(a: i128, b: i128) -> (r: i128)
    ensures
        r == clamp_angle(a + b),
{
    match a.checked_add(b) {
        Some(v) => {
            if v < -ANGLE_LIMIT {
                -ANGLE_LIMIT
            } else {
                v
            }
        },
        None => {
            if b > 0 {
                ANGLE_LIMIT
            } else {
                -ANGLE_LIMIT
            }
        },
    }
}

/// A triple of fixed-point values.
#[derive(Clone, Copy, Debug, PartialEq, Eq)]
pub struct Fixed3 {
    pub x: i64,
    pub y: i64,
    pub z: i64,
}

/// Rotation angles about the three axes, in units of 10⁻¹² radian.
#[derive(Clone, Copy, Debug, PartialEq, Eq)]
pub struct Angles {
    pub x: i128,
    pub y: i128,
    pub z: i128,
}

/// A first-person camera: position and viewing direction.
#[derive(Clone, Copy, Debug, PartialEq, Eq)]
pub struct Camera {
    pub x: i64,
    pub y: i64,
    pub z: i64,
    pub yaw: i64,
    pub pitch: i64,
}

/// Placement and spin applied to the two cubes.
#[derive(Clone, Copy, Debug, PartialEq, Eq)]
pub struct Transform {
    pub translation: Fixed3,
    pub scale: Fixed3,
    pub angle: Angles,
    /// Millionths of a radian per second, the same about every axis.
    pub rotation_speed: i64,
}

/// Everything that input and time change between frames.
#[derive(Clone, Copy, Debug, PartialEq, Eq)]
pub struct Scene {
    pub camera: Camera,
    pub transform: Transform,
    /// Whether the alternative colouring is on.
    pub colour_mode: bool,
    /// Whether the look button is held.
    pub dragging: bool,
    /// Pointer position of the last motion seen during the current drag.
    pub anchor: Option<(i32, i32)>,
    /// Microseconds of animation time accumulated over all frames.
    pub clock: u64,
    /// False once the program is to exit.
    pub running: bool,
}

/// What the caller has to do after an event has been handled.
#[derive(Clone, Copy, Debug, PartialEq, Eq)]
pub enum Response {
    Continue,
    /// Stop handling events and leave the render loop.
    Exit,
    /// Move the camera one step along its viewing direction, forward or back
    /// (see [`Scene::dolly`]).
    Dolly { forward: bool },
    /// A key with no action; reported for diagnostics only.
    UnmappedKey(u32),
    /// A button with no action; reported for diagnostics only.
    UnmappedButton(u32),
}

impl Camera {
    pub open spec fn initial() -> Camera {
        Camera { x: 0, y: 0, z: START_Z, yaw: START_YAW, pitch: 0 }
    }
}

impl Default for Camera {
    /// The camera at (0, 0, 2), looking down −z.
    fn default() -> (r: Camera)
        ensures
            r == Camera::initial(),
    {
        Camera { x: 0, y: 0, z: START_Z, yaw: START_YAW, pitch: 0 }
    }
}

impl Transform {
    pub open spec fn initial() -> Transform {
        Transform {
            translation: Fixed3 { x: 0, y: 0, z: 0 },
            scale: Fixed3 { x: ONE, y: ONE, z: ONE },
            angle: Angles { x: 0, y: 0, z: 0 },
            rotation_speed: 0,
        }
    }
}

impl Default for Transform {
    /// No translation, unit scale, no rotation and no spin.
    fn default() -> (r: Transform)
        ensures
            r == Transform::initial(),
    {
        Transform {
            translation: Fixed3 { x: 0, y: 0, z: 0 },
            scale: Fixed3 { x: ONE, y: ONE, z: ONE },
            angle: Angles { x: 0, y: 0, z: 0 },
            rotation_speed: 0,
        }
    }
}

/// The effect of pressing key `k`.
pub open spec fn key_pressed(s: Scene, k: u32) -> (Scene, Response) {
    let c = s.camera;
    let t = s.transform;
    if k == KEY_QUIT {
        (Scene { running: false, ..s }, Response::Exit)
    } else if k == KEY_FORWARD {
        (Scene { camera: Camera { z: clamp64(c.z - CAMERA_STEP), ..c }, ..s }, Response::Continue)
    } else if k == KEY_BACK {
        (Scene { camera: Camera { z: clamp64(c.z + CAMERA_STEP), ..c }, ..s }, Response::Continue)
    } else if k == KEY_LEFT {
        (Scene { camera: Camera { x: clamp64(c.x - CAMERA_STEP), ..c }, ..s }, Response::Continue)
    } else if k == KEY_RIGHT {
        (Scene { camera: Camera { x: clamp64(c.x + CAMERA_STEP), ..c }, ..s }, Response::Continue)
    } else if k == KEY_SCALE_X {
        (
            Scene {
                transform: Transform {
                    scale: Fixed3 { x: clamp64(t.scale.x + SCALE_STEP), ..t.scale },
                    ..t
                },
                ..s
            },
            Response::Continue,
        )
    } else if k == KEY_SCALE_Y {
        (
            Scene {
                transform: Transform {
                    scale: Fixed3 { y: clamp64(t.scale.y + SCALE_STEP), ..t.scale },
                    ..t
                },
                ..s
            },
            Response::Continue,
        )
    } else if k == KEY_SCALE_Z {
        (
            Scene {
                transform: Transform {
                    scale: Fixed3 { z: clamp64(t.scale.z + SCALE_STEP), ..t.scale },
                    ..t
                },
                ..s
            },
            Response::Continue,
        )
    } else if k == KEY_MOVE_UP {
        (
            Scene {
                transform: Transform {
                    translation: Fixed3 {
                        y: clamp64(t.translation.y + TRANSLATE_STEP),
                        ..t.translation
                    },
                    ..t
                },
                ..s
            },
            Response::Continue,
        )
    } else if k == KEY_MOVE_DOWN {
        (
            Scene {
                transform: Transform {
                    translation: Fixed3 {
                        y: clamp64(t.translation.y - TRANSLATE_STEP),
                        ..t.translation
                    },
                    ..t
                },
                ..s
            },
            Response::Continue,
        )
    } else if k == KEY_MOVE_LEFT {
        (
            Scene {
                transform: Transform {
                    translation: Fixed3 {
                        x: clamp64(t.translation.x - TRANSLATE_STEP),
                        ..t.translation
                    },
                    ..t
                },
                ..s
            },
            Response::Continue,
        )
    } else if k == KEY_MOVE_RIGHT {
        (
            Scene {
                transform: Transform {
                    translation: Fixed3 {
                        x: clamp64(t.translation.x + TRANSLATE_STEP),
                        ..t.translation
                    },
                    ..t
                },
                ..s
            },
            Response::Continue,
        )
    } else if k == KEY_FASTER {
        (
            Scene {
                transform: Transform {
                    rotation_speed: clamp64(t.rotation_speed + SPEED_STEP),
                    ..t
                },
                ..s
            },
            Response::Continue,
        )
    } else if k == KEY_SLOWER {
        (
            Scene {
                transform: Transform {
                    rotation_speed: clamp64(t.rotation_speed - SPEED_STEP),
                    ..t
                },
                ..s
            },
            Response::Continue,
        )
    } else if k == KEY_RESET {
        (
            Scene { camera: Camera::initial(), transform: Transform::initial(), ..s },
            Response::Continue,
        )
    } else if k == KEY_COLOUR {
        (Scene { colour_mode: !s.colour_mode, ..s }, Response::Continue)
    } else {
        (s, Response::UnmappedKey(k))
    }
}

/// The effect of pressing pointer button `b`.
pub open spec fn button_pressed(s: Scene, b: u32) -> (Scene, Response) {
    if b == BUTTON_LOOK {
        if s.dragging {
            (s, Response::Continue)
        } else {
            (Scene { dragging: true, anchor: None, ..s }, Response::Continue)
        }
    } else if b == BUTTON_DOLLY_IN {
        (s, Response::Dolly { forward: true })
    } else if b == BUTTON_DOLLY_OUT {
        (s, Response::Dolly { forward: false })
    } else {
        (s, Response::UnmappedButton(b))
    }
}

/// The effect of releasing pointer button `b`.
pub open spec fn button_released(s: Scene, b: u32) -> (Scene, Response) {
    if b == BUTTON_LOOK {
        (Scene { dragging: false, ..s }, Response::Continue)
    } else {
        (s, Response::UnmappedButton(b))
    }
}

/// The effect of the pointer moving to (`x`, `y`). Only a drag turns the
/// camera, and its first motion only sets the point that later ones are
/// measured from.
pub open spec fn pointer_moved(s: Scene, x: i32, y: i32) -> Scene {
    if !s.dragging {
        s
    } else {
        match s.anchor {
            None => Scene { anchor: Some((x, y)), ..s },
            Some((ax, ay)) => Scene {
                camera: Camera {
                    yaw: clamp64(s.camera.yaw - (x - ax) * SENSITIVITY),
                    pitch: clamp_pitch(s.camera.pitch - (y - ay) * SENSITIVITY),
                    ..s.camera
                },
                anchor: Some((x, y)),
                ..s
            },
        }
    }
}

/// The effect of one event. Once the program is exiting, events change nothing.
pub open spec fn step(s: Scene, e: Event) -> (Scene, Response) {
    if !s.running {
        (s, Response::Exit)
    } else {
        match e {
            Event::KeyPress(k) => key_pressed(s, k.keycode),
            Event::ButtonPress(b) => button_pressed(s, b.button),
            Event::ButtonRelease(b) => button_released(s, b.button),
            Event::Motion(m) => (pointer_moved(s, m.x, m.y), Response::Continue),
            Event::DestroyNotify => (Scene { running: false, ..s }, Response::Exit),
            _ => (s, Response::Continue),
        }
    }
}

/// The scene after a frame that took `elapsed` microseconds: each rotation
/// angle gains speed × time, and the animation clock advances.
pub open spec fn advanced(s: Scene, elapsed: u64) -> Scene {
    let t = s.transform;
    let d = t.rotation_speed * elapsed;
    Scene {
        transform: Transform {
            angle: Angles {
                x: clamp_angle(t.angle.x + d),
                y: clamp_angle(t.angle.y + d),
                z: clamp_angle(t.angle.z + d),
            },
            ..t
        },
        clock: clamp_u64(s.clock + elapsed),
        ..s
    }
}

impl Scene {
    /// The state the program starts in.
    pub open spec fn initial() -> Scene {
        Scene {
            camera: Camera::initial(),
            transform: Transform::initial(),
            colour_mode: false,
            dragging: false,
            anchor: None,
            clock: 0,
            running: true,
        }
    }

    /// Pitch lies within its safe range.
    pub open spec fn wf(self) -> bool {
        -PITCH_LIMIT <= self.camera.pitch <= PITCH_LIMIT
    }

    pub fn new() -> (r: Scene)
        ensures
            r == Scene::initial(),
            r.wf(),
    {
        Scene {
            camera: Camera::default(),
            transform: Transform::default(),
            colour_mode: false,
            dragging: false,
            anchor: None,
            clock: 0,
            running: true,
        }
    }

    /// The value handed to the shader's colour-mode uniform: 1 when the
    /// alternative colouring is on, else 0.
    pub fn colour_mode_value(&self) -> (r: u32)
        ensures
            r == (if self.colour_mode { 1u32 } else { 0u32 }),
    {
        if self.colour_mode {
            1
        } else {
            0
        }
    }

    fn press_key(&mut self, k: u32) -> (r: Response)
        ensures
            (*final(self), r) == key_pressed(*old(self), k),
    {
        if k == KEY_QUIT {
            self.running = false;
            Response::Exit
        } else if k == KEY_FORWARD {
            self.camera.z = sub_clamped(self.camera.z, CAMERA_STEP);
            Response::Continue
        } else if k == KEY_BACK {
            self.camera.z = add_clamped(self.camera.z, CAMERA_STEP);
            Response::Continue
        } else if k == KEY_LEFT {
            self.camera.x = sub_clamped(self.camera.x, CAMERA_STEP);
            Response::Continue
        } else if k == KEY_RIGHT {
            self.camera.x = add_clamped(self.camera.x, CAMERA_STEP);
            Response::Continue
        } else if k == KEY_SCALE_X {
            self.transform.scale.x = add_clamped(self.transform.scale.x, SCALE_STEP);
            Response::Continue
        } else if k == KEY_SCALE_Y {
            self.transform.scale.y = add_clamped(self.transform.scale.y, SCALE_STEP);
            Response::Continue
        } else if k == KEY_SCALE_Z {
            self.transform.scale.z = add_clamped(self.transform.scale.z, SCALE_STEP);
            Response::Continue
        } else if k == KEY_MOVE_UP {
            self.transform.translation.y = add_clamped(
                self.transform.translation.y,
                TRANSLATE_STEP,
            );
            Response::Continue
        } else if k == KEY_MOVE_DOWN {
            self.transform.translation.y = sub_clamped(
                self.transform.translation.y,
                TRANSLATE_STEP,
            );
            Response::Continue
        } else if k == KEY_MOVE_LEFT {
            self.transform.translation.x = sub_clamped(
                self.transform.translation.x,
                TRANSLATE_STEP,
            );
            Response::Continue
        } else if k == KEY_MOVE_RIGHT {
            self.transform.translation.x = add_clamped(
                self.transform.translation.x,
                TRANSLATE_STEP,
            );
            Response::Continue
        } else if k == KEY_FASTER {
            self.transform.rotation_speed = add_clamped(self.transform.rotation_speed, SPEED_STEP);
            Response::Continue
        } else if k == KEY_SLOWER {
            self.transform.rotation_speed = sub_clamped(self.transform.rotation_speed, SPEED_STEP);
            Response::Continue
        } else if k == KEY_RESET {
            self.camera = Camera::default();
            self.transform = Transform::default();
            Response::Continue
        } else if k == KEY_COLOUR {
            self.colour_mode = !self.colour_mode;
            Response::Continue
        } else {
            Response::UnmappedKey(k)
        }
    }

    fn move_pointer(&mut self, x: i32, y: i32)
        ensures
            *final(self) == pointer_moved(*old(self), x, y),
    {
        if self.dragging {
            match self.anchor {
                None => {
                    self.anchor = Some((x, y));
                },
                Some((ax, ay)) => {
                    let dx: i64 = x as i64 - ax as i64;
                    let dy: i64 = y as i64 - ay as i64;
                    self.camera.yaw = sub_clamped(self.camera.yaw, dx * SENSITIVITY);
                    let pitch: i64 = self.camera.pitch;
                    let p: i128 = pitch as i128 - (dy * SENSITIVITY) as i128;
                    self.camera.pitch = if p < -PITCH_LIMIT as i128 {
                        -PITCH_LIMIT
                    } else if p > PITCH_LIMIT as i128 {
                        PITCH_LIMIT
                    } else {
                        p as i64
                    };
                    self.anchor = Some((x, y));
                },
            }
        }
    }

    /// Applies one input event and says what the caller has to do next.
    pub fn handle_event(&mut self, e: &Event) -> (r: Response)
        ensures
            (*final(self), r) == step(*old(self), *e),
            old(self).wf() ==> final(self).wf(),
    {
        if !self.running {
            return Response::Exit;
        }
        match e {
            Event::KeyPress(k) => self.press_key(k.keycode),
            Event::ButtonPress(b) => {
                if b.button == BUTTON_LOOK {
                    if !self.dragging {
                        self.dragging = true;
                        self.anchor = None;
                    }
                    Response::Continue
                } else if b.button == BUTTON_DOLLY_IN {
                    Response::Dolly { forward: true }
                } else if b.button == BUTTON_DOLLY_OUT {
                    Response::Dolly { forward: false }
                } else {
                    Response::UnmappedButton(b.button)
                }
            },
            Event::ButtonRelease(b) => {
                if b.button == BUTTON_LOOK {
                    self.dragging = false;
                    Response::Continue
                } else {
                    Response::UnmappedButton(b.button)
                }
            },
            Event::Motion(m) => {
                self.move_pointer(m.x, m.y);
                Response::Continue
            },
            Event::DestroyNotify => {
                self.running = false;
                Response::Exit
            },
            _ => Response::Continue,
        }
    }

    /// Moves the camera by `step` (forward) or by its opposite (back).
    /// `step` is the camera's viewing direction scaled to the dolly distance,
    /// computed by the caller.
    pub fn dolly(&mut self, step: Fixed3, forward: bool)
        ensures
            final(self).camera.x == (if forward { clamp64(old(self).camera.x + step.x) } else {
                clamp64(old(self).camera.x - step.x)
            }),
            final(self).camera.y == (if forward { clamp64(old(self).camera.y + step.y) } else {
                clamp64(old(self).camera.y - step.y)
            }),
            final(self).camera.z == (if forward { clamp64(old(self).camera.z + step.z) } else {
                clamp64(old(self).camera.z - step.z)
            }),
            final(self).camera.yaw == old(self).camera.yaw,
            final(self).camera.pitch == old(self).camera.pitch,
            final(self).transform == old(self).transform,
            final(self).colour_mode == old(self).colour_mode,
            final(self).dragging == old(self).dragging,
            final(self).anchor == old(self).anchor,
            final(self).clock == old(self).clock,
            final(self).running == old(self).running,
    {
        if forward {
            self.camera.x = add_clamped(self.camera.x, step.x);
            self.camera.y = add_clamped(self.camera.y, step.y);
            self.camera.z = add_clamped(self.camera.z, step.z);
        } else {
            self.camera.x = sub_clamped(self.camera.x, step.x);
            self.camera.y = sub_clamped(self.camera.y, step.y);
            self.camera.z = sub_clamped(self.camera.z, step.z);
        }
    }

    /// Integrates one frame of `elapsed` microseconds.
    pub fn advance(&mut self, elapsed: u64)
        ensures
            *final(self) == advanced(*old(self), elapsed),
            old(self).wf() ==> final(self).wf(),
    {
        let speed: i64 = self.transform.rotation_speed;
        assert(-0x8000_0000_0000_0000 * 0xffff_ffff_ffff_ffff <= speed * elapsed
            <= 0x7fff_ffff_ffff_ffff * 0xffff_ffff_ffff_ffff)
            by (nonlinear_arith)
            requires
                i64::MIN <= speed <= i64::MAX,
                0 <= elapsed <= u64::MAX,
        ;
        let d: i128 = speed as i128 * elapsed as i128;
        self.transform.angle.x = add_angle(self.transform.angle.x, d);
        self.transform.angle.y = add_angle(self.transform.angle.y, d);
        self.transform.angle.z = add_angle(self.transform.angle.z, d);
        self.clock = self.clock.saturating_add(elapsed);
    }
}

/// The scene after the events `es`, handled in order from `s`.
pub open spec fn run(s: Scene, es: Seq<Event>) -> Scene
    decreases es.len(),
{
    if es.len() == 0 {
        s
    } else {
        step(run(s, es.drop_last()), es.last()).0
    }
}

/// The scene after frames of the durations `ds`, integrated in order from `s`.
pub open spec fn advance_all(s: Scene, ds: Seq<u64>) -> Scene
    decreases ds.len(),
{
    if ds.len() == 0 {
        s
    } else {
        advanced(advance_all(s, ds.drop_last()), ds.last())
    }
}

/// The sum of the durations `ds`.
pub open spec fn total(ds: Seq<u64>) -> int
    decreases ds.len(),
{
    if ds.len() == 0 {
        0
    } else {
        total(ds.drop_last()) + ds.last()
    }
}

/// Whether angle `a` plus `speed` × `t` stays within the representable range
/// at its start and at its end.
pub open spec fn spin_fits(a: int, speed: int, t: int) -> bool {
    &&& -ANGLE_LIMIT <= a <= ANGLE_LIMIT
    &&& -ANGLE_LIMIT <= a + speed * t <= ANGLE_LIMIT
}

/// The first motion of a drag only records where the pointer is: the camera
/// does not turn.
pub proof fn lemma_first_drag_motion_sets_reference(s: Scene, m: XMotionEvent)
    requires
        s.running,
        s.dragging,
        s.anchor is None,
    ensures
        step(s, Event::Motion(m)).0.camera == s.camera,
        step(s, Event::Motion(m)).0.anchor == Some((m.x, m.y)),
        step(s, Event::Motion(m)).1 == Response::Continue,
{
}

/// Each later motion of a drag turns the camera by the pointer's travel
/// since the previous one: yaw decreases by dx × sensitivity and pitch by
/// dy × sensitivity, pitch kept within its safe range, and the new position
/// becomes the reference. Nothing else changes.
pub proof fn lemma_drag_motion_turns_camera(s: Scene, m: XMotionEvent)
    requires
        s.running,
        s.dragging,
        s.anchor is Some,
        i64::MIN <= s.camera.yaw - (m.x - s.anchor.unwrap().0) * SENSITIVITY <= i64::MAX,
    ensures
        ({
            let (ax, ay) = s.anchor.unwrap();
            let t = step(s, Event::Motion(m)).0;
            &&& t.camera.yaw == s.camera.yaw - (m.x - ax) * SENSITIVITY
            &&& t.camera.pitch == clamp_pitch(s.camera.pitch - (m.y - ay) * SENSITIVITY)
            &&& -PITCH_LIMIT <= t.camera.pitch <= PITCH_LIMIT
            &&& t.camera.x == s.camera.x && t.camera.y == s.camera.y && t.camera.z == s.camera.z
            &&& t.anchor == Some((m.x, m.y))
            &&& t.transform == s.transform
            &&& t.dragging && t.running
        }),
{
}

/// One step keeps pitch within its safe range.
pub proof fn lemma_step_keeps_pitch(s: Scene, e: Event)
    requires
        s.wf(),
    ensures
        step(s, e).0.wf(),
{
}

/// Whatever the pointer motions and other events, pitch never leaves its
/// safe range, however far the pointer travels in total.
pub proof fn lemma_pitch_stays_bounded(s: Scene, es: Seq<Event>)
    requires
        s.wf(),
    ensures
        run(s, es).wf(),
    decreases es.len(),
{
    if es.len() > 0 {
        lemma_pitch_stays_bounded(s, es.drop_last());
        lemma_step_keeps_pitch(run(s, es.drop_last()), es.last());
    }
}

/// After any events, a reset puts the camera, the transform and the rotation
/// speed back to their starting values, whatever came before.
pub proof fn lemma_reset_restores_start(s: Scene, es: Seq<Event>, k: XKeyEvent)
    requires
        run(s, es).running,
        k.keycode == KEY_RESET,
    ensures
        run(s, es.push(Event::KeyPress(k))).camera == Camera::initial(),
        run(s, es.push(Event::KeyPress(k))).transform == Transform::initial(),
        run(s, es.push(Event::KeyPress(k))).transform.rotation_speed == 0,
{
    assert(es.push(Event::KeyPress(k)).drop_last() == es);
}

proof fn lemma_scaled_between(speed: int, p: int, t: int)
    requires
        0 <= p <= t,
    ensures
        speed >= 0 ==> 0 <= speed * p <= speed * t,
        speed < 0 ==> speed * t <= speed * p <= 0,
{
    assert(speed >= 0 ==> 0 <= speed * p <= speed * t) by (nonlinear_arith)
        requires
            0 <= p <= t,
    ;
    assert(speed < 0 ==> speed * t <= speed * p <= 0) by (nonlinear_arith)
        requires
            0 <= p <= t,
    ;
}

proof fn lemma_total_nonneg(ds: Seq<u64>)
    ensures
        total(ds) >= 0,
    decreases ds.len(),
{
    if ds.len() > 0 {
        lemma_total_nonneg(ds.drop_last());
    }
}

/// Over frames of any durations at a constant speed, each rotation angle
/// grows by exactly speed × the total time, as long as the result is
/// representable.
pub proof fn lemma_rotation_integrates(s: Scene, ds: Seq<u64>)
    requires
        spin_fits(s.transform.angle.x as int, s.transform.rotation_speed as int, total(ds)),
        spin_fits(s.transform.angle.y as int, s.transform.rotation_speed as int, total(ds)),
        spin_fits(s.transform.angle.z as int, s.transform.rotation_speed as int, total(ds)),
    ensures
        advance_all(s, ds).transform.rotation_speed == s.transform.rotation_speed,
        advance_all(s, ds).transform.angle.x == s.transform.angle.x + s.transform.rotation_speed
            * total(ds),
        advance_all(s, ds).transform.angle.y == s.transform.angle.y + s.transform.rotation_speed
            * total(ds),
        advance_all(s, ds).transform.angle.z == s.transform.angle.z + s.transform.rotation_speed
            * total(ds),
    decreases ds.len(),
{
    if ds.len() > 0 {
        let p = ds.drop_last();
        let d = ds.last();
        let speed = s.transform.rotation_speed as int;
        lemma_total_nonneg(p);
        lemma_scaled_between(speed, total(p), total(ds));
        lemma_rotation_integrates(s, p);
        assert(speed * total(p) + speed * d == speed * total(ds)) by (nonlinear_arith)
            requires
                total(ds) == total(p) + d,
        ;
    }
}

/// Frame-rate independence: two runs of frames with the same total time end
/// with the same rotation angles, however that time was split into frames.
pub proof fn lemma_rotation_frame_rate_independent(s: Scene, ds1: Seq<u64>, ds2: Seq<u64>)
    requires
        total(ds1) == total(ds2),
        spin_fits(s.transform.angle.x as int, s.transform.rotation_speed as int, total(ds1)),
        spin_fits(s.transform.angle.y as int, s.transform.rotation_speed as int, total(ds1)),
        spin_fits(s.transform.angle.z as int, s.transform.rotation_speed as int, total(ds1)),
    ensures
        advance_all(s, ds1).transform.angle == advance_all(s, ds2).transform.angle,
{
    lemma_rotation_integrates(s, ds1);
    lemma_rotation_integrates(s, ds2);
}

} // verus!
