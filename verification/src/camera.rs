//! Fly-camera state machine.
//!
//! The camera owns an eye position, a static look direction, the projection
//! parameters fixed at construction, and six sticky movement flags. Discrete
//! key events set and clear the flags; a fixed-rate tick adds one movement
//! step per active flag to the position. The host application turns the
//! look-at and projection parameters exposed here into floating-point
//! matrices for the renderer.
//!
//! All coordinates are fixed-point integers. Positions carry
//! [`POS_SCALE`] units per world unit and directions carry [`DIR_SCALE`]
//! units per world unit, so every tick of the state machine is exact.

use vstd::prelude::*;

verus! {

/// Position units per world unit: positions are millionths of a world unit.
pub const POS_SCALE: i64 = 1_000_000;

/// Direction units per world unit: directions are thousandths of a world unit.
pub const DIR_SCALE: i64 = 1_000;

/// One movement step per tick, in position units: a hundredth of a world unit.
pub const MOVE_STEP: i64 = 10_000;

/// Forward motion per tick is `direction * MOVE_STEP / POS_SCALE` world
/// units; in position units per direction unit that ratio is exactly 10.
pub const FORWARD_FACTOR: i64 = 10;

/// Position units per direction unit, used to put the look target on the
/// same scale as the eye position.
pub const DIR_TO_POS: i64 = 1_000;

/// Largest direction component magnitude the camera accepts, in direction
/// units: a million world units, far beyond any look vector in use.
pub const DIR_LIMIT: i64 = 1_000_000_000;

/// A three-component fixed-point vector.
#[derive(Clone, Copy, Debug, PartialEq, Eq, Structural)]
pub struct Vec3Fixed {
    pub x: i64,
    pub y: i64,
    pub z: i64,
}

/// The projection parameters chosen at construction: a 60 degree vertical
/// field of view, the aspect ratio of a fixed 1024 by 768 window, and the
/// near and far planes in position units (a tenth of a world unit and a
/// hundred world units).
#[derive(Clone, Copy, Debug, PartialEq, Eq, Structural)]
pub struct PerspectiveParams {
    pub fovy_degrees: u32,
    pub aspect_width: u32,
    pub aspect_height: u32,
    pub near: i64,
    pub far: i64,
}

/// The inputs of a look-at view transform: eye, target and world-up, all in
/// position units.
#[derive(Clone, Copy, Debug, PartialEq, Eq, Structural)]
pub struct LookAt {
    pub eye: Vec3Fixed,
    pub target: Vec3Fixed,
    pub up: Vec3Fixed,
}

/// Whether a key went down or came back up.
#[derive(Clone, Copy, Debug, PartialEq, Eq, Structural)]
pub enum KeyState {
    Pressed,
    Released,
}

/// The keys the camera reacts to.
#[derive(Clone, Copy, Debug, PartialEq, Eq, Structural)]
pub enum CameraKey {
    /// Space bar: move up.
    Space,
    /// Down arrow: move down.
    ArrowDown,
    /// A: move left.
    A,
    /// D: move right.
    D,
    /// W: move forward along the look direction.
    W,
    /// S: move backward along the look direction.
    S,
}

/// An input event as the camera sees it. Keyboard events may lack a
/// recognized key code; everything else is opaque to the camera.
#[derive(Clone, Copy, Debug, PartialEq, Eq, Structural)]
pub enum InputEvent {
    Key { state: KeyState, code: Option<CameraKey> },
    Other,
}

/// The camera: projection parameters, eye position, static look direction,
/// and the six sticky movement flags.
#[derive(Clone, Copy, Debug, PartialEq, Eq, Structural)]
pub struct CameraState {
    pub perspective: PerspectiveParams,
    pub position: Vec3Fixed,
    pub direction: Vec3Fixed,
    pub moving_up: bool,
    pub moving_left: bool,
    pub moving_down: bool,
    pub moving_right: bool,
    pub moving_forward: bool,
    pub moving_backward: bool,
}

/// Clamp a mathematical integer into the range of `i64`.
pub open spec fn clamp_i64(v: int) -> int {
    if v > i64::MAX {
        i64::MAX as int
    } else if v < i64::MIN {
        i64::MIN as int
    } else {
        v
    }
}

/// What one tick adds to the position along the world x axis: a step right,
/// a step left, and the x component of forward and backward motion.
pub open spec fn tick_delta_x(cam: CameraState) -> int {
    (if cam.moving_right { MOVE_STEP as int } else { 0 })
        - (if cam.moving_left { MOVE_STEP as int } else { 0 })
        + (if cam.moving_forward { cam.direction.x * FORWARD_FACTOR } else { 0 })
        - (if cam.moving_backward { cam.direction.x * FORWARD_FACTOR } else { 0 })
}

/// What one tick adds to the position along the world y axis.
pub open spec fn tick_delta_y(cam: CameraState) -> int {
    (if cam.moving_up { MOVE_STEP as int } else { 0 })
        - (if cam.moving_down { MOVE_STEP as int } else { 0 })
        + (if cam.moving_forward { cam.direction.y * FORWARD_FACTOR } else { 0 })
        - (if cam.moving_backward { cam.direction.y * FORWARD_FACTOR } else { 0 })
}

/// What one tick adds to the position along the world z axis: only forward
/// and backward motion has a z component.
pub open spec fn tick_delta_z(cam: CameraState) -> int {
    (if cam.moving_forward { cam.direction.z * FORWARD_FACTOR } else { 0 })
        - (if cam.moving_backward { cam.direction.z * FORWARD_FACTOR } else { 0 })
}

/// The position after one tick: each axis moves by its tick delta, clamped
/// at the ends of the representable range.
pub open spec fn ticked_position(cam: CameraState) -> Vec3Fixed {
    Vec3Fixed {
        x: clamp_i64(cam.position.x + tick_delta_x(cam)) as i64,
        y: clamp_i64(cam.position.y + tick_delta_y(cam)) as i64,
        z: clamp_i64(cam.position.z + tick_delta_z(cam)) as i64,
    }
}

/// A movement flag after an event: a press of the flag's key sets it, a
/// release of the flag's key clears it, anything else leaves it alone.
pub open spec fn flag_after(current: bool, event: InputEvent, key: CameraKey) -> bool {
    match event {
        InputEvent::Key { state, code } => {
            if code == Some(key) {
                state is Pressed
            } else {
                current
            }
        },
        InputEvent::Other => current,
    }
}

/// The look-at parameters of a camera: the eye at the current position, the
/// target one look vector ahead of it, and the world-up axis.
pub open spec fn view_of(cam: CameraState) -> LookAt {
    LookAt {
        eye: cam.position,
        target: Vec3Fixed {
            x: clamp_i64(cam.position.x + cam.direction.x * DIR_TO_POS) as i64,
            y: clamp_i64(cam.position.y + cam.direction.y * DIR_TO_POS) as i64,
            z: clamp_i64(cam.position.z + cam.direction.z * DIR_TO_POS) as i64,
        },
        up: Vec3Fixed { x: 0, y: POS_SCALE, z: 0 },
    }
}

impl CameraState {
    /// A camera is well formed when its look direction is bounded, which
    /// keeps every tick's forward contribution representable.
    pub open spec fn wf(self) -> bool {
        &&& -DIR_LIMIT <= self.direction.x <= DIR_LIMIT
        &&& -DIR_LIMIT <= self.direction.y <= DIR_LIMIT
        &&& -DIR_LIMIT <= self.direction.z <= DIR_LIMIT
    }

    /// Build the camera the viewer starts with: the eye a tenth of a world
    /// unit up and right and one unit back, looking down the negative z
    /// axis, no movement active, and the fixed projection parameters.
    pub fn new() -> (cam: CameraState)
        ensures
            cam.wf(),
            cam.position == (Vec3Fixed { x: 100_000, y: 100_000, z: 1_000_000 }),
            cam.direction == (Vec3Fixed { x: 0, y: 0, z: -1_000i64 }),
            cam.perspective == (PerspectiveParams {
                fovy_degrees: 60,
                aspect_width: 1024,
                aspect_height: 768,
                near: 100_000,
                far: 100_000_000,
            }),
            !cam.moving_up && !cam.moving_left && !cam.moving_down,
            !cam.moving_right && !cam.moving_forward && !cam.moving_backward,
    {
        CameraState {
            perspective: PerspectiveParams {
                fovy_degrees: 60,
                aspect_width: 1024,
                aspect_height: 768,
                near: 100_000,
                far: 100_000_000,
            },
            position: Vec3Fixed { x: 100_000, y: 100_000, z: 1_000_000 },
            direction: Vec3Fixed { x: 0, y: 0, z: -1_000 },
            moving_up: false,
            moving_left: false,
            moving_down: false,
            moving_right: false,
            moving_forward: false,
            moving_backward: false,
        }
    }

    /// The projection parameters chosen at construction; querying them
    /// changes nothing.
    pub fn get_perspective(&self) -> (p: PerspectiveParams)
        ensures
            p == self.perspective,
    {
        self.perspective
    }

    /// The look-at parameters for the current eye position and look
    /// direction; querying them changes nothing.
    pub fn get_view(&self) -> (v: LookAt)
        requires
            self.wf(),
        ensures
            v == view_of(*self),
    {
        LookAt {
            eye: self.position,
            target: Vec3Fixed {
                x: add_clamped(self.position.x, self.direction.x * DIR_TO_POS),
                y: add_clamped(self.position.y, self.direction.y * DIR_TO_POS),
                z: add_clamped(self.position.z, self.direction.z * DIR_TO_POS),
            },
            up: Vec3Fixed { x: 0, y: POS_SCALE, z: 0 },
        }
    }

    /// Advance the position by one fixed tick: one step along each world
    /// axis whose flag is set, and one step along the look direction for
    /// the forward and backward flags, all additively.
    pub fn update(&mut self)
        requires
            old(self).wf(),
        ensures
            final(self).position == ticked_position(*old(self)),
            final(self).direction == old(self).direction,
            final(self).perspective == old(self).perspective,
            final(self).moving_up == old(self).moving_up,
            final(self).moving_left == old(self).moving_left,
            final(self).moving_down == old(self).moving_down,
            final(self).moving_right == old(self).moving_right,
            final(self).moving_forward == old(self).moving_forward,
            final(self).moving_backward == old(self).moving_backward,
            final(self).wf(),
    {
        let fwd_x: i64 = self.direction.x * FORWARD_FACTOR;
        let fwd_y: i64 = self.direction.y * FORWARD_FACTOR;
        let fwd_z: i64 = self.direction.z * FORWARD_FACTOR;

        let mut dx: i64 = 0;
        let mut dy: i64 = 0;
        let mut dz: i64 = 0;
        if self.moving_up {
            dy = dy + MOVE_STEP;
        }
        if self.moving_left {
            dx = dx - MOVE_STEP;
        }
        if self.moving_down {
            dy = dy - MOVE_STEP;
        }
        if self.moving_right {
            dx = dx + MOVE_STEP;
        }
        if self.moving_forward {
            dx = dx + fwd_x;
            dy = dy + fwd_y;
            dz = dz + fwd_z;
        }
        if self.moving_backward {
            dx = dx - fwd_x;
            dy = dy - fwd_y;
            dz = dz - fwd_z;
        }
        self.position.x = add_clamped(self.position.x, dx);
        self.position.y = add_clamped(self.position.y, dy);
        self.position.z = add_clamped(self.position.z, dz);
    }

    /// Route a key event to the movement flags: a press sets the matching
    /// flag, a release clears it, and unrecognized events change nothing.
    pub fn process_input(&mut self, event: &InputEvent)
        ensures
            final(self).moving_up == flag_after(old(self).moving_up, *event, CameraKey::Space),
            final(self).moving_down == flag_after(
                old(self).moving_down,
                *event,
                CameraKey::ArrowDown,
            ),
            final(self).moving_left == flag_after(old(self).moving_left, *event, CameraKey::A),
            final(self).moving_right == flag_after(old(self).moving_right, *event, CameraKey::D),
            final(self).moving_forward == flag_after(old(self).moving_forward, *event, CameraKey::W),
            final(self).moving_backward == flag_after(
                old(self).moving_backward,
                *event,
                CameraKey::S,
            ),
            final(self).position == old(self).position,
            final(self).direction == old(self).direction,
            final(self).perspective == old(self).perspective,
    {
        match event {
            InputEvent::Key { state: KeyState::Pressed, code: Some(CameraKey::Space) } => {
                self.moving_up = true;
            },
            InputEvent::Key { state: KeyState::Released, code: Some(CameraKey::Space) } => {
                self.moving_up = false;
            },
            InputEvent::Key { state: KeyState::Pressed, code: Some(CameraKey::ArrowDown) } => {
                self.moving_down = true;
            },
            InputEvent::Key { state: KeyState::Released, code: Some(CameraKey::ArrowDown) } => {
                self.moving_down = false;
            },
            InputEvent::Key { state: KeyState::Pressed, code: Some(CameraKey::A) } => {
                self.moving_left = true;
            },
            InputEvent::Key { state: KeyState::Released, code: Some(CameraKey::A) } => {
                self.moving_left = false;
            },
            InputEvent::Key { state: KeyState::Pressed, code: Some(CameraKey::D) } => {
                self.moving_right = true;
            },
            InputEvent::Key { state: KeyState::Released, code: Some(CameraKey::D) } => {
                self.moving_right = false;
            },
            InputEvent::Key { state: KeyState::Pressed, code: Some(CameraKey::W) } => {
                self.moving_forward = true;
            },
            InputEvent::Key { state: KeyState::Released, code: Some(CameraKey::W) } => {
                self.moving_forward = false;
            },
            InputEvent::Key { state: KeyState::Pressed, code: Some(CameraKey::S) } => {
                self.moving_backward = true;
            },
            InputEvent::Key { state: KeyState::Released, code: Some(CameraKey::S) } => {
                self.moving_backward = false;
            },
            _ => {},
        }
    }
}

/// Add a delta to a coordinate, clamping at the ends of the `i64` range.
fn add_clamped(base: i64, delta: i64) -> (r: i64)
    ensures
        r == clamp_i64(base + delta),
{
    let total: i128 = base as i128 + delta as i128;
    if total > i64::MAX as i128 {
        i64::MAX
    } else if total < i64::MIN as i128 {
        i64::MIN
    } else {
        total as i64
    }
}

/// The movement flags act independently: with forward and up both active
/// and nothing else, one tick moves the position by the up step and by the
/// forward step at once, for any position far enough from the ends of the
/// coordinate range that no clamping occurs.
pub proof fn lemma_flags_are_additive(cam: CameraState)
    requires
        cam.wf(),
        cam.moving_forward,
        cam.moving_up,
        !cam.moving_down,
        !cam.moving_left,
        !cam.moving_right,
        !cam.moving_backward,
        i64::MIN <= cam.position.x + cam.direction.x * FORWARD_FACTOR <= i64::MAX,
        i64::MIN <= cam.position.y + MOVE_STEP + cam.direction.y * FORWARD_FACTOR <= i64::MAX,
        i64::MIN <= cam.position.z + cam.direction.z * FORWARD_FACTOR <= i64::MAX,
    ensures
        ticked_position(cam).x == cam.position.x + cam.direction.x * FORWARD_FACTOR,
        ticked_position(cam).y == cam.position.y + MOVE_STEP + cam.direction.y * FORWARD_FACTOR,
        ticked_position(cam).z == cam.position.z + cam.direction.z * FORWARD_FACTOR,
{
}

/// A press event for a key.
pub open spec fn press_of(key: CameraKey) -> InputEvent {
    InputEvent::Key { state: KeyState::Pressed, code: Some(key) }
}

/// A release event for a key.
pub open spec fn release_of(key: CameraKey) -> InputEvent {
    InputEvent::Key { state: KeyState::Released, code: Some(key) }
}

/// The flags are sticky, not toggling: two consecutive presses of a key
/// leave its flag set whatever it was before, and a release with no prior
/// press leaves it cleared.
pub proof fn lemma_flag_is_sticky(flag: bool, key: CameraKey)
    ensures
        flag_after(flag_after(flag, press_of(key), key), press_of(key), key),
        !flag_after(false, release_of(key), key),
{
}

/// Querying the view mutates nothing, so it is deterministic: any two
/// results that meet the contract of `get_view` on the same camera state
/// are the same matrix input.
pub proof fn lemma_view_is_deterministic(cam: CameraState, first: LookAt, second: LookAt)
    requires
        first == view_of(cam),
        second == view_of(cam),
    ensures
        first == second,
{
}

} // verus!
