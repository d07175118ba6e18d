//! The camera model and the controller that maps input events onto it.
use vstd::prelude::*;
use vstd::arithmetic::power::{pow, lemma_pow0};

verus! {

/// Highest zoom level, in either direction. The scale is `SCALE_STEP` raised to
/// the zoom level: `1.05^1818` is about `1.4e38`, the last such power below
/// `f32::MAX` (about `3.4e38`), and `1.05^-1818` is still a positive `f32`. One
/// more step would overflow the scale to infinity (or its reciprocal to zero),
/// so a zoom key at this bound leaves the scale as it is.
pub const MAX_ZOOM: i64 = 1818;

/// Zooming in multiplies the scale by `SCALE_STEP_NUM / SCALE_STEP_DEN` (1.05).
pub const SCALE_STEP_NUM: u64 = 21;

pub const SCALE_STEP_DEN: u64 = 20;

/// A key nudge moves the offset by `MOVE_STEP_NUM / MOVE_STEP_DEN` (0.05) world units.
pub const MOVE_STEP_NUM: u64 = 1;

pub const MOVE_STEP_DEN: u64 = 20;

/// The starting offset along X, `-1/2`, in units of `MOVE_STEP`.
pub const START_STEPS_X: i64 = -10;

/// The camera.
///
/// `zoom` is the zoom level: the scale is `SCALE_STEP^zoom`. `steps_x` and
/// `steps_y` are the offset in units of `MOVE_STEP`, as far as key nudges set
/// it; the drift from dragging (see `Pan`) is added to it by the host. The
/// offset starts at `(-1/2, 0)`, that is `START_STEPS_X` steps along X. `width` and `height` are the pixel size of the surface: the aspect
/// ratio is `width / height`, and one pixel of drag is `1 / width` (or
/// `1 / height`) of a world unit at scale one.
#[derive(Clone, Copy, Debug, PartialEq, Eq, Structural)]
pub struct View {
    pub zoom: i64,
    pub steps_x: i64,
    pub steps_y: i64,
    pub width: u32,
    pub height: u32,
}

/// Interaction state that is not shown to the GPU: whether a drag is under way,
/// and where the cursor was last seen, in surface pixels.
#[derive(Clone, Copy, Debug, PartialEq, Eq, Structural)]
pub struct ViewController {
    pub panning: bool,
    pub cursor_x: i32,
    pub cursor_y: i32,
}

pub open spec fn zoom_in(z: i64) -> i64 {
    if z < MAX_ZOOM {
        (z + 1) as i64
    } else {
        z
    }
}

pub open spec fn zoom_out(z: i64) -> i64 {
    if z > -MAX_ZOOM {
        (z - 1) as i64
    } else {
        z
    }
}

pub open spec fn step_up(s: i64) -> i64 {
    if s < i64::MAX {
        (s + 1) as i64
    } else {
        s
    }
}

pub open spec fn step_down(s: i64) -> i64 {
    if s > i64::MIN {
        (s - 1) as i64
    } else {
        s
    }
}

/// The scale of a zoom level as a fraction `(numerator, denominator)`.
pub open spec fn scale_fraction(zoom: int) -> (int, int) {
    if zoom >= 0 {
        (pow(SCALE_STEP_NUM as int, zoom as nat), pow(SCALE_STEP_DEN as int, zoom as nat))
    } else {
        (pow(SCALE_STEP_DEN as int, (-zoom) as nat), pow(SCALE_STEP_NUM as int, (-zoom) as nat))
    }
}

impl View {
    /// A camera is well formed when its zoom level is in range and its surface
    /// has a positive area (so the aspect ratio is positive).
    pub open spec fn wf(&self) -> bool {
        -MAX_ZOOM <= self.zoom <= MAX_ZOOM && self.width > 0 && self.height > 0
    }

    /// The aspect ratio `width / height` as a fraction.
    pub open spec fn aspect(&self) -> (int, int) {
        (self.width as int, self.height as int)
    }

    /// The offset as far as key nudges set it, `(x, y)`, each a fraction
    /// `(numerator, denominator)` of world units.
    pub open spec fn key_offset(&self) -> ((int, int), (int, int)) {
        (
            (self.steps_x * MOVE_STEP_NUM, MOVE_STEP_DEN as int),
            (self.steps_y * MOVE_STEP_NUM, MOVE_STEP_DEN as int),
        )
    }

    /// The starting camera and controller: offset `(-1/2, 0)`, scale one,
    /// aspect ratio one, not dragging.
    pub fn new() -> (r: (View, ViewController))
        ensures
            r.0 == (View { zoom: 0, steps_x: START_STEPS_X, steps_y: 0, width: 1, height: 1 }),
            r.0.key_offset().0.0 * 2 == -r.0.key_offset().0.1,
            r.0.key_offset().1.0 == 0,
            scale_fraction(r.0.zoom as int) == (1int, 1int),
            r.0.aspect() == (1int, 1int),
            r.1 == (ViewController { panning: false, cursor_x: 0, cursor_y: 0 }),
            r.0.wf(),
    {
        proof {
            lemma_pow0(SCALE_STEP_NUM as int);
            lemma_pow0(SCALE_STEP_DEN as int);
        }
        (
            View { zoom: 0, steps_x: START_STEPS_X, steps_y: 0, width: 1, height: 1 },
            ViewController { panning: false, cursor_x: 0, cursor_y: 0 },
        )
    }
}

/// Keys that the controller knows; every other key is `Other`.
#[derive(Clone, Copy, Debug, PartialEq, Eq, Structural)]
pub enum Key {
    Equals,
    Minus,
    W,
    A,
    S,
    D,
    Other,
}

#[derive(Clone, Copy, Debug, PartialEq, Eq, Structural)]
pub enum Button {
    Left,
    Right,
    Middle,
    Other,
}

/// An input event, as delivered by the window.
///
/// The cursor position is in surface pixels. A scroll carries only its
/// direction: `up` is true for a positive line delta.
#[derive(Clone, Copy, Debug, PartialEq, Eq, Structural)]
pub enum InputEvent {
    Key { key: Key, pressed: bool },
    Mouse { button: Button, pressed: bool },
    CursorMoved { x: i32, y: i32 },
    Scroll { up: bool },
    Resized { width: u32, height: u32 },
    CloseRequested,
    Other,
}

/// A drag, in pixels, already turned to world directions, with what it is to
/// be divided by: the offset moves by `dx / SCALE_STEP^zoom / width` along X
/// and `dy / SCALE_STEP^zoom / height` along Y (see `world_delta`). `zoom`,
/// `width` and `height` are those of the camera when the cursor moved, so a
/// pixel of drag is the same world distance whatever the surface size.
#[derive(Clone, Copy, Debug, PartialEq, Eq, Structural)]
pub struct Pan {
    pub dx: i64,
    pub dy: i64,
    pub zoom: i64,
    pub width: u32,
    pub height: u32,
}

impl Pan {
    /// The world-space move `(x, y)`, each a fraction `(numerator, denominator)`.
    pub open spec fn world_delta(&self) -> ((int, int), (int, int)) {
        let (num, den) = scale_fraction(self.zoom as int);
        ((self.dx * den, num * self.width), (self.dy * den, num * self.height))
    }
}

/// What the controller reports for one event: whether it consumed it, and the
/// drag that the host must add to the offset, if any.
#[derive(Clone, Copy, Debug, PartialEq, Eq, Structural)]
pub struct InputResponse {
    pub handled: bool,
    pub pan: Option<Pan>,
}

/// Whether the controller consumes an event.
pub open spec fn handles(e: InputEvent) -> bool {
    match e {
        InputEvent::Key { key, pressed } => pressed && key != Key::Other,
        InputEvent::Mouse { button, pressed } => button == Button::Left,
        InputEvent::CursorMoved { x, y } => true,
        InputEvent::Scroll { up } => true,
        _ => false,
    }
}

/// The camera after one event.
pub open spec fn next_view(v: View, e: InputEvent) -> View {
    match e {
        InputEvent::Key { key, pressed } => if !pressed {
            v
        } else {
            match key {
                Key::Equals => View { zoom: zoom_in(v.zoom), ..v },
                Key::Minus => View { zoom: zoom_out(v.zoom), ..v },
                Key::W => View { steps_y: step_up(v.steps_y), ..v },
                Key::A => View { steps_x: step_down(v.steps_x), ..v },
                Key::S => View { steps_y: step_down(v.steps_y), ..v },
                Key::D => View { steps_x: step_up(v.steps_x), ..v },
                Key::Other => v,
            }
        },
        InputEvent::Scroll { up } => if up {
            View { zoom: zoom_in(v.zoom), ..v }
        } else {
            View { zoom: zoom_out(v.zoom), ..v }
        },
        _ => v,
    }
}

/// The controller after one event.
pub open spec fn next_controller(c: ViewController, e: InputEvent) -> ViewController {
    match e {
        InputEvent::Mouse { button, pressed } => if button == Button::Left {
            ViewController { panning: pressed, ..c }
        } else {
            c
        },
        InputEvent::CursorMoved { x, y } => ViewController { cursor_x: x, cursor_y: y, ..c },
        _ => c,
    }
}

/// The drag that one event causes: a cursor move while dragging, by the
/// previous position minus the new one, with Y inverted (screen Y grows
/// downward, world Y upward), divided by the camera's scale and its live
/// surface width and height.
///
/// With the cursor going from `(100, 100)` to `(200, 150)` on a `1600 x 1600`
/// surface at scale one, the offset moves by `(-1/16, 1/32)`. The signs are
/// chosen on purpose: the picture follows the cursor, so the centre of the
/// view moves the other way. Flipping both (giving `(1/16, -1/32)` here) would
/// make the picture run away from the cursor.
pub open spec fn pan_of(c: ViewController, v: View, e: InputEvent) -> Option<Pan> {
    match e {
        InputEvent::CursorMoved { x, y } => if c.panning {
            Some(
                Pan {
                    dx: (c.cursor_x - x) as i64,
                    dy: (y - c.cursor_y) as i64,
                    zoom: v.zoom,
                    width: v.width,
                    height: v.height,
                },
            )
        } else {
            None
        },
        _ => None,
    }
}

impl ViewController {
    /// Applies one input event to the controller and the camera.
    pub fn input(&mut self, event: &InputEvent, view: &mut View) -> (r: InputResponse)
        ensures
            r.handled == handles(*event),
            r.pan == pan_of(*old(self), *old(view), *event),
            *final(self) == next_controller(*old(self), *event),
            *final(view) == next_view(*old(view), *event),
            !r.handled ==> *final(self) == *old(self) && *final(view) == *old(view),
    {
        match *event {
            InputEvent::Key { key, pressed } => {
                if !pressed {
                    return InputResponse { handled: false, pan: None };
                }
                match key {
                    Key::Equals => view.zoom = zoom_in_exec(view.zoom),
                    Key::Minus => view.zoom = zoom_out_exec(view.zoom),
                    Key::W => view.steps_y = step_up_exec(view.steps_y),
                    Key::A => view.steps_x = step_down_exec(view.steps_x),
                    Key::S => view.steps_y = step_down_exec(view.steps_y),
                    Key::D => view.steps_x = step_up_exec(view.steps_x),
                    Key::Other => return InputResponse { handled: false, pan: None },
                }
                InputResponse { handled: true, pan: None }
            },
            InputEvent::Mouse { button: Button::Left, pressed } => {
                self.panning = pressed;
                InputResponse { handled: true, pan: None }
            },
            InputEvent::CursorMoved { x, y } => {
                let pan = if self.panning {
                    Some(
                        Pan {
                            dx: self.cursor_x as i64 - x as i64,
                            dy: y as i64 - self.cursor_y as i64,
                            zoom: view.zoom,
                            width: view.width,
                            height: view.height,
                        },
                    )
                } else {
                    None
                };
                self.cursor_x = x;
                self.cursor_y = y;
                InputResponse { handled: true, pan }
            },
            InputEvent::Scroll { up } => {
                if up {
                    view.zoom = zoom_in_exec(view.zoom);
                } else {
                    view.zoom = zoom_out_exec(view.zoom);
                }
                InputResponse { handled: true, pan: None }
            },
            _ => InputResponse { handled: false, pan: None },
        }
    }

    /// Takes a new surface size. A size with a zero side (a minimised window)
    /// is ignored and the last valid aspect ratio kept.
    pub fn resize(&self, view: &mut View, width: u32, height: u32) -> (applied: bool)
        ensures
            applied == (width > 0 && height > 0),
            applied ==> *final(view) == (View { width, height, ..*old(view) }),
            applied ==> final(view).aspect() == (width as int, height as int),
            !applied ==> *final(view) == *old(view),
            old(view).wf() ==> final(view).wf(),
    {
        if width > 0 && height > 0 {
            view.width = width;
            view.height = height;
            true
        } else {
            false
        }
    }
}

fn zoom_in_exec(z: i64) -> (r: i64)
    ensures
        r == zoom_in(z),
{
    if z < MAX_ZOOM {
        z + 1
    } else {
        z
    }
}

fn zoom_out_exec(z: i64) -> (r: i64)
    ensures
        r == zoom_out(z),
{
    if z > -MAX_ZOOM {
        z - 1
    } else {
        z
    }
}

fn step_up_exec(s: i64) -> (r: i64)
    ensures
        r == step_up(s),
{
    if s < i64::MAX {
        s + 1
    } else {
        s
    }
}

fn step_down_exec(s: i64) -> (r: i64)
    ensures
        r == step_down(s),
{
    if s > i64::MIN {
        s - 1
    } else {
        s
    }
}

} // verus!
