//! How the player's keyboard and mouse input is turned into movement.
//!
//! The decisions stand here; the caller performs the returned action on the
//! player, with the distances and angles that the action names in steps.
use vstd::prelude::*;

verus! {

/// The keys that steer the player.
#[derive(Debug, Copy, Clone, PartialEq, Eq, Structural)]
pub enum Key {
    A,
    D,
    W,
    S,
    Space,
    Left,
    Right,
    Up,
    Down,
    M,
    L,
    /// Any other key.
    Other,
}

/// An input event of the game window.
#[derive(Debug, Copy, Clone, PartialEq, Eq, Structural)]
pub enum InputEvent {
    KeyDown { key: Key, repeat: bool },
    KeyUp { key: Key, repeat: bool },
    /// The mouse moved to `(x, y)`, measured from the window's top left corner.
    MouseMotion { x: i32, y: i32 },
    /// Any other event.
    Other,
}

/// What the player is to do in answer to an input event.
#[derive(Debug, Copy, Clone, PartialEq, Eq, Structural)]
pub enum Action {
    /// Nothing outside the controls' own state changes.
    Nothing,
    /// Add the unit direction `(x, y, z)` to the player's walking acceleration.
    Walk { x: i8, y: i8, z: i8 },
    /// Add one jump step to the player's upward acceleration when `rising`,
    /// or take one away.
    Jump { rising: bool },
    /// Turn the player sideways by `steps` twelfths of a half turn.
    RotateLateral { steps: i8 },
    /// Tilt the player's view by `steps` twelfths of a half turn.
    RotateVertical { steps: i8 },
    /// Draw the player's line of sight.
    DrawLineOfSight,
    /// Turn the view by the mouse's offset from the window's centre, `dx`
    /// to the right and `dy` upwards, and put the mouse back at the centre.
    Look { dx: i32, dy: i32 },
}

/// The state that the controls keep between events.
#[derive(Debug, Copy, Clone, PartialEq, Eq, Structural)]
pub struct Controls {
    /// Whether the jump key is held, so that the upward acceleration is on.
    pub is_jumping: bool,
    /// Whether outlines are drawn.
    pub render_outlines: bool,
}

/// The controls and the action after `key` is pressed.
pub open spec fn pressed(c: Controls, key: Key) -> (Controls, Action) {
    match key {
        Key::A => (c, Action::Walk { x: -1i8, y: 0, z: 0 }),
        Key::D => (c, Action::Walk { x: 1, y: 0, z: 0 }),
        Key::Space => if !c.is_jumping {
            (Controls { is_jumping: true, render_outlines: c.render_outlines }, Action::Jump { rising: true })
        } else {
            (c, Action::Nothing)
        },
        Key::W => (c, Action::Walk { x: 0, y: 0, z: -1i8 }),
        Key::S => (c, Action::Walk { x: 0, y: 0, z: 1 }),
        Key::Left => (c, Action::RotateLateral { steps: 1 }),
        Key::Right => (c, Action::RotateLateral { steps: -1i8 }),
        Key::Up => (c, Action::RotateVertical { steps: 1 }),
        Key::Down => (c, Action::RotateVertical { steps: -1i8 }),
        Key::M => (c, Action::DrawLineOfSight),
        Key::L => (Controls { is_jumping: c.is_jumping, render_outlines: !c.render_outlines }, Action::Nothing),
        Key::Other => (c, Action::Nothing),
    }
}

/// The controls and the action after `key` is released.
pub open spec fn released(c: Controls, key: Key) -> (Controls, Action) {
    match key {
        Key::A => (c, Action::Walk { x: 1, y: 0, z: 0 }),
        Key::D => (c, Action::Walk { x: -1i8, y: 0, z: 0 }),
        Key::Space => if c.is_jumping {
            (Controls { is_jumping: false, render_outlines: c.render_outlines }, Action::Jump { rising: false })
        } else {
            (c, Action::Nothing)
        },
        Key::W => (c, Action::Walk { x: 0, y: 0, z: 1 }),
        Key::S => (c, Action::Walk { x: 0, y: 0, z: -1i8 }),
        _ => (c, Action::Nothing),
    }
}

impl Controls {
    /// Controls with the jump key up and outlines hidden.
    pub fn new() -> (r: Controls)
        ensures
            !r.is_jumping,
            !r.render_outlines,
    {
        Controls { is_jumping: false, render_outlines: false }
    }

    /// Answers a key press.
    pub fn key_press(&mut self, key: Key) -> (a: Action)
        ensures
            (*final(self), a) == pressed(*old(self), key),
    {
        match key {
            Key::A => Action::Walk { x: -1, y: 0, z: 0 },
            Key::D => Action::Walk { x: 1, y: 0, z: 0 },
            Key::Space => {
                if !self.is_jumping {
                    self.is_jumping = true;
                    Action::Jump { rising: true }
                } else {
                    Action::Nothing
                }
            },
            Key::W => Action::Walk { x: 0, y: 0, z: -1 },
            Key::S => Action::Walk { x: 0, y: 0, z: 1 },
            Key::Left => Action::RotateLateral { steps: 1 },
            Key::Right => Action::RotateLateral { steps: -1 },
            Key::Up => Action::RotateVertical { steps: 1 },
            Key::Down => Action::RotateVertical { steps: -1 },
            Key::M => Action::DrawLineOfSight,
            Key::L => {
                self.render_outlines = !self.render_outlines;
                Action::Nothing
            },
            Key::Other => Action::Nothing,
        }
    }

    /// Answers a key release: the walking accelerations are the negations
    /// of those of the press.
    pub fn key_release(&mut self, key: Key) -> (a: Action)
        ensures
            (*final(self), a) == released(*old(self), key),
    {
        match key {
            Key::A => Action::Walk { x: 1, y: 0, z: 0 },
            Key::D => Action::Walk { x: -1, y: 0, z: 0 },
            Key::Space => {
                if self.is_jumping {
                    self.is_jumping = false;
                    Action::Jump { rising: false }
                } else {
                    Action::Nothing
                }
            },
            Key::W => Action::Walk { x: 0, y: 0, z: 1 },
            Key::S => Action::Walk { x: 0, y: 0, z: -1 },
            _ => Action::Nothing,
        }
    }
}

/// Whether the offset of `(x, y)` from the centre of a window of
/// `width` by `height` fits in an `i32`, and the window's size does.
pub open spec fn mouse_in_range(x: i32, y: i32, width: u32, height: u32) -> bool {
    &&& width <= i32::MAX
    &&& height <= i32::MAX
    &&& i32::MIN <= x - width / 2 <= i32::MAX
    &&& i32::MIN <= height / 2 - y <= i32::MAX
}

/// Tests `mouse_in_range`.
pub fn mouse_fits(x: i32, y: i32, width: u32, height: u32) -> (r: bool)
    ensures
        r == mouse_in_range(x, y, width, height),
{
    if width > i32::MAX as u32 || height > i32::MAX as u32 {
        return false;
    }
    let dx: i64 = x as i64 - (width / 2) as i64;
    let dy: i64 = (height / 2) as i64 - y as i64;
    i32::MIN as i64 <= dx && dx <= i32::MAX as i64 && i32::MIN as i64 <= dy && dy <= i32::MAX as i64
}

/// The look action for the mouse at `(x, y)` in a window of `width` by
/// `height`: the offset from the window's centre, `y` being measured from
/// the top of the window.
pub open spec fn look_at(x: i32, y: i32, width: u32, height: u32) -> Action {
    Action::Look { dx: (x - width / 2) as i32, dy: (height / 2 - y) as i32 }
}

/// Answers the mouse moving to `(x, y)` in a window of `width` by `height`.
pub fn mouse_move(x: i32, y: i32, width: u32, height: u32) -> (a: Action)
    requires
        mouse_in_range(x, y, width, height),
    ensures
        a == look_at(x, y, width, height),
{
    let cx: i32 = (width / 2) as i32;
    let cy: i32 = (height / 2) as i32;
    Action::Look { dx: x - cx, dy: cy - y }
}

/// The look offsets point the way the mouse moved from the centre: the
/// sideways offset is 0 at the centre, positive to its right and grows with
/// `x`; the upward offset is 0 at the centre, positive above it (smaller
/// `y`) and shrinks as `y` grows.
pub proof fn lemma_look_direction(x1: i32, x2: i32, y1: i32, y2: i32, width: u32, height: u32)
    requires
        mouse_in_range(x1, y1, width, height),
        mouse_in_range(x2, y2, width, height),
    ensures
        ({
            let a1 = look_at(x1, y1, width, height);
            let a2 = look_at(x2, y2, width, height);
            &&& (a1->dx == 0 <==> x1 == width / 2)
            &&& (a1->dx > 0 <==> x1 > width / 2)
            &&& (a1->dy == 0 <==> y1 == height / 2)
            &&& (a1->dy > 0 <==> y1 < height / 2)
            &&& (x1 <= x2 ==> a1->dx <= a2->dx)
            &&& (y1 <= y2 ==> a1->dy >= a2->dy)
        }),
{
}

/// Whether the event can be answered: a mouse position must lie within
/// reach of the window's centre.
pub open spec fn event_in_range(event: InputEvent, width: u32, height: u32) -> bool {
    match event {
        InputEvent::MouseMotion { x, y } => mouse_in_range(x, y, width, height),
        _ => true,
    }
}

/// The controls and the action after `event` in a window of `width` by
/// `height`. Repeated key events, sent while a key is held, change nothing.
pub open spec fn processed(c: Controls, event: InputEvent, width: u32, height: u32) -> (
    Controls,
    Action,
) {
    match event {
        InputEvent::KeyDown { key, repeat } => if !repeat {
            pressed(c, key)
        } else {
            (c, Action::Nothing)
        },
        InputEvent::KeyUp { key, repeat } => if !repeat {
            released(c, key)
        } else {
            (c, Action::Nothing)
        },
        InputEvent::MouseMotion { x, y } => (c, look_at(x, y, width, height)),
        InputEvent::Other => (c, Action::Nothing),
    }
}

impl Controls {
    /// Answers an input event of a window of `width` by `height`.
    pub fn process_event(&mut self, event: InputEvent, width: u32, height: u32) -> (a: Action)
        requires
            event_in_range(event, width, height),
        ensures
            (*final(self), a) == processed(*old(self), event, width, height),
    {
        match event {
            InputEvent::KeyDown { key, repeat } => {
                if !repeat {
                    self.key_press(key)
                } else {
                    Action::Nothing
                }
            },
            InputEvent::KeyUp { key, repeat } => {
                if !repeat {
                    self.key_release(key)
                } else {
                    Action::Nothing
                }
            },
            InputEvent::MouseMotion { x, y } => mouse_move(x, y, width, height),
            InputEvent::Other => Action::Nothing,
        }
    }
}

/// The change that an action makes to the player's acceleration, in steps:
/// the walking direction `(x, y, z)` and the number of jump steps upwards.
pub open spec fn acceleration(a: Action) -> (int, int, int, int) {
    match a {
        Action::Walk { x, y, z } => (x as int, y as int, z as int, 0),
        Action::Jump { rising } => (0, 0, 0, if rising { 1 } else { -1 }),
        _ => (0, 0, 0, 0),
    }
}

/// Releasing a key cancels the acceleration that pressing it added, and
/// brings the controls back to where they were, for every key but the
/// outline key and a jump key pressed while the player is already jumping.
pub proof fn lemma_release_undoes_press(c: Controls, key: Key)
    requires
        key != Key::L,
        key == Key::Space ==> !c.is_jumping,
    ensures
        ({
            let (c1, a1) = pressed(c, key);
            let (c2, a2) = released(c1, key);
            &&& c2 == c
            &&& acceleration(a1).0 + acceleration(a2).0 == 0
            &&& acceleration(a1).1 + acceleration(a2).1 == 0
            &&& acceleration(a1).2 + acceleration(a2).2 == 0
            &&& acceleration(a1).3 + acceleration(a2).3 == 0
        }),
{
}

/// What each key press does, in every state of the controls: the walking,
/// turning and line-of-sight keys act alike whether or not the player jumps
/// or outlines are shown, and leave the controls as they are; the jump key
/// starts a jump only when none is on; the outline key flips the outlines.
pub proof fn lemma_press_actions(c: Controls)
    ensures
        pressed(c, Key::A) == (c, Action::Walk { x: -1i8, y: 0, z: 0 }),
        pressed(c, Key::D) == (c, Action::Walk { x: 1, y: 0, z: 0 }),
        pressed(c, Key::W) == (c, Action::Walk { x: 0, y: 0, z: -1i8 }),
        pressed(c, Key::S) == (c, Action::Walk { x: 0, y: 0, z: 1 }),
        pressed(c, Key::Left) == (c, Action::RotateLateral { steps: 1 }),
        pressed(c, Key::Right) == (c, Action::RotateLateral { steps: -1i8 }),
        pressed(c, Key::Up) == (c, Action::RotateVertical { steps: 1 }),
        pressed(c, Key::Down) == (c, Action::RotateVertical { steps: -1i8 }),
        pressed(c, Key::M) == (c, Action::DrawLineOfSight),
        pressed(c, Key::Other) == (c, Action::Nothing),
        !c.is_jumping ==> pressed(c, Key::Space) == (
            Controls { is_jumping: true, render_outlines: c.render_outlines },
            Action::Jump { rising: true },
        ),
        c.is_jumping ==> pressed(c, Key::Space) == (c, Action::Nothing),
        pressed(c, Key::L) == (
            Controls { is_jumping: c.is_jumping, render_outlines: !c.render_outlines },
            Action::Nothing,
        ),
{
}

/// What each key release does, in every state of the controls: the walking
/// keys walk the opposite way to their press, the jump key ends a jump that
/// is on, and every other key does nothing and leaves the controls as they
/// are.
pub proof fn lemma_release_actions(c: Controls, key: Key)
    ensures
        released(c, Key::A) == (c, Action::Walk { x: 1, y: 0, z: 0 }),
        released(c, Key::D) == (c, Action::Walk { x: -1i8, y: 0, z: 0 }),
        released(c, Key::W) == (c, Action::Walk { x: 0, y: 0, z: 1 }),
        released(c, Key::S) == (c, Action::Walk { x: 0, y: 0, z: -1i8 }),
        c.is_jumping ==> released(c, Key::Space) == (
            Controls { is_jumping: false, render_outlines: c.render_outlines },
            Action::Jump { rising: false },
        ),
        !c.is_jumping ==> released(c, Key::Space) == (c, Action::Nothing),
        key != Key::A && key != Key::D && key != Key::W && key != Key::S && key != Key::Space
            ==> released(c, key) == (c, Action::Nothing),
{
}

/// A mouse motion is answered by looking by the mouse's offset from the
/// window's centre, `x - width / 2` to the right and `height / 2 - y`
/// upwards, and leaves the controls as they are.
pub proof fn lemma_mouse_motion_looks(c: Controls, x: i32, y: i32, width: u32, height: u32)
    requires
        mouse_in_range(x, y, width, height),
    ensures
        processed(c, InputEvent::MouseMotion { x, y }, width, height).0 == c,
        processed(c, InputEvent::MouseMotion { x, y }, width, height).1 is Look,
        processed(c, InputEvent::MouseMotion { x, y }, width, height).1->dx == x - width / 2,
        processed(c, InputEvent::MouseMotion { x, y }, width, height).1->dy == height / 2 - y,
{
}

/// A key event that is not a repeat is answered as the press or release of
/// its key.
pub proof fn lemma_key_events_dispatch(c: Controls, key: Key, width: u32, height: u32)
    ensures
        processed(c, InputEvent::KeyDown { key, repeat: false }, width, height) == pressed(c, key),
        processed(c, InputEvent::KeyUp { key, repeat: false }, width, height) == released(c, key),
        processed(c, InputEvent::Other, width, height) == (c, Action::Nothing),
{
}

/// Pressing the outline key twice shows outlines as before.
pub proof fn lemma_outline_key_twice(c: Controls)
    ensures
        pressed(pressed(c, Key::L).0, Key::L).0 == c,
        pressed(c, Key::L).0.render_outlines == !c.render_outlines,
{
}

/// An event sent while a key is held changes nothing and asks for nothing.
pub proof fn lemma_repeat_ignored(c: Controls, key: Key, down: bool, width: u32, height: u32)
    ensures
        processed(
            c,
            if down {
                InputEvent::KeyDown { key, repeat: true }
            } else {
                InputEvent::KeyUp { key, repeat: true }
            },
            width,
            height,
        ) == (c, Action::Nothing),
{
}

} // verus!
