//! The holder's side: the mouse decides what the pointer does, the clock
//! decides its frame, and the watchers are told whenever either changes.

use crate::cursor::{size_verdict, Bitmap, CursorError, CursorImage};
use crate::shared::{
    LaserPointerState, MousePosition, UserAnimationStates, UserState, POSITION_SCALE,
};
use vstd::prelude::*;

verus! {

/// Which of the two buttons that matter are held down.
#[derive(Clone, Copy, PartialEq, Eq, Structural, Debug)]
pub struct MouseState {
    pub left_mouse_down: bool,
    pub right_mouse_down: bool,
}

/// A button of the mouse.
#[derive(Clone, Copy, PartialEq, Eq, Structural, Debug)]
pub enum MouseButton {
    Left,
    Right,
    Middle,
    Back,
    Forward,
    Other,
}

/// What to do with the holder's own window when it asks to be redrawn.
#[derive(Clone, Copy, PartialEq, Eq, Structural, Debug)]
pub enum Refresh {
    /// The size is the one last drawn for: present the buffer as it is.
    Present,
    /// The window has no area: leave it alone.
    Skip,
    /// Resize the surface to the new size, clear it and present it.
    Clear { width: u32, height: u32 },
}

/// The holder: its pointer as last told to the watchers, what the pointer is
/// doing, the mouse buttons, and its own tracks.
pub struct Client {
    pub laser_pointer_state: LaserPointerState,
    pub laser_state: UserState,
    pub mouse_state: MouseState,
    pub animation_states: UserAnimationStates,
}

/// The fraction of `extent` at which `position` lies, in units of
/// `1 / POSITION_SCALE`, rounded down and capped at the largest `u32`.
pub open spec fn fraction_of(position: u32, extent: u32) -> u32
    recommends
        extent > 0,
{
    let fraction = position as int * POSITION_SCALE as int / extent as int;
    if fraction > u32::MAX {
        u32::MAX
    } else {
        fraction as u32
    }
}

impl MouseState {
    /// The mouse after `button` went down or up. Only the left and the right
    /// button count.
    pub open spec fn spec_input(self, button: MouseButton, pressed: bool) -> MouseState {
        match button {
            MouseButton::Left => MouseState { left_mouse_down: pressed, ..self },
            MouseButton::Right => MouseState { right_mouse_down: pressed, ..self },
            _ => self,
        }
    }

    /// What the buttons make the pointer at `position` do: both flash it, the
    /// left one alone shows it, anything else leaves it idle.
    pub open spec fn spec_laser_state(self, position: MousePosition) -> UserState {
        if self.left_mouse_down && self.right_mouse_down {
            UserState::Flashing(position)
        } else if self.left_mouse_down {
            UserState::Visible(position)
        } else {
            UserState::Idle
        }
    }

    /// No button is down.
    pub fn new() -> (state: MouseState)
        ensures
            state == (MouseState { left_mouse_down: false, right_mouse_down: false }),
    {
        MouseState { left_mouse_down: false, right_mouse_down: false }
    }

    /// The mouse after `button` went down or up.
    pub fn input(self, button: MouseButton, pressed: bool) -> (state: MouseState)
        ensures
            state == self.spec_input(button, pressed),
    {
        match button {
            MouseButton::Left => MouseState { left_mouse_down: pressed, ..self },
            MouseButton::Right => MouseState { right_mouse_down: pressed, ..self },
            MouseButton::Middle => self,
            MouseButton::Back => self,
            MouseButton::Forward => self,
            MouseButton::Other => self,
        }
    }

    /// What the buttons make the pointer at `position` do.
    pub fn laser_state(&self, position: MousePosition) -> (state: UserState)
        ensures
            state == self.spec_laser_state(position),
    {
        if self.left_mouse_down && self.right_mouse_down {
            UserState::Flashing(position)
        } else if self.left_mouse_down {
            UserState::Visible(position)
        } else {
            UserState::Idle
        }
    }
}

/// The fraction of `extent` at which `position` lies.
fn fraction(position: u32, extent: u32) -> (fraction: u32)
    requires
        extent > 0,
    ensures
        fraction == fraction_of(position, extent),
{
    let scaled: u64 = position as u64 * POSITION_SCALE as u64 / extent as u64;
    if scaled > u32::MAX as u64 {
        u32::MAX
    } else {
        scaled as u32
    }
}

impl Client {
    /// What the buttons make the pointer do where it is now.
    pub open spec fn spec_target(self) -> UserState {
        self.mouse_state.spec_laser_state(
            MousePosition { x: self.laser_pointer_state.x, y: self.laser_pointer_state.y },
        )
    }

    /// What the watchers are told when the holder looks at its state at
    /// `now`, or `None` where neither the pointer's doing nor its frame has
    /// changed since they were last told.
    pub open spec fn spec_report(self, now: nat) -> Option<LaserPointerState> {
        let state = self.spec_target();
        let frame = self.animation_states@.active_frame(state, now);
        if self.laser_state != state || self.laser_pointer_state.frame != frame {
            Some(
                LaserPointerState {
                    visible: state != UserState::Idle,
                    frame,
                    ..self.laser_pointer_state
                },
            )
        } else {
            None
        }
    }

    /// The holder after it looked at its state at `now`: the pointer does
    /// what the buttons say, and what the watchers were told is remembered.
    pub open spec fn after_wait(self, now: nat) -> Client {
        Client {
            laser_state: self.spec_target(),
            laser_pointer_state: match self.spec_report(now) {
                Some(told) => told,
                None => self.laser_pointer_state,
            },
            ..self
        }
    }

    /// A holder with an idle pointer and no button down.
    pub fn new(animation_states: UserAnimationStates) -> (client: Client)
        ensures
            client.laser_pointer_state == (LaserPointerState { x: 0, y: 0, visible: false, frame: 0 }),
            client.laser_state == UserState::Idle,
            client.mouse_state == (MouseState { left_mouse_down: false, right_mouse_down: false }),
            client.animation_states == animation_states,
    {
        Client {
            laser_pointer_state: LaserPointerState::new(),
            laser_state: UserState::Idle,
            mouse_state: MouseState::new(),
            animation_states,
        }
    }

    /// Takes note that `button` went down or up.
    pub fn mouse_input(&mut self, button: MouseButton, pressed: bool)
        ensures
            final(self).mouse_state == old(self).mouse_state.spec_input(button, pressed),
            final(self).laser_pointer_state == old(self).laser_pointer_state,
            final(self).laser_state == old(self).laser_state,
            final(self).animation_states == old(self).animation_states,
    {
        self.mouse_state = self.mouse_state.input(button, pressed);
    }

    /// Takes note that the mouse is at pixel (`x`, `y`) of a window of
    /// `width` by `height` pixels. In a window without area the pointer stays
    /// where it was.
    pub fn cursor_moved(&mut self, x: u32, y: u32, width: u32, height: u32)
        ensures
            final(self).laser_pointer_state == if width > 0 && height > 0 {
                LaserPointerState {
                    x: fraction_of(x, width),
                    y: fraction_of(y, height),
                    ..old(self).laser_pointer_state
                }
            } else {
                old(self).laser_pointer_state
            },
            final(self).mouse_state == old(self).mouse_state,
            final(self).laser_state == old(self).laser_state,
            final(self).animation_states == old(self).animation_states,
    {
        if width > 0 && height > 0 {
            self.laser_pointer_state.x = fraction(x, width);
            self.laser_pointer_state.y = fraction(y, height);
        }
    }

    /// Works out what the pointer does now and which frame it shows, and
    /// returns what to tell the watchers, if anything has changed.
    pub fn about_to_wait(&mut self, now: u64) -> (report: Option<LaserPointerState>)
        ensures
            report == old(self).spec_report(now as nat),
            *final(self) == old(self).after_wait(now as nat),
    {
        let old_laser_state = self.laser_state;
        let position = MousePosition { x: self.laser_pointer_state.x, y: self.laser_pointer_state.y };
        self.laser_state = self.mouse_state.laser_state(position);
        let new_frame = self.animation_states.frame_at(&self.laser_state, now);
        if old_laser_state != self.laser_state || self.laser_pointer_state.frame != new_frame {
            self.laser_pointer_state.visible = self.laser_state.is_shown();
            self.laser_pointer_state.frame = new_frame;
            Some(self.laser_pointer_state)
        } else {
            None
        }
    }
}

/// The watchers are not told twice: while the mouse does nothing new and the
/// clock selects the same frame, a second look reports nothing and changes
/// nothing.
pub proof fn lemma_report_once(client: Client, now: nat, later: nat)
    requires
        client.animation_states@.active_frame(client.spec_target(), later)
            == client.animation_states@.active_frame(client.spec_target(), now),
    ensures
        client.after_wait(now).spec_report(later) is None,
        client.after_wait(now).after_wait(later) == client.after_wait(now),
{
}

/// The verdict on what the picture decoder made of the holder's cursor
/// file: it has to be a picture, and a strip of cursor frames.
pub open spec fn cursor_verdict(picture: Option<Bitmap>) -> Result<(), CursorError> {
    match picture {
        None => Err(CursorError::Unreadable),
        Some(image) => size_verdict(image.width, image.height()),
    }
}

/// Judges whether the holder's cursor may be sent to the watchers, given
/// what the picture decoder made of it.
pub fn judge_cursor(picture: Option<&CursorImage>) -> (verdict: Result<(), CursorError>)
    ensures
        verdict == cursor_verdict(
            match picture {
                Some(image) => Some(image@),
                None => None,
            },
        ),
{
    match picture {
        None => Err(CursorError::Unreadable),
        Some(image) => image.validate(),
    }
}

/// Judges whether the encoded picture in `bytes` may be sent to the watchers
/// as the holder's cursor: the verdict is what `judge_cursor` makes of
/// whatever the picture decoder returns.
pub fn check_cursor(bytes: &[u8]) -> (verdict: Result<(), CursorError>)
    ensures
        exists|picture: Option<Bitmap>| verdict == #[trigger] cursor_verdict(picture),
{
    let picture = CursorImage::decode(bytes);
    let verdict = judge_cursor(picture.as_ref());
    assert(verdict == cursor_verdict(
        match picture {
            Some(image) => Some(image@),
            None => None,
        },
    ));
    verdict
}

/// Decides what to do with the holder's window when it asks to be redrawn:
/// `width` and `height` are the size last drawn for, `new_width` and
/// `new_height` the size it has now.
pub fn fill_buffer_with_transparent(width: u32, height: u32, new_width: u32, new_height: u32) -> (refresh:
    Refresh)
    ensures
        refresh == if width == new_width && height == new_height {
            Refresh::Present
        } else if new_width == 0 || new_height == 0 {
            Refresh::Skip
        } else {
            Refresh::Clear { width: new_width, height: new_height }
        },
{
    if width == new_width && height == new_height {
        return Refresh::Present;
    }
    if new_width == 0 || new_height == 0 {
        return Refresh::Skip;
    }
    Refresh::Clear { width: new_width, height: new_height }
}

} // verus!
