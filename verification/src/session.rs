//! One holder's session on the watcher's side: what its overlay shows, and
//! what each update and each tick of the clock asks of the overlay.

use crate::cursor::{size_verdict, Bitmap, CursorError, CursorImage};
use crate::shared::{AnimationSet, UserAnimationStates, UserState, POSITION_SCALE};
use vstd::prelude::*;

verus! {

/// Coordinate, on both axes, of the place where a hidden overlay is parked.
pub const OFFSCREEN: i64 = -1000;

/// What one datagram asks of the session of its sender.
pub enum UserData {
    State(UserState),
    AnimationStates(UserAnimationStates),
    Image(CursorImage),
}

/// The session of one holder: all that decides what its overlay shows.
pub struct UserWindow {
    /// The frame last put into the overlay, or `None` where the next
    /// evaluation has to draw whatever frame it finds.
    pub frame: Option<u32>,
    pub state: UserState,
    pub animation_set: UserAnimationStates,
    pub image: CursorImage,
}

/// An instruction to the overlay of `owner`: move it, fill it, or both.
#[derive(Clone, PartialEq, Eq, Debug)]
pub struct RenderIntent {
    pub owner: u64,
    /// Where to put the overlay's top left corner, if it is to move.
    pub position: Option<(i64, i64)>,
    /// The pixels of the frame to show, row by row, if it is to be filled.
    pub pixels: Option<Vec<[u8; 4]>>,
}

/// Why an update was set aside.
#[derive(Clone, Copy, PartialEq, Eq, Structural, Debug)]
pub enum Rejection {
    /// The picture is no strip of cursor frames.
    Cursor(CursorError),
    /// One of the tracks has no time in which to show a frame.
    Animation,
}

/// Model of a `UserData`.
pub enum Update {
    State(UserState),
    AnimationStates(AnimationSet),
    Image(Bitmap),
}

/// Model of a `UserWindow`.
pub struct Session {
    pub frame: Option<u32>,
    pub state: UserState,
    pub animation_set: AnimationSet,
    pub image: Bitmap,
}

/// Model of a `RenderIntent`.
pub struct Intent {
    pub owner: u64,
    pub position: Option<(i64, i64)>,
    pub pixels: Option<Seq<[u8; 4]>>,
}

impl View for UserData {
    type V = Update;

    open spec fn view(&self) -> Update {
        match *self {
            UserData::State(state) => Update::State(state),
            UserData::AnimationStates(set) => Update::AnimationStates(set@),
            UserData::Image(image) => Update::Image(image@),
        }
    }
}

impl View for UserWindow {
    type V = Session;

    open spec fn view(&self) -> Session {
        Session {
            frame: self.frame,
            state: self.state,
            animation_set: self.animation_set@,
            image: self.image@,
        }
    }
}

impl View for RenderIntent {
    type V = Intent;

    open spec fn view(&self) -> Intent {
        Intent {
            owner: self.owner,
            position: self.position,
            pixels: match self.pixels {
                Some(pixels) => Some(pixels@),
                None => None,
            },
        }
    }
}

/// Model of an intent that may be absent.
pub open spec fn intent_model(intent: Option<RenderIntent>) -> Option<Intent> {
    match intent {
        Some(intent) => Some(intent@),
        None => None,
    }
}

/// Where on a monitor of the given size the overlay of a pointer in `state`
/// belongs: the pointer's fraction of each extent, rounded down, or the
/// parking place while the pointer is idle.
pub open spec fn spec_screen_position(state: UserState, monitor_width: u32, monitor_height: u32) -> (
    i64,
    i64,
) {
    match state.spec_position() {
        None => (OFFSCREEN, OFFSCREEN),
        Some(position) => (
            (position.x as int * monitor_width as int / POSITION_SCALE as int) as i64,
            (position.y as int * monitor_height as int / POSITION_SCALE as int) as i64,
        ),
    }
}

/// Why `update` is set aside, if it is.
pub open spec fn rejection_of(update: Update) -> Option<Rejection> {
    match update {
        Update::State(_) => None,
        Update::AnimationStates(set) => if set.has_degenerate_track() {
            Some(Rejection::Animation)
        } else {
            None
        },
        Update::Image(image) => match size_verdict(image.width, image.height()) {
            Ok(_) => None,
            Err(error) => Some(Rejection::Cursor(error)),
        },
    }
}

impl Session {
    /// The session of a holder from whom nothing has been applied yet: idle,
    /// with the initial tracks and frame 0 of the stock pointer on show.
    pub open spec fn fresh(pointer: Bitmap) -> Session {
        Session {
            frame: Some(0),
            state: UserState::Idle,
            animation_set: AnimationSet::initial(),
            image: pointer,
        }
    }

    /// The frame that the clock selects in this session for a pointer in
    /// `state`.
    pub open spec fn frame_for(self, state: UserState, now: nat) -> u32 {
        self.animation_set.active_frame(state, now)
    }

    /// The session after `update` arrived at `now`. A rejected update leaves
    /// it as it was.
    pub open spec fn after(self, update: Update, now: nat) -> Session {
        if rejection_of(update) is Some {
            self
        } else {
            match update {
                Update::State(state) => Session {
                    state,
                    frame: Some(self.frame_for(state, now)),
                    ..self
                },
                Update::AnimationStates(animation_set) => Session { animation_set, ..self },
                Update::Image(image) => Session { image, frame: None, ..self },
            }
        }
    }

    /// What the overlay has to do when `update` arrives at `now`.
    ///
    /// A pose moves the overlay if the pose or the frame changed, and fills it
    /// if the frame changed. An accepted picture fills it with the picture's
    /// first frame. New tracks alone change nothing on screen.
    pub open spec fn intent(
        self,
        owner: u64,
        update: Update,
        now: nat,
        monitor_width: u32,
        monitor_height: u32,
    ) -> Option<Intent> {
        match update {
            Update::State(state) => {
                let frame = self.frame_for(state, now);
                if self.frame != Some(frame) {
                    Some(
                        Intent {
                            owner,
                            position: Some(spec_screen_position(state, monitor_width, monitor_height)),
                            pixels: self.image.shown(frame as nat),
                        },
                    )
                } else if self.state != state {
                    Some(
                        Intent {
                            owner,
                            position: Some(spec_screen_position(state, monitor_width, monitor_height)),
                            pixels: None,
                        },
                    )
                } else {
                    None
                }
            },
            Update::AnimationStates(_) => None,
            Update::Image(image) => if rejection_of(update) is None {
                Some(Intent { owner, position: None, pixels: image.shown(0) })
            } else {
                None
            },
        }
    }

    /// Whether a tick at `now` finds a new frame to show: the pointer is not
    /// idle and the clock has moved on from the frame last drawn.
    pub open spec fn tick_due(self, now: nat) -> bool {
        self.state != UserState::Idle && self.frame != Some(self.frame_for(self.state, now))
    }

    /// The session after a tick at `now`.
    pub open spec fn after_tick(self, now: nat) -> Session {
        if self.tick_due(now) {
            Session { frame: Some(self.frame_for(self.state, now)), ..self }
        } else {
            self
        }
    }

    /// What the overlay has to do on a tick at `now`.
    pub open spec fn tick_intent(self, owner: u64, now: nat) -> Option<Intent> {
        if self.tick_due(now) {
            Some(
                Intent {
                    owner,
                    position: None,
                    pixels: self.image.shown(self.frame_for(self.state, now) as nat),
                },
            )
        } else {
            None
        }
    }

    /// What a newly made overlay has to show: the first frame of the stock
    /// pointer, parked off screen.
    pub open spec fn opening_intent(self, owner: u64) -> Intent {
        Intent { owner, position: Some((OFFSCREEN, OFFSCREEN)), pixels: self.image.shown(0) }
    }
}

/// Where on a monitor of the given size the overlay of a pointer in `state`
/// belongs.
pub fn screen_position(state: &UserState, monitor_width: u32, monitor_height: u32) -> (place: (
    i64,
    i64,
))
    ensures
        place == spec_screen_position(*state, monitor_width, monitor_height),
        *state == UserState::Idle ==> place == (OFFSCREEN, OFFSCREEN),
        *state != UserState::Idle ==> 0 <= place.0 && 0 <= place.1,
{
    match state.position() {
        None => (OFFSCREEN, OFFSCREEN),
        Some(position) => (
            scale(position.x, monitor_width),
            scale(position.y, monitor_height),
        ),
    }
}

/// The fraction `fraction / POSITION_SCALE` of `extent`, rounded down.
fn scale(fraction: u32, extent: u32) -> (pixels: i64)
    ensures
        pixels == fraction as int * extent as int / POSITION_SCALE as int,
        0 <= pixels,
{
    assert(fraction as int * extent as int <= 0xffff_ffff * 0xffff_ffff) by (nonlinear_arith)
        requires
            0 <= fraction <= 0xffff_ffff,
            0 <= extent <= 0xffff_ffff,
    ;
    assert(0 <= fraction as int * extent as int) by (nonlinear_arith)
        requires
            0 <= fraction,
            0 <= extent,
    ;
    let product: u64 = fraction as u64 * extent as u64;
    let pixels: u64 = product / POSITION_SCALE as u64;
    assert(pixels == product as int / 1_000_000);
    assert(pixels <= 0x7fff_ffff_ffff_ffff);
    pixels as i64
}

impl UserWindow {
    /// A session for a holder that has just been heard of, with the stock
    /// pointer as its picture.
    pub fn new(image: CursorImage) -> (window: UserWindow)
        ensures
            window@ == Session::fresh(image@),
    {
        UserWindow {
            frame: Some(0),
            state: UserState::Idle,
            animation_set: UserAnimationStates::new(),
            image,
        }
    }

    /// What a newly made overlay has to show.
    pub fn opening(&self, owner: u64) -> (intent: RenderIntent)
        ensures
            intent@ == self@.opening_intent(owner),
    {
        RenderIntent {
            owner,
            position: Some((OFFSCREEN, OFFSCREEN)),
            pixels: self.image.set_frame(0),
        }
    }

    /// Takes in one update from the session's holder and says what the
    /// overlay has to do, and why the update was set aside if it was.
    pub fn apply(
        &mut self,
        owner: u64,
        data: UserData,
        now: u64,
        monitor_width: u32,
        monitor_height: u32,
    ) -> (outcome: (Option<RenderIntent>, Option<Rejection>))
        ensures
            final(self)@ == old(self)@.after(data@, now as nat),
            intent_model(outcome.0) == old(self)@.intent(
                owner,
                data@,
                now as nat,
                monitor_width,
                monitor_height,
            ),
            outcome.1 == rejection_of(data@),
    {
        match data {
            UserData::State(state) => {
                let frame = self.animation_set.frame_at(&state, now);
                let frame_changed = match self.frame {
                    Some(last) => last != frame,
                    None => true,
                };
                let intent = if frame_changed {
                    Some(
                        RenderIntent {
                            owner,
                            position: Some(screen_position(&state, monitor_width, monitor_height)),
                            pixels: self.image.set_frame(frame),
                        },
                    )
                } else if self.state != state {
                    Some(
                        RenderIntent {
                            owner,
                            position: Some(screen_position(&state, monitor_width, monitor_height)),
                            pixels: None,
                        },
                    )
                } else {
                    None
                };
                self.state = state;
                self.frame = Some(frame);
                (intent, None)
            },
            UserData::AnimationStates(new_animation_set) => {
                if new_animation_set.is_degenerate() {
                    (None, Some(Rejection::Animation))
                } else {
                    self.animation_set = new_animation_set;
                    (None, None)
                }
            },
            UserData::Image(image) => {
                match image.validate() {
                    Err(error) => (None, Some(Rejection::Cursor(error))),
                    Ok(_) => {
                        let pixels = image.set_frame(0);
                        self.image = image;
                        self.frame = None;
                        (Some(RenderIntent { owner, position: None, pixels }), None)
                    },
                }
            },
        }
    }

    /// Lets the clock move the session on while no update arrives.
    pub fn tick(&mut self, owner: u64, now: u64) -> (intent: Option<RenderIntent>)
        ensures
            final(self)@ == old(self)@.after_tick(now as nat),
            intent_model(intent) == old(self)@.tick_intent(owner, now as nat),
    {
        if !self.state.is_shown() {
            return None;
        }
        let frame = self.animation_set.frame_at(&self.state, now);
        let frame_changed = match self.frame {
            Some(last) => last != frame,
            None => true,
        };
        if frame_changed {
            self.frame = Some(frame);
            Some(RenderIntent { owner, position: None, pixels: self.image.set_frame(frame) })
        } else {
            None
        }
    }
}

/// What the pointer does changes with a pose and with nothing else: a fresh
/// session is idle, a pose sets the state it names, and tracks, pictures and
/// the clock leave the state as it was.
pub proof fn lemma_only_poses_change_the_state(
    session: Session,
    update: Update,
    now: nat,
    pointer: Bitmap,
)
    ensures
        Session::fresh(pointer).state == UserState::Idle,
        session.after_tick(now).state == session.state,
        update matches Update::State(state) ==> session.after(update, now).state == state,
        !(update is State) ==> session.after(update, now).state == session.state,
{
}

/// A pose that repeats the one before it, and for which the clock selects the
/// same frame, asks nothing of the overlay.
pub proof fn lemma_repeated_pose_is_silent(
    session: Session,
    owner: u64,
    state: UserState,
    now: nat,
    later: nat,
    monitor_width: u32,
    monitor_height: u32,
)
    requires
        session.frame_for(state, later) == session.frame_for(state, now),
    ensures
        session.after(Update::State(state), now).intent(
            owner,
            Update::State(state),
            later,
            monitor_width,
            monitor_height,
        ) is None,
        session.after(Update::State(state), now).after(Update::State(state), later)
            == session.after(Update::State(state), now),
{
}

/// New tracks alone ask nothing of the overlay and leave the pose and the
/// frame last drawn as they were; the next tick on which the clock, by the
/// accepted tracks, selects another frame for a pointer on show asks for that
/// frame.
pub proof fn lemma_new_tracks_show_on_tick(
    session: Session,
    owner: u64,
    tracks: AnimationSet,
    now: nat,
    later: nat,
    monitor_width: u32,
    monitor_height: u32,
)
    ensures
        session.intent(owner, Update::AnimationStates(tracks), now, monitor_width, monitor_height)
            is None,
        ({
            let updated = session.after(Update::AnimationStates(tracks), now);
            let frame = tracks.active_frame(session.state, later);
            &&& updated.state == session.state
            &&& updated.frame == session.frame
            &&& updated.image == session.image
            &&& !tracks.has_degenerate_track() && session.state != UserState::Idle && session.frame
                != Some(frame) ==> updated.tick_intent(owner, later) == Some(
                Intent { owner, position: None, pixels: session.image.shown(frame as nat) },
            ) && updated.after_tick(later).frame == Some(frame)
        }),
{
}

} // verus!
