//! Types that the holder and the watchers share, and the animation clock.

use crate::clock::{
    lemma_select_frame_is_active, lemma_start_of_monotonic, lemma_start_of_next, select_frame,
    start_of, total_duration,
};
use vstd::prelude::*;

verus! {

/// Edge of one square cursor frame, in pixels.
pub const CURSOR_SIZE: u32 = 64;

/// Application id under which the watcher registers with the transport.
pub const APP_ID: u32 = 480;

/// Number of position units in the full extent of a screen or window.
pub const POSITION_SCALE: u32 = 1_000_000;

/// Number of time units in one second.
pub const TICKS_PER_SECOND: u64 = 1_000_000;

/// A pointer position as a fraction of the screen, in units of
/// `1 / POSITION_SCALE`, measured from the top left corner.
#[derive(Clone, Copy, PartialEq, Eq, Structural, Debug)]
pub struct MousePosition {
    pub x: u32,
    pub y: u32,
}

/// What the holder's pointer is doing.
#[derive(Clone, Copy, PartialEq, Eq, Structural, Debug)]
pub enum UserState {
    Idle,
    Visible(MousePosition),
    Flashing(MousePosition),
}

/// What the holder tells the watchers about its pointer: where it is, as
/// fractions of the holder's window, whether it is on show, and the frame of
/// the strip to draw.
#[derive(Clone, Copy, PartialEq, Eq, Structural, Debug)]
pub struct LaserPointerState {
    pub x: u32,
    pub y: u32,
    pub visible: bool,
    pub frame: u32,
}

/// One step of an animation: the frame of the cursor strip to show, and for
/// how many time units.
#[derive(Clone, Copy, PartialEq, Eq, Structural, Debug)]
pub struct Frame {
    pub index: u32,
    pub duration: u64,
}

/// A looping, non-empty sequence of frames.
#[derive(PartialEq, Debug)]
pub struct Animation {
    frames: Vec<Frame>,
}

/// The three tracks of one participant, one for each thing the pointer can do.
#[derive(Clone, PartialEq, Debug)]
pub struct UserAnimationStates {
    pub idle: Animation,
    pub visible: Animation,
    pub flashing: Animation,
}

/// A structured message from the holder.
#[derive(Clone, PartialEq, Debug)]
pub enum UserPacket {
    State(UserState),
    AnimationSet(UserAnimationStates),
}

impl LaserPointerState {
    /// A hidden pointer in the top left corner, on frame 0.
    pub fn new() -> (state: LaserPointerState)
        ensures
            state == (LaserPointerState { x: 0, y: 0, visible: false, frame: 0 }),
    {
        LaserPointerState { x: 0, y: 0, visible: false, frame: 0 }
    }
}

impl Frame {
    /// The first frame of the strip, shown for one second.
    pub fn new() -> (frame: Frame)
        ensures
            frame == (Frame { index: 0, duration: 1_000_000 }),
    {
        Frame { index: 0, duration: TICKS_PER_SECOND }
    }
}

impl View for Animation {
    type V = Seq<Frame>;

    closed spec fn view(&self) -> Seq<Frame> {
        self.frames@
    }
}

impl Clone for Animation {
    fn clone(&self) -> (copy: Animation)
        ensures
            copy@ == self@,
    {
        proof {
            use_type_invariant(self);
        }
        let mut frames: Vec<Frame> = Vec::new();
        let mut i: usize = 0;
        while i < self.frames.len()
            invariant
                i <= self.frames@.len(),
                frames@ == self.frames@.take(i as int),
            decreases self.frames@.len() - i,
        {
            frames.push(self.frames[i]);
            i = i + 1;
        }
        assert(self.frames@.take(self.frames@.len() as int) == self.frames@);
        Animation { frames }
    }
}

impl Animation {
    #[verifier::type_invariant]
    spec fn well_formed(self) -> bool {
        self.frames@.len() > 0
    }

    /// A track of one frame: the first of the strip, for one second.
    pub fn new() -> (animation: Animation)
        ensures
            animation@ == seq![Frame { index: 0, duration: 1_000_000 }],
    {
        let mut frames: Vec<Frame> = Vec::new();
        frames.push(Frame::new());
        Animation { frames }
    }

    /// The track that plays `frames` in order, or `None` where there is no
    /// frame to play.
    pub fn from_frames(frames: Vec<Frame>) -> (animation: Option<Animation>)
        ensures
            animation is Some <==> frames@.len() > 0,
            animation matches Some(a) ==> a@ == frames@,
    {
        if frames.len() == 0 {
            None
        } else {
            Some(Animation { frames })
        }
    }

    /// The frames of the track, in playing order.
    pub fn frames(&self) -> (frames: &Vec<Frame>)
        ensures
            frames@ == self@,
            frames@.len() > 0,
    {
        proof {
            use_type_invariant(self);
        }
        &self.frames
    }

    /// Length of one loop of the track.
    pub fn total_duration(&self) -> (total: u128)
        ensures
            total == total_duration(self@),
    {
        let mut total: u128 = 0;
        let mut i: usize = 0;
        while i < self.frames.len()
            invariant
                i <= self.frames@.len(),
                total == start_of(self.frames@, i as int),
                total <= i * 0xffff_ffff_ffff_ffff,
            decreases self.frames@.len() - i,
        {
            proof {
                lemma_start_of_next(self.frames@, i as int);
            }
            total = total + self.frames[i].duration as u128;
            i = i + 1;
        }
        proof {
            lemma_start_of_monotonic(self.frames@, 0, self.frames@.len() as int);
        }
        total
    }

    /// Whether the track has no time in which to show a frame.
    pub fn is_degenerate(&self) -> (degenerate: bool)
        ensures
            degenerate <==> total_duration(self@) == 0,
    {
        self.total_duration() == 0
    }

    /// The frame on show `time` units after the clock started.
    pub fn get_frame(&self, time: u64) -> (frame: &Frame)
        ensures
            self@.len() > 0,
            *frame == select_frame(self@, time as nat),
    {
        proof {
            use_type_invariant(self);
        }
        let total = self.total_duration();
        if total == 0 {
            return &self.frames[0];
        }
        let curr_time: u128 = time as u128 % total;
        let mut frame_time: u128 = 0;
        let mut i: usize = 0;
        while i < self.frames.len()
            invariant
                i <= self.frames@.len(),
                total == total_duration(self.frames@),
                total > 0,
                curr_time == time as nat % total as nat,
                frame_time == start_of(self.frames@, i as int),
                frame_time <= curr_time,
            decreases self.frames@.len() - i,
        {
            proof {
                lemma_start_of_next(self.frames@, i as int);
                lemma_start_of_monotonic(self.frames@, i as int + 1, self.frames@.len() as int);
            }
            let frame = &self.frames[i];
            if frame_time + frame.duration as u128 > curr_time {
                proof {
                    lemma_select_frame_is_active(self.frames@, time as nat, i as int);
                }
                return frame;
            }
            frame_time = frame_time + frame.duration as u128;
            i = i + 1;
        }
        proof {
            lemma_start_of_monotonic(self.frames@, 0, self.frames@.len() as int);
        }
        &self.frames[0]
    }
}

impl UserState {
    /// Where the pointer is, unless it is idle.
    pub open spec fn spec_position(self) -> Option<MousePosition> {
        match self {
            UserState::Idle => None,
            UserState::Visible(position) => Some(position),
            UserState::Flashing(position) => Some(position),
        }
    }

    /// Where the pointer is, unless it is idle.
    pub fn position(&self) -> (position: Option<MousePosition>)
        ensures
            position == self.spec_position(),
    {
        match self {
            UserState::Idle => None,
            UserState::Visible(position) => Some(*position),
            UserState::Flashing(position) => Some(*position),
        }
    }

    /// Whether the watchers show the pointer at all.
    pub fn is_shown(&self) -> (shown: bool)
        ensures
            shown <==> *self != UserState::Idle,
    {
        match self {
            UserState::Idle => false,
            _ => true,
        }
    }
}

/// The three tracks of one participant as sequences of frames.
pub struct AnimationSet {
    pub idle: Seq<Frame>,
    pub visible: Seq<Frame>,
    pub flashing: Seq<Frame>,
}

impl AnimationSet {
    /// The track that plays while the pointer is in `state`.
    pub open spec fn active_track(self, state: UserState) -> Seq<Frame> {
        match state {
            UserState::Idle => self.idle,
            UserState::Visible(_) => self.visible,
            UserState::Flashing(_) => self.flashing,
        }
    }

    /// The index of the strip's frame that is on show in `state` after
    /// `elapsed` time units.
    pub open spec fn active_frame(self, state: UserState, elapsed: nat) -> u32 {
        select_frame(self.active_track(state), elapsed).index
    }

    /// Whether one of the three tracks has no time in which to show a frame.
    pub open spec fn has_degenerate_track(self) -> bool {
        ||| total_duration(self.idle) == 0
        ||| total_duration(self.visible) == 0
        ||| total_duration(self.flashing) == 0
    }

    /// The tracks of a participant that sent none: frame 0 while idle or
    /// visible, frame 1 while flashing, each for one second.
    pub open spec fn initial() -> AnimationSet {
        AnimationSet {
            idle: seq![Frame { index: 0, duration: 1_000_000 }],
            visible: seq![Frame { index: 0, duration: 1_000_000 }],
            flashing: seq![Frame { index: 1, duration: 1_000_000 }],
        }
    }
}

impl View for UserAnimationStates {
    type V = AnimationSet;

    open spec fn view(&self) -> AnimationSet {
        AnimationSet { idle: self.idle@, visible: self.visible@, flashing: self.flashing@ }
    }
}

/// Model of a `UserPacket`.
pub enum Message {
    State(UserState),
    AnimationSet(AnimationSet),
}

impl View for UserPacket {
    type V = Message;

    open spec fn view(&self) -> Message {
        match *self {
            UserPacket::State(state) => Message::State(state),
            UserPacket::AnimationSet(set) => Message::AnimationSet(set@),
        }
    }
}

impl UserAnimationStates {
    /// The tracks of a participant that sent none.
    pub fn new() -> (states: UserAnimationStates)
        ensures
            states@ == AnimationSet::initial(),
    {
        let mut flashing: Vec<Frame> = Vec::new();
        flashing.push(Frame { index: 1, ..Frame::new() });
        UserAnimationStates {
            idle: Animation::new(),
            visible: Animation::new(),
            flashing: Animation { frames: flashing },
        }
    }

    /// The track that plays while the pointer is in `state`.
    pub fn track(&self, state: &UserState) -> (track: &Animation)
        ensures
            track@ == self@.active_track(*state),
    {
        match state {
            UserState::Idle => &self.idle,
            UserState::Visible(_) => &self.visible,
            UserState::Flashing(_) => &self.flashing,
        }
    }

    /// The index of the strip's frame that is on show in `state` at `time`.
    pub fn frame_at(&self, state: &UserState, time: u64) -> (index: u32)
        ensures
            index == self@.active_frame(*state, time as nat),
    {
        self.track(state).get_frame(time).index
    }

    /// Whether one of the three tracks has no time in which to show a frame.
    pub fn is_degenerate(&self) -> (degenerate: bool)
        ensures
            degenerate <==> self@.has_degenerate_track(),
    {
        self.idle.is_degenerate() || self.visible.is_degenerate() || self.flashing.is_degenerate()
    }
}

} // verus!
