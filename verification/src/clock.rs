//! The animation clock: which frame of a looping track is on show after a
//! given time.

use crate::shared::Frame;
use vstd::arithmetic::div_mod::lemma_mod_multiples_vanish;
use vstd::prelude::*;

verus! {

/// Sum of the durations of `frames`.
pub open spec fn total_duration(frames: Seq<Frame>) -> nat
    decreases frames.len(),
{
    if frames.len() == 0 {
        0
    } else {
        total_duration(frames.drop_last()) + frames.last().duration as nat
    }
}

/// The offset within one loop at which frame `i` begins; for `i == frames.len()`
/// the length of the loop.
pub open spec fn start_of(frames: Seq<Frame>, i: int) -> nat {
    total_duration(frames.take(i))
}

/// Frame `i` is the one on show at offset `t` of the loop.
pub open spec fn is_active(frames: Seq<Frame>, i: int, t: nat) -> bool {
    &&& 0 <= i < frames.len()
    &&& start_of(frames, i) <= t < start_of(frames, i + 1)
}

/// The frame on show after `elapsed` time units. A track whose durations are
/// all zero shows its first frame.
pub open spec fn select_frame(frames: Seq<Frame>, elapsed: nat) -> Frame {
    let total = total_duration(frames);
    if total == 0 {
        frames[0]
    } else {
        frames[choose|i: int| #[trigger] is_active(frames, i, elapsed % total)]
    }
}

/// Each frame begins where the one before it ends.
pub proof fn lemma_start_of_next(frames: Seq<Frame>, i: int)
    requires
        0 <= i < frames.len(),
    ensures
        start_of(frames, i + 1) == start_of(frames, i) + frames[i].duration,
{
    assert(frames.take(i + 1).drop_last() =~= frames.take(i));
}

/// The starting offsets never decrease, and the last one is the loop's length.
pub proof fn lemma_start_of_monotonic(frames: Seq<Frame>, i: int, j: int)
    requires
        0 <= i <= j <= frames.len(),
    ensures
        start_of(frames, i) <= start_of(frames, j),
        start_of(frames, 0) == 0,
        start_of(frames, frames.len() as int) == total_duration(frames),
    decreases j - i,
{
    assert(frames.take(0).len() == 0);
    assert(frames.take(frames.len() as int) =~= frames);
    if i < j {
        lemma_start_of_next(frames, j - 1);
        lemma_start_of_monotonic(frames, i, j - 1);
    }
}

/// At most one frame is on show at any offset.
pub proof fn lemma_active_unique(frames: Seq<Frame>, i: int, j: int, t: nat)
    requires
        is_active(frames, i, t),
        is_active(frames, j, t),
    ensures
        i == j,
{
    if i < j {
        lemma_start_of_monotonic(frames, i + 1, j);
    } else if j < i {
        lemma_start_of_monotonic(frames, j + 1, i);
    }
}

/// Within the loop some frame is always on show.
pub proof fn lemma_active_exists(frames: Seq<Frame>, t: nat) -> (i: int)
    requires
        t < total_duration(frames),
    ensures
        is_active(frames, i, t),
{
    lemma_start_of_monotonic(frames, 0, frames.len() as int);
    lemma_active_below(frames, frames.len() as int, t)
}

proof fn lemma_active_below(frames: Seq<Frame>, n: int, t: nat) -> (i: int)
    requires
        0 <= n <= frames.len(),
        t < start_of(frames, n),
    ensures
        is_active(frames, i, t),
        i < n,
    decreases n,
{
    lemma_start_of_monotonic(frames, 0, n);
    if n == 0 {
        0
    } else {
        lemma_start_of_next(frames, n - 1);
        if start_of(frames, n - 1) <= t {
            n - 1
        } else {
            lemma_active_below(frames, n - 1, t)
        }
    }
}

/// The frame whose span holds the offset is the one that `select_frame`
/// names.
pub proof fn lemma_select_frame_is_active(frames: Seq<Frame>, elapsed: nat, i: int)
    requires
        total_duration(frames) > 0,
        is_active(frames, i, elapsed % total_duration(frames)),
    ensures
        select_frame(frames, elapsed) == frames[i],
{
    let t = elapsed % total_duration(frames);
    let c = choose|c: int| #[trigger] is_active(frames, c, t);
    lemma_active_unique(frames, c, i, t);
}

/// On a track with time in it the clock always selects one of its frames,
/// and one of positive duration.
pub proof fn lemma_select_frame_in_track(frames: Seq<Frame>, elapsed: nat) -> (i: int)
    requires
        total_duration(frames) > 0,
    ensures
        0 <= i < frames.len(),
        is_active(frames, i, elapsed % total_duration(frames)),
        select_frame(frames, elapsed) == frames[i],
        frames[i].duration > 0,
{
    let total = total_duration(frames);
    assert(elapsed % total < total) by (nonlinear_arith)
        requires
            total > 0,
    ;
    let i = lemma_active_exists(frames, elapsed % total);
    lemma_select_frame_is_active(frames, elapsed, i);
    lemma_start_of_next(frames, i);
    i
}

/// A track of a single frame shows that frame at all times, whether or not
/// the frame has any duration.
pub proof fn lemma_single_frame(frame: Frame, elapsed: nat)
    ensures
        select_frame(seq![frame], elapsed) == frame,
{
    let track = seq![frame];
    assert(track.drop_last() =~= Seq::<Frame>::empty());
    assert(total_duration(track.drop_last()) == 0);
    assert(total_duration(track) == frame.duration);
    if frame.duration > 0 {
        let i = lemma_select_frame_in_track(track, elapsed);
    }
}

/// The clock is periodic: any number of whole loops later the same frame is
/// on show.
pub proof fn lemma_select_frame_periodic(frames: Seq<Frame>, elapsed: nat, loops: nat)
    requires
        frames.len() > 0,
        total_duration(frames) > 0,
    ensures
        select_frame(frames, elapsed + total_duration(frames)) == select_frame(frames, elapsed),
        select_frame(frames, elapsed + loops * total_duration(frames)) == select_frame(
            frames,
            elapsed,
        ),
{
    let total = total_duration(frames) as int;
    lemma_mod_multiples_vanish(1, elapsed as int, total);
    lemma_mod_multiples_vanish(loops as int, elapsed as int, total);
    assert(1 * total + elapsed == elapsed + total);
    assert(loops * total + elapsed == elapsed + loops * total);
}

} // verus!
