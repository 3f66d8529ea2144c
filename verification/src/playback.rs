//! Playback of the monthly data frames: pausing, stepping and skipping.

use vstd::prelude::*;

verus! {

/// The last frame of the data set (months since January 1880).
pub const LAST_FRAME: usize = 1703;

/// How many frames one press of a skip button moves (one year).
pub const SKIP_FRAMES: usize = 12;

/// The part of the viewer's state that playback reads and writes.
#[derive(Clone, Copy, Debug, PartialEq, Eq)]
pub struct PlaybackState {
    /// Whether the animation is paused.
    pub pause: bool,
    /// The frame (month) currently shown.
    pub timestamp: usize,
}

/// Sets whether the animation is paused; the frame stays.
pub fn update_video_pause(state: &mut PlaybackState, pause: bool)
    ensures
        final(state).pause == pause,
        final(state).timestamp == old(state).timestamp,
{
    state.pause = pause;
}

/// Resetting the video leaves the state as it is.
pub fn reset_video(state: &mut PlaybackState)
    ensures
        *final(state) == *old(state),
{
}

/// Advances the animation by one frame.
pub fn update_time_stamp(state: &mut PlaybackState)
    requires
        old(state).timestamp < usize::MAX,
    ensures
        final(state).timestamp == old(state).timestamp + 1,
        final(state).pause == old(state).pause,
{
    let t = state.timestamp;
    state.timestamp = t + 1;
}

/// The frame that the skip-forward button moves to from frame `t`:
/// one year on, but never past the last frame.
pub open spec fn skip_right_target(t: int) -> int {
    if t > LAST_FRAME - SKIP_FRAMES {
        LAST_FRAME as int
    } else {
        t + SKIP_FRAMES
    }
}

/// The frame that the skip-back button moves to from frame `t`:
/// one year back, but never before the first frame.
pub open spec fn skip_left_target(t: int) -> int {
    if t < SKIP_FRAMES {
        0
    } else {
        t - SKIP_FRAMES
    }
}

/// The state after the play/pause button: the other pause setting, the same frame.
pub open spec fn toggled(s: PlaybackState) -> PlaybackState {
    PlaybackState { pause: !s.pause, timestamp: s.timestamp }
}

/// Whether, at `now` milliseconds, the next frame is due after one was
/// shown at `last` milliseconds: the animation runs at twelve frames a
/// second, so a frame is due once more than 1000 / 12 ms have passed.
pub open spec fn frame_due(last: int, now: int) -> bool {
    12 * now > 12 * last + 1000
}

impl PlaybackState {
    /// A freshly started viewer: paused on the first frame.
    pub fn new() -> (s: Self)
        ensures
            s.pause,
            s.timestamp == 0,
    {
        PlaybackState { pause: true, timestamp: 0 }
    }

    /// The play/pause button: flips between playing and paused.
    pub fn toggle_pause(&mut self)
        ensures
            *final(self) == toggled(*old(self)),
            final(self).pause == !old(self).pause,
            final(self).timestamp == old(self).timestamp,
    {
        if self.pause {
            self.pause = false;
        } else {
            self.pause = true;
        }
    }

    /// The skip-forward button: one year on, clamped to the last frame.
    pub fn skip_right(&mut self)
        ensures
            final(self).timestamp == skip_right_target(old(self).timestamp as int),
            old(self).timestamp + SKIP_FRAMES <= LAST_FRAME ==> final(self).timestamp
                == old(self).timestamp + SKIP_FRAMES,
            old(self).timestamp + SKIP_FRAMES > LAST_FRAME ==> final(self).timestamp == LAST_FRAME,
            final(self).pause == old(self).pause,
    {
        if self.timestamp > LAST_FRAME - SKIP_FRAMES {
            self.timestamp = LAST_FRAME;
        } else {
            self.timestamp = self.timestamp + SKIP_FRAMES;
        }
    }

    /// The skip-back button: one year back, clamped to the first frame.
    pub fn skip_left(&mut self)
        ensures
            final(self).timestamp == skip_left_target(old(self).timestamp as int),
            old(self).timestamp < SKIP_FRAMES ==> final(self).timestamp == 0,
            old(self).timestamp >= SKIP_FRAMES ==> final(self).timestamp + SKIP_FRAMES
                == old(self).timestamp,
            final(self).pause == old(self).pause,
    {
        if self.timestamp < SKIP_FRAMES {
            self.timestamp = 0;
        } else {
            self.timestamp = self.timestamp - SKIP_FRAMES;
        }
    }

    /// One pass of the render loop at time `now` (milliseconds), the last
    /// frame having been shown at `last`: while playing and once a frame is
    /// due, the animation moves on one frame. Returns the time of the last
    /// shown frame afterwards.
    pub fn advance_frame(&mut self, last: u64, now: u64) -> (new_last: u64)
        requires
            !old(self).pause && frame_due(last as int, now as int) ==> old(self).timestamp
                < usize::MAX,
        ensures
            final(self).pause == old(self).pause,
            if !old(self).pause && frame_due(last as int, now as int) {
                final(self).timestamp == old(self).timestamp + 1 && new_last == now
            } else {
                final(self).timestamp == old(self).timestamp && new_last == last
            },
            !old(self).pause && now >= last + 84 ==> final(self).timestamp == old(self).timestamp
                + 1 && new_last == now,
            old(self).pause || now <= last + 83 ==> final(self).timestamp == old(self).timestamp
                && new_last == last,
    {
        if !self.pause {
            if now > last && now - last > 83 {
                update_time_stamp(self);
                return now;
            }
        }
        last
    }
}

/// The play/pause button always changes whether the animation plays, on
/// every frame, and never moves the frame.
pub proof fn lemma_toggle_flips_pause(s: PlaybackState)
    ensures
        toggled(s).pause != s.pause,
        toggled(s).timestamp == s.timestamp,
{
}

/// A frame is due exactly when at least 84 whole milliseconds (more than
/// 1000 / 12) have passed since the last one, however long the gap.
pub proof fn lemma_frame_due_after_a_twelfth_second(last: int, now: int)
    ensures
        now - last >= 84 ==> frame_due(last, now),
        now - last <= 83 ==> !frame_due(last, now),
{
}

/// Skipping back from any frame below one year lands on the first frame;
/// from any other frame it goes back exactly one year. Skipping back never
/// moves forward.
pub proof fn lemma_skip_left_moves_a_year_back(t: int)
    requires
        0 <= t,
    ensures
        t < 12 ==> skip_left_target(t) == 0,
        t >= 12 ==> skip_left_target(t) + 12 == t,
        0 <= skip_left_target(t) <= t,
{
}

/// Skipping forward from any frame at most 1691 goes on exactly one year;
/// from any later frame it lands on the last frame, 1703.
pub proof fn lemma_skip_right_moves_a_year_on(t: int)
    requires
        0 <= t,
    ensures
        t <= 1691 ==> skip_right_target(t) == t + 12,
        t > 1691 ==> skip_right_target(t) == 1703,
{
}

/// Pressing play/pause twice leaves the state as it was.
pub proof fn lemma_toggle_pause_twice(s: PlaybackState)
    ensures
        toggled(toggled(s)) == s,
{
}

/// Skipping back undoes skipping forward whenever the forward skip was
/// not clamped, and skipping forward undoes skipping back whenever the
/// back skip was not clamped and the frame lay within the data.
pub proof fn lemma_skips_undo_each_other(t: int)
    requires
        0 <= t,
    ensures
        t <= LAST_FRAME - SKIP_FRAMES ==> skip_left_target(skip_right_target(t)) == t,
        SKIP_FRAMES <= t <= LAST_FRAME ==> skip_right_target(skip_left_target(t)) == t,
{
}

/// Skipping in either direction from a frame within the data set lands on
/// a frame within the data set.
pub proof fn lemma_skips_stay_in_data(t: int)
    requires
        0 <= t <= LAST_FRAME,
    ensures
        0 <= skip_right_target(t) <= LAST_FRAME,
        0 <= skip_left_target(t) <= LAST_FRAME,
{
}


/// Rust's `/` on integers: the quotient rounded toward zero.
pub open spec fn quotient_toward_zero(a: int, b: int) -> int {
    let q = if a < 0 { -a } else { a } / if b < 0 { -b } else { b };
    if (a < 0) != (b < 0) {
        -q
    } else {
        q
    }
}

/// When a click on the slider at `client_x` can be handled: the slider has a
/// width, and the offsets and the scaled position fit in an `i32` (the
/// handler also computes the click's position scaled to the data range).
pub open spec fn slider_click_in_range(client_x: int, offset_left: int, offset_width: int) -> bool {
    let d = client_x - offset_left;
    &&& offset_width != 0
    &&& i32::MIN <= d <= i32::MAX
    &&& i32::MIN <= d - 15 <= i32::MAX
    &&& i32::MIN <= d - 10 <= i32::MAX
    &&& i32::MIN <= quotient_toward_zero(d - 15, offset_width) <= i32::MAX
    &&& i32::MIN <= quotient_toward_zero(d - 15, offset_width) * 1704 <= i32::MAX
}

/// The frame that a click on the slider selects: the click's distance from
/// the slider's left edge less ten pixels, taken as a `usize` (a negative
/// distance wraps around, as a Rust cast does).
pub fn slider_timestamp(client_x: i32, offset_left: i32, offset_width: i32) -> (t: usize)
    requires
        slider_click_in_range(client_x as int, offset_left as int, offset_width as int),
    ensures
        t == (client_x - offset_left - 10) as usize,
{
    let d: i32 = client_x - offset_left - 10;
    d as usize
}

} // verus!
