use vstd::prelude::*;

verus! {

/// The default minimum gap between two rendered frames: 16 ms, in nanoseconds.
pub const MIN_FRAME_INTERVAL_NANOS: u64 = 16_000_000;

/// The state of the frame pacer as mathematical integers (nanoseconds).
pub ghost struct PacingView {
    pub last_frame_time: int,
    pub animation_time: int,
    pub min_interval: int,
}

/// A redraw request at `now` is due when at least the minimum interval has
/// passed since the last rendered frame.
pub open spec fn frame_due(s: PacingView, now: int) -> bool {
    now - s.last_frame_time >= s.min_interval
}

/// The pacer after a redraw request at `now`: a due request records `now` as
/// the last frame and advances the animation by the elapsed time; any other
/// request leaves the state as it was.
pub open spec fn step(s: PacingView, now: int) -> PacingView {
    if frame_due(s, now) {
        PacingView {
            last_frame_time: now,
            animation_time: s.animation_time + (now - s.last_frame_time),
            ..s
        }
    } else {
        s
    }
}

/// The pacer after a sequence of redraw requests, in order.
pub open spec fn run(s: PacingView, requests: Seq<int>) -> PacingView
    decreases requests.len(),
{
    if requests.len() == 0 {
        s
    } else {
        run(step(s, requests[0]), requests.drop_first())
    }
}

/// The times of the requests that rendered a frame, in order.
pub open spec fn rendered_times(s: PacingView, requests: Seq<int>) -> Seq<int>
    decreases requests.len(),
{
    if requests.len() == 0 {
        Seq::empty()
    } else if frame_due(s, requests[0]) {
        seq![requests[0]] + rendered_times(step(s, requests[0]), requests.drop_first())
    } else {
        rendered_times(s, requests.drop_first())
    }
}

/// The sum of the gaps between consecutive `times`, the first measured from `start`.
pub open spec fn gap_sum(start: int, times: Seq<int>) -> int
    decreases times.len(),
{
    if times.len() == 0 {
        0
    } else {
        (times[0] - start) + gap_sum(times[0], times.drop_first())
    }
}

/// Across any sequence of redraw requests, each rendered frame comes at least
/// the minimum interval after the one before it (the first, after the last
/// frame the pacer had recorded).
pub proof fn lemma_frame_gaps(s: PacingView, requests: Seq<int>)
    ensures
        forall|i: int|
            #![trigger rendered_times(s, requests)[i]]
            0 <= i < rendered_times(s, requests).len() ==> rendered_times(s, requests)[i] - (if i == 0 {
                s.last_frame_time
            } else {
                rendered_times(s, requests)[i - 1]
            }) >= s.min_interval,
    decreases requests.len(),
{
    if requests.len() > 0 {
        let s2 = step(s, requests[0]);
        let rest = requests.drop_first();
        lemma_frame_gaps(s2, rest);
        let r = rendered_times(s, requests);
        let r2 = rendered_times(s2, rest);
        if frame_due(s, requests[0]) {
            assert(r == seq![requests[0]] + r2);
            assert forall|i: int|
                #![trigger r[i]]
                0 <= i < r.len() implies r[i] - (if i == 0 { s.last_frame_time } else { r[i - 1] })
                    >= s.min_interval by {
                if i > 0 {
                    assert(r[i] == r2[i - 1]);
                    if i > 1 {
                        assert(r[i - 1] == r2[i - 2]);
                    }
                }
            }
        }
    }
}

/// The animation time after any sequence of redraw requests has grown by
/// exactly the sum of the real gaps between the rendered frames, and the last
/// rendered frame is the one the pacer records.
pub proof fn lemma_animation_is_elapsed_sum(s: PacingView, requests: Seq<int>)
    ensures
        run(s, requests).animation_time == s.animation_time + gap_sum(
            s.last_frame_time,
            rendered_times(s, requests),
        ),
        run(s, requests).last_frame_time == if rendered_times(s, requests).len() == 0 {
            s.last_frame_time
        } else {
            rendered_times(s, requests).last()
        },
        run(s, requests).min_interval == s.min_interval,
    decreases requests.len(),
{
    if requests.len() > 0 {
        let s2 = step(s, requests[0]);
        let rest = requests.drop_first();
        lemma_animation_is_elapsed_sum(s2, rest);
        if frame_due(s, requests[0]) {
            let r = rendered_times(s, requests);
            let r2 = rendered_times(s2, rest);
            assert(r == seq![requests[0]] + r2);
            assert(r[0] == requests[0]);
            assert(r.drop_first() =~= r2);
        }
    }
}

/// What the host should do with a redraw request. Either way the host is
/// asked to schedule another redraw.
#[derive(Clone, Copy, Debug, PartialEq, Eq, Structural)]
pub enum RedrawAction {
    /// Too soon after the last frame: nothing is drawn and no time advances.
    Skip,
    /// Draw and present a frame; `elapsed` nanoseconds have passed since the last one.
    Render { elapsed: u64 },
}

/// The frame pacer: the time of the last rendered frame, the animation clock,
/// and the minimum gap between frames, all in nanoseconds.
pub struct PacedLoop {
    pub last_frame_time: u64,
    pub animation_time: u64,
    pub min_interval: u64,
}

impl PacedLoop {
    /// The pacer's state as integers.
    pub open spec fn view(&self) -> PacingView {
        PacingView {
            last_frame_time: self.last_frame_time as int,
            animation_time: self.animation_time as int,
            min_interval: self.min_interval as int,
        }
    }

    /// The animation clock never runs ahead of the clock it is measured on.
    pub open spec fn wf(&self) -> bool {
        self.animation_time <= self.last_frame_time
    }

    /// A pacer started at `now`, with the animation at zero.
    pub fn new(now: u64, min_interval: u64) -> (r: PacedLoop)
        ensures
            r.wf(),
            r.view() == (PacingView { last_frame_time: now as int, animation_time: 0, min_interval: min_interval as int }),
    {
        PacedLoop { last_frame_time: now, animation_time: 0, min_interval }
    }

    /// Handles a redraw request at `now`: renders when the minimum interval has
    /// passed since the last frame, and otherwise skips.
    pub fn on_redraw(&mut self, now: u64) -> (r: RedrawAction)
        requires
            old(self).wf(),
        ensures
            final(self).wf(),
            final(self).view() == step(old(self).view(), now as int),
            r == if frame_due(old(self).view(), now as int) {
                RedrawAction::Render { elapsed: (now - old(self).last_frame_time) as u64 }
            } else {
                RedrawAction::Skip
            },
    {
        if now >= self.last_frame_time && now - self.last_frame_time >= self.min_interval {
            let elapsed: u64 = now - self.last_frame_time;
            self.last_frame_time = now;
            self.animation_time = self.animation_time + elapsed;
            RedrawAction::Render { elapsed }
        } else {
            RedrawAction::Skip
        }
    }
}

} // verus!
