//! The frame-paced transition clock. Times are nanoseconds on a monotonic
//! clock; a frame bucket is an interval of `1/fps` seconds since the start, and
//! at most one new frame is composed per bucket.

use crate::server::TaskHandle;
use vstd::prelude::*;

verus! {

pub const NANOS_PER_SEC: u64 = 1_000_000_000;

/// Why a display frame callback did not compose a new frame.
#[derive(Clone, Copy, Debug, PartialEq, Eq, Structural)]
pub enum TransitionRenderError {
    /// The frame bucket was already drawn: re-present the buffered frame.
    SameFrame,
    /// The transition is over: show the final image.
    Finished,
}

/// The timing state of a transition.
pub struct Pacing {
    pub start: int,
    pub duration: int,
    pub fps: int,
    pub last_rendered: int,
    pub first_rendered: bool,
    pub finished: bool,
}

/// Nanoseconds from `start` to `now`; none when `now` is earlier.
pub open spec fn elapsed(start: int, now: int) -> int {
    if now >= start {
        now - start
    } else {
        0
    }
}

/// The index of the frame bucket that holds `t` nanoseconds after the start.
pub open spec fn bucket(t: int, fps: int) -> int {
    t * fps / NANOS_PER_SEC as int
}

/// One display frame callback at `now`: the state after it and what it reports,
/// the elapsed nanoseconds when a new frame is to be composed.
pub open spec fn pace(p: Pacing, now: int) -> (Pacing, Result<int, TransitionRenderError>) {
    let e = elapsed(p.start, now);
    if e > p.duration {
        (Pacing { finished: true, ..p }, Err(TransitionRenderError::Finished))
    } else if p.first_rendered && bucket(e, p.fps) == bucket(
        elapsed(p.start, p.last_rendered),
        p.fps,
    ) {
        (p, Err(TransitionRenderError::SameFrame))
    } else {
        (Pacing { first_rendered: true, last_rendered: now, ..p }, Ok(e))
    }
}

/// What the callbacks at `times` report, in order, until one reports `Finished`.
pub open spec fn pace_all(p: Pacing, times: Seq<int>) -> Seq<Result<int, TransitionRenderError>>
    decreases times.len(),
{
    if times.len() == 0 || p.finished {
        Seq::empty()
    } else {
        let (q, o) = pace(p, times[0]);
        seq![o] + pace_all(q, times.skip(1))
    }
}

/// One animation between two images: its clock, and the permit that a
/// transition that may not be interrupted keeps until it ends.
pub struct TransitionState {
    start: u64,
    duration: u64,
    fps: u32,
    last_rendered: u64,
    first_rendered: bool,
    finished: bool,
    task_handle: Option<TaskHandle>,
}

impl TransitionState {
    pub closed spec fn pacing(&self) -> Pacing {
        Pacing {
            start: self.start as int,
            duration: self.duration as int,
            fps: self.fps as int,
            last_rendered: self.last_rendered as int,
            first_rendered: self.first_rendered,
            finished: self.finished,
        }
    }

    /// Whether the state still keeps a permit.
    pub closed spec fn holds_permit(&self) -> bool {
        self.task_handle is Some
    }

    /// A transition that starts at `start` and lasts `duration` nanoseconds, at
    /// `fps` frames per second. A permit handed in is kept until it finishes.
    pub fn new(start: u64, duration: u64, fps: u32, task_handle: Option<TaskHandle>) -> (r:
        TransitionState)
        ensures
            r.pacing() == (Pacing {
                start: start as int,
                duration: duration as int,
                fps: fps as int,
                last_rendered: start as int,
                first_rendered: false,
                finished: false,
            }),
            r.holds_permit() == task_handle is Some,
    {
        TransitionState {
            start,
            duration,
            fps,
            last_rendered: start,
            first_rendered: false,
            finished: false,
            task_handle,
        }
    }

    pub fn duration(&self) -> (r: u64)
        ensures
            r as int == self.pacing().duration,
    {
        self.duration
    }

    pub fn is_finished(&self) -> (r: bool)
        ensures
            r == self.pacing().finished,
    {
        self.finished
    }

    /// Decides, for a display frame callback at `now`, whether to compose a new
    /// frame: `Ok` with the nanoseconds elapsed when it is to be composed,
    /// `SameFrame` when this frame bucket was already drawn, `Finished` once the
    /// duration is exceeded. Finishing releases a kept permit.
    pub fn render_pass(&mut self, now: u64) -> (r: Result<u64, TransitionRenderError>)
        requires
            !old(self).pacing().finished,
        ensures
            final(self).pacing() == pace(old(self).pacing(), now as int).0,
            match (r, pace(old(self).pacing(), now as int).1) {
                (Ok(e), Ok(f)) => e as int == f,
                (Err(a), Err(b)) => a == b,
                _ => false,
            },
            r matches Err(TransitionRenderError::Finished) ==> !final(self).holds_permit(),
            !(r matches Err(TransitionRenderError::Finished)) ==> final(self).holds_permit()
                == old(self).holds_permit(),
    {
        let elapsed = if now >= self.start {
            now - self.start
        } else {
            0
        };
        if elapsed > self.duration {
            self.finished = true;
            self.task_handle = None;
            return Err(TransitionRenderError::Finished);
        }
        let last = if self.last_rendered >= self.start {
            self.last_rendered - self.start
        } else {
            0
        };
        let fps = self.fps as u128;
        assert(elapsed as int * fps as int <= 0xffff_ffff_ffff_ffff * 0xffff_ffff) by (
        nonlinear_arith)
            requires
                elapsed <= 0xffff_ffff_ffff_ffffu64,
                fps <= 0xffff_ffffu128,
        ;
        assert(last as int * fps as int <= 0xffff_ffff_ffff_ffff * 0xffff_ffff) by (
        nonlinear_arith)
            requires
                last <= 0xffff_ffff_ffff_ffffu64,
                fps <= 0xffff_ffffu128,
        ;
        let current_frame: u128 = elapsed as u128 * fps / NANOS_PER_SEC as u128;
        let last_frame: u128 = last as u128 * fps / NANOS_PER_SEC as u128;
        if current_frame == last_frame && self.first_rendered {
            return Err(TransitionRenderError::SameFrame);
        }
        self.first_rendered = true;
        self.last_rendered = now;
        Ok(elapsed)
    }

    /// Gives up the kept permit, if any, so that the caller resolves it.
    pub fn take_task_handle(&mut self) -> (r: Option<TaskHandle>)
        ensures
            r is Some == old(self).holds_permit(),
            !final(self).holds_permit(),
            final(self).pacing() == old(self).pacing(),
    {
        self.task_handle.take()
    }
}

/// A transition reports `Finished` exactly once: at the first callback whose
/// elapsed time exceeds the duration, never before, and nothing follows it.
pub proof fn lemma_finished_once(p: Pacing, times: Seq<int>)
    requires
        !p.finished,
    ensures
        ({
            let out = pace_all(p, times);
            &&& out.len() <= times.len()
            &&& forall|i: int|
                0 <= i < out.len() ==> (out[i] == Err::<int, TransitionRenderError>(
                    TransitionRenderError::Finished,
                ) <==> elapsed(p.start, #[trigger] times[i]) > p.duration)
            &&& forall|i: int|
                0 <= i < out.len() && out[i] == Err::<int, TransitionRenderError>(
                    TransitionRenderError::Finished,
                ) ==> i == out.len() - 1
            &&& (out.len() < times.len() ==> out.len() > 0 && out[out.len() - 1] == Err::<
                int,
                TransitionRenderError,
            >(TransitionRenderError::Finished))
        }),
    decreases times.len(),
{
    if times.len() > 0 {
        let (q, o) = pace(p, times[0]);
        let rest = times.skip(1);
        let out = pace_all(p, times);
        if !q.finished {
            lemma_finished_once(q, rest);
            let tail = pace_all(q, rest);
            assert(out == seq![o] + tail);
            assert forall|i: int| 1 <= i < out.len() implies out[i] == tail[i - 1]
                && times[i] == rest[i - 1] by {}
        } else {
            assert(pace_all(q, rest) == Seq::<Result<int, TransitionRenderError>>::empty());
            assert(out =~= seq![o]);
        }
    }
}

} // verus!
