//! The pace of the frames presented last.

use std::collections::VecDeque;
use vstd::prelude::*;

verus! {

/// Number of frames that the pace is taken over, and between two reports.
pub const WINDOW: usize = 128;

/// The times a window holds once a frame was presented at `now`: the times
/// it held, without the oldest where the window was full, and `now` behind
/// them.
pub open spec fn recorded(times: Seq<u64>, now: u64) -> Seq<u64> {
    if times.len() >= WINDOW {
        times.skip(times.len() - WINDOW + 1).push(now)
    } else {
        times.push(now)
    }
}

/// The times at which the last frames were presented, the oldest first: at
/// most [`WINDOW`] of them. It is handed from frame to frame.
pub struct FrameStats {
    times: VecDeque<u64>,
}

impl View for FrameStats {
    type V = Seq<u64>;

    closed spec fn view(&self) -> Seq<u64> {
        self.times@
    }
}

impl FrameStats {
    #[verifier::type_invariant]
    spec fn inv(&self) -> bool {
        self.times@.len() <= WINDOW
    }

    /// A window in which no frame was presented yet.
    pub fn new() -> (stats: FrameStats)
        ensures
            stats@ == Seq::<u64>::empty(),
    {
        FrameStats { times: VecDeque::new() }
    }

    /// Number of frames in the window; never more than [`WINDOW`].
    pub fn len(&self) -> (count: usize)
        ensures
            count == self@.len(),
            count <= WINDOW,
    {
        proof {
            use_type_invariant(self);
        }
        self.times.len()
    }

    /// Notes that a frame was presented at `now`, a time in any unit that
    /// is counted from a fixed start.
    pub fn record(&mut self, now: u64)
        ensures
            final(self)@ == recorded(old(self)@, now),
    {
        proof {
            use_type_invariant(&*self);
        }
        let mut times: VecDeque<u64> = VecDeque::new();
        std::mem::swap(&mut times, &mut self.times);
        if times.len() >= WINDOW {
            let _ = times.pop_front();
        }
        times.push_back(now);
        self.times = times;
    }

    /// The number of frames presented after the oldest of the window, and
    /// the time from the oldest to the newest: their quotient is the frame
    /// rate. There is none for an empty window, nor where the newest time
    /// is before the oldest.
    pub fn span(&self) -> (span: Option<(u64, u64)>)
        ensures
            match span {
                Some((frames, elapsed)) => self@.len() > 0 && frames == self@.len() - 1
                    && self@.first() <= self@.last() && elapsed == self@.last() - self@.first(),
                None => self@.len() == 0 || self@.last() < self@.first(),
            },
    {
        proof {
            use_type_invariant(self);
        }
        let count: usize = self.times.len();
        if count == 0 {
            return None;
        }
        let oldest: u64 = self.times[0];
        let newest: u64 = self.times[count - 1];
        if newest < oldest {
            return None;
        }
        Some(((count - 1) as u64, newest - oldest))
    }

    /// Whether the pace is reported after frame number `frame`: after the
    /// first frame and then after every [`WINDOW`] frames.
    pub fn report_due(frame: u64) -> (due: bool)
        ensures
            due == (frame % (WINDOW as u64) == 0),
    {
        frame % (WINDOW as u64) == 0
    }
}

} // verus!
