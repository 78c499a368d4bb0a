//! Time stamps of the audio frames handed to the encoder while its input
//! queue is drained in frames of a fixed size.
use vstd::prelude::*;

verus! {

/// A run of samples taken from the queue, stamped with the time of its first
/// sample in the encoder's sample-rate time base.
#[derive(Debug, Clone, Copy, PartialEq, Eq, Structural)]
pub struct AudioChunk {
    pub pts: i64,
    pub samples: i64,
}

/// Counts the samples that entered the queue and those waiting in it.
#[derive(Debug, Clone, Copy, PartialEq, Eq, Structural)]
pub struct AudioClock {
    /// Samples that entered the queue since the start.
    pub running_pts: i64,
    /// Samples waiting in the queue.
    pub queued: i64,
    /// Samples in each full frame that the encoder takes.
    pub frame_size: i64,
}

impl AudioClock {
    pub open spec fn well_formed(&self) -> bool {
        &&& self.frame_size > 0
        &&& 0 <= self.queued <= self.running_pts
    }

    /// The time stamp of the next sample to leave the queue.
    pub open spec fn next_pts(&self) -> int {
        self.running_pts - self.queued
    }

    /// An empty queue for an encoder that takes frames of `frame_size`
    /// samples.
    pub fn new(frame_size: i32) -> (r: AudioClock)
        requires
            frame_size > 0,
        ensures
            r.well_formed(),
            r.running_pts == 0,
            r.queued == 0,
            r.frame_size == frame_size,
    {
        AudioClock { running_pts: 0, queued: 0, frame_size: frame_size as i64 }
    }

    /// Records `n` resampled samples written into the queue.
    pub fn push(&mut self, n: i32)
        requires
            old(self).well_formed(),
            n >= 0,
            old(self).running_pts + n <= i64::MAX,
        ensures
            final(self).well_formed(),
            final(self).running_pts == old(self).running_pts + n,
            final(self).queued == old(self).queued + n,
            final(self).frame_size == old(self).frame_size,
            final(self).next_pts() == old(self).next_pts(),
    {
        self.running_pts = self.running_pts + n as i64;
        self.queued = self.queued + n as i64;
    }

    /// Takes a full frame while the queue holds one. Its time stamp follows
    /// the last sample taken before it, with no gap and no overlap.
    pub fn next_frame(&mut self) -> (r: Option<AudioChunk>)
        requires
            old(self).well_formed(),
        ensures
            final(self).well_formed(),
            final(self).running_pts == old(self).running_pts,
            final(self).frame_size == old(self).frame_size,
            old(self).queued >= old(self).frame_size <==> r is Some,
            r is None ==> *final(self) == *old(self),
            r matches Some(c) ==> {
                &&& c.samples == old(self).frame_size
                &&& c.pts == old(self).next_pts()
                &&& final(self).queued == old(self).queued - c.samples
                &&& final(self).next_pts() == c.pts + c.samples
            },
    {
        if self.queued >= self.frame_size {
            let c = AudioChunk { pts: self.running_pts - self.queued, samples: self.frame_size };
            self.queued = self.queued - self.frame_size;
            Some(c)
        } else {
            None
        }
    }

    /// Takes what is left in the queue at the end of the input, at most one
    /// frame, as a short frame that follows the last one taken.
    pub fn tail(&mut self) -> (r: Option<AudioChunk>)
        requires
            old(self).well_formed(),
        ensures
            final(self).well_formed(),
            final(self).running_pts == old(self).running_pts,
            final(self).frame_size == old(self).frame_size,
            old(self).queued > 0 <==> r is Some,
            r is None ==> *final(self) == *old(self),
            r matches Some(c) ==> {
                &&& c.samples == if old(self).queued < old(self).frame_size {
                    old(self).queued
                } else {
                    old(self).frame_size
                }
                &&& c.pts == old(self).next_pts()
                &&& final(self).queued == old(self).queued - c.samples
                &&& final(self).next_pts() == c.pts + c.samples
            },
    {
        if self.queued > 0 {
            let n = if self.queued < self.frame_size {
                self.queued
            } else {
                self.frame_size
            };
            let c = AudioChunk { pts: self.running_pts - self.queued, samples: n };
            self.queued = self.queued - n;
            Some(c)
        } else {
            None
        }
    }
}

} // verus!
