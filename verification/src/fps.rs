//! Frame-timing bookkeeping over a short window of recent frames.
//!
//! The clock itself stays outside the library: each frame hands in the
//! subsecond microseconds that elapsed since the previous one, and the
//! counter keeps the sample window, the latest delta, and a running
//! subsecond accumulator.

use vstd::prelude::*;

verus! {

/// How many recent frames the sample window holds.
pub const FPS_SAMPLE_COUNT: usize = 5;

/// One microsecond short of a full second; the accumulator ticks a second
/// once it exceeds this.
pub const MICROS_PER_SECOND: u32 = 1_000_000;

/// Frame-timing state: a window of recent frame times, the latest frame
/// delta, and a subsecond accumulator.
#[derive(Debug, Clone)]
pub struct FpsCounter {
    /// The preferred frame time, in microseconds.
    pub frame_time_prefer: u32,
    /// The most recent frame times, in microseconds.
    pub samples: Vec<u32>,
    /// The slot of the sample window the next frame writes.
    pub current_frame: usize,
    /// The latest frame's duration, in microseconds.
    pub delta_frame: u32,
    /// Subsecond microseconds accumulated since the last second tick.
    pub second_counter: u32,
}

impl FpsCounter {
    /// The structural invariant: the window has its fixed size, the write
    /// slot stays inside it, and the accumulator stays clear of overflow.
    pub open spec fn wf(self) -> bool {
        &&& self.samples@.len() == FPS_SAMPLE_COUNT
        &&& self.current_frame < FPS_SAMPLE_COUNT
        &&& self.second_counter < 2 * MICROS_PER_SECOND
    }

    /// A fresh counter: an empty window and a preferred frame time of one
    /// second split over sixty frames.
    pub fn new() -> (r: FpsCounter)
        ensures
            r.wf(),
            r.frame_time_prefer == 16666,
            r.samples@.len() == FPS_SAMPLE_COUNT,
            forall|i: int| 0 <= i < r.samples@.len() ==> r.samples@[i] == 0,
            r.current_frame == 0,
            r.delta_frame == 0,
            r.second_counter == 0,
    {
        let mut samples: Vec<u32> = Vec::new();
        while samples.len() < FPS_SAMPLE_COUNT
            invariant
                samples@.len() <= FPS_SAMPLE_COUNT,
                forall|i: int| 0 <= i < samples@.len() ==> samples@[i] == 0,
            decreases FPS_SAMPLE_COUNT - samples.len(),
        {
            samples.push(0);
        }
        FpsCounter {
            frame_time_prefer: MICROS_PER_SECOND / 60,
            samples,
            current_frame: 0,
            delta_frame: 0,
            second_counter: 0,
        }
    }

    /// Record one frame: write its duration into the window, advance the
    /// write slot cyclically, and either reset the subsecond accumulator
    /// when it had already passed a second, or add the new delta to it.
    /// `delta_micros` is the subsecond part of the elapsed time, so it is
    /// below one second.
    pub fn tick_frame(&mut self, delta_micros: u32)
        requires
            old(self).wf(),
            delta_micros < MICROS_PER_SECOND,
        ensures
            final(self).wf(),
            final(self).delta_frame == delta_micros,
            final(self).samples@ == old(self).samples@.update(
                old(self).current_frame as int,
                delta_micros,
            ),
            final(self).current_frame == (old(self).current_frame + 1) % (
            FPS_SAMPLE_COUNT as int),
            final(self).second_counter == (if old(self).second_counter > MICROS_PER_SECOND {
                0u32
            } else {
                (old(self).second_counter + delta_micros) as u32
            }),
            final(self).frame_time_prefer == old(self).frame_time_prefer,
    {
        self.delta_frame = delta_micros;
        self.samples.set(self.current_frame, delta_micros);
        self.current_frame = (self.current_frame + 1) % FPS_SAMPLE_COUNT;

        if self.is_tick_second() {
            self.second_counter = 0;
        } else {
            self.second_counter = self.second_counter + delta_micros;
        }
    }

    /// Whether the subsecond accumulator has passed a full second.
    pub fn is_tick_second(&self) -> (r: bool)
        ensures
            r == (self.second_counter > MICROS_PER_SECOND),
    {
        self.second_counter > MICROS_PER_SECOND
    }
}

} // verus!
