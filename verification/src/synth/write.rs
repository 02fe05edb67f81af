//! How sample buffers are laid out for a write.
//!
//! The synthesizer writes a number of stereo frames.  For each of the two
//! channels it is told where the first sample goes and how far apart the
//! samples of that channel lie.  The layouts here are chosen so that every
//! sample that is written lies inside the buffer it is written to.
use crate::synth::Synth;
use vstd::prelude::*;

verus! {

/// Where the samples of one channel go.
#[derive(Debug, Clone, Copy, PartialEq, Eq, Hash)]
pub struct Lane {
    /// Which of the buffers takes the samples: 0 for the first, 1 for the
    /// second.
    pub buffer: usize,
    /// The position of the first sample.
    pub offset: u32,
    /// The distance from one sample to the next.
    pub incr: u32,
}

/// The arguments of one write of stereo frames.
#[derive(Debug, Clone, Copy, PartialEq, Eq, Hash)]
pub struct Layout {
    /// The number of frames to write.
    pub len: usize,
    /// Where the samples of the left channel go.
    pub left: Lane,
    /// Where the samples of the right channel go.
    pub right: Lane,
}

impl Lane {
    /// The position of the sample of frame `k` in the lane's buffer.
    pub open spec fn position(self, k: int) -> int {
        self.offset + k * self.incr
    }

    /// Whether each of the first `frames` samples of the lane lies inside
    /// its buffer, given the lengths of the buffers.
    pub open spec fn fits(self, frames: usize, lens: Seq<usize>) -> bool {
        &&& self.buffer < lens.len()
        &&& forall|k: int|
            0 <= k < frames ==> 0 <= #[trigger] self.position(k) < lens[self.buffer as int]
    }
}

impl Layout {
    /// The layout for one buffer of `len` samples that holds the frames
    /// interleaved: left sample, right sample, and so on.
    pub open spec fn interleaved(len: usize) -> Layout {
        Layout {
            len: len / 2,
            left: Lane { buffer: 0, offset: 0, incr: 2 },
            right: Lane { buffer: 0, offset: 1, incr: 2 },
        }
    }

    /// The layout for two buffers, one for each channel: as many frames are
    /// written as the shorter buffer takes.
    pub open spec fn split(left_len: usize, right_len: usize) -> Layout {
        Layout {
            len: if left_len <= right_len {
                left_len
            } else {
                right_len
            },
            left: Lane { buffer: 0, offset: 0, incr: 1 },
            right: Lane { buffer: 1, offset: 0, incr: 1 },
        }
    }

    /// Whether every sample of every frame lies inside its buffer.
    pub open spec fn fits(self, lens: Seq<usize>) -> bool {
        self.left.fits(self.len, lens) && self.right.fits(self.len, lens)
    }

    /// Whether no sample is written twice.
    pub open spec fn disjoint(self) -> bool {
        forall|j: int, k: int|
            0 <= j < self.len && 0 <= k < self.len && self.left.buffer == self.right.buffer
                ==> #[trigger] self.left.position(j) != #[trigger] self.right.position(k)
    }

    /// Lays out a write to one buffer of `len` samples that takes the frames
    /// interleaved.
    pub fn for_interleaved(len: usize) -> (layout: Layout)
        ensures
            layout == Self::interleaved(len),
            layout.fits(seq![len]),
            layout.disjoint(),
    {
        proof {
            Self::interleaved_is_safe(len);
        }
        Layout {
            len: len / 2,
            left: Lane { buffer: 0, offset: 0, incr: 2 },
            right: Lane { buffer: 0, offset: 1, incr: 2 },
        }
    }

    /// Lays out a write to two buffers of `left_len` and `right_len`
    /// samples, one for each channel.
    pub fn for_split(left_len: usize, right_len: usize) -> (layout: Layout)
        ensures
            layout == Self::split(left_len, right_len),
            layout.fits(seq![left_len, right_len]),
            layout.disjoint(),
    {
        proof {
            Self::split_is_safe(left_len, right_len);
        }
        Layout {
            len: if left_len <= right_len {
                left_len
            } else {
                right_len
            },
            left: Lane { buffer: 0, offset: 0, incr: 1 },
            right: Lane { buffer: 1, offset: 0, incr: 1 },
        }
    }

    /// An interleaved write stays inside its buffer and writes no sample
    /// twice.
    pub proof fn interleaved_is_safe(len: usize)
        ensures
            Self::interleaved(len).fits(seq![len]),
            Self::interleaved(len).disjoint(),
    {
        let layout = Self::interleaved(len);
        assert(layout.len == len / 2);
        assert(seq![len][0] == len);
    }

    /// A write to two buffers stays inside them and writes no sample twice.
    pub proof fn split_is_safe(left_len: usize, right_len: usize)
        ensures
            Self::split(left_len, right_len).fits(seq![left_len, right_len]),
            Self::split(left_len, right_len).disjoint(),
    {
        let lens = seq![left_len, right_len];
        assert(lens[0] == left_len && lens[1] == right_len);
        assert(lens.len() == 2);
        let layout = Self::split(left_len, right_len);
        assert forall|k: int| 0 <= k < layout.len implies 0 <= #[trigger] layout.left.position(k)
            < lens[0] by {
            assert(layout.left.incr == 1 && layout.left.offset == 0);
            assert(k * 1 == k);
        }
        assert forall|k: int| 0 <= k < layout.len implies 0 <= #[trigger] layout.right.position(
            k,
        ) < lens[1] by {
            assert(layout.right.incr == 1 && layout.right.offset == 0);
            assert(k * 1 == k);
        }
    }
}

/// The trait which implements samples data buffer interface
pub trait IsSamples {
    /// The lengths of the buffers that take the samples.
    spec fn lens(&self) -> Seq<usize>;

    /// The layout of a write to these buffers.
    spec fn spec_layout(&self) -> Layout;

    /// The layout of a write to these buffers, which stays inside them.
    fn layout(&self) -> (layout: Layout)
        ensures
            layout == self.spec_layout(),
            layout.fits(self.lens()),
            layout.disjoint(),
    ;
}

impl IsSamples for [i16] {
    open spec fn lens(&self) -> Seq<usize> {
        seq![self@.len() as usize]
    }

    /// Write samples interleaved
    open spec fn spec_layout(&self) -> Layout {
        Layout::interleaved(self@.len() as usize)
    }

    fn layout(&self) -> (layout: Layout) {
        Layout::for_interleaved(self.len())
    }
}

impl IsSamples for (&mut [i16], &mut [i16]) {
    open spec fn lens(&self) -> Seq<usize> {
        seq![self.0@.len() as usize, self.1@.len() as usize]
    }

    /// Write samples non-interleaved
    open spec fn spec_layout(&self) -> Layout {
        Layout::split(self.0@.len() as usize, self.1@.len() as usize)
    }

    fn layout(&self) -> (layout: Layout) {
        Layout::for_split(self.0.len(), self.1.len())
    }
}

impl Synth {
    /// Write sound samples to the sample data buffer
    ///
    /// Lays out the write of as many frames as `samples` takes.
    pub fn write<S: IsSamples + ?Sized>(&self, samples: &S) -> (layout: Layout)
        ensures
            layout == samples.spec_layout(),
            layout.fits(samples.lens()),
            layout.disjoint(),
    {
        samples.layout()
    }
}

} // verus!
