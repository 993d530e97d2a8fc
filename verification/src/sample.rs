//! Samples and fixed-length sample windows.
//!
//! A sample is carried as the bit pattern of an IEEE-754 single, so that the
//! pipeline can move, copy and compare samples without doing arithmetic on
//! them. Callers convert at the device boundary.

use vstd::prelude::*;

verus! {

/// One PCM sample, held as the bit pattern of an IEEE-754 single.
#[derive(Clone, Copy, Debug, PartialEq, Eq, Structural)]
pub struct Sample {
    pub bits: u32,
}

/// A sequence of `n` silent samples.
pub open spec fn silence_seq(n: nat) -> Seq<Sample> {
    Seq::new(n, |i: int| Sample::spec_silence())
}

/// `base` with its front replaced by `src`, as far as `src` reaches.
/// The result is as long as `base`; samples of `src` beyond that are ignored.
pub open spec fn overlay(base: Seq<Sample>, src: Seq<Sample>) -> Seq<Sample> {
    Seq::new(
        base.len(),
        |i: int|
            if i < src.len() {
                src[i]
            } else {
                base[i]
            },
    )
}

impl Sample {
    pub open spec fn spec_silence() -> Sample {
        Sample { bits: 0 }
    }

    /// The sample of value zero (positive zero, all bits clear).
    #[verifier::when_used_as_spec(spec_silence)]
    pub fn silence() -> (s: Sample)
        ensures
            s == Sample::spec_silence(),
    {
        Sample { bits: 0 }
    }

    /// Wraps a bit pattern.
    pub fn from_bits(bits: u32) -> (s: Sample)
        ensures
            s.bits == bits,
    {
        Sample { bits }
    }

    /// The bit pattern of this sample.
    pub fn to_bits(self) -> (bits: u32)
        ensures
            bits == self.bits,
    {
        self.bits
    }

    /// Whether this is the silent sample.
    pub fn is_silence(self) -> (b: bool)
        ensures
            b == (self == Sample::spec_silence()),
    {
        self.bits == 0
    }
}

/// A window of exactly `N` samples: the most recent block that a callback
/// read or wrote. It is a plain value and is copied, never shared.
#[derive(Clone, Copy, Debug, PartialEq, Eq)]
pub struct SampleWindow<const N: usize> {
    pub samples: [Sample; N],
}

impl<const N: usize> View for SampleWindow<N> {
    type V = Seq<Sample>;

    open spec fn view(&self) -> Seq<Sample> {
        self.samples@
    }
}

impl<const N: usize> SampleWindow<N> {
    /// A window of `N` silent samples.
    pub fn silent() -> (w: SampleWindow<N>)
        ensures
            w@ == silence_seq(N as nat),
    {
        let w = SampleWindow { samples: [Sample::silence();N] };
        assert(w@ =~= silence_seq(N as nat));
        w
    }

    /// The window that holds exactly these samples.
    pub fn from_array(samples: [Sample; N]) -> (w: SampleWindow<N>)
        ensures
            w@ == samples@,
    {
        SampleWindow { samples }
    }

    /// The number of samples in the window, which is `N`.
    pub fn len(&self) -> (n: usize)
        ensures
            n == N,
            n == self@.len(),
    {
        N
    }

    /// The sample at `index`, or `None` beyond the window.
    pub fn get(&self, index: usize) -> (s: Option<Sample>)
        ensures
            s == if index < N {
                Some(self@[index as int])
            } else {
                None
            },
    {
        if index < N {
            Some(self.samples[index])
        } else {
            None
        }
    }

    /// Whether every sample of the window is silent.
    pub fn is_silent(&self) -> (b: bool)
        ensures
            b == (self@ == silence_seq(N as nat)),
    {
        let mut i: usize = 0;
        while i < N
            invariant
                i <= N,
                self.samples@.len() == N,
                forall|j: int| 0 <= j < i ==> #[trigger] self.samples@[j] == Sample::spec_silence(),
            decreases N - i,
        {
            if !self.samples[i].is_silence() {
                assert(silence_seq(N as nat)[i as int] == Sample::spec_silence());
                return false;
            }
            i += 1;
        }
        assert(self@ =~= silence_seq(N as nat));
        true
    }

    /// Copies the first samples of `src` over the front of the window: as many
    /// as both hold. The rest of the window keeps what it had. Returns the
    /// number of samples copied.
    pub fn fill_from(&mut self, src: &[Sample]) -> (copied: usize)
        ensures
            final(self)@ == overlay(old(self)@, src@),
            copied == if src@.len() < N {
                src@.len()
            } else {
                N as nat
            },
    {
        let ghost orig = self.samples@;
        let mut i: usize = 0;
        while i < N && i < src.len()
            invariant
                i <= N,
                i <= src@.len(),
                orig.len() == N,
                self.samples@.len() == N,
                forall|j: int|
                    0 <= j < N ==> #[trigger] self.samples@[j] == (if j < i {
                        src@[j]
                    } else {
                        orig[j]
                    }),
            decreases N - i,
        {
            self.samples[i] = src[i];
            i += 1;
        }
        assert(self@ =~= overlay(orig, src@));
        i
    }
}

} // verus!
