use vstd::prelude::*;

verus! {

/// A configuration that cannot drive the engine.
#[derive(Debug, Clone, Copy, PartialEq, Eq, Structural)]
pub enum ConfigError {
    /// `sample_rate * window_duration_ms` does not fit in a `usize`.
    SizeOverflow,
    /// The window is shorter than one sample.
    ZeroFrameSize,
    /// An oversampling factor of zero.
    ZeroOversampling,
    /// More oversampling than the frame has samples: the hop would be empty.
    OversamplingTooLarge,
}

/// `x / 1000` rounded to the nearest integer, halves rounded up.
pub open spec fn rounded_thousandth(x: nat) -> nat {
    if x % 1000 >= 500 {
        x / 1000 + 1
    } else {
        x / 1000
    }
}

/// Frame length in samples for a window of `window_duration_ms` at
/// `sample_rate`: the rounded sample count, moved up to the next even number.
pub open spec fn frame_size_spec(window_duration_ms: nat, sample_rate: nat) -> nat {
    let n = rounded_thousandth(sample_rate * window_duration_ms);
    if n % 2 == 1 {
        n + 1
    } else {
        n
    }
}

/// The frame length is the sample count of the window rounded to the nearest
/// integer (`r`, within half a sample of `sample_rate * window_duration_ms / 1000`),
/// moved up to the next even number: it is even, and `r` or `r + 1`.
pub proof fn lemma_frame_size_rounds_then_evens(window_duration_ms: nat, sample_rate: nat)
    ensures
        ({
            let x = sample_rate * window_duration_ms;
            let r = rounded_thousandth(x);
            let fs = frame_size_spec(window_duration_ms, sample_rate);
            &&& 1000 * r <= x + 500
            &&& x < 1000 * r + 500
            &&& fs == r + r % 2
            &&& fs % 2 == 0
            &&& r <= fs <= r + 1
        }),
{
    let x = sample_rate * window_duration_ms;
    assert(x == 1000 * (x / 1000) + x % 1000) by (nonlinear_arith);
}

/// Computes the frame length for a window duration and a sample rate.
pub fn frame_size_for(window_duration_ms: usize, sample_rate: usize) -> (r: Result<usize, ConfigError>)
    ensures
        sample_rate * window_duration_ms > usize::MAX <==> r == Err::<usize, ConfigError>(ConfigError::SizeOverflow),
        sample_rate * window_duration_ms <= usize::MAX && frame_size_spec(window_duration_ms as nat, sample_rate as nat) == 0
            <==> r == Err::<usize, ConfigError>(ConfigError::ZeroFrameSize),
        sample_rate * window_duration_ms <= usize::MAX && frame_size_spec(window_duration_ms as nat, sample_rate as nat) > 0
            <==> r == Ok::<usize, ConfigError>(frame_size_spec(window_duration_ms as nat, sample_rate as nat) as usize),
        r matches Ok(fs) ==> fs % 2 == 0 && fs <= usize::MAX / 2,
{
    let product = sample_rate.checked_mul(window_duration_ms);
    match product {
        None => Err(ConfigError::SizeOverflow),
        Some(n) => {
            let mut frame_size: usize = n / 1000;
            if n % 1000 >= 500 {
                frame_size = frame_size + 1;
            }
            if frame_size % 2 == 1 {
                frame_size = frame_size + 1;
            }
            if frame_size == 0 {
                Err(ConfigError::ZeroFrameSize)
            } else {
                Ok(frame_size)
            }
        },
    }
}

/// Number of complex bins a real transform of `frame_size` samples produces.
pub fn half_size(frame_size: usize) -> (r: usize)
    ensures
        r == frame_size / 2 + 1,
{
    frame_size / 2 + 1
}

/// The hop schedule of one processing call: frames of `frame_size` samples,
/// advanced by `step` samples, so that `fifo_latency` samples are buffered.
#[derive(Debug, Clone, Copy, PartialEq, Eq, Structural)]
pub struct Hop {
    pub frame_size: usize,
    pub over_sampling: usize,
    pub step: usize,
    pub fifo_latency: usize,
}

impl Hop {
    /// The schedule that `new` builds from a frame size and an oversampling factor.
    pub open spec fn wf(self) -> bool {
        &&& self.frame_size > 0
        &&& self.over_sampling > 0
        &&& self.step == self.frame_size / self.over_sampling
        &&& self.step > 0
        &&& self.fifo_latency == self.frame_size - self.step
    }

    /// Derives the hop from the frame size; `step` is the integer quotient of
    /// the frame size by the oversampling factor.
    pub fn new(frame_size: usize, over_sampling: usize) -> (r: Result<Hop, ConfigError>)
        requires
            frame_size > 0,
        ensures
            over_sampling == 0 <==> r == Err::<Hop, ConfigError>(ConfigError::ZeroOversampling),
            over_sampling > frame_size <==> r == Err::<Hop, ConfigError>(ConfigError::OversamplingTooLarge),
            r is Ok <==> 0 < over_sampling <= frame_size,
            r matches Ok(h) ==> h.wf() && h.frame_size == frame_size && h.over_sampling == over_sampling,
    {
        if over_sampling == 0 {
            return Err(ConfigError::ZeroOversampling);
        }
        if over_sampling > frame_size {
            return Err(ConfigError::OversamplingTooLarge);
        }
        let step = frame_size / over_sampling;
        assert(step > 0) by (nonlinear_arith)
            requires step == frame_size / over_sampling, 0 < over_sampling <= frame_size;
        assert(step <= frame_size) by (nonlinear_arith)
            requires step == frame_size / over_sampling, 0 < over_sampling;
        Ok(Hop { frame_size, over_sampling, step, fifo_latency: frame_size - step })
    }
}

} // verus!
