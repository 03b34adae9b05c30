use vstd::prelude::*;
use crate::sizing::{ConfigError, Hop};

verus! {

/// Why a processing call is refused; the engine is left untouched.
#[derive(Debug, Clone, Copy, PartialEq, Eq, Structural)]
pub enum StreamError {
    /// The input and output buffers differ in length.
    LengthMismatch,
    /// The oversampling factor does not fit the frame size.
    Config(ConfigError),
    /// The cursor left by earlier calls lies before the latency that this
    /// call's oversampling factor asks for.
    LatencyConflict,
    /// A completed frame still waits for its overlap-add.
    FramePending,
}

/// The state of the streaming buffers, as mathematical sequences.
pub struct StreamModel<T> {
    pub frame_size: nat,
    /// Next FIFO position to fill; zero before the first sample.
    pub cursor: nat,
    /// A frame boundary was reached and its overlap-add is owed.
    pub pending: bool,
    pub in_fifo: Seq<T>,
    pub out_fifo: Seq<T>,
    pub accumulator: Seq<T>,
    /// The value that fresh buffers and shifted-in accumulator slots hold.
    pub zero: T,
}

impl<T> StreamModel<T> {
    pub open spec fn wf(self) -> bool {
        &&& self.frame_size > 0
        &&& self.cursor < self.frame_size
        &&& self.in_fifo.len() == self.frame_size
        &&& self.out_fifo.len() == self.frame_size
        &&& 2 * self.frame_size <= usize::MAX
        &&& self.accumulator.len() == 2 * self.frame_size
        &&& self.upper_accumulator_empty()
    }

    /// The upper frame of the accumulator holds `zero` only.
    pub open spec fn upper_accumulator_empty(self) -> bool {
        forall|i: int| self.frame_size <= i < 2 * self.frame_size ==> #[trigger] self.accumulator[i] == self.zero
    }

    /// A sample may be pushed under `hop`.
    pub open spec fn ready(self, hop: Hop) -> bool {
        &&& self.wf()
        &&& hop.wf()
        &&& hop.frame_size == self.frame_size
        &&& !self.pending
        &&& (self.cursor == 0 || hop.fifo_latency <= self.cursor)
    }
}

/// The state of a fresh engine with frames of `frame_size` samples.
pub open spec fn initial_model<T>(frame_size: nat, zero: T) -> StreamModel<T> {
    StreamModel {
        frame_size,
        cursor: 0,
        pending: false,
        in_fifo: Seq::new(frame_size, |i: int| zero),
        out_fifo: Seq::new(frame_size, |i: int| zero),
        accumulator: Seq::new(2 * frame_size, |i: int| zero),
        zero,
    }
}

/// Where the next sample goes: a fresh engine starts at the latency.
pub open spec fn start_cursor<T>(s: StreamModel<T>, hop: Hop) -> nat {
    if s.cursor == 0 {
        hop.fifo_latency as nat
    } else {
        s.cursor
    }
}

/// One sample in: it is stored at the cursor, and the output FIFO yields the
/// sample `fifo_latency` positions behind it. When the cursor reaches the end
/// of the frame it returns to the latency and a frame becomes pending.
pub open spec fn push_model<T>(s: StreamModel<T>, hop: Hop, x: T) -> (StreamModel<T>, T) {
    let c = start_cursor(s, hop);
    let next = c + 1;
    (
        StreamModel {
            frame_size: s.frame_size,
            cursor: if next >= s.frame_size { hop.fifo_latency as nat } else { next },
            pending: next >= s.frame_size,
            in_fifo: s.in_fifo.update(c as int, x),
            out_fifo: s.out_fifo,
            accumulator: s.accumulator,
            zero: s.zero,
        },
        s.out_fifo[c - hop.fifo_latency],
    )
}

/// The end of a frame, given the lower frame of the accumulator with the
/// frame's contribution added (`summed`): its first `step` samples become
/// output, the accumulator moves left by `step` (its upper frame staying as
/// it is), and the input FIFO moves left by `step`.
pub open spec fn complete_model<T>(s: StreamModel<T>, hop: Hop, summed: Seq<T>) -> StreamModel<T> {
    StreamModel {
        frame_size: s.frame_size,
        cursor: s.cursor,
        pending: false,
        in_fifo: s.in_fifo.subrange(hop.step as int, s.frame_size as int) + s.in_fifo.subrange(
            hop.fifo_latency as int,
            s.frame_size as int,
        ),
        out_fifo: summed.subrange(0, hop.step as int) + s.out_fifo.subrange(hop.step as int, s.frame_size as int),
        accumulator: (summed + s.accumulator.subrange(s.frame_size as int, 2 * s.frame_size as int)).subrange(
            hop.step as int,
            hop.step + s.frame_size as int,
        ) + s.accumulator.subrange(s.frame_size as int, 2 * s.frame_size as int),
        zero: s.zero,
    }
}

/// The streaming buffers of one engine: input and output FIFOs of one frame
/// each, the overlap-add accumulator, and the cursor that walks them.
///
/// The accumulator holds two frames of samples. A frame's contribution lands
/// in the lower frame only; the upper frame supplies the empty slots that each
/// shift brings in, and always holds `zero`.
pub struct FrameStream<T> {
    frame_size: usize,
    cursor: usize,
    pending: bool,
    in_fifo: Vec<T>,
    out_fifo: Vec<T>,
    accumulator: Vec<T>,
    zero: T,
}

impl<T: Copy> FrameStream<T> {
    pub closed spec fn view(&self) -> StreamModel<T> {
        StreamModel {
            frame_size: self.frame_size as nat,
            cursor: self.cursor as nat,
            pending: self.pending,
            in_fifo: self.in_fifo@,
            out_fifo: self.out_fifo@,
            accumulator: self.accumulator@,
            zero: self.zero,
        }
    }

    /// Buffers for frames of `frame_size` samples, all holding `zero`.
    pub fn new(frame_size: usize, zero: T) -> (r: Self)
        requires
            0 < frame_size <= usize::MAX / 2,
        ensures
            r.view() == initial_model(frame_size as nat, zero),
            r.view().wf(),
    {
        let r = FrameStream {
            frame_size,
            cursor: 0,
            pending: false,
            in_fifo: filled(frame_size, zero),
            out_fifo: filled(frame_size, zero),
            accumulator: filled(2 * frame_size, zero),
            zero,
        };
        assert(r.view().in_fifo =~= initial_model(frame_size as nat, zero).in_fifo);
        assert(r.view().out_fifo =~= initial_model(frame_size as nat, zero).out_fifo);
        assert(r.view().accumulator =~= initial_model(frame_size as nat, zero).accumulator);
        r
    }

    pub fn frame_size(&self) -> (r: usize)
        ensures
            r == self.view().frame_size,
    {
        self.frame_size
    }

    /// Whether a frame waits for `complete_frame`.
    pub fn frame_pending(&self) -> (r: bool)
        ensures
            r == self.view().pending,
    {
        self.pending
    }

    /// The input FIFO: the frame to analyse when one is pending.
    pub fn input_frame(&self) -> (r: &Vec<T>)
        ensures
            r@ == self.view().in_fifo,
    {
        &self.in_fifo
    }

    /// The overlap-add accumulator, to which a pending frame's output is added.
    pub fn accumulator(&self) -> (r: &Vec<T>)
        ensures
            r@ == self.view().accumulator,
    {
        &self.accumulator
    }

    /// Checks a processing call before anything is changed: a zero
    /// oversampling factor first, whatever the buffers; then the buffer
    /// lengths; then an oversampling factor larger than the frame; then the
    /// cursor and a pending frame.
    pub fn begin(&self, over_sampling: usize, in_len: usize, out_len: usize) -> (r: Result<Hop, StreamError>)
        requires
            self.view().wf(),
        ensures
            over_sampling == 0
                <==> r == Err::<Hop, StreamError>(StreamError::Config(ConfigError::ZeroOversampling)),
            over_sampling != 0 && in_len != out_len <==> r == Err::<Hop, StreamError>(StreamError::LengthMismatch),
            over_sampling != 0 && in_len == out_len && over_sampling > self.view().frame_size
                <==> r == Err::<Hop, StreamError>(StreamError::Config(ConfigError::OversamplingTooLarge)),
            in_len == out_len && 0 < over_sampling <= self.view().frame_size && self.view().cursor != 0
                && self.view().cursor < self.view().frame_size - self.view().frame_size / (over_sampling as nat)
                <==> r == Err::<Hop, StreamError>(StreamError::LatencyConflict),
            r == Err::<Hop, StreamError>(StreamError::FramePending) <==> in_len == out_len && 0 < over_sampling
                <= self.view().frame_size && !(self.view().cursor != 0 && self.view().cursor
                < self.view().frame_size - self.view().frame_size / (over_sampling as nat)) && self.view().pending,
            r is Ok <==> in_len == out_len && 0 < over_sampling <= self.view().frame_size && !(self.view().cursor
                != 0 && self.view().cursor < self.view().frame_size - self.view().frame_size / (over_sampling as nat))
                && !self.view().pending,
            r matches Ok(h) ==> h.frame_size == self.view().frame_size && h.over_sampling == over_sampling
                && self.view().ready(h),
    {
        if over_sampling == 0 {
            return Err(StreamError::Config(ConfigError::ZeroOversampling));
        }
        if in_len != out_len {
            return Err(StreamError::LengthMismatch);
        }
        let hop = match Hop::new(self.frame_size, over_sampling) {
            Ok(h) => h,
            Err(e) => {
                return Err(StreamError::Config(e));
            },
        };
        if self.cursor != 0 && self.cursor < hop.fifo_latency {
            return Err(StreamError::LatencyConflict);
        }
        if self.pending {
            return Err(StreamError::FramePending);
        }
        Ok(hop)
    }

    /// Pushes one input sample and returns the output sample it releases,
    /// and whether a frame is now pending.
    pub fn push(&mut self, hop: &Hop, x: T) -> (r: (T, bool))
        requires
            old(self).view().ready(*hop),
        ensures
            final(self).view() == push_model(old(self).view(), *hop, x).0,
            r.0 == push_model(old(self).view(), *hop, x).1,
            r.1 == final(self).view().pending,
            final(self).view().wf(),
            !r.1 ==> final(self).view().ready(*hop),
            r.1 ==> final(self).view().cursor == hop.fifo_latency,
    {
        let c = if self.cursor == 0 {
            hop.fifo_latency
        } else {
            self.cursor
        };
        self.in_fifo.set(c, x);
        let y = self.out_fifo[c - hop.fifo_latency];
        let next = c + 1;
        if next >= self.frame_size {
            self.cursor = hop.fifo_latency;
            self.pending = true;
        } else {
            self.cursor = next;
        }
        (y, self.pending)
    }

    /// Finishes a pending frame from the lower frame of the accumulator with
    /// that frame's contribution added: releases `step` samples to the output
    /// FIFO and moves the accumulator and the input FIFO left by `step`.
    pub fn complete_frame(&mut self, hop: &Hop, summed: &Vec<T>)
        requires
            old(self).view().wf(),
            old(self).view().pending,
            hop.wf(),
            hop.frame_size == old(self).view().frame_size,
            old(self).view().cursor == hop.fifo_latency,
            summed@.len() == hop.frame_size,
        ensures
            final(self).view() == complete_model(old(self).view(), *hop, summed@),
            final(self).view().ready(*hop),
            final(self).view().upper_accumulator_empty(),
    {
        let ghost s0 = self.view();
        let fs = self.frame_size;
        let step = hop.step;
        let latency = hop.fifo_latency;
        let mut i: usize = 0;
        while i < step
            invariant
                hop.wf(),
                fs == hop.frame_size,
                step == hop.step,
                i <= step,
                summed@.len() == fs,
                self.out_fifo@.len() == fs,
                forall|j: int| 0 <= j < i ==> self.out_fifo@[j] == summed@[j],
                forall|j: int| i <= j < fs ==> self.out_fifo@[j] == s0.out_fifo[j],
                s0.wf(),
                s0.frame_size == fs,
                self.frame_size == fs,
                self.cursor == s0.cursor,
                self.pending == s0.pending,
                self.accumulator@ == s0.accumulator,
                self.in_fifo@ == s0.in_fifo,
                self.zero == s0.zero,
            decreases step - i,
        {
            self.out_fifo.set(i, summed[i]);
            i = i + 1;
        }
        let mut i: usize = 0;
        while i < fs
            invariant
                hop.wf(),
                fs == hop.frame_size,
                step == hop.step,
                latency == hop.fifo_latency,
                i <= fs,
                summed@.len() == fs,
                self.accumulator@.len() == 2 * fs,
                forall|j: int| 0 <= j < i && j < latency ==> self.accumulator@[j] == summed@[j + step],
                forall|j: int| 0 <= j < i && latency <= j ==> self.accumulator@[j] == s0.accumulator[j + step],
                forall|j: int| i <= j < 2 * fs ==> self.accumulator@[j] == s0.accumulator[j],
                s0.wf(),
                s0.frame_size == fs,
                self.frame_size == fs,
                self.cursor == s0.cursor,
                self.pending == s0.pending,
                self.out_fifo@.len() == fs,
                forall|j: int| 0 <= j < step ==> self.out_fifo@[j] == summed@[j],
                forall|j: int| step <= j < fs ==> self.out_fifo@[j] == s0.out_fifo[j],
                self.in_fifo@ == s0.in_fifo,
                self.zero == s0.zero,
            decreases fs - i,
        {
            let v = if i < latency {
                summed[i + step]
            } else {
                self.accumulator[i + step]
            };
            self.accumulator.set(i, v);
            i = i + 1;
        }
        let mut i: usize = 0;
        while i < latency
            invariant
                hop.wf(),
                fs == hop.frame_size,
                step == hop.step,
                latency == hop.fifo_latency,
                i <= latency,
                self.in_fifo@.len() == fs,
                s0.in_fifo.len() == fs,
                forall|j: int| 0 <= j < i ==> self.in_fifo@[j] == s0.in_fifo[j + step],
                forall|j: int| i <= j < fs ==> self.in_fifo@[j] == s0.in_fifo[j],
                s0.wf(),
                s0.frame_size == fs,
                self.frame_size == fs,
                self.cursor == s0.cursor,
                self.pending == s0.pending,
                summed@.len() == fs,
                self.out_fifo@.len() == fs,
                forall|j: int| 0 <= j < step ==> self.out_fifo@[j] == summed@[j],
                forall|j: int| step <= j < fs ==> self.out_fifo@[j] == s0.out_fifo[j],
                self.accumulator@.len() == 2 * fs,
                forall|j: int| 0 <= j < latency ==> self.accumulator@[j] == summed@[j + step],
                forall|j: int| latency <= j < fs ==> self.accumulator@[j] == s0.accumulator[j + step],
                forall|j: int| fs <= j < 2 * fs ==> self.accumulator@[j] == s0.accumulator[j],
                self.zero == s0.zero,
            decreases latency - i,
        {
            let v = self.in_fifo[i + step];
            self.in_fifo.set(i, v);
            i = i + 1;
        }
        self.pending = false;
        proof {
            let m = complete_model(s0, *hop, summed@);
            assert(self.view().in_fifo =~= m.in_fifo);
            assert(self.view().out_fifo =~= m.out_fifo);
            assert(self.view().accumulator =~= m.accumulator);
            assert forall|j: int| fs <= j < 2 * fs implies #[trigger] self.view().accumulator[j] == self.zero by {
                assert(s0.accumulator[j] == s0.zero);
            }
        }
    }
}

/// A vector of `n` copies of `v`.
fn filled<T: Copy>(n: usize, v: T) -> (r: Vec<T>)
    ensures
        r@ == Seq::new(n as nat, |i: int| v),
{
    let mut r: Vec<T> = Vec::new();
    let mut i: usize = 0;
    while i < n
        invariant
            i <= n,
            r@ == Seq::new(i as nat, |j: int| v),
        decreases n - i,
    {
        r.push(v);
        i = i + 1;
        assert(r@ =~= Seq::new(i as nat, |j: int| v));
    }
    r
}

/// A frame kernel: from its own state, the input FIFO and the accumulator, to
/// its next state and the accumulator with the frame's contribution added.
pub type Kernel<K, T> = spec_fn(K, Seq<T>, Seq<T>) -> (K, Seq<T>);

/// The engine run over `xs` sample by sample, with `kernel` completing each
/// frame as soon as it is pending: final state, final kernel state, output.
pub open spec fn run<T, K>(s: StreamModel<T>, k: K, hop: Hop, xs: Seq<T>, kernel: Kernel<K, T>) -> (
    StreamModel<T>,
    K,
    Seq<T>,
)
    decreases xs.len(),
{
    if xs.len() == 0 {
        (s, k, Seq::empty())
    } else {
        let before = run(s, k, hop, xs.drop_last(), kernel);
        let pushed = push_model(before.0, hop, xs.last());
        let s2 = pushed.0;
        if s2.pending {
            let done = kernel(before.1, s2.in_fifo, s2.accumulator);
            (complete_model(s2, hop, done.1), done.0, before.2.push(pushed.1))
        } else {
            (s2, before.1, before.2.push(pushed.1))
        }
    }
}

/// Feeding a stream in two calls gives the state and the output of one call
/// on the concatenation, whatever the kernel and wherever the split falls.
pub proof fn lemma_chunk_invariance<T, K>(
    s: StreamModel<T>,
    k: K,
    hop: Hop,
    a: Seq<T>,
    b: Seq<T>,
    kernel: Kernel<K, T>,
)
    ensures
        ({
            let first = run(s, k, hop, a, kernel);
            let second = run(first.0, first.1, hop, b, kernel);
            run(s, k, hop, a + b, kernel) == (second.0, second.1, first.2 + second.2)
        }),
    decreases b.len(),
{
    let first = run(s, k, hop, a, kernel);
    if b.len() == 0 {
        assert(a + b =~= a);
        assert(first.2 + Seq::<T>::empty() =~= first.2);
    } else {
        assert((a + b).drop_last() =~= a + b.drop_last());
        assert((a + b).last() == b.last());
        lemma_chunk_invariance(s, k, hop, a, b.drop_last(), kernel);
        let mid = run(first.0, first.1, hop, b.drop_last(), kernel);
        let pushed = push_model(mid.0, hop, b.last());
        assert((first.2 + mid.2).push(pushed.1) =~= first.2 + mid.2.push(pushed.1));
    }
}

/// An empty input leaves the engine, the kernel state and the output as they were.
pub proof fn lemma_empty_input_no_op<T, K>(s: StreamModel<T>, k: K, hop: Hop, kernel: Kernel<K, T>)
    ensures
        run(s, k, hop, Seq::<T>::empty(), kernel) == (s, k, Seq::<T>::empty()),
{
}

} // verus!
