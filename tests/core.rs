use pitch_shift::{
    accepts_bin, even_multiple, frame_size_for, half_size, last_writers, last_writers_into, ConfigError, FrameStream, Hop,
    StreamError,
};

/// Runs `input` through `stream` with a kernel that adds the input frame to
/// the accumulator, the way the overlap-add adds a resynthesised frame.
fn drive(stream: &mut FrameStream<i64>, over_sampling: usize, input: &[i64]) -> Result<Vec<i64>, StreamError> {
    let hop = stream.begin(over_sampling, input.len(), input.len())?;
    let mut out = Vec::new();
    for &x in input {
        let (y, frame) = stream.push(&hop, x);
        out.push(y);
        if frame {
            let summed: Vec<i64> =
                stream.accumulator().iter().zip(stream.input_frame().iter()).map(|(a, b)| a + b).collect();
            stream.complete_frame(&hop, &summed);
        }
    }
    Ok(out)
}

#[test]
fn sizing_rounds_odd_frame_up_to_even() {
    assert_eq!(frame_size_for(50, 44100), Ok(2206));
}

#[test]
fn sizing_even_frame_kept() {
    assert_eq!(frame_size_for(50, 48000), Ok(2400));
}

#[test]
fn sizing_rounds_to_nearest_sample() {
    // 1 ms at 1500 Hz is 1.5 samples: rounds to 2.
    assert_eq!(frame_size_for(1, 1500), Ok(2));
    // 1 ms at 1499 Hz is 1.499 samples: rounds to 1, then up to 2.
    assert_eq!(frame_size_for(1, 1499), Ok(2));
    // 3 ms at 1000 Hz: 3 samples, up to 4.
    assert_eq!(frame_size_for(3, 1000), Ok(4));
}

#[test]
fn sizing_zero_frame_rejected() {
    assert_eq!(frame_size_for(0, 44100), Err(ConfigError::ZeroFrameSize));
    assert_eq!(frame_size_for(1, 499), Err(ConfigError::ZeroFrameSize));
}

#[test]
fn sizing_overflow_rejected() {
    assert_eq!(frame_size_for(usize::MAX, 2), Err(ConfigError::SizeOverflow));
}

#[test]
fn half_size_counts_bins() {
    assert_eq!(half_size(2206), 1104);
    assert_eq!(half_size(4), 3);
}

#[test]
fn hop_derivation() {
    let h = Hop::new(2206, 16).unwrap();
    assert_eq!(h.step, 137);
    assert_eq!(h.fifo_latency, 2069);
    assert_eq!(Hop::new(2206, 0), Err(ConfigError::ZeroOversampling));
    assert_eq!(Hop::new(4, 5), Err(ConfigError::OversamplingTooLarge));
    let h = Hop::new(4, 4).unwrap();
    assert_eq!((h.step, h.fifo_latency), (1, 3));
}

#[test]
fn parity_correction() {
    assert_eq!(even_multiple(0), 0);
    assert_eq!(even_multiple(2), 2);
    assert_eq!(even_multiple(3), 4);
    assert_eq!(even_multiple(1), 2);
    assert_eq!(even_multiple(-1), -2);
    assert_eq!(even_multiple(-3), -4);
    assert_eq!(even_multiple(-4), -4);
    assert_eq!(even_multiple(i64::MIN), i64::MIN);
}

#[test]
fn bins_outside_spectrum_rejected() {
    assert!(accepts_bin(0, 3));
    assert!(accepts_bin(2, 3));
    assert!(!accepts_bin(3, 3));
    assert!(!accepts_bin(100, 3));
}

#[test]
fn last_writer_wins_on_collision() {
    // Source bins 1 and 2 both land on bin 2; bin 3 lands outside.
    let targets = vec![0, 2, 2, 5];
    let r = last_writers(&targets, 4);
    assert_eq!(r, vec![Some(0), None, Some(2), None]);
}

#[test]
fn last_writers_into_overwrites_every_slot() {
    let mut out = vec![Some(9), Some(9), Some(9), Some(9)];
    last_writers_into(&vec![0, 2, 2, 5], &mut out);
    assert_eq!(out, vec![Some(0), None, Some(2), None]);
}

#[test]
fn accumulator_spans_two_frames() {
    let s = FrameStream::new(6, 0i64);
    assert_eq!(s.accumulator().len(), 12);
    assert_eq!(s.input_frame().len(), 6);
}

#[test]
fn octave_up_never_writes_past_spectrum() {
    // Targets of an octave up and of a ratio of eight, on a spectrum of five bins.
    for ratio in [2usize, 8] {
        let targets: Vec<usize> = (0..5).map(|k| k * ratio).collect();
        let r = last_writers(&targets, 5);
        assert_eq!(r.len(), 5);
        for (j, w) in r.iter().enumerate() {
            if let Some(k) = w {
                assert_eq!(targets[*k], j);
                assert!(targets[*k] < 5);
            }
        }
    }
    assert_eq!(last_writers(&vec![0, 2, 4, 6, 8], 5), vec![Some(0), None, Some(1), None, Some(2)]);
}

#[test]
fn stream_overlap_add_by_hand() {
    let mut s = FrameStream::new(4, 0i64);
    let out = drive(&mut s, 2, &[1, 2, 3, 4, 5, 6, 7, 8]).unwrap();
    assert_eq!(out, vec![0, 0, 0, 0, 2, 4, 6, 8]);
    assert_eq!(s.accumulator(), &vec![7, 8, 0, 0, 0, 0, 0, 0]);
    assert_eq!(s.input_frame(), &vec![7, 8, 7, 8]);
}

#[test]
fn stream_chunks_match_single_call() {
    let input: Vec<i64> = (1..=40).map(|v| v * 3 - 7).collect();
    let mut whole = FrameStream::new(8, 0i64);
    let expected = drive(&mut whole, 4, &input).unwrap();
    for split in [&[0usize, 40][..], &[3, 3, 0, 17, 17], &[1, 1, 1, 7, 29, 1]] {
        let mut s = FrameStream::new(8, 0i64);
        let mut got = Vec::new();
        let mut pos = 0;
        for &n in split {
            got.extend(drive(&mut s, 4, &input[pos..pos + n]).unwrap());
            pos += n;
        }
        if pos < input.len() {
            got.extend(drive(&mut s, 4, &input[pos..]).unwrap());
        }
        assert_eq!(got, expected);
        assert_eq!(s.accumulator(), whole.accumulator());
        assert_eq!(s.input_frame(), whole.input_frame());
    }
}

#[test]
fn stream_empty_input_changes_nothing() {
    let mut s = FrameStream::new(6, 0i64);
    drive(&mut s, 3, &[4, 5, 6, 7, 8]).unwrap();
    let acc = s.accumulator().clone();
    let frame = s.input_frame().clone();
    assert_eq!(drive(&mut s, 3, &[]).unwrap(), Vec::<i64>::new());
    assert_eq!(s.accumulator(), &acc);
    assert_eq!(s.input_frame(), &frame);
    assert!(!s.frame_pending());
    // A fresh engine stays fresh too: the next sample still starts at the latency.
    let mut fresh = FrameStream::new(4, 0i64);
    drive(&mut fresh, 2, &[]).unwrap();
    assert_eq!(drive(&mut fresh, 2, &[1, 2, 3, 4, 5]).unwrap(), vec![0, 0, 0, 0, 2]);
}

#[test]
fn stream_rejects_mismatched_lengths() {
    let mut s = FrameStream::new(4, 0i64);
    drive(&mut s, 2, &[1, 2, 3]).unwrap();
    assert_eq!(s.begin(2, 3, 4), Err(StreamError::LengthMismatch));
    assert_eq!(s.begin(0, 3, 4), Err(StreamError::Config(ConfigError::ZeroOversampling)));
    assert_eq!(s.begin(5, 3, 4), Err(StreamError::LengthMismatch));
    // Nothing moved: the stream continues as if the call never happened.
    assert_eq!(drive(&mut s, 2, &[4, 5, 6, 7, 8]).unwrap(), vec![0, 2, 4, 6, 8]);
}

#[test]
fn stream_rejects_bad_oversampling() {
    let s = FrameStream::new(4, 0.0f32);
    assert_eq!(s.begin(0, 2, 2), Err(StreamError::Config(ConfigError::ZeroOversampling)));
    assert_eq!(s.begin(5, 2, 2), Err(StreamError::Config(ConfigError::OversamplingTooLarge)));
    assert!(s.begin(4, 2, 2).is_ok());
}

#[test]
fn stream_rejects_latency_conflict() {
    // Two-fold oversampling of eight samples: the cursor starts at 4 and is 5 after one sample.
    let mut s = FrameStream::new(8, 0i64);
    drive(&mut s, 2, &[1]).unwrap();
    // Eight-fold oversampling asks for a latency of 7.
    assert_eq!(s.begin(8, 1, 1), Err(StreamError::LatencyConflict));
    assert!(s.begin(2, 1, 1).is_ok());
    // A fresh engine takes any factor; a larger latency may give way to a smaller one.
    let mut t = FrameStream::new(8, 0i64);
    assert_eq!(t.begin(8, 1, 1).map(|h| h.fifo_latency), Ok(7));
    drive(&mut t, 8, &[1]).unwrap();
    assert_eq!(t.begin(2, 1, 1).map(|h| h.step), Ok(4));
}

#[test]
fn stream_frame_pending_until_completed() {
    let mut s = FrameStream::new(4, 0i64);
    let hop = s.begin(2, 2, 2).unwrap();
    assert_eq!(s.push(&hop, 1), (0, false));
    assert_eq!(s.push(&hop, 2), (0, true));
    assert!(s.frame_pending());
    assert_eq!(s.begin(2, 2, 2), Err(StreamError::FramePending));
    let summed = vec![9, 9, 9, 9];
    s.complete_frame(&hop, &summed);
    assert!(!s.frame_pending());
    assert_eq!(s.push(&hop, 3), (9, false));
}
