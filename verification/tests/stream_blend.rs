use adh_rs::error::Error;
use adh_rs::samples::{BlendType, BlendingSamples, BlendingSamplesIterator, Sample, StepOutput, StereoSamples, BLEND_WINDOW, CHUNK_SAMPLES};

/// Turns a float buffer into a chunk of its bit patterns.
fn chunk_of(values: &[f32]) -> Sample {
    let bits: Vec<u32> = values.iter().map(|v| v.to_bits()).collect();
    let n = bits.len();
    Sample::with_length(bits, n).unwrap()
}

/// Performs the numeric side of one engine step, as the audio shell does:
/// raw samples pass through, mixes interpolate with parameter
/// `(pos + 1) / window` shaped by the blend curve.
fn mix(out: StepOutput) -> f32 {
    match out {
        StepOutput::Raw(b) => f32::from_bits(b),
        StepOutput::Mix { first, second, pos, window, blend } => {
            let t = (pos as f32 + 1.0) / window as f32;
            let weight = match blend {
                BlendType::Linear => t,
                BlendType::Sigmoid => {
                    let x = 12.0 * t - 6.0;
                    1.0 / (1.0 + f32::powf(std::f32::consts::E, -x))
                }
            };
            lerp::Lerp::lerp(f32::from_bits(first), f32::from_bits(second), weight)
        }
    }
}

#[test]
fn blend_small_scenario() {
    // Chunk length 8, blend window 2, linear curve.
    let a = chunk_of(&[1.0, 1.0, 1.0, 1.0, 1.0, 1.0, 0.0, 0.0]);
    let b = chunk_of(&[2.0; 8]);
    let mut it = BlendingSamplesIterator::new_with_window(vec![a, b], BlendType::Linear, 2).unwrap();

    let expected = [1.0f32, 1.0, 1.0, 1.0, 1.0, 1.0, 1.0, 2.0];
    for (k, &want) in expected.iter().enumerate() {
        let got = mix(it.next());
        assert_eq!(got, want, "step {}", k);
    }
    // The ninth step draws from the second chunk directly.
    let ninth = it.next();
    assert_eq!(ninth, StepOutput::Raw(2.0f32.to_bits()));
    assert_eq!(mix(ninth), 2.0);
}

#[test]
fn blend_needs_two_chunks() {
    let a = chunk_of(&[0.5; 8]);
    let r = BlendingSamplesIterator::new_with_window(vec![a], BlendType::Linear, 2);
    assert!(matches!(r, Err(Error::TooFewChunks)));
}

#[test]
fn blend_collection_of_one_chunk_fails() {
    let a = chunk_of(&[0.5; 8]);
    let r = BlendingSamples::new(vec![a])
        .unwrap()
        .with_blend(BlendType::Linear)
        .into_iter();
    assert!(matches!(r, Err(Error::TooFewChunks)));
}

#[test]
fn empty_chunk_list_fails() {
    assert!(matches!(BlendingSamples::new(vec![]), Err(Error::EmptyChunks)));
}

#[test]
fn blend_rejects_chunks_shorter_than_two_windows() {
    let a = chunk_of(&[0.5; 8]);
    let b = chunk_of(&[0.5; 8]);
    let r = BlendingSamplesIterator::new_with_window(vec![a, b], BlendType::Linear, 4);
    assert!(matches!(r, Err(Error::ChunkTooShort)));
}

#[test]
fn blend_rejects_zero_window() {
    let a = chunk_of(&[0.5; 8]);
    let b = chunk_of(&[0.5; 8]);
    let r = BlendingSamplesIterator::new_with_window(vec![a, b], BlendType::Linear, 0);
    assert!(matches!(r, Err(Error::ZeroWindow)));
}

#[test]
fn steady_state_is_raw() {
    // Outside the trailing window of each chunk, samples pass through
    // verbatim.
    let a: Vec<f32> = (0..32).map(|i| i as f32 / 32.0).collect();
    let b: Vec<f32> = (0..32).map(|i| -(i as f32) / 32.0).collect();
    let mut it =
        BlendingSamplesIterator::new_with_window(vec![chunk_of(&a), chunk_of(&b)], BlendType::Linear, 5)
            .unwrap();
    for k in 0..27 {
        let out = it.next();
        assert_eq!(out, StepOutput::Raw(a[k].to_bits()), "step {}", k);
    }
    for k in 27..32 {
        let out = it.next();
        assert!(
            matches!(out, StepOutput::Mix { .. }),
            "step {} should mix, got {:?}",
            k,
            out
        );
    }
    // Second tenure: the former next chunk continues after its first window.
    for k in 5..27 {
        let out = it.next();
        assert_eq!(out, StepOutput::Raw(b[k].to_bits()), "second tenure step {}", k);
    }
}

#[test]
fn linear_midpoint_is_arithmetic_mean() {
    // Window of 4: its second step carries progress 2/4 = 1/2, and a linear
    // mix at one half is the arithmetic mean of the two sources.
    let mut a = vec![0.0f32; 16];
    a[13] = 0.25;
    let b = vec![0.75f32; 16];
    let mut it =
        BlendingSamplesIterator::new_with_window(vec![chunk_of(&a), chunk_of(&b)], BlendType::Linear, 4)
            .unwrap();
    for _ in 0..13 {
        it.next();
    }
    let out = it.next();
    match out {
        StepOutput::Mix { first, second, pos, window, .. } => {
            assert_eq!(pos, 1);
            assert_eq!(window, 4);
            assert_eq!(f32::from_bits(first), 0.25);
            assert_eq!(f32::from_bits(second), 0.75);
        }
        other => panic!("expected a mix, got {:?}", other),
    }
    assert_eq!(mix(out), (0.25 + 0.75) / 2.0);
}

#[test]
fn stream_never_ends() {
    // Ten full chunk lengths of steps always yield a value.
    let a = chunk_of(&[0.1; 64]);
    let b = chunk_of(&[0.2; 64]);
    let mut it =
        BlendingSamplesIterator::new_with_window(vec![a, b], BlendType::Sigmoid, 8).unwrap();
    for _ in 0..(10 * 64) {
        let v = mix(it.next());
        assert!(v.is_finite());
    }
}

#[test]
fn equal_constructions_agree() {
    // Two streams built from the same chunks, curve and window emit the
    // same outputs step for step.
    let a: Vec<f32> = (0..40).map(|i| (i as f32).sin()).collect();
    let b: Vec<f32> = (0..40).map(|i| (i as f32).cos()).collect();
    let mk = || {
        BlendingSamplesIterator::new_with_window(
            vec![chunk_of(&a), chunk_of(&b)],
            BlendType::Sigmoid,
            7,
        )
        .unwrap()
    };
    let mut s1 = mk();
    let mut s2 = mk();
    for k in 0..500 {
        let o1 = s1.next();
        let o2 = s2.next();
        assert_eq!(o1, o2, "step {}", k);
    }
}

#[test]
fn full_size_chunks_stream_with_the_default_window() {
    let a = Sample::new(vec![0.5f32.to_bits(); CHUNK_SAMPLES]).unwrap();
    let b = Sample::new(vec![(-0.5f32).to_bits(); CHUNK_SAMPLES]).unwrap();
    let mut stream: StereoSamples = BlendingSamples::new(vec![a, b])
        .unwrap()
        .with_blend(BlendType::Linear)
        .into_iter()
        .unwrap();
    // The whole first chunk outside its trailing window passes through raw.
    for _ in 0..(CHUNK_SAMPLES - BLEND_WINDOW) {
        assert_eq!(stream.next(), StepOutput::Raw(0.5f32.to_bits()));
    }
    // Inside the window the mix runs from the first chunk toward the second.
    for _ in 0..BLEND_WINDOW {
        assert!(matches!(stream.next(), StepOutput::Mix { .. }));
    }
    // Then the second chunk's steady state.
    for _ in 0..(CHUNK_SAMPLES - 2 * BLEND_WINDOW) {
        assert_eq!(stream.next(), StepOutput::Raw((-0.5f32).to_bits()));
    }
}

#[test]
fn rotation_cycles_through_all_chunks() {
    // With three chunks the stream returns to the first after one cycle.
    let a = chunk_of(&[1.0; 10]);
    let b = chunk_of(&[2.0; 10]);
    let c = chunk_of(&[3.0; 10]);
    let mut it =
        BlendingSamplesIterator::new_with_window(vec![a, b, c], BlendType::Linear, 2).unwrap();
    // First chunk: 8 raw steps of 1.0.
    for _ in 0..8 {
        assert_eq!(mix(it.next()), 1.0);
    }
    // Window into chunk two, then its steady state of 2.0.
    for _ in 0..2 {
        it.next();
    }
    for _ in 0..6 {
        assert_eq!(mix(it.next()), 2.0);
    }
    // Window into chunk three, then its steady state of 3.0.
    for _ in 0..2 {
        it.next();
    }
    for _ in 0..6 {
        assert_eq!(mix(it.next()), 3.0);
    }
    // Window back into chunk one: the cycle closes.
    for _ in 0..2 {
        it.next();
    }
    for _ in 0..6 {
        assert_eq!(mix(it.next()), 1.0);
    }
}
