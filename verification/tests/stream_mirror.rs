use adh_rs::samples::{BlendingSamples, MirrorSamplesIterator, Sample, StepOutput, StereoSamples};

fn chunk_of(values: &[f32]) -> Sample {
    let bits: Vec<u32> = values.iter().map(|v| v.to_bits()).collect();
    let n = bits.len();
    Sample::with_length(bits, n).unwrap()
}

#[test]
fn mirror_plays_forward_then_backward() {
    let samples = [1.0f32, 2.0, 3.0, 4.0, 5.0];
    let mut it = MirrorSamplesIterator::new(chunk_of(&samples));
    let mut got = Vec::new();
    for _ in 0..10 {
        got.push(f32::from_bits(it.next()));
    }
    // Forward, then backward, with the boundary samples from each direction
    // of travel.
    assert_eq!(got, vec![1.0, 2.0, 3.0, 4.0, 5.0, 5.0, 4.0, 3.0, 2.0, 1.0]);
}

#[test]
fn mirror_repeats_every_two_lengths() {
    let samples = [0.25f32, -0.5, 0.75];
    let mut it = MirrorSamplesIterator::new(chunk_of(&samples));
    let mut first_period = Vec::new();
    for _ in 0..6 {
        first_period.push(it.next());
    }
    for round in 0..4 {
        for (i, &want) in first_period.iter().enumerate() {
            assert_eq!(it.next(), want, "round {} step {}", round, i);
        }
    }
}

#[test]
fn mirror_single_sample_chunk() {
    let mut it = MirrorSamplesIterator::new(chunk_of(&[0.125]));
    for _ in 0..8 {
        assert_eq!(f32::from_bits(it.next()), 0.125);
    }
}

#[test]
fn collection_defaults_to_mirror() {
    let samples = [1.0f32, 2.0, 3.0];
    let collection = BlendingSamples::new(vec![chunk_of(&samples), chunk_of(&[9.0; 3])]).unwrap();
    // The default smoothing mirrors the first chunk; the second is unused.
    let mut stream = collection.into_iter().unwrap();
    let mut got = Vec::new();
    for _ in 0..6 {
        match stream.next() {
            StepOutput::Raw(b) => got.push(f32::from_bits(b)),
            other => panic!("mirroring never mixes, got {:?}", other),
        }
    }
    assert_eq!(got, vec![1.0, 2.0, 3.0, 3.0, 2.0, 1.0]);
    assert!(matches!(stream, StereoSamples::Mirror(_)));
}

#[test]
fn with_mirror_overrides_blend() {
    let collection = BlendingSamples::new(vec![chunk_of(&[7.0; 4])])
        .unwrap()
        .with_mirror();
    let mut stream = collection.into_iter().unwrap();
    for _ in 0..12 {
        assert_eq!(stream.next(), StepOutput::Raw(7.0f32.to_bits()));
    }
}
