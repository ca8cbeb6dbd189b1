use adh_rs::audio_bridge::write_data;

#[test]
fn stereo_pair_lands_on_even_and_odd_channels() {
    let left = 0.25f32.to_bits();
    let right = 0.75f32.to_bits();
    let mut buf = vec![0u32; 8];
    write_data(&mut buf, 0, 4, left, right);
    assert_eq!(&buf[0..4], &[left, right, left, right]);
    // The rest of the buffer is untouched.
    assert_eq!(&buf[4..8], &[0, 0, 0, 0]);
}

#[test]
fn frames_fill_a_whole_buffer() {
    let channels = 2;
    let mut buf = vec![0u32; 6];
    for f in 0..3 {
        let v = (f as u32) + 1;
        write_data(&mut buf, f * channels, channels, v, v + 10);
    }
    assert_eq!(buf, vec![1, 11, 2, 12, 3, 13]);
}

#[test]
fn mono_sink_takes_the_left_value() {
    let mut buf = vec![9u32; 3];
    write_data(&mut buf, 1, 1, 4, 5);
    assert_eq!(buf, vec![9, 4, 9]);
}

#[test]
fn five_channel_frame_alternates() {
    let mut buf = vec![0u32; 5];
    write_data(&mut buf, 0, 5, 1, 2);
    assert_eq!(buf, vec![1, 2, 1, 2, 1]);
}
