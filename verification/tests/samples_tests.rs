use picosakura::{interleave_stereo, looped_device_frames};

#[test]
fn interleave_two_channels() {
    let left = vec![1, 3, 5];
    let right = vec![2, 4, 6];
    assert_eq!(interleave_stereo(&left, &right), vec![1, 2, 3, 4, 5, 6]);
}

#[test]
fn interleave_float_channels() {
    let left = vec![0.5f32, -0.25];
    let right = vec![0.75f32, 1.0];
    assert_eq!(interleave_stereo(&left, &right), vec![0.5f32, 0.75, -0.25, 1.0]);
}

#[test]
fn interleave_empty_channels() {
    let empty: Vec<i16> = Vec::new();
    assert!(interleave_stereo(&empty, &empty).is_empty());
}

#[test]
fn device_frames_loop_over_channel_buffers() {
    let left = vec![10, 11, 12];
    let right = vec![20, 21, 22];
    let out = looped_device_frames(10, &left, &right, 2);
    assert_eq!(out, vec![10, 20, 11, 21, 12, 22, 10, 20, 11, 21]);
}

#[test]
fn device_frames_period_law() {
    let left = vec![1, 2];
    let right = vec![5, 6];
    let out = looped_device_frames(12, &left, &right, 3);
    assert_eq!(out, vec![1, 5, 5, 2, 6, 6, 1, 5, 5, 2, 6, 6]);
    for k in 0..6 {
        assert_eq!(out[k], out[k + 6]);
    }
}

#[test]
fn device_frames_odd_tail_and_mono() {
    let left = vec![1];
    let right = vec![2];
    assert_eq!(looped_device_frames(3, &left, &right, 2), vec![1, 2, 1]);
    assert_eq!(looped_device_frames(3, &left, &right, 1), vec![1, 1, 1]);
    assert!(looped_device_frames(0, &left, &right, 2).is_empty());
}
