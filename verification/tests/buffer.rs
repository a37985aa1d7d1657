use audio_player::buffer::SampleBuf;

fn buf(data: Vec<Vec<u64>>) -> SampleBuf {
    SampleBuf::with_buffer(data)
}

#[test]
fn empty_buffer_has_no_channels_or_frames() {
    let b = SampleBuf::new();
    assert_eq!(b.channels(), 0);
    assert_eq!(b.frames(), 0);
    assert_eq!(b.interleaved().len(), 0);
}

#[test]
fn with_capacity_starts_empty() {
    let b = SampleBuf::with_capacity(3, 128);
    assert_eq!(b.channels(), 3);
    assert_eq!(b.frames(), 0);
    assert_eq!(b.interleaved().len(), 0);
}

#[test]
fn interleaved_is_frame_major_channel_minor() {
    let b = buf(vec![vec![1, 2, 3], vec![4, 5, 6]]);
    assert_eq!(b.interleaved(), vec![1, 4, 2, 5, 3, 6]);
}

#[test]
fn interleaved_count_is_channels_times_frames() {
    let b = buf(vec![vec![7; 5], vec![8; 5], vec![9; 5]]);
    assert_eq!(b.interleaved().len(), b.channels() * b.frames());
    let k = 7usize;
    let c = b.channels();
    let v = b.interleaved();
    assert_eq!(v[k], b.samples(k % c).unwrap()[k / c]);
}

#[test]
fn resize_pads_new_frames_with_equilibrium() {
    let mut b = buf(vec![vec![1, 2, 3], vec![4, 5, 6]]);
    b.resize(2, 5);
    assert_eq!(b.channels(), 2);
    assert_eq!(b.frames(), 5);
    assert_eq!(b.samples(0).unwrap(), &vec![1, 2, 3, 0, 0]);
    assert_eq!(b.samples(1).unwrap(), &vec![4, 5, 6, 0, 0]);
}

#[test]
fn resize_truncates_frames_and_channels() {
    let mut b = buf(vec![vec![1, 2, 3], vec![4, 5, 6], vec![7, 8, 9]]);
    b.resize(1, 2);
    assert_eq!(b.channels(), 1);
    assert_eq!(b.frames(), 2);
    assert_eq!(b.samples(0).unwrap(), &vec![1, 2]);
    assert!(b.samples(1).is_none());
}

#[test]
fn resize_adds_zero_filled_channels() {
    let mut b = buf(vec![vec![1, 2]]);
    b.resize(3, 2);
    assert_eq!(b.channels(), 3);
    assert_eq!(b.samples(0).unwrap(), &vec![1, 2]);
    assert_eq!(b.samples(1).unwrap(), &vec![0, 0]);
    assert_eq!(b.samples(2).unwrap(), &vec![0, 0]);
}

#[test]
fn resize_of_an_empty_buffer_allocates_silence() {
    let mut b = SampleBuf::new();
    b.resize(2, 4);
    assert_eq!(b.channels(), 2);
    assert_eq!(b.frames(), 4);
    assert_eq!(b.samples(0).unwrap(), &vec![0, 0, 0, 0]);
    assert_eq!(b.samples(1).unwrap(), &vec![0, 0, 0, 0]);
}

#[test]
fn resize_is_idempotent() {
    let mut once = buf(vec![vec![1, 2, 3], vec![4, 5, 6]]);
    once.resize(2, 5);
    let mut twice = buf(vec![vec![1, 2, 3], vec![4, 5, 6]]);
    twice.resize(2, 5);
    twice.resize(2, 5);
    assert_eq!(once.channels(), twice.channels());
    assert_eq!(once.frames(), twice.frames());
    for c in 0..once.channels() {
        assert_eq!(once.samples(c).unwrap(), twice.samples(c).unwrap());
    }
}

#[test]
fn push_sample_appends_to_one_channel() {
    let mut b = SampleBuf::with_capacity(2, 4);
    b.push_sample(0, 11);
    b.push_sample(1, 22);
    b.push_sample(0, 33);
    assert_eq!(b.samples(0).unwrap(), &vec![11, 33]);
    assert_eq!(b.samples(1).unwrap(), &vec![22]);
}

#[test]
fn samples_out_of_range_is_none() {
    let b = buf(vec![vec![1]]);
    assert!(b.samples(1).is_none());
}
