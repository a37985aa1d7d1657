use audio_player::buffer::SampleBuf;
use audio_player::resampler::{BufferedResampler, ResamplerError};
use audio_player::track::{CodecKind, CodecParams};
use audio_player::time::TimeBase;

fn params(
    sample_rate: Option<u32>,
    channels: Option<u32>,
    max_frames_per_packet: Option<u64>,
    codec: CodecKind,
) -> CodecParams {
    CodecParams {
        sample_rate,
        channels,
        max_frames_per_packet,
        codec,
        time_base: Some(TimeBase { numer: 1, denom: 44100 }),
        start_ts: 0,
        n_frames: None,
    }
}

fn stereo(chunk: u64) -> BufferedResampler {
    BufferedResampler::new(&params(Some(48000), Some(2), Some(chunk), CodecKind::Other), 44100)
        .unwrap()
}

#[test]
fn construction_uses_reported_packet_size() {
    let r = stereo(4);
    assert_eq!(r.channels(), 2);
    assert_eq!(r.chunk_frames(), 4);
    assert_eq!(r.ready_chunks(), 0);
    assert_eq!(r.residual_frames(), 0);
}

#[test]
fn construction_defaults_to_1152_for_mp3() {
    let p = params(Some(48000), Some(2), None, CodecKind::Mp3);
    let r = BufferedResampler::new(&p, 44100).unwrap();
    assert_eq!(r.chunk_frames(), 1152);
}

#[test]
fn construction_defaults_to_1024_otherwise() {
    let p = params(Some(48000), Some(2), None, CodecKind::Other);
    let r = BufferedResampler::new(&p, 44100).unwrap();
    assert_eq!(r.chunk_frames(), 1024);
}

#[test]
fn construction_rejects_missing_sample_rate() {
    let p = params(None, Some(2), Some(4), CodecKind::Other);
    assert_eq!(
        BufferedResampler::new(&p, 44100).err(),
        Some(ResamplerError::InvalidCodecParameters)
    );
}

#[test]
fn construction_rejects_missing_channels() {
    let p = params(Some(48000), None, Some(4), CodecKind::Other);
    assert_eq!(
        BufferedResampler::new(&p, 44100).err(),
        Some(ResamplerError::InvalidCodecParameters)
    );
}

#[test]
fn construction_rejects_zero_chunk() {
    let p = params(Some(48000), Some(2), Some(0), CodecKind::Other);
    assert_eq!(BufferedResampler::new(&p, 44100).err(), Some(ResamplerError::Construction));
}

#[test]
fn partial_packet_stays_buffered() {
    let mut r = stereo(4);
    r.push(&SampleBuf::with_buffer(vec![vec![1, 2, 3], vec![10, 20, 30]]));
    assert_eq!(r.ready_chunks(), 0);
    assert_eq!(r.residual_frames(), 3);
    assert!(r.pop().is_none());
}

#[test]
fn chunks_fill_across_packet_boundaries() {
    let mut r = stereo(4);
    r.push(&SampleBuf::with_buffer(vec![vec![1, 2, 3], vec![10, 20, 30]]));
    r.push(&SampleBuf::with_buffer(vec![vec![4, 5, 6, 7, 8], vec![40, 50, 60, 70, 80]]));
    assert_eq!(r.ready_chunks(), 2);
    assert_eq!(r.residual_frames(), 0);
    let first = r.pop().unwrap();
    assert_eq!(first.samples(0).unwrap(), &vec![1, 2, 3, 4]);
    assert_eq!(first.samples(1).unwrap(), &vec![10, 20, 30, 40]);
    let second = r.pop().unwrap();
    assert_eq!(second.samples(0).unwrap(), &vec![5, 6, 7, 8]);
    assert_eq!(second.samples(1).unwrap(), &vec![50, 60, 70, 80]);
    assert!(r.pop().is_none());
}

#[test]
fn oversized_packet_completes_several_chunks() {
    let mut r = stereo(2);
    let samples: Vec<u64> = (1..=7).collect();
    r.push(&SampleBuf::with_buffer(vec![samples.clone(), samples.clone()]));
    assert_eq!(r.ready_chunks(), 3);
    assert_eq!(r.residual_frames(), 1);
    assert_eq!(r.pop().unwrap().samples(0).unwrap(), &vec![1, 2]);
    assert_eq!(r.pop().unwrap().samples(0).unwrap(), &vec![3, 4]);
    assert_eq!(r.pop().unwrap().samples(0).unwrap(), &vec![5, 6]);
    assert!(r.pop().is_none());
    assert_eq!(r.residual_frames(), 1);
}

#[test]
fn zero_frame_packet_does_not_advance_the_ring() {
    let mut r = stereo(4);
    r.push(&SampleBuf::with_buffer(vec![vec![1, 2], vec![10, 20]]));
    let chunks_before = r.ready_chunks();
    let residual_before = r.residual_frames();
    r.push(&SampleBuf::with_buffer(vec![vec![], vec![]]));
    assert_eq!(r.ready_chunks(), chunks_before);
    assert_eq!(r.residual_frames(), residual_before);
}

#[test]
fn reset_discards_full_and_partial_chunks() {
    let mut r = stereo(2);
    r.push(&SampleBuf::with_buffer(vec![vec![1, 2, 3], vec![10, 20, 30]]));
    assert_eq!(r.ready_chunks(), 1);
    assert_eq!(r.residual_frames(), 1);
    r.reset();
    assert_eq!(r.ready_chunks(), 0);
    assert_eq!(r.residual_frames(), 0);
    assert!(r.pop().is_none());
    r.push(&SampleBuf::with_buffer(vec![vec![7, 8], vec![70, 80]]));
    let chunk = r.pop().unwrap();
    assert_eq!(chunk.samples(0).unwrap(), &vec![7, 8]);
}
