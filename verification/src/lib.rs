//! A gapless audio player library.
//!
//! The verified core of a small music player: a planar sample buffer, the
//! cross-packet buffering shim in front of a fixed-input-chunk resampler,
//! the decoded-track bookkeeping (progress, seek look-ahead, metadata
//! selection), and the transport state machine shared between the caller
//! and the playback executor.  Sample values are carried as opaque 64-bit
//! words; the device layer gives them numeric meaning.  File probing,
//! the audio device, and the sinc interpolation engine live outside the
//! library and are driven by an ordinary front-end.

pub mod buffer;
pub mod executor;
pub mod player;
pub mod resampler;
pub mod time;
pub mod track;

pub use buffer::SampleBuf;
pub use player::AudioPlayerController;
pub use player::AudioPlayerControllerError;
pub use player::AudioPlayerControllerState;
pub use resampler::BufferedResampler;
pub use resampler::ResamplerError;
pub use time::TimeBase;
pub use time::Timestamp;
pub use track::CodecParams;
pub use track::DecodedTrack;
pub use track::DecoderError;
pub use track::Track;
pub use track::TrackDetails;
