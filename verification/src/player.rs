//! Transport state shared between callers and the playback executor.
//!
//! One record holds the four transport fields; every transition on it
//! is a verified function here.  The front-end owns the lock and the
//! two condition variables and calls these transitions while holding
//! the lock: the caller-facing ones through the controller methods,
//! the executor-facing ones once per inner-loop iteration.

use crate::time::{lemma_calc_time_monotonic, TimeBase, Timestamp};
use vstd::prelude::*;

verus! {

/// Errors surfaced by the controller.
#[derive(Clone, Copy, Debug, PartialEq, Eq, Structural)]
pub enum AudioPlayerControllerError {
    /// No position has been published yet.
    NotPlaying,
}

/// The shared transport record.
#[derive(Clone, Copy, Debug, PartialEq, Eq, Structural)]
pub struct AudioPlayerControllerState {
    /// The executor currently has a track loaded.
    pub running: bool,
    /// The user wants playback to progress.
    pub playing: bool,
    /// The last position the executor published.
    pub position: Option<Timestamp>,
    /// A seek requested by a caller and not yet applied.
    pub seek_position: Option<Timestamp>,
}

impl AudioPlayerControllerState {
    pub fn new() -> (r: AudioPlayerControllerState)
        ensures
            r == spec_initial_state(),
    {
        let running = false;
        let playing = false;
        let position = None;
        let seek_position = None;
        AudioPlayerControllerState { running, playing, position, seek_position }
    }
}

/// The state a fresh player starts in: stopped, paused, no position,
/// no pending seek.
pub open spec fn spec_initial_state() -> AudioPlayerControllerState {
    AudioPlayerControllerState { running: false, playing: false, position: None, seek_position: None }
}

/// The state after `play`: only `playing` changes.
pub open spec fn spec_after_play(s: AudioPlayerControllerState) -> AudioPlayerControllerState {
    AudioPlayerControllerState { playing: true, ..s }
}

/// The state after `pause`: only `playing` changes.
pub open spec fn spec_after_pause(s: AudioPlayerControllerState) -> AudioPlayerControllerState {
    AudioPlayerControllerState { playing: false, ..s }
}

/// The state after the executor publishes position `t`.
pub open spec fn spec_after_publish(s: AudioPlayerControllerState, t: Timestamp)
    -> AudioPlayerControllerState {
    AudioPlayerControllerState { position: Some(t), ..s }
}

/// The shared handle callers use for transport control.  Front-ends
/// keep one instance behind the transport lock and share it between
/// threads; each operation here is one critical section.
pub struct AudioPlayerController {
    state: AudioPlayerControllerState,
}

impl View for AudioPlayerController {
    type V = AudioPlayerControllerState;

    closed spec fn view(&self) -> AudioPlayerControllerState {
        self.state
    }
}

impl AudioPlayerController {
    pub fn new() -> (r: AudioPlayerController)
        ensures
            r@ == spec_initial_state(),
    {
        AudioPlayerController { state: AudioPlayerControllerState::new() }
    }

    /// Ask for playback to progress and wake the executor.
    pub fn play(&mut self)
        ensures
            final(self)@ == spec_after_play(old(self)@),
    {
        self.state.playing = true;
    }

    /// Ask for playback to stop progressing and wake the executor.
    pub fn pause(&mut self)
        ensures
            final(self)@ == spec_after_pause(old(self)@),
    {
        self.state.playing = false;
    }

    /// Snapshot of the user's play/pause wish.
    pub fn playing(&self) -> (r: bool)
        ensures
            r == self@.playing,
    {
        self.state.playing
    }

    /// The last published position; fails while none has been
    /// published.
    pub fn position(&self) -> (r: Result<Timestamp, AudioPlayerControllerError>)
        ensures
            self@.position matches Some(t) ==> r == Ok::<Timestamp, AudioPlayerControllerError>(t),
            self@.position is None ==> r == Err::<Timestamp, AudioPlayerControllerError>(
                AudioPlayerControllerError::NotPlaying),
    {
        match self.state.position {
            Some(t) => Ok(t),
            None => Err(AudioPlayerControllerError::NotPlaying),
        }
    }

    /// File a seek request.  Does nothing while no track is loaded.
    /// Returns whether the caller must now wait for the executor's
    /// acknowledgement: only while playing, so a paused player cannot
    /// deadlock the seeking thread.
    pub fn seek(&mut self, progress: Timestamp) -> (must_wait: bool)
        ensures
            old(self)@.running ==> final(self)@ == (AudioPlayerControllerState {
                seek_position: Some(progress),
                ..old(self)@
            }),
            !old(self)@.running ==> final(self)@ == old(self)@,
            must_wait == (old(self)@.running && old(self)@.playing),
    {
        if !self.state.running {
            return false;
        }
        self.state.seek_position = Some(progress);
        self.state.playing && self.state.seek_position.is_some()
    }

    /// Whether a filed seek request is still unserviced; the seeking
    /// caller waits on the acknowledgement signal while this holds and
    /// playback is running.
    pub fn seek_pending(&self) -> (r: bool)
        ensures
            r == (self@.seek_position is Some),
    {
        self.state.seek_position.is_some()
    }

    /// Snapshot of whether the executor has a track loaded.
    pub fn running(&self) -> (r: bool)
        ensures
            r == self@.running,
    {
        self.state.running
    }

    /// Executor side: mark a track loaded or finished.
    pub fn set_running(&mut self, running: bool)
        ensures
            final(self)@ == (AudioPlayerControllerState { running, ..old(self)@ }),
    {
        self.state.running = running;
    }

    /// Executor side: the seek target to apply, if a caller filed one.
    pub fn pending_seek(&self) -> (r: Option<Timestamp>)
        ensures
            r == self@.seek_position,
    {
        self.state.seek_position
    }

    /// Executor side: the filed seek has been applied; clear it so the
    /// waiting caller can be released.
    pub fn complete_seek(&mut self)
        ensures
            final(self)@ == (AudioPlayerControllerState {
                seek_position: None,
                ..old(self)@
            }),
    {
        self.state.seek_position = None;
    }

    /// Executor side: publish the current track position.
    pub fn publish_position(&mut self, t: Timestamp)
        ensures
            final(self)@ == spec_after_publish(old(self)@, t),
    {
        self.state.position = Some(t);
    }
}

/// Pausing twice is the same as pausing once: `pause` is idempotent on
/// the transport state.
pub proof fn lemma_pause_idempotent(s: AudioPlayerControllerState)
    ensures
        spec_after_pause(spec_after_pause(s)) == spec_after_pause(s),
{
}

/// Playing twice is the same as playing once: `play` is idempotent on
/// the transport state.
pub proof fn lemma_play_idempotent(s: AudioPlayerControllerState)
    ensures
        spec_after_play(spec_after_play(s)) == spec_after_play(s),
{
}

/// Position monotonicity, on the library's side of the decoder: when
/// the executor publishes the positions of two packets of one track in
/// order, with no seek between them, and the demuxer hands packets with
/// nondecreasing timestamps, the second observed position is at or
/// after the first.
pub proof fn lemma_position_monotonic(
    s: AudioPlayerControllerState,
    tb: TimeBase,
    ticks1: u64,
    ticks2: u64,
)
    requires
        tb.wf(),
        ticks1 <= ticks2,
    ensures
        ({
            let s1 = spec_after_publish(s, tb.spec_calc_time(ticks1));
            let s2 = spec_after_publish(s1, tb.spec_calc_time(ticks2));
            &&& s1.position matches Some(p1) && p1 == tb.spec_calc_time(ticks1)
            &&& s2.position matches Some(p2) && p2 == tb.spec_calc_time(ticks2)
            &&& tb.spec_calc_time(ticks1).as_nanos() <= tb.spec_calc_time(ticks2).as_nanos()
        }),
{
    lemma_calc_time_monotonic(tb, ticks1, ticks2);
}

} // verus!
