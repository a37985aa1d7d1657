use audio_player::player::{AudioPlayerController, AudioPlayerControllerError};
use audio_player::time::Timestamp;

#[test]
fn fresh_controller_is_stopped_and_paused() {
    let c = AudioPlayerController::new();
    assert!(!c.playing());
    assert!(!c.running());
    assert!(!c.seek_pending());
    assert_eq!(c.position(), Err(AudioPlayerControllerError::NotPlaying));
}

#[test]
fn play_and_pause_toggle_the_playing_flag() {
    let mut c = AudioPlayerController::new();
    c.play();
    assert!(c.playing());
    c.pause();
    assert!(!c.playing());
}

#[test]
fn pause_twice_equals_pause_once() {
    let mut once = AudioPlayerController::new();
    once.play();
    once.pause();
    let mut twice = AudioPlayerController::new();
    twice.play();
    twice.pause();
    twice.pause();
    assert_eq!(once.playing(), twice.playing());
    assert_eq!(once.running(), twice.running());
    assert_eq!(once.position(), twice.position());
    assert_eq!(once.seek_pending(), twice.seek_pending());
}

#[test]
fn play_twice_equals_play_once() {
    let mut once = AudioPlayerController::new();
    once.play();
    let mut twice = AudioPlayerController::new();
    twice.play();
    twice.play();
    assert_eq!(once.playing(), twice.playing());
    assert_eq!(once.running(), twice.running());
    assert_eq!(once.position(), twice.position());
    assert_eq!(once.seek_pending(), twice.seek_pending());
}

#[test]
fn seek_does_nothing_while_stopped() {
    let mut c = AudioPlayerController::new();
    let must_wait = c.seek(Timestamp::new(10, 0));
    assert!(!must_wait);
    assert!(!c.seek_pending());
    assert_eq!(c.pending_seek(), None);
}

#[test]
fn seek_files_a_request_and_waits_only_while_playing() {
    let mut c = AudioPlayerController::new();
    c.set_running(true);
    c.play();
    let must_wait = c.seek(Timestamp::new(60, 0));
    assert!(must_wait);
    assert!(c.seek_pending());
    assert_eq!(c.pending_seek(), Some(Timestamp::new(60, 0)));
}

#[test]
fn seek_while_paused_does_not_wait() {
    let mut c = AudioPlayerController::new();
    c.set_running(true);
    let must_wait = c.seek(Timestamp::new(5, 500_000_000));
    assert!(!must_wait);
    assert!(c.seek_pending());
}

#[test]
fn complete_seek_releases_the_request() {
    let mut c = AudioPlayerController::new();
    c.set_running(true);
    c.play();
    c.seek(Timestamp::new(60, 0));
    c.complete_seek();
    assert!(!c.seek_pending());
    assert_eq!(c.pending_seek(), None);
}

#[test]
fn published_positions_are_observable() {
    let mut c = AudioPlayerController::new();
    c.set_running(true);
    c.publish_position(Timestamp::new(1, 250_000_000));
    assert_eq!(c.position(), Ok(Timestamp::new(1, 250_000_000)));
    c.publish_position(Timestamp::new(2, 0));
    assert_eq!(c.position(), Ok(Timestamp::new(2, 0)));
}

#[test]
fn set_running_marks_track_lifecycle() {
    let mut c = AudioPlayerController::new();
    c.set_running(true);
    assert!(c.running());
    c.set_running(false);
    assert!(!c.running());
}

#[test]
fn timestamp_order_follows_the_timeline() {
    let origin = Timestamp::zero();
    let a = Timestamp::new(1, 999_999_999);
    let b = Timestamp::new(2, 0);
    assert!(origin.le(&a));
    assert!(a.le(&b));
    assert!(!b.le(&a));
    assert!(a.le(&a));
}
