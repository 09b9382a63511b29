use neuma::audio::{AudioRecorder, Taken, VAD_FRAME_SAMPLES, VAD_SILENCE_FRAMES};

fn kept(window_start: usize, evaluated: bool, frames: usize) -> Taken {
    Taken::Kept { window_start, evaluated, frames }
}

fn silent_frames(n: usize) -> Vec<Vec<i16>> {
    vec![vec![0i16; VAD_FRAME_SAMPLES]; n]
}

/// A buzz with many harmonics, loud enough to be taken for a voice.
fn voiced_frame(index: usize) -> Vec<i16> {
    let mut frame = Vec::new();
    for i in 0..VAD_FRAME_SAMPLES {
        let t = (index * VAD_FRAME_SAMPLES + i) as f64 / 16_000.0;
        let mut x = 0.0;
        for h in 1..25 {
            x += (2.0 * std::f64::consts::PI * 140.0 * h as f64 * t).sin() / h as f64;
        }
        frame.push((x * 9_000.0).clamp(-32_000.0, 32_000.0) as i16);
    }
    frame
}

/// A recorder at 16 kHz whose grace period is over.
fn past_grace() -> AudioRecorder {
    let mut recorder = AudioRecorder::start(16_000);
    assert!(recorder.take(8_000, 1) == kept(6_976, false, 0));
    recorder
}

#[test]
fn frame_length_follows_device_rate() {
    assert_eq!(AudioRecorder::start(16_000).frame_native(), 320);
    assert_eq!(AudioRecorder::start(44_100).frame_native(), 882);
    assert_eq!(AudioRecorder::start(48_000).frame_native(), 960);
    assert_eq!(AudioRecorder::start(50).frame_native(), 1);
}

#[test]
fn silence_stops_the_recording() {
    let mut recorder = past_grace();
    assert!(recorder.take(320 * 80, 1) == kept(32_576, true, 80));
    assert_eq!(recorder.listen(&silent_frames(80)), 75);
    assert_eq!(recorder.vad_info(), (VAD_SILENCE_FRAMES, true));
}

#[test]
fn one_frame_less_of_silence_does_not_stop() {
    let mut recorder = past_grace();
    recorder.take(320 * 74, 1);
    assert_eq!(recorder.listen(&silent_frames(74)), 74);
    assert_eq!(recorder.vad_info(), (74, false));
}

#[test]
fn speech_starts_the_count_again() {
    let mut recorder = past_grace();
    recorder.take(320 * 200, 1);
    assert_eq!(recorder.listen(&silent_frames(40)), 40);
    assert_eq!(recorder.vad_info(), (40, false));
    let voiced: Vec<Vec<i16>> = (0..30).map(voiced_frame).collect();
    assert_eq!(recorder.listen(&voiced), 30);
    assert_eq!(recorder.vad_info(), (0, false));
}

#[test]
fn grace_period_is_not_evaluated() {
    let mut recorder = AudioRecorder::start(44_100);
    assert!(recorder.take(22_049, 1) == kept(21_025, false, 0));
    assert!(recorder.take(5_000, 1) == kept(26_025, false, 0));
    assert!(recorder.take(881, 1) == kept(26_906, true, 0));
    assert!(recorder.take(1, 1) == kept(26_907, true, 1));
}

#[test]
fn short_recording_has_a_short_window() {
    let mut recorder = AudioRecorder::start(16_000);
    assert!(recorder.take(100, 1) == kept(0, false, 0));
}

#[test]
fn samples_wait_for_a_full_frame() {
    let mut recorder = past_grace();
    assert!(recorder.take(319, 1) == kept(7_295, true, 0));
    assert!(recorder.take(2, 1) == kept(7_297, true, 1));
    assert_eq!(recorder.listen(&silent_frames(1)), 1);
    assert!(recorder.take(319, 1) == kept(7_616, true, 1));
}

#[test]
fn short_frames_are_skipped_and_long_ones_cut() {
    let mut recorder = past_grace();
    recorder.take(320 * 3, 1);
    let frames = vec![vec![0i16; 319], vec![0i16; 321], vec![0i16; 0]];
    assert_eq!(recorder.listen(&frames), 3);
    assert_eq!(recorder.vad_info(), (1, false));
}

#[test]
fn nothing_is_evaluated_after_the_auto_stop() {
    let mut recorder = past_grace();
    recorder.take(320 * 80, 1);
    recorder.listen(&silent_frames(75));
    assert!(recorder.take(3_200, 1) == kept(35_776, false, 0));
    assert_eq!(recorder.listen(&silent_frames(5)), 0);
    assert_eq!(recorder.vad_info(), (75, true));
}

#[test]
fn channels_are_mixed_down() {
    let mut recorder = AudioRecorder::start(16_000);
    // The last group of two is incomplete, and counts as one.
    assert!(recorder.take(16_001, 2) == kept(6_977, false, 0));
    assert!(recorder.take(639, 2) == kept(7_297, true, 1));
    assert!(recorder.take(0, 2) == kept(7_297, true, 1));
}

#[test]
fn nothing_is_taken_after_the_stop() {
    let mut recorder = AudioRecorder::start(16_000);
    recorder.stop();
    assert!(recorder.take(100, 1) == Taken::Dropped);
}
