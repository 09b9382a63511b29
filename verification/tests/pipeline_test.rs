use neuma::pipeline::{
    poll, pressed, shown, shown_on_press, Failure, Happening, Outcome, Pipeline, Poll, Press, Step,
};
use neuma::state::{ListenMode, NeumaState};

/// A pipeline that has just got its transcript.
fn transcribed(mode: &str, key: &str, llm_ready: bool, text: &str) -> (Pipeline, Step) {
    let (mut p, step) = Pipeline::begin(true, true, false, mode, key, llm_ready);
    assert!(matches!(step, Step::StopRecorder));
    assert!(matches!(p.step(Happening::Stopped(Some(16_000))), Step::Transcribe));
    let step = p.step(Happening::Transcribed(Outcome::Done(text.to_string())));
    (p, step)
}

fn injected(step: Step) -> (String, bool) {
    match step {
        Step::Inject { text, model_missing } => (text, model_missing),
        _ => panic!("nothing is typed"),
    }
}

fn failure(step: Step) -> Failure {
    match step {
        Step::Fail(f) => f,
        _ => panic!("no failure"),
    }
}

#[test]
fn nothing_happens_without_a_recording() {
    let (p, step) = Pipeline::begin(false, true, false, "cloud", "k", true);
    assert!(matches!(step, Step::Ignore));
    assert!(!p.accepts(&Happening::Stopped(None)));
}

#[test]
fn a_missing_model_is_reported() {
    let loading = failure(Pipeline::begin(true, false, true, "disabled", "", false).1);
    assert_eq!(loading.message(), "Whisper model still loading — wait a moment and try again.");
    assert!(loading.notifies() && !loading.opens_settings());
    let missing = failure(Pipeline::begin(true, false, false, "disabled", "", false).1);
    assert_eq!(
        missing.message(),
        "Whisper model not downloaded. Opening Settings to download it."
    );
    assert!(missing.notifies() && missing.opens_settings());
}

#[test]
fn without_cleanup_the_transcript_is_typed() {
    let (mut p, step) = transcribed("disabled", "", false, "um hi");
    assert_eq!(injected(step), ("um hi".to_string(), false));
    assert!(matches!(p.step(Happening::Injected(Outcome::Done(()))), Step::ShowDone));
    assert!(!p.accepts(&Happening::Injected(Outcome::Done(()))));
}

#[test]
fn local_cleanup_replaces_the_transcript() {
    let (mut p, step) = transcribed("local", "", true, "um hi");
    assert!(matches!(step, Step::Clean { local: true }));
    assert_eq!(p.transcript(), "um hi");
    assert_eq!(
        injected(p.step(Happening::Cleaned(Some("Hi.".to_string())))),
        ("Hi.".to_string(), false)
    );
}

#[test]
fn failed_cleanup_keeps_the_transcript() {
    let (mut p, _) = transcribed("local", "", true, "um hi");
    assert_eq!(injected(p.step(Happening::Cleaned(None))), ("um hi".to_string(), false));
}

#[test]
fn local_cleanup_without_a_model_is_told() {
    let (_, step) = transcribed("local", "", false, "um hi");
    assert_eq!(injected(step), ("um hi".to_string(), true));
}

#[test]
fn cloud_cleanup_needs_a_key() {
    let (_, step) = transcribed("cloud", "", true, "um hi");
    assert_eq!(injected(step), ("um hi".to_string(), false));
}

#[test]
fn cloud_cleanup_needs_the_worker() {
    let (mut p, step) = transcribed("cloud", "k", false, "um hi");
    assert!(matches!(step, Step::ProbeWorker));
    assert_eq!(
        injected(p.step(Happening::WorkerReachable(false))),
        ("um hi".to_string(), false)
    );
    let (mut p, _) = transcribed("cloud", "k", false, "um hi");
    assert!(matches!(p.step(Happening::WorkerReachable(true)), Step::Clean { local: false }));
    assert_eq!(injected(p.step(Happening::Cleaned(Some("Hi.".to_string())))).0, "Hi.");
}

#[test]
fn every_failure_is_told() {
    let start = || Pipeline::begin(true, true, false, "disabled", "", false).0;
    let mut p = start();
    assert_eq!(failure(p.step(Happening::Stopped(None))).message(), "Recording stopped unexpectedly.");
    let mut p = start();
    let silent = failure(p.step(Happening::Stopped(Some(0))));
    assert_eq!(silent.message(), "Nothing was captured. Try speaking closer to the mic.");
    assert!(!silent.notifies());
    for (outcome, words) in [
        (Outcome::Failed, "Transcription failed. Is the Whisper model installed?"),
        (Outcome::Crashed, "Transcription crashed unexpectedly."),
    ] {
        let mut p = start();
        p.step(Happening::Stopped(Some(1)));
        let f = failure(p.step(Happening::Transcribed(outcome)));
        assert_eq!(f.message(), words);
        assert!(f.notifies());
    }
    let mut p = start();
    p.step(Happening::Stopped(Some(1)));
    let unheard = failure(p.step(Happening::Transcribed(Outcome::Done(String::new()))));
    assert_eq!(
        unheard.message(),
        "Nothing was picked up. Speak more clearly or check your mic."
    );
    assert!(!unheard.notifies());
    for (outcome, words) in [
        (Outcome::Failed, "Couldn't insert text. Make sure a text field is focused."),
        (Outcome::Crashed, "Text injection crashed unexpectedly."),
    ] {
        let (mut p, _) = transcribed("disabled", "", false, "x");
        assert_eq!(failure(p.step(Happening::Injected(outcome))).message(), words);
    }
    assert_eq!(
        Failure::NoMicrophone.message(),
        "Microphone not found or access denied. Check System Settings → Privacy → Microphone."
    );
}

#[test]
fn a_press_listens_or_fails() {
    assert!(pressed(true) == Press::Listen);
    assert!(pressed(false) == Press::Fail(Failure::NoMicrophone));
    assert!(matches!(
        shown_on_press(pressed(true)),
        NeumaState::Listening { mode: ListenMode::Toggle }
    ));
    assert!(matches!(
        shown_on_press(pressed(false)),
        NeumaState::Error { message } if message.starts_with("Microphone not found")
    ));
}

#[test]
fn the_overlay_follows_the_pipeline() {
    let (mut p, step) = Pipeline::begin(true, true, false, "cloud", "k", false);
    assert!(matches!(shown(&step), Some(NeumaState::Transcribing)));
    let step = p.step(Happening::Stopped(Some(1)));
    assert!(shown(&step).is_none());
    let step = p.step(Happening::Transcribed(Outcome::Done("um hi".to_string())));
    assert!(shown(&step).is_none());
    let step = p.step(Happening::WorkerReachable(true));
    assert!(matches!(shown(&step), Some(NeumaState::Cleaning)));
    let step = p.step(Happening::Cleaned(None));
    assert!(shown(&step).is_none());
    let mut failing = transcribed("disabled", "", false, "x").0;
    let step = p.step(Happening::Injected(Outcome::Done(())));
    assert!(matches!(shown(&step), Some(NeumaState::Done)));
    let step = failing.step(Happening::Injected(Outcome::Failed));
    assert!(matches!(
        shown(&step),
        Some(NeumaState::Error { message }) if message.starts_with("Couldn't insert text.")
    ));
    assert!(shown(&Pipeline::begin(false, true, false, "cloud", "k", false).1).is_none());
}

#[test]
fn polling_follows_the_recording() {
    assert!(poll(Some(false)) == Poll::ShowLevel);
    assert!(poll(Some(true)) == Poll::AutoStop);
    assert!(poll(None) == Poll::End);
}
