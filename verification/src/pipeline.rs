//! From the end of a recording to the text in the focused field.

use vstd::prelude::*;
use crate::state::{ListenMode, NeumaState};
use crate::text::same;

verus! {

/// How often the level of a recording is looked up, in milliseconds.
pub const POLL_INTERVAL_MS: u64 = 100;

/// How long an error stays on the screen, in milliseconds.
pub const ERROR_SHOWN_MS: u64 = 2_000;

/// How long success stays on the screen, in milliseconds.
pub const DONE_SHOWN_MS: u64 = 2_200;

/// The title of the notification that the local model is not loaded.
pub const MODEL_UNAVAILABLE_TITLE: &'static str = "Neuma — Model Unavailable";

/// The body of the notification that the local model is not loaded.
pub const MODEL_UNAVAILABLE_BODY: &'static str =
    "Local AI cleanup model isn't loaded. Open Settings to download it.";

/// How long the overlay stays after a recording is cancelled, in milliseconds.
pub const CANCEL_SHOWN_MS: u64 = 300;

// ── Failures ─────────────────────────────────────────────────────────────────

/// What the user is told went wrong.
#[derive(Clone, Copy, PartialEq, Eq, Structural)]
pub enum Failure {
    NoMicrophone,
    WhisperLoading,
    WhisperMissing,
    RecorderStopped,
    NothingCaptured,
    TranscriptionFailed,
    TranscriptionCrashed,
    NothingHeard,
    InjectFailed,
    InjectCrashed,
}

impl Failure {
    pub open spec fn text(self) -> Seq<char> {
        match self {
            Failure::NoMicrophone => "Microphone not found or access denied. Check System Settings → Privacy → Microphone."@,
            Failure::WhisperLoading => "Whisper model still loading — wait a moment and try again."@,
            Failure::WhisperMissing => "Whisper model not downloaded. Opening Settings to download it."@,
            Failure::RecorderStopped => "Recording stopped unexpectedly."@,
            Failure::NothingCaptured => "Nothing was captured. Try speaking closer to the mic."@,
            Failure::TranscriptionFailed => "Transcription failed. Is the Whisper model installed?"@,
            Failure::TranscriptionCrashed => "Transcription crashed unexpectedly."@,
            Failure::NothingHeard => "Nothing was picked up. Speak more clearly or check your mic."@,
            Failure::InjectFailed => "Couldn't insert text. Make sure a text field is focused."@,
            Failure::InjectCrashed => "Text injection crashed unexpectedly."@,
        }
    }

    /// What the user is told.
    pub fn message(self) -> (r: &'static str)
        ensures
            r@ == self.text(),
    {
        match self {
            Failure::NoMicrophone => "Microphone not found or access denied. Check System Settings → Privacy → Microphone.",
            Failure::WhisperLoading => "Whisper model still loading — wait a moment and try again.",
            Failure::WhisperMissing => "Whisper model not downloaded. Opening Settings to download it.",
            Failure::RecorderStopped => "Recording stopped unexpectedly.",
            Failure::NothingCaptured => "Nothing was captured. Try speaking closer to the mic.",
            Failure::TranscriptionFailed => "Transcription failed. Is the Whisper model installed?",
            Failure::TranscriptionCrashed => "Transcription crashed unexpectedly.",
            Failure::NothingHeard => "Nothing was picked up. Speak more clearly or check your mic.",
            Failure::InjectFailed => "Couldn't insert text. Make sure a text field is focused.",
            Failure::InjectCrashed => "Text injection crashed unexpectedly.",
        }
    }

    /// Whether a notification repeats the message outside the overlay. Silence does
    /// not call for one.
    pub fn notifies(self) -> (r: bool)
        ensures
            r == !(self is NothingCaptured || self is NothingHeard),
    {
        match self {
            Failure::NothingCaptured | Failure::NothingHeard => false,
            _ => true,
        }
    }

    /// Whether the settings window opens, for the user to mend the cause.
    pub fn opens_settings(self) -> (r: bool)
        ensures
            r == (self is WhisperMissing),
    {
        match self {
            Failure::WhisperMissing => true,
            _ => false,
        }
    }
}

// ── Recording ────────────────────────────────────────────────────────────────

/// What a press of the hotkey leads to.
#[derive(Clone, Copy, PartialEq, Eq, Structural)]
pub enum Press {
    /// Keep the recorder, show that it listens, and poll it.
    Listen,
    /// Show the failure and hide the overlay a little later.
    Fail(Failure),
}

/// What a press of the hotkey leads to. `started` says whether recording could be
/// started.
pub fn pressed(started: bool) -> (r: Press)
    ensures
        r == if started {
            Press::Listen
        } else {
            Press::Fail(Failure::NoMicrophone)
        },
{
    if started {
        Press::Listen
    } else {
        Press::Fail(Failure::NoMicrophone)
    }
}

/// What the overlay shows after a press.
pub fn shown_on_press(press: Press) -> (r: NeumaState)
    ensures
        match press {
            Press::Listen => r == (NeumaState::Listening { mode: ListenMode::Toggle }),
            Press::Fail(failure) => r matches NeumaState::Error { message } && message@
                == failure.text(),
        },
{
    match press {
        Press::Listen => NeumaState::Listening { mode: ListenMode::Toggle },
        Press::Fail(failure) => NeumaState::Error { message: failure.message().to_owned() },
    }
}

/// What a poll of the recording leads to.
#[derive(Clone, Copy, PartialEq, Eq, Structural)]
pub enum Poll {
    /// Show the level, and poll again after the interval.
    ShowLevel,
    /// Show the level, and end the recording: silence has been heard for long enough.
    AutoStop,
    /// The recording is over.
    End,
}

/// What a poll leads to. `vad_stopped` says of a recording in progress whether
/// silence has ended it, and is absent where nothing is recorded.
pub fn poll(vad_stopped: Option<bool>) -> (r: Poll)
    ensures
        r == match vad_stopped {
            Some(stopped) => if stopped {
                Poll::AutoStop
            } else {
                Poll::ShowLevel
            },
            None => Poll::End,
        },
{
    match vad_stopped {
        Some(stopped) => if stopped {
            Poll::AutoStop
        } else {
            Poll::ShowLevel
        },
        None => Poll::End,
    }
}

// ── Cleanup backend ──────────────────────────────────────────────────────────

/// Who cleans the transcript.
#[derive(Clone, Copy, PartialEq, Eq, Structural)]
pub enum Backend {
    Nobody,
    /// The model on this machine, which may not be loaded.
    Local { ready: bool },
    /// The hosted worker, for which there may be no key.
    Cloud { has_key: bool },
}

/// Who cleans the transcript in a cleanup mode.
pub open spec fn backend_for(mode: Seq<char>, api_key: Seq<char>, llm_ready: bool) -> Backend {
    if mode == "local"@ {
        Backend::Local { ready: llm_ready }
    } else if mode == "cloud"@ {
        Backend::Cloud { has_key: api_key.len() > 0 }
    } else {
        Backend::Nobody
    }
}

// ── Pipeline ─────────────────────────────────────────────────────────────────

/// How a piece of work on another thread ended.
pub enum Outcome<T> {
    Done(T),
    Failed,
    Crashed,
}

/// What the pipeline waits for.
#[derive(Clone, Copy, PartialEq, Eq, Structural)]
pub enum Stage {
    Stopping,
    Transcribing,
    Probing,
    Cleaning,
    Injecting,
    Over,
}

/// What the world answers to a [`Step`].
pub enum Happening {
    /// The recorder stopped with this many samples, or failed.
    Stopped(Option<usize>),
    Transcribed(Outcome<String>),
    /// Whether the worker is reachable.
    WorkerReachable(bool),
    /// The cleaned text, or nothing where the cleanup failed or crashed.
    Cleaned(Option<String>),
    Injected(Outcome<()>),
}

/// What the pipeline does next.
pub enum Step {
    /// Nothing was recorded: nothing is to be done.
    Ignore,
    /// Show the failure and hide the overlay a little later.
    Fail(Failure),
    /// Show that transcription is under way, and stop the recorder.
    StopRecorder,
    Transcribe,
    /// Find out whether the worker is reachable.
    ProbeWorker,
    /// Show that cleanup is under way, and clean the transcript.
    Clean { local: bool },
    /// Type the text. Where the model is missing, tell the user so.
    Inject { text: String, model_missing: bool },
    /// Show success, and hide the overlay a little later.
    ShowDone,
}

/// The way of a recording through the pipeline.
pub struct Pipeline {
    stage: Stage,
    backend: Backend,
    transcript: Option<String>,
}

/// The way of a recording through the pipeline.
pub struct PipelineView {
    pub stage: Stage,
    pub backend: Backend,
    /// The transcript, once there is one.
    pub transcript: Option<String>,
}

impl View for Pipeline {
    type V = PipelineView;

    closed spec fn view(&self) -> PipelineView {
        PipelineView { stage: self.stage, backend: self.backend, transcript: self.transcript }
    }
}

/// The happening is one that the stage waits for.
pub open spec fn awaits(stage: Stage, h: Happening) -> bool {
    match h {
        Happening::Stopped(_) => stage == Stage::Stopping,
        Happening::Transcribed(_) => stage == Stage::Transcribing,
        Happening::WorkerReachable(_) => stage == Stage::Probing,
        Happening::Cleaned(_) => stage == Stage::Cleaning,
        Happening::Injected(_) => stage == Stage::Injecting,
    }
}

impl PipelineView {
    /// There is a transcript from the end of transcription on, and it is not empty;
    /// the worker is looked for only in cloud mode with a key, and the transcript is
    /// cleaned only by a backend that has what it needs.
    pub open spec fn wf(self) -> bool {
        &&& self.stage is Probing || self.stage is Cleaning || self.stage is Injecting
            ==> self.transcript is Some && self.transcript->0@.len() > 0
        &&& self.stage is Probing ==> self.backend == (Backend::Cloud { has_key: true })
        &&& self.stage is Cleaning ==> self.backend == (Backend::Cloud { has_key: true })
            || self.backend == (Backend::Local { ready: true })
    }

    pub open spec fn fails(self, f: Failure) -> (PipelineView, Step) {
        (PipelineView { stage: Stage::Over, ..self }, Step::Fail(f))
    }

    pub open spec fn injects(self, text: String, model_missing: bool) -> (PipelineView, Step) {
        (
            PipelineView { stage: Stage::Injecting, ..self },
            Step::Inject { text, model_missing },
        )
    }

    /// What follows a transcript that is not empty.
    pub open spec fn cleans(self, transcript: String) -> (PipelineView, Step) {
        let v = PipelineView { transcript: Some(transcript), ..self };
        match self.backend {
            Backend::Nobody => v.injects(transcript, false),
            Backend::Local { ready } => if ready {
                (PipelineView { stage: Stage::Cleaning, ..v }, Step::Clean { local: true })
            } else {
                v.injects(transcript, true)
            },
            Backend::Cloud { has_key } => if has_key {
                (PipelineView { stage: Stage::Probing, ..v }, Step::ProbeWorker)
            } else {
                v.injects(transcript, false)
            },
        }
    }

    /// The answer to a happening that is waited for.
    pub open spec fn next(self, h: Happening) -> (PipelineView, Step) {
        match h {
            Happening::Stopped(samples) => match samples {
                None => self.fails(Failure::RecorderStopped),
                Some(n) => if n == 0 {
                    self.fails(Failure::NothingCaptured)
                } else {
                    (PipelineView { stage: Stage::Transcribing, ..self }, Step::Transcribe)
                },
            },
            Happening::Transcribed(outcome) => match outcome {
                Outcome::Failed => self.fails(Failure::TranscriptionFailed),
                Outcome::Crashed => self.fails(Failure::TranscriptionCrashed),
                Outcome::Done(text) => if text@.len() == 0 {
                    self.fails(Failure::NothingHeard)
                } else {
                    self.cleans(text)
                },
            },
            Happening::WorkerReachable(reachable) => if reachable {
                (PipelineView { stage: Stage::Cleaning, ..self }, Step::Clean { local: false })
            } else {
                self.injects(self.transcript->0, false)
            },
            Happening::Cleaned(cleaned) => match cleaned {
                Some(text) => self.injects(text, false),
                None => self.injects(self.transcript->0, false),
            },
            Happening::Injected(outcome) => match outcome {
                Outcome::Done(_) => (PipelineView { stage: Stage::Over, ..self }, Step::ShowDone),
                Outcome::Failed => self.fails(Failure::InjectFailed),
                Outcome::Crashed => self.fails(Failure::InjectCrashed),
            },
        }
    }
}

/// The pipeline at its start, and what it does first: nothing without a recording, and
/// a failure without the model to transcribe it.
pub open spec fn pipeline_start(
    recording: bool,
    whisper_ready: bool,
    whisper_loading: bool,
    backend: Backend,
) -> (PipelineView, Step) {
    (
        PipelineView {
            stage: if recording && whisper_ready {
                Stage::Stopping
            } else {
                Stage::Over
            },
            backend,
            transcript: None,
        },
        if !recording {
            Step::Ignore
        } else if whisper_ready {
            Step::StopRecorder
        } else if whisper_loading {
            Step::Fail(Failure::WhisperLoading)
        } else {
            Step::Fail(Failure::WhisperMissing)
        },
    )
}

impl Pipeline {
    /// Begins the way of a recording, if there is one and it can be transcribed.
    pub fn begin(
        recording: bool,
        whisper_ready: bool,
        whisper_loading: bool,
        cleanup_mode: &str,
        api_key: &str,
        llm_ready: bool,
    ) -> (r: (Pipeline, Step))
        ensures
            (r.0@, r.1) == pipeline_start(
                recording,
                whisper_ready,
                whisper_loading,
                backend_for(cleanup_mode@, api_key@, llm_ready),
            ),
            r.0@.wf(),
    {
        let backend = if same(cleanup_mode, "local") {
            Backend::Local { ready: llm_ready }
        } else if same(cleanup_mode, "cloud") {
            Backend::Cloud { has_key: !api_key.is_empty() }
        } else {
            Backend::Nobody
        };
        if !recording {
            (Pipeline { stage: Stage::Over, backend, transcript: None }, Step::Ignore)
        } else if whisper_ready {
            (Pipeline { stage: Stage::Stopping, backend, transcript: None }, Step::StopRecorder)
        } else {
            let failure = if whisper_loading {
                Failure::WhisperLoading
            } else {
                Failure::WhisperMissing
            };
            (Pipeline { stage: Stage::Over, backend, transcript: None }, Step::Fail(failure))
        }
    }

    /// Tells whether the happening is one that is waited for.
    pub fn accepts(&self, h: &Happening) -> (r: bool)
        ensures
            r == awaits(self@.stage, *h),
    {
        match h {
            Happening::Stopped(_) => self.stage == Stage::Stopping,
            Happening::Transcribed(_) => self.stage == Stage::Transcribing,
            Happening::WorkerReachable(_) => self.stage == Stage::Probing,
            Happening::Cleaned(_) => self.stage == Stage::Cleaning,
            Happening::Injected(_) => self.stage == Stage::Injecting,
        }
    }

    /// The transcript, for the cleanup to work on; empty before there is one.
    pub fn transcript(&self) -> (r: String)
        ensures
            match self@.transcript {
                Some(t) => r == t,
                None => r@ == Seq::<char>::empty(),
            },
    {
        match &self.transcript {
            Some(t) => t.clone(),
            None => String::new(),
        }
    }

    fn fail(&mut self, f: Failure) -> (r: Step)
        ensures
            (final(self)@, r) == old(self)@.fails(f),
    {
        self.stage = Stage::Over;
        Step::Fail(f)
    }

    fn inject(&mut self, text: String, model_missing: bool) -> (r: Step)
        ensures
            (final(self)@, r) == old(self)@.injects(text, model_missing),
    {
        self.stage = Stage::Injecting;
        Step::Inject { text, model_missing }
    }

    /// Takes in a transcript that is not empty.
    fn clean(&mut self, transcript: String) -> (r: Step)
        ensures
            (final(self)@, r) == old(self)@.cleans(transcript),
    {
        self.transcript = Some(transcript.clone());
        match self.backend {
            Backend::Nobody => self.inject(transcript, false),
            Backend::Local { ready } => {
                if !ready {
                    return self.inject(transcript, true);
                }
                self.stage = Stage::Cleaning;
                Step::Clean { local: true }
            },
            Backend::Cloud { has_key } => {
                if !has_key {
                    return self.inject(transcript, false);
                }
                self.stage = Stage::Probing;
                Step::ProbeWorker
            },
        }
    }

    /// Takes in a happening that is waited for, and says what is to be done next.
    pub fn step(&mut self, h: Happening) -> (r: Step)
        requires
            old(self)@.wf(),
            awaits(old(self)@.stage, h),
        ensures
            (final(self)@, r) == old(self)@.next(h),
            final(self)@.wf(),
    {
        match h {
            Happening::Stopped(samples) => match samples {
                None => self.fail(Failure::RecorderStopped),
                Some(n) => {
                    if n == 0 {
                        return self.fail(Failure::NothingCaptured);
                    }
                    self.stage = Stage::Transcribing;
                    Step::Transcribe
                },
            },
            Happening::Transcribed(outcome) => match outcome {
                Outcome::Failed => self.fail(Failure::TranscriptionFailed),
                Outcome::Crashed => self.fail(Failure::TranscriptionCrashed),
                Outcome::Done(text) => {
                    if text.as_str().is_empty() {
                        return self.fail(Failure::NothingHeard);
                    }
                    self.clean(text)
                },
            },
            Happening::WorkerReachable(reachable) => {
                if !reachable {
                    let raw = self.transcript();
                    return self.inject(raw, false);
                }
                self.stage = Stage::Cleaning;
                Step::Clean { local: false }
            },
            Happening::Cleaned(cleaned) => {
                let text = match cleaned {
                    Some(c) => c,
                    None => self.transcript(),
                };
                self.inject(text, false)
            },
            Happening::Injected(outcome) => match outcome {
                Outcome::Done(_) => {
                    self.stage = Stage::Over;
                    Step::ShowDone
                },
                Outcome::Failed => self.fail(Failure::InjectFailed),
                Outcome::Crashed => self.fail(Failure::InjectCrashed),
            },
        }
    }
}

// ── Overlay ──────────────────────────────────────────────────────────────────

/// What the overlay is made to show by a step.
pub enum Shown {
    /// What it showed before.
    Unchanged,
    Transcribing,
    Cleaning,
    Done,
    Error(Seq<char>),
}

/// What the overlay is made to show by a step.
pub open spec fn shown_by(step: Step) -> Shown {
    match step {
        Step::StopRecorder => Shown::Transcribing,
        Step::Clean { .. } => Shown::Cleaning,
        Step::ShowDone => Shown::Done,
        Step::Fail(failure) => Shown::Error(failure.text()),
        _ => Shown::Unchanged,
    }
}

/// What the overlay is to show when this step is taken, where that changes.
pub fn shown(step: &Step) -> (r: Option<NeumaState>)
    ensures
        match shown_by(*step) {
            Shown::Unchanged => r is None,
            Shown::Transcribing => r == Some(NeumaState::Transcribing),
            Shown::Cleaning => r == Some(NeumaState::Cleaning),
            Shown::Done => r == Some(NeumaState::Done),
            Shown::Error(text) => r matches Some(NeumaState::Error { message }) && message@ == text,
        },
{
    match step {
        Step::StopRecorder => Some(NeumaState::Transcribing),
        Step::Clean { .. } => Some(NeumaState::Cleaning),
        Step::ShowDone => Some(NeumaState::Done),
        Step::Fail(failure) => Some(NeumaState::Error { message: failure.message().to_owned() }),
        _ => None,
    }
}

// ── Laws ─────────────────────────────────────────────────────────────────────

/// How many steps are left at most.
pub open spec fn steps_left(stage: Stage) -> nat {
    match stage {
        Stage::Stopping => 5,
        Stage::Transcribing => 4,
        Stage::Probing => 3,
        Stage::Cleaning => 2,
        Stage::Injecting => 1,
        Stage::Over => 0,
    }
}

/// Every step brings the pipeline closer to its end, and it ends exactly when it
/// shows success or a failure.
pub proof fn law_pipeline_ends(v: PipelineView, h: Happening)
    requires
        v.wf(),
        awaits(v.stage, h),
    ensures
        steps_left(v.next(h).0.stage) < steps_left(v.stage),
        v.next(h).0.stage == Stage::Over <==> v.next(h).1 is Fail || v.next(h).1 is ShowDone,
{
}

/// What is typed is the cleaned text where there is one, and the transcript itself
/// in every other case: no failure of the cleanup loses it.
pub proof fn law_transcript_is_never_lost(v: PipelineView, h: Happening)
    requires
        v.wf(),
        awaits(v.stage, h),
    ensures
        v.next(h).1 matches Step::Inject { text, .. } ==> match h {
            Happening::Transcribed(outcome) => outcome == Outcome::Done(text),
            Happening::Cleaned(cleaned) => cleaned == Some(text) || (cleaned is None
                && v.transcript == Some(text)),
            _ => v.transcript == Some(text),
        },
        v.stage is Probing || v.stage is Cleaning ==> !(v.next(h).1 is Fail),
{
}

/// What is typed for a transcript: what the backend makes of it, where there is one
/// that has what it needs and succeeds, and the transcript itself otherwise.
pub open spec fn typed(
    backend: Backend,
    transcript: String,
    reachable: bool,
    cleaned: Option<String>,
) -> String {
    let tried = match backend {
        Backend::Nobody => false,
        Backend::Local { ready } => ready,
        Backend::Cloud { has_key } => has_key && reachable,
    };
    match cleaned {
        Some(text) => if tried {
            text
        } else {
            transcript
        },
        None => transcript,
    }
}

/// From the transcript on, whatever the worker and the cleanup answer, the pipeline
/// comes to type [`typed`], and tells the user where the local model is missing.
pub proof fn law_typed_text(v: PipelineView, text: String, reachable: bool, cleaned: Option<String>)
    requires
        v.wf(),
        v.stage == Stage::Transcribing,
        text@.len() > 0,
    ensures
        ({
            let (v1, s1) = v.next(Happening::Transcribed(Outcome::Done(text)));
            let (v2, s2) = if s1 is ProbeWorker {
                v1.next(Happening::WorkerReachable(reachable))
            } else {
                (v1, s1)
            };
            let (v3, s3) = if s2 is Clean {
                v2.next(Happening::Cleaned(cleaned))
            } else {
                (v2, s2)
            };
            &&& v3.stage == Stage::Injecting
            &&& s3 == (Step::Inject {
                text: typed(v.backend, text, reachable, cleaned),
                model_missing: v.backend == (Backend::Local { ready: false }),
            })
        }),
{
}

/// With cleanup switched off, or without what it needs, the transcript is typed as
/// it is, right after transcription.
pub proof fn law_no_cleanup_without_backend(v: PipelineView, text: String)
    requires
        v.stage == Stage::Transcribing,
        text@.len() > 0,
        v.backend == Backend::Nobody || v.backend == (Backend::Local { ready: false }) || v.backend
            == (Backend::Cloud { has_key: false }),
    ensures
        v.next(Happening::Transcribed(Outcome::Done(text))).1 == (Step::Inject {
            text,
            model_missing: v.backend is Local,
        }),
{
}

/// A transcript leaves this machine only in cloud mode, with a key, after the worker
/// was found reachable.
pub proof fn law_cloud_only_when_asked(v: PipelineView, h: Happening)
    requires
        v.wf(),
        awaits(v.stage, h),
        v.next(h).1 == (Step::Clean { local: false }),
    ensures
        h == Happening::WorkerReachable(true),
        v.backend == (Backend::Cloud { has_key: true }),
        v.next(h).0.backend == v.backend,
{
}

/// The pipeline and its steps, from the first on, after a run of happenings.
pub open spec fn pipeline_run(start: (PipelineView, Step), run: Seq<Happening>) -> (
    PipelineView,
    Seq<Step>,
)
    decreases run.len(),
{
    if run.len() == 0 {
        (start.0, seq![start.1])
    } else {
        let (v, steps) = pipeline_run(start, run.drop_last());
        let (next, step) = v.next(run.last());
        (next, steps.push(step))
    }
}

/// Every happening of the run is waited for when it comes.
pub open spec fn awaited_run(start: (PipelineView, Step), run: Seq<Happening>) -> bool
    decreases run.len(),
{
    run.len() > 0 ==> awaited_run(start, run.drop_last()) && awaits(
        pipeline_run(start, run.drop_last()).0.stage,
        run.last(),
    )
}

/// The place of what is shown in the order of things.
pub open spec fn shown_rank(shown: Shown) -> int {
    match shown {
        Shown::Unchanged => 0,
        Shown::Transcribing => 1,
        Shown::Cleaning => 2,
        Shown::Done | Shown::Error(_) => 3,
    }
}

/// What may have been shown by the time of a stage.
spec fn rank_at(stage: Stage) -> int {
    match stage {
        Stage::Stopping | Stage::Transcribing | Stage::Probing => 1,
        Stage::Cleaning | Stage::Injecting => 2,
        Stage::Over => 3,
    }
}

/// The overlay goes through its states in order, each at most once: transcription, then
/// cleanup, then either success or an error. Cleanup is shown exactly when a backend is
/// called, and a recording that was transcribed at all ends with success or an error.
pub proof fn law_overlay_follows_in_order(
    recording: bool,
    whisper_ready: bool,
    whisper_loading: bool,
    backend: Backend,
    run: Seq<Happening>,
)
    requires
        awaited_run(pipeline_start(recording, whisper_ready, whisper_loading, backend), run),
    ensures
        ({
            let start = pipeline_start(recording, whisper_ready, whisper_loading, backend);
            let (v, steps) = pipeline_run(start, run);
            &&& steps.len() == run.len() + 1
            &&& forall|i: int, j: int|
                0 <= i < j < steps.len() && !(shown_by(#[trigger] steps[i]) is Unchanged) && !(
                shown_by(#[trigger] steps[j]) is Unchanged) ==> shown_rank(shown_by(steps[i]))
                    < shown_rank(shown_by(steps[j]))
            &&& forall|i: int|
                0 <= i < steps.len() ==> (shown_by(#[trigger] steps[i]) is Cleaning
                    <==> steps[i] is Clean)
            &&& recording ==> (v.stage == Stage::Over <==> shown_rank(shown_by(steps.last())) == 3)
            &&& recording && whisper_ready ==> shown_by(steps[0]) is Transcribing
        }),
{
    lemma_overlay(pipeline_start(recording, whisper_ready, whisper_loading, backend), run);
}

proof fn lemma_overlay(start: (PipelineView, Step), run: Seq<Happening>)
    requires
        start.0.stage == Stage::Stopping && start.1 == Step::StopRecorder || start.0.stage
            == Stage::Over && (start.1 is Fail || start.1 is Ignore),
        awaited_run(start, run),
    ensures
        ({
            let (v, steps) = pipeline_run(start, run);
            &&& steps.len() == run.len() + 1
            &&& steps[0] == start.1
            &&& forall|i: int|
                0 <= i < steps.len() ==> shown_rank(shown_by(#[trigger] steps[i])) <= rank_at(
                    v.stage,
                )
            &&& forall|i: int, j: int|
                0 <= i < j < steps.len() && !(shown_by(#[trigger] steps[i]) is Unchanged) && !(
                shown_by(#[trigger] steps[j]) is Unchanged) ==> shown_rank(shown_by(steps[i]))
                    < shown_rank(shown_by(steps[j]))
            &&& !(start.1 is Ignore) ==> (v.stage == Stage::Over <==> shown_rank(
                shown_by(steps.last()),
            ) == 3)
        }),
    decreases run.len(),
{
    if run.len() > 0 {
        lemma_overlay(start, run.drop_last());
        let (u, before) = pipeline_run(start, run.drop_last());
        let (v, steps) = pipeline_run(start, run);
        assert forall|i: int| 0 <= i < steps.len() implies shown_rank(
            shown_by(#[trigger] steps[i]),
        ) <= rank_at(v.stage) by {
            if i < before.len() {
                assert(steps[i] == before[i]);
            }
        }
        assert forall|i: int, j: int|
            0 <= i < j < steps.len() && !(shown_by(#[trigger] steps[i]) is Unchanged) && !(shown_by(
                #[trigger] steps[j],
            ) is Unchanged) implies shown_rank(shown_by(steps[i])) < shown_rank(
            shown_by(steps[j]),
        ) by {
            assert(steps[i] == before[i]);
            if j < before.len() {
                assert(steps[j] == before[j]);
            } else {
                assert(shown_rank(shown_by(before[i])) <= rank_at(u.stage));
            }
        }
    }
}

// ── From the settings to the typed text ──────────────────────────────────────

proof fn lemma_modes_differ()
    ensures
        "local"@ != "cloud"@,
{
    reveal_strlit("local");
    reveal_strlit("cloud");
    assert("local"@[0] == 'l');
    assert("cloud"@[0] == 'c');
}

/// The settings alone decide whether a transcript is cleaned, and by whom: the worker is
/// looked for and handed the transcript only in the mode "cloud" and with a key, the
/// model on this machine only in the mode "local" and when it is loaded. In every other
/// case, whatever the key is and whatever happens, what is typed is the transcript as it
/// was recognised just before, and only in the mode "local" the user is told that the
/// model is missing.
pub proof fn law_settings_decide_cleanup(
    recording: bool,
    whisper_ready: bool,
    whisper_loading: bool,
    mode: Seq<char>,
    api_key: Seq<char>,
    llm_ready: bool,
    run: Seq<Happening>,
)
    requires
        awaited_run(
            pipeline_start(
                recording,
                whisper_ready,
                whisper_loading,
                backend_for(mode, api_key, llm_ready),
            ),
            run,
        ),
    ensures
        ({
            let start = pipeline_start(
                recording,
                whisper_ready,
                whisper_loading,
                backend_for(mode, api_key, llm_ready),
            );
            let steps = pipeline_run(start, run).1;
            let cloud = mode == "cloud"@ && api_key.len() > 0;
            let local = mode == "local"@ && llm_ready;
            &&& steps.len() == run.len() + 1
            &&& forall|i: int|
                0 <= i < steps.len() ==> {
                    &&& #[trigger] steps[i] is ProbeWorker ==> cloud
                    &&& steps[i] == (Step::Clean { local: false }) ==> cloud
                    &&& steps[i] == (Step::Clean { local: true }) ==> local
                    &&& steps[i] matches Step::Inject { text, model_missing } ==> {
                        &&& i > 0
                        &&& !cloud && !local ==> run[i - 1] == Happening::Transcribed(
                            Outcome::Done(text),
                        ) && model_missing == (mode == "local"@)
                        &&& cloud || local ==> !model_missing
                    }
                }
        }),
{
    lemma_modes_differ();
    lemma_settings_decide(
        pipeline_start(
            recording,
            whisper_ready,
            whisper_loading,
            backend_for(mode, api_key, llm_ready),
        ),
        run,
    );
    let start = pipeline_start(
        recording,
        whisper_ready,
        whisper_loading,
        backend_for(mode, api_key, llm_ready),
    );
    let steps = pipeline_run(start, run).1;
    let cloud = mode == "cloud"@ && api_key.len() > 0;
    let local = mode == "local"@ && llm_ready;
    assert forall|i: int| 0 <= i < steps.len() implies {
        &&& #[trigger] steps[i] is ProbeWorker ==> cloud
        &&& steps[i] == (Step::Clean { local: false }) ==> cloud
        &&& steps[i] == (Step::Clean { local: true }) ==> local
        &&& steps[i] matches Step::Inject { text, model_missing } ==> {
            &&& i > 0
            &&& !cloud && !local ==> run[i - 1] == Happening::Transcribed(Outcome::Done(text))
                && model_missing == (mode == "local"@)
            &&& cloud || local ==> !model_missing
        }
    } by {
        assert(step_fits(start.0.backend, steps, run, i));
    }
}

/// The step is one that the backend calls for.
spec fn step_fits(backend: Backend, steps: Seq<Step>, run: Seq<Happening>, i: int) -> bool {
    let cloud = backend == (Backend::Cloud { has_key: true });
    let local = backend == (Backend::Local { ready: true });
    &&& steps[i] is ProbeWorker ==> cloud
    &&& steps[i] == (Step::Clean { local: false }) ==> cloud
    &&& steps[i] == (Step::Clean { local: true }) ==> local
    &&& steps[i] matches Step::Inject { text, model_missing } ==> {
        &&& i > 0
        &&& !cloud && !local ==> run[i - 1] == Happening::Transcribed(Outcome::Done(text))
        &&& model_missing == (backend == (Backend::Local { ready: false }))
    }
}

proof fn lemma_settings_decide(start: (PipelineView, Step), run: Seq<Happening>)
    requires
        start.0.stage == Stage::Stopping && start.1 == Step::StopRecorder || start.0.stage
            == Stage::Over && (start.1 is Fail || start.1 is Ignore),
        awaited_run(start, run),
    ensures
        ({
            let (v, steps) = pipeline_run(start, run);
            &&& v.wf()
            &&& v.backend == start.0.backend
            &&& steps.len() == run.len() + 1
            &&& forall|i: int|
                0 <= i < steps.len() ==> #[trigger] step_fits(start.0.backend, steps, run, i)
        }),
    decreases run.len(),
{
    let (v, steps) = pipeline_run(start, run);
    if run.len() > 0 {
        let shorter = run.drop_last();
        lemma_settings_decide(start, shorter);
        let (u, before) = pipeline_run(start, shorter);
        assert forall|i: int| 0 <= i < steps.len() implies #[trigger] step_fits(
            start.0.backend,
            steps,
            run,
            i,
        ) by {
            if i < before.len() {
                assert(step_fits(start.0.backend, before, shorter, i));
                assert(steps[i] == before[i]);
                if i > 0 {
                    assert(run[i - 1] == shorter[i - 1]);
                }
            }
        }
    } else {
        assert forall|i: int| 0 <= i < steps.len() implies #[trigger] step_fits(
            start.0.backend,
            steps,
            run,
            i,
        ) by {}
    }
}

/// What the world has in store for a dictation.
pub struct Fate {
    /// How many samples the recorder hands out, where it can be stopped.
    pub samples: Option<usize>,
    /// What is recognised.
    pub heard: Outcome<String>,
    /// Whether the worker is reachable.
    pub reachable: bool,
    /// What the cleanup makes of the transcript, where it succeeds.
    pub cleaned: Option<String>,
    /// How typing ends.
    pub injected: Outcome<()>,
}

/// What happens when a step is taken.
pub open spec fn fated(step: Step, fate: Fate) -> Happening {
    match step {
        Step::Transcribe => Happening::Transcribed(fate.heard),
        Step::ProbeWorker => Happening::WorkerReachable(fate.reachable),
        Step::Clean { .. } => Happening::Cleaned(fate.cleaned),
        Step::Inject { .. } => Happening::Injected(fate.injected),
        _ => Happening::Stopped(fate.samples),
    }
}

/// The last step of a dictation, and the text that was typed on the way, if any, within
/// so many steps.
pub open spec fn dictate(
    v: PipelineView,
    step: Step,
    typed: Option<String>,
    fate: Fate,
    steps: nat,
) -> (Step, Option<String>)
    decreases steps,
{
    if steps == 0 || step is Ignore || step is Fail || step is ShowDone {
        (step, typed)
    } else {
        let (next, then) = v.next(fated(step, fate));
        let text = match step {
            Step::Inject { text, .. } => Some(text),
            _ => typed,
        };
        dictate(next, then, text, fate, (steps - 1) as nat)
    }
}

/// What comes of a dictation, for every state of the models, all settings and everything
/// that can happen: it is ignored without a recording; it fails with the first thing
/// that goes wrong; and else what was heard is typed, cleaned where the settings ask for
/// it, what that takes is there, and it succeeds.
pub proof fn law_dictation(
    recording: bool,
    whisper_ready: bool,
    whisper_loading: bool,
    mode: Seq<char>,
    api_key: Seq<char>,
    llm_ready: bool,
    fate: Fate,
)
    ensures
        ({
            let (v, step) = pipeline_start(
                recording,
                whisper_ready,
                whisper_loading,
                backend_for(mode, api_key, llm_ready),
            );
            let (last, typed) = dictate(v, step, None, fate, 6);
            let cleans = (mode == "local"@ && llm_ready) || (mode == "cloud"@ && api_key.len() > 0
                && fate.reachable);
            if !recording {
                last is Ignore && typed is None
            } else if !whisper_ready {
                &&& typed is None
                &&& last == if whisper_loading {
                    Step::Fail(Failure::WhisperLoading)
                } else {
                    Step::Fail(Failure::WhisperMissing)
                }
            } else if fate.samples is None {
                last == Step::Fail(Failure::RecorderStopped) && typed is None
            } else if fate.samples == Some(0usize) {
                last == Step::Fail(Failure::NothingCaptured) && typed is None
            } else {
                match fate.heard {
                    Outcome::Failed => last == Step::Fail(Failure::TranscriptionFailed)
                        && typed is None,
                    Outcome::Crashed => last == Step::Fail(Failure::TranscriptionCrashed)
                        && typed is None,
                    Outcome::Done(transcript) => if transcript@.len() == 0 {
                        last == Step::Fail(Failure::NothingHeard) && typed is None
                    } else {
                        &&& typed == match fate.cleaned {
                            Some(cleaned) => if cleans {
                                Some(cleaned)
                            } else {
                                Some(transcript)
                            },
                            None => Some(transcript),
                        }
                        &&& last == match fate.injected {
                            Outcome::Done(_) => Step::ShowDone,
                            Outcome::Failed => Step::Fail(Failure::InjectFailed),
                            Outcome::Crashed => Step::Fail(Failure::InjectCrashed),
                        }
                    },
                }
            }
        }),
{
    lemma_modes_differ();
    reveal_with_fuel(dictate, 7);
}

/// Whatever comes of a step is awaited, and nothing else is.
pub proof fn law_what_is_awaited(stage: Stage, h: Happening)
    ensures
        awaits(stage, h) <==> match stage {
            Stage::Stopping => h is Stopped,
            Stage::Transcribing => h is Transcribed,
            Stage::Probing => h is WorkerReachable,
            Stage::Cleaning => h is Cleaned,
            Stage::Injecting => h is Injected,
            Stage::Over => false,
        },
{
}

/// The overlay shows an error exactly when the pipeline fails, and with the words of that
/// failure; success exactly when it is done; cleanup exactly when a transcript is handed
/// to a backend; and transcription from the moment on that the recorder is stopped.
pub proof fn law_overlay_shows_what_happens(step: Step)
    ensures
        match shown_by(step) {
            Shown::Error(words) => step matches Step::Fail(failure) && words == failure.text(),
            Shown::Done => step is ShowDone,
            Shown::Cleaning => step is Clean,
            Shown::Transcribing => step is StopRecorder,
            Shown::Unchanged => !(step is Fail || step is ShowDone || step is Clean
                || step is StopRecorder),
        },
{
}

} // verus!
