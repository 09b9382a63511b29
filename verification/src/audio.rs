//! Recording: what happens to each chunk of samples that the input device
//! delivers, and when silence ends the recording.

use vstd::prelude::*;
use vstd::slice::slice_subrange;
use crate::vad;
use crate::vad::Sensitivity;

verus! {

/// The sample rate that transcription and voice detection work at, in Hz.
pub const TARGET_SAMPLE_RATE: u32 = 16_000;

/// 20ms frame at 16 kHz = 320 samples.
pub const VAD_FRAME_SAMPLES: usize = 320;

/// 500ms of grace before silence is evaluated.
pub const VAD_GRACE_MS: u32 = 500;

/// Consecutive non-speech 20ms frames before auto-stop (75 × 20ms = 1.5s).
pub const VAD_SILENCE_FRAMES: u32 = 75;

/// The level shown is taken over this many of the latest samples.
pub const LEVEL_WINDOW: usize = 1024;

// ── Model ────────────────────────────────────────────────────────────────────

/// Whether the detector took the `k`-th frame that it heard for speech.
pub open spec fn spoken(heard: Seq<Seq<i16>>, k: int) -> bool {
    vad::is_speech(
        TARGET_SAMPLE_RATE as int,
        Sensitivity::Aggressive,
        heard.take(k),
        heard[k],
    )
}

/// How many frames at the end of `heard` were silent.
pub open spec fn quiet_tail(heard: Seq<Seq<i16>>) -> nat
    decreases heard.len(),
{
    if heard.len() == 0 || spoken(heard, heard.len() - 1) {
        0
    } else {
        quiet_tail(heard.drop_last()) + 1
    }
}

/// Enough silence has been heard to end the recording.
pub open spec fn silent_long_enough(heard: Seq<Seq<i16>>) -> bool {
    quiet_tail(heard) >= VAD_SILENCE_FRAMES
}

/// How many of `frames` are consumed after `heard`: all of them, unless the silence
/// grows long enough before.
pub open spec fn consumed(heard: Seq<Seq<i16>>, frames: Seq<Seq<i16>>) -> nat
    decreases frames.len(),
{
    if frames.len() == 0 || silent_long_enough(heard) {
        0
    } else {
        1 + consumed(with_frame(heard, frames.first()), frames.drop_first())
    }
}

/// What has been heard once `frame` is consumed: a frame that is too short is
/// skipped, one that is too long is cut.
pub open spec fn with_frame(heard: Seq<Seq<i16>>, frame: Seq<i16>) -> Seq<Seq<i16>> {
    if frame.len() < VAD_FRAME_SAMPLES {
        heard
    } else {
        heard.push(frame.take(VAD_FRAME_SAMPLES as int))
    }
}

/// What has been heard once `frames` are all consumed.
pub open spec fn with_frames(heard: Seq<Seq<i16>>, frames: Seq<Seq<i16>>) -> Seq<Seq<i16>>
    decreases frames.len(),
{
    if frames.len() == 0 {
        heard
    } else {
        with_frame(with_frames(heard, frames.drop_last()), frames.last())
    }
}

/// How many device samples the grace period lasts.
pub open spec fn grace_samples(native_rate: int) -> int {
    native_rate * VAD_GRACE_MS / 1000
}

/// How many device samples make one frame for the detector.
pub open spec fn frame_samples(native_rate: int) -> int {
    VAD_FRAME_SAMPLES * native_rate / (TARGET_SAMPLE_RATE as int)
}

/// How many mono samples come of `samples` interleaved ones: one for each group of
/// `channels`, the last group counted even where it is incomplete.
pub open spec fn mono_samples(samples: int, channels: int) -> int {
    (samples + channels - 1) / channels
}

/// The device rates that can be recorded: a frame has at least one sample, and the
/// length of the grace period fits its arithmetic.
pub open spec fn is_native_rate(hz: u32) -> bool {
    50 <= hz && hz * VAD_GRACE_MS <= u32::MAX
}

/// A recording in progress.
pub struct RecorderView {
    /// Whether samples are still taken.
    pub recording: bool,
    /// How many mono samples have been captured.
    pub captured: nat,
    /// How many captured samples wait to fill a frame.
    pub pending: nat,
    /// The device's sample rate in Hz.
    pub native_rate: int,
    /// The frames that the detector has judged.
    pub heard: Seq<Seq<i16>>,
}

impl RecorderView {
    /// How many samples are left of the grace period.
    pub open spec fn grace(self) -> int {
        if grace_samples(self.native_rate) > self.captured {
            grace_samples(self.native_rate) - self.captured
        } else {
            0
        }
    }

    /// What a chunk that comes to so many mono samples makes of the recording, and what
    /// becomes of it.
    pub open spec fn after_take(self, samples: int) -> (RecorderView, Taken) {
        let evaluated = !silent_long_enough(self.heard) && self.grace() == 0;
        if self.recording {
            let captured = (self.captured + samples) as nat;
            let pending = if evaluated {
                (self.pending + samples) as nat
            } else {
                self.pending
            };
            let frames = if evaluated {
                pending as int / frame_samples(self.native_rate)
            } else {
                0
            };
            (
                RecorderView { captured, pending, ..self },
                Taken::Kept {
                    window_start: (if captured >= LEVEL_WINDOW {
                        captured - LEVEL_WINDOW
                    } else {
                        0
                    }) as usize,
                    evaluated,
                    frames: frames as usize,
                },
            )
        } else {
            (self, Taken::Dropped)
        }
    }

    /// What listening to these frames makes of the recording.
    pub open spec fn after_listen(self, frames: Seq<Seq<i16>>) -> RecorderView {
        let n = consumed(self.heard, frames);
        RecorderView {
            heard: with_frames(self.heard, frames.take(n as int)),
            pending: (self.pending - n * frame_samples(self.native_rate)) as nat,
            ..self
        }
    }
}

/// What becomes of a chunk of samples.
#[derive(Clone, Copy, PartialEq, Eq, Structural)]
pub enum Taken {
    /// The recording is over: the chunk is dropped.
    Dropped,
    /// The chunk is kept. The level is that of the captured samples from
    /// `window_start` on. Where the chunk is `evaluated`, it joins the pending
    /// samples, of which `frames` frames are ready for the detector.
    Kept { window_start: usize, evaluated: bool, frames: usize },
}

/// The state of a recording, without the samples themselves.
pub struct AudioRecorder {
    recording: bool,
    captured: usize,
    detector: webrtc_vad::Vad,
    grace_remaining: usize,
    pending: usize,
    native_rate: u32,
    frame_native: usize,
    silence_frames: u32,
    vad_stopped: bool,
}

impl View for AudioRecorder {
    type V = RecorderView;

    closed spec fn view(&self) -> RecorderView {
        RecorderView {
            recording: self.recording,
            captured: self.captured as nat,
            pending: self.pending as nat,
            native_rate: self.native_rate as int,
            heard: vad::heard(self.detector),
        }
    }
}

impl AudioRecorder {
    /// The counters agree with what has been captured and heard.
    pub closed spec fn wf(&self) -> bool {
        &&& is_native_rate(self.native_rate)
        &&& vad::rate(self.detector) == TARGET_SAMPLE_RATE
        &&& vad::sensitivity(self.detector) == Sensitivity::Aggressive
        &&& self.frame_native == frame_samples(self.native_rate as int)
        &&& self.frame_native > 0
        &&& self.grace_remaining == self@.grace()
        &&& self.grace_remaining > 0 ==> self.pending == 0 && self@.heard.len() == 0
        &&& self.silence_frames == quiet_tail(self@.heard)
        &&& self.silence_frames <= VAD_SILENCE_FRAMES
        &&& self.vad_stopped == silent_long_enough(self@.heard)
    }

    /// Begins a recording from a device with the given sample rate.
    pub fn start(native_rate: u32) -> (r: AudioRecorder)
        requires
            is_native_rate(native_rate),
        ensures
            r.wf(),
            r@ == (RecorderView {
                recording: true,
                captured: 0,
                pending: 0,
                native_rate: native_rate as int,
                heard: Seq::empty(),
            }),
    {
        let mut detector = vad::open(16_000).unwrap();
        let _ = vad::set_sensitivity(&mut detector, Sensitivity::Aggressive);
        let grace_remaining = (native_rate * VAD_GRACE_MS / 1000) as usize;
        let frame_native = (VAD_FRAME_SAMPLES as u64 * native_rate as u64
            / TARGET_SAMPLE_RATE as u64) as usize;
        let r = AudioRecorder {
            recording: true,
            captured: 0,
            detector,
            grace_remaining,
            pending: 0,
            native_rate,
            frame_native,
            silence_frames: 0,
            vad_stopped: false,
        };
        assert(r.frame_native == frame_samples(r.native_rate as int));
        assert(r.frame_native > 0) by (nonlinear_arith)
            requires
                50 <= native_rate,
                r.frame_native == 320 * native_rate / 16_000,
        ;
        assert(r.grace_remaining == r@.grace());
        assert(r.silence_frames == quiet_tail(r@.heard));
        r
    }

    /// Takes a chunk of `length` interleaved samples of so many channels, which are
    /// mixed down to mono. In the grace period it is kept without being evaluated, and
    /// so is every chunk after the auto-stop.
    pub fn take(&mut self, length: usize, channels: usize) -> (r: Taken)
        requires
            old(self).wf(),
            channels > 0,
            old(self)@.captured + mono_samples(length as int, channels as int) <= usize::MAX,
            old(self)@.pending + mono_samples(length as int, channels as int) <= usize::MAX,
        ensures
            final(self).wf(),
            final(self)@.recording == old(self)@.recording,
            final(self)@.native_rate == old(self)@.native_rate,
            final(self)@.heard == old(self)@.heard,
            (final(self)@, r) == old(self)@.after_take(
                mono_samples(length as int, channels as int),
            ),
            !old(self)@.recording ==> r == Taken::Dropped && final(self)@ == old(self)@,
            old(self)@.recording ==> {
                let before = old(self)@;
                let after = final(self)@;
                let samples = mono_samples(length as int, channels as int);
                let listening = !silent_long_enough(before.heard) && before.grace() == 0;
                &&& after.captured == before.captured + samples
                &&& after.pending == if listening {
                    before.pending + samples
                } else {
                    before.pending as int
                }
                &&& r matches Taken::Kept { window_start, evaluated, frames } && {
                    &&& evaluated == listening
                    &&& window_start == if after.captured >= LEVEL_WINDOW {
                        after.captured - LEVEL_WINDOW
                    } else {
                        0
                    }
                    &&& frames == if listening {
                        after.pending as int / frame_samples(after.native_rate)
                    } else {
                        0
                    }
                }
            },
    {
        if !self.recording {
            return Taken::Dropped;
        }
        let samples = mono_length(length, channels);
        self.captured = self.captured + samples;
        let window_start = self.captured.saturating_sub(LEVEL_WINDOW);
        if self.vad_stopped {
            return Taken::Kept { window_start, evaluated: false, frames: 0 };
        }
        if self.grace_remaining > 0 {
            let used = if samples < self.grace_remaining {
                samples
            } else {
                self.grace_remaining
            };
            self.grace_remaining = self.grace_remaining - used;
            return Taken::Kept { window_start, evaluated: false, frames: 0 };
        }
        self.pending = self.pending + samples;
        let frames = self.pending / self.frame_native;
        Taken::Kept { window_start, evaluated: true, frames }
    }

    /// Lets the detector judge `frames`, which were cut from the pending samples
    /// and brought to the detector's rate, until the silence is long enough.
    /// Gives the number of frames consumed.
    pub fn listen(&mut self, frames: &Vec<Vec<i16>>) -> (n: usize)
        requires
            old(self).wf(),
            frames@.len() * frame_samples(old(self)@.native_rate) <= old(self)@.pending,
        ensures
            final(self).wf(),
            n == consumed(old(self)@.heard, frames_of(frames@)),
            n <= frames@.len(),
            final(self)@ == old(self)@.after_listen(frames_of(frames@)),
            final(self)@ == (RecorderView {
                heard: with_frames(old(self)@.heard, frames_of(frames@).take(n as int)),
                pending: (old(self)@.pending - n * frame_samples(old(self)@.native_rate)) as nat,
                ..old(self)@
            }),
    {
        let ghost all = frames_of(frames@);
        let ghost before = self@;
        let mut n: usize = 0;
        assert(all.skip(0) =~= all);
        assert(all.take(0) =~= Seq::<Seq<i16>>::empty());
        while n < frames.len() && !self.vad_stopped
            invariant
                self.wf(),
                all == frames_of(frames@),
                n <= frames@.len(),
                frames@.len() * frame_samples(before.native_rate) <= before.pending,
                self@ == (RecorderView {
                    heard: with_frames(before.heard, all.take(n as int)),
                    pending: (before.pending - n * frame_samples(before.native_rate)) as nat,
                    ..before
                }),
                n * frame_samples(before.native_rate) <= before.pending,
                consumed(before.heard, all) == n + consumed(self@.heard, all.skip(n as int)),
            decreases frames.len() - n,
        {
            assert((n + 1) * self.frame_native <= frames@.len() * self.frame_native && (n + 1)
                * self.frame_native == n * self.frame_native + self.frame_native)
                by (nonlinear_arith)
                requires
                    n + 1 <= frames@.len(),
                    self.frame_native > 0,
            ;
            proof {
                assert(all.take(n + 1).drop_last() =~= all.take(n as int));
                assert(all.skip(n as int).drop_first() =~= all.skip(n + 1));
                assert(all[n as int] == frames@[n as int]@);
            }
            self.hear(frames[n].as_slice());
            n += 1;
        }
        n
    }

    /// Consumes one frame.
    fn hear(&mut self, frame: &[i16])
        requires
            old(self).wf(),
            !old(self).vad_stopped,
            old(self).frame_native <= old(self).pending,
        ensures
            final(self).wf(),
            final(self)@ == (RecorderView {
                heard: with_frame(old(self)@.heard, frame@),
                pending: (old(self)@.pending - frame_samples(old(self)@.native_rate)) as nat,
                ..old(self)@
            }),
    {
        self.pending = self.pending - self.frame_native;
        if frame.len() < VAD_FRAME_SAMPLES {
            return ;
        }
        let cut = slice_subrange(frame, 0, VAD_FRAME_SAMPLES);
        let ghost was = self@.heard;
        assert(cut@ =~= frame@.take(VAD_FRAME_SAMPLES as int));
        match vad::judge(&mut self.detector, cut) {
            Ok(true) => {
                self.silence_frames = 0;
            },
            Ok(false) | Err(_) => {
                self.silence_frames = self.silence_frames + 1;
                if self.silence_frames >= VAD_SILENCE_FRAMES {
                    self.vad_stopped = true;
                }
            },
        }
        assert(self@.heard.drop_last() =~= was);
        assert(self@.heard.take(self@.heard.len() - 1) =~= was);
    }

    /// Ends the recording: no further samples are taken.
    pub fn stop(&mut self)
        requires
            old(self).wf(),
        ensures
            final(self).wf(),
            final(self)@ == (RecorderView { recording: false, ..old(self)@ }),
    {
        self.recording = false;
    }

    /// For the polling loop: how many silent frames have been heard since the last
    /// speech, and whether silence has ended the recording.
    pub fn vad_info(&self) -> (r: (u32, bool))
        requires
            self.wf(),
        ensures
            r.0 == quiet_tail(self@.heard),
            r.0 <= VAD_SILENCE_FRAMES,
            r.1 == silent_long_enough(self@.heard),
            r.1 == (r.0 == VAD_SILENCE_FRAMES),
    {
        (self.silence_frames, self.vad_stopped)
    }

    /// How many device samples make one frame for the detector.
    pub fn frame_native(&self) -> (r: usize)
        requires
            self.wf(),
        ensures
            r == frame_samples(self@.native_rate),
            r > 0,
    {
        self.frame_native
    }
}

/// The frames that a vector of frames holds.
pub open spec fn frames_of(frames: Seq<Vec<i16>>) -> Seq<Seq<i16>> {
    frames.map_values(|f: Vec<i16>| f@)
}

/// How many mono samples come of interleaved ones.
fn mono_length(length: usize, channels: usize) -> (r: usize)
    requires
        channels > 0,
    ensures
        r == mono_samples(length as int, channels as int),
{
    let whole = length / channels;
    let rest = length % channels;
    if rest == 0 {
        assert(mono_samples(length as int, channels as int) == whole) by (nonlinear_arith)
            requires
                channels > 0,
                whole == length / channels,
                0 == length % channels,
                mono_samples(length as int, channels as int) == (length + channels - 1) / channels as int,
        ;
        whole
    } else {
        assert(mono_samples(length as int, channels as int) == whole + 1 && whole < length)
            by (nonlinear_arith)
            requires
                channels > 0,
                rest > 0,
                whole == length / channels,
                rest == length % channels,
                mono_samples(length as int, channels as int) == (length + channels - 1) / channels as int,
        ;
        whole + 1
    }
}

// ── Laws ─────────────────────────────────────────────────────────────────────

/// At least `n` frames at the end were silent exactly when none of the last `n`
/// frames was taken for speech.
pub proof fn law_quiet_tail(heard: Seq<Seq<i16>>, n: nat)
    ensures
        quiet_tail(heard) <= heard.len(),
        quiet_tail(heard) >= n <==> (n <= heard.len() && forall|k: int|
            heard.len() - n <= k < heard.len() ==> !spoken(heard, k)),
    decreases heard.len(),
{
    if heard.len() > 0 {
        let shorter = heard.drop_last();
        assert forall|k: int| 0 <= k < shorter.len() implies spoken(shorter, k) == #[trigger] spoken(
            heard,
            k,
        ) by {
            assert(shorter.take(k) =~= heard.take(k));
        }
        if n > 0 {
            law_quiet_tail(shorter, (n - 1) as nat);
            if quiet_tail(heard) >= n {
                assert forall|k: int| heard.len() - n <= k < heard.len() implies !spoken(
                    heard,
                    k,
                ) by {
                    if k < shorter.len() {
                        assert(!spoken(shorter, k));
                    }
                }
            }
            if n <= heard.len() && forall|k: int|
                heard.len() - n <= k < heard.len() ==> !spoken(heard, k) {
                assert(!spoken(heard, heard.len() - 1));
                assert forall|k: int| shorter.len() - (n - 1) <= k < shorter.len() implies !spoken(
                    shorter,
                    k,
                ) by {
                    assert(!spoken(heard, k));
                }
            }
        } else {
            law_quiet_tail(shorter, 0);
        }
    }
}

/// Silence ends a recording exactly when a full window of frames has been heard since
/// the last that was taken for speech.
pub proof fn law_auto_stop_needs_silence(heard: Seq<Seq<i16>>)
    ensures
        silent_long_enough(heard) <==> (75 <= heard.len() && forall|k: int|
            heard.len() - 75 <= k < heard.len() ==> !spoken(heard, k)),
        silent_long_enough(heard) <==> (VAD_SILENCE_FRAMES <= heard.len() && forall|k: int|
            heard.len() - VAD_SILENCE_FRAMES <= k < heard.len() ==> !spoken(heard, k)),
{
    law_quiet_tail(heard, VAD_SILENCE_FRAMES as nat);
}

/// Once silence has ended a recording, nothing more is listened to.
pub proof fn law_auto_stop_is_final(heard: Seq<Seq<i16>>, frames: Seq<Seq<i16>>)
    requires
        silent_long_enough(heard),
    ensures
        consumed(heard, frames) == 0,
{
}

/// In the grace period nothing has been listened to, so that silence cannot end the
/// recording.
pub proof fn law_grace_period(recorder: &AudioRecorder)
    requires
        recorder.wf(),
        recorder@.captured < grace_samples(recorder@.native_rate),
    ensures
        recorder@.heard.len() == 0,
        recorder@.pending == 0,
        !silent_long_enough(recorder@.heard),
{
}

/// The grace period lasts half a second, to the sample, at every rate.
pub proof fn law_grace_lasts_half_a_second(native_rate: int)
    requires
        0 <= native_rate,
    ensures
        grace_samples(native_rate) * 1000 <= native_rate * 500 < (grace_samples(native_rate) + 1)
            * 1000,
{
}

/// A frame for the detector is a fiftieth of a second, to the sample, at every rate.
pub proof fn law_frame_lasts_twenty_milliseconds(native_rate: int)
    requires
        0 <= native_rate,
    ensures
        frame_samples(native_rate) * 50 <= native_rate < (frame_samples(native_rate) + 1) * 50,
{
}

/// Mixing down leaves one sample for each full group of channels, and one for what is
/// left over.
pub proof fn law_mono_samples(samples: int, channels: int)
    requires
        0 <= samples,
        0 < channels,
    ensures
        (mono_samples(samples, channels) - 1) * channels < samples <= mono_samples(
            samples,
            channels,
        ) * channels,
{
    let m = mono_samples(samples, channels);
    assert((m - 1) * channels < samples <= m * channels) by (nonlinear_arith)
        requires
            0 <= samples,
            0 < channels,
            m == (samples + channels - 1) / channels,
    ;
}

/// A frame is speech where the detector, at 16 kHz and set to be aggressive, takes it for
/// speech after the frames before it.
pub proof fn law_detector_decides(heard: Seq<Seq<i16>>, k: int)
    requires
        0 <= k < heard.len(),
    ensures
        spoken(heard, k) == vad::is_speech(16_000, Sensitivity::Aggressive, heard.take(k), heard[k]),
{
}

/// The detector is handed 320 samples of every frame that has as many, and nothing of one
/// that has fewer.
pub proof fn law_frames_are_cut_to_length(heard: Seq<Seq<i16>>, frame: Seq<i16>)
    ensures
        frame.len() < 320 ==> with_frame(heard, frame) == heard,
        frame.len() >= 320 ==> with_frame(heard, frame) == heard.push(frame.take(320)),
        frame.len() == 320 ==> with_frame(heard, frame) == heard.push(frame),
{
    if frame.len() == 320 {
        assert(frame.take(320) =~= frame);
    }
}

proof fn lemma_with_frames_from_first(heard: Seq<Seq<i16>>, frames: Seq<Seq<i16>>)
    requires
        frames.len() > 0,
    ensures
        with_frames(heard, frames) == with_frames(
            with_frame(heard, frames.first()),
            frames.drop_first(),
        ),
    decreases frames.len(),
{
    if frames.len() == 1 {
        assert(frames.drop_last() =~= Seq::<Seq<i16>>::empty());
        assert(frames.drop_first() =~= Seq::<Seq<i16>>::empty());
        assert(with_frames(heard, frames.drop_last()) == heard);
        assert(frames.last() == frames.first());
        assert(with_frames(with_frame(heard, frames.first()), frames.drop_first()) == with_frame(
            heard,
            frames.first(),
        ));
    } else {
        let shorter = frames.drop_last();
        lemma_with_frames_from_first(heard, shorter);
        assert(frames.drop_first().drop_last() =~= shorter.drop_first());
        assert(frames.drop_first().last() == frames.last());
    }
}

/// Frames are listened to one after the other until enough silence has been heard: it was
/// not enough after any number of them before, and where some are left it is enough.
pub proof fn law_listening_stops_at_silence(heard: Seq<Seq<i16>>, frames: Seq<Seq<i16>>, j: int)
    requires
        0 <= j,
    ensures
        consumed(heard, frames) <= frames.len(),
        j < consumed(heard, frames) ==> !silent_long_enough(with_frames(heard, frames.take(j))),
        consumed(heard, frames) < frames.len() ==> silent_long_enough(
            with_frames(heard, frames.take(consumed(heard, frames) as int)),
        ),
    decreases frames.len(),
{
    assert(frames.take(0) =~= Seq::<Seq<i16>>::empty());
    assert(with_frames(heard, frames.take(0)) == heard);
    if frames.len() > 0 && !silent_long_enough(heard) {
        let first = frames.first();
        let rest = frames.drop_first();
        let h = with_frame(heard, first);
        law_listening_stops_at_silence(h, rest, if j > 0 {
            j - 1
        } else {
            0
        });
        let n = consumed(heard, frames) as int;
        assert(n == 1 + consumed(h, rest));
        if 0 < j <= frames.len() {
            assert(frames.take(j).drop_first() =~= rest.take(j - 1));
            lemma_with_frames_from_first(heard, frames.take(j));
        }
        assert(frames.take(n).drop_first() =~= rest.take(n - 1));
        lemma_with_frames_from_first(heard, frames.take(n));
    }
}

proof fn lemma_full_frames_are_heard(heard: Seq<Seq<i16>>, frames: Seq<Seq<i16>>)
    requires
        forall|i: int| 0 <= i < frames.len() ==> (#[trigger] frames[i]).len() >= 320,
    ensures
        with_frames(heard, frames).len() == heard.len() + frames.len(),
    decreases frames.len(),
{
    if frames.len() > 0 {
        let shorter = frames.drop_last();
        assert forall|i: int| 0 <= i < shorter.len() implies (#[trigger] shorter[i]).len()
            >= 320 by {
            assert(frames[i].len() >= 320);
        }
        lemma_full_frames_are_heard(heard, shorter);
        assert(frames[frames.len() - 1].len() >= 320);
    }
}

/// Silence ends a recording by itself, at every rate. Once half a second has been
/// captured, the next chunk is evaluated, and no chunk before; and listening to
/// seventy-five full frames, none of which is taken for speech, ends the recording, if it
/// has not ended before.
pub proof fn law_silence_ends_a_recording(
    recorder: RecorderView,
    samples: int,
    frames: Seq<Seq<i16>>,
)
    requires
        recorder.recording,
        50 <= recorder.native_rate,
        0 <= samples,
        recorder.captured + samples <= usize::MAX,
        recorder.pending + samples <= usize::MAX,
        !silent_long_enough(recorder.heard),
    ensures
        ({
            let (then, taken) = recorder.after_take(samples);
            &&& then.captured == recorder.captured + samples
            &&& then.heard == recorder.heard
            &&& (recorder.captured * 1000 >= recorder.native_rate * 500 ==> (taken
                matches Taken::Kept { evaluated, frames: ready, .. } && evaluated && then.pending
                == recorder.pending + samples && ready * frame_samples(recorder.native_rate)
                <= then.pending < (ready + 1) * frame_samples(recorder.native_rate)))
            &&& ((recorder.captured + 1) * 1000 <= recorder.native_rate * 500 ==> (taken
                matches Taken::Kept { evaluated, frames: ready, .. } && !evaluated && ready == 0
                && then.pending == recorder.pending))
        }),
        ({
            let all = with_frames(recorder.heard, frames);
            let loud = exists|k: int| recorder.heard.len() <= k < all.len() && spoken(all, k);
            let full = forall|i: int| 0 <= i < frames.len() ==> (#[trigger] frames[i]).len() >= 320;
            frames.len() >= 75 && full && !loud ==> silent_long_enough(
                recorder.after_listen(frames).heard,
            )
        }),
{
    let rate = recorder.native_rate;
    law_grace_lasts_half_a_second(rate);
    law_frame_lasts_twenty_milliseconds(rate);
    let f = frame_samples(rate);
    assert(f > 0);
    let pending = (recorder.pending + samples) as int;
    let ready = pending / f;
    assert(0 <= ready <= pending && ready * f <= pending < (ready + 1) * f) by (nonlinear_arith)
        requires
            0 <= pending,
            f > 0,
            ready == pending / f,
    ;
    let all = with_frames(recorder.heard, frames);
    let loud = exists|k: int| recorder.heard.len() <= k < all.len() && spoken(all, k);
    let full = forall|i: int| 0 <= i < frames.len() ==> (#[trigger] frames[i]).len() >= 320;
    if frames.len() >= 75 && full && !loud {
        lemma_full_frames_are_heard(recorder.heard, frames);
        law_listening_stops_at_silence(recorder.heard, frames, 0);
        let n = consumed(recorder.heard, frames);
        if n == frames.len() {
            assert(frames.take(n as int) =~= frames);
            law_quiet_tail(all, 75);
        }
    }
}

/// The level is taken over the last 1024 samples, or over all where there are fewer.
pub proof fn law_level_window(recorder: RecorderView, samples: int)
    requires
        recorder.recording,
        0 <= samples,
        recorder.captured + samples <= usize::MAX,
    ensures
        ({
            let (then, taken) = recorder.after_take(samples);
            &&& taken matches Taken::Kept { window_start, .. } && then.captured - window_start
                == if then.captured < 1024 {
                then.captured as int
            } else {
                1024
            }
        }),
{
}

/// A recording that was stopped takes nothing more.
pub proof fn law_stopped_recording_is_closed(recorder: RecorderView, samples: int)
    requires
        !recorder.recording,
    ensures
        recorder.after_take(samples) == (recorder, Taken::Dropped),
{
}

/// Listening uses up whole frames of what is pending, one for each frame that was listened
/// to, and changes nothing else but what was heard. Once enough silence was heard, chunks
/// are kept but no longer evaluated.
pub proof fn law_listening_uses_up_frames(
    recorder: RecorderView,
    frames: Seq<Seq<i16>>,
    samples: int,
)
    requires
        frames.len() * frame_samples(recorder.native_rate) <= recorder.pending,
        0 <= recorder.native_rate,
    ensures
        ({
            let then = recorder.after_listen(frames);
            let n = consumed(recorder.heard, frames);
            &&& then.pending + n * frame_samples(recorder.native_rate) == recorder.pending
            &&& then.captured == recorder.captured && then.recording == recorder.recording
            &&& then.native_rate == recorder.native_rate
            &&& then.heard == with_frames(recorder.heard, frames.take(n as int))
        }),
        recorder.recording && silent_long_enough(recorder.heard) ==> {
            let (then, taken) = recorder.after_take(samples);
            &&& taken matches Taken::Kept { evaluated, frames: ready, .. } && !evaluated && ready
                == 0
            &&& then.pending == recorder.pending && then.heard == recorder.heard
        },
{
    law_listening_stops_at_silence(recorder.heard, frames, 0);
    law_frame_lasts_twenty_milliseconds(recorder.native_rate);
    let n = consumed(recorder.heard, frames) as int;
    let f = frame_samples(recorder.native_rate);
    assert(n * f <= frames.len() * f) by (nonlinear_arith)
        requires
            n <= frames.len(),
            0 <= f,
    ;
}

} // verus!
