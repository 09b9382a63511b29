//! The voice activity detector.

use vstd::prelude::*;

verus! {

/// How readily the detector takes a frame for speech.
#[derive(Clone, Copy, PartialEq, Eq, Structural)]
pub enum Sensitivity {
    Quality,
    LowBitrate,
    Aggressive,
    VeryAggressive,
}

#[verifier::external_type_specification]
#[verifier::external_body]
pub struct ExVad(webrtc_vad::Vad);

/// The frames that a detector has judged so far, oldest first.
pub uninterp spec fn heard(detector: webrtc_vad::Vad) -> Seq<Seq<i16>>;

/// The sample rate that a detector works at, in Hz.
pub uninterp spec fn rate(detector: webrtc_vad::Vad) -> int;

/// The sensitivity that a detector works with.
pub uninterp spec fn sensitivity(detector: webrtc_vad::Vad) -> Sensitivity;

/// Whether libfvad takes `frame` for speech, after it has judged the frames
/// `before` at the given rate and sensitivity.
pub uninterp spec fn is_speech(
    rate: int,
    sensitivity: Sensitivity,
    before: Seq<Seq<i16>>,
    frame: Seq<i16>,
) -> bool;

/// The sample rates that the detector takes.
pub open spec fn is_rate(hz: int) -> bool {
    hz == 8000 || hz == 16000 || hz == 32000 || hz == 48000
}

/// The frame lengths that the detector takes: ten, twenty or thirty milliseconds.
pub open spec fn is_frame_length(hz: int, samples: int) -> bool {
    samples == hz / 100 || samples == hz / 50 || samples == 3 * (hz / 100)
}

/// `webrtc_vad::Vad::new_with_rate`: a detector that has heard nothing, at the
/// given rate and the default sensitivity, or an error for a rate it does not take.
#[verifier::external_body]
pub(crate) fn open(hz: i32) -> (r: Result<webrtc_vad::Vad, ()>)
    ensures
        r is Ok <==> is_rate(hz as int),
        r matches Ok(detector) ==> rate(detector) == hz && sensitivity(detector)
            == Sensitivity::Quality && heard(detector) == Seq::<Seq<i16>>::empty(),
{
    webrtc_vad::Vad::new_with_rate(hz)
}

/// `webrtc_vad::Vad::set_mode` on a detector that has heard nothing yet: every
/// sensitivity is taken, and only it changes.
#[verifier::external_body]
pub(crate) fn set_sensitivity(detector: &mut webrtc_vad::Vad, to: Sensitivity) -> (r: Result<
    (),
    (),
>)
    requires
        heard(*old(detector)) == Seq::<Seq<i16>>::empty(),
    ensures
        r is Ok,
        sensitivity(*final(detector)) == to,
        rate(*final(detector)) == rate(*old(detector)),
        heard(*final(detector)) == heard(*old(detector)),
{
    detector.set_mode(
        match to {
            Sensitivity::Quality => webrtc_vad::VadMode::Quality,
            Sensitivity::LowBitrate => webrtc_vad::VadMode::LowBitrate,
            Sensitivity::Aggressive => webrtc_vad::VadMode::Aggressive,
            Sensitivity::VeryAggressive => webrtc_vad::VadMode::VeryAggressive,
        },
    )
}

/// `webrtc_vad::Vad::is_voice_segment`: the verdict on a frame of a length that the
/// detector takes, which it remembers; an error for a frame of another length,
/// which it does not.
#[verifier::external_body]
pub(crate) fn judge(detector: &mut webrtc_vad::Vad, frame: &[i16]) -> (r: Result<bool, ()>)
    requires
        frame@.len() > 0,
    ensures
        rate(*final(detector)) == rate(*old(detector)),
        sensitivity(*final(detector)) == sensitivity(*old(detector)),
        if is_frame_length(rate(*old(detector)), frame@.len() as int) {
            &&& r == Ok::<bool, ()>(
                is_speech(
                    rate(*old(detector)),
                    sensitivity(*old(detector)),
                    heard(*old(detector)),
                    frame@,
                ),
            )
            &&& heard(*final(detector)) == heard(*old(detector)).push(frame@)
        } else {
            r is Err && heard(*final(detector)) == heard(*old(detector))
        },
{
    detector.is_voice_segment(frame)
}

} // verus!
