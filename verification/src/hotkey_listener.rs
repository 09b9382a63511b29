//! Single-key listener with tap-vs-hold detection.
//!
//! One key, two behaviors decided at release time:
//!   Tap  (release before the hold threshold) → toggle mode
//!   Hold (release after the hold threshold)  → push-to-talk

use vstd::prelude::*;
use crate::text::{ascii_lowered, same};

verus! {

/// How long the key is held before a press becomes push-to-talk.
pub const HOLD_THRESHOLD_MS: u64 = 400;

/// The event type that reports a change of modifier keys.
pub const CG_EVENT_FLAGS_CHANGED: u32 = 12;

/// The event mask that selects only changes of modifier keys.
pub const CG_MASK_FLAGS_CHANGED: u64 = 0x1000;

/// The event field that holds the key code.
pub const CG_KEYBOARD_EVENT_KEYCODE: i32 = 9;

/// The system switched the tap off because it was too slow.
pub const CG_TAP_DISABLED_BY_TIMEOUT: u32 = 0xFFFF_FFFE;

/// The system switched the tap off on the user's account.
pub const CG_TAP_DISABLED_BY_USER_INPUT: u32 = 0xFFFF_FFFF;

/// Left Alt / Option.
pub const VK_OPTION: u16 = 58;

/// Right Alt / AltGr.
pub const VK_RIGHT_OPTION: u16 = 61;

/// Left Control.
pub const VK_CONTROL: u16 = 59;

/// Right Control.
pub const VK_RIGHT_CONTROL: u16 = 62;

/// Fn.
pub const VK_FUNCTION: u16 = 63;

pub const FLAG_OPTION: u64 = 0x0008_0000;

pub const FLAG_CONTROL: u64 = 0x0004_0000;

pub const FLAG_FUNCTION: u64 = 0x0080_0000;

/// The event mask is the bit of the one event type.
pub proof fn law_event_mask()
    ensures
        CG_MASK_FLAGS_CHANGED == 1u64 << CG_EVENT_FLAGS_CHANGED,
{
    assert(0x1000u64 == 1u64 << 12u32) by (bit_vector);
}

// ── Key parsing ──────────────────────────────────────────────────────────────

/// `s` with every letter made small, as `str::to_lowercase` gives it.
pub uninterp spec fn lowercase(s: Seq<char>) -> Seq<char>;

/// Every character of `s` is an ASCII character.
pub open spec fn all_ascii(s: Seq<char>) -> bool {
    forall|i: int| 0 <= i < s.len() ==> #[trigger] s[i] <= '\u{7f}'
}

/// `str::to_lowercase`. On a string of ASCII characters it makes the letters from
/// `A` to `Z` small and leaves the rest; on others it follows Unicode's tables,
/// which are not spelled out here.
pub assume_specification[ str::to_lowercase ](s: &str) -> (r: String)
    ensures
        r@ == lowercase(s@),
        all_ascii(s@) ==> r@ == ascii_lowered(s@),
;

/// The key code and the flag of the key that a small-letter name stands for. A name
/// that is not known stands for Alt.
pub open spec fn key_of(name: Seq<char>) -> (u16, u64) {
    if name == "fn"@ || name == "function"@ {
        (VK_FUNCTION, FLAG_FUNCTION)
    } else if name == "alt"@ || name == "option"@ || name == "left_alt"@ || name
        == "left_option"@ {
        (VK_OPTION, FLAG_OPTION)
    } else if name == "right_alt"@ || name == "altgr"@ || name == "right_option"@ || name
        == "alt_right"@ {
        (VK_RIGHT_OPTION, FLAG_OPTION)
    } else if name == "ctrl"@ || name == "control"@ || name == "left_ctrl"@ || name
        == "left_control"@ {
        (VK_CONTROL, FLAG_CONTROL)
    } else if name == "right_ctrl"@ || name == "right_control"@ {
        (VK_RIGHT_CONTROL, FLAG_CONTROL)
    } else {
        (VK_OPTION, FLAG_OPTION)
    }
}

/// The key code and the flag of the key that a small-letter name stands for.
pub fn key_named(name: &str) -> (r: (u16, u64))
    ensures
        r == key_of(name@),
{
    if same(name, "fn") || same(name, "function") {
        (VK_FUNCTION, FLAG_FUNCTION)
    } else if same(name, "alt") || same(name, "option") || same(name, "left_alt") || same(
        name,
        "left_option",
    ) {
        (VK_OPTION, FLAG_OPTION)
    } else if same(name, "right_alt") || same(name, "altgr") || same(name, "right_option") || same(
        name,
        "alt_right",
    ) {
        (VK_RIGHT_OPTION, FLAG_OPTION)
    } else if same(name, "ctrl") || same(name, "control") || same(name, "left_ctrl") || same(
        name,
        "left_control",
    ) {
        (VK_CONTROL, FLAG_CONTROL)
    } else if same(name, "right_ctrl") || same(name, "right_control") {
        (VK_RIGHT_CONTROL, FLAG_CONTROL)
    } else {
        (VK_OPTION, FLAG_OPTION)
    }
}

/// The key code and the flag of the key that a setting names, in capitals or small
/// letters. A name that is not known stands for Alt.
pub fn parse_key(s: &str) -> (r: (u16, u64))
    ensures
        r == key_of(lowercase(s@)),
        all_ascii(s@) ==> r == key_of(ascii_lowered(s@)),
{
    let lowered = s.to_lowercase();
    key_named(lowered.as_str())
}

// ── Event classification ─────────────────────────────────────────────────────

/// What an event that reached the tap is.
#[derive(Clone, Copy, PartialEq, Eq, Structural)]
pub enum TapEvent {
    /// The system switched the tap off: switch it on again, and pass nothing on.
    Disabled,
    /// Nothing to look at: pass it on.
    Foreign,
    /// A change of modifier keys: look at it, and pass it on.
    FlagsChanged,
}

/// Tells what an event of the given type is; `present` says whether the tap was
/// handed an event at all.
pub fn classify(event_type: u32, present: bool) -> (r: TapEvent)
    ensures
        r == TapEvent::Disabled <==> event_type == CG_TAP_DISABLED_BY_TIMEOUT || event_type
            == CG_TAP_DISABLED_BY_USER_INPUT,
        r == TapEvent::FlagsChanged <==> event_type == CG_EVENT_FLAGS_CHANGED && present,
{
    if event_type == CG_TAP_DISABLED_BY_TIMEOUT || event_type == CG_TAP_DISABLED_BY_USER_INPUT {
        TapEvent::Disabled
    } else if event_type != CG_EVENT_FLAGS_CHANGED || !present {
        TapEvent::Foreign
    } else {
        TapEvent::FlagsChanged
    }
}

// ── Sessions ─────────────────────────────────────────────────────────────────

/// What a key event asks for.
#[derive(Clone, Copy, PartialEq, Eq, Structural)]
pub enum Action {
    /// Begin recording, and report back with `timer` once the hold threshold has
    /// passed.
    Start { timer: u64 },
    /// End recording.
    Stop,
    Nothing,
}

/// The state of the hotkey.
#[verifier::ext_equal]
pub struct HotkeyView {
    /// The key is down.
    pub held: bool,
    /// A recording that the key began is going on.
    pub session_active: bool,
    /// The recording ends when the key is released.
    pub ptt_mode: bool,
    /// The hold timer of the present press, while it may still fire.
    pub timer: Option<u64>,
    /// How many recordings the key has begun.
    pub starts: nat,
    /// The key code that is listened for.
    pub key_code: u16,
    /// The flag that says whether the key is down.
    pub flag_mask: u64,
}

impl HotkeyView {
    /// Push-to-talk and a live timer belong to a session whose key is still down.
    pub open spec fn wf(self) -> bool {
        &&& self.ptt_mode ==> self.held && self.session_active
        &&& self.timer matches Some(t) ==> self.held && self.session_active && t < self.starts
    }

    /// The state before any key event.
    pub open spec fn idle(key: (u16, u64)) -> HotkeyView {
        HotkeyView {
            held: false,
            session_active: false,
            ptt_mode: false,
            timer: None,
            starts: 0,
            key_code: key.0,
            flag_mask: key.1,
        }
    }

    /// The key goes down.
    pub open spec fn pressed(self) -> (HotkeyView, Action) {
        if self.session_active {
            (HotkeyView { held: true, ..self }, Action::Nothing)
        } else {
            (
                HotkeyView {
                    held: true,
                    session_active: true,
                    ptt_mode: false,
                    timer: Some(self.starts as u64),
                    starts: self.starts + 1,
                    ..self
                },
                Action::Start { timer: self.starts as u64 },
            )
        }
    }

    /// The key goes up.
    pub open spec fn released(self) -> (HotkeyView, Action) {
        if self.session_active && self.ptt_mode {
            (
                HotkeyView {
                    held: false,
                    session_active: false,
                    ptt_mode: false,
                    timer: None,
                    ..self
                },
                Action::Stop,
            )
        } else {
            (HotkeyView { held: false, timer: None, ..self }, Action::Nothing)
        }
    }

    /// A change of modifier keys: it counts when it is about this key and the key
    /// was not in the reported position already.
    pub open spec fn flags_changed(self, key_code: u16, flags: u64) -> (HotkeyView, Action) {
        let down = flags & self.flag_mask != 0;
        if key_code != self.key_code || down == self.held {
            (self, Action::Nothing)
        } else if down {
            self.pressed()
        } else {
            self.released()
        }
    }

    /// A hold timer fires: the press becomes push-to-talk, if it is still the same
    /// press.
    pub open spec fn hold_elapsed(self, timer: u64) -> (HotkeyView, bool) {
        if self.timer == Some(timer) && self.session_active && self.held {
            (HotkeyView { ptt_mode: true, ..self }, true)
        } else {
            (self, false)
        }
    }

    /// The recording ended elsewhere: the session is over, whatever the key does.
    pub open spec fn recording_ended(self) -> HotkeyView {
        HotkeyView { session_active: false, ptt_mode: false, timer: None, ..self }
    }
}

/// The hotkey.
pub struct Inner {
    held: bool,
    session_active: bool,
    ptt_mode: bool,
    hold_timer: Option<u64>,
    starts: u64,
    target_key_code: u16,
    target_flag_mask: u64,
}

impl View for Inner {
    type V = HotkeyView;

    closed spec fn view(&self) -> HotkeyView {
        HotkeyView {
            held: self.held,
            session_active: self.session_active,
            ptt_mode: self.ptt_mode,
            timer: self.hold_timer,
            starts: self.starts as nat,
            key_code: self.target_key_code,
            flag_mask: self.target_flag_mask,
        }
    }
}

impl Inner {
    /// A hotkey that listens for the key of the given name.
    pub fn new(key_name: &str) -> (r: Inner)
        ensures
            r@ == HotkeyView::idle(key_of(lowercase(key_name@))),
            all_ascii(key_name@) ==> r@ == HotkeyView::idle(key_of(ascii_lowered(key_name@))),
            r@.wf(),
    {
        let (target_key_code, target_flag_mask) = parse_key(key_name);
        Inner {
            held: false,
            session_active: false,
            ptt_mode: false,
            hold_timer: None,
            starts: 0,
            target_key_code,
            target_flag_mask,
        }
    }

    /// Tells whether another press can be counted.
    pub fn accepts(&self) -> (r: bool)
        ensures
            r == (self@.starts < u64::MAX),
    {
        self.starts < u64::MAX
    }

    /// Takes in a change of modifier keys: the event's key code field, of which the
    /// lower sixteen bits count, and its flags.
    pub fn flags_changed(&mut self, key_field: i64, flags: u64) -> (r: Action)
        requires
            old(self)@.wf(),
            old(self)@.starts < u64::MAX,
        ensures
            (final(self)@, r) == old(self)@.flags_changed(key_field as u16, flags),
            final(self)@.wf(),
    {
        let key_code = #[verifier::truncate] (key_field as u16);
        if key_code != self.target_key_code {
            return Action::Nothing;
        }
        let pressed = flags & self.target_flag_mask != 0;
        if pressed {
            if self.held {
                // The system repeats the event while the key stays down.
                return Action::Nothing;
            }
            self.held = true;
            if self.session_active {
                // Second tap in toggle mode: silence or the Done button ends it.
                Action::Nothing
            } else {
                let timer = self.starts;
                self.session_active = true;
                self.ptt_mode = false;
                self.hold_timer = Some(timer);
                self.starts = self.starts + 1;
                Action::Start { timer }
            }
        } else {
            if !self.held {
                return Action::Nothing;
            }
            self.held = false;
            self.cancel_timer();
            if self.session_active && self.ptt_mode {
                self.session_active = false;
                self.ptt_mode = false;
                Action::Stop
            } else {
                // Toggle mode: keep recording.
                Action::Nothing
            }
        }
    }

    /// Forgets the hold timer of the present press.
    fn cancel_timer(&mut self)
        ensures
            final(self)@ == (HotkeyView { timer: None, ..old(self)@ }),
    {
        self.hold_timer = None;
    }

    /// Takes in that the hold threshold of a press has passed. Gives whether the
    /// press became push-to-talk.
    pub fn hold_elapsed(&mut self, timer: u64) -> (r: bool)
        requires
            old(self)@.wf(),
        ensures
            (final(self)@, r) == old(self)@.hold_elapsed(timer),
            final(self)@.wf(),
    {
        let live = match self.hold_timer {
            Some(t) => t == timer,
            None => false,
        };
        if live && self.session_active && self.held {
            self.ptt_mode = true;
            true
        } else {
            false
        }
    }

    /// Takes in that the recording was ended elsewhere: by silence, by the Done
    /// button, by cancelling, or because it could not be begun. The next press begins
    /// another.
    pub fn recording_ended(&mut self)
        requires
            old(self)@.wf(),
        ensures
            final(self)@ == old(self)@.recording_ended(),
            final(self)@.wf(),
    {
        self.session_active = false;
        self.ptt_mode = false;
        self.cancel_timer();
    }
}

// ── Laws ─────────────────────────────────────────────────────────────────────

/// What can happen to the hotkey.
pub enum KeyEvent {
    FlagsChanged { key_code: u16, flags: u64 },
    HoldElapsed { timer: u64 },
    RecordingEnded,
}

/// What the hotkey answers.
pub enum Signal {
    Start,
    PushToTalk,
    Stop,
    /// Nothing, but a session has ended.
    Ended,
    Silent,
}

/// One event: the state after it and the answer to it.
pub open spec fn key_step(s: HotkeyView, e: KeyEvent) -> (HotkeyView, Signal) {
    match e {
        KeyEvent::FlagsChanged { key_code, flags } => {
            let (t, a) = s.flags_changed(key_code, flags);
            (
                t,
                match a {
                    Action::Start { .. } => Signal::Start,
                    Action::Stop => Signal::Stop,
                    Action::Nothing => Signal::Silent,
                },
            )
        },
        KeyEvent::HoldElapsed { timer } => {
            let (t, upgraded) = s.hold_elapsed(timer);
            (
                t,
                if upgraded {
                    Signal::PushToTalk
                } else {
                    Signal::Silent
                },
            )
        },
        KeyEvent::RecordingEnded => (
            s.recording_ended(),
            if s.session_active {
                Signal::Ended
            } else {
                Signal::Silent
            },
        ),
    }
}

/// The state after a run of events.
pub open spec fn key_state(s: HotkeyView, events: Seq<KeyEvent>) -> HotkeyView
    decreases events.len(),
{
    if events.len() == 0 {
        s
    } else {
        key_step(key_state(s, events.drop_last()), events.last()).0
    }
}

/// The answers to a run of events, one for each.
pub open spec fn key_signals(s: HotkeyView, events: Seq<KeyEvent>) -> Seq<Signal>
    decreases events.len(),
{
    if events.len() == 0 {
        Seq::empty()
    } else {
        key_signals(s, events.drop_last()).push(
            key_step(key_state(s, events.drop_last()), events.last()).1,
        )
    }
}

/// How often the recording has been begun less how often it has been ended, by the
/// key or elsewhere.
pub open spec fn balance(signals: Seq<Signal>) -> int
    decreases signals.len(),
{
    if signals.len() == 0 {
        0
    } else {
        balance(signals.drop_last()) + match signals.last() {
            Signal::Start => 1int,
            Signal::Stop | Signal::Ended => -1int,
            _ => 0int,
        }
    }
}

/// Whatever happens to a fresh hotkey, the state stays well-formed, the key that it
/// listens for stays the same, and recordings begin and end in turn: the starts are
/// ahead of the ends by one while a session is active, and by none otherwise.
pub proof fn law_sessions_alternate(key: (u16, u64), events: Seq<KeyEvent>)
    requires
        events.len() < u64::MAX,
    ensures
        key_state(HotkeyView::idle(key), events).wf(),
        key_state(HotkeyView::idle(key), events).starts <= events.len(),
        key_state(HotkeyView::idle(key), events).key_code == key.0,
        key_state(HotkeyView::idle(key), events).flag_mask == key.1,
        balance(key_signals(HotkeyView::idle(key), events)) == if key_state(
            HotkeyView::idle(key),
            events,
        ).session_active {
            1int
        } else {
            0int
        },
    decreases events.len(),
{
    if events.len() > 0 {
        law_sessions_alternate(key, events.drop_last());
        let s = HotkeyView::idle(key);
        let signals = key_signals(s, events);
        assert(signals.drop_last() =~= key_signals(s, events.drop_last()));
    }
}

/// Push-to-talk is announced only in an active session, and only then does the
/// release of the key end it.
pub proof fn law_stop_follows_push_to_talk(s: HotkeyView, e: KeyEvent)
    requires
        s.wf(),
        s.starts < u64::MAX,
    ensures
        key_step(s, e).1 is Stop ==> s.session_active && s.ptt_mode && s.held,
        key_step(s, e).1 is PushToTalk ==> s.session_active && s.held && key_step(s, e).0.ptt_mode,
        key_step(s, e).1 is Start ==> !s.session_active && key_step(s, e).0.session_active
            && !key_step(s, e).0.ptt_mode,
        !s.ptt_mode && key_step(s, e).0.ptt_mode ==> key_step(s, e).1 is PushToTalk,
{
}

/// A tap (press and release, with the hold threshold not passed) begins a recording
/// and leaves it going in toggle mode.
pub proof fn law_tap_toggles(s: HotkeyView, down: u64, up: u64)
    requires
        s.wf(),
        s.starts < u64::MAX,
        !s.held,
        !s.session_active,
        down & s.flag_mask != 0,
        up & s.flag_mask == 0,
    ensures
        ({
            let (s1, a1) = s.flags_changed(s.key_code, down);
            let (s2, a2) = s1.flags_changed(s.key_code, up);
            &&& a1 == Action::Start { timer: s.starts as u64 }
            &&& a2 == Action::Nothing
            &&& s2 == (HotkeyView { session_active: true, starts: s.starts + 1, ..s })
        }),
{
}

/// A session that a tap began is ended elsewhere, by silence or by the Done button:
/// from the tap on until then, whatever happens to the keys, the hotkey asks for
/// nothing.
pub proof fn law_tapped_session_is_left_alone(s: HotkeyView, events: Seq<KeyEvent>)
    requires
        s.session_active,
        !s.ptt_mode,
        s.timer is None,
        forall|i: int| 0 <= i < events.len() ==> !(#[trigger] events[i] is RecordingEnded),
    ensures
        ({
            let t = key_state(s, events);
            t.session_active && !t.ptt_mode && t.timer is None && t.starts == s.starts
        }),
        key_signals(s, events).len() == events.len(),
        forall|i: int| 0 <= i < events.len() ==> #[trigger] key_signals(s, events)[i] is Silent,
    decreases events.len(),
{
    if events.len() > 0 {
        let shorter = events.drop_last();
        assert forall|i: int| 0 <= i < shorter.len() implies !(#[trigger] shorter[i] is RecordingEnded) by {
            assert(!(events[i] is RecordingEnded));
        }
        law_tapped_session_is_left_alone(s, shorter);
        assert(!(events[events.len() - 1] is RecordingEnded));
        assert forall|i: int| 0 <= i < events.len() implies #[trigger] key_signals(
            s,
            events,
        )[i] is Silent by {
            if i < shorter.len() {
                assert(key_signals(s, shorter)[i] is Silent);
            }
        }
    }
}

/// Once a recording has ended elsewhere, however it was begun, the next press of the
/// key begins another; where the key is still down, its release comes first and asks
/// for nothing.
pub proof fn law_next_press_starts_again(s: HotkeyView, down: u64, up: u64)
    requires
        s.wf(),
        s.starts < u64::MAX,
        down & s.flag_mask != 0,
        up & s.flag_mask == 0,
    ensures
        ({
            let ended = s.recording_ended();
            let (t, a) = ended.flags_changed(s.key_code, up);
            &&& a == Action::Nothing
            &&& !t.held
            &&& t.flags_changed(s.key_code, down).1 == (Action::Start { timer: s.starts as u64 })
        }),
{
}

/// An event that comes again, with nothing in between, changes nothing and asks for
/// nothing.
pub proof fn law_repeated_event_changes_nothing(s: HotkeyView, key_code: u16, flags: u64)
    ensures
        ({
            let t = s.flags_changed(key_code, flags).0;
            t.flags_changed(key_code, flags) == (t, Action::Nothing)
        }),
{
}

/// A hold (press, hold threshold passed, release) begins a recording, turns it into
/// push-to-talk and ends it, and the hotkey is ready for the next one.
pub proof fn law_hold_is_push_to_talk(s: HotkeyView, down: u64, up: u64)
    requires
        s.wf(),
        s.starts < u64::MAX,
        !s.held,
        !s.session_active,
        down & s.flag_mask != 0,
        up & s.flag_mask == 0,
    ensures
        ({
            let (s1, a1) = s.flags_changed(s.key_code, down);
            let (s2, upgraded) = s1.hold_elapsed(s.starts as u64);
            let (s3, a3) = s2.flags_changed(s.key_code, up);
            &&& a1 == Action::Start { timer: s.starts as u64 }
            &&& upgraded
            &&& a3 == Action::Stop
            &&& s3 == (HotkeyView { starts: s.starts + 1, ..s })
        }),
{
}

/// Events that are about other keys change nothing and ask for nothing.
pub proof fn law_other_keys_are_ignored(s: HotkeyView, key_code: u16, flags: u64)
    requires
        key_code != s.key_code,
    ensures
        s.flags_changed(key_code, flags) == (s, Action::Nothing),
{
}

/// A timer that was armed before `s` and is not the live one stays without effect,
/// whatever happens next.
pub proof fn law_cancelled_timer_stays_cancelled(s: HotkeyView, timer: u64, events: Seq<KeyEvent>)
    requires
        s.wf(),
        s.starts + events.len() < u64::MAX,
        timer < s.starts,
        s.timer != Some(timer),
    ensures
        key_state(s, events).wf(),
        key_state(s, events).hold_elapsed(timer) == (key_state(s, events), false),
        key_state(s, events).timer != Some(timer),
        s.starts <= key_state(s, events).starts <= s.starts + events.len(),
    decreases events.len(),
{
    if events.len() > 0 {
        law_cancelled_timer_stays_cancelled(s, timer, events.drop_last());
    }
}

/// Releasing the key cancels the timer of the press.
pub proof fn law_release_cancels_timer(s: HotkeyView, flags: u64)
    requires
        s.wf(),
        s.held,
        flags & s.flag_mask == 0,
    ensures
        s.flags_changed(s.key_code, flags).0.timer is None,
        !s.flags_changed(s.key_code, flags).0.held,
{
}

proof fn lemma_key_names()
    ensures
        "fn"@.len() == 2,
        "function"@.len() == 8 && "function"@[0] == 'f',
        "alt"@.len() == 3,
        "option"@.len() == 6,
        "left_alt"@.len() == 8 && "left_alt"@[0] == 'l',
        "left_option"@.len() == 11,
        "right_alt"@.len() == 9 && "right_alt"@[0] == 'r',
        "altgr"@.len() == 5,
        "right_option"@.len() == 12 && "right_option"@[0] == 'r',
        "alt_right"@.len() == 9 && "alt_right"@[0] == 'a',
        "ctrl"@.len() == 4,
        "control"@.len() == 7,
        "left_ctrl"@.len() == 9 && "left_ctrl"@[0] == 'l',
        "left_control"@.len() == 12 && "left_control"@[0] == 'l',
        "right_ctrl"@.len() == 10,
        "right_control"@.len() == 13,
{
    reveal_strlit("fn");
    reveal_strlit("function");
    reveal_strlit("alt");
    reveal_strlit("option");
    reveal_strlit("left_alt");
    reveal_strlit("left_option");
    reveal_strlit("right_alt");
    reveal_strlit("altgr");
    reveal_strlit("right_option");
    reveal_strlit("alt_right");
    reveal_strlit("ctrl");
    reveal_strlit("control");
    reveal_strlit("left_ctrl");
    reveal_strlit("left_control");
    reveal_strlit("right_ctrl");
    reveal_strlit("right_control");
}

/// Each key has its names, and no other name stands for it, but that every name which is
/// not known stands for the left Alt key. The code of a key and its flag belong together.
pub proof fn law_key_names(name: Seq<char>)
    ensures
        ({
            let (code, flag) = key_of(name);
            &&& code == 63 <==> name == "fn"@ || name == "function"@
            &&& code == 61 <==> name == "right_alt"@ || name == "altgr"@ || name == "right_option"@
                || name == "alt_right"@
            &&& code == 59 <==> name == "ctrl"@ || name == "control"@ || name == "left_ctrl"@
                || name == "left_control"@
            &&& code == 62 <==> name == "right_ctrl"@ || name == "right_control"@
            &&& code == 63 || code == 61 || code == 59 || code == 62 || code == 58
            &&& flag == if code == 63 {
                0x80_0000u64
            } else if code == 59 || code == 62 {
                0x4_0000u64
            } else {
                0x8_0000u64
            }
        }),
{
    lemma_key_names();
}

/// As long as a press is held, its hold timer turns it into push-to-talk, whatever came
/// before, and changes nothing else.
pub proof fn law_live_timer_makes_push_to_talk(s: HotkeyView, timer: u64)
    requires
        s.wf(),
        s.timer == Some(timer),
    ensures
        s.hold_elapsed(timer) == (HotkeyView { ptt_mode: true, ..s }, true),
{
}

/// The press of the key begins a recording exactly when none is going on and the key was
/// up, and its release ends one exactly when it is push-to-talk; every other event asks
/// for nothing.
pub proof fn law_when_recordings_begin_and_end(s: HotkeyView, key_code: u16, flags: u64)
    requires
        s.wf(),
    ensures
        ({
            let (t, action) = s.flags_changed(key_code, flags);
            let down = flags & s.flag_mask != 0;
            let mine = key_code == s.key_code;
            &&& action is Start <==> mine && down && !s.held && !s.session_active
            &&& action is Stop <==> mine && !down && s.held && s.ptt_mode
            &&& mine ==> t.held == down
            &&& t.session_active == ((s.session_active || action is Start) && !(action is Stop))
            &&& t.ptt_mode == (s.ptt_mode && !(action is Stop))
            &&& !mine || down == s.held ==> t == s
            &&& t.key_code == s.key_code && t.flag_mask == s.flag_mask
            &&& t.starts == s.starts + if action is Start {
                1int
            } else {
                0
            }
            &&& t.timer == if action is Start {
                Some(s.starts as u64)
            } else if mine && !down {
                None
            } else {
                s.timer
            }
            &&& action matches Action::Start { timer } ==> t.timer == Some(timer)
        }),
{
}

/// When a recording ends elsewhere, nothing of its session is left, and the key stays
/// where it is.
pub proof fn law_ended_recording_leaves_nothing(s: HotkeyView)
    ensures
        s.recording_ended() == (HotkeyView {
            held: s.held,
            starts: s.starts,
            ..HotkeyView::idle((s.key_code, s.flag_mask))
        }),
        s.recording_ended().wf(),
{
}

} // verus!
