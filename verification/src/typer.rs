//! Typing a text into the focused application, by way of the clipboard.

use vstd::prelude::*;
use crate::window::Host;

verus! {

/// How long the clipboard is given to settle before the paste, in milliseconds.
pub const SETTLE_MS: u64 = 50;

/// How long the target is given to take the text before the clipboard is restored,
/// in milliseconds.
pub const CONSUME_MS: u64 = 100;

// ── Errors ───────────────────────────────────────────────────────────────────

/// Why a text could not be typed.
#[derive(Clone, Copy, PartialEq, Eq, Structural)]
pub enum InjectError {
    AccessRequired,
    OpenClipboard,
    WriteClipboard,
    OpenKeyboard,
    PressModifier,
    ClickV,
    ReleaseModifier,
}

impl InjectError {
    pub open spec fn text(self) -> Seq<char> {
        match self {
            InjectError::AccessRequired => "Accessibility access required. Grant Neuma access in System Settings → Privacy & Security → Accessibility, then restart."@,
            InjectError::OpenClipboard => "failed to open clipboard"@,
            InjectError::WriteClipboard => "failed to write text to clipboard"@,
            _ => "failed to simulate paste keystroke"@,
        }
    }

    /// What went wrong.
    pub fn message(self) -> (r: &'static str)
        ensures
            r@ == self.text(),
    {
        match self {
            InjectError::AccessRequired => "Accessibility access required. Grant Neuma access in System Settings → Privacy & Security → Accessibility, then restart.",
            InjectError::OpenClipboard => "failed to open clipboard",
            InjectError::WriteClipboard => "failed to write text to clipboard",
            _ => "failed to simulate paste keystroke",
        }
    }

    pub open spec fn cause_text(self, host: Host) -> Option<Seq<char>> {
        match self {
            InjectError::OpenKeyboard => Some("failed to create Enigo instance"@),
            InjectError::PressModifier => Some(
                match host {
                    Host::Mac => "failed to press Meta"@,
                    Host::Other => "failed to press Control"@,
                },
            ),
            InjectError::ClickV => Some("failed to click v"@),
            InjectError::ReleaseModifier => Some(
                match host {
                    Host::Mac => "failed to release Meta"@,
                    Host::Other => "failed to release Control"@,
                },
            ),
            _ => None,
        }
    }

    /// Which part of the paste went wrong, where it was the paste.
    pub fn cause(self, host: Host) -> (r: Option<&'static str>)
        ensures
            match r {
                Some(cause) => self.cause_text(host) == Some(cause@),
                None => self.cause_text(host) is None,
            },
    {
        match self {
            InjectError::OpenKeyboard => Some("failed to create Enigo instance"),
            InjectError::PressModifier => match host {
                Host::Mac => Some("failed to press Meta"),
                Host::Other => Some("failed to press Control"),
            },
            InjectError::ClickV => Some("failed to click v"),
            InjectError::ReleaseModifier => match host {
                Host::Mac => Some("failed to release Meta"),
                Host::Other => Some("failed to release Control"),
            },
            _ => None,
        }
    }
}

// ── Keys ─────────────────────────────────────────────────────────────────────

/// A key of the paste shortcut.
#[derive(Clone, Copy, PartialEq, Eq, Structural)]
pub enum PasteKey {
    Meta,
    Control,
    V,
}

/// What is done with a key.
#[derive(Clone, Copy, PartialEq, Eq, Structural)]
pub enum Direction {
    Press,
    Click,
    Release,
}

/// The key that is held down for the paste shortcut: Cmd+V on macOS, Ctrl+V
/// elsewhere.
pub open spec fn modifier_of(host: Host) -> PasteKey {
    match host {
        Host::Mac => PasteKey::Meta,
        Host::Other => PasteKey::Control,
    }
}

/// The key that is held down for the paste shortcut.
pub fn modifier(host: Host) -> (r: PasteKey)
    ensures
        r == modifier_of(host),
{
    match host {
        Host::Mac => PasteKey::Meta,
        Host::Other => PasteKey::Control,
    }
}

// ── Injection ────────────────────────────────────────────────────────────────

/// What the injection waits for.
#[derive(Clone, Copy, PartialEq, Eq, Structural)]
pub enum InjectStage {
    CheckingAccess,
    Opening,
    Reading,
    Writing,
    Settling,
    OpeningKeyboard,
    Pressing,
    Clicking,
    Releasing,
    Consuming,
    Restoring,
    Over,
}

/// What is to be done next.
pub enum InjectAction {
    /// Find out whether keystrokes may be simulated. Where they may not, the pane
    /// where the user can allow it is opened.
    CheckAccess,
    OpenClipboard,
    /// Read the text on the clipboard, if it holds text.
    ReadClipboard,
    /// Put the text that is to be typed on the clipboard.
    WriteText,
    Sleep { ms: u64 },
    OpenKeyboard,
    Key { key: PasteKey, direction: Direction },
    /// Put the text that was there before back on the clipboard.
    Restore(String),
    Finished,
    Fail(InjectError),
}

/// What came of it.
pub enum Answer {
    Success,
    Failure,
    /// The text on the clipboard, or nothing where it holds no text.
    Clipboard(Option<String>),
}

/// A text on its way into the focused application.
pub struct Injection {
    host: Host,
    stage: InjectStage,
    saved: Option<String>,
}

/// A text on its way into the focused application.
pub struct InjectionView {
    pub host: Host,
    pub stage: InjectStage,
    /// The text that was on the clipboard before.
    pub saved: Option<String>,
}

impl View for Injection {
    type V = InjectionView;

    closed spec fn view(&self) -> InjectionView {
        InjectionView { host: self.host, stage: self.stage, saved: self.saved }
    }
}

/// The answer is one that the stage waits for. A sleep does not fail.
pub open spec fn answers(stage: InjectStage, a: Answer) -> bool {
    match stage {
        InjectStage::Over => false,
        InjectStage::Reading => a is Clipboard,
        InjectStage::Settling | InjectStage::Consuming => a is Success,
        _ => a is Success || a is Failure,
    }
}

impl InjectionView {
    pub open spec fn goes(self, stage: InjectStage, action: InjectAction) -> (
        InjectionView,
        InjectAction,
    ) {
        (InjectionView { stage, ..self }, action)
    }

    pub open spec fn fails(self, e: InjectError) -> (InjectionView, InjectAction) {
        self.goes(InjectStage::Over, InjectAction::Fail(e))
    }

    /// What follows an answer that is waited for. Failing to restore the clipboard
    /// is not an error.
    pub open spec fn next(self, a: Answer) -> (InjectionView, InjectAction) {
        let ok = a is Success;
        let key = modifier_of(self.host);
        match self.stage {
            InjectStage::CheckingAccess => if ok {
                self.goes(InjectStage::Opening, InjectAction::OpenClipboard)
            } else {
                self.fails(InjectError::AccessRequired)
            },
            InjectStage::Opening => if ok {
                self.goes(InjectStage::Reading, InjectAction::ReadClipboard)
            } else {
                self.fails(InjectError::OpenClipboard)
            },
            InjectStage::Reading => (InjectionView { saved: a->Clipboard_0, ..self }).goes(
                InjectStage::Writing,
                InjectAction::WriteText,
            ),
            InjectStage::Writing => if ok {
                self.goes(InjectStage::Settling, InjectAction::Sleep { ms: SETTLE_MS })
            } else {
                self.fails(InjectError::WriteClipboard)
            },
            InjectStage::Settling => self.goes(
                InjectStage::OpeningKeyboard,
                InjectAction::OpenKeyboard,
            ),
            InjectStage::OpeningKeyboard => if ok {
                self.goes(
                    InjectStage::Pressing,
                    InjectAction::Key { key, direction: Direction::Press },
                )
            } else {
                self.fails(InjectError::OpenKeyboard)
            },
            InjectStage::Pressing => if ok {
                self.goes(
                    InjectStage::Clicking,
                    InjectAction::Key { key: PasteKey::V, direction: Direction::Click },
                )
            } else {
                self.fails(InjectError::PressModifier)
            },
            InjectStage::Clicking => if ok {
                self.goes(
                    InjectStage::Releasing,
                    InjectAction::Key { key, direction: Direction::Release },
                )
            } else {
                self.fails(InjectError::ClickV)
            },
            InjectStage::Releasing => if ok {
                self.goes(InjectStage::Consuming, InjectAction::Sleep { ms: CONSUME_MS })
            } else {
                self.fails(InjectError::ReleaseModifier)
            },
            InjectStage::Consuming => match self.saved {
                Some(text) => self.goes(InjectStage::Restoring, InjectAction::Restore(text)),
                None => self.goes(InjectStage::Over, InjectAction::Finished),
            },
            InjectStage::Restoring => self.goes(InjectStage::Over, InjectAction::Finished),
            InjectStage::Over => self.goes(InjectStage::Over, InjectAction::Finished),
        }
    }
}

/// The injection at its start, and what is to be done first.
pub open spec fn injection_start(host: Host) -> (InjectionView, InjectAction) {
    match host {
        Host::Mac => (
            InjectionView { host, stage: InjectStage::CheckingAccess, saved: None },
            InjectAction::CheckAccess,
        ),
        Host::Other => (
            InjectionView { host, stage: InjectStage::Opening, saved: None },
            InjectAction::OpenClipboard,
        ),
    }
}

/// Begins to type a text. On macOS keystrokes have to be allowed first.
pub fn inject(host: Host) -> (r: (Injection, InjectAction))
    ensures
        (r.0@, r.1) == injection_start(host),
{
    match host {
        Host::Mac => (
            Injection { host, stage: InjectStage::CheckingAccess, saved: None },
            InjectAction::CheckAccess,
        ),
        Host::Other => (
            Injection { host, stage: InjectStage::Opening, saved: None },
            InjectAction::OpenClipboard,
        ),
    }
}

impl Injection {
    /// Tells whether the answer is one that is waited for.
    pub fn accepts(&self, a: &Answer) -> (r: bool)
        ensures
            r == answers(self@.stage, *a),
    {
        match self.stage {
            InjectStage::Over => false,
            InjectStage::Reading => match a {
                Answer::Clipboard(_) => true,
                _ => false,
            },
            InjectStage::Settling | InjectStage::Consuming => match a {
                Answer::Success => true,
                _ => false,
            },
            _ => match a {
                Answer::Clipboard(_) => false,
                _ => true,
            },
        }
    }

    fn go(&mut self, stage: InjectStage, action: InjectAction) -> (r: InjectAction)
        ensures
            (final(self)@, r) == old(self)@.goes(stage, action),
    {
        self.stage = stage;
        action
    }

    fn go_if(
        &mut self,
        ok: bool,
        stage: InjectStage,
        action: InjectAction,
        e: InjectError,
    ) -> (r: InjectAction)
        ensures
            (final(self)@, r) == if ok {
                old(self)@.goes(stage, action)
            } else {
                old(self)@.fails(e)
            },
    {
        if ok {
            self.go(stage, action)
        } else {
            self.go(InjectStage::Over, InjectAction::Fail(e))
        }
    }

    /// Takes in an answer that is waited for, and says what is to be done next.
    pub fn step(&mut self, a: Answer) -> (r: InjectAction)
        requires
            answers(old(self)@.stage, a),
        ensures
            (final(self)@, r) == old(self)@.next(a),
    {
        let key = modifier(self.host);
        let ok = match &a {
            Answer::Success => true,
            _ => false,
        };
        match self.stage {
            InjectStage::CheckingAccess => self.go_if(
                ok,
                InjectStage::Opening,
                InjectAction::OpenClipboard,
                InjectError::AccessRequired,
            ),
            InjectStage::Opening => self.go_if(
                ok,
                InjectStage::Reading,
                InjectAction::ReadClipboard,
                InjectError::OpenClipboard,
            ),
            InjectStage::Reading => {
                if let Answer::Clipboard(text) = a {
                    self.saved = text;
                }
                self.go(InjectStage::Writing, InjectAction::WriteText)
            },
            InjectStage::Writing => self.go_if(
                ok,
                InjectStage::Settling,
                InjectAction::Sleep { ms: SETTLE_MS },
                InjectError::WriteClipboard,
            ),
            InjectStage::Settling => self.go(
                InjectStage::OpeningKeyboard,
                InjectAction::OpenKeyboard,
            ),
            InjectStage::OpeningKeyboard => self.go_if(
                ok,
                InjectStage::Pressing,
                InjectAction::Key { key, direction: Direction::Press },
                InjectError::OpenKeyboard,
            ),
            InjectStage::Pressing => self.go_if(
                ok,
                InjectStage::Clicking,
                InjectAction::Key { key: PasteKey::V, direction: Direction::Click },
                InjectError::PressModifier,
            ),
            InjectStage::Clicking => self.go_if(
                ok,
                InjectStage::Releasing,
                InjectAction::Key { key, direction: Direction::Release },
                InjectError::ClickV,
            ),
            InjectStage::Releasing => self.go_if(
                ok,
                InjectStage::Consuming,
                InjectAction::Sleep { ms: CONSUME_MS },
                InjectError::ReleaseModifier,
            ),
            InjectStage::Consuming => {
                let action = match &self.saved {
                    Some(text) => Some(text.clone()),
                    None => None,
                };
                match action {
                    Some(text) => self.go(InjectStage::Restoring, InjectAction::Restore(text)),
                    None => self.go(InjectStage::Over, InjectAction::Finished),
                }
            },
            InjectStage::Restoring | InjectStage::Over => self.go(
                InjectStage::Over,
                InjectAction::Finished,
            ),
        }
    }
}

// ── Laws ─────────────────────────────────────────────────────────────────────

/// The injection, what it has asked for, and the text on the clipboard.
pub struct Desk {
    pub injection: InjectionView,
    pub action: InjectAction,
    pub clipboard: Option<String>,
}

/// The clipboard after an action and its answer.
pub open spec fn clipboard_after(
    clipboard: Option<String>,
    action: InjectAction,
    a: Answer,
    text: String,
) -> Option<String> {
    match (action, a) {
        (InjectAction::WriteText, Answer::Success) => Some(text),
        (InjectAction::Restore(old_text), Answer::Success) => Some(old_text),
        _ => clipboard,
    }
}

/// The answer is waited for, and tells the truth about the clipboard.
pub open spec fn honest(desk: Desk, a: Answer) -> bool {
    answers(desk.injection.stage, a) && (a matches Answer::Clipboard(c) ==> c == desk.clipboard)
}

/// The desk after one answer.
pub open spec fn desk_next(desk: Desk, a: Answer, text: String) -> Desk {
    let (injection, action) = desk.injection.next(a);
    Desk { injection, action, clipboard: clipboard_after(desk.clipboard, desk.action, a, text) }
}

/// The desk before the injection of a text.
pub open spec fn desk_start(host: Host, clipboard: Option<String>) -> Desk {
    let (injection, action) = injection_start(host);
    Desk { injection, action, clipboard }
}

/// The desk after a run of answers.
pub open spec fn desk_run(host: Host, clipboard: Option<String>, text: String, run: Seq<Answer>) -> Desk
    decreases run.len(),
{
    if run.len() == 0 {
        desk_start(host, clipboard)
    } else {
        desk_next(desk_run(host, clipboard, text, run.drop_last()), run.last(), text)
    }
}

/// Every answer of the run is honest.
pub open spec fn honest_run(
    host: Host,
    clipboard: Option<String>,
    text: String,
    run: Seq<Answer>,
) -> bool
    decreases run.len(),
{
    run.len() == 0 || {
        &&& honest_run(host, clipboard, text, run.drop_last())
        &&& honest(desk_run(host, clipboard, text, run.drop_last()), run.last())
    }
}

/// What is on the clipboard at each stage, and what is remembered of it.
spec fn desk_wf(desk: Desk, host: Host, clipboard: Option<String>, text: String) -> bool {
    let v = desk.injection;
    &&& v.host == host
    &&& match v.stage {
        InjectStage::CheckingAccess | InjectStage::Opening | InjectStage::Reading => {
            &&& desk.clipboard == clipboard
            &&& !(desk.action is WriteText) && !(desk.action is Restore)
        },
        InjectStage::Writing => {
            &&& desk.clipboard == clipboard
            &&& v.saved == clipboard
            &&& desk.action is WriteText
        },
        InjectStage::Restoring => {
            &&& desk.clipboard == Some(text)
            &&& v.saved == clipboard
            &&& clipboard is Some
            &&& desk.action == InjectAction::Restore(clipboard->0)
        },
        InjectStage::Over => {
            &&& desk.clipboard == clipboard || desk.clipboard == Some(text)
            &&& desk.action is Finished || desk.action is Fail
            &&& (desk.action is Finished && clipboard is None ==> desk.clipboard == Some(text))
        },
        _ => {
            &&& desk.clipboard == Some(text)
            &&& v.saved == clipboard
            &&& !(desk.action is WriteText) && !(desk.action is Restore)
        },
    }
}

proof fn lemma_desk_run(host: Host, clipboard: Option<String>, text: String, run: Seq<Answer>)
    requires
        honest_run(host, clipboard, text, run),
    ensures
        desk_wf(desk_run(host, clipboard, text, run), host, clipboard, text),
    decreases run.len(),
{
    if run.len() > 0 {
        lemma_desk_run(host, clipboard, text, run.drop_last());
    }
}

/// Whatever happens, the clipboard holds what it held before, or the text that was
/// to be typed; and an injection that finishes leaves the text it found there,
/// unless the clipboard refused it, and the typed text where it found none.
pub proof fn law_clipboard_is_restored(
    host: Host,
    clipboard: Option<String>,
    text: String,
    run: Seq<Answer>,
)
    requires
        honest_run(host, clipboard, text, run),
    ensures
        ({
            let desk = desk_run(host, clipboard, text, run);
            &&& desk.clipboard == clipboard || desk.clipboard == Some(text)
            &&& (desk.action is Finished && !(run.last() is Failure) ==> desk.clipboard
                == match clipboard {
                Some(found) => Some(found),
                None => Some(text),
            })
        }),
{
    lemma_desk_run(host, clipboard, text, run);
    if run.len() > 0 {
        lemma_desk_run(host, clipboard, text, run.drop_last());
    }
}

/// The keys go out only after the text is on the clipboard.
pub proof fn law_text_is_there_before_paste(
    host: Host,
    clipboard: Option<String>,
    text: String,
    run: Seq<Answer>,
)
    requires
        honest_run(host, clipboard, text, run),
        desk_run(host, clipboard, text, run).action is Key,
    ensures
        desk_run(host, clipboard, text, run).clipboard == Some(text),
{
    lemma_desk_run(host, clipboard, text, run);
    if run.len() > 0 {
        lemma_desk_run(host, clipboard, text, run.drop_last());
    }
}

/// How many steps are left at most.
pub open spec fn inject_steps_left(stage: InjectStage) -> nat {
    match stage {
        InjectStage::CheckingAccess => 11,
        InjectStage::Opening => 10,
        InjectStage::Reading => 9,
        InjectStage::Writing => 8,
        InjectStage::Settling => 7,
        InjectStage::OpeningKeyboard => 6,
        InjectStage::Pressing => 5,
        InjectStage::Clicking => 4,
        InjectStage::Releasing => 3,
        InjectStage::Consuming => 2,
        InjectStage::Restoring => 1,
        InjectStage::Over => 0,
    }
}

/// Every step brings the injection closer to its end, and it ends exactly when it
/// finishes or fails.
pub proof fn law_injection_ends(v: InjectionView, a: Answer)
    requires
        answers(v.stage, a),
    ensures
        inject_steps_left(v.next(a).0.stage) < inject_steps_left(v.stage),
        v.next(a).0.stage == InjectStage::Over <==> v.next(a).1 is Finished || v.next(a).1 is Fail,
{
}

/// The injection and everything that it has asked for, after a run of answers.
pub open spec fn inject_run(host: Host, run: Seq<Answer>) -> (InjectionView, Seq<InjectAction>)
    decreases run.len(),
{
    if run.len() == 0 {
        (injection_start(host).0, seq![injection_start(host).1])
    } else {
        let (v, asked) = inject_run(host, run.drop_last());
        let (next, action) = v.next(run.last());
        (next, asked.push(action))
    }
}

/// The answer says that what was asked for is done; `found` is the text on the clipboard.
pub open spec fn done_well(action: InjectAction, a: Answer, found: Option<String>) -> bool {
    match action {
        InjectAction::ReadClipboard => a == Answer::Clipboard(found),
        InjectAction::Finished | InjectAction::Fail(_) => false,
        _ => a is Success,
    }
}

/// Everything that was asked for was done.
pub open spec fn all_done_well(host: Host, run: Seq<Answer>, found: Option<String>) -> bool
    decreases run.len(),
{
    run.len() > 0 ==> all_done_well(host, run.drop_last(), found) && done_well(
        inject_run(host, run.drop_last()).1.last(),
        run.last(),
        found,
    )
}

/// What it takes to type a text: on macOS the permission; the clipboard, whose text is
/// kept and replaced; fifty milliseconds; the paste shortcut of the system, pressed,
/// clicked and released in this order; a hundred milliseconds; and the text that was
/// there put back, if there was one.
pub open spec fn full_course(host: Host, found: Option<String>) -> Seq<InjectAction> {
    let key = match host {
        Host::Mac => PasteKey::Meta,
        Host::Other => PasteKey::Control,
    };
    let access = match host {
        Host::Mac => seq![InjectAction::CheckAccess],
        Host::Other => Seq::empty(),
    };
    let end = match found {
        Some(text) => seq![InjectAction::Restore(text), InjectAction::Finished],
        None => seq![InjectAction::Finished],
    };
    access + seq![
        InjectAction::OpenClipboard,
        InjectAction::ReadClipboard,
        InjectAction::WriteText,
        InjectAction::Sleep { ms: 50 },
        InjectAction::OpenKeyboard,
        InjectAction::Key { key, direction: Direction::Press },
        InjectAction::Key { key: PasteKey::V, direction: Direction::Click },
        InjectAction::Key { key, direction: Direction::Release },
        InjectAction::Sleep { ms: 100 },
    ] + end
}

/// The stage after so many answers, counted from the check for access.
spec fn stage_after(answers: int, found: Option<String>) -> InjectStage {
    if answers == 0 {
        InjectStage::CheckingAccess
    } else if answers == 1 {
        InjectStage::Opening
    } else if answers == 2 {
        InjectStage::Reading
    } else if answers == 3 {
        InjectStage::Writing
    } else if answers == 4 {
        InjectStage::Settling
    } else if answers == 5 {
        InjectStage::OpeningKeyboard
    } else if answers == 6 {
        InjectStage::Pressing
    } else if answers == 7 {
        InjectStage::Clicking
    } else if answers == 8 {
        InjectStage::Releasing
    } else if answers == 9 {
        InjectStage::Consuming
    } else if answers == 10 && found is Some {
        InjectStage::Restoring
    } else {
        InjectStage::Over
    }
}

proof fn lemma_course(host: Host, run: Seq<Answer>, found: Option<String>)
    requires
        all_done_well(host, run, found),
    ensures
        ({
            let (v, asked) = inject_run(host, run);
            let skipped: int = if host == Host::Mac {
                0
            } else {
                1
            };
            let course = full_course(host, found);
            &&& run.len() < course.len()
            &&& asked.len() == run.len() + 1
            &&& asked.last() == course[run.len() as int]
            &&& v.host == host
            &&& v.stage == stage_after(run.len() + skipped, found)
            &&& run.len() + skipped >= 3 ==> v.saved == found
        }),
    decreases run.len(),
{
    if run.len() > 0 {
        lemma_course(host, run.drop_last(), found);
    }
}

/// When everything that is asked for is done, typing a text takes its full course, in
/// this order, nothing more and nothing less, and finishes.
pub proof fn law_text_is_typed(host: Host, run: Seq<Answer>, found: Option<String>)
    requires
        all_done_well(host, run, found),
    ensures
        run.len() < full_course(host, found).len(),
        inject_run(host, run).1 == full_course(host, found).take(run.len() as int + 1),
    decreases run.len(),
{
    lemma_course(host, run, found);
    let course = full_course(host, found);
    if run.len() > 0 {
        law_text_is_typed(host, run.drop_last(), found);
    }
    assert(inject_run(host, run).1 =~= course.take(run.len() as int + 1));
}

/// Typing fails exactly when something that was asked for failed, except putting the old
/// text back, and the error says what it was.
pub proof fn law_inject_error_says_what_failed(v: InjectionView, a: Answer)
    requires
        answers(v.stage, a),
    ensures
        match v.next(a).1 {
            InjectAction::Fail(error) => a is Failure && match error {
                InjectError::AccessRequired => v.stage is CheckingAccess,
                InjectError::OpenClipboard => v.stage is Opening,
                InjectError::WriteClipboard => v.stage is Writing,
                InjectError::OpenKeyboard => v.stage is OpeningKeyboard,
                InjectError::PressModifier => v.stage is Pressing,
                InjectError::ClickV => v.stage is Clicking,
                InjectError::ReleaseModifier => v.stage is Releasing,
            },
            _ => a is Failure ==> v.stage is Restoring,
        },
{
}

/// Whatever can come of an action is awaited: the clipboard's text where it was asked for,
/// success where nothing can fail, and else success or failure; and nothing once it is
/// over.
pub proof fn law_what_is_awaited(stage: InjectStage, a: Answer)
    ensures
        answers(stage, a) <==> match a {
            Answer::Clipboard(_) => stage is Reading,
            Answer::Success => !(stage is Reading || stage is Over),
            Answer::Failure => !(stage is Reading || stage is Settling || stage is Consuming
                || stage is Over),
        },
{
}

} // verus!
