use neuma::typer::{
    inject, Answer, Direction, InjectAction, InjectError, Injection, PasteKey, CONSUME_MS,
    SETTLE_MS,
};
use neuma::window::Host;

/// An injection elsewhere than on macOS that has read the clipboard.
fn read(clipboard: Option<&str>) -> Injection {
    let (mut i, action) = inject(Host::Other);
    assert!(matches!(action, InjectAction::OpenClipboard));
    assert!(matches!(i.step(Answer::Success), InjectAction::ReadClipboard));
    let text = clipboard.map(|t| t.to_string());
    assert!(matches!(i.step(Answer::Clipboard(text)), InjectAction::WriteText));
    i
}

fn is_key(action: InjectAction, wanted: PasteKey, way: Direction) -> bool {
    matches!(action, InjectAction::Key { key, direction } if key == wanted && direction == way)
}

/// Everything from the write up to the wait for the target.
fn paste(i: &mut Injection, modifier: PasteKey) {
    assert!(matches!(i.step(Answer::Success), InjectAction::Sleep { ms: SETTLE_MS }));
    assert!(matches!(i.step(Answer::Success), InjectAction::OpenKeyboard));
    assert!(is_key(i.step(Answer::Success), modifier, Direction::Press));
    assert!(is_key(i.step(Answer::Success), PasteKey::V, Direction::Click));
    assert!(is_key(i.step(Answer::Success), modifier, Direction::Release));
    assert!(matches!(i.step(Answer::Success), InjectAction::Sleep { ms: CONSUME_MS }));
}

#[test]
fn the_clipboard_is_restored() {
    let mut i = read(Some("mine"));
    paste(&mut i, PasteKey::Control);
    assert!(matches!(i.step(Answer::Success), InjectAction::Restore(text) if text == "mine"));
    assert!(matches!(i.step(Answer::Failure), InjectAction::Finished));
    assert!(!i.accepts(&Answer::Success));
}

#[test]
fn a_clipboard_without_text_is_left_alone() {
    let mut i = read(None);
    paste(&mut i, PasteKey::Control);
    assert!(matches!(i.step(Answer::Success), InjectAction::Finished));
}

#[test]
fn macos_needs_access_and_the_command_key() {
    let (mut i, action) = inject(Host::Mac);
    assert!(matches!(action, InjectAction::CheckAccess));
    assert!(matches!(i.step(Answer::Success), InjectAction::OpenClipboard));
    i.step(Answer::Success);
    i.step(Answer::Clipboard(None));
    paste(&mut i, PasteKey::Meta);

    let (mut i, _) = inject(Host::Mac);
    match i.step(Answer::Failure) {
        InjectAction::Fail(e) => assert!(e.message().starts_with("Accessibility access required.")),
        _ => panic!("no error"),
    }
}

fn error(action: InjectAction) -> InjectError {
    match action {
        InjectAction::Fail(e) => e,
        _ => panic!("no error"),
    }
}

#[test]
fn every_failure_has_its_place() {
    let (mut i, _) = inject(Host::Other);
    assert_eq!(error(i.step(Answer::Failure)).message(), "failed to open clipboard");
    let mut i = read(Some("mine"));
    assert_eq!(error(i.step(Answer::Failure)).message(), "failed to write text to clipboard");
    let causes = [
        "failed to create Enigo instance",
        "failed to press Control",
        "failed to click v",
        "failed to release Control",
    ];
    for (n, cause) in causes.iter().enumerate() {
        let mut i = read(Some("mine"));
        for _ in 0..n + 2 {
            i.step(Answer::Success);
        }
        let e = error(i.step(Answer::Failure));
        assert_eq!(e.message(), "failed to simulate paste keystroke");
        assert_eq!(e.cause(Host::Other), Some(*cause));
    }
    assert_eq!(InjectError::PressModifier.cause(Host::Mac), Some("failed to press Meta"));
    assert_eq!(InjectError::ReleaseModifier.cause(Host::Mac), Some("failed to release Meta"));
    assert_eq!(InjectError::OpenClipboard.cause(Host::Mac), None);
}

#[test]
fn only_awaited_answers_are_accepted() {
    let (mut i, _) = inject(Host::Other);
    assert!(i.accepts(&Answer::Failure));
    assert!(!i.accepts(&Answer::Clipboard(None)));
    i.step(Answer::Success);
    assert!(i.accepts(&Answer::Clipboard(None)));
    assert!(!i.accepts(&Answer::Success));
    i.step(Answer::Clipboard(None));
    i.step(Answer::Success);
    assert!(!i.accepts(&Answer::Failure));
}
