use neuma::commands::{
    after_download, download_failure, finish_save, get_llm_model_status, get_model_status,
    get_settings, permission_report, save_settings, AfterDownload, Autostart, Persisted, SavePlan,
};
use neuma::downloader::DownloadError;
use neuma::settings::{default_cleanup_mode, Settings};
use neuma::state::{
    refuses_exit, startup, AppState, ExplicitQuit, ListenerWatch, Look, OllamaSetting,
};
use neuma::tray::{autostart_after, chosen, menu, toggle_autostart, tooltip, Entry};
use neuma::window::{
    ax_is_process_trusted, ax_request_trust, listening_permission_granted,
    listening_permission_type, mic_permission_status, request_listening_permission, target_monitor,
    Host, MicStatus, Monitor, Point, Request, Target, ACCESSIBILITY_PANE,
    CAN_JOIN_ALL_APPLICATIONS, CAN_JOIN_ALL_SPACES, COLLECTION_BEHAVIOR, FULL_SCREEN_AUXILIARY,
    IGNORES_CYCLE, OLD_ACCESSIBILITY_PANE,
};
use serde_json::Value;

fn settings(mode: &str, launch_at_login: bool) -> Settings {
    Settings { cleanup_mode: mode.to_string(), launch_at_login, ..Settings::default() }
}

fn auto() -> OllamaSetting {
    OllamaSetting { url: "auto".to_string(), model: "llama3".to_string() }
}

#[test]
fn settings_have_defaults() {
    let s = Settings::default();
    assert_eq!(s.hotkey, "fn");
    assert_eq!(s.cleanup_api_key, "");
    assert_eq!(s.cleanup_mode, "disabled");
    assert!(!s.launch_at_login);
    assert_eq!(default_cleanup_mode(), "disabled");
    assert_eq!(s.clone().hotkey, "fn");
}

#[test]
fn the_client_follows_the_settings() {
    let mut state = AppState::new(settings("disabled", false), auto());
    assert!(state.cleanup_client.is_none());
    assert!(state.context.is_none());
    state.settings.cleanup_mode = "local".to_string();
    state.rebuild_cleanup_client();
    assert!(state.cleanup_client.as_ref().unwrap().needs_detection());
    state.settings.cleanup_mode = "cloud".to_string();
    state.rebuild_cleanup_client();
    assert!(state.cleanup_client.as_ref().unwrap().is_cloud());
}

#[test]
fn startup_loads_what_is_there() {
    let s = startup(Some(settings("cloud", true)), true);
    assert_eq!(s.settings.cleanup_mode, "cloud");
    assert!(s.load_whisper && !s.notify_download);
    let s = startup(None, false);
    assert_eq!(s.settings.hotkey, "fn");
    assert!(!s.load_whisper && s.notify_download);
}

#[test]
fn the_listener_starts_once() {
    let mut watch = ListenerWatch::new();
    assert!(watch.look(false) == Look::Wait);
    assert!(watch.look(false) == Look::Wait);
    assert!(watch.look(true) == Look::Start);
    assert!(watch.look(true) == Look::Over);
    assert!(watch.look(false) == Look::Over);
    assert!(ListenerWatch::new().look(true) == Look::Start);
}

#[test]
fn only_the_tray_quits() {
    assert!(refuses_exit(None));
    assert!(refuses_exit(Some(false)));
    assert!(!refuses_exit(Some(true)));
    let mut quit = ExplicitQuit::new();
    assert!(refuses_exit(Some(quit.is_set())));
    quit.note(Some(Entry::Settings));
    quit.note(None);
    assert!(refuses_exit(Some(quit.is_set())));
    quit.note(Some(Entry::Quit));
    quit.note(Some(Entry::LaunchAtLogin));
    assert!(!refuses_exit(Some(quit.is_set())));
}

#[test]
fn saving_settings_plans_the_rest() {
    let mut state = AppState::new(settings("disabled", false), auto());
    let plan = save_settings(&mut state, settings("local", true), Some(false), false, true);
    assert!(
        plan == SavePlan { autostart: Autostart::Enable, launch_checked: true, load_llm: true }
    );
    assert_eq!(get_settings(&state).cleanup_mode, "local");
    assert_eq!(finish_save(Persisted::Saved, &plan), Ok(true));
    assert_eq!(finish_save(Persisted::NoStore, &plan), Ok(true));
    for failed in [Persisted::NotSerialized, Persisted::NotSaved] {
        assert_eq!(finish_save(failed("disk full".to_string()), &plan), Err("disk full".to_string()));
    }
    let plan = save_settings(&mut state, settings("local", false), Some(true), true, true);
    assert!(
        plan == SavePlan { autostart: Autostart::Disable, launch_checked: false, load_llm: false }
    );
    let plan = save_settings(&mut state, settings("local", true), Some(true), false, false);
    assert!(
        plan == SavePlan { autostart: Autostart::Keep, launch_checked: true, load_llm: false }
    );
    let plan = save_settings(&mut state, settings("cloud", false), None, false, true);
    assert!(
        plan == SavePlan { autostart: Autostart::Keep, launch_checked: false, load_llm: false }
    );
}

#[test]
fn downloads_are_followed_up() {
    assert!(matches!(after_download(&Ok(())), AfterDownload::Load));
    assert!(matches!(after_download(&Err(DownloadError::Cancelled)), AfterDownload::Silent));
    assert!(matches!(
        after_download(&Err(DownloadError::Status(503))),
        AfterDownload::Announce(m) if m == "unexpected HTTP status: 503 Service Unavailable"
    ));
}

#[test]
fn reports_are_objects() {
    let status = get_model_status(true, false);
    assert_eq!(status.len(), 2);
    assert_eq!(status.get("downloaded"), Some(&Value::from(true)));
    assert_eq!(status.get("loaded"), Some(&Value::from(false)));
    let llm = get_llm_model_status(false);
    assert_eq!(llm.len(), 1);
    assert_eq!(llm.get("downloaded"), Some(&Value::from(false)));
    let failure = download_failure("disk full".to_string());
    assert_eq!(failure.get("message"), Some(&Value::from("disk full")));
    let permission = permission_report(true);
    assert_eq!(permission.get("granted"), Some(&Value::from(true)));
}

#[test]
fn the_menu_offers_the_permission() {
    assert!(
        menu(true) == vec![Entry::Settings, Entry::LaunchAtLogin, Entry::Separator, Entry::Quit]
    );
    let missing = menu(false);
    assert_eq!(missing.len(), 6);
    assert!(missing[0] == Entry::GrantPermission && missing[1] == Entry::Separator);
    assert_eq!(missing[0].label(), "⚠ Grant Hotkey Access");
    assert_eq!(missing[2].label(), "Settings...");
    assert_eq!(missing[3].label(), "Launch at Login");
    assert_eq!(missing[5].label(), "Quit Neuma");
    assert_eq!(tooltip(true), "Neuma — click to open menu");
    assert_eq!(tooltip(false), "Neuma — ⚠ permission not granted");
}

#[test]
fn what_is_chosen_is_what_was_meant() {
    for entry in menu(false) {
        match entry.id() {
            Some(id) => assert!(chosen(id) == Some(entry)),
            None => assert!(entry == Entry::Separator),
        }
    }
    assert!(chosen("other") == None);
}

#[test]
fn autostart_toggles() {
    let mut s = settings("disabled", false);
    toggle_autostart(&mut s, Some(false));
    assert!(s.launch_at_login);
    toggle_autostart(&mut s, Some(true));
    assert!(!s.launch_at_login);
    toggle_autostart(&mut s, None);
    assert!(s.launch_at_login);
    assert!(autostart_after(None) && autostart_after(Some(false)));
    assert!(!autostart_after(Some(true)));
}

#[test]
fn listening_needs_permission_on_macos() {
    assert!(listening_permission_granted(Host::Other, None, false));
    assert!(!listening_permission_granted(Host::Mac, Some(false), true));
    assert!(listening_permission_granted(Host::Mac, Some(true), false));
    assert!(listening_permission_granted(Host::Mac, None, true));
    assert!(!listening_permission_granted(Host::Mac, None, false));
    assert!(ax_is_process_trusted(Host::Other, false));
    assert!(!ax_is_process_trusted(Host::Mac, false));
    assert_eq!(listening_permission_type(Host::Mac, true), "input_monitoring");
    assert_eq!(listening_permission_type(Host::Mac, false), "accessibility");
    assert_eq!(listening_permission_type(Host::Other, true), "none");
}

#[test]
fn permission_is_asked_for() {
    assert!(request_listening_permission(Host::Mac, true) == Request::ShowInputMonitoring);
    assert!(request_listening_permission(Host::Mac, false) == Request::AskForTrust);
    assert!(request_listening_permission(Host::Other, true) == Request::Nothing);
    assert_eq!(ax_request_trust(Host::Mac, true), Some(ACCESSIBILITY_PANE));
    assert_eq!(ax_request_trust(Host::Mac, false), Some(OLD_ACCESSIBILITY_PANE));
    assert_eq!(ax_request_trust(Host::Other, true), None);
}

#[test]
fn microphone_status_is_read() {
    assert!(mic_permission_status(Host::Mac, 0) == MicStatus::NotDetermined);
    assert!(mic_permission_status(Host::Mac, 1) == MicStatus::Restricted);
    assert!(mic_permission_status(Host::Mac, 2) == MicStatus::Denied);
    assert!(mic_permission_status(Host::Mac, 3) == MicStatus::Authorized);
    assert!(mic_permission_status(Host::Mac, -7) == MicStatus::NotDetermined);
    assert!(mic_permission_status(Host::Other, 2) == MicStatus::Authorized);
}

#[test]
fn window_behavior_is_made_of_its_parts() {
    assert_eq!(
        COLLECTION_BEHAVIOR,
        CAN_JOIN_ALL_SPACES | IGNORES_CYCLE | FULL_SCREEN_AUXILIARY | CAN_JOIN_ALL_APPLICATIONS
    );
    assert_eq!(COLLECTION_BEHAVIOR, 262_465);
}

#[test]
fn the_overlay_follows_the_cursor() {
    let left = Monitor { x: -1_920, y: 0, width: 1_920, height: 1_080 };
    let main = Monitor { x: 0, y: 0, width: 2_560, height: 1_440 };
    let monitors = vec![left, main, main];
    let at = |x: i64, y: i64| target_monitor(&monitors, Some(Point { x, y }));
    assert!(at(-1, 10) == Target::Listed(0));
    assert!(at(0, 0) == Target::Listed(1));
    assert!(at(2_559, 1_439) == Target::Listed(1));
    assert!(at(2_560, 0) == Target::Primary);
    assert!(at(-5, 1_080) == Target::Primary);
    assert!(target_monitor(&monitors, None) == Target::Primary);
    let huge = vec![Monitor { x: 0, y: 0, width: u32::MAX, height: 10 }];
    assert!(target_monitor(&huge, Some(Point { x: 5, y: 5 })) == Target::Primary);
}
