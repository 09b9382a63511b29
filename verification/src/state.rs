//! What the application shows and keeps.

use vstd::prelude::*;
use crate::cleanup::{client_for, CleanupClient, ModeView};
use crate::settings::Settings;
use crate::tray::Entry;

verus! {

/// How a recording ends.
#[derive(Clone, Copy, PartialEq, Eq, Structural)]
pub enum ListenMode {
    /// By silence, or by the Done button.
    Toggle,
    /// When the key is released.
    Ptt,
}

/// What the overlay shows.
pub enum NeumaState {
    Idle,
    Loading,
    Listening { mode: ListenMode },
    Transcribing,
    Cleaning,
    Done,
    Error { message: String },
}

/// The address and the model of the Ollama server that the user has set.
pub struct OllamaSetting {
    pub url: String,
    pub model: String,
}

/// What the application keeps while it runs.
pub struct AppState {
    pub settings: Settings,
    pub ollama: OllamaSetting,
    pub cleanup_client: Option<CleanupClient>,
    /// Text before the cursor captured at recording start, used for context-aware
    /// cleanup.
    pub context: Option<String>,
}

impl AppState {
    /// The cleanup client is the one that the settings ask for.
    pub open spec fn in_sync(self) -> bool {
        client_matches(self.cleanup_client, self.settings, self.ollama)
    }

    /// The state of an application with these settings.
    pub fn new(settings: Settings, ollama: OllamaSetting) -> (r: AppState)
        ensures
            r.settings == settings,
            r.ollama == ollama,
            r.context is None,
            r.in_sync(),
    {
        let cleanup_client = CleanupClient::from_settings(
            settings.cleanup_mode.as_str(),
            ollama.url.as_str(),
            ollama.model.as_str(),
        );
        AppState { settings, ollama, cleanup_client, context: None }
    }

    /// Brings the cleanup client in line with the settings.
    pub fn rebuild_cleanup_client(&mut self)
        ensures
            final(self).settings == old(self).settings,
            final(self).ollama == old(self).ollama,
            final(self).context == old(self).context,
            final(self).in_sync(),
    {
        self.cleanup_client = CleanupClient::from_settings(
            self.settings.cleanup_mode.as_str(),
            self.ollama.url.as_str(),
            self.ollama.model.as_str(),
        );
    }
}

/// The client is the one that these settings ask for: none when cleanup is disabled.
pub open spec fn client_matches(
    client: Option<CleanupClient>,
    settings: Settings,
    ollama: OllamaSetting,
) -> bool {
    let mode = settings.cleanup_mode@;
    &&& client is Some <==> mode == "cloud"@ || mode == "local"@
    &&& client matches Some(c) ==> c@ == client_for(mode, ollama.url@, ollama.model@)
}

// ── Start ────────────────────────────────────────────────────────────────────

/// What is done when the application starts.
pub struct Startup {
    pub settings: Settings,
    /// Load the speech recognition model.
    pub load_whisper: bool,
    /// Tell the user that the model has to be downloaded.
    pub notify_download: bool,
}

/// The title of the notification that the model has to be downloaded.
pub const DOWNLOAD_REQUIRED_TITLE: &'static str = "Neuma — Download Required";

/// The body of the notification that the model has to be downloaded.
pub const DOWNLOAD_REQUIRED_BODY: &'static str =
    "The Whisper transcription model needs to be downloaded. Open Settings from the startup window to get started.";

/// How often the permission is looked up, in milliseconds.
pub const PERMISSION_POLL_MS: u64 = 1_000;

/// What is done when the application starts: the stored settings are used where
/// there are readable ones, and the model is loaded where it is found.
pub fn startup(stored: Option<Settings>, whisper_found: bool) -> (r: Startup)
    ensures
        match stored {
            Some(s) => r.settings == s,
            None => r.settings.hotkey@ == "fn"@ && r.settings.cleanup_api_key@ == Seq::<
                char,
            >::empty() && r.settings.cleanup_mode@ == "disabled"@ && !r.settings.launch_at_login,
        },
        r.load_whisper == whisper_found,
        r.notify_download == !whisper_found,
{
    let settings = match stored {
        Some(s) => s,
        None => Settings::default(),
    };
    Startup { settings, load_whisper: whisper_found, notify_download: !whisper_found }
}

// ── Listener ─────────────────────────────────────────────────────────────────

/// What a look at the permission to listen leads to.
#[derive(Clone, Copy, PartialEq, Eq, Structural)]
pub enum Look {
    /// Start the hotkey listener, and look no more.
    Start,
    /// Look again after the interval.
    Wait,
    /// The listener is started: there is nothing to look for.
    Over,
}

/// The watch for the permission to listen, until the hotkey listener is started.
pub struct ListenerWatch {
    started: bool,
}

impl View for ListenerWatch {
    type V = bool;

    /// Whether the listener is started.
    closed spec fn view(&self) -> bool {
        self.started
    }
}

/// A look at the permission: whether the listener is started then, and what the look
/// leads to.
pub open spec fn look_next(started: bool, granted: bool) -> (bool, Look) {
    if started {
        (true, Look::Over)
    } else if granted {
        (true, Look::Start)
    } else {
        (false, Look::Wait)
    }
}

impl ListenerWatch {
    /// The watch before the first look.
    pub fn new() -> (r: ListenerWatch)
        ensures
            !r@,
    {
        ListenerWatch { started: false }
    }

    /// Takes in whether the permission is granted. The first look is at the start of the
    /// application.
    pub fn look(&mut self, granted: bool) -> (r: Look)
        ensures
            (final(self)@, r) == look_next(old(self)@, granted),
    {
        if self.started {
            return Look::Over;
        }
        if granted {
            self.started = true;
            return Look::Start;
        }
        Look::Wait
    }
}

/// Whether the listener is started after these looks.
pub open spec fn started_after(looks: Seq<bool>) -> bool
    decreases looks.len(),
{
    looks.len() > 0 && look_next(started_after(looks.drop_last()), looks.last()).0
}

/// What the `k`-th of these looks leads to.
pub open spec fn look_at(looks: Seq<bool>, k: int) -> Look {
    look_next(started_after(looks.take(k)), looks[k]).1
}

proof fn lemma_started_after(looks: Seq<bool>)
    ensures
        started_after(looks) <==> exists|i: int| 0 <= i < looks.len() && #[trigger] looks[i],
    decreases looks.len(),
{
    if looks.len() > 0 {
        let earlier = looks.drop_last();
        lemma_started_after(earlier);
        if started_after(earlier) {
            let i = choose|i: int| 0 <= i < earlier.len() && #[trigger] earlier[i];
            assert(looks[i]);
        }
        if looks.last() {
            assert(looks[looks.len() - 1]);
        }
        if exists|i: int| 0 <= i < looks.len() && #[trigger] looks[i] {
            let i = choose|i: int| 0 <= i < looks.len() && #[trigger] looks[i];
            if i < earlier.len() {
                assert(earlier[i]);
            }
        }
    }
}

/// The listener is started at the first look that finds the permission granted, and at
/// no other: before it the watch goes on, and after it the watch is over.
pub proof fn law_listener_starts_once(looks: Seq<bool>, k: int)
    requires
        0 <= k < looks.len(),
    ensures
        look_at(looks, k) == Look::Start <==> looks[k] && forall|i: int|
            0 <= i < k ==> !#[trigger] looks[i],
        look_at(looks, k) == Look::Wait <==> forall|i: int| 0 <= i <= k ==> !#[trigger] looks[i],
        look_at(looks, k) == Look::Over <==> exists|i: int| 0 <= i < k && #[trigger] looks[i],
{
    let earlier = looks.take(k);
    lemma_started_after(earlier);
    if started_after(earlier) {
        let i = choose|i: int| 0 <= i < earlier.len() && #[trigger] earlier[i];
        assert(looks[i]);
    } else {
        assert forall|i: int| 0 <= i < k implies !#[trigger] looks[i] by {
            assert(!earlier[i]);
        }
    }
}

// ── Quitting ─────────────────────────────────────────────────────────────────

/// Whether the user has chosen to quit. Only the tray's own command counts, so that
/// Cmd+Q does not quit.
pub struct ExplicitQuit {
    chosen: bool,
}

impl View for ExplicitQuit {
    type V = bool;

    closed spec fn view(&self) -> bool {
        self.chosen
    }
}

impl ExplicitQuit {
    /// The user has not chosen to quit yet.
    pub fn new() -> (r: ExplicitQuit)
        ensures
            !r@,
    {
        ExplicitQuit { chosen: false }
    }

    /// Takes in what was chosen in the tray's menu.
    pub fn note(&mut self, chosen: Option<Entry>)
        ensures
            final(self)@ == quit_noted(old(self)@, chosen),
    {
        if let Some(entry) = chosen {
            if entry == Entry::Quit {
                self.chosen = true;
            }
        }
    }

    /// Whether the user has chosen to quit.
    pub fn is_set(&self) -> (r: bool)
        ensures
            r == self@,
    {
        self.chosen
    }
}

/// Whether the user has chosen to quit, once an entry of the menu is chosen.
pub open spec fn quit_noted(before: bool, chosen: Option<Entry>) -> bool {
    before || chosen == Some(Entry::Quit)
}

/// Whether the user has chosen to quit after choosing these, one after the other.
pub open spec fn quit_after(choices: Seq<Option<Entry>>) -> bool
    decreases choices.len(),
{
    choices.len() > 0 && quit_noted(quit_after(choices.drop_last()), choices.last())
}

/// A request to quit is refused.
pub open spec fn exit_refused(explicit_quit: Option<bool>) -> bool {
    explicit_quit != Some(true)
}

/// A request to quit is refused unless the tray's command to quit was chosen before.
pub proof fn law_only_the_tray_quits(choices: Seq<Option<Entry>>)
    ensures
        exit_refused(Some(quit_after(choices))) <==> !choices.contains(Some(Entry::Quit)),
    decreases choices.len(),
{
    if choices.len() > 0 {
        let earlier = choices.drop_last();
        law_only_the_tray_quits(earlier);
        if earlier.contains(Some(Entry::Quit)) {
            let i = choose|i: int| 0 <= i < earlier.len() && earlier[i] == Some(Entry::Quit);
            assert(choices[i] == Some(Entry::Quit));
        }
        if choices.last() == Some(Entry::Quit) {
            assert(choices[choices.len() - 1] == Some(Entry::Quit));
        }
        if choices.contains(Some(Entry::Quit)) {
            let i = choose|i: int| 0 <= i < choices.len() && choices[i] == Some(Entry::Quit);
            if i < earlier.len() {
                assert(earlier[i] == Some(Entry::Quit));
            }
        }
    }
}

/// Whether a request to quit is refused. `explicit_quit` says whether the user has
/// chosen to quit, and is absent where that is not known.
pub fn refuses_exit(explicit_quit: Option<bool>) -> (r: bool)
    ensures
        r == exit_refused(explicit_quit),
{
    match explicit_quit {
        Some(explicit) => !explicit,
        None => true,
    }
}

/// A client is there exactly in the modes "cloud" and "local". In the first it is the
/// worker's; in the second it asks for the model of the settings, at their address without
/// the whitespace around it and without slashes at its end.
pub proof fn law_client_follows_the_settings(state: AppState)
    requires
        state.in_sync(),
    ensures
        match state.cleanup_client {
            None => state.settings.cleanup_mode@ != "cloud"@ && state.settings.cleanup_mode@
                != "local"@,
            Some(client) => match client@ {
                ModeView::Cloud => state.settings.cleanup_mode@ == "cloud"@,
                ModeView::Local { ollama_url, ollama_model } => {
                    &&& state.settings.cleanup_mode@ == "local"@
                    &&& ollama_model == state.ollama.model@
                    &&& ollama_url.is_prefix_of(crate::text::trimmed(state.ollama.url@))
                    &&& ollama_url.len() > 0 ==> ollama_url.last() != '/'
                },
            },
        },
{
    crate::cleanup::law_mode_names(state.ollama.url@, state.ollama.model@);
    crate::cleanup::law_ollama_address(state.ollama.url@);
}

/// Where it is not known what was chosen, the application stays.
pub proof fn law_exit_is_refused_in_doubt()
    ensures
        exit_refused(None),
{
}

} // verus!
