//! What the frontend asks for.

use vstd::prelude::*;
use crate::downloader::DownloadError;
use crate::json::{members, new_object, put, Member, Scalar};
use crate::settings::Settings;
use crate::state::AppState;
use crate::text::same;

verus! {

/// What happens to the launch agent.
#[derive(Clone, Copy, PartialEq, Eq, Structural)]
pub enum Autostart {
    Enable,
    Disable,
    Keep,
}

/// What happens to the launch agent when the settings change.
pub open spec fn autostart_change(wanted: bool, enabled: bool) -> Autostart {
    if wanted && !enabled {
        Autostart::Enable
    } else if !wanted && enabled {
        Autostart::Disable
    } else {
        Autostart::Keep
    }
}

/// What is done after the settings were replaced.
#[derive(Clone, Copy, PartialEq, Eq, Structural)]
pub struct SavePlan {
    pub autostart: Autostart,
    /// The check mark in the tray.
    pub launch_checked: bool,
    /// Load the local cleanup model. Without this the first dictation after a switch
    /// to local cleanup would go through uncleaned.
    pub load_llm: bool,
}

/// The settings in force.
pub fn get_settings(state: &AppState) -> (r: Settings)
    ensures
        r == state.settings,
{
    state.settings.clone()
}

/// The state with other settings, and nothing else changed.
pub open spec fn with_settings(state: AppState, settings: Settings) -> AppState {
    AppState { settings, ..state }
}

/// Replaces the settings. `autostart_enabled` says whether the launch agent is on,
/// where that could be found out; where not, it counts as off. `llm_loaded` says whether
/// the local cleanup model is there: one that is being loaded counts as loaded, so that
/// it is not loaded twice.
pub fn save_settings(
    state: &mut AppState,
    new_settings: Settings,
    autostart_enabled: Option<bool>,
    llm_loaded: bool,
    llm_found: bool,
) -> (r: SavePlan)
    ensures
        *final(state) == with_settings(*old(state), new_settings),
        r == (SavePlan {
            autostart: autostart_change(
                new_settings.launch_at_login,
                autostart_enabled == Some(true),
            ),
            launch_checked: new_settings.launch_at_login,
            load_llm: new_settings.cleanup_mode@ == "local"@ && !llm_loaded && llm_found,
        }),
{
    let wanted = new_settings.launch_at_login;
    let enabled = match autostart_enabled {
        Some(e) => e,
        None => false,
    };
    let autostart = if wanted && !enabled {
        Autostart::Enable
    } else if !wanted && enabled {
        Autostart::Disable
    } else {
        Autostart::Keep
    };
    let load_llm = same(new_settings.cleanup_mode.as_str(), "local") && !llm_loaded && llm_found;
    state.settings = new_settings;
    SavePlan { autostart, launch_checked: wanted, load_llm }
}

/// What came of writing the settings to the store.
pub enum Persisted {
    /// There is no store to write to.
    NoStore,
    /// The settings could not be turned into a document; the words of the failure.
    NotSerialized(String),
    /// The store could not be saved; the words of the failure.
    NotSaved(String),
    Saved,
}

/// The end of a save: an error where the settings could not be written to a store that
/// there is, and else whether the local cleanup model is to be loaded.
pub fn finish_save(persisted: Persisted, plan: &SavePlan) -> (r: Result<bool, String>)
    ensures
        r == match persisted {
            Persisted::NotSerialized(words) => Err::<bool, String>(words),
            Persisted::NotSaved(words) => Err(words),
            Persisted::NoStore | Persisted::Saved => Ok(plan.load_llm),
        },
{
    match persisted {
        Persisted::NotSerialized(words) => Err(words),
        Persisted::NotSaved(words) => Err(words),
        Persisted::NoStore | Persisted::Saved => Ok(plan.load_llm),
    }
}

/// Once settings are saved, they are the ones in force, however writing them to the
/// store ends, and whatever was saved before.
pub proof fn law_last_save_counts(state: AppState, earlier: Settings, settings: Settings)
    ensures
        with_settings(state, settings).settings == settings,
        with_settings(with_settings(state, earlier), settings) == with_settings(state, settings),
{
}

/// Making the change that the settings call for leaves the launch agent on exactly
/// when it is wanted.
pub proof fn law_autostart_follows_settings(wanted: bool, enabled: bool)
    ensures
        wanted == match autostart_change(wanted, enabled) {
            Autostart::Enable => true,
            Autostart::Disable => false,
            Autostart::Keep => enabled,
        },
{
}

// ── Models ───────────────────────────────────────────────────────────────────

/// What follows a download.
pub enum AfterDownload {
    /// Load the model.
    Load,
    /// The user cancelled: nothing is said.
    Silent,
    /// Tell the user what went wrong.
    Announce(String),
}

/// What follows a download.
pub fn after_download(result: &Result<(), DownloadError>) -> (r: AfterDownload)
    requires
        result matches Err(e) ==> e.wf(),
    ensures
        match *result {
            Ok(_) => r is Load,
            Err(e) => if e.text() == "cancelled"@ {
                r is Silent
            } else {
                r matches AfterDownload::Announce(message) && message@ == e.text()
            },
        },
{
    match result {
        Ok(_) => AfterDownload::Load,
        Err(e) => {
            let message = e.message();
            if same(message.as_str(), "cancelled") {
                AfterDownload::Silent
            } else {
                AfterDownload::Announce(message)
            }
        },
    }
}

/// The status of the speech recognition model, as the frontend reads it.
pub fn get_model_status(downloaded: bool, loaded: bool) -> (r: serde_json::Map<
    String,
    serde_json::Value,
>)
    ensures
        members(r) == map![
            "downloaded"@ => Member::Flag(downloaded),
            "loaded"@ => Member::Flag(loaded),
        ],
{
    let mut object = new_object();
    put(&mut object, "downloaded", Scalar::Flag(downloaded));
    put(&mut object, "loaded", Scalar::Flag(loaded));
    object
}

/// The status of the local cleanup model, as the frontend reads it.
pub fn get_llm_model_status(downloaded: bool) -> (r: serde_json::Map<String, serde_json::Value>)
    ensures
        members(r) == map!["downloaded"@ => Member::Flag(downloaded)],
{
    let mut object = new_object();
    put(&mut object, "downloaded", Scalar::Flag(downloaded));
    object
}

/// What the frontend is told of a failed download.
pub fn download_failure(message: String) -> (r: serde_json::Map<String, serde_json::Value>)
    ensures
        members(r) == map!["message"@ => Member::Text(message@)],
{
    let mut object = new_object();
    put(&mut object, "message", Scalar::Text(message));
    object
}

/// What the frontend is told of the permission to listen.
pub fn permission_report(granted: bool) -> (r: serde_json::Map<String, serde_json::Value>)
    ensures
        members(r) == map!["granted"@ => Member::Flag(granted)],
{
    let mut object = new_object();
    put(&mut object, "granted", Scalar::Flag(granted));
    object
}

} // verus!
