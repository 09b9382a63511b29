//! What the user can set.

use vstd::prelude::*;

verus! {

/// The cleanup mode of a user who has chosen none.
pub fn default_cleanup_mode() -> (r: String)
    ensures
        r@ == "disabled"@,
{
    "disabled".to_owned()
}

#[derive(Debug)]
pub struct Settings {
    /// The single key used for both tap-to-toggle and hold-to-push-to-talk.
    /// Valid: "fn", "alt", "right_alt", "ctrl", "right_ctrl".
    pub hotkey: String,
    /// API key for the hosted Neuma cleanup worker (cloud mode only).
    pub cleanup_api_key: String,
    /// Cleanup mode: "disabled" | "local" | "cloud"
    pub cleanup_mode: String,
    /// Whether to launch Neuma automatically at login.
    pub launch_at_login: bool,
}

impl Clone for Settings {
    fn clone(&self) -> (r: Self)
        ensures
            r == *self,
    {
        Settings {
            hotkey: self.hotkey.clone(),
            cleanup_api_key: self.cleanup_api_key.clone(),
            cleanup_mode: self.cleanup_mode.clone(),
            launch_at_login: self.launch_at_login,
        }
    }
}

impl Default for Settings {
    fn default() -> (r: Self)
        ensures
            r.hotkey@ == "fn"@,
            r.cleanup_api_key@ == Seq::<char>::empty(),
            r.cleanup_mode@ == "disabled"@,
            !r.launch_at_login,
    {
        Settings {
            hotkey: "fn".to_owned(),
            cleanup_api_key: String::new(),
            cleanup_mode: default_cleanup_mode(),
            launch_at_login: false,
        }
    }
}

} // verus!
