//! The menu in the system tray.

use vstd::prelude::*;
use crate::settings::Settings;
use crate::text::same;

verus! {

/// An entry of the menu.
#[derive(Clone, Copy, PartialEq, Eq, Structural)]
pub enum Entry {
    GrantPermission,
    Separator,
    Settings,
    LaunchAtLogin,
    Quit,
}

impl Entry {
    pub open spec fn id_text(self) -> Option<Seq<char>> {
        match self {
            Entry::GrantPermission => Some("grant_permission"@),
            Entry::Separator => None,
            Entry::Settings => Some("settings"@),
            Entry::LaunchAtLogin => Some("autostart"@),
            Entry::Quit => Some("quit"@),
        }
    }

    /// The id by which the entry is reported when it is chosen. A separator has none.
    pub fn id(self) -> (r: Option<&'static str>)
        ensures
            match r {
                Some(id) => self.id_text() == Some(id@),
                None => self.id_text() is None,
            },
    {
        match self {
            Entry::GrantPermission => Some("grant_permission"),
            Entry::Separator => None,
            Entry::Settings => Some("settings"),
            Entry::LaunchAtLogin => Some("autostart"),
            Entry::Quit => Some("quit"),
        }
    }

    pub open spec fn label_text(self) -> Seq<char> {
        match self {
            Entry::GrantPermission => "⚠ Grant Hotkey Access"@,
            Entry::Separator => ""@,
            Entry::Settings => "Settings..."@,
            Entry::LaunchAtLogin => "Launch at Login"@,
            Entry::Quit => "Quit Neuma"@,
        }
    }

    /// What the entry says.
    pub fn label(self) -> (r: &'static str)
        ensures
            r@ == self.label_text(),
    {
        match self {
            Entry::GrantPermission => "⚠ Grant Hotkey Access",
            Entry::Separator => "",
            Entry::Settings => "Settings...",
            Entry::LaunchAtLogin => "Launch at Login",
            Entry::Quit => "Quit Neuma",
        }
    }
}

/// The menu. While the permission to listen is missing, it begins with a way to get
/// it.
pub open spec fn menu_of(permission_granted: bool) -> Seq<Entry> {
    if permission_granted {
        seq![Entry::Settings, Entry::LaunchAtLogin, Entry::Separator, Entry::Quit]
    } else {
        seq![
            Entry::GrantPermission,
            Entry::Separator,
            Entry::Settings,
            Entry::LaunchAtLogin,
            Entry::Separator,
            Entry::Quit,
        ]
    }
}

/// The entries of the menu, from top to bottom.
pub fn menu(permission_granted: bool) -> (r: Vec<Entry>)
    ensures
        r@ == menu_of(permission_granted),
{
    let mut entries: Vec<Entry> = Vec::new();
    if !permission_granted {
        entries.push(Entry::GrantPermission);
        entries.push(Entry::Separator);
    }
    entries.push(Entry::Settings);
    entries.push(Entry::LaunchAtLogin);
    entries.push(Entry::Separator);
    entries.push(Entry::Quit);
    assert(entries@ =~= menu_of(permission_granted));
    entries
}

/// What is shown when the cursor rests on the tray icon.
pub fn tooltip(permission_granted: bool) -> (r: &'static str)
    ensures
        r@ == if permission_granted {
            "Neuma — click to open menu"@
        } else {
            "Neuma — ⚠ permission not granted"@
        },
{
    if permission_granted {
        "Neuma — click to open menu"
    } else {
        "Neuma — ⚠ permission not granted"
    }
}

/// The entry that an id stands for.
pub fn chosen(id: &str) -> (r: Option<Entry>)
    ensures
        match r {
            Some(entry) => entry.id_text() == Some(id@),
            None => id@ != "settings"@ && id@ != "quit"@ && id@ != "autostart"@ && id@
                != "grant_permission"@,
        },
{
    if same(id, "settings") {
        Some(Entry::Settings)
    } else if same(id, "quit") {
        Some(Entry::Quit)
    } else if same(id, "autostart") {
        Some(Entry::LaunchAtLogin)
    } else if same(id, "grant_permission") {
        Some(Entry::GrantPermission)
    } else {
        None
    }
}

/// Whether launching at login is on after it is switched. `enabled` says whether it is
/// on now, where that could be found out; where not, it counts as off.
pub fn autostart_after(enabled: Option<bool>) -> (r: bool)
    ensures
        r == (enabled != Some(true)),
{
    match enabled {
        Some(e) => !e,
        None => true,
    }
}

/// Keeps the settings in step with launching at login, which is switched on or off.
pub fn toggle_autostart(settings: &mut Settings, enabled: Option<bool>)
    ensures
        *final(settings) == (Settings {
            launch_at_login: enabled != Some(true),
            ..*old(settings)
        }),
{
    settings.launch_at_login = autostart_after(enabled);
}

// ── Laws ─────────────────────────────────────────────────────────────────────

/// No two entries share an id, so what is chosen is what was meant.
pub proof fn law_ids_are_distinct(a: Entry, b: Entry)
    requires
        a.id_text() is Some,
        a.id_text() == b.id_text(),
    ensures
        a == b,
{
    reveal_strlit("grant_permission");
    reveal_strlit("settings");
    reveal_strlit("autostart");
    reveal_strlit("quit");
    assert("grant_permission"@.len() == 16);
    assert("settings"@.len() == 8);
    assert("autostart"@.len() == 9);
    assert("quit"@.len() == 4);
}

/// The menu holds the settings, the start at login and, last, behind a separator, the way
/// out. Without the permission the same menu comes behind the entry that asks for it and a
/// separator.
pub proof fn law_menu(permission_granted: bool)
    ensures
        ({
            let menu = menu_of(permission_granted);
            &&& menu.len() >= 4
            &&& menu[menu.len() - 4] == Entry::Settings
            &&& menu[menu.len() - 3] == Entry::LaunchAtLogin
            &&& menu[menu.len() - 2] == Entry::Separator
            &&& menu.last() == Entry::Quit
            &&& menu.contains(Entry::GrantPermission) <==> !permission_granted
        }),
        menu_of(true).len() == 4,
        menu_of(false) == seq![Entry::GrantPermission, Entry::Separator] + menu_of(true),
{
    assert(menu_of(false)[0] == Entry::GrantPermission);
    assert(menu_of(false) =~= seq![Entry::GrantPermission, Entry::Separator] + menu_of(true));
}

} // verus!
