//! Permissions of the operating system, and where the overlay goes.

use vstd::prelude::*;

verus! {

/// The operating system, as far as it matters here.
#[derive(Clone, Copy, PartialEq, Eq, Structural)]
pub enum Host {
    Mac,
    Other,
}

// ── Listening for the hotkey ─────────────────────────────────────────────────

pub const INPUT_MONITORING_PANE: &'static str =
    "x-apple.systempreferences:com.apple.settings.PrivacySecurity.extension?Privacy_ListenEvent";

pub const ACCESSIBILITY_PANE: &'static str =
    "x-apple.systempreferences:com.apple.settings.PrivacySecurity.extension?Privacy_Accessibility";

/// The accessibility pane, as older systems name it.
pub const OLD_ACCESSIBILITY_PANE: &'static str =
    "x-apple.systempreferences:com.apple.preference.security?Privacy_Accessibility";

pub const MICROPHONE_PANE: &'static str =
    "x-apple.systempreferences:com.apple.settings.PrivacySecurity.extension?Privacy_Microphone";

/// Whether the process may listen for key events.
///
/// `preflight` is the answer of `CGPreflightListenEventAccess`, which exists on
/// macOS 14.2 and later; before that, `trusted`, the answer of `AXIsProcessTrusted`,
/// decides. Elsewhere no permission is needed.
pub fn listening_permission_granted(host: Host, preflight: Option<bool>, trusted: bool) -> (r: bool)
    ensures
        r == match host {
            Host::Other => true,
            Host::Mac => match preflight {
                Some(granted) => granted,
                None => trusted,
            },
        },
{
    match host {
        Host::Other => true,
        Host::Mac => match preflight {
            Some(granted) => granted,
            None => ax_is_process_trusted(host, trusted),
        },
    }
}

/// Whether the process may use the accessibility interface, by the answer of
/// `AXIsProcessTrusted` where there is one to ask.
pub fn ax_is_process_trusted(host: Host, trusted: bool) -> (r: bool)
    ensures
        r == (host == Host::Other || trusted),
{
    host == Host::Other || trusted
}

/// Which permission is needed to listen for key events. `has_request` says whether
/// the system has `CGRequestListenEventAccess`.
pub fn listening_permission_type(host: Host, has_request: bool) -> (r: &'static str)
    ensures
        r@ == match host {
            Host::Other => "none"@,
            Host::Mac => if has_request {
                "input_monitoring"@
            } else {
                "accessibility"@
            },
        },
{
    match host {
        Host::Other => "none",
        Host::Mac => if has_request {
            "input_monitoring"
        } else {
            "accessibility"
        },
    }
}

/// What follows a request for the permission to listen.
#[derive(Clone, Copy, PartialEq, Eq, Structural)]
pub enum Request {
    /// No permission is needed.
    Nothing,
    /// The system knows of the request: open the input monitoring pane.
    ShowInputMonitoring,
    /// The system is too old for such a request: ask for accessibility instead.
    AskForTrust,
}

/// What follows a request for the permission to listen. `requested` says whether
/// `CGRequestListenEventAccess` could be called.
pub fn request_listening_permission(host: Host, requested: bool) -> (r: Request)
    ensures
        r == match host {
            Host::Other => Request::Nothing,
            Host::Mac => if requested {
                Request::ShowInputMonitoring
            } else {
                Request::AskForTrust
            },
        },
{
    match host {
        Host::Other => Request::Nothing,
        Host::Mac => if requested {
            Request::ShowInputMonitoring
        } else {
            Request::AskForTrust
        },
    }
}

/// The pane to open after the system was asked to trust the process. `prompted` says
/// whether it could be asked.
pub fn ax_request_trust(host: Host, prompted: bool) -> (r: Option<&'static str>)
    ensures
        match r {
            None => host == Host::Other,
            Some(pane) => host == Host::Mac && pane@ == if prompted {
                ACCESSIBILITY_PANE@
            } else {
                OLD_ACCESSIBILITY_PANE@
            },
        },
{
    match host {
        Host::Other => None,
        Host::Mac => if prompted {
            Some(ACCESSIBILITY_PANE)
        } else {
            Some(OLD_ACCESSIBILITY_PANE)
        },
    }
}

// ── Microphone ───────────────────────────────────────────────────────────────

/// Whether the process may use the microphone.
#[derive(Clone, Copy, PartialEq, Eq, Structural)]
pub enum MicStatus {
    Authorized,
    NotDetermined,
    Denied,
    Restricted,
}

/// The microphone status that an `AVAuthorizationStatus` stands for. A status that
/// is not known counts as one that is not determined.
pub fn mic_permission_status(host: Host, raw: i64) -> (r: MicStatus)
    ensures
        r == if host == Host::Other || raw == 3 {
            MicStatus::Authorized
        } else if raw == 1 {
            MicStatus::Restricted
        } else if raw == 2 {
            MicStatus::Denied
        } else {
            MicStatus::NotDetermined
        },
{
    if host == Host::Other {
        return MicStatus::Authorized;
    }
    if raw == 3 {
        MicStatus::Authorized
    } else if raw == 1 {
        MicStatus::Restricted
    } else if raw == 2 {
        MicStatus::Denied
    } else {
        MicStatus::NotDetermined
    }
}

// ── Windows ──────────────────────────────────────────────────────────────────

/// `NSWindowCollectionBehaviorCanJoinAllSpaces`
pub const CAN_JOIN_ALL_SPACES: u64 = 1;

/// `NSWindowCollectionBehaviorIgnoresCycle`: stay out of Cmd+Tab.
pub const IGNORES_CYCLE: u64 = 64;

/// `NSWindowCollectionBehaviorFullScreenAuxiliary`
pub const FULL_SCREEN_AUXILIARY: u64 = 256;

/// `NSWindowCollectionBehaviorCanJoinAllApplications` (macOS 13+)
pub const CAN_JOIN_ALL_APPLICATIONS: u64 = 262144;

/// The collection behavior of every window.
pub const COLLECTION_BEHAVIOR: u64 = 262465;

/// The z-order of the overlay.
pub const OVERLAY_LEVEL: i64 = 1000;

/// The collection behavior is made of its four parts and nothing else.
pub proof fn law_collection_behavior()
    ensures
        COLLECTION_BEHAVIOR == CAN_JOIN_ALL_SPACES | IGNORES_CYCLE | FULL_SCREEN_AUXILIARY
            | CAN_JOIN_ALL_APPLICATIONS,
{
    assert(262465u64 == 1u64 | 64 | 256 | 262144) by (bit_vector);
}

/// A monitor: where its top left corner lies, and how large it is, in pixels.
#[derive(Clone, Copy, PartialEq, Eq, Structural)]
pub struct Monitor {
    pub x: i32,
    pub y: i32,
    pub width: u32,
    pub height: u32,
}

/// A length as a signed number of 32 bits.
pub open spec fn signed(length: u32) -> int {
    if length < 0x8000_0000 {
        length as int
    } else {
        length - 0x1_0000_0000
    }
}

impl Monitor {
    /// The point lies on the monitor: its left and upper edges belong to it, its
    /// right and lower edges do not.
    pub open spec fn shows(self, x: int, y: int) -> bool {
        self.x <= x < self.x + signed(self.width) && self.y <= y < self.y + signed(self.height)
    }

    /// Tells whether the point lies on the monitor.
    pub fn contains(&self, x: i64, y: i64) -> (r: bool)
        ensures
            r == self.shows(x as int, y as int),
    {
        let width: i64 = if self.width < 0x8000_0000 {
            self.width as i64
        } else {
            self.width as i64 - 0x1_0000_0000
        };
        let height: i64 = if self.height < 0x8000_0000 {
            self.height as i64
        } else {
            self.height as i64 - 0x1_0000_0000
        };
        self.x as i64 <= x && x < self.x as i64 + width && self.y as i64 <= y && y < self.y as i64
            + height
    }
}

/// A place on the screen, in pixels.
#[derive(Clone, Copy, PartialEq, Eq, Structural)]
pub struct Point {
    pub x: i64,
    pub y: i64,
}

/// The monitor on which the overlay is shown.
#[derive(Clone, Copy, PartialEq, Eq, Structural)]
pub enum Target {
    /// The monitor with this index among those available.
    Listed(usize),
    /// The primary monitor, if there is one.
    Primary,
}

/// The monitor on which the overlay is shown: the first that the cursor is on, or
/// else the primary one. The cursor's place is rounded down to whole pixels.
pub fn target_monitor(monitors: &Vec<Monitor>, cursor: Option<Point>) -> (r: Target)
    ensures
        match r {
            Target::Listed(i) => {
                &&& cursor is Some
                &&& i < monitors@.len()
                &&& monitors@[i as int].shows(cursor->0.x as int, cursor->0.y as int)
                &&& forall|j: int|
                    0 <= j < i ==> !(#[trigger] monitors@[j]).shows(
                        cursor->0.x as int,
                        cursor->0.y as int,
                    )
            },
            Target::Primary => cursor is None || forall|j: int|
                0 <= j < monitors@.len() ==> !(#[trigger] monitors@[j]).shows(
                    cursor->0.x as int,
                    cursor->0.y as int,
                ),
        },
{
    match cursor {
        None => Target::Primary,
        Some(point) => {
            let x: i64 = point.x;
            let y: i64 = point.y;
            let mut i: usize = 0;
            while i < monitors.len()
                invariant
                    i <= monitors@.len(),
                    cursor == Some(point),
                    x == point.x,
                    y == point.y,
                    forall|j: int|
                        0 <= j < i ==> !(#[trigger] monitors@[j]).shows(x as int, y as int),
                decreases monitors@.len() - i,
            {
                if monitors[i].contains(x, y) {
                    return Target::Listed(i);
                }
                i = i + 1;
            }
            Target::Primary
        },
    }
}

/// A monitor shows its top left pixel and all others of its width and height, and no
/// more: two monitors side by side, or one above the other, share no pixel and leave none
/// out. A monitor with a width or height that does not fit 31 bits shows nothing.
pub proof fn law_monitor_area(m: Monitor, dx: int, dy: int)
    ensures
        m.shows(m.x + dx, m.y + dy) <==> 0 <= dx < m.width < 0x8000_0000 && 0 <= dy < m.height
            < 0x8000_0000,
{
}

} // verus!
