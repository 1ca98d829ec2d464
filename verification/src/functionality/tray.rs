//! The tray icon states, their numbering and how the frontend names them.
use vstd::prelude::*;
use crate::platform::Platform;
use crate::text::str_eq;

verus! {

/// The states that the tray icon can show.
#[derive(PartialEq, Eq, Structural, Clone, Copy, Debug)]
pub enum TrayIcon {
    Default,
    Unread,
    Connected,
    Muted,
    Deafened,
    Speaking,
    Video,
    Streaming,
}

/// The number under which a tray state is stored.
pub open spec fn tray_number(t: TrayIcon) -> nat {
    match t {
        TrayIcon::Default => 0,
        TrayIcon::Unread => 1,
        TrayIcon::Connected => 2,
        TrayIcon::Muted => 3,
        TrayIcon::Deafened => 4,
        TrayIcon::Speaking => 5,
        TrayIcon::Video => 6,
        TrayIcon::Streaming => 7,
    }
}

/// The tray state stored under `n`; a number that names no state stands for
/// the default icon.
pub open spec fn tray_of_number(n: nat) -> TrayIcon {
    if n == 1 {
        TrayIcon::Unread
    } else if n == 2 {
        TrayIcon::Connected
    } else if n == 3 {
        TrayIcon::Muted
    } else if n == 4 {
        TrayIcon::Deafened
    } else if n == 5 {
        TrayIcon::Speaking
    } else if n == 6 {
        TrayIcon::Video
    } else if n == 7 {
        TrayIcon::Streaming
    } else {
        TrayIcon::Default
    }
}

/// The tray state that the frontend event `name` asks for. An unknown name
/// asks for the default icon; on macOS the unread icon is not used.
pub open spec fn tray_of_name(name: Seq<char>, p: Platform) -> TrayIcon {
    if name == "unread"@ && p != Platform::MacOS {
        TrayIcon::Unread
    } else if name == "connected"@ {
        TrayIcon::Connected
    } else if name == "muted"@ {
        TrayIcon::Muted
    } else if name == "deafened"@ {
        TrayIcon::Deafened
    } else if name == "speaking"@ {
        TrayIcon::Speaking
    } else if name == "video"@ {
        TrayIcon::Video
    } else if name == "streaming"@ {
        TrayIcon::Streaming
    } else {
        TrayIcon::Default
    }
}

/// The image file of a tray state, below the icons folder.
pub open spec fn image_file(t: TrayIcon, p: Platform) -> Seq<char> {
    match t {
        TrayIcon::Default => if p == Platform::MacOS {
            "tray/macos.png"@
        } else {
            "32x32.png"@
        },
        TrayIcon::Unread => "tray/unread.png"@,
        TrayIcon::Connected => "tray/connected.png"@,
        TrayIcon::Muted => "tray/muted.png"@,
        TrayIcon::Deafened => "tray/deafened.png"@,
        TrayIcon::Speaking => "tray/speaking.png"@,
        TrayIcon::Video => "tray/video.png"@,
        TrayIcon::Streaming => "tray/streaming.png"@,
    }
}

impl TrayIcon {
    /// The number under which this state is stored.
    pub fn get_usize(&self) -> (n: usize)
        ensures
            n == tray_number(*self),
    {
        match self {
            TrayIcon::Default => 0,
            TrayIcon::Unread => 1,
            TrayIcon::Connected => 2,
            TrayIcon::Muted => 3,
            TrayIcon::Deafened => 4,
            TrayIcon::Speaking => 5,
            TrayIcon::Video => 6,
            TrayIcon::Streaming => 7,
        }
    }

    /// The state stored under `value`; any other number gives the default.
    pub fn from_usize(value: usize) -> (t: TrayIcon)
        ensures
            t == tray_of_number(value as nat),
    {
        match value {
            1 => TrayIcon::Unread,
            2 => TrayIcon::Connected,
            3 => TrayIcon::Muted,
            4 => TrayIcon::Deafened,
            5 => TrayIcon::Speaking,
            6 => TrayIcon::Video,
            7 => TrayIcon::Streaming,
            _ => TrayIcon::Default,
        }
    }

    /// Whether a new icon may replace this one: only the default and the
    /// unread icons give way.
    pub fn is_overwrite(&self) -> (b: bool)
        ensures
            b == (*self == TrayIcon::Default || *self == TrayIcon::Unread),
    {
        match self {
            TrayIcon::Default | TrayIcon::Unread => true,
            _ => false,
        }
    }

    /// The image the tray shows for this state on platform `p`, below the
    /// icons folder.
    pub fn image(&self, p: Platform) -> (file: &'static str)
        ensures
            file@ == image_file(*self, p),
    {
        match self {
            TrayIcon::Default => if p == Platform::MacOS {
                "tray/macos.png"
            } else {
                "32x32.png"
            },
            TrayIcon::Unread => "tray/unread.png",
            TrayIcon::Connected => "tray/connected.png",
            TrayIcon::Muted => "tray/muted.png",
            TrayIcon::Deafened => "tray/deafened.png",
            TrayIcon::Speaking => "tray/speaking.png",
            TrayIcon::Video => "tray/video.png",
            TrayIcon::Streaming => "tray/streaming.png",
        }
    }

    /// The state that the frontend event `name` asks for on platform `p`.
    pub fn from_name(name: &str, p: Platform) -> (t: TrayIcon)
        ensures
            t == tray_of_name(name@, p),
    {
        if str_eq(name, "unread") && p != Platform::MacOS {
            TrayIcon::Unread
        } else if str_eq(name, "connected") {
            TrayIcon::Connected
        } else if str_eq(name, "muted") {
            TrayIcon::Muted
        } else if str_eq(name, "deafened") {
            TrayIcon::Deafened
        } else if str_eq(name, "speaking") {
            TrayIcon::Speaking
        } else if str_eq(name, "video") {
            TrayIcon::Video
        } else if str_eq(name, "streaming") {
            TrayIcon::Streaming
        } else {
            TrayIcon::Default
        }
    }
}

/// Setting the tray icon for the frontend event `event`: the state stored
/// afterwards.
pub fn set_tray_icon(event: &str, p: Platform) -> (state: usize)
    ensures
        state == tray_number(tray_of_name(event@, p)),
{
    TrayIcon::from_name(event, p).get_usize()
}

/// Storing a state and reading it back gives the same state.
pub proof fn lemma_tray_number_roundtrip(t: TrayIcon)
    ensures
        tray_of_number(tray_number(t)) == t,
        tray_number(t) < 8,
{
}

/// Reading a stored number and storing the state gives the number back when
/// it names a state, and 0 (the default) when it does not.
pub proof fn lemma_tray_number_normalizes(n: nat)
    ensures
        tray_number(tray_of_number(n)) == (if n < 8 { n } else { 0 }),
{
}

/// The frontend event name of a tray state.
pub open spec fn tray_event_name(t: TrayIcon) -> Seq<char> {
    match t {
        TrayIcon::Default => "default"@,
        TrayIcon::Unread => "unread"@,
        TrayIcon::Connected => "connected"@,
        TrayIcon::Muted => "muted"@,
        TrayIcon::Deafened => "deafened"@,
        TrayIcon::Speaking => "speaking"@,
        TrayIcon::Video => "video"@,
        TrayIcon::Streaming => "streaming"@,
    }
}

/// A frontend event asks for the state of the same name, or for the
/// default icon; and each state's event name asks for that very state
/// (so distinct event names ask for distinct states, and "deafened" asks
/// for the deafened state), except the unread state on macOS, where the
/// default icon stands for it.
pub proof fn lemma_tray_event_names(name: Seq<char>, p: Platform, t: TrayIcon)
    ensures
        tray_of_name(name, p) == TrayIcon::Default || tray_event_name(tray_of_name(name, p))
            == name,
        !(t == TrayIcon::Unread && p == Platform::MacOS) ==> tray_of_name(tray_event_name(t), p)
            == t,
        t == TrayIcon::Unread && p == Platform::MacOS ==> tray_of_name(tray_event_name(t), p)
            == TrayIcon::Default,
{
    reveal_strlit("default");
    reveal_strlit("unread");
    reveal_strlit("connected");
    reveal_strlit("muted");
    reveal_strlit("deafened");
    reveal_strlit("speaking");
    reveal_strlit("video");
    reveal_strlit("streaming");
    assert("connected"@[0] != "streaming"@[0]);
    assert("muted"@[0] != "video"@[0]);
    assert("deafened"@[0] != "speaking"@[0]);
    assert("default"@[0] != "unread"@[0]);
    assert("default"@[2] != "deafened"@[2]);
    assert("streaming"@[1] != "speaking"@[1]);
}

/// The menu entries of the tray icon.
#[derive(PartialEq, Eq, Structural, Clone, Copy, Debug)]
pub enum TrayMenuAction {
    Open,
    Reload,
    Restart,
    Quit,
}

/// The action that a tray menu entry with id `id` performs, if any.
pub open spec fn tray_action_of_id(id: Seq<char>) -> Option<TrayMenuAction> {
    if id == "quit"@ {
        Some(TrayMenuAction::Quit)
    } else if id == "open"@ {
        Some(TrayMenuAction::Open)
    } else if id == "restart"@ {
        Some(TrayMenuAction::Restart)
    } else if id == "reload"@ {
        Some(TrayMenuAction::Reload)
    } else {
        None
    }
}

/// The action of the tray menu entry `id`; other ids do nothing.
pub fn tray_menu_action(id: &str) -> (a: Option<TrayMenuAction>)
    ensures
        a == tray_action_of_id(id@),
{
    if str_eq(id, "quit") {
        Some(TrayMenuAction::Quit)
    } else if str_eq(id, "open") {
        Some(TrayMenuAction::Open)
    } else if str_eq(id, "restart") {
        Some(TrayMenuAction::Restart)
    } else if str_eq(id, "reload") {
        Some(TrayMenuAction::Reload)
    } else {
        None
    }
}

} // verus!
