//! Notifications: where a clicked notification leads, and how the count of
//! unread messages shows on the tray, taskbar or dock.
use vstd::prelude::*;
use crate::config::Config;
use crate::functionality::tray::{TrayIcon, tray_of_number, tray_number, tray_of_name, lemma_tray_number_roundtrip};
use crate::platform::Platform;
use crate::text::{decimal, decimal_string, replace_all, replace_all_str, append_str};
use crate::util::url::{
    client_type_of, client_url, get_url_for_channel, get_url_for_guild, get_url_for_message,
};

verus! {

broadcast use vstd::string::group_string_axioms;

/// What a notification is about, as the frontend reports it.
#[derive(Clone, Debug, PartialEq, Eq)]
pub struct AdditionalData {
    pub guild_id: Option<String>,
    pub channel_id: Option<String>,
    pub message_id: Option<String>,
}

/// The text of an optional field, empty when unset.
pub open spec fn field_text(f: Option<String>) -> Seq<char> {
    match f {
        Some(s) => s@,
        None => Seq::<char>::empty(),
    }
}

/// Where clicking a notification leads (empty: nowhere): only a
/// notification with a guild leads anywhere; to the message when guild,
/// channel and message are all known, else to the channel when guild and
/// channel are, else to the guild. A guild that is present but empty leads
/// to the channel path made of the channel and the message when both are
/// known, and nowhere otherwise.
pub open spec fn notification_target(base: Seq<char>, data: AdditionalData) -> Seq<char> {
    match data.guild_id {
        None => Seq::<char>::empty(),
        Some(g) => {
            let g = g@;
            let c = field_text(data.channel_id);
            let m = field_text(data.message_id);
            if g.len() > 0 && c.len() > 0 && m.len() > 0 {
                base + "/channels/"@ + g + "/"@ + c + "/"@ + m
            } else if g.len() > 0 && c.len() > 0 {
                base + "/channels/"@ + g + "/"@ + c
            } else if c.len() > 0 && m.len() > 0 && g.len() == 0 {
                base + "/channels/"@ + c + "/"@ + m
            } else if g.len() > 0 {
                base + "/channels/"@ + g
            } else {
                Seq::<char>::empty()
            }
        },
    }
}

fn text_of(f: &Option<String>) -> (s: String)
    ensures
        s@ == field_text(*f),
{
    match f {
        Some(s) => s.clone(),
        None => String::new(),
    }
}

/// The page to open when a notification about `data` is clicked; empty when
/// the window only needs to be shown.
pub fn notification_url(config: &Config, data: &AdditionalData) -> (url: String)
    ensures
        url@ == notification_target(client_url(client_type_of(*config)), *data),
{
    match &data.guild_id {
        None => String::new(),
        Some(g) => {
            let c = text_of(&data.channel_id);
            let m = text_of(&data.message_id);
            let g_set = !g.as_str().is_empty();
            let c_set = !c.as_str().is_empty();
            let m_set = !m.as_str().is_empty();
            if g_set && c_set && m_set {
                get_url_for_message(config, g.clone(), c, m)
            } else if g_set && c_set {
                get_url_for_channel(config, g.clone(), c)
            } else if c_set && m_set && !g_set {
                get_url_for_channel(config, c, m)
            } else if g_set {
                get_url_for_guild(config, g.clone())
            } else {
                String::new()
            }
        },
    }
}

/// The tray event that a new unread count `amount` causes while the tray
/// shows the state stored under `tray_state`: none unless the tray shows the
/// default or unread icon; then "default" for no unread messages and
/// "unread" otherwise.
pub fn tray_event_for_count(tray_state: usize, amount: i64) -> (e: Option<String>)
    ensures
        e is Some <==> (tray_of_number(tray_state as nat) == TrayIcon::Default || tray_of_number(
            tray_state as nat,
        ) == TrayIcon::Unread),
        e matches Some(s) ==> s@ == if amount == 0 {
            "default"@
        } else {
            "unread"@
        },
{
    if TrayIcon::from_usize(tray_state).is_overwrite() {
        if amount == 0 {
            Some(String::from_str("default"))
        } else {
            Some(String::from_str("unread"))
        }
    } else {
        None
    }
}

/// The badge count shown on Linux: none for zero or less.
pub fn badge_count(amount: i64) -> (b: Option<i64>)
    ensures
        b == if amount <= 0 {
            None
        } else {
            Some(amount)
        },
{
    if amount <= 0 {
        None
    } else {
        Some(amount)
    }
}

/// The taskbar overlay icons of Windows.
#[derive(PartialEq, Eq, Structural, Clone, Copy, Debug)]
pub enum OverlayIcon {
    /// Unread messages of an unknown number.
    Unknown,
    /// That many unread messages (1 to 9; more show as 9).
    Count(u8),
}

/// The overlay icon shown on Windows for the unread count `amount`: none
/// for zero, the "unknown" icon for -1, the number for 1 to 9, and 9 for any
/// other count.
pub fn overlay_icon(amount: i64) -> (o: Option<OverlayIcon>)
    ensures
        amount == 0 ==> o is None,
        amount == -1 ==> o == Some(OverlayIcon::Unknown),
        1 <= amount <= 9 ==> o == Some(OverlayIcon::Count(amount as u8)),
        amount != 0 && amount != -1 && !(1 <= amount <= 9) ==> o == Some(OverlayIcon::Count(9)),
{
    if amount == 0 {
        None
    } else if amount == -1 {
        Some(OverlayIcon::Unknown)
    } else if 1 <= amount && amount <= 9 {
        Some(OverlayIcon::Count(amount as u8))
    } else {
        Some(OverlayIcon::Count(9))
    }
}

/// The dock badge label shown on macOS for the unread count `amount`: the
/// number when positive, a dot for -1, none otherwise.
pub fn dock_badge_label(amount: i64) -> (l: Option<String>)
    ensures
        amount > 0 ==> (l matches Some(s) && s@ == decimal(amount as nat)),
        amount == -1 ==> (l matches Some(s) && s@ == seq!['\u{25CF}']),
        amount <= 0 && amount != -1 ==> l is None,
{
    if amount > 0 {
        Some(decimal_string(amount as u64))
    } else if amount == -1 {
        proof {
            reveal_strlit("\u{25CF}");
        }
        let s = String::from_str("\u{25CF}");
        assert(s@ =~= seq!['\u{25CF}']);
        Some(s)
    } else {
        None
    }
}

/// The icon path handed to the notification: the downloaded icon's path
/// with backslashes turned into slashes, after "file://" except on Windows.
pub fn notification_icon_path(p: Platform, icon_file: &str) -> (path: String)
    ensures
        path@ == (if p == Platform::Windows {
            Seq::<char>::empty()
        } else {
            "file://"@
        }) + replace_all(icon_file@, "\\"@, "/"@),
{
    let mut path = if p == Platform::Windows {
        String::new()
    } else {
        String::from_str("file://")
    };
    let fixed = replace_all_str(icon_file, "\\", "/");
    append_str(&mut path, fixed.as_str());
    path
}

/// How a notification is shown.
#[derive(PartialEq, Eq, Structural, Clone, Copy, Debug)]
pub enum NotificationBackend {
    /// A Windows toast that leads to the message when clicked.
    WindowsToast,
    /// The Windows 7 style pop-up.
    Windows7,
    /// The desktop's notification service, for five seconds.
    Desktop,
}

/// How notifications are shown on platform `p`: on Windows a toast, unless
/// the system is Windows 7 or the old style is asked for.
pub fn notification_backend(p: Platform, is_windows_7: bool, win7_style: bool) -> (b:
    NotificationBackend)
    ensures
        b == (if p != Platform::Windows {
            NotificationBackend::Desktop
        } else if !is_windows_7 && !win7_style {
            NotificationBackend::WindowsToast
        } else {
            NotificationBackend::Windows7
        }),
{
    if p != Platform::Windows {
        NotificationBackend::Desktop
    } else if !is_windows_7 && !win7_style {
        NotificationBackend::WindowsToast
    } else {
        NotificationBackend::Windows7
    }
}

/// A voice or video state on the tray survives unread-count updates: once
/// the tray shows any state other than the default and unread icons (set
/// from a frontend event), count updates leave the tray alone; after the
/// default or unread icon, they set it.
pub proof fn lemma_count_updates_respect_tray_state(name: Seq<char>, p: Platform)
    ensures
        ({
            let t = tray_of_name(name, p);
            let shown = tray_of_number(tray_number(t));
            (shown == TrayIcon::Default || shown == TrayIcon::Unread) <==> (t == TrayIcon::Default
                || t == TrayIcon::Unread)
        }),
{
    lemma_tray_number_roundtrip(tray_of_name(name, p));
}

} // verus!
