use dorion::config::{Config, KeyStruct};
use dorion::functionality::cache::{clear_cache, maybe_clear_cache, windows_cache_dirs, CacheClearing};
use dorion::functionality::extension::{extension_injected, loads_extensions};
use dorion::functionality::hotkeys::{
    keybind_event_name, keybind_kind, keybinds_enabled, push_keybind_event, push_to_talk_enabled,
    register_all_keybinds, KeybindEvent, KeybindKind,
};
use dorion::functionality::keyboard::{js_keycode_to_key, keystructs_to_hotkey, Modifiers};
use dorion::functionality::rpc::{
    append_to_local, blank_activity, detectable_to_add, remove_detectable, rpc_server_enabled,
    rpc_settings, window_entry, window_process_name, DetectableActivity,
};
use dorion::functionality::streamer_mode::{
    any_streaming_process, is_streaming_process, streamer_mode_detection_enabled, streamer_mode_step,
};
use dorion::functionality::tray::{set_tray_icon, tray_menu_action, TrayIcon, TrayMenuAction};
use dorion::functionality::window::{
    close, setup_autostart, show_on_load, toggle_maximize, window_transparent, CloseAction,
};
use dorion::platform::Platform;
use dorion::util::notifications::{
    badge_count, dock_badge_label, notification_backend, notification_icon_path, notification_url,
    overlay_icon, tray_event_for_count, AdditionalData, NotificationBackend, OverlayIcon,
};
use dorion::window::blur::{apply_effect, available_blurs, BlurEffect, Rgba};

fn key(code: &str) -> KeyStruct {
    KeyStruct { name: code.to_string(), code: code.to_string() }
}

#[test]
fn tray_numbers_round_trip() {
    let all = [
        TrayIcon::Default,
        TrayIcon::Unread,
        TrayIcon::Connected,
        TrayIcon::Muted,
        TrayIcon::Deafened,
        TrayIcon::Speaking,
        TrayIcon::Video,
        TrayIcon::Streaming,
    ];
    for (i, t) in all.iter().enumerate() {
        assert_eq!(t.get_usize(), i);
        assert_eq!(TrayIcon::from_usize(i), *t);
    }
    assert_eq!(TrayIcon::from_usize(8), TrayIcon::Default);
    assert_eq!(TrayIcon::from_usize(usize::MAX).get_usize(), 0);
    assert!(TrayIcon::Unread.is_overwrite());
    assert!(!TrayIcon::Speaking.is_overwrite());
}

#[test]
fn tray_names_and_images() {
    assert_eq!(TrayIcon::from_name("muted", Platform::Linux), TrayIcon::Muted);
    assert_eq!(TrayIcon::from_name("unread", Platform::Windows), TrayIcon::Unread);
    assert_eq!(TrayIcon::from_name("unread", Platform::MacOS), TrayIcon::Default);
    assert_eq!(TrayIcon::from_name("nonsense", Platform::Linux), TrayIcon::Default);
    assert_eq!(set_tray_icon("video", Platform::Linux), 6);
    assert_eq!(TrayIcon::Default.image(Platform::MacOS), "tray/macos.png");
    assert_eq!(TrayIcon::Default.image(Platform::Linux), "32x32.png");
    assert_eq!(TrayIcon::Streaming.image(Platform::Linux), "tray/streaming.png");
    assert_eq!(tray_menu_action("quit"), Some(TrayMenuAction::Quit));
    assert_eq!(tray_menu_action("reload"), Some(TrayMenuAction::Reload));
    assert_eq!(tray_menu_action("other"), None);
}

#[test]
fn unread_counts_respect_voice_states() {
    let speaking = set_tray_icon("speaking", Platform::Linux);
    assert_eq!(tray_event_for_count(speaking, 3), None);
    let default = set_tray_icon("default", Platform::Linux);
    assert_eq!(tray_event_for_count(default, 3), Some("unread".to_string()));
    assert_eq!(tray_event_for_count(default, 0), Some("default".to_string()));
    let unread = set_tray_icon("unread", Platform::Linux);
    assert_eq!(tray_event_for_count(unread, 0), Some("default".to_string()));
}

#[test]
fn unread_badges() {
    assert_eq!(badge_count(0), None);
    assert_eq!(badge_count(-1), None);
    assert_eq!(badge_count(4), Some(4));
    assert_eq!(overlay_icon(0), None);
    assert_eq!(overlay_icon(-1), Some(OverlayIcon::Unknown));
    assert_eq!(overlay_icon(7), Some(OverlayIcon::Count(7)));
    assert_eq!(overlay_icon(42), Some(OverlayIcon::Count(9)));
    assert_eq!(overlay_icon(-5), Some(OverlayIcon::Count(9)));
    assert_eq!(dock_badge_label(12), Some("12".to_string()));
    assert_eq!(dock_badge_label(-1), Some("\u{25CF}".to_string()));
    assert_eq!(dock_badge_label(0), None);
    assert_eq!(dock_badge_label(-2), None);
}

#[test]
fn notification_targets() {
    let c = Config::default();
    let data = |g: Option<&str>, ch: Option<&str>, m: Option<&str>| AdditionalData {
        guild_id: g.map(|s| s.to_string()),
        channel_id: ch.map(|s| s.to_string()),
        message_id: m.map(|s| s.to_string()),
    };
    assert_eq!(
        notification_url(&c, &data(Some("1"), Some("2"), Some("3"))),
        "https://discord.com/channels/1/2/3"
    );
    assert_eq!(notification_url(&c, &data(Some("1"), Some("2"), None)), "https://discord.com/channels/1/2");
    assert_eq!(notification_url(&c, &data(Some(""), Some("2"), Some("3"))), "https://discord.com/channels/2/3");
    assert_eq!(notification_url(&c, &data(Some("1"), None, Some("3"))), "https://discord.com/channels/1");
    assert_eq!(notification_url(&c, &data(Some(""), Some("2"), None)), "");
    assert_eq!(notification_url(&c, &data(None, Some("2"), Some("3"))), "");
}

#[test]
fn notification_display() {
    assert_eq!(
        notification_icon_path(Platform::Linux, "/tmp/dorion_notif_icon.png"),
        "file:///tmp/dorion_notif_icon.png"
    );
    assert_eq!(
        notification_icon_path(Platform::Windows, "C:\\Temp\\dorion_notif_icon.png"),
        "C:/Temp/dorion_notif_icon.png"
    );
    assert_eq!(notification_backend(Platform::Linux, false, false), NotificationBackend::Desktop);
    assert_eq!(notification_backend(Platform::Windows, false, false), NotificationBackend::WindowsToast);
    assert_eq!(notification_backend(Platform::Windows, true, false), NotificationBackend::Windows7);
    assert_eq!(notification_backend(Platform::Windows, false, true), NotificationBackend::Windows7);
}

#[test]
fn streamer_mode_detection() {
    assert!(is_streaming_process("obs64.exe"));
    assert!(is_streaming_process("OBS64"));
    assert!(is_streaming_process("Streamlabs OBS"));
    assert!(!is_streaming_process("obs"));
    assert!(!is_streaming_process("firefox"));
    assert!(any_streaming_process(&vec!["bash".to_string(), "obs64".to_string()]));
    assert!(!any_streaming_process(&vec![]));
    let mut c = Config::default();
    assert!(!streamer_mode_detection_enabled(&c));
    c.streamer_mode_detection = Some(true);
    assert!(streamer_mode_detection_enabled(&c));
}

#[test]
fn streamer_toggles_alternate() {
    let mut open = false;
    let mut sent = vec![];
    for running in [false, true, true, false, false, true] {
        let (next, toggle) = streamer_mode_step(open, running);
        if let Some(t) = toggle {
            sent.push(t);
        }
        open = next;
    }
    assert_eq!(sent, vec![true, false, true]);
}

#[test]
fn window_choices() {
    let mut c = Config::default();
    assert_eq!(close(&c), CloseAction::Close);
    c.sys_tray = Some(true);
    assert_eq!(close(&c), CloseAction::Hide);
    c.sys_tray = None;
    assert_eq!(close(&c), CloseAction::Close);
    assert!(toggle_maximize(false));
    assert!(!toggle_maximize(true));
    assert!(!setup_autostart(&c));
    c.open_on_startup = Some(true);
    assert!(setup_autostart(&c));
    c.startup_minimized = Some(true);
    c.start_maximized = Some(true);
    let s = show_on_load(true, &c);
    assert!(!s.show);
    assert!(s.maximize);
    assert!(show_on_load(false, &c).show);
    assert!(!window_transparent(&c));
    c.blur = Some("acrylic".to_string());
    assert!(window_transparent(&c));
    c.blur = None;
    assert!(!window_transparent(&c));
}

#[test]
fn blur_effects() {
    assert_eq!(available_blurs(Platform::Windows), vec!["none", "blur", "acrylic", "mica", "transparent"]);
    assert_eq!(available_blurs(Platform::MacOS), vec!["none", "vibrancy", "transparent"]);
    assert_eq!(available_blurs(Platform::Linux), vec!["none", "transparent"]);
    let tint = Rgba { r: 18, g: 18, b: 18, a: 125 };
    assert_eq!(apply_effect(Platform::Windows, "acrylic"), Some(BlurEffect::Acrylic(tint)));
    assert_eq!(apply_effect(Platform::Windows, "vibrancy"), None);
    assert_eq!(apply_effect(Platform::MacOS, "vibrancy"), Some(BlurEffect::Vibrancy));
    assert_eq!(apply_effect(Platform::Linux, "blur"), None);
}

#[test]
fn extensions_only_on_windows() {
    assert!(extension_injected(Platform::Windows, false, true));
    assert!(!extension_injected(Platform::Windows, true, true));
    assert!(extension_injected(Platform::Linux, true, true));
    assert!(!extension_injected(Platform::Linux, false, false));
    assert!(loads_extensions(Platform::Windows, false));
    assert!(!loads_extensions(Platform::Windows, true));
    assert!(!loads_extensions(Platform::MacOS, false));
}

#[test]
fn cache_clearing() {
    let mut c = Config::default();
    assert_eq!(maybe_clear_cache(Platform::Windows, &c), None);
    c.auto_clear_cache = Some(true);
    assert_eq!(maybe_clear_cache(Platform::Linux, &c), Some(CacheClearing::Nothing));
    assert_eq!(maybe_clear_cache(Platform::MacOS, &c), Some(CacheClearing::WebsiteDataStore));
    c.profile = Some("p".to_string());
    match clear_cache(Platform::Windows, &c) {
        CacheClearing::RemoveFolders(d) => assert_eq!(d, windows_cache_dirs(&c)),
        other => panic!("unexpected {:?}", other),
    }
    let dirs = windows_cache_dirs(&c);
    assert_eq!(dirs[0], vec!["p", "webdata", "EBWebView", "Default", "Cache"]);
    assert_eq!(dirs[1], vec!["p", "webdata", "EBWebView", "Default", "Code Cache"]);
}

#[test]
fn rpc_settings_default_on() {
    let mut c = Config::default();
    c.rpc_ipc_connector = None;
    c.rpc_process_scanner = Some(false);
    let s = rpc_settings(&c);
    assert!(!s.enable_process_scanner);
    assert!(s.enable_ipc_connector);
    assert!(s.enable_websocket_connector);
    assert!(s.enable_secondary_events);
    assert!(!rpc_server_enabled(&c));
}

#[test]
fn detectables_added_and_removed() {
    assert!(detectable_to_add("", "game.exe", Platform::Windows).is_none());
    assert!(detectable_to_add("Game", "", Platform::Windows).is_none());
    let d = detectable_to_add("Game", "game.exe", Platform::Windows).unwrap();
    assert_eq!(d.name, "Game");
    assert_eq!(d.id, "1337");
    assert!(d.bot_public && d.hook && !d.bot_require_code_grant);
    assert_eq!(d.activity_type, 1);
    let exes = d.executables.clone().unwrap();
    assert_eq!(exes.len(), 1);
    assert_eq!(exes[0].name, "game.exe");
    assert_eq!(exes[0].os, "win32");
    assert!(!exes[0].is_launcher);
    assert_eq!(detectable_to_add("G", "g", Platform::Linux).unwrap().executables.unwrap()[0].os, "linux");
    assert_eq!(detectable_to_add("G", "g", Platform::MacOS).unwrap().executables.unwrap()[0].os, "darwin");

    let mut other = blank_activity();
    other.name = "Other".to_string();
    let local: Vec<DetectableActivity> = vec![other.clone()];
    let local = append_to_local(local, vec![d.clone(), d.clone()]);
    assert_eq!(local.len(), 3);
    assert_eq!(remove_detectable(local.clone(), ""), None);
    let after = remove_detectable(local, "Game").unwrap();
    assert_eq!(after, vec![other]);
}

#[test]
fn window_names() {
    assert_eq!(window_process_name(Some("firefox".to_string()), 3), "firefox");
    assert_eq!(window_process_name(None, 4242), "Unknown (4242)");
    let w = window_entry("Title".to_string(), None, 7);
    assert_eq!(w.process_name, "Unknown (7)");
    assert_eq!(w.title, "Title");
    assert_eq!(w.pid, 7);
}

#[test]
fn key_codes() {
    assert_eq!(js_keycode_to_key("Control"), Some("ControlLeft".to_string()));
    assert_eq!(js_keycode_to_key("Meta"), Some("MetaLeft".to_string()));
    assert_eq!(js_keycode_to_key("KeyA"), Some("KeyA".to_string()));
    assert_eq!(js_keycode_to_key("A"), Some("KeyA".to_string()));
    assert_eq!(js_keycode_to_key("OSLeft"), Some("MetaLeft".to_string()));
    assert_eq!(js_keycode_to_key("NotAKey"), None);
}

#[test]
fn hotkeys_from_keys() {
    assert!(keystructs_to_hotkey(&vec![]).is_none());
    assert!(keystructs_to_hotkey(&vec![key("Control"), key("Nope")]).is_none());
    let h = keystructs_to_hotkey(&vec![key("Control"), key("ShiftRight"), key("Nope"), key("KeyM")]).unwrap();
    assert_eq!(h.key_code, "KeyM");
    assert_eq!(h.modifiers, Modifiers { shift: true, control: true, alt: false, meta: false });
    let h = keystructs_to_hotkey(&vec![key("Alt")]).unwrap();
    assert_eq!(h.key_code, "AltLeft");
    assert_eq!(h.modifiers, Modifiers { shift: false, control: false, alt: false, meta: false });
}

#[test]
fn keybind_registration() {
    assert_eq!(keybind_kind("PUSH_TO_TALK"), KeybindKind::Push);
    assert_eq!(keybind_kind("TOGGLE_MUTE"), KeybindKind::Press);
    assert_eq!(push_keybind_event("PUSH_TO_TALK", true, false), None);
    assert_eq!(push_keybind_event("PUSH_TO_TALK", true, true), Some(KeybindEvent::Pressed));
    assert_eq!(push_keybind_event("PUSH_TO_MUTE", false, false), Some(KeybindEvent::Released));
    assert_eq!(keybind_event_name(KeybindEvent::Pressed), "keybind_pressed");
    assert_eq!(keybind_event_name(KeybindEvent::Released), "keybind_released");
    let regs = register_all_keybinds(vec![
        ("TOGGLE_MUTE".to_string(), vec![key("Control"), key("KeyM")]),
        ("BROKEN".to_string(), vec![key("Bogus")]),
        ("PUSH_TO_TALK".to_string(), vec![key("KeyV")]),
        ("EMPTY".to_string(), vec![]),
    ]);
    assert_eq!(regs.len(), 2);
    assert_eq!(regs[0].action, "TOGGLE_MUTE");
    assert_eq!(regs[0].kind, KeybindKind::Press);
    assert_eq!(regs[0].hotkey.key_code, "KeyM");
    assert!(regs[0].hotkey.modifiers.control);
    assert_eq!(regs[1].action, "PUSH_TO_TALK");
    assert_eq!(regs[1].kind, KeybindKind::Push);
    let mut c = Config::default();
    assert!(!push_to_talk_enabled(&c));
    assert!(keybinds_enabled(&c));
    c.keybinds_enabled = None;
    assert!(!keybinds_enabled(&c));
}
