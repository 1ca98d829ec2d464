use std::collections::HashMap;

use dorion::config::{Config, KeyStruct};
use dorion::functionality::hotkeys::{get_keybinds, set_keybinds, set_push_to_talk};
use dorion::functionality::menu::{toggle_tray_icon, tray_icon_enabled};
use dorion::launch::migrate_deprecated_theme;
use dorion::profiles::{delete_profile, get_current_profile_folder, select_default_profile};

fn unset() -> Config {
    let mut c = Config::default();
    c.theme = None;
    c.themes = None;
    c.zoom = None;
    c.client_type = None;
    c.sys_tray = None;
    c.push_to_talk = None;
    c.push_to_talk_keys = None;
    c.cache_css = None;
    c.use_native_titlebar = None;
    c.start_maximized = None;
    c.profile = None;
    c.streamer_mode_detection = None;
    c.rpc_server = None;
    c.open_on_startup = None;
    c.startup_minimized = None;
    c.autoupdate = None;
    c.update_notify = None;
    c.desktop_notifications = None;
    c.auto_clear_cache = None;
    c.multi_instance = None;
    c.disable_hardware_accel = None;
    c.blur = None;
    c.blur_css = None;
    c.client_mods = None;
    c.unread_badge = None;
    c.client_plugins = None;
    c.tray_icon_enabled = None;
    c.proxy_uri = None;
    c.keybinds = None;
    c.keybinds_enabled = None;
    c.rpc_process_scanner = None;
    c.rpc_ipc_connector = None;
    c.rpc_websocket_connector = None;
    c.rpc_secondary_events = None;
    c
}

#[test]
fn default_config_values() {
    let c = Config::default();
    assert_eq!(c.theme, Some("none".to_string()));
    assert_eq!(c.themes, Some(vec!["none".to_string()]));
    assert_eq!(c.zoom, Some("1.0".to_string()));
    assert_eq!(c.client_type, Some("default".to_string()));
    assert_eq!(c.push_to_talk_keys, Some(vec!["RControl".to_string()]));
    assert_eq!(c.client_mods, Some(vec!["Shelter".to_string()]));
    assert_eq!(c.profile, Some("default".to_string()));
    assert_eq!(c.update_notify, Some(true));
    assert_eq!(c.tray_icon_enabled, Some(true));
    assert_eq!(c.proxy_uri, Some(String::new()));
    assert_eq!(c.keybinds, Some(HashMap::new()));
    assert_eq!(c.rpc_secondary_events, Some(true));
    assert_eq!(c.sys_tray, Some(false));
}

#[test]
fn merge_overrides_only_what_is_set() {
    let mut over = unset();
    over.sys_tray = Some(true);
    over.profile = Some("work".to_string());
    let merged = Config::default().merge(over);
    assert_eq!(merged.sys_tray, Some(true));
    assert_eq!(merged.profile, Some("work".to_string()));
    assert_eq!(merged.zoom, Some("1.0".to_string()));
    assert_eq!(merged.client_mods, Some(vec!["Shelter".to_string()]));
}

#[test]
fn merge_with_unset_is_neutral() {
    let merged = Config::default().merge(unset());
    assert_eq!(merged, Config::default());
    let left = unset().merge(Config::default());
    assert_eq!(left, Config::default());
}

#[test]
fn merge_is_idempotent_and_associative_on_examples() {
    let mut a = unset();
    a.blur = Some("mica".to_string());
    let mut b = unset();
    b.blur = Some("acrylic".to_string());
    b.zoom = Some("1.5".to_string());
    let mut c = unset();
    c.zoom = Some("2.0".to_string());
    c.sys_tray = Some(true);
    assert_eq!(a.clone().merge(a.clone()), a);
    let left = a.clone().merge(b.clone()).merge(c.clone());
    let right = a.clone().merge(b.clone().merge(c.clone()));
    assert_eq!(left, right);
    assert_eq!(left.blur, Some("acrylic".to_string()));
    assert_eq!(left.zoom, Some("2.0".to_string()));
    assert_eq!(left.sys_tray, Some(true));
}

#[test]
fn from_parsed_uses_defaults_on_failure() {
    assert_eq!(Config::from_parsed(None), Config::default());
    let mut parsed = unset();
    parsed.theme = Some("dark".to_string());
    let r = Config::from_parsed(Some(parsed));
    assert_eq!(r.theme, Some("dark".to_string()));
    assert_eq!(r.blur, Some("none".to_string()));
}

#[test]
fn init_writes_defaults_only_when_missing() {
    assert_eq!(Config::init(true), None);
    assert_eq!(Config::init(false), Some(Config::default()));
}

#[test]
fn migrate_deprecated_theme_moves_theme() {
    let mut c = unset();
    c.theme = Some("dracula.css".to_string());
    assert!(migrate_deprecated_theme(&mut c));
    assert_eq!(c.themes, Some(vec!["dracula.css".to_string()]));
    assert_eq!(c.theme, Some("none".to_string()));
    // a second run finds nothing to do
    let before = c.clone();
    assert!(!migrate_deprecated_theme(&mut c));
    assert_eq!(c, before);
}

#[test]
fn migrate_leaves_none_and_lists_alone() {
    let mut c = unset();
    c.theme = Some("none".to_string());
    assert!(!migrate_deprecated_theme(&mut c));
    assert_eq!(c.themes, None);
    let mut d = unset();
    d.theme = Some("a.css".to_string());
    d.themes = Some(vec!["b.css".to_string()]);
    assert!(!migrate_deprecated_theme(&mut d));
    assert_eq!(d.theme, Some("a.css".to_string()));
}

#[test]
fn tray_icon_toggle_twice_restores() {
    let mut c = Config::default();
    assert!(tray_icon_enabled(&c));
    assert!(!toggle_tray_icon(&mut c));
    assert_eq!(c.tray_icon_enabled, Some(false));
    assert!(toggle_tray_icon(&mut c));
    assert_eq!(c.tray_icon_enabled, Some(true));
    assert_eq!(c, Config::default());
    let mut u = unset();
    assert!(!toggle_tray_icon(&mut u));
    assert_eq!(u.tray_icon_enabled, Some(false));
}

#[test]
fn keybinds_are_stored() {
    let c = unset();
    assert!(get_keybinds(c).is_empty());
    let mut c = Config::default();
    let mut map = HashMap::new();
    map.insert(
        "PUSH_TO_TALK".to_string(),
        vec![KeyStruct { name: "V".to_string(), code: "KeyV".to_string() }],
    );
    set_keybinds(&mut c, map.clone());
    assert_eq!(c.keybinds, Some(map.clone()));
    assert_eq!(get_keybinds(c.clone()), map);
    set_push_to_talk(&mut c, true);
    assert_eq!(c.push_to_talk, Some(true));
    assert_eq!(c.keybinds, Some(map));
}

#[test]
fn profiles_fall_back_to_default() {
    let mut c = Config::default();
    c.profile = Some("work".to_string());
    assert_eq!(get_current_profile_folder(&c, true), "work");
    assert_eq!(get_current_profile_folder(&c, false), "default");
    assert_eq!(delete_profile("default", c.clone()), None);
    let after = delete_profile("work", c.clone()).unwrap();
    assert_eq!(after.profile, Some("default".to_string()));
    assert_eq!(after.zoom, c.zoom);
    assert_eq!(select_default_profile(c).profile, Some("default".to_string()));
}
