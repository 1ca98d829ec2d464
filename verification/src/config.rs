//! The user configuration and how a stored configuration is read back.
//!
//! A configuration is a record of optional settings. A stored file may set
//! any subset of them; reading it overlays what it sets on the defaults.
use std::collections::HashMap;
use vstd::prelude::*;

verus! {

broadcast use vstd::string::group_string_axioms;

/// One key of a keybind, as the frontend names it.
#[derive(Clone, Debug, PartialEq, Eq)]
pub struct KeyStruct {
    pub name: String,
    pub code: String,
}

/// A keybind change reported by the frontend: the action `key` is now bound
/// to `keys`.
#[derive(Clone, Debug, PartialEq, Eq)]
pub struct KeybindChangedEvent {
    pub keys: Vec<KeyStruct>,
    pub key: String,
}

/// The user's settings; `None` means "not set".
#[derive(Clone, Debug, PartialEq, Eq)]
pub struct Config {
    /// Deprecated: superseded by `themes`.
    pub theme: Option<String>,
    pub themes: Option<Vec<String>>,
    pub zoom: Option<String>,
    pub client_type: Option<String>,
    pub sys_tray: Option<bool>,
    pub push_to_talk: Option<bool>,
    pub push_to_talk_keys: Option<Vec<String>>,
    pub cache_css: Option<bool>,
    pub use_native_titlebar: Option<bool>,
    pub start_maximized: Option<bool>,
    pub profile: Option<String>,
    pub streamer_mode_detection: Option<bool>,
    pub rpc_server: Option<bool>,
    pub open_on_startup: Option<bool>,
    pub startup_minimized: Option<bool>,
    pub autoupdate: Option<bool>,
    pub update_notify: Option<bool>,
    pub desktop_notifications: Option<bool>,
    pub auto_clear_cache: Option<bool>,
    pub multi_instance: Option<bool>,
    pub disable_hardware_accel: Option<bool>,
    pub blur: Option<String>,
    pub blur_css: Option<bool>,
    pub client_mods: Option<Vec<String>>,
    pub unread_badge: Option<bool>,
    pub client_plugins: Option<bool>,
    pub tray_icon_enabled: Option<bool>,
    pub proxy_uri: Option<String>,
    pub keybinds: Option<HashMap<String, Vec<KeyStruct>>>,
    pub keybinds_enabled: Option<bool>,
    pub rpc_process_scanner: Option<bool>,
    pub rpc_ipc_connector: Option<bool>,
    pub rpc_websocket_connector: Option<bool>,
    pub rpc_secondary_events: Option<bool>,
}

/// `over` when it holds a value, otherwise `base` (what `over.or(base)` gives).
pub open spec fn first_set<T>(over: Option<T>, base: Option<T>) -> Option<T> {
    match over {
        Some(v) => Some(v),
        None => base,
    }
}

/// `over.or(base)`.
pub fn or_else<T>(over: Option<T>, base: Option<T>) -> (r: Option<T>)
    ensures
        r == first_set(over, base),
{
    match over {
        Some(v) => Some(v),
        None => base,
    }
}

/// `s` is set to exactly the text `t`.
pub open spec fn is_text(s: Option<String>, t: Seq<char>) -> bool {
    s matches Some(v) && v@ == t
}

/// `s` is set to the one-element list holding the text `t`.
pub open spec fn is_single_text(s: Option<Vec<String>>, t: Seq<char>) -> bool {
    s matches Some(v) && v@.len() == 1 && v@[0]@ == t
}

impl Config {
    /// The configuration that sets nothing.
    pub open spec fn unset() -> Config {
        Config {
            theme: None,
            themes: None,
            zoom: None,
            client_type: None,
            sys_tray: None,
            push_to_talk: None,
            push_to_talk_keys: None,
            cache_css: None,
            use_native_titlebar: None,
            start_maximized: None,
            profile: None,
            streamer_mode_detection: None,
            rpc_server: None,
            open_on_startup: None,
            startup_minimized: None,
            autoupdate: None,
            update_notify: None,
            desktop_notifications: None,
            auto_clear_cache: None,
            multi_instance: None,
            disable_hardware_accel: None,
            blur: None,
            blur_css: None,
            client_mods: None,
            unread_badge: None,
            client_plugins: None,
            tray_icon_enabled: None,
            proxy_uri: None,
            keybinds: None,
            keybinds_enabled: None,
            rpc_process_scanner: None,
            rpc_ipc_connector: None,
            rpc_websocket_connector: None,
            rpc_secondary_events: None,
        }
    }

    /// `other` laid over `self`: each setting of `other` that is set wins,
    /// the others keep the value of `self`.
    pub open spec fn merged(self, other: Config) -> Config {
        Config {
            theme: first_set(other.theme, self.theme),
            themes: first_set(other.themes, self.themes),
            zoom: first_set(other.zoom, self.zoom),
            client_type: first_set(other.client_type, self.client_type),
            sys_tray: first_set(other.sys_tray, self.sys_tray),
            push_to_talk: first_set(other.push_to_talk, self.push_to_talk),
            push_to_talk_keys: first_set(other.push_to_talk_keys, self.push_to_talk_keys),
            cache_css: first_set(other.cache_css, self.cache_css),
            use_native_titlebar: first_set(other.use_native_titlebar, self.use_native_titlebar),
            start_maximized: first_set(other.start_maximized, self.start_maximized),
            profile: first_set(other.profile, self.profile),
            streamer_mode_detection: first_set(other.streamer_mode_detection, self.streamer_mode_detection),
            rpc_server: first_set(other.rpc_server, self.rpc_server),
            open_on_startup: first_set(other.open_on_startup, self.open_on_startup),
            startup_minimized: first_set(other.startup_minimized, self.startup_minimized),
            autoupdate: first_set(other.autoupdate, self.autoupdate),
            update_notify: first_set(other.update_notify, self.update_notify),
            desktop_notifications: first_set(other.desktop_notifications, self.desktop_notifications),
            auto_clear_cache: first_set(other.auto_clear_cache, self.auto_clear_cache),
            multi_instance: first_set(other.multi_instance, self.multi_instance),
            disable_hardware_accel: first_set(other.disable_hardware_accel, self.disable_hardware_accel),
            blur: first_set(other.blur, self.blur),
            blur_css: first_set(other.blur_css, self.blur_css),
            client_mods: first_set(other.client_mods, self.client_mods),
            unread_badge: first_set(other.unread_badge, self.unread_badge),
            client_plugins: first_set(other.client_plugins, self.client_plugins),
            tray_icon_enabled: first_set(other.tray_icon_enabled, self.tray_icon_enabled),
            proxy_uri: first_set(other.proxy_uri, self.proxy_uri),
            keybinds: first_set(other.keybinds, self.keybinds),
            keybinds_enabled: first_set(other.keybinds_enabled, self.keybinds_enabled),
            rpc_process_scanner: first_set(other.rpc_process_scanner, self.rpc_process_scanner),
            rpc_ipc_connector: first_set(other.rpc_ipc_connector, self.rpc_ipc_connector),
            rpc_websocket_connector: first_set(other.rpc_websocket_connector, self.rpc_websocket_connector),
            rpc_secondary_events: first_set(other.rpc_secondary_events, self.rpc_secondary_events),
        }
    }

    /// Every setting holds a value.
    pub open spec fn is_complete(self) -> bool {
        &&& self.theme is Some
        &&& self.themes is Some
        &&& self.zoom is Some
        &&& self.client_type is Some
        &&& self.sys_tray is Some
        &&& self.push_to_talk is Some
        &&& self.push_to_talk_keys is Some
        &&& self.cache_css is Some
        &&& self.use_native_titlebar is Some
        &&& self.start_maximized is Some
        &&& self.profile is Some
        &&& self.streamer_mode_detection is Some
        &&& self.rpc_server is Some
        &&& self.open_on_startup is Some
        &&& self.startup_minimized is Some
        &&& self.autoupdate is Some
        &&& self.update_notify is Some
        &&& self.desktop_notifications is Some
        &&& self.auto_clear_cache is Some
        &&& self.multi_instance is Some
        &&& self.disable_hardware_accel is Some
        &&& self.blur is Some
        &&& self.blur_css is Some
        &&& self.client_mods is Some
        &&& self.unread_badge is Some
        &&& self.client_plugins is Some
        &&& self.tray_icon_enabled is Some
        &&& self.proxy_uri is Some
        &&& self.keybinds is Some
        &&& self.keybinds_enabled is Some
        &&& self.rpc_process_scanner is Some
        &&& self.rpc_ipc_connector is Some
        &&& self.rpc_websocket_connector is Some
        &&& self.rpc_secondary_events is Some
    }

    /// Every setting holds the value that a fresh installation uses.
    pub open spec fn is_default(self) -> bool {
        &&& is_text(self.theme, "none"@)
        &&& is_single_text(self.themes, "none"@)
        &&& is_text(self.zoom, "1.0"@)
        &&& is_text(self.client_type, "default"@)
        &&& self.sys_tray == Some(false)
        &&& self.push_to_talk == Some(false)
        &&& is_single_text(self.push_to_talk_keys, "RControl"@)
        &&& self.cache_css == Some(false)
        &&& self.use_native_titlebar == Some(false)
        &&& self.start_maximized == Some(false)
        &&& is_text(self.profile, "default"@)
        &&& self.streamer_mode_detection == Some(false)
        &&& self.rpc_server == Some(false)
        &&& self.open_on_startup == Some(false)
        &&& self.startup_minimized == Some(false)
        &&& self.autoupdate == Some(false)
        &&& self.update_notify == Some(true)
        &&& self.desktop_notifications == Some(false)
        &&& self.auto_clear_cache == Some(false)
        &&& self.multi_instance == Some(false)
        &&& self.disable_hardware_accel == Some(false)
        &&& is_text(self.blur, "none"@)
        &&& self.blur_css == Some(true)
        &&& is_single_text(self.client_mods, "Shelter"@)
        &&& self.unread_badge == Some(true)
        &&& self.client_plugins == Some(true)
        &&& self.tray_icon_enabled == Some(true)
        &&& is_text(self.proxy_uri, ""@)
        &&& self.keybinds matches Some(m) && m@ == Map::<String, Vec<KeyStruct>>::empty()
        &&& self.keybinds_enabled == Some(true)
        &&& self.rpc_process_scanner == Some(true)
        &&& self.rpc_ipc_connector == Some(true)
        &&& self.rpc_websocket_connector == Some(true)
        &&& self.rpc_secondary_events == Some(true)
    }

    /// The settings of a fresh installation.
    pub fn default() -> (c: Config)
        ensures
            c.is_default(),
            c.is_complete(),
    {
        let mut themes: Vec<String> = Vec::new();
        themes.push(String::from_str("none"));
        let mut push_to_talk_keys: Vec<String> = Vec::new();
        push_to_talk_keys.push(String::from_str("RControl"));
        let mut client_mods: Vec<String> = Vec::new();
        client_mods.push(String::from_str("Shelter"));
        Config {
            theme: Some(String::from_str("none")),
            themes: Some(themes),
            zoom: Some(String::from_str("1.0")),
            client_type: Some(String::from_str("default")),
            sys_tray: Some(false),
            push_to_talk: Some(false),
            push_to_talk_keys: Some(push_to_talk_keys),
            cache_css: Some(false),
            use_native_titlebar: Some(false),
            start_maximized: Some(false),
            profile: Some(String::from_str("default")),
            streamer_mode_detection: Some(false),
            rpc_server: Some(false),
            open_on_startup: Some(false),
            startup_minimized: Some(false),
            autoupdate: Some(false),
            update_notify: Some(true),
            desktop_notifications: Some(false),
            auto_clear_cache: Some(false),
            multi_instance: Some(false),
            disable_hardware_accel: Some(false),
            blur: Some(String::from_str("none")),
            blur_css: Some(true),
            client_mods: Some(client_mods),
            unread_badge: Some(true),
            client_plugins: Some(true),
            tray_icon_enabled: Some(true),
            proxy_uri: Some(String::from_str("")),
            keybinds: Some(HashMap::new()),
            keybinds_enabled: Some(true),
            rpc_process_scanner: Some(true),
            rpc_ipc_connector: Some(true),
            rpc_websocket_connector: Some(true),
            rpc_secondary_events: Some(true),
        }
    }

    /// `other` laid over `self`: a setting that `other` sets wins, the
    /// others keep their value from `self`.
    pub fn merge(self, other: Config) -> (r: Config)
        ensures
            r == self.merged(other),
    {
        Config {
            theme: or_else(other.theme, self.theme),
            themes: or_else(other.themes, self.themes),
            zoom: or_else(other.zoom, self.zoom),
            client_type: or_else(other.client_type, self.client_type),
            sys_tray: or_else(other.sys_tray, self.sys_tray),
            push_to_talk: or_else(other.push_to_talk, self.push_to_talk),
            push_to_talk_keys: or_else(other.push_to_talk_keys, self.push_to_talk_keys),
            cache_css: or_else(other.cache_css, self.cache_css),
            use_native_titlebar: or_else(other.use_native_titlebar, self.use_native_titlebar),
            start_maximized: or_else(other.start_maximized, self.start_maximized),
            profile: or_else(other.profile, self.profile),
            streamer_mode_detection: or_else(other.streamer_mode_detection, self.streamer_mode_detection),
            rpc_server: or_else(other.rpc_server, self.rpc_server),
            open_on_startup: or_else(other.open_on_startup, self.open_on_startup),
            startup_minimized: or_else(other.startup_minimized, self.startup_minimized),
            autoupdate: or_else(other.autoupdate, self.autoupdate),
            update_notify: or_else(other.update_notify, self.update_notify),
            desktop_notifications: or_else(other.desktop_notifications, self.desktop_notifications),
            auto_clear_cache: or_else(other.auto_clear_cache, self.auto_clear_cache),
            multi_instance: or_else(other.multi_instance, self.multi_instance),
            disable_hardware_accel: or_else(other.disable_hardware_accel, self.disable_hardware_accel),
            blur: or_else(other.blur, self.blur),
            blur_css: or_else(other.blur_css, self.blur_css),
            client_mods: or_else(other.client_mods, self.client_mods),
            unread_badge: or_else(other.unread_badge, self.unread_badge),
            client_plugins: or_else(other.client_plugins, self.client_plugins),
            tray_icon_enabled: or_else(other.tray_icon_enabled, self.tray_icon_enabled),
            proxy_uri: or_else(other.proxy_uri, self.proxy_uri),
            keybinds: or_else(other.keybinds, self.keybinds),
            keybinds_enabled: or_else(other.keybinds_enabled, self.keybinds_enabled),
            rpc_process_scanner: or_else(other.rpc_process_scanner, self.rpc_process_scanner),
            rpc_ipc_connector: or_else(other.rpc_ipc_connector, self.rpc_ipc_connector),
            rpc_websocket_connector: or_else(other.rpc_websocket_connector, self.rpc_websocket_connector),
            rpc_secondary_events: or_else(other.rpc_secondary_events, self.rpc_secondary_events),
        }
    }

    /// The configuration that a stored file yields: what the file sets laid
    /// over the defaults when it could be parsed (`Some`), the defaults when
    /// it could not (`None`).
    pub fn from_parsed(parsed: Option<Config>) -> (r: Config)
        ensures
            parsed is None ==> r.is_default(),
            parsed matches Some(c) ==> exists|d: Config| d.is_default() && r == d.merged(c),
            r.is_complete(),
    {
        match parsed {
            Some(c) => {
                let d = Config::default();
                let r = d.merge(c);
                proof {
                    lemma_overlay_on_complete_is_complete(d, c);
                }
                r
            },
            None => Config::default(),
        }
    }

    /// What starting the client does to the stored configuration: when no
    /// configuration file exists yet (`file_exists`), the defaults are
    /// written to it; otherwise the file is left alone.
    pub fn init(file_exists: bool) -> (r: Option<Config>)
        ensures
            file_exists <==> r is None,
            r matches Some(c) ==> c.is_default(),
    {
        if file_exists {
            None
        } else {
            Some(Config::default())
        }
    }
}

/// Laying any configuration over a complete one yields a complete one: a
/// configuration read over the defaults leaves no setting unset.
pub proof fn lemma_overlay_on_complete_is_complete(base: Config, over: Config)
    requires
        base.is_complete(),
    ensures
        base.merged(over).is_complete(),
{
}

/// Overlaying is associative: laying `b` then `c` over `a` is laying `c`
/// over `b` and the result over `a`.
pub proof fn lemma_merge_associative(a: Config, b: Config, c: Config)
    ensures
        a.merged(b).merged(c) == a.merged(b.merged(c)),
{
    lemma_first_set_associative(c.theme, b.theme, a.theme);
    lemma_first_set_associative(c.themes, b.themes, a.themes);
    lemma_first_set_associative(c.zoom, b.zoom, a.zoom);
    lemma_first_set_associative(c.client_type, b.client_type, a.client_type);
    lemma_first_set_associative(c.sys_tray, b.sys_tray, a.sys_tray);
    lemma_first_set_associative(c.push_to_talk, b.push_to_talk, a.push_to_talk);
    lemma_first_set_associative(c.push_to_talk_keys, b.push_to_talk_keys, a.push_to_talk_keys);
    lemma_first_set_associative(c.cache_css, b.cache_css, a.cache_css);
    lemma_first_set_associative(c.use_native_titlebar, b.use_native_titlebar, a.use_native_titlebar);
    lemma_first_set_associative(c.start_maximized, b.start_maximized, a.start_maximized);
    lemma_first_set_associative(c.profile, b.profile, a.profile);
    lemma_first_set_associative(c.streamer_mode_detection, b.streamer_mode_detection, a.streamer_mode_detection);
    lemma_first_set_associative(c.rpc_server, b.rpc_server, a.rpc_server);
    lemma_first_set_associative(c.open_on_startup, b.open_on_startup, a.open_on_startup);
    lemma_first_set_associative(c.startup_minimized, b.startup_minimized, a.startup_minimized);
    lemma_first_set_associative(c.autoupdate, b.autoupdate, a.autoupdate);
    lemma_first_set_associative(c.update_notify, b.update_notify, a.update_notify);
    lemma_first_set_associative(c.desktop_notifications, b.desktop_notifications, a.desktop_notifications);
    lemma_first_set_associative(c.auto_clear_cache, b.auto_clear_cache, a.auto_clear_cache);
    lemma_first_set_associative(c.multi_instance, b.multi_instance, a.multi_instance);
    lemma_first_set_associative(c.disable_hardware_accel, b.disable_hardware_accel, a.disable_hardware_accel);
    lemma_first_set_associative(c.blur, b.blur, a.blur);
    lemma_first_set_associative(c.blur_css, b.blur_css, a.blur_css);
    lemma_first_set_associative(c.client_mods, b.client_mods, a.client_mods);
    lemma_first_set_associative(c.unread_badge, b.unread_badge, a.unread_badge);
    lemma_first_set_associative(c.client_plugins, b.client_plugins, a.client_plugins);
    lemma_first_set_associative(c.tray_icon_enabled, b.tray_icon_enabled, a.tray_icon_enabled);
    lemma_first_set_associative(c.proxy_uri, b.proxy_uri, a.proxy_uri);
    lemma_first_set_associative(c.keybinds, b.keybinds, a.keybinds);
    lemma_first_set_associative(c.keybinds_enabled, b.keybinds_enabled, a.keybinds_enabled);
    lemma_first_set_associative(c.rpc_process_scanner, b.rpc_process_scanner, a.rpc_process_scanner);
    lemma_first_set_associative(c.rpc_ipc_connector, b.rpc_ipc_connector, a.rpc_ipc_connector);
    lemma_first_set_associative(c.rpc_websocket_connector, b.rpc_websocket_connector, a.rpc_websocket_connector);
    lemma_first_set_associative(c.rpc_secondary_events, b.rpc_secondary_events, a.rpc_secondary_events);
}

/// `Option::or` is associative.
proof fn lemma_first_set_associative<T>(x: Option<T>, y: Option<T>, z: Option<T>)
    ensures
        first_set(x, first_set(y, z)) == first_set(first_set(x, y), z),
{
}

/// Laying a configuration over itself changes nothing.
pub proof fn lemma_merge_idempotent(a: Config)
    ensures
        a.merged(a) == a,
{
}

/// The configuration that sets nothing is neutral on both sides of an
/// overlay.
pub proof fn lemma_merge_unset_neutral(a: Config)
    ensures
        a.merged(Config::unset()) == a,
        Config::unset().merged(a) == a,
{
}

/// Overlaying a complete configuration replaces everything: the base no
/// longer matters.
pub proof fn lemma_merge_complete_overrides(a: Config, b: Config)
    requires
        b.is_complete(),
    ensures
        a.merged(b) == b,
{
}

} // verus!
