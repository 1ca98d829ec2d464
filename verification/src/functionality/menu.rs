//! The application menu of macOS and its tray icon switch.
use vstd::prelude::*;
use crate::config::Config;
use crate::functionality::window::{switch, switch_value};

verus! {

/// Whether the tray icon is shown; it is unless turned off.
pub fn tray_icon_enabled(config: &Config) -> (b: bool)
    ensures
        b == switch(config.tray_icon_enabled, true),
{
    switch_value(config.tray_icon_enabled, true)
}

/// The menu's "Toggle tray icon" item: the icon's visibility flips, and the
/// new state is recorded in the configuration, which is otherwise
/// unchanged. Returns whether the icon is now shown.
pub fn toggle_tray_icon(config: &mut Config) -> (visible: bool)
    ensures
        visible == !switch(old(config).tray_icon_enabled, true),
        final(config).tray_icon_enabled == Some(visible),
        *final(config) == (Config { tray_icon_enabled: Some(visible), ..*old(config) }),
{
    let visible = !tray_icon_enabled(config);
    config.tray_icon_enabled = Some(visible);
    visible
}

/// Toggling the tray icon twice shows it as before and leaves the rest of
/// the configuration as it was.
pub proof fn lemma_toggle_twice(c: Config)
    ensures
        ({
            let once = Config { tray_icon_enabled: Some(!switch(c.tray_icon_enabled, true)), ..c };
            let twice = Config {
                tray_icon_enabled: Some(!switch(once.tray_icon_enabled, true)),
                ..once
            };
            twice == Config { tray_icon_enabled: Some(switch(c.tray_icon_enabled, true)), ..c }
        }),
{
}

} // verus!
