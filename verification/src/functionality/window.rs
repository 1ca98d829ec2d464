//! What the window does on the frontend's requests and on its own events.
use vstd::prelude::*;
use crate::config::Config;

verus! {

/// What closing the main window does.
#[derive(PartialEq, Eq, Structural, Clone, Copy, Debug)]
pub enum CloseAction {
    /// The window is hidden and the client keeps running in the tray.
    Hide,
    /// The window is closed.
    Close,
}

/// The value of an optional switch, `default` when unset.
pub open spec fn switch(b: Option<bool>, default: bool) -> bool {
    match b {
        Some(v) => v,
        None => default,
    }
}

/// The value of an optional switch.
pub fn switch_value(b: Option<bool>, default: bool) -> (r: bool)
    ensures
        r == switch(b, default),
{
    match b {
        Some(v) => v,
        None => default,
    }
}

/// What closing the window does: it hides to the tray when the
/// configuration keeps the client in the tray, and closes otherwise. The
/// window state is saved first in both cases.
pub fn close(config: &Config) -> (a: CloseAction)
    ensures
        a == (if switch(config.sys_tray, false) {
            CloseAction::Hide
        } else {
            CloseAction::Close
        }),
{
    if switch_value(config.sys_tray, false) {
        CloseAction::Hide
    } else {
        CloseAction::Close
    }
}

/// Whether toggling maximization maximizes: when the window is not
/// maximized; otherwise it is restored.
pub fn toggle_maximize(is_maximized: bool) -> (maximize: bool)
    ensures
        maximize == !is_maximized,
{
    !is_maximized
}

/// Whether the client is registered to start with the system.
pub fn setup_autostart(config: &Config) -> (enable: bool)
    ensures
        enable == switch(config.open_on_startup, false),
{
    switch_value(config.open_on_startup, false)
}

/// How the window shows once the page's scripts are ready.
#[derive(PartialEq, Eq, Structural, Clone, Copy, Debug)]
pub struct ShowOnLoad {
    /// Whether the window is shown (else it stays hidden).
    pub show: bool,
    /// Whether it is maximized.
    pub maximize: bool,
}

/// How the window shows when the page has loaded: it stays hidden only when
/// the client was started with the system and is set to start minimized;
/// it is maximized when set to start maximized.
pub fn show_on_load(is_startup: bool, config: &Config) -> (s: ShowOnLoad)
    ensures
        s.show == (!is_startup || !switch(config.startup_minimized, false)),
        s.maximize == switch(config.start_maximized, false),
{
    let show = !is_startup || !switch_value(config.startup_minimized, false);
    ShowOnLoad { show, maximize: switch_value(config.start_maximized, false) }
}

/// Whether the window is made transparent: when a blur effect other than
/// "none" is set.
pub fn window_transparent(config: &Config) -> (b: bool)
    ensures
        b == (match config.blur {
            Some(s) => s@ != "none"@,
            None => false,
        }),
{
    match &config.blur {
        Some(s) => !crate::text::str_eq(s.as_str(), "none"),
        None => {
            false
        },
    }
}

} // verus!
