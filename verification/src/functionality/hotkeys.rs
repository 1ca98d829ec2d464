//! Global keybinds: which are registered, how, and what they tell the
//! frontend.
use std::collections::HashMap;
use vstd::prelude::*;
use crate::config::{Config, KeyStruct};
use crate::functionality::keyboard::{
    codes, js_key_name, keystructs_to_hotkey, modifiers_of, Hotkey,
};
use crate::functionality::window::{switch, switch_value};
use crate::text::{starts_with, str_eq, str_starts_with};

verus! {

broadcast use vstd::string::group_string_axioms;

/// The keybinds set in the configuration, none when unset.
pub fn get_keybinds(config: Config) -> (k: HashMap<String, Vec<KeyStruct>>)
    ensures
        config.keybinds matches Some(m) ==> k == m,
        config.keybinds is None ==> k@ == Map::<String, Vec<KeyStruct>>::empty(),
{
    match config.keybinds {
        Some(m) => m,
        None => HashMap::new(),
    }
}

/// Stores the keybinds `keybinds` in the configuration; nothing else
/// changes.
pub fn set_keybinds(config: &mut Config, keybinds: HashMap<String, Vec<KeyStruct>>)
    ensures
        *final(config) == (Config { keybinds: Some(keybinds), ..*old(config) }),
{
    config.keybinds = Some(keybinds);
}

/// Records whether push-to-talk is on; nothing else changes.
pub fn set_push_to_talk(config: &mut Config, state: bool)
    ensures
        *final(config) == (Config { push_to_talk: Some(state), ..*old(config) }),
{
    config.push_to_talk = Some(state);
}

/// Whether push-to-talk is on when the keybind watcher starts.
pub fn push_to_talk_enabled(config: &Config) -> (b: bool)
    ensures
        b == switch(config.push_to_talk, false),
{
    switch_value(config.push_to_talk, false)
}

/// Whether the global keybind watcher is started.
pub fn keybinds_enabled(config: &Config) -> (b: bool)
    ensures
        b == switch(config.keybinds_enabled, false),
{
    switch_value(config.keybinds_enabled, false)
}

/// How a keybind reports its key.
#[derive(PartialEq, Eq, Structural, Clone, Copy, Debug)]
pub enum KeybindKind {
    /// Both pressing and releasing are reported (actions whose name starts
    /// with "PUSH").
    Push,
    /// Only pressing is reported.
    Press,
}

/// How the keybind of the action `action` reports its key.
pub open spec fn kind_of(action: Seq<char>) -> KeybindKind {
    if starts_with(action, "PUSH"@) {
        KeybindKind::Push
    } else {
        KeybindKind::Press
    }
}

/// How the keybind of the action `action` reports its key.
pub fn keybind_kind(action: &str) -> (k: KeybindKind)
    ensures
        k == kind_of(action@),
{
    if str_starts_with(action, "PUSH") {
        KeybindKind::Push
    } else {
        KeybindKind::Press
    }
}

/// What a keybind tells the frontend.
#[derive(PartialEq, Eq, Structural, Clone, Copy, Debug)]
pub enum KeybindEvent {
    /// "keybind_pressed"
    Pressed,
    /// "keybind_released"
    Released,
}

/// The name of the event `e`.
pub open spec fn event_name(e: KeybindEvent) -> Seq<char> {
    match e {
        KeybindEvent::Pressed => "keybind_pressed"@,
        KeybindEvent::Released => "keybind_released"@,
    }
}

/// The name of the event `e` sent to the frontend.
pub fn keybind_event_name(e: KeybindEvent) -> (s: &'static str)
    ensures
        s@ == event_name(e),
{
    match e {
        KeybindEvent::Pressed => "keybind_pressed",
        KeybindEvent::Released => "keybind_released",
    }
}

/// What a push keybind of the action `action` tells the frontend when its
/// key is pressed (`pressed`) or released: nothing for the push-to-talk
/// action while push-to-talk is off; otherwise which of the two happened.
pub fn push_keybind_event(action: &str, pressed: bool, ptt_enabled: bool) -> (e: Option<
    KeybindEvent,
>)
    ensures
        e == (if !ptt_enabled && action@ == "PUSH_TO_TALK"@ {
            None
        } else if pressed {
            Some(KeybindEvent::Pressed)
        } else {
            Some(KeybindEvent::Released)
        }),
{
    if !ptt_enabled && str_eq(action, "PUSH_TO_TALK") {
        None
    } else if pressed {
        Some(KeybindEvent::Pressed)
    } else {
        Some(KeybindEvent::Released)
    }
}

/// A keybind to register with the hotkey hook.
#[derive(Clone, Debug, PartialEq, Eq)]
pub struct Registration {
    pub action: String,
    pub hotkey: Hotkey,
    pub kind: KeybindKind,
}

/// Whether the keys `keys` make a hotkey.
pub open spec fn has_hotkey(keys: Seq<KeyStruct>) -> bool {
    keys.len() > 0 && js_key_name(keys.last().code@) is Some
}

/// Whether `r` registers the keybind of `action` on `keys`.
pub open spec fn registers(r: Registration, action: String, keys: Seq<KeyStruct>) -> bool {
    &&& r.action@ == action@
    &&& js_key_name(keys.last().code@) == Some(r.hotkey.key_code@)
    &&& r.hotkey.modifiers == modifiers_of(codes(keys.drop_last()))
    &&& r.kind == kind_of(action@)
}

/// The keybinds of `keybinds` that make a hotkey, in order; the others are
/// skipped.
pub open spec fn valid_keybinds(keybinds: Seq<(String, Vec<KeyStruct>)>) -> Seq<
    (String, Vec<KeyStruct>),
> {
    keybinds.filter(|b: (String, Vec<KeyStruct>)| has_hotkey(b.1@))
}

/// The keybinds to register for the actions and keys `keybinds` (in the
/// order of the configuration's map): each whose keys make a hotkey, with
/// that hotkey and the way its action reports keys; the others are left
/// out.
pub fn register_all_keybinds(keybinds: Vec<(String, Vec<KeyStruct>)>) -> (r: Vec<Registration>)
    ensures
        r@.len() == valid_keybinds(keybinds@).len(),
        forall|i: int|
            0 <= i < r@.len() ==> registers(
                #[trigger] r@[i],
                valid_keybinds(keybinds@)[i].0,
                valid_keybinds(keybinds@)[i].1@,
            ),
{
    let ghost orig = keybinds@;
    let ghost pred = |b: (String, Vec<KeyStruct>)| has_hotkey(b.1@);
    let mut rest = keybinds;
    let mut out: Vec<Registration> = Vec::new();
    let mut k: usize = 0;
    assert(orig.len() == rest.len());
    while rest.len() > 0
        invariant
            k <= orig.len() <= usize::MAX,
            rest@ == orig.skip(k as int),
            pred == (|b: (String, Vec<KeyStruct>)| has_hotkey(b.1@)),
            out@.len() == orig.take(k as int).filter(pred).len(),
            forall|i: int|
                0 <= i < out@.len() ==> registers(
                    #[trigger] out@[i],
                    orig.take(k as int).filter(pred)[i].0,
                    orig.take(k as int).filter(pred)[i].1@,
                ),
        decreases rest.len(),
    {
        let (action, keys) = rest.remove(0);
        proof {
            assert(orig.take(k + 1).drop_last() =~= orig.take(k as int));
            assert(orig.take(k + 1).last() == (action, keys));
            reveal_with_fuel(Seq::filter, 1);
        }
        match keystructs_to_hotkey(&keys) {
            Some(hotkey) => {
                let kind = keybind_kind(action.as_str());
                out.push(Registration { action, hotkey, kind });
            },
            None => {},
        }
        k = k + 1;
        assert(rest@ =~= orig.skip(k as int));
    }
    assert(orig.take(k as int) =~= orig);
    out
}

} // verus!
