//! Turning the keys of a keybind, as the frontend names them, into a
//! global hotkey.
use vstd::prelude::*;
use crate::config::KeyStruct;
use crate::text::str_eq;

verus! {

broadcast use vstd::string::group_string_axioms;

/// What `KeyCode::from_str` of livesplit-hotkey gives for `code`, given by
/// the key's canonical name (`KeyCode::name`); none for an unknown code.
pub uninterp spec fn key_code_name(code: Seq<char>) -> Option<Seq<char>>;

/// `livesplit_hotkey::KeyCode::from_str`, with the key it finds given by
/// its canonical name. The result is named by `key_code_name`; nothing is
/// stated of which codes are known.
#[verifier::external_body]
fn parse_key_code(code: &str) -> (r: Option<String>)
    ensures
        r matches Some(n) ==> key_code_name(code@) == Some(n@),
        r is None ==> key_code_name(code@) is None,
{
    match code.parse::<livesplit_hotkey::KeyCode>() {
        Ok(k) => Some(k.name().to_string()),
        Err(_) => None,
    }
}

/// The key that the frontend's key code `code` stands for, by its canonical
/// name: the bare modifier names stand for the left-hand key; any other
/// code is looked up.
pub open spec fn js_key_name(code: Seq<char>) -> Option<Seq<char>> {
    if code == "Control"@ {
        Some("ControlLeft"@)
    } else if code == "Shift"@ {
        Some("ShiftLeft"@)
    } else if code == "Alt"@ {
        Some("AltLeft"@)
    } else if code == "Meta"@ {
        Some("MetaLeft"@)
    } else {
        key_code_name(code)
    }
}

/// The key that the frontend's key code `code` stands for, if any.
pub fn js_keycode_to_key(code: &str) -> (r: Option<String>)
    ensures
        r matches Some(n) ==> js_key_name(code@) == Some(n@),
        r is None ==> js_key_name(code@) is None,
{
    if str_eq(code, "Control") {
        Some(String::from_str("ControlLeft"))
    } else if str_eq(code, "Shift") {
        Some(String::from_str("ShiftLeft"))
    } else if str_eq(code, "Alt") {
        Some(String::from_str("AltLeft"))
    } else if str_eq(code, "Meta") {
        Some(String::from_str("MetaLeft"))
    } else {
        parse_key_code(code)
    }
}

/// The modifier keys held with a hotkey.
#[derive(PartialEq, Eq, Structural, Clone, Copy, Debug)]
pub struct Modifiers {
    pub shift: bool,
    pub control: bool,
    pub alt: bool,
    pub meta: bool,
}

/// No modifier.
pub open spec fn no_modifiers() -> Modifiers {
    Modifiers { shift: false, control: false, alt: false, meta: false }
}

/// `m` with the modifier that the key named `key` is (if it is one) added.
pub open spec fn with_modifier(m: Modifiers, key: Seq<char>) -> Modifiers {
    if key == "ControlLeft"@ || key == "ControlRight"@ {
        Modifiers { control: true, ..m }
    } else if key == "ShiftLeft"@ || key == "ShiftRight"@ {
        Modifiers { shift: true, ..m }
    } else if key == "AltLeft"@ || key == "AltRight"@ {
        Modifiers { alt: true, ..m }
    } else if key == "MetaLeft"@ || key == "MetaRight"@ {
        Modifiers { meta: true, ..m }
    } else {
        m
    }
}

/// The modifiers that the keys `codes` hold: those of the keys they stand
/// for that are modifier keys; codes of unknown keys and other keys count
/// for nothing.
pub open spec fn modifiers_of(codes: Seq<Seq<char>>) -> Modifiers
    decreases codes.len(),
{
    if codes.len() == 0 {
        no_modifiers()
    } else {
        let m = modifiers_of(codes.drop_last());
        match js_key_name(codes.last()) {
            Some(k) => with_modifier(m, k),
            None => m,
        }
    }
}

proof fn lemma_modifier_names_distinct()
    ensures
        "ControlLeft"@ != "ShiftLeft"@,
        "ControlLeft"@ != "ShiftRight"@,
        "ControlLeft"@ != "AltLeft"@,
        "ControlLeft"@ != "AltRight"@,
        "ControlLeft"@ != "MetaLeft"@,
        "ControlLeft"@ != "MetaRight"@,
        "ControlRight"@ != "ShiftLeft"@,
        "ControlRight"@ != "ShiftRight"@,
        "ControlRight"@ != "AltLeft"@,
        "ControlRight"@ != "AltRight"@,
        "ControlRight"@ != "MetaLeft"@,
        "ControlRight"@ != "MetaRight"@,
        "ShiftLeft"@ != "AltLeft"@,
        "ShiftLeft"@ != "AltRight"@,
        "ShiftLeft"@ != "MetaLeft"@,
        "ShiftLeft"@ != "MetaRight"@,
        "ShiftRight"@ != "AltLeft"@,
        "ShiftRight"@ != "AltRight"@,
        "ShiftRight"@ != "MetaLeft"@,
        "ShiftRight"@ != "MetaRight"@,
        "AltLeft"@ != "MetaLeft"@,
        "AltLeft"@ != "MetaRight"@,
        "AltRight"@ != "MetaLeft"@,
        "AltRight"@ != "MetaRight"@,
{
    reveal_strlit("ControlLeft");
    reveal_strlit("ControlRight");
    reveal_strlit("ShiftLeft");
    reveal_strlit("ShiftRight");
    reveal_strlit("AltLeft");
    reveal_strlit("AltRight");
    reveal_strlit("MetaLeft");
    reveal_strlit("MetaRight");
    assert("ShiftLeft"@[0] != "MetaRight"@[0]);
    assert("ControlLeft"@[0] != "ShiftRight"@[0]);
    assert("AltLeft"@[0] != "MetaLeft"@[0]);
    assert("AltRight"@[0] != "MetaLeft"@[0]);
    assert("ShiftLeft"@[0] != "MetaLeft"@[0]);
}

/// Adding a key to a set of modifiers sets the flag of the modifier that
/// the key is and leaves the others as they were: "AltLeft" and
/// "AltRight" set alt, "ShiftLeft" and "ShiftRight" shift, "ControlLeft"
/// and "ControlRight" control, "MetaLeft" and "MetaRight" meta; any other
/// key changes nothing.
pub proof fn lemma_modifier_flags(m: Modifiers, key: Seq<char>)
    ensures
        with_modifier(m, key).alt == (m.alt || key == "AltLeft"@ || key == "AltRight"@),
        with_modifier(m, key).shift == (m.shift || key == "ShiftLeft"@ || key == "ShiftRight"@),
        with_modifier(m, key).control == (m.control || key == "ControlLeft"@ || key
            == "ControlRight"@),
        with_modifier(m, key).meta == (m.meta || key == "MetaLeft"@ || key == "MetaRight"@),
{
    lemma_modifier_names_distinct();
}

/// Whether one of the keys `codes` stands for the key named `a` or the key
/// named `b`.
pub open spec fn holds_key(codes: Seq<Seq<char>>, a: Seq<char>, b: Seq<char>) -> bool {
    exists|j: int| 0 <= j < codes.len() && (js_key_name(codes[j]) == Some(a) || js_key_name(codes[j]) == Some(b))
}

/// The modifiers of a set of keys hold alt exactly when one of the keys is
/// a left or right Alt key, shift exactly when one is a Shift key, control
/// exactly when one is a Control key and meta exactly when one is a Meta
/// key; so the keys [Alt, X] give alt and no meta.
pub proof fn lemma_modifiers_of_keys(codes: Seq<Seq<char>>)
    ensures
        modifiers_of(codes).alt == holds_key(codes, "AltLeft"@, "AltRight"@),
        modifiers_of(codes).shift == holds_key(codes, "ShiftLeft"@, "ShiftRight"@),
        modifiers_of(codes).control == holds_key(codes, "ControlLeft"@, "ControlRight"@),
        modifiers_of(codes).meta == holds_key(codes, "MetaLeft"@, "MetaRight"@),
    decreases codes.len(),
{
    if codes.len() > 0 {
        let rest = codes.drop_last();
        lemma_modifiers_of_keys(rest);
        if let Some(k) = js_key_name(codes.last()) {
            lemma_modifier_flags(modifiers_of(rest), k);
        }
        assert forall|a: Seq<char>, b: Seq<char>| holds_key(codes, a, b) == (holds_key(rest, a, b) || js_key_name(codes.last()) == Some(a) || js_key_name(codes.last()) == Some(b)) by {
            if holds_key(codes, a, b) {
                let j = choose|j: int| 0 <= j < codes.len() && (js_key_name(codes[j]) == Some(a) || js_key_name(codes[j]) == Some(b));
                if j < rest.len() {
                    assert(rest[j] == codes[j]);
                }
            }
            if holds_key(rest, a, b) {
                let j = choose|j: int| 0 <= j < rest.len() && (js_key_name(rest[j]) == Some(a) || js_key_name(rest[j]) == Some(b));
                assert(rest[j] == codes[j]);
            }
            if js_key_name(codes.last()) == Some(a) || js_key_name(codes.last()) == Some(b) {
                assert(codes[codes.len() - 1] == codes.last());
            }
        }
    }
}

/// A global hotkey: a key, by its canonical name, and the modifiers held
/// with it.
#[derive(Clone, Debug, PartialEq, Eq)]
pub struct Hotkey {
    pub key_code: String,
    pub modifiers: Modifiers,
}

/// The codes of the keys `keys`.
pub open spec fn codes(keys: Seq<KeyStruct>) -> Seq<Seq<char>> {
    keys.map_values(|k: KeyStruct| k.code@)
}

fn modifier_added(m: Modifiers, key: &str) -> (r: Modifiers)
    ensures
        r == with_modifier(m, key@),
{
    if str_eq(key, "ControlLeft") || str_eq(key, "ControlRight") {
        Modifiers { control: true, ..m }
    } else if str_eq(key, "ShiftLeft") || str_eq(key, "ShiftRight") {
        Modifiers { shift: true, ..m }
    } else if str_eq(key, "AltLeft") || str_eq(key, "AltRight") {
        Modifiers { alt: true, ..m }
    } else if str_eq(key, "MetaLeft") || str_eq(key, "MetaRight") {
        Modifiers { meta: true, ..m }
    } else {
        m
    }
}

/// The hotkey of the keybind `keys`: its last key, held with the modifier
/// keys among the others; none when there are no keys or the last one is
/// unknown.
pub fn keystructs_to_hotkey(keys: &Vec<KeyStruct>) -> (h: Option<Hotkey>)
    ensures
        h is None <==> (keys@.len() == 0 || js_key_name(keys@.last().code@) is None),
        h matches Some(k) ==> {
            &&& js_key_name(keys@.last().code@) == Some(k.key_code@)
            &&& k.modifiers == modifiers_of(codes(keys@.drop_last()))
        },
{
    if keys.len() == 0 {
        return None;
    }
    let n = keys.len() - 1;
    let key = match js_keycode_to_key(keys[n].code.as_str()) {
        Some(k) => k,
        None => {
            return None;
        },
    };
    let ghost all = codes(keys@.drop_last());
    let mut m = Modifiers { shift: false, control: false, alt: false, meta: false };
    for i in 0..n
        invariant
            n == keys@.len() - 1,
            all == codes(keys@.drop_last()),
            m == modifiers_of(all.take(i as int)),
    {
        proof {
            assert(all.take(i + 1).drop_last() =~= all.take(i as int));
            assert(all.take(i + 1).last() == keys@[i as int].code@);
        }
        match js_keycode_to_key(keys[i].code.as_str()) {
            Some(k) => {
                m = modifier_added(m, k.as_str());
            },
            None => {},
        }
    }
    assert(all.take(n as int) =~= all);
    Some(Hotkey { key_code: key, modifiers: m })
}

} // verus!
