//! Window background effects.
use vstd::prelude::*;
use crate::platform::Platform;
use crate::text::{str_eq, texts};

verus! {

broadcast use vstd::string::group_string_axioms;

/// The effect names offered on platform `p`.
pub open spec fn blur_names(p: Platform) -> Seq<Seq<char>> {
    match p {
        Platform::Windows => seq!["none"@, "blur"@, "acrylic"@, "mica"@, "transparent"@],
        Platform::MacOS => seq!["none"@, "vibrancy"@, "transparent"@],
        Platform::Linux => seq!["none"@, "transparent"@],
    }
}

/// The background effects that the platform `p` offers.
pub fn available_blurs(p: Platform) -> (v: Vec<String>)
    ensures
        texts(v@) == blur_names(p),
{
    let mut v: Vec<String> = Vec::new();
    v.push(String::from_str("none"));
    match p {
        Platform::Windows => {
            v.push(String::from_str("blur"));
            v.push(String::from_str("acrylic"));
            v.push(String::from_str("mica"));
        },
        Platform::MacOS => {
            v.push(String::from_str("vibrancy"));
        },
        Platform::Linux => {},
    }
    v.push(String::from_str("transparent"));
    assert(texts(v@) =~= blur_names(p));
    v
}

/// A colour: red, green, blue and alpha.
#[derive(PartialEq, Eq, Structural, Clone, Copy, Debug)]
pub struct Rgba {
    pub r: u8,
    pub g: u8,
    pub b: u8,
    pub a: u8,
}

/// An effect applied to the window's background.
#[derive(PartialEq, Eq, Structural, Clone, Copy, Debug)]
pub enum BlurEffect {
    /// Windows blur, tinted with a colour.
    Blur(Rgba),
    /// Windows acrylic, tinted with a colour.
    Acrylic(Rgba),
    /// Windows mica.
    Mica,
    /// The heads-up-display vibrancy of macOS.
    Vibrancy,
}

/// The tint of the Windows blur and acrylic effects.
pub open spec fn effect_tint() -> Rgba {
    Rgba { r: 18, g: 18, b: 18, a: 125 }
}

/// The effect that the name `effect` applies on `p`, if any.
pub open spec fn effect_of(p: Platform, effect: Seq<char>) -> Option<BlurEffect> {
    match p {
        Platform::Windows => if effect == "blur"@ {
            Some(BlurEffect::Blur(effect_tint()))
        } else if effect == "acrylic"@ {
            Some(BlurEffect::Acrylic(effect_tint()))
        } else if effect == "mica"@ {
            Some(BlurEffect::Mica)
        } else {
            None
        },
        Platform::MacOS => if effect == "vibrancy"@ {
            Some(BlurEffect::Vibrancy)
        } else {
            None
        },
        Platform::Linux => None,
    }
}

/// The effect to apply for the name `effect` on platform `p`; none for
/// "none", "transparent" (the window's transparency is set when it is
/// made) and unknown names, and always none on Linux.
pub fn apply_effect(p: Platform, effect: &str) -> (e: Option<BlurEffect>)
    ensures
        e == effect_of(p, effect@),
{
    proof {
        reveal_strlit("blur");
        reveal_strlit("acrylic");
        reveal_strlit("mica");
        reveal_strlit("vibrancy");
    }
    match p {
        Platform::Windows => {
            if str_eq(effect, "blur") {
                Some(BlurEffect::Blur(Rgba { r: 18, g: 18, b: 18, a: 125 }))
            } else if str_eq(effect, "acrylic") {
                Some(BlurEffect::Acrylic(Rgba { r: 18, g: 18, b: 18, a: 125 }))
            } else if str_eq(effect, "mica") {
                Some(BlurEffect::Mica)
            } else {
                None
            }
        },
        Platform::MacOS => {
            if str_eq(effect, "vibrancy") {
                Some(BlurEffect::Vibrancy)
            } else {
                None
            }
        },
        Platform::Linux => None,
    }
}

} // verus!
