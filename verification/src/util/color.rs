//! The operating system's accent color, as last reported, and the CSS color
//! that the frontend reads.
use vstd::prelude::*;
use crate::text::{append_str, decimal, decimal_string};

verus! {

broadcast use vstd::string::group_string_axioms;

/// The last accent color reported by the operating system.
#[derive(Clone, Debug, PartialEq, Eq)]
pub struct AccentColor {
    pub color: Option<(u8, u8, u8, u8)>,
}

/// The CSS form "rgba(r, g, b, a)" of a color, with decimal components.
pub open spec fn rgba_text(c: (u8, u8, u8, u8)) -> Seq<char> {
    "rgba("@ + decimal(c.0 as nat) + ", "@ + decimal(c.1 as nat) + ", "@ + decimal(c.2 as nat)
        + ", "@ + decimal(c.3 as nat) + ")"@
}

impl AccentColor {
    /// No accent color reported yet.
    pub fn new() -> (s: AccentColor)
        ensures
            s.color is None,
    {
        AccentColor { color: None }
    }

    /// Records the accent color that the operating system reports.
    pub fn set_accent_color(&mut self, r: u8, g: u8, b: u8, a: u8)
        ensures
            final(self).color == Some((r, g, b, a)),
    {
        self.color = Some((r, g, b, a));
    }

    /// The accent color in CSS form, or the empty text when none was
    /// reported.
    pub fn _get_os_accent(&self) -> (s: String)
        ensures
            match self.color {
                Some(c) => s@ == rgba_text(c),
                None => s@.len() == 0,
            },
    {
        match self.color {
            Some((r, g, b, a)) => {
                let mut s = String::from_str("rgba(");
                append_str(&mut s, decimal_string(r as u64).as_str());
                append_str(&mut s, ", ");
                append_str(&mut s, decimal_string(g as u64).as_str());
                append_str(&mut s, ", ");
                append_str(&mut s, decimal_string(b as u64).as_str());
                append_str(&mut s, ", ");
                append_str(&mut s, decimal_string(a as u64).as_str());
                append_str(&mut s, ")");
                s
            },
            None => String::new(),
        }
    }
}

/// What the frontend reads after an accent color was recorded is that
/// color: a read after `set_accent_color(r, g, b, a)` gives
/// "rgba(r, g, b, a)", whatever was recorded before.
pub proof fn lemma_read_after_set(before: AccentColor, r: u8, g: u8, b: u8, a: u8, after: AccentColor, shown: Seq<char>)
    requires
        after.color == Some((r, g, b, a)),
        match after.color {
            Some(c) => shown == rgba_text(c),
            None => shown.len() == 0,
        },
    ensures
        shown == rgba_text((r, g, b, a)),
{
}

} // verus!
