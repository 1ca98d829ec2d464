//! Browser extensions of the Windows webview.
use vstd::prelude::*;
use crate::platform::Platform;

verus! {

/// Whether the client's browser extension has been injected: never on
/// Windows in legacy fetch mode; otherwise whether the webview reported the
/// extension added (`added`).
pub fn extension_injected(p: Platform, legacy_fetch: bool, added: bool) -> (b: bool)
    ensures
        b == (added && !(p == Platform::Windows && legacy_fetch)),
{
    if p == Platform::Windows && legacy_fetch {
        return false;
    }
    added
}

/// Whether extensions are loaded at all: only the Windows webview supports
/// them, and safe mode loads none.
pub fn loads_extensions(p: Platform, safemode: bool) -> (b: bool)
    ensures
        b == (p == Platform::Windows && !safemode),
{
    p == Platform::Windows && !safemode
}

} // verus!
