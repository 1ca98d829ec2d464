//! The browser identity the webview presents, per platform.
use vstd::prelude::*;
use crate::config::Config;
use crate::platform::Platform;
use crate::text::{append_str, chars_of, concat2, string_of};

verus! {

broadcast use vstd::string::group_string_axioms;

/// The operating-system part of the user agent.
pub open spec fn os_token(p: Platform) -> Seq<char> {
    match p {
        Platform::Windows => "(Windows NT 10.0; Win64; x64)"@,
        Platform::MacOS => "(Macintosh; Intel Mac OS X 10_15_7)"@,
        Platform::Linux => "(X11; Linux x86_64)"@,
    }
}

/// The user agent presented on platform `p`: on Windows a Chrome of the
/// given version (138.0.0.0 when unknown), elsewhere Safari 18.
pub open spec fn user_agent_of(p: Platform, chrome_version: Option<Seq<char>>) -> Seq<char> {
    if p == Platform::Windows {
        let v = match chrome_version {
            Some(v) => v,
            None => "138.0.0.0"@,
        };
        "Mozilla/5.0 "@ + os_token(p) + " AppleWebKit/537.36 (KHTML, like Gecko) Chrome/"@ + v
            + " Safari/537.36"@
    } else {
        "Mozilla/5.0 "@ + os_token(p)
            + " AppleWebKit/605.1.15 (KHTML, like Gecko) Version/18.0 Safari/605.1.15"@
    }
}

fn os_token_exec(p: Platform) -> (t: &'static str)
    ensures
        t@ == os_token(p),
{
    match p {
        Platform::Windows => "(Windows NT 10.0; Win64; x64)",
        Platform::MacOS => "(Macintosh; Intel Mac OS X 10_15_7)",
        Platform::Linux => "(X11; Linux x86_64)",
    }
}

/// The user agent that the webview presents on platform `p`.
pub fn useragent(p: Platform, chrome_version: Option<String>) -> (ua: String)
    ensures
        ua@ == user_agent_of(
            p,
            match chrome_version {
                Some(v) => Some(v@),
                None => None,
            },
        ),
{
    let mut ua = String::from_str("Mozilla/5.0 ");
    append_str(&mut ua, os_token_exec(p));
    if p == Platform::Windows {
        append_str(&mut ua, " AppleWebKit/537.36 (KHTML, like Gecko) Chrome/");
        match &chrome_version {
            Some(v) => append_str(&mut ua, v.as_str()),
            None => append_str(&mut ua, "138.0.0.0"),
        }
        append_str(&mut ua, " Safari/537.36");
    } else {
        append_str(&mut ua, " AppleWebKit/605.1.15 (KHTML, like Gecko) Version/18.0 Safari/605.1.15");
    }
    ua
}

/// The major version at the start of a browser version string: the
/// characters before its first '.'.
pub open spec fn major_version(v: Seq<char>, i: int) -> Seq<char>
    decreases v.len() - i,
{
    if i < 0 || i >= v.len() || v[i] == '.' {
        Seq::empty()
    } else {
        seq![v[i]] + major_version(v, i + 1)
    }
}

/// The Chrome version announced for the WebView2 browser version
/// `browser_version`: its major version followed by ".0.0.0", or none when
/// it has no major version.
pub fn chromium_version(browser_version: &str) -> (r: Option<String>)
    ensures
        major_version(browser_version@, 0).len() == 0 ==> r is None,
        major_version(browser_version@, 0).len() > 0 ==> (r matches Some(v) && v@
            == major_version(browser_version@, 0) + ".0.0.0"@),
{
    let v = chars_of(browser_version);
    let mut out: Vec<char> = Vec::new();
    let mut i: usize = 0;
    while i < v.len() && v[i] != '.'
        invariant
            v@ == browser_version@,
            i <= v.len(),
            out@ + major_version(v@, i as int) == major_version(v@, 0),
        decreases v.len() - i,
    {
        let ghost before = out@;
        out.push(v[i]);
        assert(before + major_version(v@, i as int) =~= out@ + major_version(v@, i + 1));
        i = i + 1;
    }
    assert(out@ =~= out@ + major_version(v@, i as int));
    if out.len() == 0 {
        None
    } else {
        let major = string_of(&out);
        Some(concat2(major.as_str(), ".0.0.0"))
    }
}

/// A key combination of the webview.
#[derive(PartialEq, Eq, Structural, Clone, Copy, Debug)]
pub struct WebviewKeybind {
    /// The virtual key code.
    pub key: u32,
    pub shift: bool,
    pub ctrl: bool,
    pub alt: bool,
}

/// The webview's own shortcuts that are turned off on Windows: Shift+Escape.
pub open spec fn disabled_keybinds() -> Seq<WebviewKeybind> {
    seq![WebviewKeybind { key: 0x1B, shift: true, ctrl: false, alt: false }]
}

/// Whether the webview's own handling of a key press is turned off: for a
/// key going down with exactly the modifiers of one of the turned-off
/// shortcuts.
pub fn disables_accelerator(key_down: bool, pressed: WebviewKeybind) -> (b: bool)
    ensures
        b == (key_down && disabled_keybinds().contains(pressed)),
{
    let escape = WebviewKeybind { key: 0x1B, shift: true, ctrl: false, alt: false };
    proof {
        if disabled_keybinds().contains(pressed) {
            assert(disabled_keybinds()[0] == pressed);
        }
        if pressed == escape {
            assert(disabled_keybinds()[0] == pressed);
        }
    }
    key_down && pressed == escape
}

/// The zoom level set in the configuration, as text: "1.0" when unset.
pub fn zoom_setting(config: &Config) -> (z: String)
    ensures
        z@ == (match config.zoom {
            Some(z) => z@,
            None => "1.0"@,
        }),
{
    match &config.zoom {
        Some(z) => z.clone(),
        None => String::from_str("1.0"),
    }
}

} // verus!
