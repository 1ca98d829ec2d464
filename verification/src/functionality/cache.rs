//! Clearing the webview cache when the window closes.
use vstd::prelude::*;
use crate::config::Config;
use crate::platform::Platform;
use crate::text::texts;
use crate::util::paths::{profile_name, profile_of};

verus! {

broadcast use vstd::string::group_string_axioms;

/// How the webview cache is cleared.
#[derive(Clone, Debug, PartialEq, Eq)]
pub enum CacheClearing {
    /// Remove these folders, given as components below the profiles folder
    /// (WebView2 on Windows).
    RemoveFolders(Vec<Vec<String>>),
    /// Ask WebKit's website data store to drop its disk, memory and offline
    /// application caches (macOS).
    WebsiteDataStore,
    /// Nothing to clear: WebKitGTK keeps its cache in the profile's data
    /// folder (Linux).
    Nothing,
}

/// How the webview cache of the selected profile is cleared on `p`.
pub fn clear_cache(p: Platform, config: &Config) -> (c: CacheClearing)
    ensures
        p == Platform::Windows ==> (c matches CacheClearing::RemoveFolders(dirs) && is_windows_cache(
            dirs,
            *config,
        )),
        p == Platform::MacOS ==> c == CacheClearing::WebsiteDataStore,
        p == Platform::Linux ==> c == CacheClearing::Nothing,
{
    match p {
        Platform::Windows => CacheClearing::RemoveFolders(windows_cache_dirs(config)),
        Platform::MacOS => CacheClearing::WebsiteDataStore,
        Platform::Linux => CacheClearing::Nothing,
    }
}

/// Clears the cache when the window closes, if the configuration asks for
/// it: how, or none.
pub fn maybe_clear_cache(p: Platform, config: &Config) -> (c: Option<CacheClearing>)
    ensures
        c is Some <==> config.auto_clear_cache == Some(true),
        c matches Some(k) ==> (p == Platform::Windows ==> (k matches CacheClearing::RemoveFolders(
            dirs,
        ) && is_windows_cache(dirs, *config))) && (p == Platform::MacOS ==> k
            == CacheClearing::WebsiteDataStore) && (p == Platform::Linux ==> k
            == CacheClearing::Nothing),
{
    let wanted = match config.auto_clear_cache {
        Some(b) => b,
        None => false,
    };
    if wanted {
        Some(clear_cache(p, config))
    } else {
        None
    }
}

/// Whether `dirs` are the two WebView2 cache folders of the selected
/// profile.
pub open spec fn is_windows_cache(dirs: Vec<Vec<String>>, config: Config) -> bool {
    &&& dirs@.len() == 2
    &&& texts(dirs@[0]@) == seq![profile_of(config), "webdata"@, "EBWebView"@, "Default"@, "Cache"@]
    &&& texts(dirs@[1]@) == seq![profile_of(config), "webdata"@, "EBWebView"@, "Default"@, "Code Cache"@]
}

/// The folders that hold WebView2's caches on Windows, as components below
/// the profiles folder: the "Cache" and "Code Cache" folders of the
/// selected profile's default webview profile.
pub fn windows_cache_dirs(config: &Config) -> (dirs: Vec<Vec<String>>)
    ensures
        is_windows_cache(dirs, *config),
{
    let mut main: Vec<String> = Vec::new();
    main.push(profile_name(config));
    main.push(String::from_str("webdata"));
    main.push(String::from_str("EBWebView"));
    main.push(String::from_str("Default"));
    main.push(String::from_str("Cache"));
    let mut code: Vec<String> = Vec::new();
    code.push(profile_name(config));
    code.push(String::from_str("webdata"));
    code.push(String::from_str("EBWebView"));
    code.push(String::from_str("Default"));
    code.push(String::from_str("Code Cache"));
    assert(texts(main@) =~= seq![profile_of(*config), "webdata"@, "EBWebView"@, "Default"@, "Cache"@]);
    assert(texts(code@) =~= seq![
        profile_of(*config),
        "webdata"@,
        "EBWebView"@,
        "Default"@,
        "Code Cache"@,
    ]);
    let mut dirs: Vec<Vec<String>> = Vec::new();
    dirs.push(main);
    dirs.push(code);
    dirs
}

} // verus!
