//! The choices the client makes while it starts: settings carried over
//! from older versions, the proxy, the scripts injected before the page
//! loads, and where deep links lead.
use vstd::prelude::*;
use crate::args::Args;
use crate::config::Config;
use crate::functionality::window::{switch, switch_value};
use crate::text::{append_str, concat2, str_eq};
use crate::util::url::{client_type_of, client_url, get_client_url};

verus! {

broadcast use vstd::string::group_string_axioms;

/// Whether `c` still uses the single "theme" option of older versions: a
/// theme other than "none" is set and no "themes" list is.
pub open spec fn uses_deprecated_theme(c: Config) -> bool {
    c.theme matches Some(t) && c.themes is None && t@ != "none"@
}

/// Moves a theme set with the deprecated "theme" option into the "themes"
/// list, leaving "theme" as "none"; says whether it did (the configuration
/// is then saved). Nothing else changes, and nothing changes when "themes"
/// is already set or the theme is "none".
pub fn migrate_deprecated_theme(config: &mut Config) -> (migrated: bool)
    ensures
        migrated == uses_deprecated_theme(*old(config)),
        !migrated ==> *final(config) == *old(config),
        migrated ==> {
            &&& final(config).themes matches Some(v) && v@.len() == 1 && (old(config).theme
                matches Some(t) && v@[0]@ == t@)
            &&& final(config).theme matches Some(n) && n@ == "none"@
            &&& *final(config) == (Config {
                theme: final(config).theme,
                themes: final(config).themes,
                ..*old(config)
            })
        },
{
    let deprecated = match &config.theme {
        Some(t) => config.themes.is_none() && !str_eq(t.as_str(), "none"),
        None => false,
    };
    if !deprecated {
        return false;
    }
    let t = match config.theme.take() {
        Some(t) => t,
        None => String::new(),
    };
    let mut v: Vec<String> = Vec::new();
    v.push(t);
    config.themes = Some(v);
    config.theme = Some(String::from_str("none"));
    true
}

/// Migrating the deprecated theme happens once: once "themes" is set, as
/// a migration sets it, a second migration finds nothing to do.
pub proof fn lemma_migration_is_final(before: Config, after: Config)
    requires
        uses_deprecated_theme(before),
        after.themes is Some,
    ensures
        !uses_deprecated_theme(after),
{
}

/// The proxy that the window uses: the one given on the command line, else
/// the configured one; none when neither is given or the chosen one is
/// empty.
pub fn choose_proxy(args: &Args, config: &Config) -> (p: Option<String>)
    ensures
        p == (match args.proxy {
            Some(a) => if a@.len() == 0 {
                None
            } else {
                Some(a)
            },
            None => match config.proxy_uri {
                Some(c) => if c@.len() == 0 {
                    None
                } else {
                    Some(c)
                },
                None => None,
            },
        }),
{
    let chosen = match &args.proxy {
        Some(a) => Some(a.clone()),
        None => match &config.proxy_uri {
            Some(c) => Some(c.clone()),
            None => None,
        },
    };
    match chosen {
        Some(s) => if s.as_str().is_empty() {
            None
        } else {
            Some(s)
        },
        None => None,
    }
}

/// The script run before the page loads: it stops a second initialization,
/// then runs the bundled preinject script and the client mods.
pub open spec fn init_script(preinject: Seq<char>, client_mods: Seq<char>) -> Seq<char> {
    "console.log(window.location);if(window.__DORION_INIT__) {throw new Error('Dorion already began initializing');} window.__DORION_INIT__ = true; "@
        + preinject + ";"@ + client_mods
}

/// The script injected before the page loads; none in safe mode.
pub fn initialization_script(args: &Args, preinject: &str, client_mods: &str) -> (s: Option<
    String,
>)
    ensures
        args.safemode <==> s is None,
        s matches Some(t) ==> t@ == init_script(preinject@, client_mods@),
{
    if args.safemode {
        return None;
    }
    let mut s = concat2(
        "console.log(window.location);if(window.__DORION_INIT__) {throw new Error('Dorion already began initializing');} window.__DORION_INIT__ = true; ",
        preinject,
    );
    append_str(&mut s, ";");
    append_str(&mut s, client_mods);
    Some(s)
}

/// The window's title for the version `version`: "Dorion - v" and the
/// version.
pub fn window_title(version: &str) -> (t: String)
    ensures
        t@ == "Dorion - v"@ + version@,
{
    concat2("Dorion - v", version)
}

/// The commit the client was built from, or "Unknown".
pub fn git_hash(hash: Option<&str>) -> (h: String)
    ensures
        h@ == (match hash {
            Some(s) => s@,
            None => "Unknown"@,
        }),
{
    match hash {
        Some(s) => String::from_str(s),
        None => String::from_str("Unknown"),
    }
}

/// Whether the frontend leaves plugins out: in safe mode.
pub fn should_disable_plugins(args: &Args) -> (b: bool)
    ensures
        b == args.safemode,
{
    args.safemode
}

/// Whether a second start of the client shows the running one instead:
/// unless several instances are allowed.
pub fn single_instance(config: &Config) -> (b: bool)
    ensures
        b == !switch(config.multi_instance, false),
{
    !switch_value(config.multi_instance, false)
}

/// Where a deep link with the path `path` leads: that path on the
/// configured client's site.
pub fn deep_link_url(config: &Config, path: &str) -> (url: String)
    ensures
        url@ == client_url(client_type_of(*config)) + path@,
{
    let mut url = get_client_url(config);
    append_str(&mut url, path);
    url
}

} // verus!
