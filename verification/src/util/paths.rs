//! Where the client keeps its data. A place is a base folder, which the
//! program finds in its environment, and the path components below it.
use vstd::prelude::*;
use crate::config::Config;
use crate::platform::Platform;
use crate::text::texts;

verus! {

broadcast use vstd::string::group_string_axioms;

/// The profile that a configuration selects: "default" when unset.
pub open spec fn profile_of(config: Config) -> Seq<char> {
    match config.profile {
        Some(p) => p@,
        None => "default"@,
    }
}

/// The name of the selected profile.
pub fn profile_name(config: &Config) -> (p: String)
    ensures
        p@ == profile_of(*config),
{
    match &config.profile {
        Some(p) => p.clone(),
        None => String::from_str("default"),
    }
}

/// The webview data folder of the selected profile, as components below
/// the profiles folder: the profile, then "webdata".
pub fn get_webdata_dir(config: &Config) -> (dir: Vec<String>)
    ensures
        texts(dir@) == seq![profile_of(*config), "webdata"@],
{
    let mut dir: Vec<String> = Vec::new();
    dir.push(profile_name(config));
    dir.push(String::from_str("webdata"));
    assert(texts(dir@) =~= seq![profile_of(*config), "webdata"@]);
    dir
}

/// The folders that the places start from.
#[derive(PartialEq, Eq, Structural, Clone, Copy, Debug)]
pub enum BaseDir {
    /// The folder of the client's executable (portable installs).
    ExeDir,
    /// The user's configuration folder.
    ConfigDir,
    /// The user's data folder.
    DataDir,
    /// The user's home folder.
    HomeDir,
    /// The application's bundled resources.
    Resource,
}

/// A place: a base folder and the components below it.
#[derive(Clone, Debug, PartialEq, Eq)]
pub struct Location {
    pub base: BaseDir,
    pub components: Vec<String>,
}

/// The kinds of places the client uses.
#[derive(PartialEq, Eq, Structural, Clone, Copy, Debug)]
pub enum Place {
    ConfigDir,
    ConfigFile,
    PluginDir,
    ThemeDir,
    ThemeCacheDir,
    ExtensionsDir,
    MainExtensionDir,
    ProfilesDir,
    UpdaterDir,
    CustomDetectables,
    LogFile,
    ClearCacheMarker,
}

/// The folder under "dorion" for a place, by platform: the user's data
/// folder on Windows, the configuration folder elsewhere.
pub open spec fn app_base(p: Platform) -> BaseDir {
    if p == Platform::Windows {
        BaseDir::DataDir
    } else {
        BaseDir::ConfigDir
    }
}

/// The folder of the user's plugins, themes and extensions: the home folder
/// on Windows, the configuration folder elsewhere.
pub open spec fn user_base(p: Platform) -> BaseDir {
    if p == Platform::Windows {
        BaseDir::HomeDir
    } else {
        BaseDir::ConfigDir
    }
}

/// Where the place `place` is on platform `p`; `portable` tells an install
/// that keeps everything next to its executable.
pub open spec fn location_of(place: Place, p: Platform, portable: bool) -> (BaseDir, Seq<Seq<char>>) {
    match place {
        Place::ConfigDir => if portable {
            (BaseDir::ExeDir, seq![])
        } else {
            (app_base(p), seq!["dorion"@])
        },
        Place::ConfigFile => if portable {
            (BaseDir::ExeDir, seq!["config.json"@])
        } else {
            (app_base(p), seq!["dorion"@, "config.json"@])
        },
        Place::PluginDir => if portable {
            (BaseDir::ExeDir, seq!["plugins"@])
        } else {
            (user_base(p), seq!["dorion"@, "plugins"@])
        },
        Place::ThemeDir => if portable {
            (BaseDir::ExeDir, seq!["themes"@])
        } else {
            (user_base(p), seq!["dorion"@, "themes"@])
        },
        Place::ThemeCacheDir => if portable {
            (BaseDir::ExeDir, seq!["themes"@, "cache"@])
        } else {
            (user_base(p), seq!["dorion"@, "themes"@, "cache"@])
        },
        Place::ExtensionsDir => if portable {
            (BaseDir::ExeDir, seq!["extensions"@])
        } else {
            (user_base(p), seq!["dorion"@, "extensions"@])
        },
        Place::MainExtensionDir => if portable {
            (BaseDir::ExeDir, seq!["extension"@])
        } else {
            (app_base(p), seq!["dorion"@, "extension"@])
        },
        Place::ProfilesDir => if portable {
            (BaseDir::ExeDir, seq!["profiles"@])
        } else {
            (BaseDir::DataDir, seq!["dorion"@, "profiles"@])
        },
        Place::UpdaterDir => if portable {
            (BaseDir::ExeDir, seq!["updater"@])
        } else {
            (BaseDir::Resource, seq!["updater"@])
        },
        Place::CustomDetectables => if portable {
            (BaseDir::ExeDir, seq!["detectables.json"@])
        } else {
            (app_base(p), seq!["dorion"@, "detectables.json"@])
        },
        Place::LogFile => if portable {
            (BaseDir::ExeDir, seq!["logs"@, "latest.log"@])
        } else {
            (app_base(p), seq!["dorion"@, "logs"@, "latest.log"@])
        },
        Place::ClearCacheMarker => (BaseDir::DataDir, seq!["dorion"@, "clear_cache"@]),
    }
}

fn strings(parts: &[&str]) -> (v: Vec<String>)
    ensures
        v@.len() == parts@.len(),
        forall|i: int| 0 <= i < parts@.len() ==> #[trigger] v@[i]@ == parts@[i]@,
{
    let mut v: Vec<String> = Vec::new();
    for i in 0..parts.len()
        invariant
            v@.len() == i,
            forall|j: int| 0 <= j < i ==> #[trigger] v@[j]@ == parts@[j]@,
    {
        v.push(String::from_str(parts[i]));
    }
    v
}

/// Where the place `place` is on platform `p`; `portable` tells an install
/// that keeps everything next to its executable.
pub fn location(place: Place, p: Platform, portable: bool) -> (l: Location)
    ensures
        (l.base, texts(l.components@)) == location_of(place, p, portable),
{
    let app = if p == Platform::Windows {
        BaseDir::DataDir
    } else {
        BaseDir::ConfigDir
    };
    let user = if p == Platform::Windows {
        BaseDir::HomeDir
    } else {
        BaseDir::ConfigDir
    };
    let (base, parts): (BaseDir, &[&str]) = match place {
        Place::ConfigDir => if portable {
            (BaseDir::ExeDir, &[])
        } else {
            (app, &["dorion"])
        },
        Place::ConfigFile => if portable {
            (BaseDir::ExeDir, &["config.json"])
        } else {
            (app, &["dorion", "config.json"])
        },
        Place::PluginDir => if portable {
            (BaseDir::ExeDir, &["plugins"])
        } else {
            (user, &["dorion", "plugins"])
        },
        Place::ThemeDir => if portable {
            (BaseDir::ExeDir, &["themes"])
        } else {
            (user, &["dorion", "themes"])
        },
        Place::ThemeCacheDir => if portable {
            (BaseDir::ExeDir, &["themes", "cache"])
        } else {
            (user, &["dorion", "themes", "cache"])
        },
        Place::ExtensionsDir => if portable {
            (BaseDir::ExeDir, &["extensions"])
        } else {
            (user, &["dorion", "extensions"])
        },
        Place::MainExtensionDir => if portable {
            (BaseDir::ExeDir, &["extension"])
        } else {
            (app, &["dorion", "extension"])
        },
        Place::ProfilesDir => if portable {
            (BaseDir::ExeDir, &["profiles"])
        } else {
            (BaseDir::DataDir, &["dorion", "profiles"])
        },
        Place::UpdaterDir => if portable {
            (BaseDir::ExeDir, &["updater"])
        } else {
            (BaseDir::Resource, &["updater"])
        },
        Place::CustomDetectables => if portable {
            (BaseDir::ExeDir, &["detectables.json"])
        } else {
            (app, &["dorion", "detectables.json"])
        },
        Place::LogFile => if portable {
            (BaseDir::ExeDir, &["logs", "latest.log"])
        } else {
            (app, &["dorion", "logs", "latest.log"])
        },
        Place::ClearCacheMarker => (BaseDir::DataDir, &["dorion", "clear_cache"]),
    };
    let components = strings(parts);
    assert(texts(components@) =~= location_of(place, p, portable).1);
    Location { base, components }
}

} // verus!
