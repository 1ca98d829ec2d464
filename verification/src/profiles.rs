//! Profiles: separate webview data folders, one of which the configuration
//! selects.
use vstd::prelude::*;
use crate::config::Config;
use crate::injection::plugin::DirEntryInfo;
use crate::text::{str_eq, texts};
use crate::util::paths::{profile_name, profile_of};

verus! {

broadcast use vstd::string::group_string_axioms;

/// The profiles found among the first `i` entries of the profiles folder:
/// the folders whose name is valid UTF-8, in listing order.
pub open spec fn profiles_upto(entries: Seq<DirEntryInfo>, i: int) -> Seq<Seq<char>>
    decreases i,
{
    if i <= 0 {
        Seq::empty()
    } else {
        let l = profiles_upto(entries, i - 1);
        match entries[i - 1] {
            DirEntryInfo::File { name: Some(n), is_dir: true } => l.push(n@),
            _ => l,
        }
    }
}

/// The profiles in a profiles folder with entries `entries`.
pub fn get_profile_list(entries: &Vec<DirEntryInfo>) -> (profiles: Vec<String>)
    ensures
        texts(profiles@) == profiles_upto(entries@, entries@.len() as int),
{
    let mut profiles: Vec<String> = Vec::new();
    for i in 0..entries.len()
        invariant
            texts(profiles@) == profiles_upto(entries@, i as int),
    {
        let ghost before = profiles@;
        match &entries[i] {
            DirEntryInfo::File { name: Some(n), is_dir } => {
                if *is_dir {
                    profiles.push(n.clone());
                    assert(texts(profiles@) =~= texts(before).push(n@));
                }
            },
            _ => {},
        }
    }
    profiles
}

/// Whether the profile `name` may be deleted: every profile but "default".
pub fn may_delete_profile(name: &str) -> (b: bool)
    ensures
        b == (name@ != "default"@),
{
    !str_eq(name, "default")
}

/// The configuration after the selected profile was deleted: the same,
/// with the "default" profile selected.
pub fn select_default_profile(config: Config) -> (r: Config)
    ensures
        r == (Config { profile: r.profile, ..config }),
        r.profile matches Some(p) && p@ == "default"@,
{
    Config { profile: Some(String::from_str("default")), ..config }
}

/// The profile whose folder the client uses: the selected one when its
/// folder exists (`selected_exists`), else "default".
pub fn get_current_profile_folder(config: &Config, selected_exists: bool) -> (p: String)
    ensures
        p@ == (if selected_exists {
            profile_of(*config)
        } else {
            "default"@
        }),
{
    if selected_exists {
        profile_name(config)
    } else {
        String::from_str("default")
    }
}

/// Deleting the profile `name`: nothing happens for "default"; otherwise
/// its folder is removed and the configuration selects "default".
pub fn delete_profile(name: &str, config: Config) -> (r: Option<Config>)
    ensures
        r is None <==> name@ == "default"@,
        r matches Some(c) ==> c == (Config { profile: c.profile, ..config }) && (c.profile matches Some(
            p,
        ) && p@ == "default"@),
{
    if !may_delete_profile(name) {
        return None;
    }
    Some(select_default_profile(config))
}

} // verus!
