//! Plugins: how a plugin file's name says whether it is disabled or loaded
//! early, how the plugin folder is listed and toggled, and how a plugin
//! declares the scripts it imports.
use vstd::prelude::*;
use crate::text::{
    chars_of, debug_quote, debug_quoted, ends_with, matches_at, occurs_at, str_ends_with, string_of,
    append_str, concat2,
    contains, lemma_replace_all_absent, replace_all, replace_all_str, replace_first, replace_first_from,
    replace_first_str,
    starts_with, str_contains,
    str_starts_with,
};

verus! {

broadcast use vstd::string::group_string_axioms;

/// A plugin as the frontend lists it.
#[derive(Clone, Debug, PartialEq, Eq)]
pub struct Plugin {
    pub name: String,
    pub disabled: bool,
    pub preload: bool,
}

/// One entry of a directory listing, as read from disk.
#[derive(Clone, Debug, PartialEq, Eq)]
pub enum DirEntryInfo {
    /// An entry whose metadata could be read. `name` is `None` when the
    /// file name is not valid UTF-8.
    File { name: Option<String>, is_dir: bool },
    /// An entry that could not be read; `message` says why.
    Unreadable { message: String },
}

/// A rename of a file in the plugin folder, and the value that the toggle
/// reports once it is done.
#[derive(Clone, Debug, PartialEq, Eq)]
pub struct PluginRename {
    pub from: String,
    pub to: String,
    pub result: bool,
}

/// A file name of a disabled plugin starts with an underscore.
pub open spec fn is_disabled_name(n: Seq<char>) -> bool {
    starts_with(n, "_"@)
}

/// A file name of a plugin loaded before the client contains "PRELOAD".
pub open spec fn is_preload_name(n: Seq<char>) -> bool {
    contains(n, "PRELOAD"@)
}

/// The plugin name shown for the file name `n`: the disabling underscore,
/// every "PRELOAD_" marker (for preload plugins) and every ".js" removed.
pub open spec fn plugin_display_name(n: Seq<char>) -> Seq<char> {
    let a = if is_disabled_name(n) { replace_first(n, "_"@, ""@) } else { n };
    let b = if is_preload_name(n) { replace_all(a, "PRELOAD_"@, ""@) } else { a };
    replace_all(b, ".js"@, ""@)
}

impl Plugin {
    /// The plugin that the file named `file_name` holds.
    pub fn from_file_name(file_name: &str) -> (p: Plugin)
        ensures
            p.name@ == plugin_display_name(file_name@),
            p.disabled == is_disabled_name(file_name@),
            p.preload == is_preload_name(file_name@),
    {
        proof {
            reveal_strlit("_");
            reveal_strlit("PRELOAD_");
            reveal_strlit(".js");
        }
        let disabled = str_starts_with(file_name, "_");
        let preload = str_contains(file_name, "PRELOAD");
        let mut name = String::from_str(file_name);
        if disabled {
            name = replace_first_str(name.as_str(), "_", "");
        }
        if preload {
            name = replace_all_str(name.as_str(), "PRELOAD_", "");
        }
        name = replace_all_str(name.as_str(), ".js", "");
        Plugin { name, disabled, preload }
    }
}

/// What a plugin shows: its name and its two flags.
pub struct PluginView {
    pub name: Seq<char>,
    pub disabled: bool,
    pub preload: bool,
}

impl View for Plugin {
    type V = PluginView;

    open spec fn view(&self) -> PluginView {
        PluginView { name: self.name@, disabled: self.disabled, preload: self.preload }
    }
}

/// The plugin held by the file named `n`.
pub open spec fn plugin_of_file(n: Seq<char>) -> PluginView {
    PluginView {
        name: plugin_display_name(n),
        disabled: is_disabled_name(n),
        preload: is_preload_name(n),
    }
}

/// The text of a file name, empty when it is not valid UTF-8.
pub open spec fn file_name_text(name: Option<String>) -> Seq<char> {
    match name {
        Some(n) => n@,
        None => ""@,
    }
}

/// The plugin list made from the first `i` entries of a folder listing: one
/// plugin per entry that is not a directory, in listing order; the first
/// unreadable entry makes the listing fail with its message.
pub open spec fn plugin_listing(entries: Seq<DirEntryInfo>, i: int) -> Result<
    Seq<PluginView>,
    Seq<char>,
>
    decreases i,
{
    if i <= 0 {
        Ok(Seq::empty())
    } else {
        match plugin_listing(entries, i - 1) {
            Err(m) => Err(m),
            Ok(l) => match entries[i - 1] {
                DirEntryInfo::Unreadable { message } => Err(message@),
                DirEntryInfo::File { name, is_dir } => if is_dir {
                    Ok(l)
                } else {
                    Ok(l.push(plugin_of_file(file_name_text(name))))
                },
            },
        }
    }
}

/// The plugins of a plugin folder whose entries are `entries`.
pub fn get_plugin_list(entries: &Vec<DirEntryInfo>) -> (r: Result<Vec<Plugin>, String>)
    ensures
        match (r, plugin_listing(entries@, entries@.len() as int)) {
            (Ok(list), Ok(l)) => list@.map_values(|p: Plugin| p@) == l,
            (Err(m), Err(msg)) => m@ == msg,
            _ => false,
        },
{
    let mut list: Vec<Plugin> = Vec::new();
    for i in 0..entries.len()
        invariant
            plugin_listing(entries@, i as int) matches Ok(l) && list@.map_values(|p: Plugin| p@)
                == l,
    {
        proof {
            reveal_with_fuel(plugin_listing, 2);
        }
        match &entries[i] {
            DirEntryInfo::Unreadable { message } => {
                proof {
                    lemma_listing_stays_failed(entries@, i + 1, entries@.len() as int);
                }
                return Err(message.clone());
            },
            DirEntryInfo::File { name, is_dir } => {
                if !*is_dir {
                    let n: &str = match name {
                        Some(n) => n.as_str(),
                        None => "",
                    };
                    let ghost before = list@;
                    list.push(Plugin::from_file_name(n));
                    assert(list@.map_values(|p: Plugin| p@) =~= before.map_values(|p: Plugin| p@).push(
                        list@.last()@,
                    ));
                }
            },
        }
    }
    Ok(list)
}

/// Once a listing has failed, reading more entries keeps the failure.
proof fn lemma_listing_stays_failed(entries: Seq<DirEntryInfo>, i: int, j: int)
    requires
        i <= j,
        plugin_listing(entries, i) is Err,
    ensures
        plugin_listing(entries, j) == plugin_listing(entries, i),
    decreases j - i,
{
    if i < j {
        lemma_listing_stays_failed(entries, i, j - 1);
    }
}

/// The outcome of toggling: the rename to make and what the toggle reports,
/// as plain texts.
pub open spec fn rename_view(r: PluginRename) -> (Seq<char>, Seq<char>, bool) {
    (r.from@, r.to@, r.result)
}

/// The file name that toggling the plugin in file `f` gives: without its
/// first underscore when it has one (the plugin is enabled), else with an
/// underscore in front (the plugin is disabled).
pub open spec fn toggled_name(f: Seq<char>) -> Seq<char> {
    if starts_with(f, "_"@) {
        replace_first(f, "_"@, ""@)
    } else {
        "_"@ + f
    }
}

/// Disabling a plugin and enabling it again restores its file name, and
/// the file still matches the plugin's name in between: for a file `f` of
/// an enabled plugin (no leading underscore) that matches the name `name`,
/// toggling gives a disabled file that matches `name`, and toggling that
/// gives `f` back.
pub proof fn lemma_toggle_plugin_twice(name: Seq<char>, f: Seq<char>)
    requires
        !starts_with(f, "_"@),
        contains(f, name),
    ensures
        starts_with(toggled_name(f), "_"@),
        contains(toggled_name(f), name),
        toggled_name(toggled_name(f)) == f,
{
    reveal_strlit("_");
    reveal_strlit("");
    let g = "_"@ + f;
    assert(g.subrange(0, 1) =~= "_"@);
    assert(occurs_at(g, "_"@, 0));
    let i = choose|i: int| occurs_at(f, name, i);
    assert(g.subrange(i + 1, i + 1 + name.len()) =~= f.subrange(i, i + name.len()));
    assert(occurs_at(g, name, i + 1));
    assert(replace_first_from(g, "_"@, ""@, 0) == ""@ + g.subrange(1, g.len() as int));
    assert(""@ + g.subrange(1, g.len() as int) =~= f);
}

/// Enabling a disabled plugin and disabling it again restores its file
/// name, and the file still matches the plugin's name in between: for a
/// file `f` of a disabled plugin (one leading underscore, not two) that
/// matches a name `name` without a leading underscore, toggling gives an
/// enabled file that matches `name`, and toggling that gives `f` back.
pub proof fn lemma_enable_plugin_twice(name: Seq<char>, f: Seq<char>)
    requires
        starts_with(f, "_"@),
        !starts_with(f.skip(1), "_"@),
        !starts_with(name, "_"@),
        contains(f, name),
    ensures
        !starts_with(toggled_name(f), "_"@),
        contains(toggled_name(f), name),
        toggled_name(toggled_name(f)) == f,
{
    reveal_strlit("_");
    reveal_strlit("");
    assert(occurs_at(f, "_"@, 0));
    assert(replace_first_from(f, "_"@, ""@, 0) == ""@ + f.subrange(1, f.len() as int));
    let g = f.skip(1);
    assert(""@ + f.subrange(1, f.len() as int) =~= g);
    assert(toggled_name(f) == g);
    let i = choose|i: int| occurs_at(f, name, i);
    if name.len() == 0 {
        assert(g.subrange(0, 0) =~= name);
        assert(occurs_at(g, name, 0));
    } else if i == 0 {
        assert(f.subrange(0, 1) =~= name.subrange(0, 1)) by {
            assert(f.subrange(0, name.len() as int) == name);
        }
        assert(name.subrange(0, 1) =~= "_"@);
        assert(starts_with(name, "_"@));
    } else {
        assert(g.subrange(i - 1, i - 1 + name.len()) =~= f.subrange(i, i + name.len()));
        assert(occurs_at(g, name, i - 1));
    }
    assert("_"@ + g =~= f) by {
        assert(f.subrange(0, 1) == "_"@);
        assert(f.subrange(0, 1)[0] == f[0]);
        assert("_"@[0] == '_');
    }
}

/// What toggling the plugin `name` does on the folder entries from index `i`
/// on: the first readable, non-directory file whose name contains the plugin
/// name is renamed to flip its disabling underscore, and the toggle reports
/// whether the file was disabled before (that is, whether it is now
/// enabled). A name that starts with an underscore is matched by each file's
/// own name without its first underscore. An unreadable entry, or a file name
/// that is not valid UTF-8, met before a match makes the toggle fail.
pub open spec fn toggle_plugin_from(name: Seq<char>, entries: Seq<DirEntryInfo>, i: int) -> Result<
    Option<(Seq<char>, Seq<char>, bool)>,
    Seq<char>,
>
    decreases entries.len() - i,
{
    if i < 0 || i >= entries.len() {
        Ok(None)
    } else {
        match entries[i] {
            DirEntryInfo::Unreadable { message } => Err(message@),
            DirEntryInfo::File { name: file, is_dir } => match file {
                None => Err("Error getting file name"@),
                Some(f) => {
                    let f = f@;
                    let pn = if starts_with(name, "_"@) {
                        replace_first(f, "_"@, ""@)
                    } else {
                        name
                    };
                    if !is_dir && contains(f, pn) {
                        Ok(Some((f, toggled_name(f), starts_with(f, "_"@))))
                    } else {
                        toggle_plugin_from(name, entries, i + 1)
                    }
                },
            },
        }
    }
}

/// Enables a disabled plugin or disables an enabled one: the rename that the
/// plugin folder with entries `entries` needs, if some file matches.
pub fn toggle_plugin(name: &str, entries: &Vec<DirEntryInfo>) -> (r: Result<
    Option<PluginRename>,
    String,
>)
    ensures
        match (r, toggle_plugin_from(name@, entries@, 0)) {
            (Ok(None), Ok(None)) => true,
            (Ok(Some(x)), Ok(Some(y))) => rename_view(x) == y,
            (Err(m), Err(msg)) => m@ == msg,
            _ => false,
        },
{
    proof {
        reveal_strlit("_");
        reveal_strlit("");
    }
    let name_disabled = str_starts_with(name, "_");
    for i in 0..entries.len()
        invariant
            name_disabled == starts_with(name@, "_"@),
            toggle_plugin_from(name@, entries@, 0) == toggle_plugin_from(name@, entries@, i as int),
    {
        proof {
            reveal_strlit("_");
            reveal_strlit("");
            reveal_strlit("PRELOAD_");
            reveal_strlit("PRELOAD");
        }
        match &entries[i] {
            DirEntryInfo::Unreadable { message } => {
                return Err(message.clone());
            },
            DirEntryInfo::File { name: file, is_dir } => {
                match file {
                    None => {
                        return Err(String::from_str("Error getting file name"));
                    },
                    Some(f) => {
                        let pn = if name_disabled {
                            replace_first_str(f.as_str(), "_", "")
                        } else {
                            String::from_str(name)
                        };
                        if !*is_dir && str_contains(f.as_str(), pn.as_str()) {
                            let was_disabled = str_starts_with(f.as_str(), "_");
                            let to = if was_disabled {
                                replace_first_str(f.as_str(), "_", "")
                            } else {
                                concat2("_", f.as_str())
                            };
                            return Ok(Some(PluginRename { from: f.clone(), to, result: was_disabled }));
                        }
                    },
                }
            },
        }
    }
    Ok(None)
}

/// What toggling preloading of the plugin `name` does on the folder entries
/// from index `i` on: the first readable, non-directory file whose name
/// contains the plugin name is renamed so that its "PRELOAD_" marker is
/// removed (if the file name contains "PRELOAD") or added, keeping a
/// disabling underscore and ending in ".js"; the toggle reports whether the
/// plugin now preloads. A name that contains "PRELOAD" is matched by each
/// file's own name without its markers and its first underscore.
pub open spec fn toggle_preload_from(name: Seq<char>, entries: Seq<DirEntryInfo>, i: int) -> Result<
    Option<(Seq<char>, Seq<char>, bool)>,
    Seq<char>,
>
    decreases entries.len() - i,
{
    if i < 0 || i >= entries.len() {
        Ok(None)
    } else {
        match entries[i] {
            DirEntryInfo::Unreadable { message } => Err(message@),
            DirEntryInfo::File { name: file, is_dir } => match file {
                None => Err("Error getting file name"@),
                Some(f) => {
                    let f = f@;
                    let disabled = starts_with(f, "_"@);
                    let preloaded = contains(f, "PRELOAD"@);
                    let pn = if contains(name, "PRELOAD"@) {
                        replace_first(replace_all(f, "PRELOAD_"@, ""@), "_"@, ""@)
                    } else {
                        name
                    };
                    if !is_dir && contains(f, pn) {
                        let a = if preloaded {
                            replace_all(pn, "PRELOAD_"@, ""@)
                        } else {
                            "PRELOAD_"@ + pn
                        };
                        let b = if disabled {
                            "_"@ + a
                        } else {
                            a
                        };
                        Ok(Some((f, b + ".js"@, !preloaded)))
                    } else {
                        toggle_preload_from(name, entries, i + 1)
                    }
                },
            },
        }
    }
}

proof fn lemma_preload_in_prefix(n: Seq<char>, i: int)
    requires
        occurs_at(n + ".js"@, "PRELOAD"@, i),
    ensures
        occurs_at(n, "PRELOAD"@, i),
{
    reveal_strlit(".js");
    reveal_strlit("PRELOAD");
    let f = n + ".js"@;
    let p = "PRELOAD"@;
    if i + p.len() > n.len() {
        if i <= n.len() {
            let k = n.len() - i;
            assert(f.subrange(i, i + p.len())[k] == f[n.len() as int]);
            assert(f[n.len() as int] == '.');
            assert(p[k] != '.');
        } else {
            assert(f.subrange(i, i + p.len())[0] == f[i]);
            assert(f[i] == 'j' || f[i] == 's');
        }
    }
    assert(n.subrange(i, i + p.len()) =~= f.subrange(i, i + p.len()));
}

/// Making a plugin preload and then not preload restores its file name:
/// for a plugin `name` (without "PRELOAD" in it and not disabled) whose
/// file is `name` + ".js", toggling gives "PRELOAD_" + `name` + ".js" and
/// reports that it now preloads; toggling that file gives the first name
/// back and reports that it no longer preloads.
pub proof fn lemma_toggle_preload_twice(
    name: Seq<char>,
    first: Seq<DirEntryInfo>,
    second: Seq<DirEntryInfo>,
)
    requires
        !contains(name, "PRELOAD"@),
        !starts_with(name, "_"@),
        first.len() == 1,
        first[0] matches DirEntryInfo::File { name: Some(x), is_dir: false } && x@ == name + ".js"@,
        second.len() == 1,
        second[0] matches DirEntryInfo::File { name: Some(y), is_dir: false } && y@ == "PRELOAD_"@
            + name + ".js"@,
    ensures
        toggle_preload_from(name, first, 0) == Ok::<Option<(Seq<char>, Seq<char>, bool)>, Seq<char>>(
            Some((name + ".js"@, "PRELOAD_"@ + name + ".js"@, true)),
        ),
        toggle_preload_from(name, second, 0) == Ok::<Option<(Seq<char>, Seq<char>, bool)>, Seq<char>>(
            Some(("PRELOAD_"@ + name + ".js"@, name + ".js"@, false)),
        ),
{
    reveal_strlit("PRELOAD");
    reveal_strlit("PRELOAD_");
    reveal_strlit("_");
    reveal_strlit(".js");
    let f = name + ".js"@;
    let g = "PRELOAD_"@ + name + ".js"@;
    // the first file
    assert(!starts_with(f, "_"@)) by {
        if name.len() > 0 {
            assert(f.subrange(0, 1) =~= name.subrange(0, 1));
        } else {
            assert(f.subrange(0, 1)[0] == '.');
        }
    }
    assert(!contains(f, "PRELOAD"@)) by {
        if contains(f, "PRELOAD"@) {
            let i = choose|i: int| occurs_at(f, "PRELOAD"@, i);
            lemma_preload_in_prefix(name, i);
        }
    }
    assert(occurs_at(f, name, 0)) by {
        assert(f.subrange(0, name.len() as int) =~= name);
    }
    assert(("PRELOAD_"@ + name) + ".js"@ =~= g);
    // the second file
    assert(!starts_with(g, "_"@)) by {
        assert(g.subrange(0, 1)[0] == 'P');
    }
    assert(occurs_at(g, "PRELOAD"@, 0)) by {
        assert(g.subrange(0, 7) =~= "PRELOAD"@);
    }
    assert(occurs_at(g, name, 8)) by {
        assert(g.subrange(8, 8 + name.len() as int) =~= name);
    }
    assert(forall|j: int| 0 <= j ==> !occurs_at(name, "PRELOAD_"@, j)) by {
        assert forall|j: int| 0 <= j implies !occurs_at(name, "PRELOAD_"@, j) by {
            if occurs_at(name, "PRELOAD_"@, j) {
                assert(name.subrange(j, j + 7) =~= "PRELOAD_"@.subrange(0, 7));
                assert("PRELOAD_"@.subrange(0, 7) =~= "PRELOAD"@);
                assert(occurs_at(name, "PRELOAD"@, j));
            }
        }
    }
    lemma_replace_all_absent(name, "PRELOAD_"@, ""@, 0);
    assert(name.subrange(0, name.len() as int) =~= name);
}

/// Toggling preloading keeps a plugin's disabled state and its script
/// extension, and reports the new preloading state: whenever a preload
/// toggle renames a file `f` to `to`, `to` ends with ".js", `to` starts with
/// the disabling underscore when `f` does, and the toggle reports that the
/// plugin now preloads exactly when `f` had no "PRELOAD" marker.
pub proof fn lemma_preload_toggle_keeps_disabled(name: Seq<char>, entries: Seq<DirEntryInfo>, i: int)
    ensures
        toggle_preload_from(name, entries, i) matches Ok(Some((f, to, now_preloads))) ==> {
            &&& ends_with(to, ".js"@)
            &&& (starts_with(f, "_"@) ==> starts_with(to, "_"@))
            &&& now_preloads == !contains(f, "PRELOAD"@)
        },
    decreases entries.len() - i,
{
    reveal_strlit("_");
    reveal_strlit(".js");
    if 0 <= i < entries.len() {
        lemma_preload_toggle_keeps_disabled(name, entries, i + 1);
        if let DirEntryInfo::File { name: Some(file), is_dir } = entries[i] {
            let f = file@;
            let pn = if contains(name, "PRELOAD"@) {
                replace_first(replace_all(f, "PRELOAD_"@, ""@), "_"@, ""@)
            } else {
                name
            };
            if !is_dir && contains(f, pn) {
                let a = if contains(f, "PRELOAD"@) {
                    replace_all(pn, "PRELOAD_"@, ""@)
                } else {
                    "PRELOAD_"@ + pn
                };
                let b = if starts_with(f, "_"@) {
                    "_"@ + a
                } else {
                    a
                };
                let to = b + ".js"@;
                assert(to.subrange(to.len() - 3, to.len() as int) =~= ".js"@);
                if starts_with(f, "_"@) {
                    assert(to.subrange(0, 1) =~= "_"@);
                }
            }
        }
    }
}

/// Makes a plugin load before the client, or stop doing so: the rename that
/// the plugin folder with entries `entries` needs, if some file matches.
pub fn toggle_preload(name: &str, entries: &Vec<DirEntryInfo>) -> (r: Result<
    Option<PluginRename>,
    String,
>)
    ensures
        match (r, toggle_preload_from(name@, entries@, 0)) {
            (Ok(None), Ok(None)) => true,
            (Ok(Some(x)), Ok(Some(y))) => rename_view(x) == y,
            (Err(m), Err(msg)) => m@ == msg,
            _ => false,
        },
{
    proof {
        reveal_strlit("_");
        reveal_strlit("");
        reveal_strlit("PRELOAD_");
        reveal_strlit("PRELOAD");
    }
    let name_preload = str_contains(name, "PRELOAD");
    for i in 0..entries.len()
        invariant
            name_preload == contains(name@, "PRELOAD"@),
            toggle_preload_from(name@, entries@, 0) == toggle_preload_from(name@, entries@, i as int),
    {
        proof {
            reveal_strlit("_");
            reveal_strlit("");
            reveal_strlit("PRELOAD_");
            reveal_strlit("PRELOAD");
        }
        match &entries[i] {
            DirEntryInfo::Unreadable { message } => {
                return Err(message.clone());
            },
            DirEntryInfo::File { name: file, is_dir } => {
                match file {
                    None => {
                        return Err(String::from_str("Error getting file name"));
                    },
                    Some(f) => {
                        let disabled = str_starts_with(f.as_str(), "_");
                        let preloaded = str_contains(f.as_str(), "PRELOAD");
                        let pn = if name_preload {
                            let unmarked = replace_all_str(f.as_str(), "PRELOAD_", "");
                            replace_first_str(unmarked.as_str(), "_", "")
                        } else {
                            String::from_str(name)
                        };
                        if !*is_dir && str_contains(f.as_str(), pn.as_str()) {
                            let a = if preloaded {
                                replace_all_str(pn.as_str(), "PRELOAD_", "")
                            } else {
                                concat2("PRELOAD_", pn.as_str())
                            };
                            let mut b = if disabled {
                                concat2("_", a.as_str())
                            } else {
                                a
                            };
                            append_str(&mut b, ".js");
                            return Ok(Some(PluginRename { from: f.clone(), to: b, result: !preloaded }));
                        }
                    },
                }
            },
        }
    }
    Ok(None)
}

/// A file of the plugin folder is loaded when it is a script (".js") that
/// is not disabled, and, when only preload plugins are wanted, is marked
/// "PRELOAD_" at its start.
pub open spec fn load_selected(n: Seq<char>, preload_only: bool) -> bool {
    &&& ends_with(n, ".js"@)
    &&& !starts_with(n, "_"@)
    &&& (!preload_only || starts_with(n, "PRELOAD_"@))
}

/// The plugin sources loaded from the first `i` folder entries, each paired
/// with the contents read from it (`None` when reading failed): for each
/// selected, readable file the `Debug` form of its name and its source, in
/// listing order; the first unreadable entry makes loading fail.
pub open spec fn plugin_sources(
    entries: Seq<(DirEntryInfo, Option<String>)>,
    preload_only: bool,
    i: int,
) -> Result<Seq<(Seq<char>, Seq<char>)>, Seq<char>>
    decreases i,
{
    if i <= 0 {
        Ok(Seq::empty())
    } else {
        match plugin_sources(entries, preload_only, i - 1) {
            Err(m) => Err(m),
            Ok(l) => match entries[i - 1].0 {
                DirEntryInfo::Unreadable { message } => Err(message@),
                DirEntryInfo::File { name, is_dir } => {
                    let n = file_name_text(name);
                    if !is_dir && load_selected(n, preload_only) && entries[i - 1].1 is Some {
                        Ok(l.push((debug_quoted(n), entries[i - 1].1->0@)))
                    } else {
                        Ok(l)
                    }
                },
            },
        }
    }
}

/// The plain texts of a list of (name, source) pairs.
pub open spec fn pairs_view(v: Seq<(String, String)>) -> Seq<(Seq<char>, Seq<char>)> {
    v.map_values(|p: (String, String)| (p.0@, p.1@))
}

/// The plugins to run, keyed by the `Debug` form of their file name, from a
/// plugin folder whose entries are listed with their contents.
pub fn load_plugins(entries: &Vec<(DirEntryInfo, Option<String>)>, preload_only: Option<bool>) -> (r:
    Result<Vec<(String, String)>, String>)
    ensures
        match (r, plugin_sources(entries@, preload_only == Some(true), entries@.len() as int)) {
            (Ok(list), Ok(l)) => pairs_view(list@) == l,
            (Err(m), Err(msg)) => m@ == msg,
            _ => false,
        },
{
    let pl_only = match preload_only {
        Some(b) => b,
        None => false,
    };
    let mut list: Vec<(String, String)> = Vec::new();
    for i in 0..entries.len()
        invariant
            pl_only == (preload_only == Some(true)),
            plugin_sources(entries@, pl_only, i as int) matches Ok(l) && pairs_view(list@) == l,
    {
        proof {
            reveal_with_fuel(plugin_sources, 2);
            reveal_strlit("_");
            reveal_strlit(".js");
            reveal_strlit("PRELOAD_");
        }
        match &entries[i].0 {
            DirEntryInfo::Unreadable { message } => {
                proof {
                    lemma_sources_stay_failed(entries@, pl_only, i + 1, entries@.len() as int);
                }
                return Err(message.clone());
            },
            DirEntryInfo::File { name, is_dir } => {
                let n: &str = match name {
                    Some(n) => n.as_str(),
                    None => "",
                };
                let selected = !*is_dir && str_ends_with(n, ".js") && !str_starts_with(n, "_") && (
                !pl_only || str_starts_with(n, "PRELOAD_"));
                if selected {
                    match &entries[i].1 {
                        Some(contents) => {
                            let ghost before = list@;
                            list.push((debug_quote(n), contents.clone()));
                            assert(pairs_view(list@) =~= pairs_view(before).push(
                                (list@.last().0@, list@.last().1@),
                            ));
                        },
                        None => {},
                    }
                }
            },
        }
    }
    Ok(list)
}

/// Once loading has failed, reading more entries keeps the failure.
proof fn lemma_sources_stay_failed(
    entries: Seq<(DirEntryInfo, Option<String>)>,
    preload_only: bool,
    i: int,
    j: int,
)
    requires
        i <= j,
        plugin_sources(entries, preload_only, i) is Err,
    ensures
        plugin_sources(entries, preload_only, j) == plugin_sources(entries, preload_only, i),
    decreases j - i,
{
    if i < j {
        lemma_sources_stay_failed(entries, preload_only, i, j - 1);
    }
}

/// The index of the first line break at or after `j`, or the end of `s`.
pub open spec fn line_end(s: Seq<char>, j: int) -> int
    decreases s.len() - j,
{
    if j < 0 || j >= s.len() {
        s.len() as int
    } else if s[j] == '\n' {
        j
    } else {
        line_end(s, j + 1)
    }
}

/// The length of the import marker ("// URL_IMPORT " or "//URL_IMPORT ")
/// that starts at `i` in `s`, or 0 when there is none.
pub open spec fn import_marker_len(s: Seq<char>, i: int) -> nat {
    if occurs_at(s, "// URL_IMPORT "@, i) {
        14
    } else if occurs_at(s, "//URL_IMPORT "@, i) {
        13
    } else {
        0
    }
}

/// The first script import declared in `s` at or after index `i`: the rest
/// of the line after the first import marker, if there is a marker.
pub open spec fn first_import_from(s: Seq<char>, i: int) -> Option<Seq<char>>
    decreases s.len() - i,
{
    if i < 0 || i >= s.len() {
        None
    } else if import_marker_len(s, i) > 0 {
        let j = i + import_marker_len(s, i);
        Some(s.subrange(j, line_end(s, j)))
    } else {
        first_import_from(s, i + 1)
    }
}

/// The script URLs that a plugin imports: a plugin declares an import with
/// a line comment `// URL_IMPORT <url>` (or `//URL_IMPORT <url>`), and the
/// first such declaration is used.
pub fn get_js_imports(js: &str) -> (imports: Vec<String>)
    ensures
        match first_import_from(js@, 0) {
            Some(u) => imports@.len() == 1 && imports@[0]@ == u,
            None => imports@.len() == 0,
        },
{
    let s = chars_of(js);
    let m1 = chars_of("// URL_IMPORT ");
    let m2 = chars_of("//URL_IMPORT ");
    proof {
        reveal_strlit("// URL_IMPORT ");
        reveal_strlit("//URL_IMPORT ");
    }
    let mut imports: Vec<String> = Vec::new();
    let mut i: usize = 0;
    while i < s.len()
        invariant
            s@ == js@,
            m1@ == "// URL_IMPORT "@,
            m2@ == "//URL_IMPORT "@,
            m1@.len() == 14,
            m2@.len() == 13,
            i <= s.len(),
            imports@.len() == 0,
            first_import_from(s@, 0) == first_import_from(s@, i as int),
        decreases s.len() - i,
    {
        let len: usize = if matches_at(&s, &m1, i) {
            14
        } else if matches_at(&s, &m2, i) {
            13
        } else {
            0
        };
        if len > 0 {
            let j = i + len;
            let mut k = j;
            while k < s.len() && s[k] != '\n'
                invariant
                    j <= k <= s.len(),
                    line_end(s@, j as int) == line_end(s@, k as int),
                decreases s.len() - k,
            {
                k = k + 1;
            }
            let mut u: Vec<char> = Vec::new();
            let mut t = j;
            while t < k
                invariant
                    j <= t <= k <= s.len(),
                    u@ == s@.subrange(j as int, t as int),
                decreases k - t,
            {
                u.push(s[t]);
                assert(s@.subrange(j as int, t + 1) =~= s@.subrange(j as int, t as int).push(s@[t as int]));
                t = t + 1;
            }
            imports.push(string_of(&u));
            return imports;
        }
        i = i + 1;
    }
    imports
}

/// The script URLs that the plugin source `plugin_js` imports.
pub fn get_plugin_import_urls(plugin_js: String) -> (urls: Vec<String>)
    ensures
        match first_import_from(plugin_js@, 0) {
            Some(u) => urls@.len() == 1 && urls@[0]@ == u,
            None => urls@.len() == 0,
        },
{
    get_js_imports(plugin_js.as_str())
}

} // verus!
