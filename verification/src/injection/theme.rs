//! Themes: which theme files are enabled, how their styles are gathered, how
//! the theme folder is listed, and the file name that a downloaded theme is
//! stored under.
use vstd::prelude::*;
use crate::config::Config;
use crate::injection::plugin::{DirEntryInfo, file_name_text};
use crate::text::{
    after_last_index, first_index_exec, first_index_of, last_index_of, subrange_string,
    append_str, chars_of, concat2, debug_quote, debug_quoted, ends_with, str_ends_with, str_eq,
    string_of,
};

verus! {

broadcast use vstd::string::group_string_axioms;

/// The names of the themes that `config` enables (none when unset).
pub open spec fn enabled_themes(config: Config) -> Seq<Seq<char>> {
    match config.themes {
        Some(v) => v@.map_values(|t: String| t@),
        None => Seq::empty(),
    }
}

/// Whether the theme file `name` is enabled in `config`.
pub fn theme_is_enabled(name: &str, config: &Config) -> (b: bool)
    ensures
        b == enabled_themes(*config).contains(name@),
{
    match &config.themes {
        None => false,
        Some(themes) => {
            for i in 0..themes.len()
                invariant
                    config.themes == Some(*themes),
                    forall|j: int| 0 <= j < i ==> themes@[j]@ != name@,
            {
                if str_eq(themes[i].as_str(), name) {
                    assert(enabled_themes(*config)[i as int] == name@);
                    return true;
                }
            }
            assert forall|j: int| 0 <= j < enabled_themes(*config).len() implies enabled_themes(
                *config,
            )[j] != name@ by {
                assert(themes@[j]@ != name@);
            }
            false
        },
    }
}

/// The names of the enabled themes.
pub fn get_enabled_themes(config: &Config) -> (themes: Vec<String>)
    ensures
        themes@.map_values(|t: String| t@) == enabled_themes(*config),
{
    match &config.themes {
        Some(v) => v.clone(),
        None => Vec::new(),
    }
}

/// The name under which a theme folder entry is considered: the entry's
/// name, except that the cache folder and macOS's ".ds_store" (and names
/// that are not valid UTF-8) count as empty.
pub open spec fn theme_entry_name(name: Option<String>) -> Seq<char> {
    let n = file_name_text(name);
    if n == "cache"@ || n == ".ds_store"@ {
        ""@
    } else {
        n
    }
}

/// The styles of the enabled themes among the first `i` entries of the
/// theme folder, each entry paired with its contents (`None` when it could
/// not be read, which counts as empty): the contents of every enabled ".css"
/// entry, in listing order; the first unreadable entry makes it fail.
pub open spec fn theme_styles(
    entries: Seq<(DirEntryInfo, Option<String>)>,
    config: Config,
    i: int,
) -> Result<Seq<char>, Seq<char>>
    decreases i,
{
    if i <= 0 {
        Ok(Seq::empty())
    } else {
        match theme_styles(entries, config, i - 1) {
            Err(m) => Err(m),
            Ok(css) => match entries[i - 1].0 {
                DirEntryInfo::Unreadable { message } => Err(message@),
                DirEntryInfo::File { name, .. } => {
                    let n = theme_entry_name(name);
                    if ends_with(n, ".css"@) && enabled_themes(config).contains(n) {
                        Ok(css + match entries[i - 1].1 {
                            Some(c) => c@,
                            None => ""@,
                        })
                    } else {
                        Ok(css)
                    }
                },
            },
        }
    }
}

proof fn lemma_theme_styles_prefix(
    entries: Seq<(DirEntryInfo, Option<String>)>,
    config: Config,
    i: int,
    j: int,
)
    requires
        0 <= i <= j,
    ensures
        theme_styles(entries, config, j) matches Ok(b) ==> (theme_styles(entries, config, i) matches Ok(
            a,
        ) && a.len() <= b.len() && b.subrange(0, a.len() as int) == a),
    decreases j,
{
    if i < j {
        lemma_theme_styles_prefix(entries, config, i, j - 1);
        if let Ok(b) = theme_styles(entries, config, j) {
            if let Ok(m) = theme_styles(entries, config, j - 1) {
                if let Ok(a) = theme_styles(entries, config, i) {
                    assert(b.subrange(0, m.len() as int) =~= m);
                    assert(b.subrange(0, a.len() as int) =~= m.subrange(0, a.len() as int));
                }
            }
        }
    } else {
        if let Ok(b) = theme_styles(entries, config, j) {
            assert(b.subrange(0, b.len() as int) =~= b);
        }
    }
}

/// Whether a theme folder entry is a file whose name ends in ".css" and is
/// among the enabled themes.
pub open spec fn is_enabled_theme_entry(entry: DirEntryInfo, config: Config) -> bool {
    entry matches DirEntryInfo::File { name, .. } && ends_with(theme_entry_name(name), ".css"@)
        && enabled_themes(config).contains(theme_entry_name(name))
}

/// Gathering theme styles only ever appends: whenever the styles of the
/// whole folder (its first `n` entries) are gathered, the styles gathered
/// over the entries before `i` are a prefix of them, and when entry `i` is
/// an enabled ".css" theme with contents `c`, `c` follows right after that
/// prefix. So every enabled theme's contents occur in the result, in
/// listing order, and none is dropped.
pub proof fn lemma_theme_styles_accumulate(
    entries: Seq<(DirEntryInfo, Option<String>)>,
    config: Config,
    i: int,
    n: int,
)
    requires
        0 <= i < n <= entries.len(),
    ensures
        theme_styles(entries, config, n) matches Ok(all) ==> {
            &&& theme_styles(entries, config, i) matches Ok(before)
            &&& before.len() <= all.len()
            &&& all.subrange(0, before.len() as int) == before
            &&& is_enabled_theme_entry(entries[i].0, config) ==> (entries[i].1 matches Some(c)
                ==> before.len() + c@.len() <= all.len() && all.subrange(
                before.len() as int,
                (before.len() + c@.len()) as int,
            ) == c@)
        },
{
    lemma_theme_styles_prefix(entries, config, i, n);
    lemma_theme_styles_prefix(entries, config, i + 1, n);
    if let Ok(all) = theme_styles(entries, config, n) {
        if let Ok(before) = theme_styles(entries, config, i) {
            if let Ok(next) = theme_styles(entries, config, i + 1) {
                if let Some(c) = entries[i].1 {
                    if is_enabled_theme_entry(entries[i].0, config) {
                        assert(theme_styles(entries, config, i + 1) == Ok::<Seq<char>, Seq<char>>(
                            before + c@,
                        ));
                        assert(next == before + c@);
                        assert(all.subrange(0, next.len() as int) == next);
                        assert(all.subrange(before.len() as int, (before.len() + c@.len()) as int)
                            =~= next.subrange(before.len() as int, (before.len() + c@.len()) as int));
                        assert(next.subrange(before.len() as int, (before.len() + c@.len()) as int)
                            =~= c@);
                    }
                }
            }
        }
    }
}

/// The styles of all enabled themes, from the theme folder's entries and
/// their contents.
pub fn get_themes(entries: &Vec<(DirEntryInfo, Option<String>)>, config: &Config) -> (r: Result<
    String,
    String,
>)
    ensures
        match (r, theme_styles(entries@, *config, entries@.len() as int)) {
            (Ok(css), Ok(c)) => css@ == c,
            (Err(m), Err(msg)) => m@ == msg,
            _ => false,
        },
{
    let mut all = String::new();
    for i in 0..entries.len()
        invariant
            theme_styles(entries@, *config, i as int) matches Ok(c) && all@ == c,
    {
        proof {
            reveal_with_fuel(theme_styles, 2);
            reveal_strlit(".css");
            reveal_strlit("");
        }
        match &entries[i].0 {
            DirEntryInfo::Unreadable { message } => {
                proof {
                    lemma_styles_stay_failed(entries@, *config, i + 1, entries@.len() as int);
                }
                return Err(message.clone());
            },
            DirEntryInfo::File { name, .. } => {
                let raw: &str = match name {
                    Some(n) => n.as_str(),
                    None => "",
                };
                let n: &str = if str_eq(raw, "cache") || str_eq(raw, ".ds_store") {
                    ""
                } else {
                    raw
                };
                if str_ends_with(n, ".css") && theme_is_enabled(n, config) {
                    match &entries[i].1 {
                        Some(c) => append_str(&mut all, c.as_str()),
                        None => append_str(&mut all, ""),
                    }
                }
            },
        }
    }
    Ok(all)
}

proof fn lemma_styles_stay_failed(
    entries: Seq<(DirEntryInfo, Option<String>)>,
    config: Config,
    i: int,
    j: int,
)
    requires
        i <= j,
        theme_styles(entries, config, i) is Err,
    ensures
        theme_styles(entries, config, j) == theme_styles(entries, config, i),
    decreases j - i,
{
    if i < j {
        lemma_styles_stay_failed(entries, config, i, j - 1);
    }
}

/// What `s.to_lowercase()` gives: `s` with every character mapped to its
/// Unicode lowercase form.
pub uninterp spec fn lowercased(s: Seq<char>) -> Seq<char>;

/// `s.to_lowercase()`. The result is named, not described: nothing here
/// states the Unicode case mapping.
#[verifier::external_body]
fn to_lowercase(s: &str) -> (r: String)
    ensures
        r@ == lowercased(s@),
{
    s.to_lowercase()
}

/// The theme folder entries that are listed as themes: readable entries
/// with a valid UTF-8 name that, lowercased, is neither "cache" nor
/// ".ds_store"; each listed in its `Debug` form.
pub open spec fn theme_names_upto(entries: Seq<DirEntryInfo>, i: int) -> Seq<Seq<char>>
    decreases i,
{
    if i <= 0 {
        Seq::empty()
    } else {
        let l = theme_names_upto(entries, i - 1);
        match entries[i - 1] {
            DirEntryInfo::File { name: Some(n), .. } => {
                let low = lowercased(n@);
                if low != "cache"@ && low != ".ds_store"@ {
                    l.push(debug_quoted(n@))
                } else {
                    l
                }
            },
            _ => l,
        }
    }
}

/// The names of the entries of the theme folder, in their `Debug` form.
pub fn get_theme_names(entries: &Vec<DirEntryInfo>) -> (names: Vec<String>)
    ensures
        names@.map_values(|n: String| n@) == theme_names_upto(entries@, entries@.len() as int),
{
    let mut names: Vec<String> = Vec::new();
    for i in 0..entries.len()
        invariant
            names@.map_values(|n: String| n@) == theme_names_upto(entries@, i as int),
    {
        proof {
            reveal_with_fuel(theme_names_upto, 2);
        }
        let ghost before = names@;
        match &entries[i] {
            DirEntryInfo::File { name: Some(n), .. } => {
                let low = to_lowercase(n.as_str());
                if !str_eq(low.as_str(), "cache") && !str_eq(low.as_str(), ".ds_store") {
                    names.push(debug_quote(n.as_str()));
                    assert(names@.map_values(|n: String| n@) =~= before.map_values(|n: String| n@).push(
                        names@.last()@,
                    ));
                }
            },
            _ => {},
        }
    }
    names
}

/// The last '/'-separated segment of `link`.
pub open spec fn last_path_segment(link: Seq<char>) -> Seq<char> {
    link.subrange(last_index_of(link, '/', link.len() as int) + 1, link.len() as int)
}

/// The text of an optional string.
pub open spec fn text_option(s: Option<String>) -> Option<Seq<char>> {
    match s {
        Some(t) => Some(t@),
        None => None,
    }
}

/// The part of `s` before its first '.'.
pub open spec fn before_first_dot(s: Seq<char>) -> Seq<char> {
    s.subrange(0, first_index_of(s, '.', 0))
}

/// The file that a theme downloaded from `link` is stored in: the given
/// file name, or else the last segment of the link, cut at its first '.'
/// and given the ".css" extension; no file when that name is empty.
pub open spec fn theme_file_name_of(link: Seq<char>, filename: Option<Seq<char>>) -> Option<
    Seq<char>,
> {
    let base = match filename {
        Some(f) => f,
        None => last_path_segment(link),
    };
    let name = before_first_dot(base);
    if name.len() == 0 {
        None
    } else {
        Some(name + ".css"@)
    }
}

/// The name of the file that a theme downloaded from `link` is stored
/// under, or `None` when no usable name can be made (nothing is downloaded
/// then).
pub fn theme_file_name(link: &str, filename: Option<String>) -> (r: Option<String>)
    ensures
        match (r, theme_file_name_of(link@, text_option(filename))) {
            (Some(a), Some(b)) => a@ == b,
            (None, None) => true,
            _ => false,
        },
{
    let base: String = match filename {
        Some(f) => f,
        None => {
            let l = chars_of(link);
            let k = after_last_index(&l, '/');
            subrange_string(&l, k, l.len())
        },
    };
    let b = chars_of(base.as_str());
    let k = first_index_exec(&b, '.');
    proof {
        reveal_strlit(".css");
    }
    if k == 0 {
        None
    } else {
        let name = subrange_string(&b, 0, k);
        Some(concat2(name.as_str(), ".css"))
    }
}

} // verus!
