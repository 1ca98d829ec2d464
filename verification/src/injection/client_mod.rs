//! Client mods: the mods the client knows, the rule that shelter is always
//! enabled and loaded first, and how the fetched scripts and styles of the
//! enabled mods are put together.
use vstd::prelude::*;
use crate::text::{append_str, str_eq, texts};

verus! {

broadcast use vstd::string::group_string_axioms;

/// Where a client mod's script and styles are downloaded from (empty when
/// it has none).
#[derive(Clone, Debug, PartialEq, Eq)]
pub struct ClientMod {
    pub script: &'static str,
    pub styles: &'static str,
}

/// The client mods that the client knows, by name: (script, styles).
pub open spec fn known_mod(name: Seq<char>) -> Option<(Seq<char>, Seq<char>)> {
    if name == "Shelter"@ {
        Some(("https://raw.githubusercontent.com/uwu/shelter-builds/main/shelter.js"@, ""@))
    } else if name == "Vencord"@ {
        Some(
            (
                "https://github.com/Vendicated/Vencord/releases/download/devbuild/browser.js"@,
                "https://github.com/Vendicated/Vencord/releases/download/devbuild/browser.css"@,
            ),
        )
    } else if name == "Equicord"@ {
        Some(
            (
                "https://github.com/Equicord/Equicord/releases/download/latest/browser.js"@,
                "https://github.com/Equicord/Equicord/releases/download/latest/browser.css"@,
            ),
        )
    } else {
        None
    }
}

/// The client mod named `name`, if the client knows it.
pub fn client_mod(name: &str) -> (m: Option<ClientMod>)
    ensures
        match (m, known_mod(name@)) {
            (Some(x), Some(y)) => (x.script@, x.styles@) == y,
            (None, None) => true,
            _ => false,
        },
{
    if str_eq(name, "Shelter") {
        Some(
            ClientMod {
                script: "https://raw.githubusercontent.com/uwu/shelter-builds/main/shelter.js",
                styles: "",
            },
        )
    } else if str_eq(name, "Vencord") {
        Some(
            ClientMod {
                script: "https://github.com/Vendicated/Vencord/releases/download/devbuild/browser.js",
                styles: "https://github.com/Vendicated/Vencord/releases/download/devbuild/browser.css",
            },
        )
    } else if str_eq(name, "Equicord") {
        Some(
            ClientMod {
                script: "https://github.com/Equicord/Equicord/releases/download/latest/browser.js",
                styles: "https://github.com/Equicord/Equicord/releases/download/latest/browser.css",
            },
        )
    } else {
        None
    }
}

/// The names of the client mods that the client knows.
pub fn available_mods() -> (names: Vec<String>)
    ensures
        texts(names@) == seq!["Shelter"@, "Vencord"@, "Equicord"@],
        forall|i: int| 0 <= i < names@.len() ==> known_mod(#[trigger] texts(names@)[i]) is Some,
{
    let mut names: Vec<String> = Vec::new();
    names.push(String::from_str("Shelter"));
    names.push(String::from_str("Vencord"));
    names.push(String::from_str("Equicord"));
    assert(texts(names@) =~= seq!["Shelter"@, "Vencord"@, "Equicord"@]);
    names
}

/// The address of the script of the mod `name`; empty for an unknown mod
/// (fetching it then fails).
pub open spec fn script_url_of(name: Seq<char>) -> Seq<char> {
    match known_mod(name) {
        Some(m) => m.0,
        None => ""@,
    }
}

/// The address of the styles of the mod `name`; empty for an unknown mod or
/// one without styles.
pub open spec fn styles_url_of(name: Seq<char>) -> Seq<char> {
    match known_mod(name) {
        Some(m) => m.1,
        None => ""@,
    }
}

/// The script address of the mod `name`.
pub fn mod_script_url(name: &str) -> (u: &'static str)
    ensures
        u@ == script_url_of(name@),
{
    match client_mod(name) {
        Some(m) => m.script,
        None => "",
    }
}

/// The styles address of the mod `name`.
pub fn mod_styles_url(name: &str) -> (u: &'static str)
    ensures
        u@ == styles_url_of(name@),
{
    match client_mod(name) {
        Some(m) => m.styles,
        None => "",
    }
}

/// The mods to load when `mods` are enabled: shelter is always loaded, and
/// first when it was missing.
pub open spec fn with_shelter(mods: Seq<Seq<char>>) -> Seq<Seq<char>> {
    if mods.contains("Shelter"@) {
        mods
    } else {
        seq!["Shelter"@] + mods
    }
}

/// The enabled mods with shelter added at the front when it is missing, and
/// whether it was added (the configuration must then be saved).
pub fn ensure_shelter(mods: Vec<String>) -> (r: (Vec<String>, bool))
    ensures
        texts(r.0@) == with_shelter(texts(mods@)),
        r.1 == !texts(mods@).contains("Shelter"@),
{
    let mut found = false;
    for i in 0..mods.len()
        invariant
            found ==> texts(mods@).contains("Shelter"@),
            !found ==> forall|j: int| 0 <= j < i ==> texts(mods@)[j] != "Shelter"@,
    {
        if str_eq(mods[i].as_str(), "Shelter") {
            assert(texts(mods@)[i as int] == "Shelter"@);
            found = true;
        }
    }
    if found {
        (mods, false)
    } else {
        let mut r: Vec<String> = Vec::new();
        r.push(String::from_str("Shelter"));
        for i in 0..mods.len()
            invariant
                texts(r@) == seq!["Shelter"@] + texts(mods@).take(i as int),
        {
            let ghost before = r@;
            r.push(mods[i].clone());
            assert(texts(r@) =~= texts(before).push(mods@[i as int]@));
            assert(texts(mods@).take(i + 1) =~= texts(mods@).take(i as int).push(mods@[i as int]@));
        }
        assert(texts(mods@).take(mods@.len() as int) =~= texts(mods@));
        (r, true)
    }
}

/// Shelter is always among the mods loaded, and adding it is done once:
/// enabling it again changes nothing.
pub proof fn lemma_shelter_always_loaded(mods: Seq<Seq<char>>)
    ensures
        with_shelter(mods).contains("Shelter"@),
        with_shelter(with_shelter(mods)) == with_shelter(mods),
        mods.contains("Shelter"@) ==> with_shelter(mods) == mods,
{
    if !mods.contains("Shelter"@) {
        assert((seq!["Shelter"@] + mods)[0] == "Shelter"@);
    }
}

/// The script to run for the mod `name`, given what fetching its script
/// gave (`None` when the request failed or was refused): shelter falls back
/// to the bundled copy `fallback`, other mods to nothing.
pub fn mod_script_or_fallback(name: &str, fetched: Option<String>, fallback: &str) -> (s: String)
    ensures
        fetched matches Some(t) ==> s@ == t@,
        fetched is None && name@ == "Shelter"@ ==> s@ == fallback@,
        fetched is None && name@ != "Shelter"@ ==> s@.len() == 0,
{
    if let Some(t) = fetched {
        return t;
    }
    if str_eq(name, "Shelter") {
        String::from_str(fallback)
    } else {
        String::new()
    }
}

/// The first `k` parts joined: each non-empty part appended after `sep`,
/// starting from the empty text (so the result starts with `sep` when any
/// part is non-empty).
pub open spec fn join_nonempty(parts: Seq<Seq<char>>, sep: Seq<char>, k: int) -> Seq<char>
    decreases k,
{
    if k <= 0 {
        Seq::empty()
    } else if parts[k - 1].len() == 0 {
        join_nonempty(parts, sep, k - 1)
    } else {
        join_nonempty(parts, sep, k - 1) + sep + parts[k - 1]
    }
}

/// Puts the fetched scripts (with `sep` ";") or styles (with `sep` " ") of
/// the enabled mods together, in order, skipping empty ones.
pub fn join_mod_sources(parts: &Vec<String>, sep: &str) -> (r: String)
    ensures
        r@ == join_nonempty(texts(parts@), sep@, parts@.len() as int),
{
    let mut r = String::new();
    for i in 0..parts.len()
        invariant
            r@ == join_nonempty(texts(parts@), sep@, i as int),
    {
        if !parts[i].as_str().is_empty() {
            append_str(&mut r, sep);
            append_str(&mut r, parts[i].as_str());
        }
    }
    r
}

} // verus!
