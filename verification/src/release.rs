//! Checking for a newer release and starting the updater.
use vstd::prelude::*;
use crate::platform::Platform;
use crate::text::{append_str, decimal, decimal_string, str_eq, texts};
use crate::updater::github::{parse_release_json, release_json_fields};

verus! {

broadcast use vstd::string::group_string_axioms;

/// The release tag of the version `major.minor.patch`: "v1.2.3".
pub open spec fn version_tag(major: u64, minor: u64, patch: u64) -> Seq<char> {
    "v"@ + decimal(major as nat) + "."@ + decimal(minor as nat) + "."@ + decimal(patch as nat)
}

/// The release tag of the running version.
pub fn version_tag_string(major: u64, minor: u64, patch: u64) -> (s: String)
    ensures
        s@ == version_tag(major, minor, patch),
{
    let mut s = String::from_str("v");
    append_str(&mut s, decimal_string(major).as_str());
    append_str(&mut s, ".");
    append_str(&mut s, decimal_string(minor).as_str());
    append_str(&mut s, ".");
    append_str(&mut s, decimal_string(patch).as_str());
    s
}

fn tag_differs(tag_name: &str, major: u64, minor: u64, patch: u64) -> (b: bool)
    ensures
        b == (tag_name@ != version_tag(major, minor, patch)),
{
    let current = version_tag_string(major, minor, patch);
    !str_eq(tag_name, current.as_str())
}

/// Whether the releases API's reply `text` announces a newer release than
/// the running version `major.minor.patch`: any other tag counts as newer.
/// An error when the text is not JSON (the parser's message) or has no
/// "tag_name" string.
pub open spec fn newer_release(text: Seq<char>, major: u64, minor: u64, patch: u64) -> Result<
    bool,
    Seq<char>,
> {
    match release_json_fields(text) {
        Err(m) => Err(m),
        Ok((None, _)) => Err("Failed to extract 'tag_name' from JSON"@),
        Ok((Some(t), _)) => Ok(t != version_tag(major, minor, patch)),
    }
}

/// Whether the latest release, described by the releases API's reply
/// `text`, differs from the running version (see `newer_release`).
pub fn maybe_latest_main_release(text: &str, major: u64, minor: u64, patch: u64) -> (r: Result<
    bool,
    String,
>)
    ensures
        match (r, newer_release(text@, major, minor, patch)) {
            (Ok(b), Ok(c)) => b == c,
            (Err(e), Err(m)) => e@ == m,
            _ => false,
        },
{
    match parse_release_json(text) {
        Err(m) => Err(m),
        Ok((tag, _)) => match tag {
            None => Err(String::from_str("Failed to extract 'tag_name' from JSON")),
            Some(t) => Ok(tag_differs(t.as_str(), major, minor, patch)),
        },
    }
}

/// What the update check reports: "dorion" when the reply of the releases
/// API could be fetched (`response`) and announces a newer release, nothing
/// otherwise.
pub fn update_check(response: Option<String>, major: u64, minor: u64, patch: u64) -> (v: Vec<
    String,
>)
    ensures
        texts(v@) == (if response matches Some(t) && newer_release(t@, major, minor, patch) == Ok::<
            bool,
            Seq<char>,
        >(true) {
            seq!["dorion"@]
        } else {
            Seq::empty()
        }),
{
    let mut v: Vec<String> = Vec::new();
    match &response {
        Some(t) => match maybe_latest_main_release(t.as_str(), major, minor, patch) {
            Ok(true) => {
                v.push(String::from_str("dorion"));
            },
            _ => {},
        },
        None => {},
    }
    assert(texts(v@) =~= (if response matches Some(t) && newer_release(t@, major, minor, patch)
        == Ok::<bool, Seq<char>>(true) {
        seq!["dorion"@]
    } else {
        Seq::empty()
    }));
    v
}

/// The arguments that the updater is started with: "--main true" when the
/// client itself is to be updated (not on Linux, where the package manager
/// updates it), then "--local true" for a portable install.
pub open spec fn updater_args(to_update: Seq<Seq<char>>, is_local: bool, p: Platform) -> Seq<
    Seq<char>,
> {
    (if p != Platform::Linux && to_update.contains("dorion"@) {
        seq!["--main"@, "true"@]
    } else {
        Seq::empty()
    }) + (if is_local {
        seq!["--local"@, "true"@]
    } else {
        Seq::empty()
    })
}

/// The arguments to start the updater with, for the updates `to_update` on
/// platform `p`; `is_local` tells a portable install.
pub fn do_update(to_update: &Vec<String>, is_local: bool, p: Platform) -> (args: Vec<String>)
    ensures
        texts(args@) == updater_args(texts(to_update@), is_local, p),
{
    let mut args: Vec<String> = Vec::new();
    let main = p != Platform::Linux && crate::util::args::has_flag(to_update, "dorion");
    if main {
        args.push(String::from_str("--main"));
        args.push(String::from_str("true"));
    }
    if is_local {
        args.push(String::from_str("--local"));
        args.push(String::from_str("true"));
    }
    assert(texts(args@) =~= updater_args(texts(to_update@), is_local, p));
    args
}

} // verus!
