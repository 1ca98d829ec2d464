//! Releases published on GitHub.
use vstd::prelude::*;
use crate::text::{append_str, concat2, texts};

verus! {

broadcast use vstd::string::group_string_axioms;

/// A release: its tag and the names of its files.
#[derive(Clone, Debug, PartialEq, Eq)]
pub struct ReleaseData {
    pub tag_name: String,
    pub release_names: Vec<String>,
}

/// The address of the API that describes the latest release of
/// `user`/`repo`.
pub open spec fn latest_release_url(user: Seq<char>, repo: Seq<char>) -> Seq<char> {
    "https://api.github.com/repos/"@ + user + "/"@ + repo + "/releases/latest"@
}

/// The address to ask for the latest release of `user`/`repo`.
pub fn get_release_url(user: &str, repo: &str) -> (url: String)
    ensures
        url@ == latest_release_url(user@, repo@),
{
    let mut url = concat2("https://api.github.com/repos/", user);
    append_str(&mut url, "/");
    append_str(&mut url, repo);
    append_str(&mut url, "/releases/latest");
    url
}

/// The message of the error for a reply whose "assets" is not an array.
pub open spec fn assets_error() -> Seq<char> {
    "Failed to parse JSON: assets is not an array"@
}

/// Whether a reply can be read: when "assets" is an array, the tag and the
/// name of every file are strings. `release_from_json` refuses any other
/// reply before it gets here.
pub open spec fn release_readable(tag_name: Option<String>, assets: Option<Vec<Option<String>>>) -> bool {
    assets matches Some(a) ==> (tag_name is Some && forall|i: int|
        0 <= i < a@.len() ==> #[trigger] a@[i] is Some)
}

/// The release described by a reply of the releases API, given its
/// "tag_name" (when it is a string) and the "name" of each of its
/// "assets" (when "assets" is an array): an error when "assets" is not an
/// array; else the tag and the names, in order.
pub fn get_release(tag_name: Option<String>, assets: Option<Vec<Option<String>>>) -> (r: Result<
    ReleaseData,
    String,
>)
    requires
        release_readable(tag_name, assets),
    ensures
        r is Err <==> assets is None,
        r matches Err(e) ==> e@ == assets_error(),
        r matches Ok(d) ==> {
            &&& tag_name matches Some(t) && d.tag_name@ == t@
            &&& assets matches Some(a) && d.release_names@.len() == a@.len() && forall|i: int|
                0 <= i < a@.len() ==> (a@[i] matches Some(n) && #[trigger] d.release_names@[i]@
                    == n@)
        },
{
    match assets {
        None => Err(String::from_str("Failed to parse JSON: assets is not an array")),
        Some(a) => {
            let ghost orig = a@;
            let mut rest = a;
            let mut names: Vec<String> = Vec::new();
            let mut k: usize = 0;
            assert(orig.len() == rest.len());
            while rest.len() > 0
                invariant
                    k <= orig.len() <= usize::MAX,
                    rest@ == orig.skip(k as int),
                    names@.len() == k,
                    forall|i: int| 0 <= i < orig.len() ==> #[trigger] orig[i] is Some,
                    forall|i: int|
                        0 <= i < k ==> (orig[i] matches Some(n) && #[trigger] names@[i]@ == n@),
                decreases rest.len(),
            {
                let n = rest.remove(0);
                assert(n == orig[k as int]);
                match n {
                    Some(s) => names.push(s),
                    None => {
                        assert(false);
                    },
                }
                k = k + 1;
                assert(rest@ =~= orig.skip(k as int));
            }
            match tag_name {
                Some(t) => Ok(ReleaseData { tag_name: t, release_names: names }),
                None => {
                    assert(false);
                    Err(String::new())
                },
            }
        },
    }
}

/// The address of the file `release_name` of the release `tag_name` of
/// `user`/`repo`.
pub open spec fn release_download_url(
    user: Seq<char>,
    repo: Seq<char>,
    tag_name: Seq<char>,
    release_name: Seq<char>,
) -> Seq<char> {
    "https://github.com/"@ + user + "/"@ + repo + "/releases/download/"@ + tag_name + "/"@
        + release_name
}

/// The address to download the file `release_name` of the release
/// `tag_name` of `user`/`repo` from.
pub fn download_release(user: &str, repo: &str, tag_name: &str, release_name: &str) -> (url:
    String)
    ensures
        url@ == release_download_url(user@, repo@, tag_name@, release_name@),
{
    let mut url = concat2("https://github.com/", user);
    append_str(&mut url, "/");
    append_str(&mut url, repo);
    append_str(&mut url, "/releases/download/");
    append_str(&mut url, tag_name);
    append_str(&mut url, "/");
    append_str(&mut url, release_name);
    url
}

/// What `serde_json::from_str::<serde_json::Value>` makes of the text
/// `text`, read as a release description: when it parses, its "tag_name"
/// (when that is a string) and the "name" of each of its "assets" (when
/// "assets" is an array; each name when it is a string); when it does not,
/// the parser's error message.
pub uninterp spec fn release_json_fields(text: Seq<char>) -> Result<
    (Option<Seq<char>>, Option<Seq<Option<Seq<char>>>>),
    Seq<char>,
>;

/// The text of an optional string.
pub open spec fn name_view(o: Option<String>) -> Option<Seq<char>> {
    match o {
        Some(s) => Some(s@),
        None => None,
    }
}

/// The texts of an optional list of optional strings.
pub open spec fn names_view(o: Option<Vec<Option<String>>>) -> Option<Seq<Option<Seq<char>>>> {
    match o {
        Some(v) => Some(v@.map_values(|n: Option<String>| name_view(n))),
        None => None,
    }
}

/// The plain view of the fields read from a release description.
pub open spec fn parsed_fields(f: (Option<String>, Option<Vec<Option<String>>>)) -> Result<
    (Option<Seq<char>>, Option<Seq<Option<Seq<char>>>>),
    Seq<char>,
> {
    Ok((name_view(f.0), names_view(f.1)))
}

/// The plain view of the parser's error message.
pub open spec fn parse_error(m: String) -> Result<
    (Option<Seq<char>>, Option<Seq<Option<Seq<char>>>>),
    Seq<char>,
> {
    Err(m@)
}

/// Parses `text` with `serde_json::from_str` into a `serde_json::Value`
/// and picks its "tag_name" string and the "name" strings of its "assets"
/// array; the error is the parser's message. The fields are named by
/// `release_json_fields`: nothing here states the JSON grammar.
#[verifier::external_body]
pub(crate) fn parse_release_json(text: &str) -> (r: Result<(Option<String>, Option<Vec<Option<String>>>), String>)
    ensures
        r matches Ok(f) ==> release_json_fields(text@) == parsed_fields(f),
        r matches Err(m) ==> release_json_fields(text@) == parse_error(m),
{
    match serde_json::from_str::<serde_json::Value>(text) {
        Ok(v) => Ok((
            v["tag_name"].as_str().map(|t| t.to_string()),
            v["assets"].as_array().map(
                |a| a.iter().map(|x| x["name"].as_str().map(|n| n.to_string())).collect(),
            ),
        )),
        Err(e) => Err(e.to_string()),
    }
}

/// The error for a release description with an asset whose name is not a
/// string.
pub open spec fn asset_name_error() -> Seq<char> {
    "Failed to parse JSON: an asset's name is not a string"@
}

/// The error for a release description whose tag is not a string.
pub open spec fn tag_error() -> Seq<char> {
    "Failed to parse JSON: tag_name is not a string"@
}

/// The name of each asset, all of them being strings.
pub open spec fn unwrapped_names(ns: Seq<Option<Seq<char>>>) -> Seq<Seq<char>> {
    ns.map_values(|n: Option<Seq<char>>| match n {
        Some(t) => t,
        None => Seq::empty(),
    })
}

/// The release that the releases API's reply `text` describes: its tag and
/// the names of its files, in order. An error when the text is not JSON
/// ("Failed to parse JSON: " and the parser's message), when "assets" is
/// not an array, when a file's name is not a string, or when the tag is not
/// a string, checked in that order.
pub open spec fn release_of_json(text: Seq<char>) -> Result<(Seq<char>, Seq<Seq<char>>), Seq<char>> {
    match release_json_fields(text) {
        Err(m) => Err("Failed to parse JSON: "@ + m),
        Ok((tag, assets)) => match assets {
            None => Err(assets_error()),
            Some(ns) => if exists|i: int| 0 <= i < ns.len() && ns[i] is None {
                Err(asset_name_error())
            } else {
                match tag {
                    None => Err(tag_error()),
                    Some(t) => Ok((t, unwrapped_names(ns))),
                }
            },
        },
    }
}

/// The release that the releases API's reply `text` describes (see
/// `release_of_json`).
pub fn release_from_json(text: &str) -> (r: Result<ReleaseData, String>)
    ensures
        match (r, release_of_json(text@)) {
            (Ok(d), Ok((t, ns))) => d.tag_name@ == t && texts(d.release_names@) == ns,
            (Err(e), Err(m)) => e@ == m,
            _ => false,
        },
{
    let (tag, assets) = match parse_release_json(text) {
        Ok(f) => f,
        Err(m) => {
            return Err(concat2("Failed to parse JSON: ", m.as_str()));
        },
    };
    let a = match assets {
        None => {
            return Err(String::from_str("Failed to parse JSON: assets is not an array"));
        },
        Some(a) => a,
    };
    let ghost ns = a@.map_values(|n: Option<String>| name_view(n));
    for i in 0..a.len()
        invariant
            ns == a@.map_values(|n: Option<String>| name_view(n)),
            release_json_fields(text@) matches Ok((tg, Some(nv))) && nv == ns,
            forall|j: int| 0 <= j < i ==> a@[j] is Some,
    {
        if a[i].is_none() {
            assert(ns.len() == a@.len());
            assert(ns[i as int] is None);
            assert(exists|k: int| 0 <= k < ns.len() && ns[k] is None);
            return Err(String::from_str("Failed to parse JSON: an asset's name is not a string"));
        }
    }
    assert(!(exists|i: int| 0 <= i < ns.len() && ns[i] is None)) by {
        assert forall|i: int| 0 <= i < ns.len() implies ns[i] is Some by {
            assert(a@[i] is Some);
        }
    }
    if tag.is_none() {
        return Err(String::from_str("Failed to parse JSON: tag_name is not a string"));
    }
    let ghost tv = tag;
    let ghost av = a@;
    match get_release(tag, Some(a)) {
        Ok(d) => {
            assert(texts(d.release_names@) =~= unwrapped_names(ns)) by {
                assert forall|i: int| 0 <= i < ns.len() implies texts(d.release_names@)[i]
                    == unwrapped_names(ns)[i] by {
                    assert(av[i] matches Some(n) && d.release_names@[i]@ == n@);
                }
            }
            Ok(d)
        },
        Err(e) => Err(e),
    }
}

} // verus!
