//! Preparing theme styles for offline use: finding the `@import`s, images
//! and fonts that a stylesheet loads from the web, deciding which of them
//! to fetch, and splicing the fetched contents back into the stylesheet.
use vstd::prelude::*;
use crate::config::Config;
use crate::text::{
    after_last_index, last_index_of, subrange_string,
    append_str, concat2, contains, str_contains, str_eq, replace_all, replace_all_str,
    chars_of, string_of, texts,
};

verus! {

broadcast use vstd::string::group_string_axioms;

/// The `@import` rules of a stylesheet: a line starting `@import url(`, an
/// optional quote, anything up to `//`, the address (captured), an optional
/// quote and `);`.
pub const IMPORT_PATTERN: &'static str = r#"(?m)^@import url\((?:"|'|)(?:|.+?)\/\/(.+?)(?:"|'|)\);"#;

/// The web images of a stylesheet: `url(`, an optional quote, an address
/// starting with "http" (captured), an optional quote and `)`.
pub const IMAGE_PATTERN: &'static str = r#"url\((?:'|"|)(http.+?)(?:'|"|)\)"#;

/// The web fonts of a stylesheet: an `@font-face` block whose `src` is a
/// `url(` of an address starting with "http" (captured without its
/// extension) and an extension of up to five letters or digits (captured).
pub const FONT_PATTERN: &'static str = r#"@font-face.{0,1}\{(?:.|\n)+?src:.{0,1}url\((?:'|"|)(http.+?)\.([a-zA-Z0-9]{0,5})(?:'|"|)\)"#;

/// What the `regex` crate finds for `pattern` in `text`: for each
/// successive non-overlapping match (`Regex::captures_iter`), the text of
/// each capture group of the pattern in order, group 0 being the whole match
/// and `None` standing for a group that took no part in the match.
pub uninterp spec fn regex_captures(pattern: Seq<char>, text: Seq<char>) -> Seq<
    Seq<Option<Seq<char>>>,
>;

/// Whether `regex::Regex::new` accepts `pattern`: the pattern parses and
/// its compiled form stays within the crate's default size limits. This
/// depends on the pattern alone.
pub uninterp spec fn regex_compiles(pattern: Seq<char>) -> bool;

/// The plain texts of the groups of one match.
pub open spec fn groups_view(m: Seq<Option<String>>) -> Seq<Option<Seq<char>>> {
    m.map_values(
        |g: Option<String>|
            match g {
                Some(t) => Some(t@),
                None => None,
            },
    )
}

/// The plain texts of the groups of each match.
pub open spec fn captures_view(c: Seq<Vec<Option<String>>>) -> Seq<Seq<Option<Seq<char>>>> {
    c.map_values(|m: Vec<Option<String>>| groups_view(m@))
}

/// Compiles `pattern` with `regex::Regex::new` and lists the capture groups
/// of every match in `text` (`Regex::captures_iter`). `None` exactly when
/// `Regex::new` refuses the pattern (whether it does is named by
/// `regex_compiles`). The matches are named, not described: nothing
/// here states the regular-expression semantics.
#[verifier::external_body]
fn captures_all(pattern: &str, text: &str) -> (r: Option<Vec<Vec<Option<String>>>>)
    ensures
        r is Some <==> regex_compiles(pattern@),
        r matches Some(c) ==> captures_view(c@) == regex_captures(pattern@, text@),
{
    match regex::Regex::new(pattern) {
        Ok(re) => Some(
            re.captures_iter(text).map(
                |c| c.iter().map(|g| g.map(|m| m.as_str().to_string())).collect(),
            ).collect(),
        ),
        Err(_) => None,
    }
}

/// The text of group `i` of a match: empty when the group took no part.
pub open spec fn group(m: Seq<Option<Seq<char>>>, i: int) -> Seq<char> {
    if 0 <= i < m.len() {
        match m[i] {
            Some(t) => t,
            None => Seq::empty(),
        }
    } else {
        Seq::empty()
    }
}

fn group_exec(m: &Vec<Option<String>>, i: usize) -> (r: String)
    ensures
        r@ == group(groups_view(m@), i as int),
{
    if i < m.len() {
        match &m[i] {
            Some(t) => t.clone(),
            None => String::new(),
        }
    } else {
        String::new()
    }
}

/// `s` with every single and double quote removed.
pub open spec fn without_quotes(s: Seq<char>) -> Seq<char> {
    s.filter(|c: char| c != '\'' && c != '"')
}

fn strip_quotes(s: &str) -> (r: String)
    ensures
        r@ == without_quotes(s@),
{
    let v = chars_of(s);
    let mut out: Vec<char> = Vec::new();
    for i in 0..v.len()
        invariant
            v@ == s@,
            out@ == without_quotes(v@.take(i as int)),
    {
        proof {
            assert(v@.take(i + 1).drop_last() =~= v@.take(i as int));
            reveal_with_fuel(Seq::filter, 1);
        }
        if v[i] != '\'' && v[i] != '"' {
            out.push(v[i]);
        }
    }
    assert(v@.take(v.len() as int) =~= v@);
    string_of(&out)
}

/// An `@import` to fetch: the whole rule, to be replaced by the fetched
/// stylesheet, and the address to fetch it from.
#[derive(Clone, Debug, PartialEq, Eq)]
pub struct ImportFetch {
    pub rule: String,
    pub url: String,
}

/// The first step of localizing imports: the stylesheet with repeated
/// imports removed, and the imports to fetch, in order.
#[derive(Clone, Debug, PartialEq, Eq)]
pub struct ImportPlan {
    pub css: String,
    pub fetches: Vec<ImportFetch>,
}

/// The plain state of import planning after some matches: the stylesheet so
/// far, the addresses seen, and the (rule, address) pairs to fetch.
pub struct ImportState {
    pub css: Seq<char>,
    pub seen: Seq<Seq<char>>,
    pub fetches: Seq<(Seq<char>, Seq<char>)>,
}

/// Import planning over the first `k` matches of `css`: for each match, its
/// address is group 1 without quotes; an empty address is passed over; an
/// address seen before has every copy of its rule removed from the
/// stylesheet; a new address is fetched from "https://" followed by it.
pub open spec fn import_state(css: Seq<char>, ms: Seq<Seq<Option<Seq<char>>>>, k: int) -> ImportState
    decreases k,
{
    if k <= 0 {
        ImportState { css, seen: Seq::empty(), fetches: Seq::empty() }
    } else {
        let st = import_state(css, ms, k - 1);
        let m = ms[k - 1];
        let url = without_quotes(group(m, 1));
        if url.len() == 0 {
            st
        } else if st.seen.contains(url) {
            ImportState { css: replace_all(st.css, group(m, 0), ""@), ..st }
        } else {
            ImportState {
                css: st.css,
                seen: st.seen.push(url),
                fetches: st.fetches.push((group(m, 0), "https://"@ + url)),
            }
        }
    }
}

/// The plain texts of the fetches of a plan.
pub open spec fn fetches_view(f: Seq<ImportFetch>) -> Seq<(Seq<char>, Seq<char>)> {
    f.map_values(|x: ImportFetch| (x.rule@, x.url@))
}

fn seen_contains(seen: &Vec<String>, url: &str) -> (b: bool)
    ensures
        b == texts(seen@).contains(url@),
{
    for i in 0..seen.len()
        invariant
            forall|j: int| 0 <= j < i ==> seen@[j]@ != url@,
    {
        if str_eq(seen[i].as_str(), url) {
            assert(texts(seen@)[i as int] == url@);
            return true;
        }
    }
    assert forall|j: int| 0 <= j < seen@.len() implies #[trigger] texts(seen@)[j] != url@ by {
        assert(seen@[j]@ != url@);
    }
    false
}

/// Plans the localization of the `@import` rules of `css`; `Err` when the
/// import pattern does not compile.
pub fn plan_imports(css: &str) -> (r: Result<ImportPlan, ()>)
    ensures
        r is Ok <==> regex_compiles(IMPORT_PATTERN@),
        r matches Ok(plan) ==> {
            let st = import_state(
                css@,
                regex_captures(IMPORT_PATTERN@, css@),
                regex_captures(IMPORT_PATTERN@, css@).len() as int,
            );
            &&& plan.css@ == st.css
            &&& fetches_view(plan.fetches@) == st.fetches
        },
{
    match captures_all(IMPORT_PATTERN, css) {
        Some(ms) => Ok(plan_imports_from(css, &ms)),
        None => Err(()),
    }
}

/// Plans the localization of the `@import` rules of `css` from the matches
/// `ms` of the import pattern in it (each match's groups, group 0 being the
/// whole rule).
pub fn plan_imports_from(css: &str, ms: &Vec<Vec<Option<String>>>) -> (plan: ImportPlan)
    ensures
        ({
            let st = import_state(css@, captures_view(ms@), ms@.len() as int);
            &&& plan.css@ == st.css
            &&& fetches_view(plan.fetches@) == st.fetches
        }),
{
    let ghost msv = captures_view(ms@);
    let mut new_css = String::from_str(css);
    let mut seen: Vec<String> = Vec::new();
    let mut fetches: Vec<ImportFetch> = Vec::new();
    for k in 0..ms.len()
        invariant
            msv == captures_view(ms@),
            msv.len() == ms@.len(),
            ({
                let st = import_state(css@, msv, k as int);
                &&& new_css@ == st.css
                &&& texts(seen@) == st.seen
                &&& fetches_view(fetches@) == st.fetches
            }),
    {
        proof {
            reveal_strlit("");
            reveal_strlit("https://");
        }
        assert(msv[k as int] == groups_view(ms@[k as int]@));
        let rule = group_exec(&ms[k], 0);
        let raw = group_exec(&ms[k], 1);
        let url = strip_quotes(raw.as_str());
        if url.as_str().is_empty() {
        } else if seen_contains(&seen, url.as_str()) {
            new_css = replace_all_str(new_css.as_str(), rule.as_str(), "");
        } else {
            let ghost s0 = seen@;
            let ghost f0 = fetches@;
            let full = concat2("https://", url.as_str());
            seen.push(url);
            fetches.push(ImportFetch { rule, url: full });
            assert(texts(seen@) =~= texts(s0).push(
                seen@.last()@,
            ));
            assert(fetches_view(fetches@) =~= fetches_view(f0).push(
                (fetches@.last().rule@, fetches@.last().url@),
            ));
        }
    }
    ImportPlan { css: new_css, fetches }
}

/// Whether `css` still holds an `@import` rule to localize; `Err` when the
/// import pattern does not compile.
pub fn has_imports(css: &str) -> (r: Result<bool, ()>)
    ensures
        r is Ok <==> regex_compiles(IMPORT_PATTERN@),
        r matches Ok(b) ==> b == (regex_captures(IMPORT_PATTERN@, css@).len() > 0),
{
    match captures_all(IMPORT_PATTERN, css) {
        Some(ms) => {
            proof {
                assert(captures_view(ms@).len() == ms@.len());
            }
            Ok(ms.len() > 0)
        },
        None => Err(()),
    }
}

/// A web resource to fetch and inline: its address, and the type that its
/// data URI declares.
#[derive(Clone, Debug, PartialEq, Eq)]
pub struct MediaFetch {
    pub url: String,
    pub kind: String,
}

/// The plain texts of a list of fetches.
pub open spec fn media_view(f: Seq<MediaFetch>) -> Seq<(Seq<char>, Seq<char>)> {
    f.map_values(|x: MediaFetch| (x.url@, x.kind@))
}

/// Every image that planning fetches is the address of one of the matches
/// seen so far, is a fetchable address (in particular none on Discord's
/// media or CDN hosts, which are left as links), and is fetched as the image
/// type of its extension; no address is fetched twice.
pub proof fn lemma_image_fetches_allowed(ms: Seq<Seq<Option<Seq<char>>>>, k: int)
    requires
        0 <= k <= ms.len(),
    ensures
        forall|i: int|
            0 <= i < image_state(ms, k).fetches.len() ==> {
                let u = #[trigger] image_state(ms, k).fetches[i].0;
                &&& fetchable_image_address(u)
                &&& image_state(ms, k).fetches[i].1 == image_kind(u)
                &&& exists|j: int| 0 <= j < k && group(ms[j], 1) == u
            },
        forall|i: int, l: int|
            0 <= i < l < image_state(ms, k).fetches.len() ==> image_state(ms, k).fetches[i].0
                != image_state(ms, k).fetches[l].0,
        forall|i: int|
            0 <= i < image_state(ms, k).fetches.len() ==> image_state(ms, k).seen.contains(
                image_state(ms, k).fetches[i].0,
            ),
    decreases k,
{
    if k > 0 {
        lemma_image_fetches_allowed(ms, k - 1);
        let st = image_state(ms, k - 1);
        let url = group(ms[k - 1], 1);
        let nst = image_state(ms, k);
        if !(st.stopped || image_excluded(url) || st.seen.contains(url)) && ms[k - 1].len() <= 50 {
            assert forall|i: int| 0 <= i < nst.fetches.len() implies nst.seen.contains(nst.fetches[i].0) by {
                if i < st.fetches.len() {
                    assert(nst.fetches[i] == st.fetches[i]);
                    let w = choose|w: int| 0 <= w < st.seen.len() && st.seen[w] == st.fetches[i].0;
                    assert(nst.seen[w] == st.seen[w]);
                } else {
                    assert(nst.seen[st.seen.len() as int] == url);
                }
            }
        } else if !(st.stopped || image_excluded(url) || st.seen.contains(url)) {
            assert forall|i: int| 0 <= i < nst.fetches.len() implies nst.seen.contains(nst.fetches[i].0) by {
                let w = choose|w: int| 0 <= w < st.seen.len() && st.seen[w] == st.fetches[i].0;
                assert(nst.seen[w] == st.seen[w]);
            }
        }
    }
}

/// Whether `url` is an address that image inlining may fetch: it is not
/// empty, names no stylesheet and no data URI, and lies on none of the hosts
/// that the client loads directly (Discord's media and CDN hosts, Discord's
/// assets and Google's font host).
pub open spec fn fetchable_image_address(url: Seq<char>) -> bool {
    &&& url.len() > 0
    &&& !contains(url, ".css"@)
    &&& !contains(url, "data:image"@)
    &&& !contains(url, "media.discordapp"@)
    &&& !contains(url, "cdn.discordapp"@)
    &&& !contains(url, "discord.com/assets"@)
    &&& !contains(url, "fonts.gstatic.com"@)
}

/// Images that are never inlined: empty addresses, stylesheets, data URIs
/// and Discord's own or Google's font hosts, which the client may load
/// directly.
pub open spec fn image_excluded(url: Seq<char>) -> bool {
    ||| url.len() == 0
    ||| contains(url, ".css"@)
    ||| contains(url, "data:image"@)
    ||| contains(url, "media.discordapp"@)
    ||| contains(url, "cdn.discordapp"@)
    ||| contains(url, "discord.com/assets"@)
    ||| contains(url, "fonts.gstatic.com"@)
}

/// The image type of an address: the text after its last '.', with "svg"
/// declared as "svg+xml".
pub open spec fn image_kind(url: Seq<char>) -> Seq<char> {
    let ext = url.subrange(last_index_of(url, '.', url.len() as int) + 1, url.len() as int);
    if ext == "svg"@ {
        "svg+xml"@
    } else {
        ext
    }
}

/// Image planning after some matches: the addresses seen, the images to
/// fetch, and whether planning has stopped.
pub struct ImageState {
    pub seen: Seq<Seq<char>>,
    pub fetches: Seq<(Seq<char>, Seq<char>)>,
    pub stopped: bool,
}

/// Image planning over the first `k` matches: each match's address is
/// group 1; excluded and already seen addresses are passed over; a new
/// address is recorded as seen, and then planning stops if the match has
/// more than 50 groups, else the image is fetched.
pub open spec fn image_state(ms: Seq<Seq<Option<Seq<char>>>>, k: int) -> ImageState
    decreases k,
{
    if k <= 0 {
        ImageState { seen: Seq::empty(), fetches: Seq::empty(), stopped: false }
    } else {
        let st = image_state(ms, k - 1);
        let m = ms[k - 1];
        let url = group(m, 1);
        if st.stopped || image_excluded(url) || st.seen.contains(url) {
            st
        } else if m.len() > 50 {
            ImageState { seen: st.seen.push(url), fetches: st.fetches, stopped: true }
        } else {
            ImageState {
                seen: st.seen.push(url),
                fetches: st.fetches.push((url, image_kind(url))),
                stopped: false,
            }
        }
    }
}

fn image_excluded_exec(url: &str) -> (b: bool)
    ensures
        b == image_excluded(url@),
{
    url.is_empty() || str_contains(url, ".css") || str_contains(url, "data:image") || str_contains(
        url,
        "media.discordapp",
    ) || str_contains(url, "cdn.discordapp") || str_contains(url, "discord.com/assets")
        || str_contains(url, "fonts.gstatic.com")
}

fn image_kind_exec(url: &str) -> (k: String)
    ensures
        k@ == image_kind(url@),
{
    let v = chars_of(url);
    let start = after_last_index(&v, '.');
    let ext = subrange_string(&v, start, v.len());
    if str_eq(ext.as_str(), "svg") {
        String::from_str("svg+xml")
    } else {
        ext
    }
}

/// What to do with the images or fonts of a stylesheet.
#[derive(Clone, Debug, PartialEq, Eq)]
pub enum MediaPlan {
    /// There are `count` matches, too many: they are left alone.
    TooMany { count: usize },
    /// Fetch these, in order.
    Fetch(Vec<MediaFetch>),
}

/// Plans the inlining of the web images of `css`: `TooMany` when the
/// stylesheet has more than 50 image matches (images are then left alone),
/// else the images to fetch, in order; `Err` when the image pattern does not
/// compile.
pub fn plan_images(css: &str) -> (r: Result<MediaPlan, ()>)
    ensures
        r is Ok <==> regex_compiles(IMAGE_PATTERN@),
        match r {
            Ok(MediaPlan::TooMany { count }) => count == regex_captures(IMAGE_PATTERN@, css@).len()
                && count > 50,
            Ok(MediaPlan::Fetch(f)) => {
                let ms = regex_captures(IMAGE_PATTERN@, css@);
                &&& ms.len() <= 50
                &&& media_view(f@) == image_state(ms, ms.len() as int).fetches
            },
            Err(()) => true,
        },
{
    match captures_all(IMAGE_PATTERN, css) {
        Some(ms) => Ok(plan_images_from(&ms)),
        None => Err(()),
    }
}

/// Plans the inlining of web images from the matches `ms` of the image
/// pattern in a stylesheet: their number when there are more than 50, else
/// the images to fetch, in order.
pub fn plan_images_from(ms: &Vec<Vec<Option<String>>>) -> (r: MediaPlan)
    ensures
        match r {
            MediaPlan::TooMany { count } => count == ms@.len() && count > 50,
            MediaPlan::Fetch(f) => ms@.len() <= 50 && media_view(f@) == image_state(
                captures_view(ms@),
                ms@.len() as int,
            ).fetches,
        },
{
    let ghost msv = captures_view(ms@);
    assert(msv.len() == ms@.len());
    if ms.len() > 50 {
        return MediaPlan::TooMany { count: ms.len() };
    }
    let mut seen: Vec<String> = Vec::new();
    let mut fetches: Vec<MediaFetch> = Vec::new();
    let mut k: usize = 0;
    while k < ms.len()
        invariant
            msv == captures_view(ms@),
            msv.len() == ms@.len(),
            k <= ms@.len(),
            ({
                let st = image_state(msv, k as int);
                &&& !st.stopped
                &&& texts(seen@) == st.seen
                &&& media_view(fetches@) == st.fetches
            }),
        ensures
            media_view(fetches@) == image_state(msv, msv.len() as int).fetches,
        decreases ms@.len() - k,
    {
        assert(msv[k as int] == groups_view(ms@[k as int]@));
        let url = group_exec(&ms[k], 1);
        if image_excluded_exec(url.as_str()) || seen_contains(&seen, url.as_str()) {
        } else if ms[k].len() > 50 {
            proof {
                lemma_image_state_stopped(msv, k + 1, msv.len() as int);
            }
            break;
        } else {
            let ghost s0 = seen@;
            let ghost f0 = fetches@;
            let kind = image_kind_exec(url.as_str());
            let u2 = url.clone();
            seen.push(url);
            fetches.push(MediaFetch { url: u2, kind });
            assert(texts(seen@) =~= texts(s0).push(seen@.last()@));
            assert(media_view(fetches@) =~= media_view(f0).push(
                (fetches@.last().url@, fetches@.last().kind@),
            ));
        }
        k = k + 1;
    }
    MediaPlan::Fetch(fetches)
}

/// Once image planning has stopped, later matches change nothing.
proof fn lemma_image_state_stopped(ms: Seq<Seq<Option<Seq<char>>>>, i: int, j: int)
    requires
        0 < i <= j,
        image_state(ms, i).stopped,
    ensures
        image_state(ms, j) == image_state(ms, i),
    decreases j - i,
{
    if i < j {
        lemma_image_state_stopped(ms, i, j - 1);
    }
}

/// Fonts that are never inlined: empty addresses and Discord's own or
/// Google's font hosts.
pub open spec fn font_excluded(url: Seq<char>) -> bool {
    ||| url.len() == 0
    ||| contains(url, "cdn.discordapp"@)
    ||| contains(url, "discord.com/assets"@)
    ||| contains(url, "fonts.gstatic.com"@)
}

/// The fonts to fetch from the first `k` matches: for each match whose
/// address (group 1) is not excluded, the address with its extension
/// (group 2) put back, and the extension as the font type.
pub open spec fn font_fetches(ms: Seq<Seq<Option<Seq<char>>>>, k: int) -> Seq<(Seq<char>, Seq<char>)>
    decreases k,
{
    if k <= 0 {
        Seq::empty()
    } else {
        let l = font_fetches(ms, k - 1);
        let m = ms[k - 1];
        if font_excluded(group(m, 1)) {
            l
        } else {
            l.push((group(m, 1) + "."@ + group(m, 2), group(m, 2)))
        }
    }
}

/// Plans the inlining of the web fonts of `css`: `TooMany` when the
/// stylesheet has more than 50 font matches (fonts are then left alone),
/// else the fonts to fetch, in order; `Err` when the font pattern does not
/// compile.
pub fn plan_fonts(css: &str) -> (r: Result<MediaPlan, ()>)
    ensures
        r is Ok <==> regex_compiles(FONT_PATTERN@),
        match r {
            Ok(MediaPlan::TooMany { count }) => count == regex_captures(FONT_PATTERN@, css@).len()
                && count > 50,
            Ok(MediaPlan::Fetch(f)) => {
                let ms = regex_captures(FONT_PATTERN@, css@);
                &&& ms.len() <= 50
                &&& media_view(f@) == font_fetches(ms, ms.len() as int)
            },
            Err(()) => true,
        },
{
    match captures_all(FONT_PATTERN, css) {
        Some(ms) => Ok(plan_fonts_from(&ms)),
        None => Err(()),
    }
}

/// Plans the inlining of web fonts from the matches `ms` of the font
/// pattern in a stylesheet: their number when there are more than 50, else
/// the fonts to fetch, in order.
pub fn plan_fonts_from(ms: &Vec<Vec<Option<String>>>) -> (r: MediaPlan)
    ensures
        match r {
            MediaPlan::TooMany { count } => count == ms@.len() && count > 50,
            MediaPlan::Fetch(f) => ms@.len() <= 50 && media_view(f@) == font_fetches(
                captures_view(ms@),
                ms@.len() as int,
            ),
        },
{
    let ghost msv = captures_view(ms@);
    assert(msv.len() == ms@.len());
    if ms.len() > 50 {
        return MediaPlan::TooMany { count: ms.len() };
    }
    let mut fetches: Vec<MediaFetch> = Vec::new();
    for k in 0..ms.len()
        invariant
            msv == captures_view(ms@),
            msv.len() == ms@.len(),
            media_view(fetches@) == font_fetches(msv, k as int),
    {
        assert(msv[k as int] == groups_view(ms@[k as int]@));
        let url = group_exec(&ms[k], 1);
        let kind = group_exec(&ms[k], 2);
        let excluded = url.as_str().is_empty() || str_contains(url.as_str(), "cdn.discordapp")
            || str_contains(url.as_str(), "discord.com/assets") || str_contains(
            url.as_str(),
            "fonts.gstatic.com",
        );
        if !excluded {
            let ghost f0 = fetches@;
            let mut full = concat2(url.as_str(), ".");
            append_str(&mut full, kind.as_str());
            fetches.push(MediaFetch { url: full, kind });
            assert(media_view(fetches@) =~= media_view(f0).push(
                (fetches@.last().url@, fetches@.last().kind@),
            ));
        }
    }
    MediaPlan::Fetch(fetches)
}

/// `css` after replacing, in order, every occurrence of each `from` by its
/// `to` (the first `k` pairs).
pub open spec fn replaced_in_order(css: Seq<char>, reps: Seq<(Seq<char>, Seq<char>)>, k: int) -> Seq<
    char,
>
    decreases k,
{
    if k <= 0 {
        css
    } else {
        replace_all(replaced_in_order(css, reps, k - 1), reps[k - 1].0, reps[k - 1].1)
    }
}

/// Splices fetched contents into a stylesheet: each (address or rule,
/// contents) pair in turn has every occurrence of its first text replaced
/// by its second.
pub fn apply_replacements(css: &str, reps: &Vec<(String, String)>) -> (r: String)
    ensures
        r@ == replaced_in_order(
            css@,
            reps@.map_values(|p: (String, String)| (p.0@, p.1@)),
            reps@.len() as int,
        ),
{
    let ghost rv = reps@.map_values(|p: (String, String)| (p.0@, p.1@));
    let mut out = String::from_str(css);
    for k in 0..reps.len()
        invariant
            rv == reps@.map_values(|p: (String, String)| (p.0@, p.1@)),
            out@ == replaced_in_order(css@, rv, k as int),
    {
        out = replace_all_str(out.as_str(), reps[k].0.as_str(), reps[k].1.as_str());
    }
    out
}

/// The alphabet of standard base64: 'A'..'Z', 'a'..'z', '0'..'9', '+', '/'.
pub open spec fn b64_digit(v: int) -> char {
    if v < 26 {
        (65 + v) as char
    } else if v < 52 {
        (97 + v - 26) as char
    } else if v < 62 {
        (48 + v - 52) as char
    } else if v == 62 {
        '+'
    } else {
        '/'
    }
}

/// The standard base64 encoding (RFC 4648, with '=' padding) of `b`: each
/// group of three bytes, read as a 24-bit big-endian number, gives four
/// characters of six bits each; a last group of one or two bytes is padded
/// with zero bits and completed with "==" or "=".
pub open spec fn base64_standard(b: Seq<u8>) -> Seq<char>
    decreases b.len(),
{
    if b.len() == 0 {
        Seq::empty()
    } else if b.len() == 1 {
        let n = b[0] * 65536;
        seq![b64_digit(n / 262144 % 64), b64_digit(n / 4096 % 64), '=', '=']
    } else if b.len() == 2 {
        let n = b[0] * 65536 + b[1] * 256;
        seq![b64_digit(n / 262144 % 64), b64_digit(n / 4096 % 64), b64_digit(n / 64 % 64), '=']
    } else {
        let n = b[0] * 65536 + b[1] * 256 + b[2];
        seq![
            b64_digit(n / 262144 % 64),
            b64_digit(n / 4096 % 64),
            b64_digit(n / 64 % 64),
            b64_digit(n % 64),
        ] + base64_standard(b.subrange(3, b.len() as int))
    }
}

/// Encodes `bytes` with the `base64` crate's standard engine
/// (`general_purpose::STANDARD`): the standard alphabet, with padding.
#[verifier::external_body]
pub(crate) fn base64_encode(bytes: &[u8]) -> (r: String)
    ensures
        r@ == base64_standard(bytes@),
{
    base64::Engine::encode(&base64::engine::general_purpose::STANDARD, bytes)
}

/// The data URI that inlines an image of type `kind` with contents `bytes`.
pub fn image_data_uri(kind: &str, bytes: &[u8]) -> (r: String)
    ensures
        r@ == "data:image/"@ + kind@ + ";base64,"@ + base64_standard(bytes@),
{
    let mut r = String::from_str("data:image/");
    append_str(&mut r, kind);
    append_str(&mut r, ";base64,");
    let b = base64_encode(bytes);
    append_str(&mut r, b.as_str());
    r
}

/// The data URI that inlines a font of type `kind` with contents `bytes`.
pub fn font_data_uri(kind: &str, bytes: &[u8]) -> (r: String)
    ensures
        r@ == "data:font/"@ + kind@ + ";charset=utf-8;base64,"@ + base64_standard(bytes@),
{
    let mut r = String::from_str("data:font/");
    append_str(&mut r, kind);
    append_str(&mut r, ";charset=utf-8;base64,");
    let b = base64_encode(bytes);
    append_str(&mut r, b.as_str());
    r
}

/// Whether localized styles are cached: yes unless the configuration turns
/// it off.
pub fn should_cache_css(config: &Config) -> (b: bool)
    ensures
        b == (config.cache_css != Some(false)),
{
    match config.cache_css {
        Some(b) => b,
        None => true,
    }
}

/// The cache file of the localized styles of the theme `name`.
pub fn css_cache_file_name(name: &str) -> (f: String)
    ensures
        f@ == name@ + "_cache.css"@,
{
    concat2(name, "_cache.css")
}

} // verus!
