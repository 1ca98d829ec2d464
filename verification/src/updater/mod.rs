//! The updater: a helper program that the client starts to replace itself
//! with its latest release.
pub mod github;

use vstd::prelude::*;
use crate::platform::Platform;
use crate::text::{ends_with, contains, str_contains, str_ends_with, starts_with, texts};
use crate::updater::github::{download_release, release_download_url, ReleaseData};

verus! {

broadcast use vstd::string::group_string_axioms;

/// The updater's options.
#[derive(PartialEq, Eq, Structural, Clone, Copy, Debug)]
pub struct UpdaterArguments {
    /// Update the client itself ("--main").
    pub main: bool,
    /// The client is a portable install ("--local").
    pub local: bool,
}

/// Takes the flag `flag` out of the command line `args`, as
/// `pico_args::Arguments::contains` does: says whether an argument equals
/// the flag, and removes the first such argument.
#[verifier::external_body]
fn take_flag(args: &mut Vec<String>, flag: &'static str) -> (found: bool)
    requires
        flag@.len() > 2,
        starts_with(flag@, "--"@),
    ensures
        found == texts(old(args)@).contains(flag@),
        found ==> exists|i: int|
            0 <= i < old(args)@.len() && texts(old(args)@)[i] == flag@ && (forall|j: int|
                0 <= j < i ==> texts(old(args)@)[j] != flag@) && texts(final(args)@) == texts(
                old(args)@,
            ).remove(i),
        !found ==> texts(final(args)@) == texts(old(args)@),
{
    let mut parser = pico_args::Arguments::from_vec(args.drain(..).map(|a| a.into()).collect());
    let found = parser.contains(flag);
    *args = parser.finish().into_iter().map(|a| a.to_string_lossy().into_owned()).collect();
    found
}

proof fn lemma_remove_keeps_other(s: Seq<Seq<char>>, i: int, x: Seq<char>)
    requires
        0 <= i < s.len(),
        s[i] != x,
    ensures
        s.remove(i).contains(x) == s.contains(x),
{
    if s.contains(x) {
        let k = choose|k: int| 0 <= k < s.len() && s[k] == x;
        if k < i {
            assert(s.remove(i)[k] == x);
        } else {
            assert(s.remove(i)[k - 1] == x);
        }
    }
    if s.remove(i).contains(x) {
        let k = choose|k: int| 0 <= k < s.remove(i).len() && s.remove(i)[k] == x;
        if k < i {
            assert(s[k] == x);
        } else {
            assert(s[k + 1] == x);
        }
    }
}

/// The updater's options from its command line (without the program's
/// name): whether "--main" and "--local" are among the arguments.
pub fn parse_arguments(argv: Vec<String>) -> (a: UpdaterArguments)
    ensures
        a.main == texts(argv@).contains("--main"@),
        a.local == texts(argv@).contains("--local"@),
{
    proof {
        reveal_strlit("--main");
        reveal_strlit("--local");
        reveal_strlit("--");
    }
    assert(starts_with("--main"@, "--"@)) by {
        assert("--main"@.subrange(0, 2) =~= "--"@);
    }
    assert(starts_with("--local"@, "--"@)) by {
        assert("--local"@.subrange(0, 2) =~= "--"@);
    }
    let ghost orig = texts(argv@);
    let mut args = argv;
    let main = take_flag(&mut args, "--main");
    assert("--main"@ != "--local"@) by {
        assert("--main"@[2] != "--local"@[2]);
    }
    proof {
        if main {
            let i = choose|i: int|
                0 <= i < orig.len() && orig[i] == "--main"@ && (forall|j: int|
                    0 <= j < i ==> orig[j] != "--main"@) && texts(args@) == orig.remove(i);
            lemma_remove_keeps_other(orig, i, "--local"@);
        }
    }
    let local = take_flag(&mut args, "--local");
    UpdaterArguments { main, local }
}

/// What the updater does.
#[derive(PartialEq, Eq, Structural, Clone, Copy, Debug)]
pub enum UpdaterAction {
    /// Nothing was asked for.
    Nothing,
    /// Install the latest release (`update_main`).
    UpdateMain,
    /// Download the latest portable release and show it (`update_main_kinda`).
    UpdateMainKinda,
}

/// What the updater does for the options `args` on platform `p`: a
/// portable install on Windows gets the portable archive; otherwise the
/// installer runs when the client itself is to be updated.
pub fn updater_action(args: UpdaterArguments, p: Platform) -> (a: UpdaterAction)
    ensures
        a == (if !args.main {
            UpdaterAction::Nothing
        } else if p == Platform::Windows && args.local {
            UpdaterAction::UpdateMainKinda
        } else {
            UpdaterAction::UpdateMain
        }),
{
    if !args.main {
        UpdaterAction::Nothing
    } else if p == Platform::Windows && args.local {
        UpdaterAction::UpdateMainKinda
    } else {
        UpdaterAction::UpdateMain
    }
}

/// Which file of a release the updater takes.
#[derive(PartialEq, Eq, Structural, Clone, Copy, Debug)]
pub enum AssetKind {
    /// The Windows installer (".msi").
    Msi,
    /// The portable Windows archive (".zip" with "win64" in its name).
    WindowsZip,
    /// The macOS disk image (".dmg") for Intel (`x64`) or Apple processors.
    Dmg { x64: bool },
}

/// Whether the file named `name` is of the kind `kind`.
pub open spec fn asset_matches(kind: AssetKind, name: Seq<char>) -> bool {
    match kind {
        AssetKind::Msi => ends_with(name, ".msi"@),
        AssetKind::WindowsZip => ends_with(name, ".zip"@) && contains(name, "win64"@),
        AssetKind::Dmg { x64 } => ends_with(name, ".dmg"@) && contains(
            name,
            if x64 {
                "x64"@
            } else {
                "aarch64"@
            },
        ),
    }
}

/// The first of `names` of the kind `kind`; empty when there is none.
pub open spec fn first_asset(names: Seq<Seq<char>>, kind: AssetKind) -> Seq<char>
    decreases names.len(),
{
    if names.len() == 0 {
        Seq::empty()
    } else if asset_matches(kind, names[0]) {
        names[0]
    } else {
        first_asset(names.drop_first(), kind)
    }
}

/// The file the updater takes is of the asked kind and among the release's
/// files whenever the release has such a file; otherwise the updater takes
/// nothing (the empty name).
pub proof fn lemma_first_asset_is_of_kind(names: Seq<Seq<char>>, kind: AssetKind)
    ensures
        (exists|i: int| 0 <= i < names.len() && asset_matches(kind, #[trigger] names[i])) ==> {
            &&& asset_matches(kind, first_asset(names, kind))
            &&& names.contains(first_asset(names, kind))
        },
        (forall|i: int| 0 <= i < names.len() ==> !asset_matches(kind, #[trigger] names[i]))
            ==> first_asset(names, kind) == Seq::<char>::empty(),
    decreases names.len(),
{
    if names.len() > 0 {
        let rest = names.drop_first();
        lemma_first_asset_is_of_kind(rest, kind);
        if !asset_matches(kind, names[0]) {
            if exists|i: int| 0 <= i < names.len() && asset_matches(kind, #[trigger] names[i]) {
                let i = choose|i: int| 0 <= i < names.len() && asset_matches(kind, #[trigger] names[i]);
                assert(rest[i - 1] == names[i]);
                let f = first_asset(rest, kind);
                let j = choose|j: int| 0 <= j < rest.len() && rest[j] == f;
                assert(names[j + 1] == f);
            }
            assert forall|i: int| 0 <= i < rest.len() && (forall|m: int| 0 <= m < names.len() ==> !asset_matches(kind, #[trigger] names[m])) implies !asset_matches(kind, #[trigger] rest[i]) by {
                assert(rest[i] == names[i + 1]);
            }
        } else {
            assert(names[0] == first_asset(names, kind));
        }
    }
}

fn asset_matches_exec(kind: AssetKind, name: &str) -> (b: bool)
    ensures
        b == asset_matches(kind, name@),
{
    match kind {
        AssetKind::Msi => str_ends_with(name, ".msi"),
        AssetKind::WindowsZip => str_ends_with(name, ".zip") && str_contains(name, "win64"),
        AssetKind::Dmg { x64 } => {
            let arch = if x64 {
                "x64"
            } else {
                "aarch64"
            };
            str_ends_with(name, ".dmg") && str_contains(name, arch)
        },
    }
}

/// The name of the file of the kind `kind` among `names`: the first one;
/// empty when there is none.
pub fn select_asset(names: &Vec<String>, kind: AssetKind) -> (s: String)
    ensures
        s@ == first_asset(texts(names@), kind),
{
    let ghost all = texts(names@);
    assert(all.skip(0) =~= all);
    for i in 0..names.len()
        invariant
            all == texts(names@),
            first_asset(all, kind) == first_asset(all.skip(i as int), kind),
    {
        assert(all.skip(i as int).drop_first() =~= all.skip(i + 1));
        assert(all.skip(i as int)[0] == all[i as int]);
        if asset_matches_exec(kind, names[i].as_str()) {
            return names[i].clone();
        }
    }
    assert(all.skip(names.len() as int) =~= Seq::<Seq<char>>::empty());
    String::new()
}

/// How an update is finished once its file is downloaded.
#[derive(PartialEq, Eq, Structural, Clone, Copy, Debug)]
pub enum FinishStep {
    /// Stop the client and run the Windows installer.
    InstallMsi,
    /// Open the downloaded archive in the file explorer and stop the client.
    RevealZip,
    /// Open the disk image and stop the client.
    OpenDmg,
}

/// An update to perform: the file to download, from where, and what to do
/// with it.
#[derive(Clone, Debug, PartialEq, Eq)]
pub struct MainUpdate {
    pub release_name: String,
    pub url: String,
    pub finish: FinishStep,
}

/// Whether `u` takes the first file of the kind `kind` of the release
/// `release` of the client's repository, and finishes with `finish`.
pub open spec fn is_update_of(u: MainUpdate, release: ReleaseData, kind: AssetKind, finish: FinishStep) -> bool {
    &&& u.release_name@ == first_asset(texts(release.release_names@), kind)
    &&& u.url@ == release_download_url(
        "SpikeHD"@,
        "Dorion"@,
        release.tag_name@,
        first_asset(texts(release.release_names@), kind),
    )
    &&& u.finish == finish
}

fn update_with(release: &ReleaseData, kind: AssetKind, finish: FinishStep) -> (u: MainUpdate)
    ensures
        is_update_of(u, *release, kind, finish),
{
    let name = select_asset(&release.release_names, kind);
    let url = download_release("SpikeHD", "Dorion", release.tag_name.as_str(), name.as_str());
    proof {
        reveal_strlit("SpikeHD");
        reveal_strlit("Dorion");
    }
    MainUpdate { release_name: name, url, finish }
}

/// The update of the client to the latest release `release` on platform
/// `p`: the installer on Windows; the disk image for the processor on
/// macOS (`x64` for Intel); nothing on Linux, where the client cannot tell
/// how it was installed.
pub fn update_main(p: Platform, x64: bool, release: &ReleaseData) -> (u: Option<MainUpdate>)
    ensures
        p == Platform::Linux <==> u is None,
        p == Platform::Windows ==> (u matches Some(m) && is_update_of(
            m,
            *release,
            AssetKind::Msi,
            FinishStep::InstallMsi,
        )),
        p == Platform::MacOS ==> (u matches Some(m) && is_update_of(
            m,
            *release,
            AssetKind::Dmg { x64 },
            FinishStep::OpenDmg,
        )),
{
    match p {
        Platform::Linux => None,
        Platform::Windows => Some(update_with(release, AssetKind::Msi, FinishStep::InstallMsi)),
        Platform::MacOS => Some(update_with(release, AssetKind::Dmg { x64 }, FinishStep::OpenDmg)),
    }
}

/// The update of a portable Windows install to the latest release
/// `release`: its portable archive, shown in the file explorer.
pub fn update_main_kinda(release: &ReleaseData) -> (u: MainUpdate)
    ensures
        is_update_of(u, *release, AssetKind::WindowsZip, FinishStep::RevealZip),
{
    update_with(release, AssetKind::WindowsZip, FinishStep::RevealZip)
}

/// Whether the updater must ask for administrator rights to write into the
/// install folder: when writing a test file there failed.
pub fn needs_to_elevate(test_write_succeeded: bool) -> (b: bool)
    ensures
        b == !test_write_succeeded,
{
    !test_write_succeeded
}

} // verus!
