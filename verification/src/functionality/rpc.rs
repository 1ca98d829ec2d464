//! Rich presence: the local server's settings, the games that the user
//! adds by hand, and the windows offered to pick them from.
use vstd::prelude::*;
use crate::config::Config;
use crate::functionality::window::{switch, switch_value};
use crate::platform::Platform;
use crate::text::{concat2, decimal, decimal_string, str_eq};

verus! {

broadcast use vstd::string::group_string_axioms;

/// The parts of the rich presence server that can be turned off.
#[derive(PartialEq, Eq, Structural, Clone, Copy, Debug)]
pub struct RpcSettings {
    pub enable_process_scanner: bool,
    pub enable_ipc_connector: bool,
    pub enable_websocket_connector: bool,
    pub enable_secondary_events: bool,
}

/// The server's settings: every part runs unless turned off.
pub fn rpc_settings(config: &Config) -> (s: RpcSettings)
    ensures
        s.enable_process_scanner == switch(config.rpc_process_scanner, true),
        s.enable_ipc_connector == switch(config.rpc_ipc_connector, true),
        s.enable_websocket_connector == switch(config.rpc_websocket_connector, true),
        s.enable_secondary_events == switch(config.rpc_secondary_events, true),
{
    RpcSettings {
        enable_process_scanner: switch_value(config.rpc_process_scanner, true),
        enable_ipc_connector: switch_value(config.rpc_ipc_connector, true),
        enable_websocket_connector: switch_value(config.rpc_websocket_connector, true),
        enable_secondary_events: switch_value(config.rpc_secondary_events, true),
    }
}

/// Whether the rich presence server is started.
pub fn rpc_server_enabled(config: &Config) -> (b: bool)
    ensures
        b == switch(config.rpc_server, false),
{
    switch_value(config.rpc_server, false)
}

/// A program by which a game is recognised.
#[derive(Clone, Debug, PartialEq, Eq)]
pub struct Executable {
    pub name: String,
    pub is_launcher: bool,
    pub os: String,
    pub arguments: Option<String>,
}

/// A game that the server recognises when one of its programs runs.
#[derive(Clone, Debug, PartialEq, Eq)]
pub struct DetectableActivity {
    pub bot_public: bool,
    pub bot_require_code_grant: bool,
    pub description: String,
    pub executables: Option<Vec<Executable>>,
    pub name: String,
    pub flags: u64,
    pub hook: bool,
    pub id: String,
    pub summary: String,
    pub activity_type: u64,
}

/// Whether `d` has the details of the empty game that added games start
/// from, whatever its name and programs.
pub open spec fn has_blank_details(d: DetectableActivity) -> bool {
    &&& d.bot_public
    &&& !d.bot_require_code_grant
    &&& d.description@ == Seq::<char>::empty()
    &&& d.flags == 0
    &&& d.hook
    &&& d.id@ == "1337"@
    &&& d.summary@ == Seq::<char>::empty()
    &&& d.activity_type == 1
}

/// Whether `d` is the empty game that added games start from.
pub open spec fn is_blank(d: DetectableActivity) -> bool {
    &&& has_blank_details(d)
    &&& d.executables matches Some(v) && v@.len() == 0
    &&& d.name@ == Seq::<char>::empty()
}

/// The empty game that added games start from.
pub fn blank_activity() -> (d: DetectableActivity)
    ensures
        is_blank(d),
{
    DetectableActivity {
        bot_public: true,
        bot_require_code_grant: false,
        description: String::new(),
        executables: Some(Vec::new()),
        name: String::new(),
        flags: 0,
        hook: true,
        id: String::from_str("1337"),
        summary: String::new(),
        activity_type: 1,
    }
}

/// The operating system's name in a game's program list.
pub open spec fn executable_os(p: Platform) -> Seq<char> {
    match p {
        Platform::Windows => "win32"@,
        Platform::Linux => "linux"@,
        Platform::MacOS => "darwin"@,
    }
}

fn executable_os_string(p: Platform) -> (s: String)
    ensures
        s@ == executable_os(p),
{
    match p {
        Platform::Windows => String::from_str("win32"),
        Platform::Linux => String::from_str("linux"),
        Platform::MacOS => String::from_str("darwin"),
    }
}

/// The game that an "add_detectable" request for the game `name` run by
/// the program `exe` adds on platform `p`: none when either is empty
/// (also when the request could not be read, which gives both empty);
/// otherwise the empty game with that name and that one program, not a
/// launcher and without arguments.
pub fn detectable_to_add(name: &str, exe: &str, p: Platform) -> (d: Option<DetectableActivity>)
    ensures
        d is None <==> (name@.len() == 0 || exe@.len() == 0),
        d matches Some(a) ==> {
            &&& a.name@ == name@
            &&& a.executables matches Some(v) && v@.len() == 1 && v@[0].name@ == exe@
                && !v@[0].is_launcher && v@[0].os@ == executable_os(p) && v@[0].arguments is None
            &&& has_blank_details(a)
        },
{
    if name.is_empty() || exe.is_empty() {
        return None;
    }
    let mut d = blank_activity();
    let mut v: Vec<Executable> = Vec::new();
    v.push(
        Executable {
            name: String::from_str(exe),
            is_launcher: false,
            os: executable_os_string(p),
            arguments: None,
        },
    );
    d.executables = Some(v);
    d.name = String::from_str(name);
    Some(d)
}

/// The games saved by hand, with `added` appended after them.
pub fn append_to_local(local: Vec<DetectableActivity>, added: Vec<DetectableActivity>) -> (r: Vec<
    DetectableActivity,
>)
    ensures
        r@ == local@ + added@,
{
    let mut r = local;
    let mut rest = added;
    r.append(&mut rest);
    r
}

/// Whether the game `d` is kept when the game named `name` is removed.
pub open spec fn kept(d: DetectableActivity, name: Seq<char>) -> bool {
    d.name@ != name
}

/// The games of `local` that are kept when the game `name` is removed.
pub open spec fn without_game(local: Seq<DetectableActivity>, name: Seq<char>) -> Seq<
    DetectableActivity,
> {
    local.filter(|d: DetectableActivity| kept(d, name))
}

/// The games saved by hand after a "remove_detectable" request for the
/// game `name`: none to write when the name is empty (also when the request
/// could not be read); otherwise every game of another name, in order.
pub fn remove_detectable(local: Vec<DetectableActivity>, name: &str) -> (r: Option<
    Vec<DetectableActivity>,
>)
    ensures
        r is None <==> name@.len() == 0,
        r matches Some(v) ==> v@ == without_game(local@, name@),
{
    if name.is_empty() {
        return None;
    }
    let ghost orig = local@;
    assert(orig.len() == local.len());
    let ghost pred = |d: DetectableActivity| kept(d, name@);
    let mut rest = local;
    let mut out: Vec<DetectableActivity> = Vec::new();
    let mut k: usize = 0;
    while rest.len() > 0
        invariant
            k <= orig.len() <= usize::MAX,
            rest@ == orig.skip(k as int),
            out@ == orig.take(k as int).filter(pred),
            pred == (|d: DetectableActivity| kept(d, name@)),
        decreases rest.len(),
    {
        let d = rest.remove(0);
        proof {
            assert(orig.take(k + 1).drop_last() =~= orig.take(k as int));
            assert(orig.take(k + 1).last() == d);
            reveal_with_fuel(Seq::filter, 1);
        }
        let keep = !str_eq(d.name.as_str(), name);
        if keep {
            out.push(d);
        }
        k = k + 1;
        assert(rest@ =~= orig.skip(k as int));
    }
    assert(orig.take(k as int) =~= orig);
    Some(out)
}

/// After removing the game `name`, no saved game has that name, and every
/// saved game of another name is still there.
pub proof fn lemma_remove_detectable_keeps_others(local: Seq<DetectableActivity>, name: Seq<char>)
    ensures
        forall|i: int|
            0 <= i < without_game(local, name).len() ==> (#[trigger] without_game(local, name)[i]).name@
                != name,
        forall|i: int|
            0 <= i < local.len() && local[i].name@ != name ==> #[trigger] without_game(
                local,
                name,
            ).contains(local[i]),
{
    let pred = |d: DetectableActivity| kept(d, name);
    assert forall|i: int| 0 <= i < without_game(local, name).len() implies (#[trigger] without_game(
        local,
        name,
    )[i]).name@ != name by {
        local.lemma_filter_pred(pred, i);
    }
    assert forall|i: int| 0 <= i < local.len() && local[i].name@ != name implies #[trigger] without_game(
        local,
        name,
    ).contains(local[i]) by {
        local.lemma_filter_contains(pred, i);
    }
}

/// Removing a game right after adding it leaves the saved games of other
/// names as they were before the addition.
pub proof fn lemma_remove_after_add(local: Seq<DetectableActivity>, added: DetectableActivity)
    ensures
        without_game(local + seq![added], added.name@) == without_game(local, added.name@),
{
    let pred = |d: DetectableActivity| kept(d, added.name@);
    Seq::filter_distributes_over_add(local, seq![added], pred);
    reveal_with_fuel(Seq::filter, 2);
    assert(seq![added].drop_last() =~= Seq::<DetectableActivity>::empty());
    assert(seq![added].filter(pred) =~= Seq::<DetectableActivity>::empty());
    assert(local.filter(pred) + Seq::<DetectableActivity>::empty() =~= local.filter(pred));
}

/// The process name shown for a window: the name of its process when that
/// is known, else "Unknown (" followed by the process id and ")".
pub fn window_process_name(process_name: Option<String>, pid: u32) -> (s: String)
    ensures
        s@ == (match process_name {
            Some(n) => n@,
            None => "Unknown ("@ + decimal(pid as nat) + ")"@,
        }),
{
    match process_name {
        Some(n) => n,
        None => {
            let mut s = concat2("Unknown (", decimal_string(pid as u64).as_str());
            crate::text::append_str(&mut s, ")");
            s
        },
    }
}

/// A window that can be picked as a game.
#[derive(Clone, Debug, PartialEq, Eq)]
pub struct Window {
    pub title: String,
    pub process_name: String,
    pub pid: u32,
}

/// The window titled `title` of the process `pid`, named as
/// `window_process_name` says.
pub fn window_entry(title: String, process_name: Option<String>, pid: u32) -> (w: Window)
    ensures
        w.title == title,
        w.pid == pid,
        w.process_name@ == (match process_name {
            Some(n) => n@,
            None => "Unknown ("@ + decimal(pid as nat) + ")"@,
        }),
{
    Window { title, process_name: window_process_name(process_name, pid), pid }
}

} // verus!
