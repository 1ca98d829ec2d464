//! The command-line options of the client and what they ask for. Parsing
//! the command line is done by the program; the library holds the parsed
//! options.
use vstd::prelude::*;

verus! {

/// The parsed command-line options.
#[derive(Clone, Debug, PartialEq, Eq)]
pub struct Args {
    /// Print usage information.
    pub help: bool,
    /// Disable most additional client mods and features.
    pub safemode: bool,
    /// The client was opened at system startup.
    pub startup: bool,
    /// A proxy to use.
    pub proxy: Option<String>,
    /// (Windows) Fall back to the old way of fetching external resources.
    pub legacy_fetch: bool,
    /// (Windows) Additional arguments for the webview process.
    pub webview_args: String,
}

/// Whether usage information was asked for.
pub fn is_help(args: &Args) -> (b: bool)
    ensures
        b == args.help,
{
    args.help
}

/// Whether the client runs in safe mode.
pub fn is_safemode(args: &Args) -> (b: bool)
    ensures
        b == args.safemode,
{
    args.safemode
}

/// Whether the client was opened at system startup.
pub fn is_startup(args: &Args) -> (b: bool)
    ensures
        b == args.startup,
{
    args.startup
}

/// The proxy given on the command line, if any.
pub fn get_proxy(args: &Args) -> (p: Option<String>)
    ensures
        p == args.proxy,
{
    match &args.proxy {
        Some(p) => Some(p.clone()),
        None => None,
    }
}

/// Whether the legacy way of fetching resources was asked for.
pub fn is_legacy_fetch(args: &Args) -> (b: bool)
    ensures
        b == args.legacy_fetch,
{
    args.legacy_fetch
}

/// The additional webview arguments given on the command line.
pub fn get_webview_args(args: &Args) -> (a: String)
    ensures
        a == args.webview_args,
{
    args.webview_args.clone()
}

} // verus!
