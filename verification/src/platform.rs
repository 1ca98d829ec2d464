//! The operating system that the client runs on. The compiled program picks
//! one at build time; the library takes it as a value so that the choices
//! that depend on it are stated and proved for every platform.
use vstd::prelude::*;

verus! {

/// The supported operating systems.
#[derive(PartialEq, Eq, Structural, Clone, Copy, Debug)]
pub enum Platform {
    Windows,
    MacOS,
    Linux,
}

/// The platform's name as the frontend knows it.
pub open spec fn platform_name(p: Platform) -> Seq<char> {
    match p {
        Platform::Windows => "windows"@,
        Platform::MacOS => "macos"@,
        Platform::Linux => "linux"@,
    }
}

/// The name of the platform that the client runs on.
pub fn get_platform(p: Platform) -> (name: &'static str)
    ensures
        name@ == platform_name(p),
{
    match p {
        Platform::Windows => "windows",
        Platform::MacOS => "macos",
        Platform::Linux => "linux",
    }
}

} // verus!
