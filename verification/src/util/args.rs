//! Flags read directly from the raw command line.
use vstd::prelude::*;
use crate::text::{str_eq, texts};

verus! {

broadcast use vstd::string::group_string_axioms;

/// Whether `flag` is one of the arguments `argv`.
pub fn has_flag(argv: &Vec<String>, flag: &str) -> (b: bool)
    ensures
        b == texts(argv@).contains(flag@),
{
    for i in 0..argv.len()
        invariant
            forall|j: int| 0 <= j < i ==> texts(argv@)[j] != flag@,
    {
        if str_eq(argv[i].as_str(), flag) {
            assert(texts(argv@)[i as int] == flag@);
            return true;
        }
    }
    assert forall|j: int| 0 <= j < texts(argv@).len() implies #[trigger] texts(argv@)[j]
        != flag@ by {
    }
    false
}

/// Whether the arguments `argv` ask for safe mode ("--safemode").
pub fn is_safemode(argv: &Vec<String>) -> (b: bool)
    ensures
        b == texts(argv@).contains("--safemode"@),
{
    has_flag(argv, "--safemode")
}

/// Whether the arguments `argv` say the client was opened at startup
/// ("--startup").
pub fn is_startup(argv: &Vec<String>) -> (b: bool)
    ensures
        b == texts(argv@).contains("--startup"@),
{
    has_flag(argv, "--startup")
}

} // verus!
