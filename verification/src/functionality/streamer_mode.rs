//! Streamer mode: turning it on while a streaming program runs.
use vstd::prelude::*;
use crate::config::Config;
use crate::text::{chars_of, contains, vec_contains};

verus! {

broadcast use vstd::string::group_string_axioms;

/// `c` with ASCII capitals made lowercase (`char::to_ascii_lowercase`).
pub open spec fn ascii_lower(c: char) -> char {
    if 'A' <= c && c <= 'Z' {
        ((c as u32) + 32) as char
    } else {
        c
    }
}

/// `s` with ASCII capitals made lowercase (`str::to_ascii_lowercase`).
pub open spec fn ascii_lowercase(s: Seq<char>) -> Seq<char> {
    s.map_values(|c: char| ascii_lower(c))
}

fn ascii_lower_exec(c: char) -> (r: char)
    ensures
        r == ascii_lower(c),
{
    if 'A' <= c && c <= 'Z' {
        let n = (c as u32) + 32;
        assert(65 + 32 <= n <= 90 + 32);
        char_from_ascii(n as u8)
    } else {
        c
    }
}

fn char_from_ascii(b: u8) -> (c: char)
    requires
        b < 128,
    ensures
        c == b as char,
{
    b as char
}

/// Whether a process named `name` is a streaming program: OBS (64-bit) or
/// Streamlabs, in any ASCII case.
pub open spec fn is_streaming_process_name(name: Seq<char>) -> bool {
    contains(ascii_lowercase(name), "obs64"@) || contains(ascii_lowercase(name), "streamlabs"@)
}

/// Whether the process named `name` is a streaming program.
pub fn is_streaming_process(name: &str) -> (b: bool)
    ensures
        b == is_streaming_process_name(name@),
{
    let v = chars_of(name);
    let mut low: Vec<char> = Vec::new();
    for i in 0..v.len()
        invariant
            v@ == name@,
            low@ == ascii_lowercase(v@.take(i as int)),
    {
        low.push(ascii_lower_exec(v[i]));
        assert(ascii_lowercase(v@.take(i + 1)) =~= ascii_lowercase(v@.take(i as int)).push(
            ascii_lower(v@[i as int]),
        ));
    }
    assert(v@.take(v.len() as int) =~= v@);
    let obs = chars_of("obs64");
    let slabs = chars_of("streamlabs");
    vec_contains(&low, &obs) || vec_contains(&low, &slabs)
}

/// Whether streamer mode follows the streaming programs.
pub fn streamer_mode_detection_enabled(config: &Config) -> (b: bool)
    ensures
        b == (config.streamer_mode_detection == Some(true)),
{
    match config.streamer_mode_detection {
        Some(b) => b,
        None => false,
    }
}

/// One check of the streamer-mode watcher: whether a streaming program was
/// found open at the last check (`obs_open`) and whether one runs now
/// (`obs_running`) give what is recorded for the next check, and the
/// streamer-mode toggle to send, if any.
pub open spec fn streamer_step(obs_open: bool, obs_running: bool) -> (bool, Option<bool>) {
    (obs_running, if obs_running != obs_open {
        Some(obs_running)
    } else {
        None
    })
}

/// One check of the streamer-mode watcher (see `streamer_step`).
pub fn streamer_mode_step(obs_open: bool, obs_running: bool) -> (r: (bool, Option<bool>))
    ensures
        r == streamer_step(obs_open, obs_running),
{
    if obs_running {
        if !obs_open {
            (true, Some(true))
        } else {
            (true, None)
        }
    } else {
        if obs_open {
            (false, Some(false))
        } else {
            (false, None)
        }
    }
}

/// Whether a streaming program is among the running processes `names`.
pub fn any_streaming_process(names: &Vec<String>) -> (b: bool)
    ensures
        b == exists|i: int| 0 <= i < names@.len() && is_streaming_process_name(#[trigger] names@[i]@),
{
    for i in 0..names.len()
        invariant
            forall|j: int| 0 <= j < i ==> !is_streaming_process_name(#[trigger] names@[j]@),
    {
        if is_streaming_process(names[i].as_str()) {
            return true;
        }
    }
    false
}

/// The watcher sends a toggle exactly when the recorded state changes, and
/// the toggle is the new state; so the toggles it sends alternate between
/// on and off, and it never sends the same one twice in a row.
pub proof fn lemma_streamer_toggles_alternate(obs_open: bool, obs_running: bool)
    ensures
        streamer_step(obs_open, obs_running).1 is Some <==> streamer_step(obs_open, obs_running).0
            != obs_open,
        streamer_step(obs_open, obs_running).1 matches Some(t) ==> t == streamer_step(
            obs_open,
            obs_running,
        ).0 && t != obs_open,
{
}

} // verus!
