//! The control-socket protocol between a running daemon and a second
//! instance, and the pid file that tells whether a daemon is alive.

use crate::text::{
    decimal, is_white_space, lemma_decimal_digits, lemma_trim_of_solid,
    lemma_trim_unique, is_trim_of, parse_i32, parse_i32_spec, push_decimal, same_text, trim,
    trimmed,
};
use vstd::prelude::*;

verus! {

#[derive(Clone, Copy, Debug, PartialEq, Eq, Structural)]
pub enum IpcCommand {
    OpenPrefs,
}

#[derive(Debug)]
pub enum IpcError {
    Io(std::io::Error),
    /// Another daemon holds the control socket.
    AlreadyRunning,
}

/// The command word a second instance sends.
pub const OPEN_PREFS_WORD: &'static str = "open_prefs";

/// The full request a second instance writes to the socket.
pub const OPEN_PREFS_REQUEST: &'static str = "open_prefs\n";

/// The command a request carries: `OpenPrefs` when the request, trimmed of
/// surrounding white space, is exactly the command word.
pub open spec fn spec_parse_request(text: Seq<char>) -> Option<IpcCommand> {
    if trimmed(text) == OPEN_PREFS_WORD@ {
        Some(IpcCommand::OpenPrefs)
    } else {
        None
    }
}

pub fn parse_request(text: &str) -> (r: Option<IpcCommand>)
    ensures
        r == spec_parse_request(text@),
{
    if same_text(trim(text), OPEN_PREFS_WORD) {
        Some(IpcCommand::OpenPrefs)
    } else {
        None
    }
}

/// The text of a pid file: the process id in decimal.
pub fn pid_file_text(pid: u32) -> (s: String)
    ensures
        s@ == decimal(pid as nat),
{
    let mut s = String::new();
    push_decimal(&mut s, pid as u64);
    s
}

/// The process id recorded in a pid file that is worth probing for
/// liveness: the trimmed content parsed as an `i32`, when positive (no
/// process has an id of zero or below).
pub open spec fn spec_pid_to_probe(content: Seq<char>) -> Option<i32> {
    match parse_i32_spec(trimmed(content)) {
        Some(pid) => if pid > 0 {
            Some(pid)
        } else {
            None
        },
        None => None,
    }
}

pub fn pid_to_probe(content: &str) -> (r: Option<i32>)
    ensures
        r == spec_pid_to_probe(content@),
{
    match parse_i32(trim(content)) {
        Some(pid) => if pid > 0 {
            Some(pid)
        } else {
            None
        },
        None => None,
    }
}

/// What a second instance sends, a running daemon understands as
/// `OpenPrefs`.
pub proof fn open_prefs_request_is_understood()
    ensures
        spec_parse_request(OPEN_PREFS_REQUEST@) == Some(IpcCommand::OpenPrefs),
{
    reveal_strlit("open_prefs\n");
    reveal_strlit("open_prefs");
    let s = OPEN_PREFS_REQUEST@;
    assert(is_trim_of(s, 0, 10));
    let w = OPEN_PREFS_WORD@;
    assert(s.subrange(0, 10) =~= w);
    assert forall|i: int| 0 <= i < w.len() implies !is_white_space(#[trigger] w[i]) by {}
    lemma_trim_of_solid(w);
    let (lo, hi) = choose|lo: int, hi: int| is_trim_of(s, lo, hi);
    lemma_trim_unique(s, 0, 10, lo, hi);
}

/// A daemon's pid file, read back by a second instance, yields the
/// daemon's process id (for every id that fits in an `i32`).
pub proof fn pid_file_round_trip(pid: u32)
    requires
        0 < pid <= 0x7FFF_FFFF,
    ensures
        spec_pid_to_probe(decimal(pid as nat)) == Some(pid as i32),
{
    lemma_decimal_digits(pid as nat);
    let d = decimal(pid as nat);
    assert forall|i: int| 0 <= i < d.len() implies !is_white_space(#[trigger] d[i]) by {
        assert(crate::text::is_digit(d[i]));
    }
    lemma_trim_of_solid(d);
    assert(crate::text::is_digit(d[0]));
}

} // verus!
