//! The target dialect of a generated script, and how the `-o` argument
//! names it.

use vstd::prelude::*;
use crate::errors::HelpMessage;

verus! {

/// The command dialect a generated script targets: a PowerShell session
/// on Windows, or a shell in a terminal on Unix.
#[derive(Clone, Copy, PartialEq, Eq, Structural, Debug)]
pub enum TargetOs {
    Windows,
    Unix,
}

/// The code point of `c`, with the ASCII upper-case letters folded to
/// lower case.
pub open spec fn lower_code(c: char) -> int {
    if 65 <= c as int && c as int <= 90 {
        c as int + 32
    } else {
        c as int
    }
}

/// Character-for-character equality of `a` and `b`, up to ASCII case.
pub open spec fn spec_eq_ignore_ascii_case(a: Seq<char>, b: Seq<char>) -> bool {
    &&& a.len() == b.len()
    &&& forall|i: int| 0 <= i < a.len() ==> lower_code(a[i]) == lower_code(b[i])
}

/// Which target dialect, if any, the text `s` names, case-insensitively.
pub open spec fn spec_target_os(s: Seq<char>) -> Option<TargetOs> {
    if spec_eq_ignore_ascii_case(s, "windows"@) {
        Some(TargetOs::Windows)
    } else if spec_eq_ignore_ascii_case(s, "unix"@) {
        Some(TargetOs::Unix)
    } else {
        None
    }
}

fn lower_code_exec(c: char) -> (r: u32)
    ensures
        r as int == lower_code(c),
{
    let u = c as u32;
    if 65 <= u && u <= 90 {
        u + 32
    } else {
        u
    }
}

/// Whether `a` and `b` hold the same characters, up to ASCII case.
pub fn str_eq_ignore_ascii_case(a: &str, b: &str) -> (r: bool)
    ensures
        r == spec_eq_ignore_ascii_case(a@, b@),
{
    let a_len = a.unicode_len();
    let b_len = b.unicode_len();
    if a_len != b_len {
        return false;
    }
    for i in 0..a_len
        invariant
            a_len == a@.len(),
            a_len == b@.len(),
            forall|j: int| 0 <= j < i ==> lower_code(a@[j]) == lower_code(b@[j]),
    {
        let ca = a.get_char(i);
        let cb = b.get_char(i);
        if lower_code_exec(ca) != lower_code_exec(cb) {
            return false;
        }
    }
    true
}

/// Reads an `-o` argument: `"windows"` and `"unix"`, in any mix of ASCII
/// case, name the two dialects; everything else names none.
pub fn parse_target_os(s: &str) -> (r: Option<TargetOs>)
    ensures
        r == spec_target_os(s@),
{
    if str_eq_ignore_ascii_case(s, "windows") {
        Some(TargetOs::Windows)
    } else if str_eq_ignore_ascii_case(s, "unix") {
        Some(TargetOs::Unix)
    } else {
        None
    }
}

/// Like [`parse_target_os`], but text that names no dialect becomes the
/// error that the surrounding program reports for a bad `-o` argument.
pub fn target_os_or_err(s: &str) -> (r: Result<TargetOs, HelpMessage>)
    ensures
        spec_target_os(s@) matches Some(t) ==> r == Ok::<TargetOs, HelpMessage>(t),
        spec_target_os(s@) is None ==> r == Err::<TargetOs, HelpMessage>(HelpMessage::WrongArgOS),
{
    match parse_target_os(s) {
        Some(t) => Ok(t),
        None => Err(HelpMessage::WrongArgOS),
    }
}

} // verus!
