//! Path separator translation between the host's and the target's
//! conventions, and where per-file output scripts land on the host.

use vstd::prelude::*;
use crate::os::TargetOs;
use crate::text::{push_char, str_eq};

verus! {

/// `s` with every occurrence of `from` replaced by `to`.
pub open spec fn replace_char(s: Seq<char>, from: char, to: char) -> Seq<char> {
    s.map_values(|c: char| if c == from { to } else { c })
}

/// How a source path is rewritten for the target dialect.  `host_os` is
/// the name the running machine's operating system goes by (as in
/// `std::env::consts::OS`): when it already matches the target the path
/// is kept as it is; otherwise slashes become backslashes for a Windows
/// target, and backslashes become slashes for a Unix target.
pub open spec fn spec_adapt_path(path: Seq<char>, target_os: TargetOs, host_os: Seq<char>) -> Seq<char> {
    match target_os {
        TargetOs::Windows => if host_os == "windows"@ {
            path
        } else {
            replace_char(path, '/', '\\')
        },
        TargetOs::Unix => if host_os == "unix"@ {
            path
        } else {
            replace_char(path, '\\', '/')
        },
    }
}

fn replace_char_exec(s: &str, from: char, to: char) -> (r: String)
    ensures
        r@ == replace_char(s@, from, to),
{
    let mut out = String::new();
    let n = s.unicode_len();
    for i in 0..n
        invariant
            n == s@.len(),
            out@ == replace_char(s@.take(i as int), from, to),
    {
        let c = s.get_char(i);
        if c == from {
            push_char(&mut out, to);
        } else {
            push_char(&mut out, c);
        }
        proof {
            assert(out@ =~= replace_char(s@.take(i + 1 as int), from, to));
        }
    }
    proof {
        assert(s@.take(n as int) =~= s@);
    }
    out
}

/// Rewrites `path` so its separators suit `target_os`, leaving it alone
/// when the host already uses that convention.
pub fn adapt_path(path: &str, target_os: TargetOs, host_os: &str) -> (r: String)
    ensures
        r@ == spec_adapt_path(path@, target_os, host_os@),
{
    match target_os {
        TargetOs::Windows => {
            if str_eq(host_os, "windows") {
                path.to_owned()
            } else {
                replace_char_exec(path, '/', '\\')
            }
        },
        TargetOs::Unix => {
            if str_eq(host_os, "unix") {
                path.to_owned()
            } else {
                replace_char_exec(path, '\\', '/')
            }
        },
    }
}

/// Where the script for one source file lands when every source file
/// gets a script of its own: the destination directory joined to the
/// source path with the separator of the machine the tool runs on.
pub open spec fn spec_host_output_path(host_os: Seq<char>, destination: Seq<char>, path: Seq<char>) -> Seq<char> {
    if host_os == "windows"@ {
        destination + "\\"@ + path
    } else {
        destination + "/"@ + path
    }
}

/// Joins `destination` and `path` with the host's separator: a
/// backslash when the tool runs on Windows, a slash everywhere else.
pub fn host_output_path(host_os: &str, destination: &str, path: &str) -> (r: String)
    ensures
        r@ == spec_host_output_path(host_os@, destination@, path@),
{
    let mut out = destination.to_owned();
    if str_eq(host_os, "windows") {
        out.append("\\");
    } else {
        out.append("/");
    }
    out.append(path);
    out
}

} // verus!
