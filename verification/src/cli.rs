//! Command-line argument handling: the shell switch and the port number.

use crate::numbers::{parse_u16, parse_u16_spec};
use crate::text::str_eq;
use vstd::prelude::*;
use vstd::string::*;

verus! {

/// The port used when none is given.
pub const DEFAULT_PORT: u16 = 33760;

/// Whether this argument asks for the port to follow.
pub open spec fn is_port_flag(a: Seq<char>) -> bool {
    a == "-p"@ || a == "--port"@
}

/// Whether this argument asks for shell mode.
pub open spec fn is_shell_flag(a: Seq<char>) -> bool {
    a == "-s"@ || a == "--shell"@
}

/// The first position of a port flag, if any.
pub open spec fn port_flag_position(args: Seq<Seq<char>>) -> Option<int>
    decreases args.len(),
{
    if args.len() == 0 {
        None
    } else if is_port_flag(args[0]) {
        Some(0int)
    } else {
        match port_flag_position(args.drop_first()) {
            Some(i) => Some(i + 1),
            None => None,
        }
    }
}

/// The port the arguments select: the value after the first port flag,
/// where one follows and reads as a port number; otherwise the default.
pub open spec fn spec_port(args: Seq<Seq<char>>) -> u16 {
    match port_flag_position(args) {
        Some(i) => if i + 1 < args.len() {
            match parse_u16_spec(args[i + 1]) {
                Some(p) => p,
                None => DEFAULT_PORT,
            }
        } else {
            DEFAULT_PORT
        },
        None => DEFAULT_PORT,
    }
}

/// Whether the arguments select shell mode.
pub open spec fn spec_shell(args: Seq<Seq<char>>) -> bool {
    exists|i: int| 0 <= i < args.len() && is_shell_flag(#[trigger] args[i])
}

proof fn lemma_port_flag_at(args: Seq<Seq<char>>, k: int)
    requires
        0 <= k < args.len(),
        is_port_flag(args[k]),
        forall|t: int| 0 <= t < k ==> !is_port_flag(#[trigger] args[t]),
    ensures
        port_flag_position(args) == Some(k),
    decreases args.len(),
{
    if k > 0 {
        lemma_port_flag_at(args.drop_first(), k - 1);
    }
}

proof fn lemma_port_flag_none(args: Seq<Seq<char>>)
    requires
        forall|t: int| 0 <= t < args.len() ==> !is_port_flag(#[trigger] args[t]),
    ensures
        port_flag_position(args) is None,
    decreases args.len(),
{
    if args.len() > 0 {
        lemma_port_flag_none(args.drop_first());
    }
}

/// Reads the launch mode and port from the program's arguments, as
/// [`spec_shell`] and [`spec_port`] describe.
pub fn parse_command_line_args(args: Vec<String>) -> (r: (bool, u16))
    ensures
        r.0 == spec_shell(args@.map_values(|x: String| x@)),
        r.1 == spec_port(args@.map_values(|x: String| x@)),
{
    let ghost view = args@.map_values(|x: String| x@);
    let n = args.len();
    let mut shell = false;
    let mut i: usize = 0;
    while i < n
        invariant
            0 <= i <= n,
            n == args@.len(),
            view == args@.map_values(|x: String| x@),
            shell == (exists|t: int| 0 <= t < i && is_shell_flag(#[trigger] view[t])),
        decreases n - i,
    {
        proof {
            assert(view[i as int] == args@[i as int]@);
        }
        if str_eq(args[i].as_str(), "-s") || str_eq(args[i].as_str(), "--shell") {
            shell = true;
            proof {
                assert(is_shell_flag(view[i as int]));
            }
        } else {
            proof {
                assert(!is_shell_flag(view[i as int]));
            }
        }
        i = i + 1;
    }
    let mut port = DEFAULT_PORT;
    let mut k: usize = 0;
    let mut found = false;
    while k < n && !found
        invariant
            0 <= k <= n,
            n == args@.len(),
            view == args@.map_values(|x: String| x@),
            !found ==> forall|t: int| 0 <= t < k ==> !is_port_flag(#[trigger] view[t]),
            found ==> k < n && is_port_flag(view[k as int]) && (forall|t: int|
                0 <= t < k ==> !is_port_flag(#[trigger] view[t])),
        decreases n - k, (if found { 0int } else { 1int }),
    {
        if str_eq(args[k].as_str(), "-p") || str_eq(args[k].as_str(), "--port") {
            found = true;
        } else {
            k = k + 1;
        }
    }
    if found {
        proof {
            lemma_port_flag_at(view, k as int);
        }
        if k + 1 < n {
            match parse_u16(args[k + 1].as_str()) {
                Some(p) => port = p,
                None => (),
            }
        }
    } else {
        proof {
            lemma_port_flag_none(view);
        }
    }
    (shell, port)
}

} // verus!
