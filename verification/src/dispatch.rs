//! The dispatcher: one end-to-end "use" of a connection value.
//!
//! The dispatcher computes, in order, the exact lines of diagnostic
//! output: an introduction built from `describe`, the connection
//! attempt's own line, the insecure-port warning when (and only when)
//! its rule applies, and a trailing blank line. Printing the lines is
//! left to the caller.

use crate::connection::{spec_connect_message, spec_describe, spec_warning_applies, Connection};
use vstd::prelude::*;
use vstd::string::StringExecFns;

verus! {

/// The fixed warning emitted for a TCP value on port 443 without
/// encryption.
pub open spec fn warning_line() -> Seq<char> {
    "WARNING: Port 443 detected but encryption is OFF—fallback to insecure mode"@
}

/// The introduction line: a fixed prefix followed by the value's
/// rendering.
pub open spec fn spec_intro_line(c: Connection) -> Seq<char> {
    "Using enum connection: "@ + spec_describe(c)
}

/// The full, ordered output of one dispatcher call on `c`:
/// introduction, connection message, the warning exactly when its rule
/// applies, and a trailing blank line.
pub open spec fn spec_dispatch_lines(c: Connection) -> Seq<Seq<char>> {
    if spec_warning_applies(c) {
        seq![
            spec_intro_line(c),
            spec_connect_message(c),
            warning_line(),
            Seq::<char>::empty(),
        ]
    } else {
        seq![spec_intro_line(c), spec_connect_message(c), Seq::<char>::empty()]
    }
}

/// The texts of a sequence of strings.
pub open spec fn views_of(v: Seq<String>) -> Seq<Seq<char>> {
    v.map_values(|s: String| s@)
}

/// Computes the dispatcher's output for `conn`, exactly
/// `spec_dispatch_lines`. The value is only inspected, never altered
/// or consumed. The match covers each variant explicitly, so a new
/// variant would fail to compile until it gets an arm of its own.
pub fn dispatch_lines(conn: &Connection) -> (r: Vec<String>)
    ensures
        views_of(r@) == spec_dispatch_lines(*conn),
{
    let mut lines: Vec<String> = Vec::new();
    let mut intro = String::from_str("Using enum connection: ");
    let described = conn.describe();
    intro.append(described.as_str());
    lines.push(intro);
    lines.push(conn.connect_message());
    match conn {
        Connection::Tcp { port: 443, encryption: false, .. } => {
            lines.push(
                String::from_str(
                    "WARNING: Port 443 detected but encryption is OFF—fallback to insecure mode",
                ),
            );
        },
        Connection::Tcp { .. } => {},
        Connection::Udp { .. } => {},
        Connection::LocalHost { .. } => {},
    }
    lines.push(String::new());
    proof {
        assert(views_of(lines@) =~~= spec_dispatch_lines(*conn));
    }
    lines
}

/// The warning rule, stated of the whole output: the dispatcher's
/// lines contain the warning exactly for a TCP value with port 443 and
/// encryption off; for every other Tcp, Udp or LocalHost value the
/// warning appears nowhere in the output.
pub proof fn lemma_warning_iff(c: Connection)
    ensures
        spec_dispatch_lines(c).contains(warning_line()) <==> spec_warning_applies(c),
{
    reveal_strlit("WARNING: Port 443 detected but encryption is OFF—fallback to insecure mode");
    reveal_strlit("Using enum connection: ");
    reveal_strlit("Connecting via TCP to ");
    reveal_strlit("Connecting via UDP to ");
    reveal_strlit("Connecting to local service on port ");
    if spec_warning_applies(c) {
        assert(spec_dispatch_lines(c)[2] == warning_line());
        assert(spec_dispatch_lines(c).contains(warning_line()));
    } else {
        assert(spec_intro_line(c)[0] == 'U');
        assert(warning_line()[0] == 'W');
        match c {
            Connection::Tcp { .. } => {
                assert(spec_connect_message(c)[0] == 'C');
            },
            Connection::Udp { .. } => {
                assert(spec_connect_message(c)[0] == 'C');
            },
            Connection::LocalHost { .. } => {
                assert(spec_connect_message(c)[0] == 'C');
            },
        }
        assert(Seq::<char>::empty().len() != warning_line().len());
        assert(forall|i: int|
            0 <= i < spec_dispatch_lines(c).len() ==> spec_dispatch_lines(c)[i]
                != warning_line());
    }
}

} // verus!
