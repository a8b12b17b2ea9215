//! Mapping of outcomes to the process's one-line reports and exit codes, and
//! validation of the command-line invocation shape.

use vstd::prelude::*;
use crate::controller::Outcome;

verus! {

/// The fixed text that opens the report line for each outcome.
pub open spec fn outcome_prefix(o: Outcome) -> Seq<char> {
    match o {
        Outcome::Established => "Successfully connected to peer: "@,
        Outcome::Closed => "Peer connection closed: "@,
        Outcome::ConnectFailed => "Failed to connect to peer: "@,
    }
}

/// The full report line for an outcome: the outcome's prefix, then the peer's
/// key text, `@`, and the address text.
pub open spec fn report_line_spec(o: Outcome, peer: Seq<char>, addr: Seq<char>) -> Seq<char> {
    outcome_prefix(o) + peer + "@"@ + addr
}

/// Builds the exact line the process prints for a terminal outcome.
pub fn report_line(o: Outcome, peer: &str, addr: &str) -> (r: String)
    ensures
        r@ == report_line_spec(o, peer@, addr@),
{
    let mut s = String::new();
    match o {
        Outcome::Established => s.append("Successfully connected to peer: "),
        Outcome::Closed => s.append("Peer connection closed: "),
        Outcome::ConnectFailed => s.append("Failed to connect to peer: "),
    }
    s.append(peer);
    s.append("@");
    s.append(addr);
    proof {
        assert(s@ =~= report_line_spec(o, peer@, addr@));
    }
    s
}

/// The exit code owed to each outcome: 0 only for an established session.
pub open spec fn exit_code_spec(o: Outcome) -> i32 {
    match o {
        Outcome::Established => 0,
        Outcome::Closed => 1,
        Outcome::ConnectFailed => 1,
    }
}

/// The process exit code for a terminal outcome.
pub fn exit_code(o: Outcome) -> (r: i32)
    ensures
        r == exit_code_spec(o),
        r == 0 <==> o == Outcome::Established,
{
    match o {
        Outcome::Established => 0,
        Outcome::Closed => 1,
        Outcome::ConnectFailed => 1,
    }
}

/// The usage line printed when the invocation shape is wrong.
pub open spec fn usage_line_spec(program: Seq<char>) -> Seq<char> {
    "Usage: "@ + program + " <peer_pubkey> <peer_addr>"@
}

/// Builds the usage line for a program name.
pub fn usage_line(program: &str) -> (r: String)
    ensures
        r@ == usage_line_spec(program@),
{
    let mut s = String::new();
    s.append("Usage: ");
    s.append(program);
    s.append(" <peer_pubkey> <peer_addr>");
    proof {
        assert(s@ =~= usage_line_spec(program@));
    }
    s
}

/// An invocation is well-formed exactly when it has three arguments: the
/// program name and the two positional values.
pub fn arg_count_ok(arg_count: usize) -> (r: bool)
    ensures
        r <==> arg_count == 3,
{
    arg_count == 3
}

} // verus!
