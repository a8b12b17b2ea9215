use peer_connect::controller::Outcome;
use peer_connect::report::{arg_count_ok, exit_code, report_line, usage_line};

const PK: &str = "0279be667ef9dcbbac55a06295ce870b07029bfcdb2dce28d959f2815b16f81798";
const ADDR: &str = "127.0.0.1:9735";

#[test]
fn established_message_is_exact() {
    let line = report_line(Outcome::Established, PK, ADDR);
    assert_eq!(
        line,
        "Successfully connected to peer: 0279be667ef9dcbbac55a06295ce870b07029bfcdb2dce28d959f2815b16f81798@127.0.0.1:9735"
    );
}

#[test]
fn closed_message_is_exact() {
    let line = report_line(Outcome::Closed, PK, ADDR);
    assert_eq!(
        line,
        "Peer connection closed: 0279be667ef9dcbbac55a06295ce870b07029bfcdb2dce28d959f2815b16f81798@127.0.0.1:9735"
    );
}

#[test]
fn connect_failed_message_is_exact() {
    let line = report_line(Outcome::ConnectFailed, PK, ADDR);
    assert_eq!(
        line,
        "Failed to connect to peer: 0279be667ef9dcbbac55a06295ce870b07029bfcdb2dce28d959f2815b16f81798@127.0.0.1:9735"
    );
}

#[test]
fn exit_codes_match_outcomes() {
    assert_eq!(exit_code(Outcome::Established), 0);
    assert_eq!(exit_code(Outcome::Closed), 1);
    assert_eq!(exit_code(Outcome::ConnectFailed), 1);
}

#[test]
fn usage_line_is_exact() {
    let line = usage_line("peer_connect");
    assert_eq!(line, "Usage: peer_connect <peer_pubkey> <peer_addr>");
}

#[test]
fn one_argument_is_rejected() {
    // program name plus one positional value: two arguments in all
    assert!(!arg_count_ok(2));
}

#[test]
fn argument_counts() {
    assert!(!arg_count_ok(0));
    assert!(!arg_count_ok(1));
    assert!(arg_count_ok(3));
    assert!(!arg_count_ok(4));
}
