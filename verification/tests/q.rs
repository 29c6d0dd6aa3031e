//! Q wire-frame checks and selector claims.

use rayforce::q::{
    check_connect_args, check_q_connect_args, check_response_frame, ConnectFailure, SelectorClaims,
    HEADER_LEN,
};
use rayforce::ErrorCode;

/// Wrap a body as a Q response message (8-byte header + body).
fn msg(body: &[u8]) -> Vec<u8> {
    let size = (8 + body.len()) as u32;
    let mut b = vec![1u8, 2u8, 0u8, 0u8];
    b.extend_from_slice(&size.to_le_bytes());
    b.extend_from_slice(body);
    b
}

#[test]
fn a_well_formed_frame_splits_off_its_body() {
    let body = [7u8, 0, 1, 0, 0, 0, 42, 0, 0, 0, 0, 0, 0, 0];
    let m = msg(&body);
    let f = check_response_frame(&m).unwrap();
    assert!(!f.compressed);
    assert_eq!(f.body, &body);
    let mut c = msg(&body);
    c[2] = 1;
    assert!(check_response_frame(&c).unwrap().compressed);
}

#[test]
fn a_short_message_is_refused() {
    let e = check_response_frame(&[1, 2, 0]).unwrap_err();
    assert_eq!(e.code, ErrorCode::Wire);
    assert!(e.message.contains("shorter than wire header"));
    assert!(check_response_frame(&[]).is_err());
}

#[test]
fn a_size_mismatch_is_refused() {
    let mut m = msg(&[1, 2, 3]);
    m.push(9);
    let e = check_response_frame(&m).unwrap_err();
    assert!(e.message.contains("does not match"));
    let mut big = msg(&[1]);
    big[7] = 1;
    assert!(check_response_frame(&big).is_err());
}

#[test]
fn an_empty_body_is_refused() {
    let m = msg(&[]);
    assert_eq!(m.len(), HEADER_LEN);
    let e = check_response_frame(&m).unwrap_err();
    assert!(e.message.contains("empty response body"));
}

#[test]
fn selector_claims_follow_the_latest_attach() {
    let mut c = SelectorClaims::new();
    let t1 = c.claim_selector(3);
    assert_eq!(t1, 1);
    assert!(c.selector_is_claimed_by(3, t1));
    // The slot is reused by a new connection.
    let t2 = c.claim_selector(3);
    assert_eq!(t2, 2);
    assert!(!c.selector_is_claimed_by(3, t1));
    assert!(c.selector_is_claimed_by(3, t2));
    // The stale owner's release leaves the successor alone.
    c.release_selector(3, t1);
    assert!(c.selector_is_claimed_by(3, t2));
    c.release_selector(3, t2);
    assert!(!c.selector_is_claimed_by(3, t2));
    let t3 = c.claim_selector(4);
    assert_eq!(t3, 3);
    assert!(!c.selector_is_claimed_by(3, t3));
}

#[test]
fn connection_arguments_must_be_free_of_nul() {
    assert!(check_connect_args("localhost", "", "").is_ok());
    let e = check_connect_args("local\0host", "u\0", "").unwrap_err();
    assert_eq!(e.code, ErrorCode::Domain);
    assert_eq!(e.message, "host contains NUL");
    assert_eq!(check_connect_args("h", "u\0", "p").unwrap_err().message, "user contains NUL");
    assert_eq!(check_connect_args("h", "u", "\0").unwrap_err().message, "password contains NUL");
}

#[test]
fn an_attach_is_settled_by_the_loop_answer() {
    let mut c = SelectorClaims::new();
    let e = c.settle_attach(-1, true).unwrap_err();
    assert_eq!(e.message, "Q: could not attach to the event loop");
    let e = c.settle_attach(5, false).unwrap_err();
    assert_eq!(e.message, "Q: attached selector did not resolve");
    assert!(!c.selector_is_claimed_by(5, 1));
    let t = c.settle_attach(5, true).unwrap();
    assert_eq!(t, 1);
    assert!(c.selector_is_claimed_by(5, t));
}

#[test]
fn q_connection_refusals_name_the_protocol() {
    assert!(check_q_connect_args("h", "u", "p").is_ok());
    assert_eq!(check_q_connect_args("h\0", "u", "p").unwrap_err().message, "Q host contains NUL");
    assert_eq!(check_q_connect_args("h", "u\0", "p").unwrap_err().message, "Q user contains NUL");
    assert_eq!(check_q_connect_args("h", "u", "\0").unwrap_err().message, "Q password contains NUL");
    assert_eq!(ConnectFailure::Timeout.reason(), "timed out");
    assert_eq!(ConnectFailure::Handshake.reason(), "handshake/auth failed");
    assert_eq!(ConnectFailure::Other.reason(), "connection failed");
}
