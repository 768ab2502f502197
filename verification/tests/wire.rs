use ivan_bot::codec::{decode_response, encode_command, ResponseDecoder};
use ivan_bot::errors::{BotErrorKind, IvanError, PavlovError};
use ivan_bot::output::split_for_discord;
use ivan_bot::relay::{
    first_attempt_action, reconnect_action, second_attempt_result, FirstAction, ReconnectAction,
};
use ivan_bot::session::{auth_result, check_auth_response, hash_password, handshake_failure,
    HandshakeStep};
use ivan_bot::text::{parse_u64, str_contains, str_eq, u64_to_string};

fn conn_err(input: &str) -> PavlovError {
    PavlovError {
        input: input.to_string(),
        kind: BotErrorKind::ConnectionError,
    }
}

#[test]
fn encode_appends_single_newline() {
    assert_eq!(encode_command("ServerInfo"), "ServerInfo\n");
    assert_eq!(encode_command(""), "\n");
}

#[test]
fn decode_concatenates_until_terminator() {
    let lines = vec![
        "first line\n".to_string(),
        "second line\r\n".to_string(),
    ];
    assert_eq!(
        decode_response(&lines),
        Some("first line\nsecond line\r\n".to_string())
    );
}

#[test]
fn decode_skips_blank_crlf_lines() {
    let lines = vec![
        "\r\n".to_string(),
        "payload\n".to_string(),
        "\r\n".to_string(),
        "done\r\n".to_string(),
    ];
    assert_eq!(decode_response(&lines), Some("payload\ndone\r\n".to_string()));
}

#[test]
fn decode_incomplete_without_terminator() {
    let lines = vec!["no terminator here\n".to_string(), "still none\n".to_string()];
    assert_eq!(decode_response(&lines), None);
    assert_eq!(decode_response(&Vec::new()), None);
}

#[test]
fn decode_stops_at_first_terminator() {
    let lines = vec![
        "a\r\n trailing".to_string(),
        "ignored\r\n".to_string(),
    ];
    assert_eq!(decode_response(&lines), Some("a\r\n trailing".to_string()));
}

#[test]
fn decoder_is_incremental() {
    let mut d = ResponseDecoder::new();
    assert!(!d.push_line("part one\n"));
    assert!(!d.push_line("\r\n"));
    assert!(d.push_line("part two\r\n"));
    assert_eq!(d.take_response(), "part one\npart two\r\n");
}

#[test]
fn password_digest_is_lowercase_hex_md5() {
    // MD5 of the empty string, a fixed reference value.
    assert_eq!(hash_password(""), "d41d8cd98f00b204e9800998ecf8427e");
    assert_eq!(hash_password("abc"), "900150983cd24fb0d6963f7d28e17f72");
    // Cross-check against the crates themselves on another input.
    let expected = hex::encode(md5::compute("open sesame".as_bytes()).0);
    assert_eq!(hash_password("open sesame"), expected);
}

#[test]
fn auth_succeeds_iff_line_contains_token() {
    assert!(check_auth_response("Authenticated=1\r\n"));
    assert!(check_auth_response("xxAuthenticated=1yy"));
    assert!(!check_auth_response("Authenticated=0"));
    assert!(!check_auth_response(""));
    assert!(auth_result("Welcome Authenticated=1", "digest".to_string()).is_ok());
    match auth_result("Authenticated=0", "digest".to_string()) {
        Err(e) => {
            assert_eq!(e.kind, BotErrorKind::Authentication);
            assert_eq!(e.input, "digest");
        }
        Ok(_) => panic!("expected an authentication failure"),
    }
}

#[test]
fn handshake_failures_classify_by_step() {
    let e = handshake_failure(HandshakeStep::ParseAddress, "1.2.3.4".to_string());
    assert_eq!(e.kind, BotErrorKind::InvalidConnectionAddress);
    let e = handshake_failure(HandshakeStep::Connect, "x".to_string());
    assert_eq!(e.kind, BotErrorKind::ConnectionError);
    let e = handshake_failure(HandshakeStep::SendDigest, "x".to_string());
    assert_eq!(e.kind, BotErrorKind::ConnectionError);
    let e = handshake_failure(HandshakeStep::ReadGreeting, "x".to_string());
    assert_eq!(e.kind, BotErrorKind::ConnectionError);
}

#[test]
fn relay_success_returns_response() {
    match first_attempt_action(Ok("MapList...".to_string())) {
        FirstAction::Done(t) => assert_eq!(t, "MapList..."),
        FirstAction::Reconnect(_) => panic!("no reconnect on success"),
    }
}

#[test]
fn relay_nonfatal_error_is_rendered_without_retry() {
    let e = PavlovError {
        input: "bad arg".to_string(),
        kind: BotErrorKind::InvalidArgument,
    };
    match first_attempt_action(Err(e)) {
        FirstAction::Done(t) => {
            assert_eq!(t, "Invalid argument because of: \"bad arg\"");
        }
        FirstAction::Reconnect(_) => panic!("non-fatal errors never reconnect"),
    }
}

#[test]
fn relay_fatal_error_asks_for_one_reconnect() {
    match first_attempt_action(Err(conn_err("socket closed"))) {
        FirstAction::Reconnect(e) => assert_eq!(e.kind, BotErrorKind::ConnectionError),
        FirstAction::Done(_) => panic!("fatal errors reconnect"),
    }
    // The reconnect succeeded: exactly one resend.
    assert!(matches!(reconnect_action(Ok(())), ReconnectAction::Retry));
    // Two consecutive fatal failures surface the second one, and the types
    // offer no further retry.
    let second = second_attempt_result(Err(conn_err("still down")));
    assert_eq!(second, "Connection error because of: \"still down\"");
}

#[test]
fn relay_failed_reconnect_is_final() {
    match reconnect_action(Err(conn_err("refused"))) {
        ReconnectAction::Done(t) => assert_eq!(t, "Connection error because of: \"refused\""),
        ReconnectAction::Retry => panic!("a failed reconnect never retries"),
    }
}

#[test]
fn fatal_classification_is_exactly_the_connection_kinds() {
    assert!(BotErrorKind::ConnectionError.is_fatal());
    assert!(BotErrorKind::Authentication.is_fatal());
    assert!(BotErrorKind::InvalidConnectionAddress.is_fatal());
    assert!(!BotErrorKind::InvalidArgument.is_fatal());
    assert!(!BotErrorKind::VoteInProgress.is_fatal());
    assert!(!BotErrorKind::VoteNotInProgress.is_fatal());
    assert!(!BotErrorKind::InvalidCommand.is_fatal());
    assert!(!BotErrorKind::CouldNotReply.is_fatal());
}

#[test]
fn error_messages_carry_kind_and_input() {
    let e = IvanError::BotPavlovError(PavlovError {
        input: "10.0.0.1".to_string(),
        kind: BotErrorKind::InvalidConnectionAddress,
    });
    assert_eq!(
        e.to_message(),
        "Invalid connection address because of: \"10.0.0.1\""
    );
}

#[test]
fn decimal_rendering_and_parsing() {
    assert_eq!(u64_to_string(0), "0");
    assert_eq!(u64_to_string(7), "7");
    assert_eq!(u64_to_string(1234567890), "1234567890");
    assert_eq!(u64_to_string(u64::MAX), "18446744073709551615");
    assert_eq!(parse_u64("0"), Some(0));
    assert_eq!(parse_u64("007"), Some(7));
    assert_eq!(parse_u64("18446744073709551615"), Some(u64::MAX));
    assert_eq!(parse_u64("18446744073709551616"), None);
    assert_eq!(parse_u64(""), None);
    assert_eq!(parse_u64("12a"), None);
    assert_eq!(parse_u64("-5"), None);
}

#[test]
fn substring_search_and_equality() {
    assert!(str_contains("hello world", "o w"));
    assert!(str_contains("abc", ""));
    assert!(!str_contains("abc", "abcd"));
    assert!(str_eq("same", "same"));
    assert!(!str_eq("same", "Same"));
}

#[test]
fn long_messages_split_into_pieces() {
    let short = "short message";
    assert_eq!(split_for_discord(short), vec![short.to_string()]);
    let long: String = std::iter::repeat('x').take(2000).collect();
    let pieces = split_for_discord(&long);
    assert_eq!(pieces.len(), 2);
    assert_eq!(pieces[0].len(), 1000);
    assert_eq!(pieces[1].len(), 1000);
    let boundary: String = std::iter::repeat('y').take(1900).collect();
    assert_eq!(split_for_discord(&boundary).len(), 1);
}
