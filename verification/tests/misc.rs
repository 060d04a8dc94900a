use warpgate::commands::{client_keys_report, docker_hint_message, not_a_terminal_message, terminal_check, TerminalCheck};
use warpgate::protocols::TargetTestError;
use warpgate::reconnect::{is_read_disconnect_error, is_write_disconnect_error, WsErrorKind};

#[test]
fn target_test_error_messages() {
    assert_eq!(TargetTestError::Unreachable.message(), "unreachable");
    assert_eq!(TargetTestError::AuthenticationError.message(), "authentication failed");
    assert_eq!(TargetTestError::ConnectionError("refused".to_string()).message(), "connection error: refused");
    assert_eq!(TargetTestError::Misconfigured("no host".to_string()).message(), "misconfigured: no host");
    let io = std::io::Error::new(std::io::ErrorKind::Other, "disk on fire");
    assert_eq!(TargetTestError::from(io).message(), "I/O: disk on fire");
}

#[test]
fn dialoguer_errors_become_connection_errors() {
    let e = dialoguer::Error::IO(std::io::Error::new(std::io::ErrorKind::Other, "no tty"));
    match TargetTestError::from_dialoguer(e) {
        TargetTestError::ConnectionError(m) => assert_eq!(m, "Dialoguer error: IO error: no tty"),
        _ => panic!("expected a connection error"),
    }
    match TargetTestError::from_dialoguer_text("x") {
        TargetTestError::ConnectionError(m) => assert_eq!(m, "Dialoguer error: x"),
        _ => panic!("expected a connection error"),
    }
}

#[test]
fn disconnect_errors() {
    for k in [WsErrorKind::ConnectionClosed, WsErrorKind::AlreadyClosed, WsErrorKind::Io, WsErrorKind::Tls, WsErrorKind::Protocol] {
        assert!(is_write_disconnect_error(&k));
        assert!(is_read_disconnect_error::<()>(&Err(k)));
    }
    for k in [WsErrorKind::Capacity, WsErrorKind::WriteBufferFull, WsErrorKind::Utf8, WsErrorKind::AttackAttempt, WsErrorKind::Url, WsErrorKind::Http, WsErrorKind::HttpFormat] {
        assert!(!is_write_disconnect_error(&k));
        assert!(!is_read_disconnect_error::<()>(&Err(k)));
    }
    assert!(!is_read_disconnect_error::<&str>(&Ok("message")));
}

#[test]
fn terminal_checks() {
    assert_eq!(terminal_check(true, false), TerminalCheck::Proceed);
    assert_eq!(terminal_check(true, true), TerminalCheck::Proceed);
    assert_eq!(terminal_check(false, false), TerminalCheck::Refuse { docker_hint: false });
    assert_eq!(terminal_check(false, true), TerminalCheck::Refuse { docker_hint: true });
    assert_eq!(not_a_terminal_message(), "Please run this command from an interactive terminal.");
    assert_eq!(docker_hint_message(), "(have you forgotten `-it`?)");
}

#[test]
fn client_keys_report_lines() {
    let keys = vec!["ssh-ed25519 AAAA one".to_string(), "ssh-rsa BBBB two".to_string()];
    assert_eq!(
        client_keys_report(&keys),
        vec![
            "Warpgate SSH client keys:".to_string(),
            "(add these to your target's authorized_keys file)".to_string(),
            String::new(),
            "ssh-ed25519 AAAA one".to_string(),
            "ssh-rsa BBBB two".to_string(),
        ]
    );
    assert_eq!(client_keys_report(&vec![]).len(), 3);
}
