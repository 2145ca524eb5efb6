use stbchat_relay::inbound::{classify, respond_to_text, InboundPump, PumpAction, ReadOutcome, RelayFault, Verdict};

fn pump() -> InboundPump {
    InboundPump::new("relaybot".to_string())
}

fn forwarded(a: PumpAction) -> String {
    match a {
        PumpAction::Forward(s) => s,
        other => panic!("expected a forward, got {:?}", other),
    }
}

#[test]
fn plain_line_is_forwarded() {
    let mut p = pump();
    let a = p.on_read(ReadOutcome::Received(b"alice: hello".to_vec()));
    assert_eq!(forwarded(a), "alice: hello");
    assert!(!p.halted);
}

#[test]
fn escapes_are_stripped_before_forwarding() {
    let mut p = pump();
    let a = p.on_read(ReadOutcome::Received(b"\x1b[32malice\x1b[0m: hello".to_vec()));
    assert_eq!(forwarded(a), "alice: hello");
}

#[test]
fn multibyte_text_is_decoded() {
    let mut p = pump();
    let a = p.on_read(ReadOutcome::Received("zoë: héllo ✓".as_bytes().to_vec()));
    assert_eq!(forwarded(a), "zoë: héllo ✓");
}

#[test]
fn own_echo_is_dropped() {
    let mut p = pump();
    let a = p.on_read(ReadOutcome::Received(b"relaybot: hi there".to_vec()));
    assert!(matches!(a, PumpAction::DropEcho));
    assert!(!p.halted);
}

#[test]
fn colored_own_echo_is_dropped() {
    let mut p = pump();
    let a = p.on_read(ReadOutcome::Received(b"\x1b[1;31mrelaybot\x1b[0m: hi".to_vec()));
    assert!(matches!(a, PumpAction::DropEcho));
}

#[test]
fn username_without_colon_is_forwarded() {
    let mut p = pump();
    let a = p.on_read(ReadOutcome::Received(b"relaybot2: hi".to_vec()));
    assert_eq!(forwarded(a), "relaybot2: hi");
}

#[test]
fn timeout_is_idle() {
    let mut p = pump();
    assert!(matches!(p.on_read(ReadOutcome::TimedOut), PumpAction::Idle));
    assert!(!p.halted);
}

#[test]
fn zero_byte_read_halts_exactly_once() {
    let mut p = pump();
    let a = p.on_read(ReadOutcome::Received(Vec::new()));
    assert!(matches!(a, PumpAction::Halt(RelayFault::ConnectionClosed)));
    assert!(p.halted);
    assert!(matches!(p.on_read(ReadOutcome::Received(Vec::new())), PumpAction::Stopped));
    assert!(matches!(p.on_read(ReadOutcome::TimedOut), PumpAction::Stopped));
    assert!(matches!(p.on_read(ReadOutcome::Received(b"bob: x".to_vec())), PumpAction::Stopped));
}

#[test]
fn unknown_user_halts_before_forwarding() {
    let mut p = pump();
    let a = p.on_read(ReadOutcome::Received(b"User not found.".to_vec()));
    assert!(matches!(a, PumpAction::Halt(RelayFault::UnknownUser)));
    assert!(matches!(p.on_read(ReadOutcome::Received(b"alice: hello".to_vec())), PumpAction::Stopped));
}

#[test]
fn wrong_password_halts() {
    let mut p = pump();
    let a = p.on_read(ReadOutcome::Received(b"Wrong username or password.\n".to_vec()));
    assert!(matches!(a, PumpAction::Halt(RelayFault::WrongCredentials)));
}

#[test]
fn read_failure_halts() {
    let mut p = pump();
    assert!(matches!(p.on_read(ReadOutcome::Failed), PumpAction::Halt(RelayFault::Io)));
    assert!(p.halted);
}

#[test]
fn invalid_utf8_halts() {
    let mut p = pump();
    let a = p.on_read(ReadOutcome::Received(vec![0x61, 0xff, 0xfe]));
    assert!(matches!(a, PumpAction::Halt(RelayFault::NotText)));
}

#[test]
fn classify_orders_rejections_first() {
    assert_eq!(classify("User not found.", "User not found."), Verdict::UnknownUser);
    assert_eq!(classify("Wrong username or password.", "Wrong"), Verdict::WrongCredentials);
    assert_eq!(classify("bot: hi", "bot"), Verdict::OwnEcho);
    assert_eq!(classify("bot hi", "bot"), Verdict::Forward);
    assert_eq!(classify("", "bot"), Verdict::Forward);
    assert_eq!(classify(":", ""), Verdict::OwnEcho);
}

#[test]
fn respond_to_text_forwards_unchanged() {
    let a = respond_to_text("carol: hey".to_string(), "bot");
    assert_eq!(forwarded(a), "carol: hey");
}
