use stbchat_relay::outbound::{format_relay_text, outbound_bytes, GatewayMessage, RoomBinding};

const BINDING: RoomBinding = RoomBinding { room_id: 1140708601372086313, bot_id: 1099801198103633920 };

fn message(room_id: u64, author_id: u64, author: &str, content: &str) -> GatewayMessage {
    GatewayMessage { room_id, author_id, author_name: author.to_string(), content: content.to_string() }
}

#[test]
fn message_in_bound_room_is_framed() {
    let m = message(BINDING.room_id, 42, "bob", "hi");
    assert_eq!(outbound_bytes(BINDING, &m), Some(b"bob via Discord: hi".to_vec()));
}

#[test]
fn message_from_other_room_is_ignored() {
    let m = message(BINDING.room_id + 1, 42, "bob", "hi");
    assert_eq!(outbound_bytes(BINDING, &m), None);
}

#[test]
fn message_from_bound_bot_is_ignored() {
    let m = message(BINDING.room_id, BINDING.bot_id, "relay", "alice: hello");
    assert_eq!(outbound_bytes(BINDING, &m), None);
}

#[test]
fn multibyte_message_is_utf8_encoded() {
    let m = message(BINDING.room_id, 7, "zoë", "✓");
    assert_eq!(outbound_bytes(BINDING, &m), Some("zoë via Discord: ✓".as_bytes().to_vec()));
}

#[test]
fn empty_content_keeps_frame() {
    assert_eq!(format_relay_text("bob", ""), "bob via Discord: ");
}
