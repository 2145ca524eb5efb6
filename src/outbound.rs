//! Gateway-to-server direction: which gateway messages reach the TCP session,
//! and the bytes written for each.
use vstd::prelude::*;
use vstd::slice::slice_to_vec;
use vstd::string::*;
use vstd::utf8::encode_utf8;

verus! {

/// The room that is bridged and the gateway account whose posts are the
/// relay's own.
#[derive(Clone, Copy, Debug, PartialEq, Eq, Structural)]
pub struct RoomBinding {
    pub room_id: u64,
    pub bot_id: u64,
}

/// A chat message delivered by the gateway.
pub struct GatewayMessage {
    pub room_id: u64,
    pub author_id: u64,
    pub author_name: String,
    pub content: String,
}

/// What stands between the author's name and the content on the wire.
pub const GATEWAY_TAG: &'static str = " via Discord: ";

/// The line written for a message of `author` with `content`.
pub open spec fn relay_text(author: Seq<char>, content: Seq<char>) -> Seq<char> {
    author + GATEWAY_TAG@ + content
}

/// A message is relayed only from the bound room, and never when the bound
/// bot account wrote it.
pub open spec fn is_relayed(binding: RoomBinding, room_id: u64, author_id: u64) -> bool {
    room_id == binding.room_id && author_id != binding.bot_id
}

/// The line `"<author> via Discord: <content>"`.
pub fn format_relay_text(author: &str, content: &str) -> (r: String)
    ensures
        r@ == relay_text(author@, content@),
{
    let mut line = author.to_owned();
    line.append(GATEWAY_TAG);
    line.append(content);
    line
}

/// The bytes to write to the TCP session for `msg`, or `None` where the
/// message comes from another room or from the bound bot account.
pub fn outbound_bytes(binding: RoomBinding, msg: &GatewayMessage) -> (r: Option<Vec<u8>>)
    ensures
        r is None <==> !is_relayed(binding, msg.room_id, msg.author_id),
        msg.room_id != binding.room_id ==> r is None,
        msg.author_id == binding.bot_id ==> r is None,
        r matches Some(b) ==> b@ == encode_utf8(relay_text(msg.author_name@, msg.content@)),
{
    if msg.room_id != binding.room_id {
        return None;
    }
    if msg.author_id == binding.bot_id {
        return None;
    }
    let line = format_relay_text(msg.author_name.as_str(), msg.content.as_str());
    Some(slice_to_vec(line.as_str().as_bytes()))
}

} // verus!
