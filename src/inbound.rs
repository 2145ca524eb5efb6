//! Server-to-gateway direction: what the relay does with each read from the
//! TCP session.
use vstd::prelude::*;
use vstd::string::*;
use vstd::utf8::*;

use crate::text::{has_prefix, starts_with};

verus! {

/// What the server sends when the bot's username is unknown.
pub const USER_NOT_FOUND: &'static str = "User not found.";

/// What the server sends when the bot's password is rejected.
pub const WRONG_CREDENTIALS: &'static str = "Wrong username or password.";

/// How one piece of decoded, escape-free server text is to be handled.
#[derive(Clone, Copy, Debug, PartialEq, Eq, Structural)]
pub enum Verdict {
    /// The server does not know the bot's username.
    UnknownUser,
    /// The server rejected the bot's credentials.
    WrongCredentials,
    /// The server repeats a line that the bot itself wrote.
    OwnEcho,
    /// A line to hand on to the gateway room.
    Forward,
}

/// The prefix that marks a chat line written by `username`.
pub open spec fn sender_prefix(username: Seq<char>) -> Seq<char> {
    username.push(':')
}

/// The verdict on `text`, for a bot logged in as `username`; the rejection
/// messages are checked first, then the bot's own prefix.
pub open spec fn verdict_of(text: Seq<char>, username: Seq<char>) -> Verdict {
    if has_prefix(text, USER_NOT_FOUND@) {
        Verdict::UnknownUser
    } else if has_prefix(text, WRONG_CREDENTIALS@) {
        Verdict::WrongCredentials
    } else if has_prefix(text, sender_prefix(username)) {
        Verdict::OwnEcho
    } else {
        Verdict::Forward
    }
}

/// Classifies server text (already decoded and stripped of escapes).
pub fn classify(text: &str, username: &str) -> (v: Verdict)
    ensures
        v == verdict_of(text@, username@),
{
    if starts_with(text, USER_NOT_FOUND) {
        Verdict::UnknownUser
    } else if starts_with(text, WRONG_CREDENTIALS) {
        Verdict::WrongCredentials
    } else {
        let mut prefix = username.to_owned();
        prefix.append(":");
        proof {
            reveal_strlit(":");
            assert(prefix@ =~= sender_prefix(username@));
        }
        if starts_with(text, prefix.as_str()) {
            Verdict::OwnEcho
        } else {
            Verdict::Forward
        }
    }
}

/// Names what `strip_ansi_escapes::strip_str` leaves of a text.
pub uninterp spec fn ansi_stripped(s: Seq<char>) -> Seq<char>;

/// Relies on `strip_ansi_escapes::strip_str`: the text with its terminal
/// escape sequences removed, which depends on the text alone.
#[verifier::external_body]
fn strip_ansi(s: &str) -> (r: String)
    ensures
        r@ == ansi_stripped(s@),
{
    strip_ansi_escapes::strip_str(s)
}

/// Relies on `String::from_utf8`: it succeeds exactly on valid UTF-8 and then
/// holds the decoded characters.
#[verifier::external_body]
fn decode_utf8_bytes(bytes: Vec<u8>) -> (r: Option<String>)
    ensures
        r is Some <==> valid_utf8(bytes@),
        r matches Some(s) ==> s@ == decode_utf8(bytes@),
{
    String::from_utf8(bytes).ok()
}

/// What one bounded-time read of the TCP session produced.
#[derive(Debug)]
pub enum ReadOutcome {
    /// No data arrived within the read window.
    TimedOut,
    /// The read returned these bytes; none at all means the peer closed.
    Received(Vec<u8>),
    /// The read itself failed.
    Failed,
}

/// A condition that ends the relay.
#[derive(Clone, Copy, Debug, PartialEq, Eq, Structural)]
pub enum RelayFault {
    /// The server closed the connection.
    ConnectionClosed,
    /// The server does not know the bot's username.
    UnknownUser,
    /// The server rejected the bot's password.
    WrongCredentials,
    /// A read or write on the session failed.
    Io,
    /// The server sent bytes that are not UTF-8.
    NotText,
}

/// What the pump asks its driver to do after one read.
#[derive(Debug)]
pub enum PumpAction {
    /// Nothing arrived: read again.
    Idle,
    /// Post this text in the bound gateway room, then read again.
    Forward(String),
    /// The bot's own line came back: drop it and read again.
    DropEcho,
    /// End the relay with a non-zero exit.
    Halt(RelayFault),
    /// The relay has already been ended: do nothing.
    Stopped,
}

/// The model of a `PumpAction`, with the forwarded text as characters.
pub enum PumpResponse {
    Idle,
    Forward(Seq<char>),
    DropEcho,
    Halt(RelayFault),
    Stopped,
}

impl View for PumpAction {
    type V = PumpResponse;

    open spec fn view(&self) -> PumpResponse {
        match self {
            PumpAction::Idle => PumpResponse::Idle,
            PumpAction::Forward(s) => PumpResponse::Forward(s@),
            PumpAction::DropEcho => PumpResponse::DropEcho,
            PumpAction::Halt(f) => PumpResponse::Halt(*f),
            PumpAction::Stopped => PumpResponse::Stopped,
        }
    }
}

/// The text that the relay reads in a chunk of bytes: decoded, then with its
/// escape sequences removed.
pub open spec fn received_text(bytes: Seq<u8>) -> Seq<char> {
    ansi_stripped(decode_utf8(bytes))
}

/// The pump's answer to received text, for a bot logged in as `username`.
pub open spec fn text_response(text: Seq<char>, username: Seq<char>) -> PumpResponse {
    match verdict_of(text, username) {
        Verdict::UnknownUser => PumpResponse::Halt(RelayFault::UnknownUser),
        Verdict::WrongCredentials => PumpResponse::Halt(RelayFault::WrongCredentials),
        Verdict::OwnEcho => PumpResponse::DropEcho,
        Verdict::Forward => PumpResponse::Forward(text),
    }
}

/// The pump's answer to one read outcome.
pub open spec fn pump_response(username: Seq<char>, halted: bool, outcome: ReadOutcome) -> PumpResponse {
    if halted {
        PumpResponse::Stopped
    } else {
        match outcome {
            ReadOutcome::TimedOut => PumpResponse::Idle,
            ReadOutcome::Failed => PumpResponse::Halt(RelayFault::Io),
            ReadOutcome::Received(b) => if b@.len() == 0 {
                PumpResponse::Halt(RelayFault::ConnectionClosed)
            } else if !valid_utf8(b@) {
                PumpResponse::Halt(RelayFault::NotText)
            } else {
                text_response(received_text(b@), username)
            },
        }
    }
}

/// Whether the pump has ended after answering `response`.
pub open spec fn halted_after(halted: bool, response: PumpResponse) -> bool {
    halted || response is Halt
}

/// The pump's answer to text that is already decoded and free of escapes.
pub fn respond_to_text(text: String, username: &str) -> (r: PumpAction)
    ensures
        r@ == text_response(text@, username@),
{
    match classify(text.as_str(), username) {
        Verdict::UnknownUser => PumpAction::Halt(RelayFault::UnknownUser),
        Verdict::WrongCredentials => PumpAction::Halt(RelayFault::WrongCredentials),
        Verdict::OwnEcho => PumpAction::DropEcho,
        Verdict::Forward => PumpAction::Forward(text),
    }
}

/// The server-to-gateway pump: it turns each read of the TCP session into an
/// action, and ends the relay at most once.
pub struct InboundPump {
    pub username: String,
    pub halted: bool,
}

impl InboundPump {
    /// A pump for a bot logged in as `username`, not yet halted.
    pub fn new(username: String) -> (p: InboundPump)
        ensures
            p.username@ == username@,
            !p.halted,
    {
        InboundPump { username, halted: false }
    }

    /// Answers one read outcome and records whether the relay has ended.
    pub fn on_read(&mut self, outcome: ReadOutcome) -> (r: PumpAction)
        ensures
            r@ == pump_response(old(self).username@, old(self).halted, outcome),
            final(self).username@ == old(self).username@,
            final(self).halted == halted_after(old(self).halted, r@),
    {
        if self.halted {
            return PumpAction::Stopped;
        }
        let r = match outcome {
            ReadOutcome::TimedOut => PumpAction::Idle,
            ReadOutcome::Failed => PumpAction::Halt(RelayFault::Io),
            ReadOutcome::Received(bytes) => {
                if bytes.len() == 0 {
                    PumpAction::Halt(RelayFault::ConnectionClosed)
                } else {
                    match decode_utf8_bytes(bytes) {
                        None => PumpAction::Halt(RelayFault::NotText),
                        Some(decoded) => {
                            let text = strip_ansi(decoded.as_str());
                            respond_to_text(text, self.username.as_str())
                        },
                    }
                }
            },
        };
        if let PumpAction::Halt(_) = r {
            self.halted = true;
        }
        r
    }
}

/// The pump's answers to a sequence of read outcomes, starting from `halted`.
pub open spec fn pump_run(username: Seq<char>, halted: bool, outcomes: Seq<ReadOutcome>) -> Seq<
    PumpResponse,
>
    decreases outcomes.len(),
{
    if outcomes.len() == 0 {
        Seq::empty()
    } else {
        let r = pump_response(username, halted, outcomes[0]);
        seq![r] + pump_run(username, halted_after(halted, r), outcomes.drop_first())
    }
}

/// A line that begins with the bot's own `username:` prefix is never
/// forwarded to the gateway, whatever state the pump is in.
pub proof fn lemma_own_echo_never_forwarded(
    username: Seq<char>,
    halted: bool,
    outcome: ReadOutcome,
)
    requires
        outcome matches ReadOutcome::Received(b) && has_prefix(
            received_text(b@),
            sender_prefix(username),
        ),
    ensures
        !(pump_response(username, halted, outcome) is Forward),
{
}

proof fn lemma_run_len(username: Seq<char>, halted: bool, outcomes: Seq<ReadOutcome>)
    ensures
        pump_run(username, halted, outcomes).len() == outcomes.len(),
    decreases outcomes.len(),
{
    if outcomes.len() > 0 {
        lemma_run_len(username, halted_after(halted, pump_response(username, halted, outcomes[0])), outcomes.drop_first());
    }
}

proof fn lemma_halted_run_stays_stopped(username: Seq<char>, outcomes: Seq<ReadOutcome>)
    ensures
        forall|j: int|
            0 <= j < outcomes.len() ==> #[trigger] pump_run(username, true, outcomes)[j]
                == PumpResponse::Stopped,
    decreases outcomes.len(),
{
    lemma_run_len(username, true, outcomes);
    if outcomes.len() > 0 {
        lemma_halted_run_stays_stopped(username, outcomes.drop_first());
        lemma_run_len(username, true, outcomes.drop_first());
        assert forall|j: int| 0 <= j < outcomes.len() implies #[trigger] pump_run(
            username,
            true,
            outcomes,
        )[j] == PumpResponse::Stopped by {
            if j > 0 {
                assert(pump_run(username, true, outcomes)[j] == pump_run(
                    username,
                    true,
                    outcomes.drop_first(),
                )[j - 1]);
            }
        }
    }
}

/// In any run of the pump, at most one answer ends the relay, and every
/// answer after it is `Stopped`.
pub proof fn lemma_halts_at_most_once(
    username: Seq<char>,
    halted: bool,
    outcomes: Seq<ReadOutcome>,
    i: int,
    j: int,
)
    requires
        0 <= i < j < outcomes.len(),
        pump_run(username, halted, outcomes)[i] is Halt,
    ensures
        pump_run(username, halted, outcomes)[j] == PumpResponse::Stopped,
    decreases outcomes.len(),
{
    let r = pump_response(username, halted, outcomes[0]);
    let rest = outcomes.drop_first();
    let h = halted_after(halted, r);
    lemma_run_len(username, h, rest);
    assert(pump_run(username, halted, outcomes)[j] == pump_run(username, h, rest)[j - 1]);
    if i == 0 {
        lemma_halted_run_stays_stopped(username, rest);
    } else {
        assert(pump_run(username, halted, outcomes)[i] == pump_run(username, h, rest)[i - 1]);
        lemma_halts_at_most_once(username, h, rest, i - 1, j - 1);
    }
}

/// A read of zero bytes, reached before the relay has ended, ends it with
/// `ConnectionClosed` (it is never taken for a timeout), and the pump answers
/// `Stopped` to every read after it.
pub proof fn lemma_closed_connection_halts_once(
    username: Seq<char>,
    outcomes: Seq<ReadOutcome>,
    i: int,
)
    requires
        0 <= i < outcomes.len(),
        outcomes[i] matches ReadOutcome::Received(b) && b@.len() == 0,
        forall|k: int| 0 <= k < i ==> !(#[trigger] pump_run(username, false, outcomes)[k] is Halt),
    ensures
        pump_run(username, false, outcomes)[i] == PumpResponse::Halt(RelayFault::ConnectionClosed),
        forall|j: int|
            i < j < outcomes.len() ==> #[trigger] pump_run(username, false, outcomes)[j]
                == PumpResponse::Stopped,
    decreases outcomes.len(),
{
    let r = pump_response(username, false, outcomes[0]);
    let rest = outcomes.drop_first();
    let h = halted_after(false, r);
    lemma_run_len(username, h, rest);
    if i == 0 {
        lemma_halted_run_stays_stopped(username, rest);
        assert forall|j: int| i < j < outcomes.len() implies #[trigger] pump_run(
            username,
            false,
            outcomes,
        )[j] == PumpResponse::Stopped by {
            assert(pump_run(username, false, outcomes)[j] == pump_run(username, h, rest)[j - 1]);
        }
    } else {
        assert(pump_run(username, false, outcomes)[0] == r);
        assert(!h);
        assert forall|k: int| 0 <= k < i - 1 implies !(#[trigger] pump_run(
            username,
            false,
            rest,
        )[k] is Halt) by {
            assert(pump_run(username, false, outcomes)[k + 1] == pump_run(username, false, rest)[k]);
        }
        assert(rest[i - 1] == outcomes[i]);
        lemma_closed_connection_halts_once(username, rest, i - 1);
        assert forall|j: int| i <= j < outcomes.len() implies #[trigger] pump_run(
            username,
            false,
            outcomes,
        )[j] == pump_run(username, false, rest)[j - 1] by {}
    }
}

} // verus!
