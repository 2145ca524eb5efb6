//! The login exchange run once over the TCP session before either pump starts:
//! username, a settling delay, password, then one read that drains the
//! server's banner. The driver supplies the clock, so the order of the steps
//! can be checked against any sequence of times.
use vstd::prelude::*;

verus! {

/// The delay between the username and the password, in milliseconds.
pub const SETTLE_MS: u64 = 2000;

/// How far the login exchange has gone.
#[derive(Clone, Copy, Debug, PartialEq, Eq, Structural)]
pub enum HandshakeStage {
    Start,
    UsernameSent,
    PasswordSent,
    Ready,
}

/// What the driver must do next.
#[derive(Clone, Copy, Debug, PartialEq, Eq, Structural)]
pub enum HandshakeAction {
    /// Write the raw username bytes.
    SendUsername,
    /// Sleep this many milliseconds, then ask again.
    Wait(u64),
    /// Write the raw password bytes.
    SendPassword,
    /// Read once into a fixed buffer and discard what came.
    DrainBanner,
    /// The session is logged in: start the pumps.
    Done,
}

/// The login exchange: its stage, and the time at which the username went out.
#[derive(Clone, Copy, Debug, PartialEq, Eq, Structural)]
pub struct Handshake {
    pub stage: HandshakeStage,
    pub username_sent_at: u64,
}

/// Whether the settling delay has passed at `now` since `sent_at`.
pub open spec fn settled(sent_at: u64, now: u64) -> bool {
    now >= sent_at + SETTLE_MS
}

/// The exchange's next state and the driver's action, at time `now`.
pub open spec fn handshake_step(h: Handshake, now: u64) -> (Handshake, HandshakeAction) {
    match h.stage {
        HandshakeStage::Start => (
            Handshake { stage: HandshakeStage::UsernameSent, username_sent_at: now },
            HandshakeAction::SendUsername,
        ),
        HandshakeStage::UsernameSent => if settled(h.username_sent_at, now) {
            (
                Handshake { stage: HandshakeStage::PasswordSent, ..h },
                HandshakeAction::SendPassword,
            )
        } else if now < h.username_sent_at {
            (h, HandshakeAction::Wait(SETTLE_MS))
        } else {
            (h, HandshakeAction::Wait((h.username_sent_at + SETTLE_MS - now) as u64))
        },
        HandshakeStage::PasswordSent => (
            Handshake { stage: HandshakeStage::Ready, ..h },
            HandshakeAction::DrainBanner,
        ),
        HandshakeStage::Ready => (h, HandshakeAction::Done),
    }
}

impl Handshake {
    /// An exchange that has not started.
    pub fn new() -> (h: Handshake)
        ensures
            h == (Handshake { stage: HandshakeStage::Start, username_sent_at: 0 }),
    {
        Handshake { stage: HandshakeStage::Start, username_sent_at: 0 }
    }

    /// Whether the session is logged in, so that the pumps may start.
    pub fn is_ready(&self) -> (r: bool)
        ensures
            r == (self.stage == HandshakeStage::Ready),
    {
        self.stage == HandshakeStage::Ready
    }

    /// Advances the exchange at time `now` (milliseconds on the driver's
    /// clock) and returns what the driver must do; the driver does it before
    /// asking again.
    pub fn next(&mut self, now: u64) -> (a: HandshakeAction)
        ensures
            (*final(self), a) == handshake_step(*old(self), now),
    {
        match self.stage {
            HandshakeStage::Start => {
                self.stage = HandshakeStage::UsernameSent;
                self.username_sent_at = now;
                HandshakeAction::SendUsername
            },
            HandshakeStage::UsernameSent => {
                if now >= self.username_sent_at && now - self.username_sent_at >= SETTLE_MS {
                    self.stage = HandshakeStage::PasswordSent;
                    HandshakeAction::SendPassword
                } else if now < self.username_sent_at {
                    HandshakeAction::Wait(SETTLE_MS)
                } else {
                    HandshakeAction::Wait(SETTLE_MS - (now - self.username_sent_at))
                }
            },
            HandshakeStage::PasswordSent => {
                self.stage = HandshakeStage::Ready;
                HandshakeAction::DrainBanner
            },
            HandshakeStage::Ready => HandshakeAction::Done,
        }
    }
}

/// The actions of the exchange from `h`, asked at the given times in turn.
pub open spec fn handshake_run(h: Handshake, times: Seq<u64>) -> Seq<HandshakeAction>
    decreases times.len(),
{
    if times.len() == 0 {
        Seq::empty()
    } else {
        let (h2, a) = handshake_step(h, times[0]);
        seq![a] + handshake_run(h2, times.drop_first())
    }
}

proof fn lemma_run_len(h: Handshake, times: Seq<u64>)
    ensures
        handshake_run(h, times).len() == times.len(),
    decreases times.len(),
{
    if times.len() > 0 {
        lemma_run_len(handshake_step(h, times[0]).0, times.drop_first());
    }
}

proof fn lemma_password_after_settling(h: Handshake, times: Seq<u64>, k: int)
    requires
        h.stage != HandshakeStage::Start,
        0 <= k < times.len(),
        handshake_run(h, times)[k] == HandshakeAction::SendPassword,
    ensures
        h.stage == HandshakeStage::UsernameSent,
        settled(h.username_sent_at, times[k]),
    decreases times.len(),
{
    let (h2, a) = handshake_step(h, times[0]);
    lemma_run_len(h2, times.drop_first());
    if k > 0 {
        assert(handshake_run(h, times)[k] == handshake_run(h2, times.drop_first())[k - 1]);
        lemma_password_after_settling(h2, times.drop_first(), k - 1);
        assert(h2.username_sent_at == h.username_sent_at);
    }
}

/// From a fresh exchange, at whatever times the driver asks, the username is
/// the first thing written, and the password goes out only later and only once
/// the settling delay has passed since the username.
pub proof fn lemma_password_follows_username(times: Seq<u64>, k: int)
    requires
        0 <= k < times.len(),
        handshake_run(Handshake { stage: HandshakeStage::Start, username_sent_at: 0 }, times)[k]
            == HandshakeAction::SendPassword,
    ensures
        handshake_run(Handshake { stage: HandshakeStage::Start, username_sent_at: 0 }, times)[0]
            == HandshakeAction::SendUsername,
        0 < k,
        settled(times[0], times[k]),
{
    let h = Handshake { stage: HandshakeStage::Start, username_sent_at: 0 };
    let (h2, a) = handshake_step(h, times[0]);
    lemma_run_len(h2, times.drop_first());
    if k > 0 {
        assert(handshake_run(h, times)[k] == handshake_run(h2, times.drop_first())[k - 1]);
        lemma_password_after_settling(h2, times.drop_first(), k - 1);
    }
}

} // verus!
