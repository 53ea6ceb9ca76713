//! The handshake that establishes a trusted link: ping rounds with fresh
//! random challenges, with a bounded budget of failed rounds.

use crate::command::OP_PING;
use crate::entropy::random_bytes;
use crate::error::{Fault, Gbl32Error, IoFault};
use crate::session::{exchange_outcome, wire_request, Gbl32, PING_LEN};
use vstd::prelude::*;

verus! {

/// Read timeout, in milliseconds, that the connection gets before the
/// handshake.
pub const READ_TIMEOUT_MS: u64 = 200;

/// Number of failed rounds that the handshake tolerates.
pub const MAX_FAILED_ROUNDS: u8 = 10;

/// How one round of the handshake ended.
pub enum Round {
    /// The device echoed the challenge.
    Echoed,
    /// The round failed in a way that may be tried again.
    Failed,
    /// The round failed in a way that ends the handshake at once.
    Fatal(Fault),
}

/// Where the handshake stands after a round.
pub enum Verdict {
    /// Another round follows; so many rounds have failed so far.
    Retry(nat),
    /// The link is established.
    Ready,
    /// The budget of failed rounds is spent.
    Exhausted,
    /// The connection is broken.
    Fatal(Fault),
}

/// How a round with this challenge ended, given what the connection
/// delivered: a line, or the fault of the read or write. A timeout, a frame
/// that does not decode, a protocol violation and a wrong echo are failed
/// rounds; any other transport fault is fatal.
pub open spec fn round_of(challenge: Seq<u8>, received: Result<Seq<u8>, IoFault>) -> Round {
    match received {
        Err(fault) => if fault == IoFault::TimedOut {
            Round::Failed
        } else {
            Round::Fatal(Fault::Io(fault))
        },
        Ok(line) => match exchange_outcome(OP_PING, line, PING_LEN) {
            Ok(data) => if data == challenge {
                Round::Echoed
            } else {
                Round::Failed
            },
            Err(_) => Round::Failed,
        },
    }
}

/// Where the handshake stands after one more round, `failures` rounds
/// having failed before it.
pub open spec fn after_round(failures: nat, round: Round) -> Verdict {
    match round {
        Round::Echoed => Verdict::Ready,
        Round::Fatal(fault) => Verdict::Fatal(fault),
        Round::Failed => if failures + 1 > MAX_FAILED_ROUNDS {
            Verdict::Exhausted
        } else {
            Verdict::Retry(failures + 1)
        },
    }
}

/// Where the handshake stands after a sequence of rounds; it stops at the
/// first round that ends it.
pub open spec fn after_rounds(failures: nat, rounds: Seq<Round>) -> Verdict
    decreases rounds.len(),
{
    if rounds.len() == 0 {
        Verdict::Retry(failures)
    } else {
        match after_round(failures, rounds[0]) {
            Verdict::Retry(count) => after_rounds(count, rounds.drop_first()),
            verdict => verdict,
        }
    }
}

/// A handshake in progress: the challenge of the round under way and the
/// number of rounds that failed.
pub struct Handshake {
    failures: u8,
    challenge: Vec<u8>,
}

/// What a round of the handshake leads to.
pub enum Opening {
    /// The link is established: the session is ready for commands.
    Ready(Gbl32),
    /// The round failed: another one follows.
    Retry(Handshake),
    /// The handshake is over without a session.
    Failed(Gbl32Error),
}

impl Handshake {
    /// Number of rounds that failed so far.
    pub closed spec fn failures(&self) -> nat {
        self.failures as nat
    }

    /// The bytes that the round under way asks the device to echo.
    pub closed spec fn challenge(&self) -> Seq<u8> {
        self.challenge@
    }

    /// The budget is not spent and the challenge has 8 bytes.
    #[verifier::type_invariant]
    spec fn wf(&self) -> bool {
        self.failures <= MAX_FAILED_ROUNDS && self.challenge@.len() == PING_LEN
    }

    /// Starts a handshake with a fresh random challenge.
    pub fn begin() -> (handshake: Handshake)
        ensures
            handshake.failures() == 0,
            handshake.challenge().len() == PING_LEN,
    {
        Handshake { failures: 0, challenge: random_bytes(PING_LEN) }
    }

    /// Number of rounds that failed so far.
    pub fn failed_rounds(&self) -> (count: u8)
        ensures
            count == self.failures(),
    {
        self.failures
    }

    /// The bytes to write for the round under way: a ping that carries the
    /// challenge.
    pub fn frame(&self) -> (wire: Vec<u8>)
        ensures
            wire@ == wire_request(OP_PING, self.challenge()),
    {
        Gbl32::request(OP_PING, self.challenge.as_slice())
    }

    /// Counts a failed round: the handshake fails once more than 10 rounds
    /// have failed, else the next round gets a fresh challenge.
    fn fail_round(self) -> (opening: Opening)
        ensures
            opening.verdict() == after_round(self.failures(), Round::Failed),
    {
        proof {
            use_type_invariant(&self);
        }
        if self.failures >= MAX_FAILED_ROUNDS {
            Opening::Failed(Gbl32Error::Handshake)
        } else {
            Opening::Retry(
                Handshake { failures: self.failures + 1, challenge: random_bytes(PING_LEN) },
            )
        }
    }
}

impl Opening {
    /// Where the handshake stands with this opening.
    pub open spec fn verdict(&self) -> Verdict {
        match *self {
            Opening::Ready(_) => Verdict::Ready,
            Opening::Retry(next) => Verdict::Retry(next.failures()),
            Opening::Failed(e) => if e@ == Fault::Handshake {
                Verdict::Exhausted
            } else {
                Verdict::Fatal(e@)
            },
        }
    }
}

impl Gbl32 {
    /// Judges one round of the handshake from what the connection delivered
    /// after the round's ping was written: the line read up to the
    /// delimiter, or the fault of the write or read. A correct echo gives a
    /// ready session. A failed round is counted, and the handshake fails
    /// once more than 10 rounds have failed. Any other transport fault ends
    /// the handshake at once.
    pub fn from_port(handshake: Handshake, received: Result<Vec<u8>, IoFault>) -> (opening:
        Opening)
        ensures
            opening.verdict() == after_round(
                handshake.failures(),
                round_of(handshake.challenge(), view_received(received)),
            ),
            opening matches Opening::Ready(session) ==> session.data() == handshake.challenge(),
    {
        proof {
            use_type_invariant(&handshake);
        }
        match received {
            Err(IoFault::TimedOut) => handshake.fail_round(),
            Err(IoFault::Other) => Opening::Failed(Gbl32Error::Io(IoFault::Other)),
            Ok(line) => {
                let mut session = Gbl32::new();
                match session.ping(handshake.challenge.as_slice(), line) {
                    Ok(true) => Opening::Ready(session),
                    Ok(false) => handshake.fail_round(),
                    Err(e) => {
                        if e.is_retryable() {
                            handshake.fail_round()
                        } else {
                            Opening::Failed(e)
                        }
                    },
                }
            },
        }
    }
}

/// What the connection delivered, with the line as a sequence of bytes.
pub open spec fn view_received(received: Result<Vec<u8>, IoFault>) -> Result<Seq<u8>, IoFault> {
    match received {
        Ok(line) => Ok(line@),
        Err(fault) => Err(fault),
    }
}

/// A run of rounds that all failed.
pub open spec fn all_failed(rounds: Seq<Round>) -> bool {
    forall|i: int| 0 <= i < rounds.len() ==> rounds[i] == Round::Failed
}

/// While every round fails, the handshake goes on through the first 10
/// failed rounds and is exhausted by the 11th: it fails exactly when more
/// than 10 rounds have failed.
pub proof fn lemma_budget_of_failed_rounds(failures: nat, rounds: Seq<Round>)
    requires
        failures <= MAX_FAILED_ROUNDS,
        all_failed(rounds),
    ensures
        after_rounds(failures, rounds) == if failures + rounds.len() > MAX_FAILED_ROUNDS {
            Verdict::Exhausted
        } else {
            Verdict::Retry(failures + rounds.len())
        },
    decreases rounds.len(),
{
    if rounds.len() > 0 {
        assert(rounds[0] == Round::Failed);
        if failures + 1 <= MAX_FAILED_ROUNDS {
            let rest = rounds.drop_first();
            assert forall|i: int| 0 <= i < rest.len() implies rest[i] == Round::Failed by {
                assert(rest[i] == rounds[i + 1]);
            }
            lemma_budget_of_failed_rounds(failures + 1, rest);
        }
    }
}

/// The handshake goes on only through failed rounds, and through at most 10
/// of them: whatever the peer does, it has ended after 11 rounds.
pub proof fn lemma_handshake_ends(failures: nat, rounds: Seq<Round>)
    requires
        failures <= MAX_FAILED_ROUNDS,
    ensures
        after_rounds(failures, rounds) matches Verdict::Retry(count) ==> count == failures
            + rounds.len() && count <= MAX_FAILED_ROUNDS && all_failed(rounds),
    decreases rounds.len(),
{
    if rounds.len() > 0 {
        if let Verdict::Retry(count) = after_round(failures, rounds[0]) {
            let rest = rounds.drop_first();
            lemma_handshake_ends(count, rest);
            if after_rounds(count, rest) is Retry {
                assert forall|i: int| 0 <= i < rounds.len() implies rounds[i] == Round::Failed by {
                    if i > 0 {
                        assert(rounds[i] == rest[i - 1]);
                    }
                }
            }
        }
    }
}

/// A correct echo establishes the link in the round in which it comes,
/// whenever at most 10 rounds failed before it: against a peer that always
/// echoes, in the first round.
pub proof fn lemma_echo_ends_handshake(failed: Seq<Round>, later: Seq<Round>)
    requires
        failed.len() <= MAX_FAILED_ROUNDS,
        all_failed(failed),
    ensures
        after_rounds(0, failed.push(Round::Echoed) + later) == Verdict::Ready,
{
    lemma_echo_after(0, failed, later);
}

/// The same, from any number of failures within the budget.
proof fn lemma_echo_after(failures: nat, failed: Seq<Round>, later: Seq<Round>)
    requires
        failures + failed.len() <= MAX_FAILED_ROUNDS,
        all_failed(failed),
    ensures
        after_rounds(failures, failed.push(Round::Echoed) + later) == Verdict::Ready,
    decreases failed.len(),
{
    let rounds = failed.push(Round::Echoed) + later;
    if failed.len() == 0 {
        assert(rounds[0] == Round::Echoed);
    } else {
        assert(rounds[0] == failed[0]);
        let rest = failed.drop_first();
        assert forall|i: int| 0 <= i < rest.len() implies rest[i] == Round::Failed by {
            assert(rest[i] == failed[i + 1]);
        }
        assert(rounds.drop_first() =~= rest.push(Round::Echoed) + later);
        lemma_echo_after(failures + 1, rest, later);
    }
}

} // verus!
