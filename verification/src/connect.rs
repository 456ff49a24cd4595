//! Negotiating a connection to the card in the primary reader.
//!
//! The protocols are tried in a fixed order. A failed attempt is repeated on
//! the same protocol only while the failure is temporary and fewer than
//! `MAX_CONNECT_ATTEMPTS` attempts have been made on it; otherwise the next
//! protocol is tried, and after the last one the negotiation gives up.
//!
//! The caller makes each attempt and reports how it ended; `Negotiation`
//! decides what comes next.

use vstd::prelude::*;
use crate::device::{is_temporary, is_temporary_error, DeviceError, Protocol};
use crate::readers::PRIMARY_READER;

verus! {

/// How many times a connection is attempted on one protocol.
pub const MAX_CONNECT_ATTEMPTS: u8 = 3;

/// How long to wait, in milliseconds, before repeating a failed attempt.
pub const CONNECT_RETRY_DELAY_MS: u64 = 500;

/// The state of one negotiation.
#[derive(Debug, Clone, Copy, PartialEq, Eq, Structural)]
pub enum Negotiation {
    /// The next attempt uses `protocol`; `failures` attempts on it have failed.
    Attempting { protocol: Protocol, failures: u8 },
    /// An attempt on `protocol` succeeded.
    Connected { protocol: Protocol },
    /// Every protocol was tried without success.
    Exhausted,
}

/// How a connection shares the card with other applications.
#[derive(Debug, Clone, Copy, PartialEq, Eq, Structural)]
pub enum AccessMode {
    /// Other applications may use the card at the same time.
    Shared,
    /// No other application may use the card.
    Exclusive,
    /// The reader is addressed without a card.
    Direct,
}

/// One connection attempt, as the caller is to make it.
#[derive(Debug, Clone, Copy, PartialEq, Eq, Structural)]
pub struct ConnectRequest {
    /// The reader to connect to, by its position in the listing that the
    /// iteration began with.
    pub reader: usize,
    pub protocol: Protocol,
    pub mode: AccessMode,
}

/// The outcome of one connection attempt, as the caller reports it.
pub type ConnectOutcome = Result<(), DeviceError>;

/// The protocol tried after `protocol`, if any.
pub open spec fn next_protocol(protocol: Protocol) -> Option<Protocol> {
    match protocol {
        Protocol::T1 => Some(Protocol::T0),
        Protocol::T0 => Some(Protocol::Raw),
        Protocol::Raw => None,
    }
}

/// The state in which a negotiation starts.
pub open spec fn initial_negotiation() -> Negotiation {
    Negotiation::Attempting { protocol: Protocol::T1, failures: 0 }
}

/// The state reached when the attempts on `protocol` are given up.
pub open spec fn after_protocol(protocol: Protocol) -> Negotiation {
    match next_protocol(protocol) {
        Some(next) => Negotiation::Attempting { protocol: next, failures: 0 },
        None => Negotiation::Exhausted,
    }
}

/// Whether a failed attempt is repeated on the same protocol.
pub open spec fn repeats(failures: u8, error: DeviceError) -> bool {
    failures + 1 < MAX_CONNECT_ATTEMPTS && is_temporary(error)
}

/// The state that follows `state` once the pending attempt ended in `outcome`.
pub open spec fn connect_step(state: Negotiation, outcome: ConnectOutcome) -> Negotiation {
    match state {
        Negotiation::Attempting { protocol, failures } => match outcome {
            Ok(_) => Negotiation::Connected { protocol },
            Err(error) => if repeats(failures, error) {
                Negotiation::Attempting { protocol, failures: (failures + 1) as u8 }
            } else {
                after_protocol(protocol)
            },
        },
        _ => state,
    }
}

/// The pause, in milliseconds, before the attempt that follows `outcome`.
pub open spec fn connect_wait(state: Negotiation, outcome: ConnectOutcome) -> u64 {
    match (state, outcome) {
        (Negotiation::Attempting { failures, .. }, Err(error)) => if repeats(failures, error) {
            CONNECT_RETRY_DELAY_MS
        } else {
            0
        },
        _ => 0,
    }
}

/// The attempt that is pending in `state`, if one is: a connection to the
/// primary reader, in shared mode, with the protocol whose turn it is.
pub open spec fn pending_attempt(state: Negotiation) -> Option<ConnectRequest> {
    match state {
        Negotiation::Attempting { protocol, .. } => Some(
            ConnectRequest { reader: PRIMARY_READER, protocol, mode: AccessMode::Shared },
        ),
        _ => None,
    }
}

/// The state reached from `state` when the attempts end, in order, as
/// `outcomes` says. Outcomes left over once the negotiation has ended are
/// ignored.
pub open spec fn negotiate(state: Negotiation, outcomes: Seq<ConnectOutcome>) -> Negotiation
    decreases outcomes.len(),
{
    if outcomes.len() == 0 {
        state
    } else {
        negotiate(connect_step(state, outcomes[0]), outcomes.drop_first())
    }
}

/// The protocols of the attempts made from `state` when they end, in order,
/// as `outcomes` says.
pub open spec fn attempts(state: Negotiation, outcomes: Seq<ConnectOutcome>) -> Seq<Protocol>
    decreases outcomes.len(),
{
    if outcomes.len() == 0 {
        Seq::empty()
    } else {
        match state {
            Negotiation::Attempting { protocol, .. } => seq![protocol] + attempts(
                connect_step(state, outcomes[0]),
                outcomes.drop_first(),
            ),
            _ => Seq::empty(),
        }
    }
}

/// An upper bound on the attempts still to be made from `state`.
pub open spec fn attempts_left(state: Negotiation) -> nat {
    match state {
        Negotiation::Attempting { protocol, failures } => {
            let here: nat = if failures < MAX_CONNECT_ATTEMPTS {
                (MAX_CONNECT_ATTEMPTS - failures) as nat
            } else {
                1
            };
            let later: nat = match protocol {
                Protocol::T1 => 2 * MAX_CONNECT_ATTEMPTS as nat,
                Protocol::T0 => MAX_CONNECT_ATTEMPTS as nat,
                Protocol::Raw => 0,
            };
            here + later
        },
        _ => 0,
    }
}

impl Negotiation {
    /// Starts a negotiation: the first attempt uses the first protocol.
    pub fn begin() -> (state: Negotiation)
        ensures
            state == initial_negotiation(),
    {
        Negotiation::Attempting { protocol: Protocol::T1, failures: 0 }
    }

    /// The connection attempt to make next, or `None` once the negotiation
    /// has ended.
    pub fn pending(&self) -> (request: Option<ConnectRequest>)
        ensures
            request == pending_attempt(*self),
    {
        match self {
            Negotiation::Attempting { protocol, .. } => Some(
                ConnectRequest {
                    reader: PRIMARY_READER,
                    protocol: *protocol,
                    mode: AccessMode::Shared,
                },
            ),
            _ => None,
        }
    }

    /// Whether an attempt succeeded.
    pub fn is_connected(&self) -> (connected: bool)
        ensures
            connected == (*self is Connected),
    {
        match self {
            Negotiation::Connected { .. } => true,
            _ => false,
        }
    }

    /// Takes in how the pending attempt ended and moves to the next state.
    /// Returns the pause, in milliseconds, to make before the next attempt.
    pub fn record(&mut self, outcome: &ConnectOutcome) -> (wait_ms: u64)
        ensures
            *final(self) == connect_step(*old(self), *outcome),
            wait_ms == connect_wait(*old(self), *outcome),
    {
        match *self {
            Negotiation::Attempting { protocol, failures } => match outcome {
                Ok(_) => {
                    *self = Negotiation::Connected { protocol };
                    0
                },
                Err(error) => {
                    if failures < MAX_CONNECT_ATTEMPTS - 1 && is_temporary_error(error) {
                        *self = Negotiation::Attempting { protocol, failures: failures + 1 };
                        CONNECT_RETRY_DELAY_MS
                    } else {
                        *self = match protocol {
                            Protocol::T1 => Negotiation::Attempting {
                                protocol: Protocol::T0,
                                failures: 0,
                            },
                            Protocol::T0 => Negotiation::Attempting {
                                protocol: Protocol::Raw,
                                failures: 0,
                            },
                            Protocol::Raw => Negotiation::Exhausted,
                        };
                        0
                    }
                },
            },
            _ => 0,
        }
    }
}

/// Unfolds one attempt of a run that starts at position `at` of `outcomes`.
proof fn lemma_unfold_attempt(state: Negotiation, outcomes: Seq<ConnectOutcome>, at: int)
    requires
        0 <= at < outcomes.len(),
    ensures
        negotiate(state, outcomes.skip(at)) == negotiate(
            connect_step(state, outcomes[at]),
            outcomes.skip(at + 1),
        ),
        attempts(state, outcomes.skip(at)) == match state {
            Negotiation::Attempting { protocol, .. } => seq![protocol] + attempts(
                connect_step(state, outcomes[at]),
                outcomes.skip(at + 1),
            ),
            _ => Seq::empty(),
        },
{
    assert(outcomes.skip(at).drop_first() =~= outcomes.skip(at + 1));
    assert(outcomes.skip(at)[0] == outcomes[at]);
}

/// A negotiation never makes more attempts than `attempts_left` allows, and
/// has ended once that many outcomes were taken in.
pub proof fn lemma_attempts_bounded(state: Negotiation, outcomes: Seq<ConnectOutcome>)
    ensures
        attempts(state, outcomes).len() <= attempts_left(state),
        attempts(state, outcomes).len() <= outcomes.len(),
        outcomes.len() >= attempts_left(state) ==> !(negotiate(state, outcomes) is Attempting),
    decreases outcomes.len(),
{
    if outcomes.len() > 0 {
        lemma_attempts_bounded(connect_step(state, outcomes[0]), outcomes.drop_first());
    }
}

/// Every attempt of a negotiation goes to the primary reader, in shared
/// mode, with the protocol whose turn it is.
pub proof fn law_attempts_go_to_primary_reader(protocol: Protocol, failures: u8)
    ensures
        pending_attempt(Negotiation::Attempting { protocol, failures }) == Some(
            ConnectRequest { reader: PRIMARY_READER, protocol, mode: AccessMode::Shared },
        ),
{
}

/// Whatever the outcomes, a negotiation makes at most nine attempts: three
/// protocols, at most three attempts on each.
pub proof fn law_at_most_nine_attempts(outcomes: Seq<ConnectOutcome>)
    ensures
        attempts(initial_negotiation(), outcomes).len() <= 9,
        outcomes.len() >= 9 ==> !(negotiate(initial_negotiation(), outcomes) is Attempting),
{
    lemma_attempts_bounded(initial_negotiation(), outcomes);
}

/// While every attempt ends in a temporary failure, each protocol is
/// attempted exactly three times, in order, and the negotiation gives up
/// after the ninth attempt.
pub proof fn law_temporary_failures_exhaust(outcomes: Seq<ConnectOutcome>)
    requires
        outcomes.len() >= 9,
        forall|i: int| 0 <= i < 9 ==> (#[trigger] outcomes[i]) is Err && is_temporary(outcomes[i]->Err_0),
    ensures
        attempts(initial_negotiation(), outcomes) == seq![
            Protocol::T1,
            Protocol::T1,
            Protocol::T1,
            Protocol::T0,
            Protocol::T0,
            Protocol::T0,
            Protocol::Raw,
            Protocol::Raw,
            Protocol::Raw,
        ],
        negotiate(initial_negotiation(), outcomes) == Negotiation::Exhausted,
{
    let s0 = initial_negotiation();
    let s1 = connect_step(s0, outcomes[0]);
    let s2 = connect_step(s1, outcomes[1]);
    let s3 = connect_step(s2, outcomes[2]);
    let s4 = connect_step(s3, outcomes[3]);
    let s5 = connect_step(s4, outcomes[4]);
    let s6 = connect_step(s5, outcomes[5]);
    let s7 = connect_step(s6, outcomes[6]);
    let s8 = connect_step(s7, outcomes[7]);
    let s9 = connect_step(s8, outcomes[8]);
    assert(s3 == Negotiation::Attempting { protocol: Protocol::T0, failures: 0 });
    assert(s6 == Negotiation::Attempting { protocol: Protocol::Raw, failures: 0 });
    assert(s9 == Negotiation::Exhausted);
    assert(outcomes.skip(0) =~= outcomes);
    lemma_unfold_attempt(s0, outcomes, 0);
    lemma_unfold_attempt(s1, outcomes, 1);
    lemma_unfold_attempt(s2, outcomes, 2);
    lemma_unfold_attempt(s3, outcomes, 3);
    lemma_unfold_attempt(s4, outcomes, 4);
    lemma_unfold_attempt(s5, outcomes, 5);
    lemma_unfold_attempt(s6, outcomes, 6);
    lemma_unfold_attempt(s7, outcomes, 7);
    lemma_unfold_attempt(s8, outcomes, 8);
    lemma_ended_stays(s9, outcomes.skip(9));
}

/// Once a negotiation has ended, further outcomes change nothing and no
/// attempt is made.
pub proof fn lemma_ended_stays(state: Negotiation, outcomes: Seq<ConnectOutcome>)
    requires
        !(state is Attempting),
    ensures
        negotiate(state, outcomes) == state,
        attempts(state, outcomes) == Seq::<Protocol>::empty(),
    decreases outcomes.len(),
{
    if outcomes.len() > 0 {
        lemma_ended_stays(state, outcomes.drop_first());
    }
}

} // verus!
