//! Reading the identifier of a connected card.
//!
//! Five read commands are tried in a fixed order. Each answer ends in a
//! two-byte status word. The success status ends the extraction: the bytes
//! before it are the identifier. The status "security condition not
//! satisfied" is followed by one authentication with the public default key,
//! unless an authentication has already succeeded, and then by the next
//! command. Any other answer, and any failure to exchange, moves on to the
//! next command.
//!
//! The caller transmits each request and reports the answer; `Extraction`
//! decides what comes next.

use vstd::prelude::*;
use crate::device::DeviceError;

verus! {

/// How many read commands are tried.
pub const UID_COMMAND_COUNT: u8 = 5;

/// What the card answered to a request, or how the exchange failed.
pub type Reply = Result<Vec<u8>, DeviceError>;

/// The state of one extraction.
#[derive(Debug, Clone, Copy, PartialEq, Eq, Structural)]
pub enum Extraction {
    /// Read command number `command` is to be transmitted.
    Querying { command: u8, authenticated: bool },
    /// The authentication request is to be transmitted; it follows read
    /// command number `command`.
    Authenticating { command: u8 },
    /// Nothing more is to be transmitted.
    Finished,
}

/// The bytes of read command number `command`.
pub open spec fn uid_command(command: int) -> Seq<u8> {
    if command == 0 {
        seq![0xFFu8, 0xCAu8, 0x00u8, 0x00u8, 0x04u8]
    } else if command == 1 {
        seq![0x00u8, 0x04u8, 0x00u8, 0x00u8]
    } else if command == 2 {
        seq![0xFFu8, 0xCAu8, 0x00u8, 0x00u8, 0x08u8]
    } else if command == 3 {
        seq![0xFFu8, 0xCAu8, 0x01u8, 0x00u8, 0x00u8]
    } else {
        seq![0xFFu8, 0xCAu8, 0x02u8, 0x00u8, 0x00u8]
    }
}

/// The bytes of the authentication request: key A of sector 0, with the
/// public default key.
pub open spec fn auth_command() -> Seq<u8> {
    seq![
        0xFFu8, 0x86u8, 0x00u8, 0x00u8, 0x05u8, 0x01u8, 0x00u8, 0x00u8, 0x60u8, 0x00u8,
        0xFFu8, 0xFFu8, 0xFFu8, 0xFFu8, 0xFFu8, 0xFFu8,
    ]
}

/// What a reply holds, as far as the extraction reads it: the answer's
/// bytes, or nothing when the exchange failed.
pub open spec fn reply_bytes(reply: Reply) -> Option<Seq<u8>> {
    match reply {
        Ok(bytes) => Some(bytes@),
        Err(_) => None,
    }
}

/// Whether an answer ends in the status word `sw1 sw2`.
pub open spec fn has_status(answer: Seq<u8>, sw1: u8, sw2: u8) -> bool {
    answer.len() >= 2 && answer[answer.len() - 2] == sw1 && answer[answer.len() - 1] == sw2
}

/// Whether an answer reports success.
pub open spec fn is_success(answer: Seq<u8>) -> bool {
    has_status(answer, 0x90, 0x00)
}

/// Whether an answer reports that the security condition is not satisfied.
pub open spec fn needs_authentication(answer: Seq<u8>) -> bool {
    has_status(answer, 0x69, 0x82)
}

/// An answer without its status word.
pub open spec fn payload(answer: Seq<u8>) -> Seq<u8> {
    answer.take(answer.len() - 2)
}

/// The state in which an extraction starts.
pub open spec fn initial_extraction() -> Extraction {
    Extraction::Querying { command: 0, authenticated: false }
}

/// The state after read command number `command` is done with.
pub open spec fn after_command(command: u8, authenticated: bool) -> Extraction {
    if command + 1 < UID_COMMAND_COUNT {
        Extraction::Querying { command: (command + 1) as u8, authenticated }
    } else {
        Extraction::Finished
    }
}

/// The state that follows `state` once the pending request was answered by
/// `reply`.
pub open spec fn extraction_step(state: Extraction, reply: Option<Seq<u8>>) -> Extraction {
    match state {
        Extraction::Querying { command, authenticated } => match reply {
            Some(answer) => if is_success(answer) {
                Extraction::Finished
            } else if needs_authentication(answer) && !authenticated {
                Extraction::Authenticating { command }
            } else {
                after_command(command, authenticated)
            },
            None => after_command(command, authenticated),
        },
        Extraction::Authenticating { command } => after_command(command, reply is Some),
        Extraction::Finished => Extraction::Finished,
    }
}

/// The identifier that `reply` yields in `state`, if it yields one.
pub open spec fn step_identifier(state: Extraction, reply: Option<Seq<u8>>) -> Option<Seq<u8>> {
    match (state, reply) {
        (Extraction::Querying { .. }, Some(answer)) => if is_success(answer) {
            Some(payload(answer))
        } else {
            None
        },
        _ => None,
    }
}

/// The request that is pending in `state`, if one is.
pub open spec fn pending_request(state: Extraction) -> Option<Seq<u8>> {
    match state {
        Extraction::Querying { command, .. } => Some(uid_command(command as int)),
        Extraction::Authenticating { .. } => Some(auth_command()),
        Extraction::Finished => None,
    }
}

/// The state reached from `state` when the requests are answered, in
/// order, by `replies`.
pub open spec fn extraction_after(state: Extraction, replies: Seq<Option<Seq<u8>>>) -> Extraction
    decreases replies.len(),
{
    if replies.len() == 0 {
        state
    } else {
        extraction_after(extraction_step(state, replies[0]), replies.drop_first())
    }
}

/// The identifier found from `state` when the requests are answered, in
/// order, by `replies`. Replies left over once the extraction has finished
/// are ignored.
pub open spec fn extract(state: Extraction, replies: Seq<Option<Seq<u8>>>) -> Option<Seq<u8>>
    decreases replies.len(),
{
    if replies.len() == 0 {
        None
    } else {
        match step_identifier(state, replies[0]) {
            Some(identifier) => Some(identifier),
            None => extract(extraction_step(state, replies[0]), replies.drop_first()),
        }
    }
}

/// The requests transmitted from `state` when they are answered, in order,
/// by `replies`.
pub open spec fn requests(state: Extraction, replies: Seq<Option<Seq<u8>>>) -> Seq<Seq<u8>>
    decreases replies.len(),
{
    if replies.len() == 0 {
        Seq::empty()
    } else {
        match pending_request(state) {
            Some(request) => seq![request] + requests(
                extraction_step(state, replies[0]),
                replies.drop_first(),
            ),
            None => Seq::empty(),
        }
    }
}

/// How many authentication requests are transmitted from `state` when the
/// requests are answered, in order, by `replies`.
pub open spec fn authentications(state: Extraction, replies: Seq<Option<Seq<u8>>>) -> nat
    decreases replies.len(),
{
    if replies.len() == 0 || state is Finished {
        0
    } else {
        let rest = authentications(extraction_step(state, replies[0]), replies.drop_first());
        if state is Authenticating {
            1 + rest
        } else {
            rest
        }
    }
}

/// An upper bound on the requests still to be transmitted from `state`.
pub open spec fn requests_left(state: Extraction) -> nat {
    match state {
        Extraction::Querying { command, .. } => if command < UID_COMMAND_COUNT {
            (2 * (UID_COMMAND_COUNT - command)) as nat
        } else {
            2
        },
        Extraction::Authenticating { command } => if command < UID_COMMAND_COUNT {
            (2 * (UID_COMMAND_COUNT - command) - 1) as nat
        } else {
            1
        },
        Extraction::Finished => 0,
    }
}

/// Reads the status word of an answer.
fn status_word(answer: &Vec<u8>) -> (status: Option<(u8, u8)>)
    ensures
        answer@.len() < 2 ==> status is None,
        answer@.len() >= 2 ==> status == Some(
            (answer@[answer@.len() - 2], answer@[answer@.len() - 1]),
        ),
{
    let len: usize = answer.len();
    if len >= 2 {
        Some((answer[len - 2], answer[len - 1]))
    } else {
        None
    }
}

/// Copies an answer without its status word.
fn payload_of(answer: &Vec<u8>) -> (bytes: Vec<u8>)
    requires
        answer@.len() >= 2,
    ensures
        bytes@ == payload(answer@),
{
    let end: usize = answer.len() - 2;
    let mut bytes: Vec<u8> = Vec::new();
    let mut i: usize = 0;
    while i < end
        invariant
            i <= end,
            end == answer@.len() - 2,
            bytes@ == answer@.take(i as int),
        decreases end - i,
    {
        bytes.push(answer[i]);
        i += 1;
        assert(answer@.take(i as int) =~= answer@.take(i - 1).push(answer@[i - 1]));
    }
    bytes
}

impl Extraction {
    /// Starts an extraction: the first read command is pending.
    pub fn begin() -> (state: Extraction)
        ensures
            state == initial_extraction(),
    {
        Extraction::Querying { command: 0, authenticated: false }
    }

    /// The bytes to transmit next, or `None` once the extraction has
    /// finished.
    pub fn request(&self) -> (bytes: Option<Vec<u8>>)
        ensures
            match bytes {
                Some(b) => pending_request(*self) == Some(b@),
                None => pending_request(*self) is None,
            },
    {
        match self {
            Extraction::Querying { command, .. } => {
                let bytes: Vec<u8> = if *command == 0 {
                    vec![0xFF, 0xCA, 0x00, 0x00, 0x04]
                } else if *command == 1 {
                    vec![0x00, 0x04, 0x00, 0x00]
                } else if *command == 2 {
                    vec![0xFF, 0xCA, 0x00, 0x00, 0x08]
                } else if *command == 3 {
                    vec![0xFF, 0xCA, 0x01, 0x00, 0x00]
                } else {
                    vec![0xFF, 0xCA, 0x02, 0x00, 0x00]
                };
                assert(bytes@ =~= uid_command(*command as int));
                Some(bytes)
            },
            Extraction::Authenticating { .. } => {
                let bytes: Vec<u8> = vec![
                    0xFF, 0x86, 0x00, 0x00, 0x05, 0x01, 0x00, 0x00, 0x60, 0x00,
                    0xFF, 0xFF, 0xFF, 0xFF, 0xFF, 0xFF,
                ];
                assert(bytes@ =~= auth_command());
                Some(bytes)
            },
            Extraction::Finished => None,
        }
    }

    /// Whether nothing more is to be transmitted.
    pub fn is_finished(&self) -> (finished: bool)
        ensures
            finished == (*self is Finished),
    {
        match self {
            Extraction::Finished => true,
            _ => false,
        }
    }

    /// Takes in the reply to the pending request and moves to the next
    /// state. Returns the identifier when this reply yields it.
    pub fn respond(&mut self, reply: &Reply) -> (identifier: Option<Vec<u8>>)
        ensures
            *final(self) == extraction_step(*old(self), reply_bytes(*reply)),
            match identifier {
                Some(bytes) => step_identifier(*old(self), reply_bytes(*reply)) == Some(bytes@),
                None => step_identifier(*old(self), reply_bytes(*reply)) is None,
            },
    {
        match *self {
            Extraction::Querying { command, authenticated } => {
                let next: Extraction = if command < UID_COMMAND_COUNT - 1 {
                    Extraction::Querying { command: command + 1, authenticated }
                } else {
                    Extraction::Finished
                };
                match reply {
                    Ok(answer) => match status_word(answer) {
                        Some((sw1, sw2)) => {
                            if sw1 == 0x90 && sw2 == 0x00 {
                                *self = Extraction::Finished;
                                Some(payload_of(answer))
                            } else if sw1 == 0x69 && sw2 == 0x82 && !authenticated {
                                *self = Extraction::Authenticating { command };
                                None
                            } else {
                                *self = next;
                                None
                            }
                        },
                        None => {
                            *self = next;
                            None
                        },
                    },
                    Err(_) => {
                        *self = next;
                        None
                    },
                }
            },
            Extraction::Authenticating { command } => {
                let authenticated: bool = reply.is_ok();
                *self = if command < UID_COMMAND_COUNT - 1 {
                    Extraction::Querying { command: command + 1, authenticated }
                } else {
                    Extraction::Finished
                };
                None
            },
            Extraction::Finished => None,
        }
    }
}

/// Unfolds one exchange of a run that starts at position `at` of `replies`.
proof fn lemma_unfold_exchange(state: Extraction, replies: Seq<Option<Seq<u8>>>, at: int)
    requires
        0 <= at < replies.len(),
    ensures
        extract(state, replies.skip(at)) == match step_identifier(state, replies[at]) {
            Some(identifier) => Some(identifier),
            None => extract(extraction_step(state, replies[at]), replies.skip(at + 1)),
        },
        requests(state, replies.skip(at)) == match pending_request(state) {
            Some(request) => seq![request] + requests(
                extraction_step(state, replies[at]),
                replies.skip(at + 1),
            ),
            None => Seq::empty(),
        },
        authentications(state, replies.skip(at)) == if state is Finished {
            0
        } else {
            let rest = authentications(extraction_step(state, replies[at]), replies.skip(at + 1));
            if state is Authenticating {
                1 + rest
            } else {
                rest
            }
        },
{
    assert(replies.skip(at).drop_first() =~= replies.skip(at + 1));
    assert(replies.skip(at)[0] == replies[at]);
}

/// Once an extraction has finished, nothing more is transmitted or found.
pub proof fn lemma_finished_stays(replies: Seq<Option<Seq<u8>>>)
    ensures
        extraction_after(Extraction::Finished, replies) == Extraction::Finished,
        extract(Extraction::Finished, replies) is None,
        requests(Extraction::Finished, replies) == Seq::<Seq<u8>>::empty(),
        authentications(Extraction::Finished, replies) == 0,
    decreases replies.len(),
{
    if replies.len() > 0 {
        lemma_finished_stays(replies.drop_first());
    }
}

/// An extraction never transmits more requests than `requests_left` allows,
/// and has finished once that many replies were taken in.
pub proof fn lemma_requests_bounded(state: Extraction, replies: Seq<Option<Seq<u8>>>)
    ensures
        requests(state, replies).len() <= requests_left(state),
        replies.len() >= requests_left(state) ==> extraction_after(state, replies) is Finished,
    decreases replies.len(),
{
    if replies.len() > 0 {
        lemma_requests_bounded(extraction_step(state, replies[0]), replies.drop_first());
    }
}

/// After an authentication has succeeded, no further one is requested.
pub proof fn law_no_authentication_after_success(command: u8, replies: Seq<Option<Seq<u8>>>)
    ensures
        authentications(Extraction::Querying { command, authenticated: true }, replies) == 0,
    decreases replies.len(),
{
    if replies.len() > 0 {
        let state = Extraction::Querying { command, authenticated: true };
        let next = extraction_step(state, replies[0]);
        if next is Finished {
            lemma_finished_stays(replies.drop_first());
        } else {
            law_no_authentication_after_success((command + 1) as u8, replies.drop_first());
        }
    }
}

/// Whatever the card answers, an extraction transmits at most ten requests:
/// five read commands, each followed by at most one authentication.
pub proof fn law_at_most_ten_requests(replies: Seq<Option<Seq<u8>>>)
    ensures
        requests(initial_extraction(), replies).len() <= 10,
        replies.len() >= 10 ==> extraction_after(initial_extraction(), replies) is Finished,
{
    lemma_requests_bounded(initial_extraction(), replies);
}

/// When the first read command is refused for want of authentication, the
/// authentication goes through, and the second read command succeeds, then
/// exactly three requests are transmitted, exactly one of them an
/// authentication, and the identifier is the second command's answer without
/// its status word.
pub proof fn law_authentication_fallback(replies: Seq<Option<Seq<u8>>>)
    requires
        replies.len() >= 3,
        replies[0] is Some && needs_authentication(replies[0]->0),
        replies[1] is Some,
        replies[2] is Some && is_success(replies[2]->0),
    ensures
        extract(initial_extraction(), replies) == Some(payload(replies[2]->0)),
        requests(initial_extraction(), replies) == seq![
            uid_command(0),
            auth_command(),
            uid_command(1),
        ],
        authentications(initial_extraction(), replies) == 1,
{
    let s0 = initial_extraction();
    let s1 = extraction_step(s0, replies[0]);
    let s2 = extraction_step(s1, replies[1]);
    let s3 = extraction_step(s2, replies[2]);
    assert(s1 == Extraction::Authenticating { command: 0 });
    assert(s2 == Extraction::Querying { command: 1, authenticated: true });
    assert(s3 == Extraction::Finished);
    assert(replies.skip(0) =~= replies);
    lemma_unfold_exchange(s0, replies, 0);
    lemma_unfold_exchange(s1, replies, 1);
    lemma_unfold_exchange(s2, replies, 2);
    lemma_finished_stays(replies.skip(3));
}

} // verus!
