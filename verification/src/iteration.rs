//! One iteration of the card loop, step by step.
//!
//! `CardIteration` says what the caller is to do next: attempt a
//! connection, transmit a request, release the connection, or take the
//! finding. The caller does it and reports how it went. A connection, once
//! made, is released before the iteration yields its finding, whichever way
//! the reading went.

use vstd::prelude::*;
use crate::card::{iteration_finding, CardPoll, CardPollModel};
use crate::connect::{
    connect_step, connect_wait, initial_negotiation, lemma_ended_stays, negotiate,
    pending_attempt, AccessMode, ConnectOutcome, ConnectRequest, Negotiation,
};
use crate::extraction::{
    extract, extraction_after, extraction_step, initial_extraction, lemma_finished_stays,
    pending_request, reply_bytes, step_identifier, Extraction, Reply,
};
use crate::readers::{primary_reader, reader_seen, ReaderListing, PRIMARY_READER};

verus! {

/// What the caller of an iteration is to do next.
#[derive(Debug, Clone, PartialEq, Eq)]
pub enum CardStep {
    /// Attempt a connection to the card in the primary reader, then report
    /// the outcome with `connect_ended`.
    Connect(ConnectRequest),
    /// Transmit these bytes to the card, then report the reply with
    /// `replied`.
    Transmit(Vec<u8>),
    /// Release the connection to the card, then report it with `released`.
    Release,
    /// The iteration is over, with this finding.
    Finish(CardPoll),
}

/// A step as a mathematical value.
pub enum CardStepModel {
    Connect(ConnectRequest),
    Transmit(Seq<u8>),
    Release,
    Finish(CardPollModel),
}

impl View for CardStep {
    type V = CardStepModel;

    open spec fn view(&self) -> CardStepModel {
        match *self {
            CardStep::Connect(request) => CardStepModel::Connect(request),
            CardStep::Transmit(bytes) => CardStepModel::Transmit(bytes@),
            CardStep::Release => CardStepModel::Release,
            CardStep::Finish(poll) => CardStepModel::Finish(poll@),
        }
    }
}

/// Where an iteration stands, as a mathematical value.
pub enum IterationModel {
    /// A connection is being negotiated.
    Connecting(Negotiation),
    /// The identifier is being read over the connection.
    Reading(Extraction),
    /// The reading is over, with or without an identifier; the connection
    /// is still to be released.
    Releasing(Option<Seq<u8>>),
    /// The iteration is over.
    Done(CardPollModel),
}

/// What the caller reports to an iteration.
pub enum IterationInput {
    /// How a connection attempt ended.
    ConnectEnded(ConnectOutcome),
    /// What the card replied, or nothing if the exchange failed.
    Replied(Option<Seq<u8>>),
    /// The connection was released.
    Released,
}

/// An iteration negotiates only while an attempt is pending, and reads only
/// while a request is pending.
pub open spec fn iteration_ok(iteration: IterationModel) -> bool {
    match iteration {
        IterationModel::Connecting(negotiation) => negotiation is Attempting,
        IterationModel::Reading(extraction) => !(extraction is Finished),
        _ => true,
    }
}

/// Where an iteration stands once its negotiation is in state
/// `negotiation`: still connecting, reading over the new connection, or
/// over for want of a card.
pub open spec fn after_negotiation(negotiation: Negotiation) -> IterationModel {
    match negotiation {
        Negotiation::Attempting { .. } => IterationModel::Connecting(negotiation),
        Negotiation::Connected { .. } => IterationModel::Reading(initial_extraction()),
        Negotiation::Exhausted => IterationModel::Done(CardPollModel::NoCard),
    }
}

/// Where an iteration stands once its extraction is in state `extraction`,
/// having found `found`.
pub open spec fn after_extraction(extraction: Extraction, found: Option<Seq<u8>>) -> IterationModel {
    if extraction is Finished {
        IterationModel::Releasing(found)
    } else {
        IterationModel::Reading(extraction)
    }
}

/// The finding of an iteration that read `identifier` from the card.
pub open spec fn read_finding(identifier: Option<Seq<u8>>) -> CardPollModel {
    match identifier {
        Some(bytes) => CardPollModel::Identified(bytes),
        None => CardPollModel::Unreadable,
    }
}

/// Where an iteration starts: with nothing to do if no reader was listed.
pub open spec fn begun(reader_listed: bool) -> IterationModel {
    if reader_listed {
        IterationModel::Connecting(initial_negotiation())
    } else {
        IterationModel::Done(CardPollModel::NoReader)
    }
}

/// The iteration after a connection attempt ended in `outcome`.
pub open spec fn after_connect(iteration: IterationModel, outcome: ConnectOutcome) -> IterationModel {
    match iteration {
        IterationModel::Connecting(negotiation) => after_negotiation(
            connect_step(negotiation, outcome),
        ),
        _ => iteration,
    }
}

/// The pause, in milliseconds, before the step that follows `outcome`.
pub open spec fn wait_after_connect(iteration: IterationModel, outcome: ConnectOutcome) -> u64 {
    match iteration {
        IterationModel::Connecting(negotiation) => connect_wait(negotiation, outcome),
        _ => 0,
    }
}

/// The iteration after the card replied `reply`.
pub open spec fn after_reply(iteration: IterationModel, reply: Option<Seq<u8>>) -> IterationModel {
    match iteration {
        IterationModel::Reading(extraction) => after_extraction(
            extraction_step(extraction, reply),
            step_identifier(extraction, reply),
        ),
        _ => iteration,
    }
}

/// The iteration after the connection was released.
pub open spec fn after_release(iteration: IterationModel) -> IterationModel {
    match iteration {
        IterationModel::Releasing(identifier) => IterationModel::Done(read_finding(identifier)),
        _ => iteration,
    }
}

/// The iteration after `input`. A report that does not answer the pending
/// step changes nothing.
pub open spec fn advance(iteration: IterationModel, input: IterationInput) -> IterationModel {
    match input {
        IterationInput::ConnectEnded(outcome) => after_connect(iteration, outcome),
        IterationInput::Replied(reply) => after_reply(iteration, reply),
        IterationInput::Released => after_release(iteration),
    }
}

/// What the caller is to do next.
pub open spec fn next_step(iteration: IterationModel) -> CardStepModel {
    match iteration {
        IterationModel::Connecting(negotiation) => match pending_attempt(negotiation) {
            Some(request) => CardStepModel::Connect(request),
            None => CardStepModel::Finish(CardPollModel::NoCard),
        },
        IterationModel::Reading(extraction) => match pending_request(extraction) {
            Some(bytes) => CardStepModel::Transmit(bytes),
            None => CardStepModel::Release,
        },
        IterationModel::Releasing(_) => CardStepModel::Release,
        IterationModel::Done(poll) => CardStepModel::Finish(poll),
    }
}

/// The iteration after a history of reports.
pub open spec fn iterate(iteration: IterationModel, inputs: Seq<IterationInput>) -> IterationModel
    decreases inputs.len(),
{
    if inputs.len() == 0 {
        iteration
    } else {
        iterate(advance(iteration, inputs[0]), inputs.drop_first())
    }
}

/// The reports of an iteration whose connection attempts end, in order, as
/// `outcomes` says, whose requests to the card are answered, in order, by
/// `replies`, and whose connection is then released.
pub open spec fn reports(
    outcomes: Seq<ConnectOutcome>,
    replies: Seq<Option<Seq<u8>>>,
) -> Seq<IterationInput> {
    connect_reports(outcomes) + reply_reports(replies) + seq![IterationInput::Released]
}

/// Outcomes of connection attempts as reports to an iteration.
pub open spec fn connect_reports(outcomes: Seq<ConnectOutcome>) -> Seq<IterationInput> {
    Seq::new(outcomes.len(), |i: int| IterationInput::ConnectEnded(outcomes[i]))
}

/// Replies of the card as reports to an iteration.
pub open spec fn reply_reports(replies: Seq<Option<Seq<u8>>>) -> Seq<IterationInput> {
    Seq::new(replies.len(), |i: int| IterationInput::Replied(replies[i]))
}

enum Stage {
    Connecting(Negotiation),
    Reading(Extraction),
    Releasing(Option<Vec<u8>>),
    Done(CardPoll),
}

/// One iteration of the card loop.
pub struct CardIteration {
    stage: Stage,
}

impl View for CardIteration {
    type V = IterationModel;

    closed spec fn view(&self) -> IterationModel {
        match self.stage {
            Stage::Connecting(negotiation) => IterationModel::Connecting(negotiation),
            Stage::Reading(extraction) => IterationModel::Reading(extraction),
            Stage::Releasing(Some(bytes)) => IterationModel::Releasing(Some(bytes@)),
            Stage::Releasing(None) => IterationModel::Releasing(None),
            Stage::Done(poll) => IterationModel::Done(poll@),
        }
    }
}

/// Copies a byte string.
fn copy_bytes(bytes: &Vec<u8>) -> (copy: Vec<u8>)
    ensures
        copy@ == bytes@,
{
    let mut copy: Vec<u8> = Vec::new();
    let mut i: usize = 0;
    while i < bytes.len()
        invariant
            i <= bytes@.len(),
            copy@ == bytes@.take(i as int),
        decreases bytes@.len() - i,
    {
        copy.push(bytes[i]);
        i += 1;
        assert(bytes@.take(i as int) =~= bytes@.take(i - 1).push(bytes@[i - 1]));
    }
    assert(bytes@.take(bytes@.len() as int) =~= bytes@);
    copy
}

/// Copies a finding.
fn copy_poll(poll: &CardPoll) -> (copy: CardPoll)
    ensures
        copy@ == poll@,
{
    match poll {
        CardPoll::NoReader => CardPoll::NoReader,
        CardPoll::NoCard => CardPoll::NoCard,
        CardPoll::Unreadable => CardPoll::Unreadable,
        CardPoll::Identified(bytes) => CardPoll::Identified(copy_bytes(bytes)),
    }
}

impl CardIteration {
    #[verifier::type_invariant]
    spec fn well_formed(self) -> bool {
        iteration_ok(self@)
    }

    /// Wraps the state that a negotiation has reached.
    fn from_negotiation(negotiation: Negotiation) -> (iteration: CardIteration)
        ensures
            iteration@ == after_negotiation(negotiation),
    {
        match negotiation {
            Negotiation::Attempting { .. } => CardIteration {
                stage: Stage::Connecting(negotiation),
            },
            Negotiation::Connected { .. } => CardIteration {
                stage: Stage::Reading(Extraction::begin()),
            },
            Negotiation::Exhausted => CardIteration { stage: Stage::Done(CardPoll::NoCard) },
        }
    }

    /// Starts an iteration from a fresh listing of the readers. The
    /// connection attempts of the iteration name their reader by its
    /// position in this listing.
    pub fn begin(listing: &ReaderListing) -> (iteration: CardIteration)
        ensures
            iteration@ == begun(reader_seen(*listing)),
            iteration@ is Connecting ==> primary_reader(*listing) is Some,
    {
        if listing.has_reader() {
            CardIteration::from_negotiation(Negotiation::begin())
        } else {
            CardIteration { stage: Stage::Done(CardPoll::NoReader) }
        }
    }

    /// What the caller is to do next.
    pub fn next(&self) -> (step: CardStep)
        ensures
            step@ == next_step(self@),
            iteration_ok(self@),
    {
        proof {
            use_type_invariant(self);
        }
        match &self.stage {
            Stage::Connecting(negotiation) => match negotiation.pending() {
                Some(request) => CardStep::Connect(request),
                None => CardStep::Finish(CardPoll::NoCard),
            },
            Stage::Reading(extraction) => match extraction.request() {
                Some(bytes) => CardStep::Transmit(bytes),
                None => CardStep::Release,
            },
            Stage::Releasing(_) => CardStep::Release,
            Stage::Done(poll) => CardStep::Finish(copy_poll(poll)),
        }
    }

    /// Takes in how a connection attempt ended. Returns the iteration to go
    /// on with and the pause, in milliseconds, to make before its next step.
    pub fn connect_ended(self, outcome: &ConnectOutcome) -> (next: (CardIteration, u64))
        ensures
            next.0@ == after_connect(self@, *outcome),
            next.1 == wait_after_connect(self@, *outcome),
    {
        match self.stage {
            Stage::Connecting(negotiation) => {
                let mut negotiation: Negotiation = negotiation;
                let wait_ms: u64 = negotiation.record(outcome);
                (CardIteration::from_negotiation(negotiation), wait_ms)
            },
            _ => (self, 0),
        }
    }

    /// Takes in the card's reply to the request that was transmitted.
    pub fn replied(self, reply: &Reply) -> (next: CardIteration)
        ensures
            next@ == after_reply(self@, reply_bytes(*reply)),
    {
        match self.stage {
            Stage::Reading(extraction) => {
                let mut extraction: Extraction = extraction;
                let found: Option<Vec<u8>> = extraction.respond(reply);
                if extraction.is_finished() {
                    CardIteration { stage: Stage::Releasing(found) }
                } else {
                    CardIteration { stage: Stage::Reading(extraction) }
                }
            },
            _ => self,
        }
    }

    /// Takes in that the connection was released.
    pub fn released(self) -> (next: CardIteration)
        ensures
            next@ == after_release(self@),
    {
        match self.stage {
            Stage::Releasing(Some(bytes)) => CardIteration {
                stage: Stage::Done(CardPoll::Identified(bytes)),
            },
            Stage::Releasing(None) => CardIteration { stage: Stage::Done(CardPoll::Unreadable) },
            _ => self,
        }
    }
}

/// Reports taken in one after the other have the effect of the whole
/// history.
pub proof fn lemma_iterate_in_parts(
    iteration: IterationModel,
    first: Seq<IterationInput>,
    second: Seq<IterationInput>,
)
    ensures
        iterate(iteration, first + second) == iterate(iterate(iteration, first), second),
    decreases first.len(),
{
    if first.len() == 0 {
        assert(first + second =~= second);
    } else {
        assert((first + second)[0] == first[0]);
        assert((first + second).drop_first() =~= first.drop_first() + second);
        lemma_iterate_in_parts(advance(iteration, first[0]), first.drop_first(), second);
    }
}

/// Reported outcomes of connection attempts move an iteration as they move
/// its negotiation.
proof fn lemma_outcomes_drive_negotiation(negotiation: Negotiation, outcomes: Seq<ConnectOutcome>)
    ensures
        iterate(after_negotiation(negotiation), connect_reports(outcomes)) == after_negotiation(
            negotiate(negotiation, outcomes),
        ),
    decreases outcomes.len(),
{
    if outcomes.len() > 0 {
        assert(connect_reports(outcomes).drop_first() =~= connect_reports(outcomes.drop_first()));
        if negotiation is Attempting {
            lemma_outcomes_drive_negotiation(
                connect_step(negotiation, outcomes[0]),
                outcomes.drop_first(),
            );
        } else {
            lemma_ended_stays(negotiation, outcomes);
            lemma_ended_stays(negotiation, outcomes.drop_first());
            lemma_outcomes_drive_negotiation(negotiation, outcomes.drop_first());
        }
    }
}

/// Reported replies move an iteration as they move its extraction, and the
/// identifier kept for the finding is the one that the extraction finds.
proof fn lemma_replies_drive_extraction(extraction: Extraction, replies: Seq<Option<Seq<u8>>>)
    requires
        !(extraction is Finished),
    ensures
        iterate(IterationModel::Reading(extraction), reply_reports(replies)) == after_extraction(
            extraction_after(extraction, replies),
            extract(extraction, replies),
        ),
    decreases replies.len(),
{
    if replies.len() > 0 {
        assert(reply_reports(replies).drop_first() =~= reply_reports(replies.drop_first()));
        let next = extraction_step(extraction, replies[0]);
        let found = step_identifier(extraction, replies[0]);
        if next is Finished {
            lemma_finished_stays(replies.drop_first());
            lemma_replies_pass_by(IterationModel::Releasing(found), replies.drop_first());
        } else {
            lemma_replies_drive_extraction(next, replies.drop_first());
        }
    }
}

/// Replies reported to an iteration that is not reading change nothing.
proof fn lemma_replies_pass_by(iteration: IterationModel, replies: Seq<Option<Seq<u8>>>)
    requires
        !(iteration is Reading),
    ensures
        iterate(iteration, reply_reports(replies)) == iteration,
    decreases replies.len(),
{
    if replies.len() > 0 {
        assert(reply_reports(replies).drop_first() =~= reply_reports(replies.drop_first()));
        lemma_replies_pass_by(iteration, replies.drop_first());
    }
}

/// An iteration that is given enough outcomes for its negotiation to end and
/// enough replies for its extraction to finish, and whose connection is then
/// released, is over, and its finding is the one that the negotiation and
/// the extraction lead to.
pub proof fn law_iteration_yields_finding(
    reader_listed: bool,
    outcomes: Seq<ConnectOutcome>,
    replies: Seq<Option<Seq<u8>>>,
)
    requires
        !(negotiate(initial_negotiation(), outcomes) is Attempting),
        extraction_after(initial_extraction(), replies) is Finished,
    ensures
        iterate(begun(reader_listed), reports(outcomes, replies)) == IterationModel::Done(
            iteration_finding(reader_listed, outcomes, replies),
        ),
{
    let connects = connect_reports(outcomes);
    let answers = reply_reports(replies);
    let release = seq![IterationInput::Released];
    let start = begun(reader_listed);
    let connected = iterate(start, connects);
    let read = iterate(connected, answers);
    lemma_iterate_in_parts(start, connects + answers, release);
    lemma_iterate_in_parts(start, connects, answers);
    assert(iterate(read, release) == after_release(read)) by {
        assert(release.drop_first() =~= Seq::<IterationInput>::empty());
        assert(iterate(advance(read, release[0]), release.drop_first()) == advance(
            read,
            release[0],
        ));
    }
    if reader_listed {
        lemma_outcomes_drive_negotiation(initial_negotiation(), outcomes);
        if negotiate(initial_negotiation(), outcomes) is Connected {
            lemma_replies_drive_extraction(initial_extraction(), replies);
        } else {
            lemma_replies_pass_by(connected, replies);
        }
    } else {
        lemma_done_stays(CardPollModel::NoReader, connects);
        lemma_replies_pass_by(start, replies);
    }
}

/// An iteration that is over stays as it is.
pub proof fn lemma_done_stays(poll: CardPollModel, inputs: Seq<IterationInput>)
    ensures
        iterate(IterationModel::Done(poll), inputs) == IterationModel::Done(poll),
    decreases inputs.len(),
{
    if inputs.len() > 0 {
        lemma_done_stays(poll, inputs.drop_first());
    }
}

/// Whenever an iteration asks for a connection, it is one to the primary
/// reader, in shared mode.
pub proof fn law_connects_to_primary_reader(iteration: IterationModel)
    requires
        next_step(iteration) is Connect,
    ensures
        next_step(iteration)->Connect_0.reader == PRIMARY_READER,
        next_step(iteration)->Connect_0.mode == AccessMode::Shared,
{
}

/// Through every change of protocol and every retry, an iteration stays
/// with the reader it began with: the reader of the step after a reported
/// connection attempt is the reader of the step before.
pub proof fn law_reader_never_changes(iteration: IterationModel, outcome: ConnectOutcome)
    requires
        next_step(iteration) is Connect,
        next_step(after_connect(iteration, outcome)) is Connect,
    ensures
        next_step(after_connect(iteration, outcome))->Connect_0.reader == next_step(
            iteration,
        )->Connect_0.reader,
{
}

/// An iteration that holds a connection ends only by the release of that
/// connection.
pub proof fn law_connection_is_released(iteration: IterationModel, input: IterationInput)
    requires
        iteration is Reading || iteration is Releasing,
        advance(iteration, input) is Done,
    ensures
        iteration is Releasing,
        input is Released,
{
}

/// Every report leaves an iteration in order, and a report that does not
/// answer the pending step changes nothing.
pub proof fn law_only_the_awaited_report_counts(iteration: IterationModel, input: IterationInput)
    requires
        iteration_ok(iteration),
    ensures
        iteration_ok(advance(iteration, input)),
        next_step(iteration) is Connect && !(input is ConnectEnded) ==> advance(iteration, input)
            == iteration,
        next_step(iteration) is Transmit && !(input is Replied) ==> advance(iteration, input)
            == iteration,
        next_step(iteration) is Release && !(input is Released) ==> advance(iteration, input)
            == iteration,
        next_step(iteration) is Finish ==> advance(iteration, input) == iteration,
{
}

} // verus!
