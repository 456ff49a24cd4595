//! What one iteration of the card loop finds.
//!
//! An iteration lists the readers, negotiates a connection to the card in
//! the primary reader, and reads the card's identifier. `CardPoll` is the
//! finding that the monitoring state is updated with; `CardIteration` in
//! `iteration` leads to it step by step.

use vstd::prelude::*;
use crate::connect::{initial_negotiation, negotiate, ConnectOutcome, Negotiation};
use crate::extraction::{extract, initial_extraction};

verus! {

/// What one iteration of the card loop found.
#[derive(Debug, Clone, PartialEq, Eq)]
pub enum CardPoll {
    /// No reader is attached, or the readers could not be listed.
    NoReader,
    /// A reader is attached, but no protocol led to a connection.
    NoCard,
    /// A card is connected, but no identifier could be read from it.
    Unreadable,
    /// The identifier read from the card.
    Identified(Vec<u8>),
}

/// The finding of a card loop iteration as a mathematical value.
pub enum CardPollModel {
    NoReader,
    NoCard,
    Unreadable,
    Identified(Seq<u8>),
}

impl View for CardPoll {
    type V = CardPollModel;

    open spec fn view(&self) -> CardPollModel {
        match *self {
            CardPoll::NoReader => CardPollModel::NoReader,
            CardPoll::NoCard => CardPollModel::NoCard,
            CardPoll::Unreadable => CardPollModel::Unreadable,
            CardPoll::Identified(bytes) => CardPollModel::Identified(bytes@),
        }
    }
}

/// Whether a finding of the card loop shows a card with an identifier.
pub open spec fn identifies(poll: CardPollModel) -> bool {
    poll matches CardPollModel::Identified(bytes) && bytes.len() > 0
}

/// The finding of an iteration: no reader if none was listed, no card if
/// the negotiation did not end in a connection, and else the identifier that
/// was read, or none.
pub open spec fn card_finding(
    reader_listed: bool,
    negotiation: Negotiation,
    identifier: Option<Seq<u8>>,
) -> CardPollModel {
    if !reader_listed {
        CardPollModel::NoReader
    } else if !(negotiation is Connected) {
        CardPollModel::NoCard
    } else {
        match identifier {
            Some(bytes) => CardPollModel::Identified(bytes),
            None => CardPollModel::Unreadable,
        }
    }
}

/// The finding of an iteration in which the connection attempts end, in
/// order, as `outcomes` says and the requests to the card are answered, in
/// order, by `replies`.
pub open spec fn iteration_finding(
    reader_listed: bool,
    outcomes: Seq<ConnectOutcome>,
    replies: Seq<Option<Seq<u8>>>,
) -> CardPollModel {
    card_finding(
        reader_listed,
        negotiate(initial_negotiation(), outcomes),
        extract(initial_extraction(), replies),
    )
}

} // verus!
