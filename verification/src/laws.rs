//! What holds of the monitoring state over whole histories.
//!
//! A history is a sequence of events, each applied to the state that the
//! events before it produced. The laws below are stated over the same pure
//! functions that the operations of `NfcSystem` are specified with.

use vstd::prelude::*;
use crate::events::{EffectModel, LifecycleAction};
use crate::card::{iteration_finding, CardPollModel};
use crate::connect::{initial_negotiation, negotiate, ConnectOutcome};
use crate::extraction::{extract, initial_extraction};
use crate::identifier::hex_text;
use crate::system::{
    card_effects, card_observed, focused, initial_system, presence_consistent, reader_effects,
    reader_observed, recovered, recovery_action, shows_card, start_action, started, stop_action,
    stopped, SystemModel,
};

verus! {

/// One event in the life of the monitoring state.
pub enum SystemEvent {
    /// A request to start monitoring.
    Start,
    /// A request to stop monitoring.
    Stop,
    /// A request to restart monitoring.
    Restart,
    /// The reader presence loop saw a reader, or none.
    ReadersObserved(bool),
    /// The card loop finished an iteration.
    CardObserved(CardPollModel),
    /// The primary window regained focus at the given time.
    Focused(u64),
    /// The look for a reader after a suspected suspension found one, or none.
    RecoveryCompleted(bool),
}

/// The state after `event`.
pub open spec fn apply(state: SystemModel, event: SystemEvent) -> SystemModel {
    match event {
        SystemEvent::Start => started(state),
        SystemEvent::Stop => stopped(state),
        SystemEvent::Restart => started(state),
        SystemEvent::ReadersObserved(seen) => reader_observed(state, seen),
        SystemEvent::CardObserved(poll) => card_observed(state, poll),
        SystemEvent::Focused(now) => focused(state, now),
        SystemEvent::RecoveryCompleted(reader_present) => recovered(state, reader_present),
    }
}

/// What `event` asks of the owner of the monitoring loops.
pub open spec fn action_of(state: SystemModel, event: SystemEvent) -> LifecycleAction {
    match event {
        SystemEvent::Start => start_action(state),
        SystemEvent::Stop => stop_action(state),
        SystemEvent::Restart => start_action(state),
        SystemEvent::RecoveryCompleted(reader_present) => recovery_action(state, reader_present),
        _ => LifecycleAction::Nothing,
    }
}

/// The effects that `event` calls for.
pub open spec fn effects_of(state: SystemModel, event: SystemEvent) -> Seq<EffectModel> {
    match event {
        SystemEvent::ReadersObserved(seen) => reader_effects(state, seen),
        SystemEvent::CardObserved(poll) => card_effects(state, poll),
        _ => Seq::empty(),
    }
}

/// The state after a history.
pub open spec fn run(state: SystemModel, events: Seq<SystemEvent>) -> SystemModel
    decreases events.len(),
{
    if events.len() == 0 {
        state
    } else {
        apply(run(state, events.drop_last()), events.last())
    }
}

/// How many pairs of monitoring loops run after a history, counting one
/// pair for a state in which monitoring is active, one more for each
/// request to start the loops, and one less for each request to cancel them.
pub open spec fn running_pairs(state: SystemModel, events: Seq<SystemEvent>) -> int
    decreases events.len(),
{
    if events.len() == 0 {
        if state.monitoring_active {
            1
        } else {
            0
        }
    } else {
        let before = running_pairs(state, events.drop_last());
        match action_of(run(state, events.drop_last()), events.last()) {
            LifecycleAction::SpawnLoops => before + 1,
            LifecycleAction::AbortLoops => before - 1,
            LifecycleAction::Nothing => before,
        }
    }
}

/// No event breaks the rule that a present card needs a connected reader.
pub proof fn lemma_step_keeps_presence_consistent(state: SystemModel, event: SystemEvent)
    requires
        presence_consistent(state),
    ensures
        presence_consistent(apply(state, event)),
{
}

/// From a consistent state, every history leads to a consistent state.
pub proof fn lemma_run_keeps_presence_consistent(state: SystemModel, events: Seq<SystemEvent>)
    requires
        presence_consistent(state),
    ensures
        presence_consistent(run(state, events)),
    decreases events.len(),
{
    if events.len() > 0 {
        lemma_run_keeps_presence_consistent(state, events.drop_last());
        lemma_step_keeps_presence_consistent(run(state, events.drop_last()), events.last());
    }
}

/// Whether every state along a history, from the first to the last, keeps
/// the rule that a present card needs a connected reader.
pub open spec fn always_presence_consistent(state: SystemModel, events: Seq<SystemEvent>) -> bool {
    forall|k: int| 0 <= k <= events.len() ==> presence_consistent(#[trigger] run(state, events.take(k)))
}

/// In every state reached from a new system, whatever the history, a card
/// is published as present only while a reader is published as connected.
pub proof fn law_card_present_implies_reader_connected(now: u64, events: Seq<SystemEvent>)
    ensures
        always_presence_consistent(initial_system(now), events),
        presence_consistent(run(initial_system(now), events)),
{
    let start = initial_system(now);
    assert forall|k: int| 0 <= k <= events.len() implies presence_consistent(
        #[trigger] run(start, events.take(k)),
    ) by {
        lemma_run_keeps_presence_consistent(start, events.take(k));
    }
    lemma_run_keeps_presence_consistent(start, events);
}

/// An iteration of the card loop never publishes a card as present while
/// no reader is published as connected, whatever it found and whatever the
/// state before.
pub proof fn law_card_iteration_keeps_presence_consistent(state: SystemModel, poll: CardPollModel)
    ensures
        presence_consistent(card_observed(state, poll)),
        !state.reader_connected ==> !card_observed(state, poll).card_present,
        !state.reader_connected && !state.card_present ==> card_effects(state, poll)
            == Seq::<EffectModel>::empty(),
{
}

/// Whenever the reader goes from connected to not connected, the card is
/// marked as absent.
pub proof fn law_reader_loss_clears_card(state: SystemModel)
    requires
        state.reader_connected,
    ensures
        !reader_observed(state, false).reader_connected,
        !reader_observed(state, false).card_present,
{
}

/// A second request to start monitoring changes nothing and asks for
/// nothing: the loops that the first request started stay the only ones.
pub proof fn law_start_twice_is_start_once(state: SystemModel)
    ensures
        started(started(state)) == started(state),
        start_action(started(state)) == LifecycleAction::Nothing,
        started(state).monitoring_active,
{
}

/// A second request to stop monitoring changes nothing and asks for nothing.
pub proof fn law_stop_twice_is_stop_once(state: SystemModel)
    ensures
        stopped(stopped(state)) == stopped(state),
        stop_action(stopped(state)) == LifecycleAction::Nothing,
        !stopped(state).monitoring_active,
{
}

/// After any history, exactly one pair of loops runs while monitoring is
/// active and none while it is not.
pub proof fn law_one_pair_of_loops(state: SystemModel, events: Seq<SystemEvent>)
    ensures
        running_pairs(state, events) == (if run(state, events).monitoring_active {
            1int
        } else {
            0int
        }),
    decreases events.len(),
{
    if events.len() > 0 {
        law_one_pair_of_loops(state, events.drop_last());
    }
}

/// While no card is published as present, an iteration of the card loop
/// that shows no card changes nothing and reports nothing.
pub proof fn law_absent_card_stays_silent(state: SystemModel, poll: CardPollModel)
    requires
        !state.card_present,
        !shows_card(state, poll),
    ensures
        card_observed(state, poll) == state,
        card_effects(state, poll) == Seq::<EffectModel>::empty(),
{
}

/// Of two iterations of the card loop in a row that show no card, the
/// second reports nothing: the loss of a card is reported once.
pub proof fn law_card_loss_reported_once(
    state: SystemModel,
    first: CardPollModel,
    second: CardPollModel,
)
    requires
        !shows_card(state, first),
        !shows_card(state, second),
    ensures
        card_observed(card_observed(state, first), second) == card_observed(state, first),
        card_effects(card_observed(state, first), second) == Seq::<EffectModel>::empty(),
{
}

/// An observation by the reader presence loop that agrees with what is
/// published changes nothing and reports nothing.
pub proof fn law_unchanged_reader_stays_silent(state: SystemModel, seen: bool)
    requires
        seen == state.reader_connected,
    ensures
        reader_observed(state, seen) == state,
        reader_effects(state, seen) == Seq::<EffectModel>::empty(),
{
}

/// The absence of a card is reported only on an edge: when a card was
/// published as present, or when a connected reader is lost.
pub proof fn law_card_absence_reported_on_edges(state: SystemModel, event: SystemEvent)
    requires
        effects_of(state, event).contains(EffectModel::CardStatusChanged(false)),
    ensures
        state.card_present || (event == SystemEvent::ReadersObserved(false)
            && state.reader_connected),
{
    let effects = effects_of(state, event);
    let i = choose|i: int| 0 <= i < effects.len() && effects[i] == EffectModel::CardStatusChanged(false);
    match event {
        SystemEvent::ReadersObserved(seen) => {
            if seen == state.reader_connected {
                assert(effects.len() == 0);
            } else if seen {
                assert(effects[i] != EffectModel::CardStatusChanged(false));
            }
        },
        SystemEvent::CardObserved(poll) => {
            if !state.card_present {
                if shows_card(state, poll) {
                    assert(effects[i] != EffectModel::CardStatusChanged(false));
                } else {
                    assert(effects.len() == 0);
                }
            }
        },
        _ => {
            assert(effects.len() == 0);
        },
    }
}

/// While a reader is published as connected, an iteration of the card loop
/// that connects and reads an identifier that is not empty marks the card
/// as present and reports the identifier as hexadecimal text, followed by
/// the card's presence.
pub proof fn law_identifier_is_reported(
    state: SystemModel,
    outcomes: Seq<ConnectOutcome>,
    replies: Seq<Option<Seq<u8>>>,
    identifier: Seq<u8>,
)
    requires
        state.reader_connected,
        negotiate(initial_negotiation(), outcomes) is Connected,
        extract(initial_extraction(), replies) == Some(identifier),
        identifier.len() > 0,
    ensures
        card_observed(state, iteration_finding(true, outcomes, replies)).card_present,
        card_effects(state, iteration_finding(true, outcomes, replies)) == seq![
            EffectModel::CardDataReceived(hex_text(identifier)),
            EffectModel::CardStatusChanged(true),
        ],
{
}

} // verus!
