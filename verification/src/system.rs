//! The monitoring state and the supervisor that owns it.
//!
//! `NfcSystem` holds the three published flags and the time of the last
//! sign of activity. It is changed only through the operations below, each
//! of which says what the surroundings are to do next: start or cancel the
//! two monitoring loops, deliver notifications, close windows.
//!
//! Every operation is stated against `SystemModel`, the state as a
//! mathematical value, and a pure function that gives the next state.

use vstd::prelude::*;
use vstd::string::StringExecFns;
use crate::card::{identifies, CardPoll, CardPollModel};
use crate::events::{effects_model, Effect, EffectModel, LifecycleAction, RecoveryPlan};
use crate::identifier::{hex_text, identifier_text};
use crate::readers::{reader_seen, ReaderListing};
use crate::schedule::{RECOVERY_GRACE_MS, RESTART_DELAY_MS, SLEEP_THRESHOLD_MS};

verus! {

/// The monitoring state as a mathematical value.
pub struct SystemModel {
    /// A reader is attached, as last published.
    pub reader_connected: bool,
    /// A card is present, as last published.
    pub card_present: bool,
    /// The monitoring loops are meant to run.
    pub monitoring_active: bool,
    /// The time of the last sign of activity, in milliseconds.
    pub last_activity: u64,
}

/// The state of a system created at time `now`: nothing connected, nothing
/// running.
pub open spec fn initial_system(now: u64) -> SystemModel {
    SystemModel {
        reader_connected: false,
        card_present: false,
        monitoring_active: false,
        last_activity: now,
    }
}

/// A card is published as present only while a reader is published as
/// connected.
pub open spec fn presence_consistent(state: SystemModel) -> bool {
    state.card_present ==> state.reader_connected
}

/// The state after a request to start (or restart) monitoring.
pub open spec fn started(state: SystemModel) -> SystemModel {
    SystemModel { monitoring_active: true, ..state }
}

/// What a request to start (or restart) monitoring asks for: the loops are
/// started only if they are not running.
pub open spec fn start_action(state: SystemModel) -> LifecycleAction {
    if state.monitoring_active {
        LifecycleAction::Nothing
    } else {
        LifecycleAction::SpawnLoops
    }
}

/// The state after a request to stop monitoring.
pub open spec fn stopped(state: SystemModel) -> SystemModel {
    SystemModel { monitoring_active: false, ..state }
}

/// What a request to stop monitoring asks for: the loops are cancelled only
/// if they are running.
pub open spec fn stop_action(state: SystemModel) -> LifecycleAction {
    if state.monitoring_active {
        LifecycleAction::AbortLoops
    } else {
        LifecycleAction::Nothing
    }
}

/// The state after the reader presence loop saw a reader (`seen`) or none.
/// Losing the reader also marks the card as absent.
pub open spec fn reader_observed(state: SystemModel, seen: bool) -> SystemModel {
    if seen == state.reader_connected {
        state
    } else if seen {
        SystemModel { reader_connected: true, ..state }
    } else {
        SystemModel { reader_connected: false, card_present: false, ..state }
    }
}

/// The effects of an observation by the reader presence loop. Nothing
/// follows unless the observation differs from what was published.
pub open spec fn reader_effects(state: SystemModel, seen: bool) -> Seq<EffectModel> {
    if seen == state.reader_connected {
        Seq::empty()
    } else if seen {
        if state.monitoring_active {
            seq![EffectModel::ReaderStatusChanged(true)]
        } else {
            seq![EffectModel::ReaderStatusChanged(true), EffectModel::RestartAfter(RESTART_DELAY_MS)]
        }
    } else {
        seq![
            EffectModel::ReaderStatusChanged(false),
            EffectModel::CardStatusChanged(false),
            EffectModel::CloseSecondaryWindows,
        ]
    }
}

/// Whether a finding of the card loop shows a card that may be published
/// as present: an identifier was read, and a reader is published as
/// connected.
pub open spec fn shows_card(state: SystemModel, poll: CardPollModel) -> bool {
    identifies(poll) && state.reader_connected
}

/// The state after an iteration of the card loop found `poll`. A card is
/// never published as present while no reader is published as connected:
/// an identifier read before the reader presence loop has published the
/// reader is passed over, and the card loop reads it again on its next
/// iteration.
pub open spec fn card_observed(state: SystemModel, poll: CardPollModel) -> SystemModel {
    SystemModel { card_present: shows_card(state, poll), ..state }
}

/// The effects of a finding of the card loop. An identifier is reported
/// every time it is read while a reader is published as connected. The
/// loss of the card is reported only when a card was published as present;
/// windows are closed with it when no connection to a card could be made at
/// all.
pub open spec fn card_effects(state: SystemModel, poll: CardPollModel) -> Seq<EffectModel> {
    if shows_card(state, poll) {
        seq![
            EffectModel::CardDataReceived(hex_text(poll->Identified_0)),
            EffectModel::CardStatusChanged(true),
        ]
    } else if !state.card_present {
        Seq::empty()
    } else if poll is NoReader || poll is NoCard {
        seq![EffectModel::CardStatusChanged(false), EffectModel::CloseSecondaryWindows]
    } else {
        seq![EffectModel::CardStatusChanged(false)]
    }
}

/// The time, in milliseconds, between the last sign of activity and `now`;
/// zero if `now` lies before it.
pub open spec fn idle_gap(state: SystemModel, now: u64) -> int {
    if now >= state.last_activity {
        now - state.last_activity
    } else {
        0
    }
}

/// The state after the primary window regained focus at time `now`.
pub open spec fn focused(state: SystemModel, now: u64) -> SystemModel {
    SystemModel { last_activity: now, ..state }
}

/// What a regained focus at time `now` asks for: a look for a reader after
/// the grace delay if the gap suggests a suspension, else nothing.
pub open spec fn recovery_plan(state: SystemModel, now: u64) -> RecoveryPlan {
    if idle_gap(state, now) > SLEEP_THRESHOLD_MS {
        RecoveryPlan::ProbeReader { delay_ms: RECOVERY_GRACE_MS }
    } else {
        RecoveryPlan::Nothing
    }
}

/// The state after the look for a reader that a recovery plan asked for.
pub open spec fn recovered(state: SystemModel, reader_present: bool) -> SystemModel {
    if reader_present {
        started(state)
    } else {
        state
    }
}

/// What the look for a reader asks for: with a reader present, monitoring
/// is started unless it is running.
pub open spec fn recovery_action(state: SystemModel, reader_present: bool) -> LifecycleAction {
    if reader_present {
        start_action(state)
    } else {
        LifecycleAction::Nothing
    }
}

/// The supervisor of the monitoring engine.
#[derive(Debug)]
pub struct NfcSystem {
    reader_connected: bool,
    card_present: bool,
    monitoring_active: bool,
    last_activity: u64,
}

impl View for NfcSystem {
    type V = SystemModel;

    closed spec fn view(&self) -> SystemModel {
        SystemModel {
            reader_connected: self.reader_connected,
            card_present: self.card_present,
            monitoring_active: self.monitoring_active,
            last_activity: self.last_activity,
        }
    }
}

impl NfcSystem {
    /// A card is never published as present while no reader is published as
    /// connected.
    #[verifier::type_invariant]
    spec fn well_formed(self) -> bool {
        presence_consistent(self@)
    }

    /// Creates the supervisor at time `now`, in milliseconds on the caller's
    /// monotonic clock.
    pub fn new(now: u64) -> (system: NfcSystem)
        ensures
            system@ == initial_system(now),
    {
        NfcSystem {
            reader_connected: false,
            card_present: false,
            monitoring_active: false,
            last_activity: now,
        }
    }

    /// Whether a reader is attached, as last published.
    pub fn reader_connected(&self) -> (connected: bool)
        ensures
            connected == self@.reader_connected,
            presence_consistent(self@),
    {
        proof {
            use_type_invariant(self);
        }
        self.reader_connected
    }

    /// Whether a card is present, as last published. A card is present only
    /// while a reader is connected.
    pub fn card_present(&self) -> (present: bool)
        ensures
            present == self@.card_present,
            present ==> self@.reader_connected,
    {
        proof {
            use_type_invariant(self);
        }
        self.card_present
    }

    /// Whether the monitoring loops are meant to run. A loop checks this at
    /// the start of every iteration and ends when it is `false`.
    pub fn monitoring_active(&self) -> (active: bool)
        ensures
            active == self@.monitoring_active,
    {
        self.monitoring_active
    }

    /// The time of the last sign of activity.
    pub fn last_activity(&self) -> (at: u64)
        ensures
            at == self@.last_activity,
    {
        self.last_activity
    }

    /// Starts monitoring. Asks for the two loops to be started if they are
    /// not running, and for nothing if they are.
    pub fn start_monitoring(&mut self) -> (action: LifecycleAction)
        ensures
            final(self)@ == started(old(self)@),
            action == start_action(old(self)@),
    {
        proof {
            use_type_invariant(&*self);
        }
        if self.monitoring_active {
            return LifecycleAction::Nothing;
        }
        self.monitoring_active = true;
        LifecycleAction::SpawnLoops
    }

    /// Stops monitoring. Asks for the two loops to be cancelled if they are
    /// running, and for nothing if they are not.
    pub fn stop_monitoring(&mut self) -> (action: LifecycleAction)
        ensures
            final(self)@ == stopped(old(self)@),
            action == stop_action(old(self)@),
    {
        proof {
            use_type_invariant(&*self);
        }
        if !self.monitoring_active {
            return LifecycleAction::Nothing;
        }
        self.monitoring_active = false;
        LifecycleAction::AbortLoops
    }

    /// Restarts monitoring: starts it if it is not running and leaves it
    /// alone if it is, so that running loops are never interrupted.
    pub fn restart_monitoring(&mut self) -> (action: LifecycleAction)
        ensures
            final(self)@ == started(old(self)@),
            action == start_action(old(self)@),
    {
        if self.monitoring_active {
            return LifecycleAction::Nothing;
        }
        self.start_monitoring()
    }

    /// Takes in that the primary window regained focus at time `now`. The
    /// time is recorded in any case.
    pub fn check_system_recovery(&mut self, now: u64) -> (plan: RecoveryPlan)
        ensures
            final(self)@ == focused(old(self)@, now),
            plan == recovery_plan(old(self)@, now),
    {
        proof {
            use_type_invariant(&*self);
        }
        let gap: u64 = if now >= self.last_activity {
            now - self.last_activity
        } else {
            0
        };
        self.last_activity = now;
        if gap > SLEEP_THRESHOLD_MS {
            RecoveryPlan::ProbeReader { delay_ms: RECOVERY_GRACE_MS }
        } else {
            RecoveryPlan::Nothing
        }
    }

    /// Takes in the finding of the look for a reader that
    /// `check_system_recovery` asked for.
    pub fn complete_recovery(&mut self, reader_present: bool) -> (action: LifecycleAction)
        ensures
            final(self)@ == recovered(old(self)@, reader_present),
            action == recovery_action(old(self)@, reader_present),
    {
        if reader_present {
            self.restart_monitoring()
        } else {
            LifecycleAction::Nothing
        }
    }

    /// Takes in a listing made by the reader presence loop.
    pub fn observe_readers(&mut self, listing: &ReaderListing) -> (effects: Vec<Effect>)
        ensures
            final(self)@ == reader_observed(old(self)@, reader_seen(*listing)),
            effects_model(effects@) == reader_effects(old(self)@, reader_seen(*listing)),
            effects@.len() == reader_effects(old(self)@, reader_seen(*listing)).len(),
            presence_consistent(final(self)@),
    {
        proof {
            use_type_invariant(&*self);
        }
        let seen: bool = listing.has_reader();
        let mut effects: Vec<Effect> = Vec::new();
        if seen != self.reader_connected {
            effects.push(Effect::ReaderStatusChanged(seen));
            if !seen {
                self.card_present = false;
                self.reader_connected = false;
                effects.push(Effect::CardStatusChanged(false));
                effects.push(Effect::CloseSecondaryWindows);
            } else {
                self.reader_connected = true;
                if !self.monitoring_active {
                    effects.push(Effect::RestartAfter(RESTART_DELAY_MS));
                }
            }
        }
        assert(effects_model(effects@) =~= reader_effects(old(self)@, reader_seen(*listing)));
        effects
    }

    /// Takes in what an iteration of the card loop found.
    pub fn observe_card(&mut self, poll: &CardPoll) -> (effects: Vec<Effect>)
        ensures
            final(self)@ == card_observed(old(self)@, poll@),
            effects_model(effects@) == card_effects(old(self)@, poll@),
            effects@.len() == card_effects(old(self)@, poll@).len(),
            presence_consistent(final(self)@),
    {
        let mut effects: Vec<Effect> = Vec::new();
        let was_present: bool = self.card_present;
        match poll {
            CardPoll::Identified(bytes) => {
                if bytes.len() > 0 && self.reader_connected {
                    self.card_present = true;
                    effects.push(Effect::CardDataReceived(identifier_text(bytes)));
                    effects.push(Effect::CardStatusChanged(true));
                } else {
                    self.card_present = false;
                    if was_present {
                        effects.push(Effect::CardStatusChanged(false));
                    }
                }
            },
            CardPoll::Unreadable => {
                self.card_present = false;
                if was_present {
                    effects.push(Effect::CardStatusChanged(false));
                }
            },
            _ => {
                self.card_present = false;
                if was_present {
                    effects.push(Effect::CardStatusChanged(false));
                    effects.push(Effect::CloseSecondaryWindows);
                }
            },
        }
        assert(effects_model(effects@) =~= card_effects(old(self)@, poll@));
        effects
    }
}

/// The message for a request to stop monitoring that finds no supervisor.
pub open spec fn not_initialized_text() -> Seq<char> {
    "NFC系统未初始化"@
}

/// The message for a request to restart monitoring that finds no supervisor.
pub open spec fn cannot_restart_text() -> Seq<char> {
    "NFC系统未初始化，无法重启"@
}

/// Handles a request to start monitoring. The supervisor is created on first
/// use, at time `now`.
pub fn start_nfc_monitoring(slot: &mut Option<NfcSystem>, now: u64) -> (action: LifecycleAction)
    ensures
        *final(slot) is Some,
        match *old(slot) {
            Some(system) => {
                &&& (*final(slot))->0@ == started(system@)
                &&& action == start_action(system@)
            },
            None => {
                &&& (*final(slot))->0@ == started(initial_system(now))
                &&& action == LifecycleAction::SpawnLoops
            },
        },
{
    let mut system: NfcSystem = match slot.take() {
        Some(system) => system,
        None => NfcSystem::new(now),
    };
    let action: LifecycleAction = system.start_monitoring();
    *slot = Some(system);
    action
}

/// Handles a request to stop monitoring. Fails if no supervisor exists.
pub fn stop_nfc_monitoring(slot: &mut Option<NfcSystem>) -> (result: Result<
    LifecycleAction,
    String,
>)
    ensures
        match *old(slot) {
            Some(system) => {
                &&& *final(slot) is Some
                &&& (*final(slot))->0@ == stopped(system@)
                &&& result == Ok::<LifecycleAction, String>(stop_action(system@))
            },
            None => {
                &&& *final(slot) is None
                &&& result is Err
                &&& result->Err_0@ == not_initialized_text()
            },
        },
{
    match slot.take() {
        Some(system) => {
            let mut system: NfcSystem = system;
            let action: LifecycleAction = system.stop_monitoring();
            *slot = Some(system);
            Ok(action)
        },
        None => Err(String::from_str("NFC系统未初始化")),
    }
}

/// Handles a request to restart monitoring. Fails if no supervisor exists.
pub fn restart_nfc_monitoring(slot: &mut Option<NfcSystem>) -> (result: Result<
    LifecycleAction,
    String,
>)
    ensures
        match *old(slot) {
            Some(system) => {
                &&& *final(slot) is Some
                &&& (*final(slot))->0@ == started(system@)
                &&& result == Ok::<LifecycleAction, String>(start_action(system@))
            },
            None => {
                &&& *final(slot) is None
                &&& result is Err
                &&& result->Err_0@ == cannot_restart_text()
            },
        },
{
    match slot.take() {
        Some(system) => {
            let mut system: NfcSystem = system;
            let action: LifecycleAction = system.restart_monitoring();
            *slot = Some(system);
            Ok(action)
        },
        None => Err(String::from_str("NFC系统未初始化，无法重启")),
    }
}

} // verus!
