//! What the monitoring engine asks its surroundings to do.
//!
//! Every step of the engine returns the effects it calls for, in the order
//! in which they are to be carried out. Notifications are delivered once and
//! not acknowledged.

use vstd::prelude::*;
use vstd::string::StringExecFns;

verus! {

/// One thing the surroundings are asked to do.
#[derive(Debug, Clone, PartialEq, Eq)]
pub enum Effect {
    /// Notify that a reader was attached (`true`) or detached (`false`).
    ReaderStatusChanged(bool),
    /// Notify that a card became present (`true`) or absent (`false`).
    CardStatusChanged(bool),
    /// Notify of the identifier read from a card, as hexadecimal text.
    CardDataReceived(String),
    /// Close every presentation window but the primary one.
    CloseSecondaryWindows,
    /// Wait the given number of milliseconds, then ask for a restart of
    /// monitoring.
    RestartAfter(u64),
}

/// An effect as a mathematical value.
pub enum EffectModel {
    ReaderStatusChanged(bool),
    CardStatusChanged(bool),
    CardDataReceived(Seq<char>),
    CloseSecondaryWindows,
    RestartAfter(u64),
}

impl View for Effect {
    type V = EffectModel;

    open spec fn view(&self) -> EffectModel {
        match *self {
            Effect::ReaderStatusChanged(connected) => EffectModel::ReaderStatusChanged(connected),
            Effect::CardStatusChanged(present) => EffectModel::CardStatusChanged(present),
            Effect::CardDataReceived(identifier) => EffectModel::CardDataReceived(identifier@),
            Effect::CloseSecondaryWindows => EffectModel::CloseSecondaryWindows,
            Effect::RestartAfter(delay_ms) => EffectModel::RestartAfter(delay_ms),
        }
    }
}

/// A list of effects as a sequence of mathematical values.
pub open spec fn effects_model(effects: Seq<Effect>) -> Seq<EffectModel> {
    effects.map_values(|effect: Effect| effect@)
}

/// The name under which a notification is delivered; effects that are not
/// notifications have none.
pub open spec fn notification_name(effect: EffectModel) -> Option<Seq<char>> {
    match effect {
        EffectModel::ReaderStatusChanged(_) => Some("reader-status-changed"@),
        EffectModel::CardStatusChanged(_) => Some("card-status-changed"@),
        EffectModel::CardDataReceived(_) => Some("card-data-received"@),
        EffectModel::CloseSecondaryWindows => None,
        EffectModel::RestartAfter(_) => None,
    }
}

impl Effect {
    /// The name under which this notification is delivered, or `None` if the
    /// effect is not a notification.
    pub fn event_name(&self) -> (name: Option<&'static str>)
        ensures
            match name {
                Some(text) => notification_name(self@) == Some(text@),
                None => notification_name(self@) is None,
            },
    {
        match self {
            Effect::ReaderStatusChanged(_) => Some("reader-status-changed"),
            Effect::CardStatusChanged(_) => Some("card-status-changed"),
            Effect::CardDataReceived(_) => Some("card-data-received"),
            Effect::CloseSecondaryWindows => None,
            Effect::RestartAfter(_) => None,
        }
    }
}

/// The label of the primary presentation window, which receives the
/// notifications.
pub const PRIMARY_WINDOW: &'static str = "main";

/// The label of the primary presentation window.
pub open spec fn primary_window() -> Seq<char> {
    PRIMARY_WINDOW@
}

/// Whether the window with the given label is closed when secondary
/// windows are: every window is, but the primary one.
pub fn is_secondary_window(label: &String) -> (secondary: bool)
    ensures
        secondary == (label@ != primary_window()),
{
    let primary: String = String::from_str(PRIMARY_WINDOW);
    !(*label == primary)
}

/// What a lifecycle operation asks of the owner of the monitoring loops.
#[derive(Debug, Clone, Copy, PartialEq, Eq, Structural)]
pub enum LifecycleAction {
    /// Leave the loops as they are.
    Nothing,
    /// Start the reader presence loop and the card loop.
    SpawnLoops,
    /// Cancel both loops.
    AbortLoops,
}

/// What a regained focus asks for.
#[derive(Debug, Clone, Copy, PartialEq, Eq, Structural)]
pub enum RecoveryPlan {
    /// The host was not away for long: nothing to do.
    Nothing,
    /// The host may have been suspended: wait `delay_ms` milliseconds, look
    /// for a reader, and report the finding.
    ProbeReader { delay_ms: u64 },
}

} // verus!
