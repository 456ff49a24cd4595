use nfc_monitor::card::CardPoll;
use nfc_monitor::events::{Effect, LifecycleAction, RecoveryPlan};
use nfc_monitor::readers::ReaderListing;
use nfc_monitor::device::DeviceError;
use nfc_monitor::system::{
    restart_nfc_monitoring, start_nfc_monitoring, stop_nfc_monitoring, NfcSystem,
};

fn readers(names: &[&str]) -> ReaderListing {
    ReaderListing::Readers(names.iter().map(|name| name.to_string()).collect())
}

fn system_with_reader() -> NfcSystem {
    let mut system = NfcSystem::new(0);
    system.start_monitoring();
    system.observe_readers(&readers(&["ReaderA"]));
    system
}

fn system_with_card() -> NfcSystem {
    let mut system = system_with_reader();
    system.observe_card(&CardPoll::Identified(vec![0x04, 0xA1, 0x3B, 0x9C]));
    system
}

#[test]
fn new_system_is_idle_and_disconnected() {
    let system = NfcSystem::new(1234);
    assert!(!system.reader_connected());
    assert!(!system.card_present());
    assert!(!system.monitoring_active());
    assert_eq!(system.last_activity(), 1234);
}

#[test]
fn start_spawns_loops_once() {
    let mut system = NfcSystem::new(0);
    assert_eq!(system.start_monitoring(), LifecycleAction::SpawnLoops);
    assert!(system.monitoring_active());
    assert_eq!(system.start_monitoring(), LifecycleAction::Nothing);
    assert!(system.monitoring_active());
}

#[test]
fn stop_aborts_loops_once() {
    let mut system = NfcSystem::new(0);
    assert_eq!(system.stop_monitoring(), LifecycleAction::Nothing);
    system.start_monitoring();
    assert_eq!(system.stop_monitoring(), LifecycleAction::AbortLoops);
    assert!(!system.monitoring_active());
    assert_eq!(system.stop_monitoring(), LifecycleAction::Nothing);
    assert!(!system.monitoring_active());
}

#[test]
fn restart_starts_when_idle_and_leaves_running_loops_alone() {
    let mut system = NfcSystem::new(0);
    assert_eq!(system.restart_monitoring(), LifecycleAction::SpawnLoops);
    assert!(system.monitoring_active());
    assert_eq!(system.restart_monitoring(), LifecycleAction::Nothing);
    assert!(system.monitoring_active());
}

#[test]
fn spawned_pairs_minus_aborted_pairs_is_one_while_active() {
    let mut system = NfcSystem::new(0);
    let mut pairs: i32 = 0;
    let steps = [0, 0, 2, 1, 1, 2, 0, 1, 0, 2, 2, 1, 0, 0, 1];
    for step in steps {
        let action = match step {
            0 => system.start_monitoring(),
            1 => system.stop_monitoring(),
            _ => system.restart_monitoring(),
        };
        match action {
            LifecycleAction::SpawnLoops => pairs += 1,
            LifecycleAction::AbortLoops => pairs -= 1,
            LifecycleAction::Nothing => {}
        }
        assert_eq!(pairs, if system.monitoring_active() { 1 } else { 0 });
    }
}

#[test]
fn lifecycle_leaves_presence_flags_alone() {
    let mut system = system_with_card();
    system.stop_monitoring();
    assert!(system.reader_connected());
    assert!(system.card_present());
    system.start_monitoring();
    assert!(system.reader_connected());
    assert!(system.card_present());
}

#[test]
fn reader_appearing_is_reported_once() {
    let mut system = NfcSystem::new(0);
    system.start_monitoring();
    assert_eq!(system.observe_readers(&readers(&[])), Vec::<Effect>::new());
    assert_eq!(
        system.observe_readers(&readers(&["ReaderA"])),
        vec![Effect::ReaderStatusChanged(true)]
    );
    assert!(system.reader_connected());
    assert_eq!(system.observe_readers(&readers(&["ReaderA"])), Vec::<Effect>::new());
    assert_eq!(system.observe_readers(&readers(&["ReaderA", "ReaderB"])), Vec::<Effect>::new());
}

#[test]
fn reader_appearing_while_idle_schedules_a_restart() {
    let mut system = NfcSystem::new(0);
    assert_eq!(system.observe_readers(&readers(&[])), Vec::<Effect>::new());
    assert_eq!(
        system.observe_readers(&readers(&["ReaderA"])),
        vec![Effect::ReaderStatusChanged(true), Effect::RestartAfter(1000)]
    );
    assert!(system.reader_connected());
    assert!(!system.monitoring_active());
    assert_eq!(system.restart_monitoring(), LifecycleAction::SpawnLoops);
    assert_eq!(system.observe_readers(&readers(&["ReaderA"])), Vec::<Effect>::new());
}

#[test]
fn reader_loss_clears_card_and_closes_windows() {
    let mut system = system_with_card();
    assert_eq!(
        system.observe_readers(&readers(&[])),
        vec![
            Effect::ReaderStatusChanged(false),
            Effect::CardStatusChanged(false),
            Effect::CloseSecondaryWindows,
        ]
    );
    assert!(!system.reader_connected());
    assert!(!system.card_present());
    assert_eq!(system.observe_readers(&readers(&[])), Vec::<Effect>::new());
}

#[test]
fn reader_loss_without_card_reports_the_same() {
    let mut system = system_with_reader();
    assert_eq!(
        system.observe_readers(&readers(&[])),
        vec![
            Effect::ReaderStatusChanged(false),
            Effect::CardStatusChanged(false),
            Effect::CloseSecondaryWindows,
        ]
    );
}

#[test]
fn failed_listing_counts_as_no_reader() {
    let mut system = system_with_card();
    let effects = system.observe_readers(&ReaderListing::ListFailed(DeviceError::NoService));
    assert_eq!(effects.len(), 3);
    assert_eq!(effects[0], Effect::ReaderStatusChanged(false));
    assert!(!system.reader_connected());
    assert!(!system.card_present());

    let mut system = system_with_reader();
    let effects = system.observe_readers(&ReaderListing::ContextFailed(DeviceError::InternalError));
    assert_eq!(effects[0], Effect::ReaderStatusChanged(false));
    assert!(!system.reader_connected());

    let mut system = NfcSystem::new(0);
    let effects = system.observe_readers(&ReaderListing::ContextFailed(DeviceError::NoService));
    assert_eq!(effects, Vec::<Effect>::new());
}

#[test]
fn identified_card_reports_hex_identifier_then_presence() {
    let mut system = system_with_reader();
    let effects = system.observe_card(&CardPoll::Identified(vec![0x04, 0xA1, 0x3B, 0x9C]));
    assert_eq!(
        effects,
        vec![Effect::CardDataReceived("04a13b9c".to_string()), Effect::CardStatusChanged(true)]
    );
    assert!(system.card_present());
}

#[test]
fn identifier_is_reported_on_every_read() {
    let mut system = system_with_card();
    let effects = system.observe_card(&CardPoll::Identified(vec![0xAB]));
    assert_eq!(
        effects,
        vec![Effect::CardDataReceived("ab".to_string()), Effect::CardStatusChanged(true)]
    );
    assert!(system.card_present());
}

#[test]
fn card_loss_is_reported_once() {
    let mut system = system_with_card();
    assert_eq!(system.observe_card(&CardPoll::Unreadable), vec![Effect::CardStatusChanged(false)]);
    assert!(!system.card_present());
    assert_eq!(system.observe_card(&CardPoll::Unreadable), Vec::<Effect>::new());
    assert_eq!(system.observe_card(&CardPoll::NoCard), Vec::<Effect>::new());
    assert_eq!(system.observe_card(&CardPoll::NoReader), Vec::<Effect>::new());
    assert_eq!(system.observe_card(&CardPoll::Identified(Vec::new())), Vec::<Effect>::new());
    assert!(!system.card_present());
}

#[test]
fn failed_connection_closes_windows_with_the_card_loss() {
    let mut system = system_with_card();
    assert_eq!(
        system.observe_card(&CardPoll::NoCard),
        vec![Effect::CardStatusChanged(false), Effect::CloseSecondaryWindows]
    );
    assert!(!system.card_present());

    let mut system = system_with_card();
    assert_eq!(
        system.observe_card(&CardPoll::NoReader),
        vec![Effect::CardStatusChanged(false), Effect::CloseSecondaryWindows]
    );
    assert!(!system.card_present());
}

#[test]
fn empty_identifier_counts_as_unreadable() {
    let mut system = system_with_card();
    assert_eq!(
        system.observe_card(&CardPoll::Identified(Vec::new())),
        vec![Effect::CardStatusChanged(false)]
    );
    assert!(!system.card_present());
}

#[test]
fn absent_card_stays_silent_from_the_start() {
    let mut system = NfcSystem::new(0);
    assert_eq!(system.observe_card(&CardPoll::NoReader), Vec::<Effect>::new());
    assert_eq!(system.observe_card(&CardPoll::NoCard), Vec::<Effect>::new());
    assert_eq!(system.observe_card(&CardPoll::Unreadable), Vec::<Effect>::new());
    assert!(!system.card_present());
}

#[test]
fn card_present_implies_reader_connected_along_a_history() {
    let mut system = NfcSystem::new(0);
    let present = readers(&["ReaderA"]);
    let absent = readers(&[]);
    let mut seed: u32 = 0x2545_F491;
    let mut seen_present = false;
    let mut seen_withheld = false;
    for round in 0..4000u32 {
        seed = seed.wrapping_mul(1_664_525).wrapping_add(1_013_904_223);
        match (seed >> 24) % 10 {
            0 => {
                system.observe_readers(&present);
            }
            1 => {
                system.observe_readers(&absent);
            }
            2 => {
                system.observe_readers(&ReaderListing::ListFailed(DeviceError::NoService));
            }
            3 | 4 | 5 => {
                let before = system.reader_connected();
                let effects = system.observe_card(&CardPoll::Identified(vec![round as u8, 0x01]));
                assert_eq!(system.card_present(), before);
                seen_present |= before;
                seen_withheld |= !before && effects.is_empty();
            }
            6 => {
                system.observe_card(&CardPoll::Unreadable);
            }
            7 => {
                system.observe_card(&CardPoll::NoCard);
            }
            8 => {
                system.start_monitoring();
                system.check_system_recovery(u64::from(round) * 40_000);
            }
            _ => {
                system.stop_monitoring();
                system.complete_recovery(round % 2 == 0);
            }
        }
        assert!(!system.card_present() || system.reader_connected());
    }
    assert!(seen_present);
    assert!(seen_withheld);
}

#[test]
fn identifier_read_before_the_reader_is_published_is_passed_over() {
    let mut system = NfcSystem::new(0);
    let effects = system.observe_card(&CardPoll::Identified(vec![0x01]));
    assert_eq!(effects, Vec::<Effect>::new());
    assert!(!system.card_present());
    assert!(!system.reader_connected());

    system.start_monitoring();
    let effects = system.observe_card(&CardPoll::Identified(vec![0x01]));
    assert_eq!(effects, Vec::<Effect>::new());
    assert!(!system.card_present());

    system.observe_readers(&readers(&["ReaderA"]));
    let effects = system.observe_card(&CardPoll::Identified(vec![0x01]));
    assert_eq!(
        effects,
        vec![Effect::CardDataReceived("01".to_string()), Effect::CardStatusChanged(true)]
    );
    assert!(system.card_present());
    assert!(system.reader_connected());
}

#[test]
fn identifier_read_after_the_reader_was_lost_is_passed_over() {
    let mut system = system_with_card();
    system.observe_readers(&readers(&[]));
    assert!(!system.card_present());
    let effects = system.observe_card(&CardPoll::Identified(vec![0x04, 0xA1, 0x3B, 0x9C]));
    assert_eq!(effects, Vec::<Effect>::new());
    assert!(!system.card_present());
    assert!(!system.reader_connected());
}

#[test]
fn focus_within_threshold_only_refreshes_the_timestamp() {
    let mut system = NfcSystem::new(1_000);
    assert_eq!(system.check_system_recovery(31_000), RecoveryPlan::Nothing);
    assert_eq!(system.last_activity(), 31_000);
    assert_eq!(system.check_system_recovery(31_000), RecoveryPlan::Nothing);
    assert_eq!(system.check_system_recovery(40_000), RecoveryPlan::Nothing);
    assert_eq!(system.last_activity(), 40_000);
}

#[test]
fn focus_after_long_gap_asks_for_a_probe_after_five_seconds() {
    let mut system = NfcSystem::new(1_000);
    assert_eq!(
        system.check_system_recovery(31_001),
        RecoveryPlan::ProbeReader { delay_ms: 5_000 }
    );
    assert_eq!(system.last_activity(), 31_001);
    assert_eq!(system.check_system_recovery(31_002), RecoveryPlan::Nothing);
}

#[test]
fn focus_with_clock_behind_last_activity_counts_as_no_gap() {
    let mut system = NfcSystem::new(100_000);
    assert_eq!(system.check_system_recovery(10), RecoveryPlan::Nothing);
    assert_eq!(system.last_activity(), 10);
}

#[test]
fn focus_handles_the_largest_times() {
    let mut system = NfcSystem::new(0);
    assert_eq!(
        system.check_system_recovery(u64::MAX),
        RecoveryPlan::ProbeReader { delay_ms: 5_000 }
    );
    assert_eq!(system.last_activity(), u64::MAX);
}

#[test]
fn recovery_starts_monitoring_only_with_a_reader() {
    let mut system = NfcSystem::new(0);
    assert_eq!(system.complete_recovery(false), LifecycleAction::Nothing);
    assert!(!system.monitoring_active());
    assert_eq!(system.complete_recovery(true), LifecycleAction::SpawnLoops);
    assert!(system.monitoring_active());
    assert_eq!(system.complete_recovery(true), LifecycleAction::Nothing);
    assert!(system.monitoring_active());
}

#[test]
fn start_command_creates_the_system_on_first_use() {
    let mut slot: Option<NfcSystem> = None;
    assert_eq!(start_nfc_monitoring(&mut slot, 77), LifecycleAction::SpawnLoops);
    let system = slot.as_ref().unwrap();
    assert!(system.monitoring_active());
    assert_eq!(system.last_activity(), 77);
    assert_eq!(start_nfc_monitoring(&mut slot, 99), LifecycleAction::Nothing);
    assert_eq!(slot.as_ref().unwrap().last_activity(), 77);
}

#[test]
fn stop_command_needs_a_system() {
    let mut slot: Option<NfcSystem> = None;
    assert_eq!(stop_nfc_monitoring(&mut slot), Err("NFC系统未初始化".to_string()));
    assert!(slot.is_none());
    start_nfc_monitoring(&mut slot, 0);
    assert_eq!(stop_nfc_monitoring(&mut slot), Ok(LifecycleAction::AbortLoops));
    assert!(!slot.as_ref().unwrap().monitoring_active());
    assert_eq!(stop_nfc_monitoring(&mut slot), Ok(LifecycleAction::Nothing));
}

#[test]
fn restart_command_needs_a_system() {
    let mut slot: Option<NfcSystem> = None;
    assert_eq!(restart_nfc_monitoring(&mut slot), Err("NFC系统未初始化，无法重启".to_string()));
    assert!(slot.is_none());
    slot = Some(NfcSystem::new(0));
    assert_eq!(restart_nfc_monitoring(&mut slot), Ok(LifecycleAction::SpawnLoops));
    assert_eq!(restart_nfc_monitoring(&mut slot), Ok(LifecycleAction::Nothing));
    assert!(slot.as_ref().unwrap().monitoring_active());
}
