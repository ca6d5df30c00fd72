use kperf_rs::constants::{
    KPC_CLASS_CONFIGURABLE_MASK, KPC_CLASS_FIXED_MASK, KPC_MAX_COUNTERS,
};
use kperf_rs::error::{ConfigStep, KpepError, KperfError};
use kperf_rs::event::Event;
use kperf_rs::kperf::{KProbesConfig, KProbesDatabase};

fn db_with(names: &[&str]) -> KProbesDatabase {
    KProbesDatabase::new(
        Some(String::from("test db")),
        2,
        8,
        names.iter().map(|n| String::from(*n)).collect(),
    )
}

fn cycles_db() -> KProbesDatabase {
    db_with(&["FIXED_CYCLES"])
}

fn map_with_first(idx: usize) -> Vec<usize> {
    let mut m = vec![0usize; KPC_MAX_COUNTERS];
    m[0] = idx;
    m
}

fn registers() -> Vec<u64> {
    vec![0u64; KPC_MAX_COUNTERS]
}

/// A configuration with one bound event, forced, ready to fill.
fn forced_config(db: &KProbesDatabase) -> KProbesConfig {
    let mut config = KProbesConfig::from_database(db, 0).unwrap();
    config.add_event(db, Event::Cycles, 0).unwrap();
    config.force_counters(0).unwrap();
    config
}

/// A configuration filled with the given class mask and register count,
/// acquired, ready to program.
fn acquired_config(db: &KProbesDatabase, classes: u32, reg_count: usize) -> KProbesConfig {
    let mut config = forced_config(db);
    config
        .fill_config_variables(Ok(classes), Ok(reg_count), Ok(map_with_first(0)), Ok(registers()))
        .unwrap();
    config.acquire_counters(0).unwrap();
    config
}

#[test]
fn config_creation_reports_the_kernel_failure() {
    let db = cycles_db();
    assert!(matches!(
        KProbesConfig::from_database(&db, 5),
        Err(KpepError::UnknownError)
    ));
    assert!(KProbesConfig::from_database(&db, 0).is_ok());
}

#[test]
fn add_event_reports_an_unresolvable_event() {
    let db = db_with(&["SOMETHING_ELSE"]);
    let mut config = KProbesConfig::from_database(&db, 0).unwrap();
    assert_eq!(
        config.add_event(&db, Event::Cycles, 0),
        Err(KperfError::EventNotFound(Event::Cycles))
    );
}

#[test]
fn add_event_reports_a_rejected_binding() {
    let db = cycles_db();
    let mut config = KProbesConfig::from_database(&db, 0).unwrap();
    assert_eq!(
        config.add_event(&db, Event::Cycles, 13),
        Err(KperfError::PerfCounterBuildError(ConfigStep::BindEvent, 13))
    );
}

#[test]
fn add_event_after_forcing_is_a_state_violation() {
    let db = cycles_db();
    let mut config = forced_config(&db);
    assert_eq!(
        config.add_event(&db, Event::Cycles, 0),
        Err(KperfError::StateViolation)
    );
}

#[test]
fn force_counters_reports_the_kernel_failure() {
    let db = cycles_db();
    let mut config = KProbesConfig::from_database(&db, 0).unwrap();
    assert_eq!(
        config.force_counters(9),
        Err(KperfError::PerfCounterBuildError(ConfigStep::ForceCounters, 9))
    );
}

#[test]
fn fill_before_forcing_is_a_state_violation() {
    let db = cycles_db();
    let mut config = KProbesConfig::from_database(&db, 0).unwrap();
    assert_eq!(
        config.fill_config_variables(Ok(1), Ok(0), Ok(map_with_first(0)), Ok(registers())),
        Err(KperfError::StateViolation)
    );
}

#[test]
fn fill_twice_is_a_state_violation() {
    let db = cycles_db();
    let mut config = forced_config(&db);
    config
        .fill_config_variables(Ok(1), Ok(0), Ok(map_with_first(0)), Ok(registers()))
        .unwrap();
    assert_eq!(
        config.fill_config_variables(Ok(1), Ok(0), Ok(map_with_first(0)), Ok(registers())),
        Err(KperfError::StateViolation)
    );
}

#[test]
fn fill_reports_the_first_failing_query() {
    let db = cycles_db();
    let mut config = forced_config(&db);
    assert_eq!(
        config.fill_config_variables(Err(3), Err(4), Ok(map_with_first(0)), Err(6)),
        Err(KperfError::PerfCounterBuildError(ConfigStep::QueryClasses, 3))
    );
    let mut config = forced_config(&db);
    assert_eq!(
        config.fill_config_variables(Ok(1), Err(4), Err(5), Ok(registers())),
        Err(KperfError::PerfCounterBuildError(ConfigStep::QueryRegisterCount, 4))
    );
    let mut config = forced_config(&db);
    assert_eq!(
        config.fill_config_variables(Ok(1), Ok(0), Err(5), Ok(registers())),
        Err(KperfError::PerfCounterBuildError(ConfigStep::QueryCounterMap, 5))
    );
    let mut config = forced_config(&db);
    assert_eq!(
        config.fill_config_variables(Ok(1), Ok(0), Ok(map_with_first(0)), Err(6)),
        Err(KperfError::PerfCounterBuildError(ConfigStep::QueryRegisterValues, 6))
    );
}

#[test]
fn fill_with_zero_events_is_a_state_violation() {
    // Filling before any event is bound is out of sequence: it fails
    // fast with a state error, whatever the kernel would have reported,
    // and the register count stays zero.
    let db = cycles_db();
    let mut config = KProbesConfig::from_database(&db, 0).unwrap();
    config.force_counters(0).unwrap();
    assert_eq!(
        config.fill_config_variables(Ok(1), Ok(1), Ok(map_with_first(0)), Ok(registers())),
        Err(KperfError::StateViolation)
    );
    assert_eq!(
        config.fill_config_variables(Ok(1), Ok(0), Ok(map_with_first(0)), Ok(registers())),
        Err(KperfError::StateViolation)
    );
    assert_eq!(config.reg_count, 0);
}

#[test]
fn fill_rejects_a_counter_map_entry_past_the_last_slot() {
    let db = cycles_db();
    let mut config = forced_config(&db);
    assert_eq!(
        config.fill_config_variables(
            Ok(1),
            Ok(0),
            Ok(map_with_first(KPC_MAX_COUNTERS)),
            Ok(registers())
        ),
        Err(KperfError::InconsistentConfig)
    );
    let mut config = forced_config(&db);
    config
        .fill_config_variables(Ok(1), Ok(0), Ok(map_with_first(7)), Ok(registers()))
        .unwrap();
    assert_eq!(config.counter_map[0], 7);
    assert!(config.counter_map[0] < KPC_MAX_COUNTERS);
}

#[test]
fn fill_rejects_wrongly_sized_buffers() {
    let db = cycles_db();
    let mut config = forced_config(&db);
    assert_eq!(
        config.fill_config_variables(Ok(1), Ok(0), Ok(vec![0usize; 4]), Ok(registers())),
        Err(KperfError::InconsistentConfig)
    );
}

#[test]
fn programming_skips_the_write_without_a_configurable_class() {
    // With no configurable bit in the class mask, programming succeeds
    // without any register write: the `None` handed in records that the
    // kernel-service double saw no write call.
    let db = cycles_db();
    let mut config = acquired_config(&db, KPC_CLASS_FIXED_MASK, 0);
    assert!(!config.needs_register_write());
    assert_eq!(config.set_kpc_config(None), Ok(()));
}

#[test]
fn programming_writes_when_configurable_registers_are_in_use() {
    let db = cycles_db();
    let mut config = acquired_config(&db, KPC_CLASS_CONFIGURABLE_MASK, 2);
    assert!(config.needs_register_write());
    assert_eq!(config.set_kpc_config(Some(0)), Ok(()));
}

#[test]
fn programming_reports_a_failed_write() {
    let db = cycles_db();
    let mut config = acquired_config(&db, KPC_CLASS_CONFIGURABLE_MASK, 2);
    assert_eq!(
        config.set_kpc_config(Some(22)),
        Err(KperfError::PerfCounterBuildError(ConfigStep::WriteRegisters, 22))
    );
}

#[test]
fn programming_rejects_a_configurable_mask_with_no_registers() {
    let db = cycles_db();
    let mut config = acquired_config(&db, KPC_CLASS_CONFIGURABLE_MASK, 0);
    assert!(!config.needs_register_write());
    assert_eq!(config.set_kpc_config(None), Err(KperfError::InconsistentConfig));
}

#[test]
fn acquisition_reports_the_kernel_failure() {
    let db = cycles_db();
    let mut config = forced_config(&db);
    config
        .fill_config_variables(Ok(1), Ok(0), Ok(map_with_first(0)), Ok(registers()))
        .unwrap();
    assert_eq!(
        config.acquire_counters(2),
        Err(KperfError::PerfCounterBuildError(ConfigStep::AcquireCounters, 2))
    );
}

#[test]
fn counting_requires_a_programmed_configuration() {
    let db = cycles_db();
    let mut config = acquired_config(&db, KPC_CLASS_FIXED_MASK, 0);
    assert_eq!(config.start_kpc_counting(0), Err(KperfError::StateViolation));
    config.set_kpc_config(None).unwrap();
    assert_eq!(config.start_kpc_counting(0), Ok(()));
    assert_eq!(
        config.start_kpc_thread_counting(8),
        Err(KperfError::PerfCounterBuildError(ConfigStep::EnableThreadCounting, 8))
    );
    assert_eq!(config.start_kpc_thread_counting(0), Ok(()));
    assert_eq!(config.stop_kpc_thread_counting(0), Ok(()));
}

#[test]
fn counter_index_is_the_first_mapping() {
    let db = cycles_db();
    let mut config = forced_config(&db);
    config
        .fill_config_variables(Ok(1), Ok(0), Ok(map_with_first(3)), Ok(registers()))
        .unwrap();
    assert_eq!(config.get_counter_index(), 3);
}
