use kperf_rs::constants::{
    KPC_CLASS_CONFIGURABLE_MASK, KPC_CLASS_FIXED_MASK, KPC_MAX_COUNTERS, KPC_PMU_ARM_APPLE,
    KPC_PMU_ERROR,
};
use kperf_rs::error::{ConfigStep, KperfError};
use kperf_rs::event::Event;
use kperf_rs::kperf::{
    nanaseconds_to_ticks, ticks_to_nanoseconds, KProbesDatabase, TICKS_TO_NANOSECONDS_SCALE,
};
use kperf_rs::{check_kpc_permission, KernelBuildResponses, PerfCounterBuilder, Track};

fn cycles_db() -> KProbesDatabase {
    KProbesDatabase::new(
        Some(String::from("test db")),
        2,
        8,
        vec![String::from("FIXED_CYCLES")],
    )
}

/// Kernel answers under which every build step succeeds: a fixed-class
/// configuration whose first event landed in register 0, with no
/// register write needed.
fn all_good() -> KernelBuildResponses {
    KernelBuildResponses {
        create_status: 0,
        bind_status: 0,
        force_status: 0,
        classes: Ok(KPC_CLASS_FIXED_MASK),
        reg_count: Ok(0),
        counter_map: Ok(vec![0usize; KPC_MAX_COUNTERS]),
        kpc_registers: Ok(vec![0u64; KPC_MAX_COUNTERS]),
        acquire_status: 0,
        write_status: None,
    }
}

/// A per-thread snapshot whose tracked slot (register 0) holds `value`.
fn snapshot(value: u64) -> Vec<u64> {
    let mut s = vec![0u64; KPC_MAX_COUNTERS];
    s[0] = value;
    s
}

#[test]
fn permission_check_passes_and_fails_on_the_kernel_status() {
    // Scenario: permission denied. The caller sees the typed error and
    // attempts nothing further; the harness exits non-zero on it.
    assert_eq!(check_kpc_permission(0), Ok(()));
    assert_eq!(check_kpc_permission(1), Err(KperfError::PermissionDenied));
    assert_eq!(check_kpc_permission(-22), Err(KperfError::PermissionDenied));
}

#[test]
fn builder_tracks_cycles_by_default() {
    let builder = PerfCounterBuilder::new(cycles_db());
    assert_eq!(builder.tracked_event, Event::Cycles);
    let builder = builder.track_event(Event::BranchMisses);
    assert_eq!(builder.tracked_event, Event::BranchMisses);
    let _ = Track::Thread;
}

#[test]
fn building_a_fixed_cycles_counter_succeeds() {
    // Scenario: track Cycles on a database defining FIXED_CYCLES. The
    // event resolves, the build goes through, and the reported counter
    // index lies below the hardware's total counter count.
    let db = cycles_db();
    let fixed = db.get_fixed_counter_count();
    let configurable = db.get_configurable_counter_count();
    let counter = PerfCounterBuilder::new(db)
        .track_event(Event::Cycles)
        .build_counter(all_good())
        .unwrap();
    assert!(counter.counter_idx < fixed + configurable);
    assert!(!counter.started);
}

#[test]
fn build_reports_each_failing_step() {
    let make = || PerfCounterBuilder::new(cycles_db()).track_event(Event::Cycles);
    let r = make().build_counter(KernelBuildResponses { create_status: 7, ..all_good() });
    assert_eq!(
        r.err(),
        Some(KperfError::PerfCounterBuildError(ConfigStep::CreateConfig, 7))
    );
    let r = make().build_counter(KernelBuildResponses { bind_status: 8, ..all_good() });
    assert_eq!(
        r.err(),
        Some(KperfError::PerfCounterBuildError(ConfigStep::BindEvent, 8))
    );
    let r = make().build_counter(KernelBuildResponses { force_status: 9, ..all_good() });
    assert_eq!(
        r.err(),
        Some(KperfError::PerfCounterBuildError(ConfigStep::ForceCounters, 9))
    );
    let r = make().build_counter(KernelBuildResponses { classes: Err(10), ..all_good() });
    assert_eq!(
        r.err(),
        Some(KperfError::PerfCounterBuildError(ConfigStep::QueryClasses, 10))
    );
    let r = make().build_counter(KernelBuildResponses { acquire_status: 11, ..all_good() });
    assert_eq!(
        r.err(),
        Some(KperfError::PerfCounterBuildError(ConfigStep::AcquireCounters, 11))
    );
}

#[test]
fn build_fails_when_no_candidate_name_resolves() {
    let empty_db = KProbesDatabase::new(None, 2, 8, Vec::new());
    let r = PerfCounterBuilder::new(empty_db)
        .track_event(Event::Cycles)
        .build_counter(all_good());
    assert_eq!(r.err(), Some(KperfError::EventNotFound(Event::Cycles)));
}

#[test]
fn build_demands_a_write_exactly_when_registers_are_in_use() {
    // A configurable-class build must carry a write status; a
    // fixed-class build must not.
    let configurable = KernelBuildResponses {
        classes: Ok(KPC_CLASS_CONFIGURABLE_MASK),
        reg_count: Ok(2),
        write_status: Some(0),
        ..all_good()
    };
    assert!(PerfCounterBuilder::new(cycles_db()).build_counter(configurable).is_ok());
    let missing_write = KernelBuildResponses {
        classes: Ok(KPC_CLASS_CONFIGURABLE_MASK),
        reg_count: Ok(2),
        write_status: None,
        ..all_good()
    };
    assert_eq!(
        PerfCounterBuilder::new(cycles_db()).build_counter(missing_write).err(),
        Some(KperfError::StateViolation)
    );
    let spurious_write = KernelBuildResponses { write_status: Some(0), ..all_good() };
    assert_eq!(
        PerfCounterBuilder::new(cycles_db()).build_counter(spurious_write).err(),
        Some(KperfError::StateViolation)
    );
    let failed_write = KernelBuildResponses {
        classes: Ok(KPC_CLASS_CONFIGURABLE_MASK),
        reg_count: Ok(2),
        write_status: Some(33),
        ..all_good()
    };
    assert_eq!(
        PerfCounterBuilder::new(cycles_db()).build_counter(failed_write).err(),
        Some(KperfError::PerfCounterBuildError(ConfigStep::WriteRegisters, 33))
    );
}

#[test]
fn read_before_start_is_a_state_violation() {
    let mut counter = PerfCounterBuilder::new(cycles_db()).build_counter(all_good()).unwrap();
    assert_eq!(counter.read(Ok(snapshot(10))), Err(KperfError::StateViolation));
}

#[test]
fn repeated_reads_of_a_monotonic_counter_never_shrink() {
    // Two reads in succession with no intervening start or reset: the
    // counter only moved forward, so the second delta is at least the
    // first and both are non-negative.
    let mut counter = PerfCounterBuilder::new(cycles_db()).build_counter(all_good()).unwrap();
    counter.start(0, 0, Ok(snapshot(1_000))).unwrap();
    let first = counter.read(Ok(snapshot(1_500))).unwrap();
    let second = counter.read(Ok(snapshot(1_530))).unwrap();
    assert_eq!(first, 500);
    assert_eq!(second, 530);
    assert!(second >= first);
}

#[test]
fn read_after_stop_reports_the_accumulated_delta() {
    // Scenario: measure a code region. The session is started, work
    // advances the counter, the session is stopped, and the read after
    // the stop returns the positive tick delta of the region.
    let mut counter = PerfCounterBuilder::new(cycles_db()).build_counter(all_good()).unwrap();
    counter.start(0, 0, Ok(snapshot(2_000))).unwrap();
    counter.stop(0).unwrap();
    let ticks = counter.read(Ok(snapshot(501_234))).unwrap();
    assert_eq!(ticks, 499_234);
    assert!(ticks > 0);
    let nanoseconds = ticks_to_nanoseconds(ticks * TICKS_TO_NANOSECONDS_SCALE);
    assert_eq!(nanoseconds, ticks);
}

#[test]
fn restarting_a_started_session_keeps_the_baseline() {
    let mut counter = PerfCounterBuilder::new(cycles_db()).build_counter(all_good()).unwrap();
    counter.start(0, 0, Ok(snapshot(100))).unwrap();
    counter.start(0, 0, Ok(snapshot(900))).unwrap();
    assert_eq!(counter.read(Ok(snapshot(1_000))).unwrap(), 900);
}

#[test]
fn reset_rebases_the_measurement() {
    let mut counter = PerfCounterBuilder::new(cycles_db()).build_counter(all_good()).unwrap();
    counter.start(0, 0, Ok(snapshot(100))).unwrap();
    counter.reset(Ok(snapshot(700))).unwrap();
    assert_eq!(counter.read(Ok(snapshot(750))).unwrap(), 50);
}

#[test]
fn session_errors_carry_the_kernel_status() {
    let mut counter = PerfCounterBuilder::new(cycles_db()).build_counter(all_good()).unwrap();
    assert_eq!(
        counter.start(4, 0, Ok(snapshot(0))),
        Err(KperfError::PerfCounterBuildError(ConfigStep::EnableCounting, 4))
    );
    assert_eq!(
        counter.start(0, 5, Ok(snapshot(0))),
        Err(KperfError::PerfCounterBuildError(ConfigStep::EnableThreadCounting, 5))
    );
    assert_eq!(counter.start(0, 0, Err(6)), Err(KperfError::UnknownError(6)));
    counter.start(0, 0, Ok(snapshot(0))).unwrap();
    assert_eq!(counter.read(Err(7)), Err(KperfError::UnknownError(7)));
    assert_eq!(counter.reset(Err(8)), Err(KperfError::UnknownError(8)));
    assert_eq!(
        counter.stop(9),
        Err(KperfError::PerfCounterBuildError(ConfigStep::DisableThreadCounting, 9))
    );
}

#[test]
fn the_delta_wraps_like_the_hardware_counter() {
    let mut counter = PerfCounterBuilder::new(cycles_db()).build_counter(all_good()).unwrap();
    counter.start(0, 0, Ok(snapshot(u64::MAX - 1))).unwrap();
    assert_eq!(counter.read(Ok(snapshot(3))).unwrap(), 5);
}

#[test]
fn tick_scaling_applies_the_factor_symmetrically() {
    // Round-trip time conversion: scaling down and back up recovers the
    // platform value within the rounding of the fixed factor.
    assert_eq!(ticks_to_nanoseconds(12_345), 123);
    assert_eq!(nanaseconds_to_ticks(123), 12_300);
    for platform_ns in [0u64, 1, 99, 100, 101, 12_345, 1_000_000_007] {
        let down = ticks_to_nanoseconds(platform_ns);
        let up = nanaseconds_to_ticks(down);
        assert!(up <= platform_ns);
        assert!(platform_ns - up < TICKS_TO_NANOSECONDS_SCALE);
    }
    for exact in [0u64, 100, 4_200, 1_000_000_000] {
        assert_eq!(nanaseconds_to_ticks(ticks_to_nanoseconds(exact)), exact);
    }
}

#[test]
fn tick_scaling_factor_is_overridable() {
    // The calibration factor is hardware-generation-specific; the
    // scaling steps take an explicit factor too.
    assert_eq!(kperf_rs::kperf::ticks_to_nanoseconds_with(1_000, 8), 125);
    assert_eq!(kperf_rs::kperf::nanaseconds_to_ticks_with(125, 8), 1_000);
}

#[test]
fn test_running_function() {
    // The counter machinery is callable end to end on a model database.
    let db = cycles_db();
    let counter = PerfCounterBuilder::new(db).build_counter(all_good());
    let _ = counter;
}

#[test]
fn test_pmu_version() {
    let pmu_version = KPC_PMU_ARM_APPLE;
    assert_ne!(
        pmu_version, KPC_PMU_ERROR,
        "A PMU version of zero means an error, try to run this program in sudo"
    );
}
