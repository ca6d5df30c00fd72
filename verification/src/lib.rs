//! Configures and reads hardware performance-monitoring counters by
//! negotiating with a kernel counter-multiplexing service.
//!
//! The library is the verified core: it resolves symbolic event names
//! against a counter database, sequences the counter-configuration state
//! machine, and implements the start/stop/read measurement session over
//! per-thread counter snapshots. Every call into the kernel service is
//! performed by the surrounding (unverified) harness, which hands the
//! kernel's numeric status codes and query results to the functions here
//! as plain values; the library decides, validates and does all
//! bookkeeping, and its behaviour is specified and proved for every value
//! the kernel can hand back.

use vstd::prelude::*;

pub mod constants;
pub mod error;
pub mod event;
pub mod kperf;

verus! {

use crate::constants::KPC_MAX_COUNTERS;
use crate::constants::KPC_CLASS_CONFIGURABLE_MASK;
use crate::error::{ConfigStep, KperfError};
use crate::event::{Event, spec_resolve};
use crate::kperf::{ConfigState, KProbesConfig, KProbesDatabase, zero_register_values};

/// What a measurement session attributes counts to.
#[derive(Copy, Clone, Debug, PartialEq, Eq, Structural)]
pub enum Track {
    Thread,
}

/// Checks that counter access is permitted; `status` is the kernel's
/// status for reading the counter-ownership state, which fails without
/// elevated privileges. A non-zero status is permission denied, fatal to
/// the calling session and never retried.
pub fn check_kpc_permission(status: i32) -> (r: Result<(), KperfError>)
    ensures
        status == 0 ==> r == Ok::<(), KperfError>(()),
        status != 0 ==> r == Err::<(), KperfError>(KperfError::PermissionDenied),
{
    if status != 0 {
        return Err(KperfError::PermissionDenied);
    }
    Ok(())
}

/// The kernel service's answers to the calls a counter build makes, in
/// the order the build makes them. The harness performs the calls and
/// records each status code or query result here; the build itself is
/// then verified for every combination the kernel can produce.
pub struct KernelBuildResponses {
    /// Status of creating the configuration from the database.
    pub create_status: i32,
    /// Status of binding the resolved event into the configuration.
    pub bind_status: i32,
    /// Status of forcing exclusive use of all counters.
    pub force_status: i32,
    /// The counter class mask query: the mask, or the failing status.
    pub classes: Result<u32, i32>,
    /// The register count query: the count, or the failing status.
    pub reg_count: Result<usize, i32>,
    /// The register map query: the map, or the failing status.
    pub counter_map: Result<Vec<usize>, i32>,
    /// The register values query: the values, or the failing status.
    pub kpc_registers: Result<Vec<u64>, i32>,
    /// Status of acquiring system-wide counter ownership.
    pub acquire_status: i32,
    /// Status of the register write when the build required one — the
    /// harness writes exactly when [`KProbesConfig::needs_register_write`]
    /// says so — and `None` when the write was rightly skipped.
    pub write_status: Option<i32>,
}

impl KernelBuildResponses {
    /// All four fill queries answered.
    pub open spec fn fill_ok(self) -> bool {
        self.classes is Ok && self.reg_count is Ok && self.counter_map is Ok
            && self.kpc_registers is Ok
    }

    /// The reported class mask.
    pub open spec fn spec_classes(self) -> u32 {
        self.classes->Ok_0
    }

    /// The reported register count.
    pub open spec fn spec_reg_count(self) -> usize {
        self.reg_count->Ok_0
    }

    /// The reported register map.
    pub open spec fn spec_counter_map(self) -> Seq<usize> {
        self.counter_map->Ok_0@
    }

    /// The reported register values.
    pub open spec fn spec_registers(self) -> Seq<u64> {
        self.kpc_registers->Ok_0@
    }

    /// Both reported buffers are hardware-sized.
    pub open spec fn buffers_sized(self) -> bool {
        self.spec_counter_map().len() == KPC_MAX_COUNTERS && self.spec_registers().len()
            == KPC_MAX_COUNTERS
    }

    /// Whether the reported mask and count demand a register write.
    pub open spec fn spec_needs_write(self) -> bool {
        self.spec_classes() & KPC_CLASS_CONFIGURABLE_MASK != 0 && self.spec_reg_count() != 0
    }

    /// The harness wrote registers exactly when the build demanded it.
    pub open spec fn write_consistent(self) -> bool {
        self.write_status is Some <==> self.spec_needs_write()
    }
}

/// Builds one measurement session: a database, the event to track, and
/// the build step that drives the configuration state machine through
/// creation, binding, forcing, filling, acquisition and programming.
pub struct PerfCounterBuilder {
    /// The loaded counter database the session resolves against.
    pub kprobes_db: KProbesDatabase,
    /// The abstract event the session will track.
    pub tracked_event: Event,
}

impl PerfCounterBuilder {
    /// A builder over `kprobes_db`, tracking processor cycles until
    /// another event is chosen.
    pub fn new(kprobes_db: KProbesDatabase) -> (b: Self)
        ensures
            b.kprobes_db == kprobes_db,
            b.tracked_event == Event::Cycles,
    {
        Self { kprobes_db, tracked_event: Event::Cycles }
    }

    /// Chooses the event the session will track.
    pub fn track_event(self, tracked_event: Event) -> (b: Self)
        ensures
            b.kprobes_db == self.kprobes_db,
            b.tracked_event == tracked_event,
    {
        Self { kprobes_db: self.kprobes_db, tracked_event }
    }

    /// Drives a fresh configuration through the whole build sequence —
    /// create, bind the tracked event, force counters, fill the
    /// variables, acquire ownership, program the registers — against the
    /// kernel answers in `kr`, and wraps the programmed configuration in
    /// a ready, not-yet-started measurement session. The first failing
    /// step aborts the build with its error; the contract states the
    /// outcome for every combination of kernel answers.
    pub fn build_counter(self, kr: KernelBuildResponses) -> (r: Result<PerfCounter, KperfError>)
        ensures
            kr.create_status != 0 ==> r == Err::<PerfCounter, KperfError>(
                KperfError::PerfCounterBuildError(ConfigStep::CreateConfig, kr.create_status),
            ),
            kr.create_status == 0 && spec_resolve(self.tracked_event, self.kprobes_db) is None
                ==> r == Err::<PerfCounter, KperfError>(
                KperfError::EventNotFound(self.tracked_event),
            ),
            kr.create_status == 0 && spec_resolve(self.tracked_event, self.kprobes_db) is Some
                && kr.bind_status != 0 ==> r == Err::<PerfCounter, KperfError>(
                KperfError::PerfCounterBuildError(ConfigStep::BindEvent, kr.bind_status),
            ),
            kr.create_status == 0 && spec_resolve(self.tracked_event, self.kprobes_db) is Some
                && kr.bind_status == 0 && kr.force_status != 0 ==> r == Err::<
                PerfCounter,
                KperfError,
            >(KperfError::PerfCounterBuildError(ConfigStep::ForceCounters, kr.force_status)),
            self.statuses_through_force(kr) && kr.classes is Err ==> r == Err::<
                PerfCounter,
                KperfError,
            >(KperfError::PerfCounterBuildError(ConfigStep::QueryClasses, kr.classes->Err_0)),
            self.statuses_through_force(kr) && kr.classes is Ok && kr.reg_count is Err ==> r
                == Err::<PerfCounter, KperfError>(
                KperfError::PerfCounterBuildError(ConfigStep::QueryRegisterCount,
                kr.reg_count->Err_0),
            ),
            self.statuses_through_force(kr) && kr.classes is Ok && kr.reg_count is Ok
                && kr.counter_map is Err ==> r == Err::<PerfCounter, KperfError>(
                KperfError::PerfCounterBuildError(ConfigStep::QueryCounterMap,
                kr.counter_map->Err_0),
            ),
            self.statuses_through_force(kr) && kr.classes is Ok && kr.reg_count is Ok
                && kr.counter_map is Ok && kr.kpc_registers is Err ==> r == Err::<
                PerfCounter,
                KperfError,
            >(KperfError::PerfCounterBuildError(ConfigStep::QueryRegisterValues,
            kr.kpc_registers->Err_0)),
            self.statuses_through_force(kr) && kr.fill_ok() && !kr.buffers_sized() ==> r == Err::<
                PerfCounter,
                KperfError,
            >(KperfError::InconsistentConfig),
            self.statuses_through_force(kr) && kr.fill_ok() && kr.buffers_sized()
                && kr.spec_counter_map()[0] >= KPC_MAX_COUNTERS ==> r == Err::<
                PerfCounter,
                KperfError,
            >(KperfError::InconsistentConfig),
            self.filled(kr) && kr.acquire_status != 0 ==> r == Err::<PerfCounter, KperfError>(
                KperfError::PerfCounterBuildError(ConfigStep::AcquireCounters, kr.acquire_status),
            ),
            self.filled(kr) && kr.acquire_status == 0 && !kr.write_consistent() ==> r == Err::<
                PerfCounter,
                KperfError,
            >(KperfError::StateViolation),
            self.filled(kr) && kr.acquire_status == 0 && kr.write_consistent()
                && kr.spec_classes() & KPC_CLASS_CONFIGURABLE_MASK != 0 && kr.spec_reg_count() == 0
                ==> r == Err::<PerfCounter, KperfError>(KperfError::InconsistentConfig),
            self.filled(kr) && kr.acquire_status == 0 && kr.write_consistent()
                && kr.spec_needs_write() && kr.write_status->Some_0 != 0 ==> r == Err::<
                PerfCounter,
                KperfError,
            >(KperfError::PerfCounterBuildError(ConfigStep::WriteRegisters,
            kr.write_status->Some_0)),
            self.build_succeeds(kr) ==> {
                &&& r is Ok
                &&& r->Ok_0.wf()
                &&& !r->Ok_0.started
                &&& r->Ok_0.counter_idx == kr.spec_counter_map()[0]
                &&& r->Ok_0.kprobes_db == self.kprobes_db
                &&& r->Ok_0.counters_start@ == Seq::new(KPC_MAX_COUNTERS as nat, |i: int| 0u64)
                &&& r->Ok_0.counters_end@ == Seq::new(KPC_MAX_COUNTERS as nat, |i: int| 0u64)
                &&& r->Ok_0.kprobes_config.events@ == seq![
                    spec_resolve(self.tracked_event, self.kprobes_db)->Some_0 as usize,
                ]
                &&& r->Ok_0.kprobes_config.classes == kr.spec_classes()
                &&& r->Ok_0.kprobes_config.reg_count == kr.spec_reg_count()
                &&& r->Ok_0.kprobes_config.counter_map@ == kr.spec_counter_map()
                &&& r->Ok_0.kprobes_config.kpc_registers@ == kr.spec_registers()
                &&& r->Ok_0.kprobes_config.state == ConfigState::Configured
                &&& !r->Ok_0.kprobes_config.counting
                &&& !r->Ok_0.kprobes_config.thread_counting
            },
    {
        let mut config = match KProbesConfig::from_database(&self.kprobes_db, kr.create_status) {
            Ok(c) => c,
            Err(_) => {
                return Err(
                    KperfError::PerfCounterBuildError(ConfigStep::CreateConfig, kr.create_status),
                );
            },
        };
        match config.add_event(&self.kprobes_db, self.tracked_event, kr.bind_status) {
            Ok(()) => {},
            Err(e) => {
                return Err(e);
            },
        }
        match config.force_counters(kr.force_status) {
            Ok(()) => {},
            Err(e) => {
                return Err(e);
            },
        }
        match config.fill_config_variables(kr.classes, kr.reg_count, kr.counter_map,
        kr.kpc_registers) {
            Ok(()) => {},
            Err(e) => {
                return Err(e);
            },
        }
        match config.acquire_counters(kr.acquire_status) {
            Ok(()) => {},
            Err(e) => {
                return Err(e);
            },
        }
        let programmed = if config.needs_register_write() {
            match kr.write_status {
                Some(code) => config.set_kpc_config(Some(code)),
                None => {
                    return Err(KperfError::StateViolation);
                },
            }
        } else {
            match kr.write_status {
                None => config.set_kpc_config(None),
                Some(_) => {
                    return Err(KperfError::StateViolation);
                },
            }
        };
        match programmed {
            Ok(()) => {},
            Err(e) => {
                return Err(e);
            },
        }
        let counter_idx = config.get_counter_index();
        let counter = PerfCounter {
            kprobes_config: config,
            kprobes_db: self.kprobes_db,
            counters_start: zero_register_values(),
            counters_end: zero_register_values(),
            counter_idx,
            started: false,
        };
        Ok(counter)
    }

    /// Creation, resolution, binding and forcing all went through.
    pub open spec fn statuses_through_force(self, kr: KernelBuildResponses) -> bool {
        kr.create_status == 0 && spec_resolve(self.tracked_event, self.kprobes_db) is Some
            && kr.bind_status == 0 && kr.force_status == 0
    }

    /// The fill step went through: queries answered, buffers
    /// hardware-sized, the single bound event mapped to a real slot.
    pub open spec fn filled(self, kr: KernelBuildResponses) -> bool {
        self.statuses_through_force(kr) && kr.fill_ok() && kr.buffers_sized()
            && kr.spec_counter_map()[0] < KPC_MAX_COUNTERS
    }

    /// Every step of the build goes through on these kernel answers.
    pub open spec fn build_succeeds(self, kr: KernelBuildResponses) -> bool {
        &&& self.filled(kr)
        &&& kr.acquire_status == 0
        &&& kr.write_consistent()
        &&& !(kr.spec_classes() & KPC_CLASS_CONFIGURABLE_MASK != 0 && kr.spec_reg_count() == 0)
        &&& (kr.spec_needs_write() ==> kr.write_status->Some_0 == 0)
    }
}

/// A start/stop/read measurement session over one programmed counter
/// configuration: it captures a per-thread counter snapshot at start,
/// another at each read, and reports the delta for the tracked event's
/// register index.
pub struct PerfCounter {
    /// The programmed configuration the session was built from.
    pub kprobes_config: KProbesConfig,
    /// The database the configuration was resolved against.
    pub kprobes_db: KProbesDatabase,
    /// Per-thread counter values captured at start (or at a reset).
    pub counters_start: Vec<u64>,
    /// Per-thread counter values captured at the latest read.
    pub counters_end: Vec<u64>,
    /// The physical register index this session reports.
    pub counter_idx: usize,
    /// Whether the session has captured its baseline.
    pub started: bool,
}

/// The unsigned 64-bit delta between two counter captures, as the
/// hardware's wrapping subtraction computes it. For a monotonically
/// increasing counter that has not wrapped, this is the exact count.
pub open spec fn spec_counter_delta(end: u64, start: u64) -> int {
    if end >= start {
        end - start
    } else {
        end - start + 0x1_0000_0000_0000_0000
    }
}

/// Law: idempotent read. Reading twice in succession without an
/// intervening start or reset, over a counter that only moved forward,
/// yields two non-negative deltas of which the second is never smaller;
/// their difference is exactly what the counter advanced between the two
/// reads.
pub proof fn lemma_read_deltas_monotonic(start: u64, end1: u64, end2: u64)
    requires
        start <= end1,
        end1 <= end2,
    ensures
        0 <= spec_counter_delta(end1, start),
        spec_counter_delta(end1, start) <= spec_counter_delta(end2, start),
        spec_counter_delta(end2, start) - spec_counter_delta(end1, start) == end2 - end1,
{
}

impl PerfCounter {
    /// Well-formedness: the configuration is sound, the snapshot buffers
    /// are hardware-sized, and the reported register index is a real
    /// slot.
    pub open spec fn wf(&self) -> bool {
        &&& self.kprobes_config.wf()
        &&& self.counters_start@.len() == KPC_MAX_COUNTERS
        &&& self.counters_end@.len() == KPC_MAX_COUNTERS
        &&& self.counter_idx < KPC_MAX_COUNTERS
    }

    /// Stores a fresh baseline snapshot; `snapshot` is the kernel's
    /// per-thread counter read, or its failing status.
    fn fill_start(&mut self, snapshot: Result<Vec<u64>, i32>) -> (r: Result<(), KperfError>)
        requires
            old(self).wf(),
            snapshot matches Ok(v) ==> v@.len() == KPC_MAX_COUNTERS,
        ensures
            final(self).wf(),
            snapshot matches Err(code) ==> r == Err::<(), KperfError>(
                KperfError::UnknownError(code),
            ) && *final(self) == *old(self),
            snapshot matches Ok(v) ==> r == Ok::<(), KperfError>(()) && final(self).counters_start@ == v@ && *final(self) == (PerfCounter {
                counters_start: final(self).counters_start,
                ..*old(self)
            }),
    {
        match snapshot {
            Ok(v) => {
                self.counters_start = v;
                Ok(())
            },
            Err(code) => Err(KperfError::UnknownError(code)),
        }
    }

    /// Stores a fresh end snapshot; `snapshot` is the kernel's
    /// per-thread counter read, or its failing status.
    fn fill_end(&mut self, snapshot: Result<Vec<u64>, i32>) -> (r: Result<(), KperfError>)
        requires
            old(self).wf(),
            snapshot matches Ok(v) ==> v@.len() == KPC_MAX_COUNTERS,
        ensures
            final(self).wf(),
            snapshot matches Err(code) ==> r == Err::<(), KperfError>(
                KperfError::UnknownError(code),
            ) && *final(self) == *old(self),
            snapshot matches Ok(v) ==> r == Ok::<(), KperfError>(()) && final(self).counters_end@
                == v@ && *final(self) == (PerfCounter {
                counters_end: final(self).counters_end,
                ..*old(self)
            }),
    {
        match snapshot {
            Ok(v) => {
                self.counters_end = v;
                Ok(())
            },
            Err(code) => Err(KperfError::UnknownError(code)),
        }
    }

    /// Enables counting system-wide and for the calling thread, then, if
    /// the session has no baseline yet, captures one. `counting_status`
    /// and `thread_status` are the kernel's statuses for the two enable
    /// calls; `snapshot` is its per-thread counter read. Starting an
    /// already started session re-enables counting but keeps the
    /// existing baseline.
    pub fn start(
        &mut self,
        counting_status: i32,
        thread_status: i32,
        snapshot: Result<Vec<u64>, i32>,
    ) -> (r: Result<(), KperfError>)
        requires
            old(self).wf(),
            snapshot matches Ok(v) ==> v@.len() == KPC_MAX_COUNTERS,
        ensures
            final(self).wf(),
            old(self).kprobes_config.state != ConfigState::Configured ==> r == Err::<
                (),
                KperfError,
            >(KperfError::StateViolation) && *final(self) == *old(self),
            old(self).kprobes_config.state == ConfigState::Configured && counting_status != 0 ==> r
                == Err::<(), KperfError>(
                KperfError::PerfCounterBuildError(ConfigStep::EnableCounting, counting_status),
            ) && *final(self) == *old(self),
            old(self).kprobes_config.state == ConfigState::Configured && counting_status == 0
                && thread_status != 0 ==> r == Err::<(), KperfError>(
                KperfError::PerfCounterBuildError(ConfigStep::EnableThreadCounting, thread_status),
            ) && *final(self) == (PerfCounter {
                kprobes_config: final(self).kprobes_config,
                ..*old(self)
            }) && final(self).kprobes_config == (KProbesConfig {
                counting: true,
                ..old(self).kprobes_config
            }),
            old(self).kprobes_config.state == ConfigState::Configured && counting_status == 0
                && thread_status == 0 && old(self).started ==> r == Ok::<(), KperfError>(())
                && *final(self) == (PerfCounter {
                kprobes_config: final(self).kprobes_config,
                ..*old(self)
            }) && final(self).kprobes_config == (KProbesConfig {
                counting: true,
                thread_counting: true,
                ..old(self).kprobes_config
            }),
            (old(self).kprobes_config.state == ConfigState::Configured && counting_status == 0
                && thread_status == 0 && !old(self).started && snapshot is Err) ==> r
                == Err::<(), KperfError>(KperfError::UnknownError(snapshot->Err_0)) && *final(self) == (
            PerfCounter { kprobes_config: final(self).kprobes_config, ..*old(self) }) && final(self).kprobes_config == (KProbesConfig {
                counting: true,
                thread_counting: true,
                ..old(self).kprobes_config
            }),
            (old(self).kprobes_config.state == ConfigState::Configured && counting_status == 0
                && thread_status == 0 && !old(self).started && snapshot is Ok) ==> r
                == Ok::<(), KperfError>(()) && final(self).counters_start@ == snapshot->Ok_0@ && final(self).started && *final(self) == (PerfCounter {
                kprobes_config: final(self).kprobes_config,
                counters_start: final(self).counters_start,
                started: true,
                ..*old(self)
            }) && final(self).kprobes_config == (KProbesConfig {
                counting: true,
                thread_counting: true,
                ..old(self).kprobes_config
            }),
    {
        match self.kprobes_config.start_kpc_counting(counting_status) {
            Ok(()) => {},
            Err(e) => {
                return Err(e);
            },
        }
        match self.kprobes_config.start_kpc_thread_counting(thread_status) {
            Ok(()) => {},
            Err(e) => {
                return Err(e);
            },
        }
        if !self.started {
            match self.fill_start(snapshot) {
                Ok(()) => {},
                Err(e) => {
                    return Err(e);
                },
            }
            self.started = true;
        }
        Ok(())
    }

    /// Disables counting for the calling thread; `status` is the
    /// kernel's status for the disable call. Only affects whether
    /// hardware keeps counting, never the session's captured values:
    /// the final snapshot is `read`'s job.
    pub fn stop(&mut self, status: i32) -> (r: Result<(), KperfError>)
        requires
            old(self).wf(),
        ensures
            final(self).wf(),
            old(self).kprobes_config.state != ConfigState::Configured ==> r == Err::<
                (),
                KperfError,
            >(KperfError::StateViolation) && *final(self) == *old(self),
            old(self).kprobes_config.state == ConfigState::Configured && status != 0 ==> r == Err::<
                (),
                KperfError,
            >(KperfError::PerfCounterBuildError(ConfigStep::DisableThreadCounting, status))
                && *final(self) == *old(self),
            old(self).kprobes_config.state == ConfigState::Configured && status == 0 ==> r == Ok::<
                (),
                KperfError,
            >(()) && *final(self) == (PerfCounter {
                kprobes_config: final(self).kprobes_config,
                ..*old(self)
            }) && final(self).kprobes_config == (KProbesConfig {
                thread_counting: false,
                ..old(self).kprobes_config
            }),
    {
        self.kprobes_config.stop_kpc_thread_counting(status)
    }

    /// Re-arms the session: captures a fresh baseline so a subsequent
    /// read measures from now forward, without altering the hardware
    /// programming. `snapshot` is the kernel's per-thread counter read.
    pub fn reset(&mut self, snapshot: Result<Vec<u64>, i32>) -> (r: Result<(), KperfError>)
        requires
            old(self).wf(),
            snapshot matches Ok(v) ==> v@.len() == KPC_MAX_COUNTERS,
        ensures
            final(self).wf(),
            snapshot matches Err(code) ==> r == Err::<(), KperfError>(
                KperfError::UnknownError(code),
            ) && *final(self) == *old(self),
            snapshot matches Ok(v) ==> r == Ok::<(), KperfError>(()) && final(self).counters_start@ == v@ && *final(self) == (PerfCounter {
                counters_start: final(self).counters_start,
                ..*old(self)
            }),
    {
        self.fill_start(snapshot)
    }

    /// Captures a fresh end snapshot and returns the delta for the
    /// tracked event's register index since the baseline. Valid once the
    /// session is started, and may be called repeatedly: each call
    /// re-captures the end snapshot and returns the live delta.
    /// `snapshot` is the kernel's per-thread counter read. Counters are
    /// monotonically increasing 64-bit accumulators; the delta is their
    /// wrapping difference, exact as long as the counter has not wrapped.
    pub fn read(&mut self, snapshot: Result<Vec<u64>, i32>) -> (r: Result<u64, KperfError>)
        requires
            old(self).wf(),
            snapshot matches Ok(v) ==> v@.len() == KPC_MAX_COUNTERS,
        ensures
            final(self).wf(),
            !old(self).started ==> r == Err::<u64, KperfError>(KperfError::StateViolation)
                && *final(self) == *old(self),
            (old(self).started && snapshot is Err) ==> r == Err::<u64, KperfError>(
                KperfError::UnknownError(snapshot->Err_0),
            ) && *final(self) == *old(self),
            (old(self).started && snapshot is Ok) ==> {
                &&& final(self).counters_end@ == snapshot->Ok_0@
                &&& *final(self) == (PerfCounter {
                    counters_end: final(self).counters_end,
                    ..*old(self)
                })
                &&& r is Ok
                &&& r->Ok_0 == spec_counter_delta(
                    snapshot->Ok_0@[old(self).counter_idx as int],
                    old(self).counters_start@[old(self).counter_idx as int],
                )
            },
    {
        if !self.started {
            return Err(KperfError::StateViolation);
        }
        match self.fill_end(snapshot) {
            Ok(()) => {},
            Err(e) => {
                return Err(e);
            },
        }
        let end = self.counters_end[self.counter_idx];
        let start = self.counters_start[self.counter_idx];
        if end >= start {
            Ok(end - start)
        } else {
            Ok(end + (u64::MAX - start) + 1)
        }
    }
}

} // verus!
