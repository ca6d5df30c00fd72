//! The counter database handle, the counter configuration state machine,
//! and tick scaling.
//!
//! The kernel counter service itself is outside the library: the harness
//! around it performs each kernel call and hands the numeric status code
//! and the query results to the functions here. Everything the library
//! decides — name lookup, sequencing, validation, bookkeeping — is
//! specified and proved for every value the kernel can report.

use vstd::prelude::*;
use crate::constants::KPC_MAX_COUNTERS;
use crate::constants::KPC_CLASS_CONFIGURABLE_MASK;
use crate::error::KpepError;
use crate::error::KperfError;
use crate::error::ConfigStep;
use crate::event::Event;
use crate::event::get_event;
use crate::event::spec_resolve;

verus! {

/// The index of the first entry of `names` equal to `name`, if any.
pub open spec fn find_first(names: Seq<Seq<char>>, name: Seq<char>) -> Option<int>
    decreases names.len(),
{
    if names.len() == 0 {
        None
    } else if names[0] == name {
        Some(0)
    } else {
        match find_first(names.drop_first(), name) {
            Some(i) => Some(i + 1),
            None => None,
        }
    }
}

/// `find_first` returns the first match: skipping a matchless prefix of
/// `i` entries shifts the result by `i` and loses nothing.
pub proof fn lemma_find_first_skip(names: Seq<Seq<char>>, name: Seq<char>, i: int)
    requires
        0 <= i <= names.len(),
        forall|j: int| 0 <= j < i ==> names[j] != name,
    ensures
        find_first(names, name) == match find_first(names.skip(i), name) {
            Some(h) => Some(h + i),
            None => None::<int>,
        },
    decreases i,
{
    if i == 0 {
        assert(names.skip(0) =~= names);
    } else {
        lemma_find_first_skip(names, name, i - 1);
        let tail = names.skip(i - 1);
        assert(tail.len() > 0);
        assert(tail[0] == names[i - 1]);
        assert(tail.drop_first() =~= names.skip(i));
    }
}

/// The loaded reference table for the running CPU: its name, its counter
/// layout, and the symbolic event names it defines. An event handle is an
/// index into `event_names`.
pub struct KProbesDatabase {
    /// Human-readable database name, when the catalog reports one.
    pub name: Option<String>,
    /// How many fixed (hardwired) counters the hardware has.
    pub fixed_counter_count: usize,
    /// How many configurable counters the hardware has.
    pub config_counter_count: usize,
    /// The symbolic event names the catalog defines.
    pub event_names: Vec<String>,
}

impl KProbesDatabase {
    /// The defined symbolic names, as character sequences.
    pub open spec fn spec_names(&self) -> Seq<Seq<char>> {
        self.event_names@.map_values(|s: String| s@)
    }

    /// Whether the database defines `name`.
    pub open spec fn spec_defines(&self, name: Seq<char>) -> bool {
        find_first(self.spec_names(), name) is Some
    }

    /// Builds the handle from the catalog attributes the library consumes.
    pub fn new(
        name: Option<String>,
        fixed_counter_count: usize,
        config_counter_count: usize,
        event_names: Vec<String>,
    ) -> (db: Self)
        ensures
            db.name == name,
            db.fixed_counter_count == fixed_counter_count,
            db.config_counter_count == config_counter_count,
            db.event_names == event_names,
    {
        Self { name, fixed_counter_count, config_counter_count, event_names }
    }

    /// Returns how many fixed counters the hardware has.
    pub fn get_fixed_counter_count(&self) -> (n: usize)
        ensures
            n == self.fixed_counter_count,
    {
        self.fixed_counter_count
    }

    /// Returns how many configurable counters the hardware has.
    pub fn get_configurable_counter_count(&self) -> (n: usize)
        ensures
            n == self.config_counter_count,
    {
        self.config_counter_count
    }

    /// Returns the database's human-readable name, when it has one.
    pub fn get_db_name(&self) -> (n: Option<String>)
        ensures
            n == self.name,
    {
        match &self.name {
            Some(s) => Some(s.clone()),
            None => None,
        }
    }

    /// Looks `name` up among the defined symbolic names and returns the
    /// handle of the first entry that matches.
    pub fn find_event(&self, name: &str) -> (r: Option<usize>)
        ensures
            r matches Some(h) ==> find_first(self.spec_names(), name@) == Some(h as int),
            r is None ==> find_first(self.spec_names(), name@) is None,
    {
        let key: String = name.to_owned();
        let n = self.event_names.len();
        let mut i: usize = 0;
        while i < n
            invariant
                n == self.event_names.len(),
                0 <= i <= n,
                key@ == name@,
                forall|j: int| 0 <= j < i ==> self.spec_names()[j] != name@,
            decreases n - i,
        {
            if self.event_names[i].eq(&key) {
                proof {
                    lemma_find_first_skip(self.spec_names(), name@, i as int);
                    assert(self.spec_names().skip(i as int)[0] == self.spec_names()[i as int]);
                    assert(find_first(self.spec_names().skip(i as int), name@) == Some(0int));
                }
                return Some(i);
            }
            assert(self.spec_names()[i as int] == self.event_names@[i as int]@);
            i += 1;
        }
        proof {
            lemma_find_first_skip(self.spec_names(), name@, n as int);
            assert(self.spec_names().skip(n as int).len() == 0);
        }
        None
    }
}

/// Where a configuration stands in its build sequence. The sequence is
/// strictly forward: there is no renegotiation once counters are
/// programmed, and re-running a step out of order is a state violation.
#[derive(Copy, Clone, Debug, PartialEq, Eq, Structural)]
pub enum ConfigState {
    /// Freshly created from the database; events may be added.
    Created,
    /// Exclusive counter use is forced; variables may be filled.
    Forced,
    /// Class mask, register count, counter map and register values are in.
    Filled,
    /// System-wide counter ownership is acquired.
    Acquired,
    /// Registers are programmed (or programming was rightly skipped).
    Configured,
}

/// A counter configuration under construction, and its bookkeeping once
/// the kernel service has assigned registers.
pub struct KProbesConfig {
    /// Handles of the events bound so far, in insertion order; the order
    /// determines register index assignment.
    pub events: Vec<usize>,
    /// Bitmask of the counter classes in use; meaningful once filled.
    pub classes: u32,
    /// How many configurable registers are required; meaningful once filled.
    pub reg_count: usize,
    /// Maps each bound event's logical index to the physical register the
    /// kernel assigned it; entries beyond `events.len()` are unspecified.
    pub counter_map: Vec<usize>,
    /// Raw per-register configuration words, parallel to `counter_map`.
    pub kpc_registers: Vec<u64>,
    /// Where the configuration stands in the build sequence.
    pub state: ConfigState,
    /// Whether system-wide counting is enabled for `classes`.
    pub counting: bool,
    /// Whether counting is enabled for the calling thread.
    pub thread_counting: bool,
}

impl KProbesConfig {
    /// What a successful fill guarantees: at least one event was bound
    /// before filling, at most a hardware's worth, and every bound event
    /// is mapped to a real slot.
    pub open spec fn filled_ok(&self) -> bool {
        &&& 0 < self.events@.len() <= KPC_MAX_COUNTERS
        &&& (forall|i: int| 0 <= i < self.events@.len() ==> self.counter_map@[i] < KPC_MAX_COUNTERS)
    }

    /// Well-formedness: buffers are hardware-sized, the fill guarantees
    /// hold from the moment the configuration is filled, and counting is
    /// only ever enabled on a fully programmed configuration.
    pub open spec fn wf(&self) -> bool {
        &&& self.counter_map@.len() == KPC_MAX_COUNTERS
        &&& self.kpc_registers@.len() == KPC_MAX_COUNTERS
        &&& (self.state != ConfigState::Created && self.state != ConfigState::Forced
            ==> self.filled_ok())
        &&& ((self.counting || self.thread_counting) ==> self.state == ConfigState::Configured)
    }

    /// Whether programming must write register values: the class mask
    /// has the configurable bit and registers are in use.
    pub open spec fn spec_needs_register_write(&self) -> bool {
        self.classes & KPC_CLASS_CONFIGURABLE_MASK != 0 && self.reg_count != 0
    }

    /// Returns whether programming this configuration must write register
    /// values to hardware; when it returns false, programming skips the
    /// write.
    pub fn needs_register_write(&self) -> (b: bool)
        ensures
            b == self.spec_needs_register_write(),
    {
        register_write_needed(self.classes, self.reg_count)
    }

    /// Requests a fresh configuration bound to `database`; `create_status`
    /// is the kernel service's status for the creation call. A fresh
    /// configuration has no events, an empty class mask and zeroed
    /// register bookkeeping.
    pub fn from_database(database: &KProbesDatabase, create_status: i32) -> (r: Result<
        Self,
        KpepError,
    >)
        ensures
            create_status == 0 <==> r is Ok,
            r is Err ==> r == Err::<Self, KpepError>(KpepError::UnknownError),
            r matches Ok(c) ==> {
                &&& c.wf()
                &&& c.state == ConfigState::Created
                &&& c.events@.len() == 0
                &&& c.classes == 0
                &&& c.reg_count == 0
                &&& c.counter_map@ == Seq::new(KPC_MAX_COUNTERS as nat, |i: int| 0usize)
                &&& c.kpc_registers@ == Seq::new(KPC_MAX_COUNTERS as nat, |i: int| 0u64)
                &&& !c.counting
                &&& !c.thread_counting
            },
    {
        if create_status != 0 {
            return Err(KpepError::UnknownError);
        }
        let config = Self {
            events: Vec::new(),
            classes: 0,
            reg_count: 0,
            counter_map: zero_counter_map(),
            kpc_registers: zero_register_values(),
            state: ConfigState::Created,
            counting: false,
            thread_counting: false,
        };
        Ok(config)
    }

    /// Resolves `event_type` against `db` and binds it into the
    /// configuration; `bind_status` is the kernel service's status for
    /// binding the resolved event. Fails when the event resolves to no
    /// defined name, when the kernel rejects the binding, or when events
    /// are added after the configuration left its building state.
    pub fn add_event(&mut self, db: &KProbesDatabase, event_type: Event, bind_status: i32) -> (r:
        Result<(), KperfError>)
        requires
            old(self).wf(),
        ensures
            final(self).wf(),
            old(self).state != ConfigState::Created ==> r == Err::<(), KperfError>(
                KperfError::StateViolation,
            ) && *final(self) == *old(self),
            old(self).state == ConfigState::Created && spec_resolve(event_type, *db) is None ==> r
                == Err::<(), KperfError>(KperfError::EventNotFound(event_type)) && *final(self)
                == *old(self),
            old(self).state == ConfigState::Created && spec_resolve(event_type, *db) is Some
                && bind_status != 0 ==> r == Err::<(), KperfError>(
                KperfError::PerfCounterBuildError(ConfigStep::BindEvent, bind_status),
            ) && *final(self) == *old(self),
            (old(self).state == ConfigState::Created && bind_status == 0 && spec_resolve(
                event_type,
                *db,
            ) is Some) ==> {
                &&& r == Ok::<(), KperfError>(())
                &&& final(self).events@ == old(self).events@.push(
                    spec_resolve(event_type, *db)->Some_0 as usize,
                )
                &&& *final(self) == (KProbesConfig { events: final(self).events, ..*old(self) })
            },
    {
        if !(self.state == ConfigState::Created) {
            return Err(KperfError::StateViolation);
        }
        match get_event(event_type, db) {
            None => Err(KperfError::EventNotFound(event_type)),
            Some(handle) => {
                if bind_status != 0 {
                    Err(KperfError::PerfCounterBuildError(ConfigStep::BindEvent, bind_status))
                } else {
                    self.events.push(handle);
                    Ok(())
                }
            },
        }
    }

    /// Requests exclusive use of all hardware counters; `status` is the
    /// kernel service's status for the request. Must succeed after the
    /// events are added and before the variables are filled.
    pub fn force_counters(&mut self, status: i32) -> (r: Result<(), KperfError>)
        requires
            old(self).wf(),
        ensures
            final(self).wf(),
            old(self).state != ConfigState::Created ==> r == Err::<(), KperfError>(
                KperfError::StateViolation,
            ) && *final(self) == *old(self),
            old(self).state == ConfigState::Created && status != 0 ==> r == Err::<(), KperfError>(
                KperfError::PerfCounterBuildError(ConfigStep::ForceCounters, status),
            ) && *final(self) == *old(self),
            old(self).state == ConfigState::Created && status == 0 ==> r == Ok::<(), KperfError>(())
                && *final(self) == (KProbesConfig { state: ConfigState::Forced, ..*old(self) }),
    {
        if !(self.state == ConfigState::Created) {
            return Err(KperfError::StateViolation);
        }
        if status != 0 {
            return Err(KperfError::PerfCounterBuildError(ConfigStep::ForceCounters, status));
        }
        self.state = ConfigState::Forced;
        Ok(())
    }

    /// What filling the configuration variables returns, given the
    /// kernel service's four query results: a fast state error when the
    /// call is out of sequence or no event was bound, then the first
    /// query failure in order, then a consistency error when the
    /// reported data contradicts the configuration, or success.
    pub open spec fn spec_fill_result(
        self,
        classes: Result<u32, i32>,
        reg_count: Result<usize, i32>,
        counter_map: Result<Vec<usize>, i32>,
        kpc_registers: Result<Vec<u64>, i32>,
    ) -> Result<(), KperfError> {
        if self.state != ConfigState::Forced {
            Err(KperfError::StateViolation)
        } else if self.events@.len() == 0 {
            Err(KperfError::StateViolation)
        } else if classes is Err {
            Err(KperfError::PerfCounterBuildError(ConfigStep::QueryClasses, classes->Err_0))
        } else if reg_count is Err {
            Err(KperfError::PerfCounterBuildError(ConfigStep::QueryRegisterCount, reg_count->Err_0))
        } else if counter_map is Err {
            Err(KperfError::PerfCounterBuildError(ConfigStep::QueryCounterMap, counter_map->Err_0))
        } else if kpc_registers is Err {
            Err(
                KperfError::PerfCounterBuildError(
                    ConfigStep::QueryRegisterValues,
                    kpc_registers->Err_0,
                ),
            )
        } else if counter_map->Ok_0@.len() != KPC_MAX_COUNTERS || kpc_registers->Ok_0@.len()
            != KPC_MAX_COUNTERS {
            Err(KperfError::InconsistentConfig)
        } else if self.events@.len() > KPC_MAX_COUNTERS {
            Err(KperfError::InconsistentConfig)
        } else if exists|i: int|
            0 <= i < self.events@.len() && counter_map->Ok_0@[i] >= KPC_MAX_COUNTERS {
            Err(KperfError::InconsistentConfig)
        } else {
            Ok(())
        }
    }

    /// Queries, in sequence, the class mask, the register count, the
    /// counter map and the register values; the four arguments are the
    /// kernel service's four query results, and the first failure aborts
    /// the whole call and reports which sub-query failed. Kernel data
    /// that contradicts the configuration — wrongly sized buffers, more
    /// events than slots, or a bound event mapped past the last hardware
    /// slot — is rejected as inconsistent. Must be called exactly once,
    /// after the events are added and counters are forced, and before
    /// programming; a fill out of that sequence, or before any event is
    /// bound, fails fast with a state error and changes nothing (in
    /// particular the register count stays zero).
    pub fn fill_config_variables(
        &mut self,
        classes: Result<u32, i32>,
        reg_count: Result<usize, i32>,
        counter_map: Result<Vec<usize>, i32>,
        kpc_registers: Result<Vec<u64>, i32>,
    ) -> (r: Result<(), KperfError>)
        requires
            old(self).wf(),
        ensures
            final(self).wf(),
            r == old(self).spec_fill_result(classes, reg_count, counter_map, kpc_registers),
            r is Err ==> *final(self) == *old(self),
            r is Ok ==> {
                &&& final(self).classes == classes->Ok_0
                &&& final(self).reg_count == reg_count->Ok_0
                &&& final(self).counter_map@ == counter_map->Ok_0@
                &&& final(self).kpc_registers@ == kpc_registers->Ok_0@
                &&& final(self).state == ConfigState::Filled
                &&& final(self).events@ == old(self).events@
                &&& final(self).counting == old(self).counting
                &&& final(self).thread_counting == old(self).thread_counting
            },
            // Filling with no events bound is rejected as a state error,
            // so the register count it would have set stays untouched.
            old(self).state == ConfigState::Forced && old(self).events@.len() == 0 ==> r
                == Err::<(), KperfError>(KperfError::StateViolation) && final(self).reg_count
                == old(self).reg_count,
            // After a successful fill every bound event is mapped to a
            // real hardware slot.
            r is Ok ==> forall|i: int|
                0 <= i < final(self).events@.len() ==> final(self).counter_map@[i]
                    < KPC_MAX_COUNTERS,
    {
        if !(self.state == ConfigState::Forced) {
            return Err(KperfError::StateViolation);
        }
        if self.events.len() == 0 {
            return Err(KperfError::StateViolation);
        }
        let classes_v: u32 = match classes {
            Ok(v) => v,
            Err(code) => {
                return Err(KperfError::PerfCounterBuildError(ConfigStep::QueryClasses, code));
            },
        };
        let reg_count_v: usize = match reg_count {
            Ok(v) => v,
            Err(code) => {
                return Err(
                    KperfError::PerfCounterBuildError(ConfigStep::QueryRegisterCount, code),
                );
            },
        };
        let counter_map_v: Vec<usize> = match counter_map {
            Ok(v) => v,
            Err(code) => {
                return Err(KperfError::PerfCounterBuildError(ConfigStep::QueryCounterMap, code));
            },
        };
        let kpc_registers_v: Vec<u64> = match kpc_registers {
            Ok(v) => v,
            Err(code) => {
                return Err(
                    KperfError::PerfCounterBuildError(ConfigStep::QueryRegisterValues, code),
                );
            },
        };
        if counter_map_v.len() != KPC_MAX_COUNTERS || kpc_registers_v.len() != KPC_MAX_COUNTERS {
            return Err(KperfError::InconsistentConfig);
        }
        let n_events = self.events.len();
        if n_events > KPC_MAX_COUNTERS {
            return Err(KperfError::InconsistentConfig);
        }
        let mut i: usize = 0;
        while i < n_events
            invariant
                *self == *old(self),
                old(self).wf(),
                self.state == ConfigState::Forced,
                n_events == self.events@.len(),
                1 <= n_events <= KPC_MAX_COUNTERS,
                0 <= i <= n_events,
                classes == Ok::<u32, i32>(classes_v),
                reg_count == Ok::<usize, i32>(reg_count_v),
                counter_map is Ok,
                counter_map->Ok_0@ == counter_map_v@,
                kpc_registers is Ok,
                kpc_registers->Ok_0@ == kpc_registers_v@,
                counter_map_v@.len() == KPC_MAX_COUNTERS,
                kpc_registers_v@.len() == KPC_MAX_COUNTERS,
                forall|j: int| 0 <= j < i ==> counter_map_v@[j] < KPC_MAX_COUNTERS,
            decreases n_events - i,
        {
            if counter_map_v[i] >= KPC_MAX_COUNTERS {
                proof {
                    assert(exists|j: int|
                        0 <= j < self.events@.len() && counter_map_v@[j] >= KPC_MAX_COUNTERS) by {
                        assert(0 <= (i as int) && (i as int) < self.events@.len()
                            && counter_map_v@[i as int] >= KPC_MAX_COUNTERS);
                    }
                }
                return Err(KperfError::InconsistentConfig);
            }
            i += 1;
        }
        self.classes = classes_v;
        self.reg_count = reg_count_v;
        self.counter_map = counter_map_v;
        self.kpc_registers = kpc_registers_v;
        self.state = ConfigState::Filled;
        Ok(())
    }

    /// Acquires system-wide counter ownership so that the register
    /// values can be written; `status` is the kernel service's status
    /// for the acquisition.
    pub fn acquire_counters(&mut self, status: i32) -> (r: Result<(), KperfError>)
        requires
            old(self).wf(),
        ensures
            final(self).wf(),
            old(self).state != ConfigState::Filled ==> r == Err::<(), KperfError>(
                KperfError::StateViolation,
            ) && *final(self) == *old(self),
            old(self).state == ConfigState::Filled && status != 0 ==> r == Err::<(), KperfError>(
                KperfError::PerfCounterBuildError(ConfigStep::AcquireCounters, status),
            ) && *final(self) == *old(self),
            old(self).state == ConfigState::Filled && status == 0 ==> r == Ok::<(), KperfError>(())
                && *final(self) == (KProbesConfig { state: ConfigState::Acquired, ..*old(self) }),
    {
        if !(self.state == ConfigState::Filled) {
            return Err(KperfError::StateViolation);
        }
        if status != 0 {
            return Err(KperfError::PerfCounterBuildError(ConfigStep::AcquireCounters, status));
        }
        self.state = ConfigState::Acquired;
        Ok(())
    }

    /// Programs the register values, or rightly skips the write.
    ///
    /// `write_status` is the kernel service's status for the register
    /// write when one is required — the caller asks
    /// [`Self::needs_register_write`] first, performs the write exactly
    /// when it says so, and passes the status back — and `None` when the
    /// class mask has no configurable bit or no registers are in use.
    /// When the class mask has no configurable bit the write is skipped
    /// and the call succeeds: configurable registers are simply not
    /// involved. A configurable class mask with a zero register count is
    /// a kernel or database inconsistency and fails.
    pub fn set_kpc_config(&mut self, write_status: Option<i32>) -> (r: Result<(), KperfError>)
        requires
            old(self).wf(),
            write_status is Some <==> (old(self).state == ConfigState::Acquired
                && old(self).spec_needs_register_write()),
        ensures
            final(self).wf(),
            old(self).state != ConfigState::Acquired ==> r == Err::<(), KperfError>(
                KperfError::StateViolation,
            ) && *final(self) == *old(self),
            old(self).state == ConfigState::Acquired && old(self).classes
                & KPC_CLASS_CONFIGURABLE_MASK == 0 ==> r == Ok::<(), KperfError>(()) && *final(self)
                == (KProbesConfig { state: ConfigState::Configured, ..*old(self) }),
            old(self).state == ConfigState::Acquired && old(self).classes
                & KPC_CLASS_CONFIGURABLE_MASK != 0 && old(self).reg_count == 0 ==> r == Err::<
                (),
                KperfError,
            >(KperfError::InconsistentConfig) && *final(self) == *old(self),
            old(self).state == ConfigState::Acquired && old(self).spec_needs_register_write()
                && write_status->Some_0 != 0 ==> r == Err::<(), KperfError>(
                KperfError::PerfCounterBuildError(ConfigStep::WriteRegisters, write_status->Some_0),
            ) && *final(self) == *old(self),
            old(self).state == ConfigState::Acquired && old(self).spec_needs_register_write()
                && write_status->Some_0 == 0 ==> r == Ok::<(), KperfError>(()) && *final(self) == (
            KProbesConfig { state: ConfigState::Configured, ..*old(self) }),
    {
        if !(self.state == ConfigState::Acquired) {
            return Err(KperfError::StateViolation);
        }
        if (self.classes & KPC_CLASS_CONFIGURABLE_MASK) != 0 && self.reg_count != 0 {
            match write_status {
                Some(code) => {
                    if code != 0 {
                        return Err(
                            KperfError::PerfCounterBuildError(ConfigStep::WriteRegisters, code),
                        );
                    }
                    self.state = ConfigState::Configured;
                    Ok(())
                },
                None => Err(KperfError::StateViolation),  // unreachable under the precondition
            }
        } else if (self.classes & KPC_CLASS_CONFIGURABLE_MASK) == 0 {
            self.state = ConfigState::Configured;
            Ok(())
        } else {
            Err(KperfError::InconsistentConfig)
        }
    }

    /// Enables system-wide counting for the configured class mask;
    /// `status` is the kernel service's status for the request. Valid
    /// only on a fully programmed configuration.
    pub fn start_kpc_counting(&mut self, status: i32) -> (r: Result<(), KperfError>)
        requires
            old(self).wf(),
        ensures
            final(self).wf(),
            old(self).state != ConfigState::Configured ==> r == Err::<(), KperfError>(
                KperfError::StateViolation,
            ) && *final(self) == *old(self),
            old(self).state == ConfigState::Configured && status != 0 ==> r == Err::<(),
                KperfError,
            >(KperfError::PerfCounterBuildError(ConfigStep::EnableCounting, status)) && *final(self)
                == *old(self),
            old(self).state == ConfigState::Configured && status == 0 ==> r == Ok::<(),
                KperfError,
            >(()) && *final(self) == (KProbesConfig { counting: true, ..*old(self) }),
    {
        if !(self.state == ConfigState::Configured) {
            return Err(KperfError::StateViolation);
        }
        if status != 0 {
            return Err(KperfError::PerfCounterBuildError(ConfigStep::EnableCounting, status));
        }
        self.counting = true;
        Ok(())
    }

    /// Enables counting for the calling thread; `status` is the kernel
    /// service's status for the request. Per-thread counting scopes the
    /// attribution of counts to the calling thread, not the register
    /// programming, which stays global.
    pub fn start_kpc_thread_counting(&mut self, status: i32) -> (r: Result<(), KperfError>)
        requires
            old(self).wf(),
        ensures
            final(self).wf(),
            old(self).state != ConfigState::Configured ==> r == Err::<(), KperfError>(
                KperfError::StateViolation,
            ) && *final(self) == *old(self),
            old(self).state == ConfigState::Configured && status != 0 ==> r == Err::<(),
                KperfError,
            >(KperfError::PerfCounterBuildError(ConfigStep::EnableThreadCounting, status))
                && *final(self) == *old(self),
            old(self).state == ConfigState::Configured && status == 0 ==> r == Ok::<(),
                KperfError,
            >(()) && *final(self) == (KProbesConfig { thread_counting: true, ..*old(self) }),
    {
        if !(self.state == ConfigState::Configured) {
            return Err(KperfError::StateViolation);
        }
        if status != 0 {
            return Err(
                KperfError::PerfCounterBuildError(ConfigStep::EnableThreadCounting, status),
            );
        }
        self.thread_counting = true;
        Ok(())
    }

    /// Disables counting for the calling thread; `status` is the kernel
    /// service's status for the request. Only affects whether hardware
    /// keeps counting for this thread, never the session's captured
    /// values.
    pub fn stop_kpc_thread_counting(&mut self, status: i32) -> (r: Result<(), KperfError>)
        requires
            old(self).wf(),
        ensures
            final(self).wf(),
            old(self).state != ConfigState::Configured ==> r == Err::<(), KperfError>(
                KperfError::StateViolation,
            ) && *final(self) == *old(self),
            old(self).state == ConfigState::Configured && status != 0 ==> r == Err::<(),
                KperfError,
            >(KperfError::PerfCounterBuildError(ConfigStep::DisableThreadCounting, status))
                && *final(self) == *old(self),
            old(self).state == ConfigState::Configured && status == 0 ==> r == Ok::<(),
                KperfError,
            >(()) && *final(self) == (KProbesConfig { thread_counting: false, ..*old(self) }),
    {
        if !(self.state == ConfigState::Configured) {
            return Err(KperfError::StateViolation);
        }
        if status != 0 {
            return Err(
                KperfError::PerfCounterBuildError(ConfigStep::DisableThreadCounting, status),
            );
        }
        self.thread_counting = false;
        Ok(())
    }

    /// Returns the physical register index the kernel assigned to the
    /// first bound event. Only the first bound event's index is exposed;
    /// callers that track several events must read `counter_map`
    /// directly. Meaningful only once the variables are filled.
    pub fn get_counter_index(&self) -> (idx: usize)
        requires
            self.wf(),
            self.state != ConfigState::Created && self.state != ConfigState::Forced,
        ensures
            idx == self.counter_map@[0],
            idx < KPC_MAX_COUNTERS,
    {
        self.counter_map[0]
    }
}

/// Whether a class mask and register count demand a register write:
/// the mask has the configurable bit and registers are in use. A caller
/// about to program a configuration decides by this exactly when to
/// perform the write.
pub fn register_write_needed(classes: u32, reg_count: usize) -> (b: bool)
    ensures
        b == (classes & KPC_CLASS_CONFIGURABLE_MASK != 0 && reg_count != 0),
{
    (classes & KPC_CLASS_CONFIGURABLE_MASK) != 0 && reg_count != 0
}

/// Empirical calibration factor: the platform's own tick-to-nanosecond
/// conversion is coarser than a nanosecond by this factor on the
/// reference hardware. The factor is hardware-generation-specific and
/// must be revalidated, not assumed portable.
pub const TICKS_TO_NANOSECONDS_SCALE: u64 = 100;

/// Scales a platform-converted value down by an explicit calibration
/// factor; [`ticks_to_nanoseconds`] applies the reference hardware's
/// factor.
pub fn ticks_to_nanoseconds_with(platform_ns: u64, factor: u64) -> (ns: u64)
    requires
        factor > 0,
    ensures
        ns == platform_ns / factor,
{
    platform_ns / factor
}

/// Scales a nanosecond value up by an explicit calibration factor;
/// [`nanaseconds_to_ticks`] applies the reference hardware's factor.
pub fn nanaseconds_to_ticks_with(nanoseconds: u64, factor: u64) -> (scaled: u64)
    requires
        factor > 0,
        nanoseconds * factor <= u64::MAX,
    ensures
        scaled == nanoseconds * factor,
{
    nanoseconds * factor
}

/// Scales the platform's tick-to-nanosecond conversion down by the
/// calibration factor. `platform_ns` is what the platform's own
/// conversion reported for the tick count being converted; the result is
/// the corrected nanosecond value.
pub fn ticks_to_nanoseconds(platform_ns: u64) -> (ns: u64)
    ensures
        ns == platform_ns / TICKS_TO_NANOSECONDS_SCALE,
{
    ticks_to_nanoseconds_with(platform_ns, TICKS_TO_NANOSECONDS_SCALE)
}

/// Scales a nanosecond value up by the calibration factor, yielding the
/// value to hand to the platform's own nanosecond-to-tick conversion.
/// The exact inverse of the correction in [`ticks_to_nanoseconds`],
/// applying the same factor symmetrically.
pub fn nanaseconds_to_ticks(nanoseconds: u64) -> (scaled: u64)
    requires
        nanoseconds * TICKS_TO_NANOSECONDS_SCALE <= u64::MAX,
    ensures
        scaled == nanoseconds * TICKS_TO_NANOSECONDS_SCALE,
{
    nanaseconds_to_ticks_with(nanoseconds, TICKS_TO_NANOSECONDS_SCALE)
}

/// Law: round-trip time conversion. Scaling a platform-converted value
/// down and back up by the same calibration factor recovers it within
/// that factor — the factor is applied symmetrically, so with the
/// platform's two conversions being mutual inverses, a tick count
/// survives the round trip up to that rounding.
pub proof fn lemma_tick_scaling_round_trip(platform_ns: u64, factor: u64)
    requires
        factor > 0,
    ensures
        (platform_ns / factor) * factor <= platform_ns,
        platform_ns - (platform_ns / factor) * factor < factor,
{
    vstd::arithmetic::div_mod::lemma_fundamental_div_mod(platform_ns as int, factor as int);
    vstd::arithmetic::div_mod::lemma_mod_bound(platform_ns as int, factor as int);
    vstd::arithmetic::mul::lemma_mul_is_commutative(
        factor as int,
        platform_ns as int / factor as int,
    );
}

/// A hardware-sized counter map with every slot zeroed.
fn zero_counter_map() -> (v: Vec<usize>)
    ensures
        v@ == Seq::new(KPC_MAX_COUNTERS as nat, |i: int| 0usize),
{
    let mut v: Vec<usize> = Vec::new();
    let mut i: usize = 0;
    while i < KPC_MAX_COUNTERS
        invariant
            0 <= i <= KPC_MAX_COUNTERS,
            v@ =~= Seq::new(i as nat, |j: int| 0usize),
        decreases KPC_MAX_COUNTERS - i,
    {
        v.push(0);
        i += 1;
    }
    proof {
        assert(v@ =~= Seq::new(KPC_MAX_COUNTERS as nat, |i: int| 0usize));
    }
    v
}

/// A hardware-sized register value buffer with every slot zeroed.
pub(crate) fn zero_register_values() -> (v: Vec<u64>)
    ensures
        v@ == Seq::new(KPC_MAX_COUNTERS as nat, |i: int| 0u64),
{
    let mut v: Vec<u64> = Vec::new();
    let mut i: usize = 0;
    while i < KPC_MAX_COUNTERS
        invariant
            0 <= i <= KPC_MAX_COUNTERS,
            v@ =~= Seq::new(i as nat, |j: int| 0u64),
        decreases KPC_MAX_COUNTERS - i,
    {
        v.push(0);
        i += 1;
    }
    proof {
        assert(v@ =~= Seq::new(KPC_MAX_COUNTERS as nat, |i: int| 0u64));
    }
    v
}

} // verus!
