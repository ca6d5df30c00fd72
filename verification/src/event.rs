//! The abstract counter events and their candidate symbolic names.
//!
//! Each abstract event maps to a fixed, ordered list of vendor-specific
//! symbolic names; the order encodes fallback priority from the newest
//! hardware generation to the oldest. Resolution tries the candidates in
//! that order against the counter database and takes the first that the
//! database defines.

use vstd::prelude::*;
use crate::kperf::KProbesDatabase;
use crate::kperf::find_first;

verus! {

/// The closed set of abstract events a counter session can track.
#[derive(Copy, Clone, Debug, PartialEq, Eq, Structural)]
pub enum Event {
    Cycles,
    Instructions,
    Branches,
    BranchMisses,
}

impl Event {
    /// The event kind's display name.
    pub open spec fn spec_name(self) -> Seq<char> {
        match self {
            Event::Cycles => "Cycles"@,
            Event::Instructions => "Instructions"@,
            Event::Branches => "Branches"@,
            Event::BranchMisses => "BranchMisses"@,
        }
    }

    /// Returns the event kind's display name.
    pub fn name(&self) -> (s: &'static str)
        ensures
            s@ == self.spec_name(),
    {
        match self {
            Event::Cycles => "Cycles",
            Event::Instructions => "Instructions",
            Event::Branches => "Branches",
            Event::BranchMisses => "BranchMisses",
        }
    }
}

/// The candidate symbolic names of an event, in priority order.
pub open spec fn spec_event_names(event_type: Event) -> Seq<Seq<char>> {
    match event_type {
        Event::Cycles => seq![
            "FIXED_CYCLES"@,
            "CPU_CLK_UNHALTED.THREAD"@,
            "CPU_CLK_UNHALTED.CORE"@,
        ],
        Event::Instructions => seq!["FIXED_INSTRUCTIONS"@, "INST_RETIRED.ANY"@],
        Event::Branches => seq![
            "INST_BRANCH"@,
            "BR_INST_RETIRED.ALL_BRANCHES"@,
            "INST_RETIRED.ANY"@,
        ],
        Event::BranchMisses => seq![
            "BRANCH_MISPRED_NONSPEC"@,
            "BRANCH_MISPREDICT"@,
            "BR_MISP_RETIRED.ALL_BRANCHES"@,
            "BR_INST_RETIRED.MISPRED"@,
        ],
    }
}

/// Returns the candidate symbolic names of `event_type`, newest hardware
/// generation first. The list is never empty.
pub fn get_event_names(event_type: Event) -> (names: Vec<String>)
    ensures
        names@.map_values(|s: String| s@) == spec_event_names(event_type),
        names@.len() > 0,
{
    let names: Vec<String> = match event_type {
        Event::Cycles => vec![
            "FIXED_CYCLES".to_owned(),
            "CPU_CLK_UNHALTED.THREAD".to_owned(),
            "CPU_CLK_UNHALTED.CORE".to_owned(),
        ],
        Event::Instructions => vec![
            "FIXED_INSTRUCTIONS".to_owned(),
            "INST_RETIRED.ANY".to_owned(),
        ],
        Event::Branches => vec![
            "INST_BRANCH".to_owned(),
            "BR_INST_RETIRED.ALL_BRANCHES".to_owned(),
            "INST_RETIRED.ANY".to_owned(),
        ],
        Event::BranchMisses => vec![
            "BRANCH_MISPRED_NONSPEC".to_owned(),
            "BRANCH_MISPREDICT".to_owned(),
            "BR_MISP_RETIRED.ALL_BRANCHES".to_owned(),
            "BR_INST_RETIRED.MISPRED".to_owned(),
        ],
    };
    proof {
        assert(names@.map_values(|s: String| s@) =~= spec_event_names(event_type));
    }
    names
}

/// Resolution over a candidate list: the handle of the first database
/// entry matching the first candidate the database defines at all.
pub open spec fn resolve_names(cands: Seq<Seq<char>>, db_names: Seq<Seq<char>>) -> Option<int>
    decreases cands.len(),
{
    if cands.len() == 0 {
        None
    } else {
        match find_first(db_names, cands[0]) {
            Some(h) => Some(h),
            None => resolve_names(cands.drop_first(), db_names),
        }
    }
}

/// What resolving `event_type` against `db` yields: the handle of the
/// first database entry matching the highest-priority candidate name
/// that `db` defines, or nothing when no candidate is defined.
pub open spec fn spec_resolve(event_type: Event, db: KProbesDatabase) -> Option<int> {
    resolve_names(spec_event_names(event_type), db.spec_names())
}

/// Skipping candidates that the database does not define changes nothing
/// about what resolution yields.
pub proof fn lemma_resolve_names_skip(cands: Seq<Seq<char>>, db_names: Seq<Seq<char>>, k: int)
    requires
        0 <= k <= cands.len(),
        forall|j: int| 0 <= j < k ==> find_first(db_names, cands[j]) is None,
    ensures
        resolve_names(cands, db_names) == resolve_names(cands.skip(k), db_names),
    decreases k,
{
    if k == 0 {
        assert(cands.skip(0) =~= cands);
    } else {
        lemma_resolve_names_skip(cands, db_names, k - 1);
        let tail = cands.skip(k - 1);
        assert(tail.len() > 0);
        assert(tail[0] == cands[k - 1]);
        assert(tail.drop_first() =~= cands.skip(k));
    }
}

/// Law: resolution priority. When the database defines candidate `k` of
/// the event's name list and none of the higher-priority candidates
/// before it, resolution succeeds and returns the handle of candidate
/// `k`, never that of a later candidate.
pub proof fn lemma_resolution_priority(event_type: Event, db: KProbesDatabase, k: int)
    requires
        0 <= k < spec_event_names(event_type).len(),
        db.spec_defines(spec_event_names(event_type)[k]),
        forall|j: int| 0 <= j < k ==> !db.spec_defines(spec_event_names(event_type)[j]),
    ensures
        spec_resolve(event_type, db)
            == find_first(db.spec_names(), spec_event_names(event_type)[k]),
        spec_resolve(event_type, db) is Some,
{
    let cands = spec_event_names(event_type);
    lemma_resolve_names_skip(cands, db.spec_names(), k);
    let tail = cands.skip(k);
    assert(tail.len() > 0);
    assert(tail[0] == cands[k]);
}

/// Law: resolution failure. When the database defines none of the
/// event's candidate names, resolution reports the event as not found.
pub proof fn lemma_resolution_failure(event_type: Event, db: KProbesDatabase)
    requires
        forall|j: int| 0 <= j < spec_event_names(event_type).len()
            ==> !db.spec_defines(spec_event_names(event_type)[j]),
    ensures
        spec_resolve(event_type, db) is None,
{
    let cands = spec_event_names(event_type);
    lemma_resolve_names_skip(cands, db.spec_names(), cands.len() as int);
    assert(cands.skip(cands.len() as int).len() == 0);
}

/// Tries each candidate symbolic name of `event_type`, in priority
/// order, against the database's event lookup, and returns the first
/// successful resolution; returns nothing only when every candidate
/// name fails. No side effects on the database.
pub fn get_event(event_type: Event, db: &KProbesDatabase) -> (r: Option<usize>)
    ensures
        r matches Some(h) ==> spec_resolve(event_type, *db) == Some(h as int),
        r is None ==> spec_resolve(event_type, *db) is None,
{
    let names = get_event_names(event_type);
    let ghost cands = spec_event_names(event_type);
    let n = names.len();
    let mut k: usize = 0;
    while k < n
        invariant
            n == names.len(),
            names@.map_values(|s: String| s@) == cands,
            cands == spec_event_names(event_type),
            0 <= k <= n,
            forall|j: int| 0 <= j < k ==> find_first(db.spec_names(), cands[j]) is None,
        decreases n - k,
    {
        assert(names@[k as int]@ == cands[k as int]);
        match db.find_event(names[k].as_str()) {
            Some(h) => {
                proof {
                    lemma_resolve_names_skip(cands, db.spec_names(), k as int);
                    assert(cands.skip(k as int)[0] == cands[k as int]);
                }
                return Some(h);
            }
            None => {}
        }
        k += 1;
    }
    proof {
        lemma_resolve_names_skip(cands, db.spec_names(), n as int);
        assert(cands.skip(n as int).len() == 0);
    }
    None
}

} // verus!
