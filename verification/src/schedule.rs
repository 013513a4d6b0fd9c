//! The scheduler: validate credentials once, then cycle forever —
//! enumerate every namespace and its databases, launch one independent
//! export task per pair, and sleep for the configured period. This
//! module holds the scheduler's state machine and the planning of one
//! cycle's export units; the surrounding process runs the loop, spawns
//! the tasks and sleeps.

use vstd::prelude::*;

use crate::enumerate::CredentialStep;
use crate::export::export_key_chars;
use crate::export::lemma_export_key_injective_in_time;
use crate::timefmt::UtcTime;

verus! {

/// One unit of export work: a namespace and one of its databases,
/// discovered in the current cycle.
pub struct ExportUnit {
    pub namespace: String,
    pub database: String,
}

/// The scheduler's two states: validating credentials, then cycling
/// forever.
#[derive(Clone, Copy, PartialEq, Eq, Structural, Debug)]
pub enum SchedulerPhase {
    Starting,
    Cycling,
}

/// The scheduler's state machine.
pub struct Scheduler {
    pub phase: SchedulerPhase,
}

impl Scheduler {
    /// A scheduler begins by validating credentials.
    pub fn new() -> (s: Scheduler)
        ensures
            s.phase == SchedulerPhase::Starting,
    {
        Scheduler { phase: SchedulerPhase::Starting }
    }

    /// Advance on the credential validator's step: validated
    /// credentials start the cycling loop; a retry leaves the scheduler
    /// starting. (Exhausted retries abort the process and never reach
    /// this point.)
    pub fn on_credential_step(&mut self, step: &CredentialStep)
        requires
            old(self).phase == SchedulerPhase::Starting,
        ensures
            match *step {
                CredentialStep::Validated => final(self).phase == SchedulerPhase::Cycling,
                CredentialStep::Retry { .. } => final(self).phase == SchedulerPhase::Starting,
            },
    {
        match step {
            CredentialStep::Validated => {
                self.phase = SchedulerPhase::Cycling;
            },
            CredentialStep::Retry { .. } => {},
        }
    }
}

/// The export units of one namespace: one per database, in enumeration
/// order.
pub open spec fn row_units(ns: String, dbs: Seq<String>) -> Seq<ExportUnit> {
    Seq::new(dbs.len(), |j: int| ExportUnit { namespace: ns, database: dbs[j] })
}

/// The export units of the first `i` namespaces of a cycle, in
/// enumeration order.
pub open spec fn units_upto(nss: Seq<String>, dbss: Seq<Vec<String>>, i: int) -> Seq<ExportUnit>
    decreases i,
{
    if i <= 0 {
        Seq::empty()
    } else {
        units_upto(nss, dbss, i - 1) + row_units(nss[i - 1], dbss[i - 1]@)
    }
}

/// All export units of one cycle: for each namespace, one unit per
/// database enumerated within it.
pub open spec fn cycle_units_spec(nss: Seq<String>, dbss: Seq<Vec<String>>) -> Seq<ExportUnit> {
    units_upto(nss, dbss, nss.len() as int)
}

/// How many databases the first `i` namespaces hold together.
pub open spec fn count_upto(dbss: Seq<Vec<String>>, i: int) -> int
    decreases i,
{
    if i <= 0 {
        0
    } else {
        count_upto(dbss, i - 1) + dbss[i - 1]@.len()
    }
}

/// A cycle launches exactly one export unit per discovered
/// namespace-database pair.
pub proof fn lemma_units_upto_len(nss: Seq<String>, dbss: Seq<Vec<String>>, i: int)
    ensures
        units_upto(nss, dbss, i).len() == count_upto(dbss, i),
    decreases i,
{
    if i > 0 {
        lemma_units_upto_len(nss, dbss, i - 1);
    }
}

/// Plan one cycle: pair every enumerated namespace with each of its
/// databases, in enumeration order — namespaces first, then that
/// namespace's databases. `databases[i]` holds the databases enumerated
/// within `namespaces[i]`.
pub fn cycle_units(namespaces: &Vec<String>, databases: &Vec<Vec<String>>) -> (units: Vec<
    ExportUnit,
>)
    requires
        databases@.len() == namespaces@.len(),
    ensures
        units@ == cycle_units_spec(namespaces@, databases@),
        units@.len() == count_upto(databases@, namespaces@.len() as int),
{
    let mut units: Vec<ExportUnit> = Vec::new();
    let mut i: usize = 0;
    while i < namespaces.len()
        invariant
            i <= namespaces@.len(),
            databases@.len() == namespaces@.len(),
            units@ == units_upto(namespaces@, databases@, i as int),
        decreases namespaces@.len() - i,
    {
        let ns = &namespaces[i];
        let dbs = &databases[i];
        let mut j: usize = 0;
        while j < dbs.len()
            invariant
                i < namespaces@.len(),
                databases@.len() == namespaces@.len(),
                j <= dbs@.len(),
                dbs == &databases@[i as int],
                ns == &namespaces@[i as int],
                units@ =~= units_upto(namespaces@, databases@, i as int) + row_units(
                    namespaces@[i as int],
                    dbs@,
                ).take(j as int),
            decreases dbs@.len() - j,
        {
            units.push(ExportUnit { namespace: ns.clone(), database: dbs[j].clone() });
            j = j + 1;
            proof {
                assert(units@ =~= units_upto(namespaces@, databases@, i as int) + row_units(
                    namespaces@[i as int],
                    dbs@,
                ).take(j as int));
            }
        }
        i = i + 1;
        proof {
            assert(row_units(namespaces@[i - 1], dbs@).take(dbs@.len() as int) =~= row_units(
                namespaces@[i - 1],
                dbs@,
            ));
            assert(units@ == units_upto(namespaces@, databases@, i as int));
        }
    }
    proof {
        lemma_units_upto_len(namespaces@, databases@, namespaces@.len() as int);
    }
    units
}

/// Re-running a cycle never disturbs an earlier cycle's upload: for one
/// namespace and database, uploads made at two different times land on
/// two different keys, so storing the second leaves the first object,
/// and its content, in place. The store is modeled as a map from
/// destination key to object content.
pub proof fn lemma_second_cycle_preserves_prior_upload(
    store: Map<Seq<char>, Seq<u8>>,
    ns: Seq<char>,
    db: Seq<char>,
    t1: UtcTime,
    t2: UtcTime,
    c1: Seq<u8>,
    c2: Seq<u8>,
)
    requires
        t1.wf(),
        t2.wf(),
        t1 != t2,
    ensures
        ({
            let k1 = export_key_chars(ns, db, t1);
            let k2 = export_key_chars(ns, db, t2);
            let after_both = store.insert(k1, c1).insert(k2, c2);
            &&& after_both.contains_key(k1)
            &&& after_both[k1] == c1
            &&& after_both.contains_key(k2)
            &&& after_both[k2] == c2
        }),
{
    if export_key_chars(ns, db, t1) == export_key_chars(ns, db, t2) {
        lemma_export_key_injective_in_time(ns, db, t1, t2);
    }
}

} // verus!
