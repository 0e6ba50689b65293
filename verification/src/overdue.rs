//! The overdue table and its transition rules: detection of over-idle
//! people, activity reset, one-shot escalation, and roster pruning.

use vstd::prelude::*;
use vstd::hash_map::StringHashMap;
use crate::elapsed_secs;

verus! {

/// Per-person overdue state: the idle duration observed at detection, the
/// detection time, and whether the public escalation already fired.
#[derive(Clone, Copy, PartialEq, Eq, Structural, Debug)]
pub struct OverdueRecord {
    pub baseline_idle_secs: u64,
    pub detected_at: u64,
    pub escalated: bool,
}

/// The names of a roster snapshot, as character sequences.
pub open spec fn names_of(roster: Seq<String>) -> Seq<Seq<char>> {
    roster.map_values(|s: String| s@)
}

/// The overdue table restricted to the people named in `roster`.
pub open spec fn pruned(t: Map<Seq<char>, OverdueRecord>, roster: Seq<Seq<char>>) -> Map<
    Seq<char>,
    OverdueRecord,
> {
    Map::new(|k: Seq<char>| t.contains_key(k) && roster.contains(k), |k: Seq<char>| t[k])
}

/// A sample detects a fresh overdue episode: nobody tracked yet and the
/// idle duration exceeds the threshold.
pub open spec fn detects(
    t: Map<Seq<char>, OverdueRecord>,
    threshold: u64,
    k: Seq<char>,
    idle: u64,
) -> bool {
    !t.contains_key(k) && idle > threshold
}

/// A sample proves intervening activity: the idle duration fell back to or
/// below the baseline frozen at detection.
pub open spec fn clears(t: Map<Seq<char>, OverdueRecord>, k: Seq<char>, idle: u64) -> bool {
    t.contains_key(k) && idle <= t[k].baseline_idle_secs
}

/// A sample escalates: still idle past the baseline, the reply deadline has
/// elapsed since detection, and no escalation fired yet.
pub open spec fn escalates(
    t: Map<Seq<char>, OverdueRecord>,
    deadline: u64,
    k: Seq<char>,
    idle: u64,
    now: u64,
) -> bool {
    &&& t.contains_key(k)
    &&& idle > t[k].baseline_idle_secs
    &&& elapsed_secs(now, t[k].detected_at) > deadline
    &&& !t[k].escalated
}

/// The overdue table after one idle-time sample `(k, idle)` observed at
/// `now`, under the given threshold and deadline.
pub open spec fn table_after_sample(
    t: Map<Seq<char>, OverdueRecord>,
    threshold: u64,
    deadline: u64,
    k: Seq<char>,
    idle: u64,
    now: u64,
) -> Map<Seq<char>, OverdueRecord> {
    if detects(t, threshold, k, idle) {
        t.insert(k, OverdueRecord { baseline_idle_secs: idle, detected_at: now, escalated: false })
    } else if clears(t, k, idle) {
        t.remove(k)
    } else if escalates(t, deadline, k, idle, now) {
        t.insert(
            k,
            OverdueRecord {
                baseline_idle_secs: t[k].baseline_idle_secs,
                detected_at: t[k].detected_at,
                escalated: true,
            },
        )
    } else {
        t
    }
}

/// Law: `escalated` never falls back from `true` while the record survives a
/// sample; it resets only through deletion of the record.
pub proof fn lemma_escalated_is_sticky(
    t: Map<Seq<char>, OverdueRecord>,
    threshold: u64,
    deadline: u64,
    k: Seq<char>,
    idle: u64,
    now: u64,
    person: Seq<char>,
)
    requires
        t.contains_key(person),
        t[person].escalated,
        table_after_sample(t, threshold, deadline, k, idle, now).contains_key(person),
    ensures
        table_after_sample(t, threshold, deadline, k, idle, now)[person].escalated,
{
}

/// Law: a sample for a tracked person deletes the record exactly when the
/// idle duration is at or below the frozen baseline.
pub proof fn lemma_clear_iff_baseline_reached(
    t: Map<Seq<char>, OverdueRecord>,
    threshold: u64,
    deadline: u64,
    k: Seq<char>,
    idle: u64,
    now: u64,
)
    requires
        t.contains_key(k),
    ensures
        !table_after_sample(t, threshold, deadline, k, idle, now).contains_key(k) <==> idle
            <= t[k].baseline_idle_secs,
{
}

/// Law: escalation is edge-triggered once per episode. After a sample that
/// escalates, no later sample escalates for the same person until the record
/// is deleted and a fresh episode begins.
pub proof fn lemma_escalation_fires_once(
    t: Map<Seq<char>, OverdueRecord>,
    threshold: u64,
    deadline: u64,
    k: Seq<char>,
    idle: u64,
    now: u64,
    idle2: u64,
    now2: u64,
)
    requires
        escalates(t, deadline, k, idle, now),
    ensures
        !escalates(
            table_after_sample(t, threshold, deadline, k, idle, now),
            deadline,
            k,
            idle2,
            now2,
        ),
{
}

/// Law: a sample never touches any record but the sampled person's.
pub proof fn lemma_sample_touches_only_sampled(
    t: Map<Seq<char>, OverdueRecord>,
    threshold: u64,
    deadline: u64,
    k: Seq<char>,
    idle: u64,
    now: u64,
    person: Seq<char>,
)
    requires
        person != k,
    ensures
        table_after_sample(t, threshold, deadline, k, idle, now).contains_key(person)
            == t.contains_key(person),
        t.contains_key(person) ==> table_after_sample(t, threshold, deadline, k, idle, now)[person]
            == t[person],
{
}

/// Keeps exactly the overdue records of people still on the roster.
pub fn remove_destaffed(
    overdue_list: &StringHashMap<OverdueRecord>,
    on_call_list: &Vec<String>,
) -> (kept: StringHashMap<OverdueRecord>)
    ensures
        kept@ == pruned(overdue_list@, names_of(on_call_list@)),
{
    let mut kept: StringHashMap<OverdueRecord> = StringHashMap::new();
    let mut i: usize = 0;
    while i < on_call_list.len()
        invariant
            0 <= i <= on_call_list@.len(),
            kept@ =~= pruned(overdue_list@, names_of(on_call_list@).subrange(0, i as int)),
        decreases on_call_list@.len() - i,
    {
        let ghost before = names_of(on_call_list@).subrange(0, i as int);
        let ghost after = names_of(on_call_list@).subrange(0, i + 1);
        proof {
            assert(after =~= before.push(on_call_list@[i as int]@));
            assert(forall|x: Seq<char>| after.contains(x) <==> before.contains(x) || x == on_call_list@[i as int]@) by {
                assert(forall|j: int| 0 <= j < before.len() ==> after[j] == #[trigger] before[j]);
                assert(after.last() == on_call_list@[i as int]@);
                assert(forall|j: int| 0 <= j < after.len() && j < before.len() ==> after[j] == #[trigger] before[j]);
            }
        }
        let nick = &on_call_list[i];
        match overdue_list.get(nick.as_str()) {
            Some(r) => {
                kept.insert(nick.clone(), *r);
                proof {
                    assert(kept@ =~= pruned(overdue_list@, after));
                }
            },
            None => {
                proof {
                    assert(kept@ =~= pruned(overdue_list@, after));
                }
            },
        }
        i = i + 1;
    }
    proof {
        assert(names_of(on_call_list@).subrange(0, on_call_list@.len() as int) =~= names_of(
            on_call_list@,
        ));
    }
    kept
}

} // verus!
