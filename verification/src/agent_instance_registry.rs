//! Allocation of instance ids: one monotonic counter per agent type.

use crate::agent::{agent_id_text, format_agent_id};
use crate::name_map::NameMap;
use vstd::prelude::*;

verus! {

pub type AgentName = String;

pub type AgentId = String;

/// The number of instances counted under `name`: zero until the first one.
pub open spec fn count_of(counts: Map<Seq<char>, u64>, name: Seq<char>) -> nat {
    if counts.contains_key(name) {
        counts[name] as nat
    } else {
        0
    }
}

/// The per-type instance counters of one process.
pub struct InstanceCounters {
    counter: NameMap<u64>,
}

impl InstanceCounters {
    /// The counters by agent type name. A type that was never counted has no
    /// entry.
    pub closed spec fn counts(&self) -> Map<Seq<char>, u64> {
        self.counter@
    }

    /// The number of instance ids allocated for `name` so far.
    pub open spec fn count(&self, name: Seq<char>) -> nat {
        count_of(self.counts(), name)
    }

    /// Counters that have counted nothing.
    pub fn new() -> (r: Self)
        ensures
            r.counts() == Map::<Seq<char>, u64>::empty(),
    {
        InstanceCounters { counter: NameMap::new() }
    }
}

/// Advances the counter of `agent_name` by one and returns its new value;
/// the first value is 1.
pub fn increment_agent_instance_counter_locked(
    counter: &mut NameMap<u64>,
    agent_name: &AgentName,
) -> (count: u64)
    requires
        count_of(old(counter)@, agent_name@) < u64::MAX,
    ensures
        count == count_of(old(counter)@, agent_name@) + 1,
        final(counter)@ == old(counter)@.insert(agent_name@, count),
{
    let before: u64 = match counter.get(agent_name.as_str()) {
        Some(n) => *n,
        None => 0,
    };
    let count: u64 = before + 1;
    counter.insert(agent_name.clone(), count);
    count
}

/// Advances the counter of `agent_name` by one and returns its new value.
pub fn increment_agent_instance_counter(
    counters: &mut InstanceCounters,
    agent_name: AgentName,
) -> (count: u64)
    requires
        old(counters).count(agent_name@) < u64::MAX,
    ensures
        count == old(counters).count(agent_name@) + 1,
        final(counters).counts() == old(counters).counts().insert(agent_name@, count),
{
    increment_agent_instance_counter_locked(&mut counters.counter, &agent_name)
}

/// Allocates the id of the next instance of `agent_name` on the worker
/// `worker_name`: `{worker}--{agent_name}--{n}`, where `n` is the new value
/// of the counter of `agent_name`.
pub fn create_agent_id(
    counters: &mut InstanceCounters,
    worker_name: &str,
    agent_name: AgentName,
) -> (agent_id: AgentId)
    requires
        old(counters).count(agent_name@) < u64::MAX,
    ensures
        agent_id@ == agent_id_text(
            worker_name@,
            agent_name@,
            old(counters).count(agent_name@) + 1,
        ),
        final(counters).count(agent_name@) == old(counters).count(agent_name@) + 1,
        final(counters).counts() == old(counters).counts().insert(
            agent_name@,
            (old(counters).count(agent_name@) + 1) as u64,
        ),
{
    let count = increment_agent_instance_counter_locked(&mut counters.counter, &agent_name);
    format_agent_id(worker_name, agent_name.as_str(), count)
}

/// The number of instance ids allocated for `agent_name` so far.
pub fn get_agent_instance_count(counters: &InstanceCounters, agent_name: AgentName) -> (count: u64)
    ensures
        count == counters.count(agent_name@),
{
    match counters.counter.get(agent_name.as_str()) {
        Some(n) => *n,
        None => 0,
    }
}

/// Within one worker and one agent type, ids allocated at different counter
/// values differ: a sequence of allocations never repeats an id.
pub proof fn lemma_allocated_ids_distinct(
    worker: Seq<char>,
    agent_name: Seq<char>,
    earlier: nat,
    later: nat,
)
    requires
        earlier < later,
    ensures
        agent_id_text(worker, agent_name, earlier) != agent_id_text(worker, agent_name, later),
{
    if agent_id_text(worker, agent_name, earlier) == agent_id_text(worker, agent_name, later) {
        crate::agent::lemma_agent_id_injective(worker, agent_name, earlier, agent_name, later);
    }
}

} // verus!
