//! Instance counters that remember the latest id of each agent type.

use crate::agent::{agent_id_text, format_agent_id};
use crate::agent_instance_registry::{count_of, increment_agent_instance_counter_locked};
use crate::name_map::NameMap;
use vstd::prelude::*;

verus! {

pub type AgentName = String;

pub type AgentId = String;

/// Per-type instance counters together with the id allocated last for each
/// agent type.
pub struct LatestInstances {
    counter: NameMap<u64>,
    latest: NameMap<String>,
}

impl LatestInstances {
    /// The counters by agent type name.
    pub closed spec fn counts(&self) -> Map<Seq<char>, u64> {
        self.counter@
    }

    /// The id allocated last, by agent type name.
    pub closed spec fn latest_ids(&self) -> Map<Seq<char>, String> {
        self.latest@
    }

    /// The number of instance ids counted for `name` so far.
    pub open spec fn count(&self, name: Seq<char>) -> nat {
        count_of(self.counts(), name)
    }

    /// Counters that have counted nothing.
    pub fn new() -> (r: Self)
        ensures
            r.counts() == Map::<Seq<char>, u64>::empty(),
            r.latest_ids() == Map::<Seq<char>, String>::empty(),
    {
        LatestInstances { counter: NameMap::new(), latest: NameMap::new() }
    }

    /// Whether an id was allocated for `agent_name`.
    pub fn has_agent_id(&self, agent_name: &str) -> (r: bool)
        ensures
            r == self.latest_ids().contains_key(agent_name@),
    {
        self.latest.contains_key(agent_name)
    }
}

/// Advances the counter of `agent_name` by one and returns its new value;
/// the first value is 1.
pub fn increment_agent_instance_counter(
    state: &mut LatestInstances,
    agent_name: AgentName,
) -> (count: u64)
    requires
        old(state).count(agent_name@) < u64::MAX,
    ensures
        count == old(state).count(agent_name@) + 1,
        final(state).counts() == old(state).counts().insert(agent_name@, count),
        final(state).latest_ids() == old(state).latest_ids(),
{
    increment_agent_instance_counter_locked(&mut state.counter, &agent_name)
}

/// Allocates the id of the next instance of `agent_name` on the worker
/// `worker_name` and remembers it as the latest id of the agent type.
pub fn create_agent_id(state: &mut LatestInstances, worker_name: &str, agent_name: AgentName)
    requires
        old(state).count(agent_name@) < u64::MAX,
    ensures
        final(state).count(agent_name@) == old(state).count(agent_name@) + 1,
        final(state).counts() == old(state).counts().insert(
            agent_name@,
            (old(state).count(agent_name@) + 1) as u64,
        ),
        final(state).latest_ids().dom() == old(state).latest_ids().dom().insert(agent_name@),
        final(state).latest_ids()[agent_name@]@ == agent_id_text(
            worker_name@,
            agent_name@,
            old(state).count(agent_name@) + 1,
        ),
        forall|other: Seq<char>|
            other != agent_name@ && old(state).latest_ids().contains_key(other)
                ==> final(state).latest_ids()[other] == old(state).latest_ids()[other],
{
    let count = increment_agent_instance_counter_locked(&mut state.counter, &agent_name);
    let agent_id = format_agent_id(worker_name, agent_name.as_str(), count);
    state.latest.insert(agent_name, agent_id);
}

/// The id allocated last for `agent_name`.
pub fn get_agent_id(state: &LatestInstances, agent_name: AgentName) -> (agent_id: String)
    requires
        state.latest_ids().contains_key(agent_name@),
    ensures
        agent_id@ == state.latest_ids()[agent_name@]@,
{
    match state.latest.get(agent_name.as_str()) {
        Some(agent_id) => agent_id.clone(),
        None => String::new(),
    }
}

/// The number of instance ids counted for `agent_name` so far.
pub fn get_agent_instance_count(state: &LatestInstances, agent_name: AgentName) -> (count: u64)
    ensures
        count == state.count(agent_name@),
{
    match state.counter.get(agent_name.as_str()) {
        Some(n) => *n,
        None => 0,
    }
}

} // verus!
