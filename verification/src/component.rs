//! The entry points of an agent-bearing component: self-description and
//! access to its live instances.

use crate::agent::separator;
use crate::agent_registry::{agent_ids, get_agent_instance, get_agent_instances_by_prefix,
    get_all_agent_definitions, get_resolved_agent, known_agent_types, refers_to, with_prefix,
    AgentId, AgentRef, AgentRegistry};
use crate::schema::{AgentError, AgentType, StatusUpdate};
use crate::text::texts;
use crate::value::{models, TypedValue};
use vstd::prelude::*;
use vstd::string::StringExecFns;

verus! {

/// The component that a registry stands behind.
pub struct Component;

/// The common beginning of the ids of the instances of `agent_type` on
/// `worker`.
pub open spec fn instance_prefix(worker: Seq<char>, agent_type: Seq<char>) -> Seq<char> {
    worker + separator() + agent_type
}

/// Whether the id `id` begins like the ids of the instances of some
/// registered agent type on `worker`.
pub open spec fn is_discoverable(
    registry: &AgentRegistry,
    worker: Seq<char>,
    id: Seq<char>,
) -> bool {
    exists|k: int|
        0 <= k < registry.definition_order().len() && instance_prefix(
            worker,
            #[trigger] registry.definition_order()[k],
        ).is_prefix_of(id)
}

/// The ids that `discover_agents` lists: for each agent type of `types`, in
/// order, those of `ids` that begin with the prefix of the agent type on
/// `worker`.
pub open spec fn discovered(
    types: Seq<Seq<char>>,
    ids: Seq<Seq<char>>,
    worker: Seq<char>,
) -> Seq<Seq<char>>
    decreases types.len(),
{
    if types.len() == 0 {
        Seq::empty()
    } else {
        discovered(types.drop_last(), ids, worker) + with_prefix(
            ids,
            instance_prefix(worker, types.last()),
        )
    }
}

/// Whether `ids` lists the discoverable instances of `worker`: each of its
/// entries is the id of such an instance, and each such instance is listed.
pub open spec fn lists_discoverable(
    registry: &AgentRegistry,
    worker: Seq<char>,
    ids: Seq<Seq<char>>,
) -> bool {
    &&& (forall|i: int|
        0 <= i < ids.len() ==> is_discoverable(registry, worker, #[trigger] ids[i])
            && registry@.instances.contains_key(ids[i]))
    &&& (forall|id: Seq<char>|
        registry@.instances.contains_key(id) && is_discoverable(registry, worker, id)
            ==> #[trigger] ids.contains(id))
}

impl Component {
    /// The schemas of all agent types of the component.
    pub fn discover_agent_types(registry: &AgentRegistry) -> (r: Vec<AgentType>)
        ensures
            registry.definition_order().no_duplicates(),
            registry.definition_order().to_set() == registry@.definitions.dom(),
            r.len() == registry.definition_order().len(),
            forall|i: int|
                0 <= i < r.len() ==> (#[trigger] r[i])@
                    == registry@.definitions[registry.definition_order()[i]]@,
    {
        get_all_agent_definitions(registry)
    }

    /// The live instances of the registered agent types on the worker
    /// `worker_name`: every instance whose id begins with
    /// `{worker}--{agent-type}` for a registered agent type, and no other.
    /// An instance is listed once for each registered agent type whose
    /// prefix its id begins with.
    pub fn discover_agents(registry: &AgentRegistry, worker_name: &str) -> (r: Vec<AgentRef>)
        ensures
            agent_ids(r@) == discovered(
                registry.definition_order(),
                registry.instance_order(),
                worker_name@,
            ),
            forall|i: int|
                0 <= i < r.len() ==> is_discoverable(
                    registry,
                    worker_name@,
                    (#[trigger] r[i]).agent_id@,
                ) && refers_to(registry@.instances, r[i].agent_id@, r[i]),
            forall|id: Seq<char>|
                registry@.instances.contains_key(id) && is_discoverable(registry, worker_name@, id)
                    ==> exists|i: int| 0 <= i < r.len() && (#[trigger] r[i]).agent_id@ == id,
    {
        proof {
            reveal_strlit("--");
            assert("--"@ =~= separator());
        }
        let names = known_agent_types(registry);
        let ghost order = registry.definition_order();
        let mut agents: Vec<AgentRef> = Vec::new();
        let mut k: usize = 0;
        proof {
            assert(order.take(0) =~= Seq::<Seq<char>>::empty());
            assert(agent_ids(agents@) =~= Seq::<Seq<char>>::empty());
        }
        while k < names.len()
            invariant
                k <= names.len(),
                texts(names@) == order,
                agent_ids(agents@) == discovered(
                    order.take(k as int),
                    registry.instance_order(),
                    worker_name@,
                ),
                order == registry.definition_order(),
                "--"@ == separator(),
                forall|i: int|
                    0 <= i < agents.len() ==> is_discoverable(
                        registry,
                        worker_name@,
                        (#[trigger] agents[i]).agent_id@,
                    ) && refers_to(registry@.instances, agents[i].agent_id@, agents[i]),
                forall|id: Seq<char>, p: int|
                    #![trigger instance_prefix(worker_name@, order[p]).is_prefix_of(id)]
                    0 <= p < k && registry@.instances.contains_key(id) && instance_prefix(
                        worker_name@,
                        order[p],
                    ).is_prefix_of(id) ==> exists|i: int|
                        0 <= i < agents.len() && (#[trigger] agents[i]).agent_id@ == id,
            decreases names.len() - k,
        {
            let mut prefix = String::from_str(worker_name);
            prefix.append("--");
            prefix.append(names[k].as_str());
            assert(names[k as int]@ == order[k as int]);
            assert(prefix@ == instance_prefix(worker_name@, order[k as int]));
            let mut found = get_agent_instances_by_prefix(registry, prefix.as_str());
            let ghost before = agents@;
            let ghost added = found@;
            agents.append(&mut found);
            proof {
                assert(order.take(k + 1).drop_last() =~= order.take(k as int));
                assert(order.take(k + 1).last() == order[k as int]);
                assert(agent_ids(agents@) =~= agent_ids(before) + agent_ids(added));
                assert forall|i: int| 0 <= i < agents.len() implies is_discoverable(
                    registry,
                    worker_name@,
                    (#[trigger] agents[i]).agent_id@,
                ) && refers_to(registry@.instances, agents[i].agent_id@, agents[i]) by {
                    if i < before.len() {
                        assert(agents[i] == before[i]);
                    } else {
                        assert(agents[i] == added[i - before.len()]);
                        assert(instance_prefix(worker_name@, order[k as int]).is_prefix_of(
                            agents[i].agent_id@,
                        ));
                    }
                }
                assert forall|id: Seq<char>, p: int|
                    #![trigger instance_prefix(worker_name@, order[p]).is_prefix_of(id)]
                    0 <= p < k + 1 && registry@.instances.contains_key(id) && instance_prefix(
                        worker_name@,
                        order[p],
                    ).is_prefix_of(id) implies exists|i: int|
                    0 <= i < agents.len() && (#[trigger] agents[i]).agent_id@ == id by {
                    if p < k {
                        let i = choose|i: int|
                            0 <= i < before.len() && (#[trigger] before[i]).agent_id@ == id;
                        assert(agents[i] == before[i]);
                    } else {
                        let i = choose|i: int|
                            0 <= i < added.len() && (#[trigger] added[i]).agent_id@ == id;
                        assert(agents[before.len() + i] == added[i]);
                    }
                }
            }
            k = k + 1;
        }
        proof {
            assert(order.take(names.len() as int) =~= order);
        }
        agents
    }

    /// The instance registered under `agent_id`, or an error that lists the
    /// ids of the instances that `discover_agents` finds.
    pub fn get_agent(registry: &AgentRegistry, worker_name: &str, agent_id: String) -> (r: Result<
        AgentRef,
        AgentError,
    >)
        ensures
            match r {
                Ok(found) => refers_to(registry@.instances, agent_id@, found),
                Err(AgentError::UnknownInstance { agent_id: id, available }) => {
                    &&& !registry@.instances.contains_key(agent_id@)
                    &&& id@ == agent_id@
                    &&& texts(available@) == discovered(
                        registry.definition_order(),
                        registry.instance_order(),
                        worker_name@,
                    )
                    &&& lists_discoverable(registry, worker_name@, texts(available@))
                },
                Err(_) => false,
            },
    {
        let key = AgentId(agent_id.clone());
        match get_agent_instance(registry, key) {
            Some(found) => Ok(found),
            None => {
                let agents = Component::discover_agents(registry, worker_name);
                let mut available: Vec<String> = Vec::new();
                let mut i: usize = 0;
                while i < agents.len()
                    invariant
                        i <= agents.len(),
                        available.len() == i,
                        forall|j: int|
                            0 <= j < i ==> (#[trigger] available[j])@ == agents[j].agent_id@,
                    decreases agents.len() - i,
                {
                    available.push(agents[i].agent_id.clone());
                    i = i + 1;
                }
                proof {
                    let ids = texts(available@);
                    assert(ids =~= agent_ids(agents@));
                    assert forall|other: Seq<char>|
                        registry@.instances.contains_key(other) && is_discoverable(
                            registry,
                            worker_name@,
                            other,
                        ) implies #[trigger] ids.contains(other) by {
                        let i = choose|i: int|
                            0 <= i < agents.len() && (#[trigger] agents[i]).agent_id@ == other;
                        assert(ids[i] == other);
                    }
                    assert forall|i: int| 0 <= i < ids.len() implies is_discoverable(
                        registry,
                        worker_name@,
                        #[trigger] ids[i],
                    ) && registry@.instances.contains_key(ids[i]) by {
                        assert(agents[i].agent_id@ == ids[i]);
                    }
                }
                Err(AgentError::UnknownInstance { agent_id, available })
            },
        }
    }

    /// Invokes a method on the instance registered under `agent_id`. An
    /// unknown id is reported as an error; otherwise what comes back is the
    /// implementation's answer.
    pub fn invoke(
        registry: &AgentRegistry,
        agent_id: &str,
        method_name: String,
        input: Vec<TypedValue>,
    ) -> (r: StatusUpdate)
        ensures
            !registry@.instances.contains_key(agent_id@) ==> (r matches StatusUpdate::Error(
                AgentError::UnknownInstance { agent_id: id, available },
            ) && id@ == agent_id@ && texts(available@) == registry.instance_order()),
            registry@.instances.contains_key(agent_id@)
                ==> registry@.instances[agent_id@].agent().agent.answers(
                method_name@,
                models(input@),
                r,
            ),
    {
        match get_resolved_agent(registry, agent_id) {
            Some(agent) => agent.invoke(method_name, input),
            None => StatusUpdate::Error(
                AgentError::UnknownInstance {
                    agent_id: agent_id.to_owned(),
                    available: crate::agent_registry::known_instances(registry),
                },
            ),
        }
    }
}

} // verus!
