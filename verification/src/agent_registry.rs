//! The registries of one process: agent types by name, factories by name
//! and live instances by id.
//!
//! A registry is built once, filled during a load phase, and then handed to
//! whoever creates or looks up instances. Nothing is ever removed from it.

use crate::agent::agent_id_text;
use crate::agent_instance_registry::{count_of, create_agent_id, get_agent_instance_count,
    AgentName, InstanceCounters};
use crate::name_map::NameMap;
use crate::schema::{duplicate_methods, duplicate_names, method_views, AgentConstructor,
    AgentError, AgentMethod, AgentMethodView, AgentType, AgentTypeView};
use crate::text::{duplicate_pairs, pair_texts, starts_with, texts};
use crate::value::{models, TypedValue, ValueModel};
use crate::ResolvedAgent;
use std::sync::Arc;
use vstd::prelude::*;

verus! {

/// The id of a live instance.
#[derive(Debug, Hash, PartialEq, Eq)]
pub struct AgentId(pub String);

impl Clone for AgentId {
    fn clone(&self) -> (r: Self)
        ensures
            r.0@ == self.0@,
    {
        AgentId(self.0.clone())
    }
}

/// An agent type as its declaration describes it: everything but the
/// constructor, which the implementation supplies.
#[derive(Debug, PartialEq, Eq)]
pub struct GenericAgentType {
    pub name: String,
    pub description: String,
    pub methods: Vec<AgentMethod>,
    pub requires: Vec<String>,
}

/// What a `GenericAgentType` denotes.
pub ghost struct GenericAgentTypeView {
    pub name: Seq<char>,
    pub description: Seq<char>,
    pub methods: Seq<AgentMethodView>,
    pub requires: Seq<Seq<char>>,
}

impl View for GenericAgentType {
    type V = GenericAgentTypeView;

    open spec fn view(&self) -> GenericAgentTypeView {
        GenericAgentTypeView {
            name: self.name@,
            description: self.description@,
            methods: method_views(self.methods@),
            requires: texts(self.requires@),
        }
    }
}

impl GenericAgentType {
    /// A deep copy of this description.
    pub fn duplicate(&self) -> (r: GenericAgentType)
        ensures
            r@ == self@,
    {
        GenericAgentType {
            name: self.name.clone(),
            description: self.description.clone(),
            methods: duplicate_methods(&self.methods),
            requires: duplicate_names(&self.requires),
        }
    }

    /// The full schema: this description together with a constructor.
    pub fn to_agent_type(&self, agent_constructor: AgentConstructor) -> (r: AgentType)
        ensures
            r@ == (AgentTypeView {
                name: self@.name,
                description: self@.description,
                agent_constructor: agent_constructor@,
                methods: self@.methods,
                requires: self@.requires,
            }),
    {
        AgentType {
            name: self.name.clone(),
            description: self.description.clone(),
            agent_constructor,
            methods: duplicate_methods(&self.methods),
            requires: duplicate_names(&self.requires),
        }
    }
}

impl Clone for GenericAgentType {
    fn clone(&self) -> (r: Self)
        ensures
            r@ == self@,
    {
        self.duplicate()
    }
}

/// A live instance as the registry holds it.
pub struct AgentRefInternal {
    agent_handle: u32,
    resolved_agent: ResolvedAgent,
    agent_name: String,
}

impl AgentRefInternal {
    /// The resource handle under which the instance was registered.
    pub closed spec fn handle(&self) -> u32 {
        self.agent_handle
    }

    /// The implementation bound to the instance.
    pub closed spec fn agent(&self) -> ResolvedAgent {
        self.resolved_agent
    }

    /// The name of the agent type of the instance.
    pub closed spec fn name(&self) -> Seq<char> {
        self.agent_name@
    }
}

/// A reference to a live instance: its id, the name of its agent type and
/// its resource handle.
#[derive(Debug, PartialEq, Eq)]
pub struct AgentRef {
    pub agent_id: String,
    pub agent_name: String,
    pub agent_handle: u32,
}

impl Clone for AgentRef {
    fn clone(&self) -> (r: Self)
        ensures
            r.agent_id@ == self.agent_id@,
            r.agent_name@ == self.agent_name@,
            r.agent_handle == self.agent_handle,
    {
        AgentRef {
            agent_id: self.agent_id.clone(),
            agent_name: self.agent_name.clone(),
            agent_handle: self.agent_handle,
        }
    }
}

/// A factory that turns constructor arguments into a live agent.
pub trait AgentInitiator: Send + Sync {
    /// Whether `made` is what the factory may build from the constructor
    /// arguments `params` for the instance `agent_id`. A factory that does
    /// not say leaves it open.
    open spec fn builds(
        &self,
        params: Seq<ValueModel>,
        agent_id: Seq<char>,
        made: ResolvedAgent,
    ) -> bool {
        true
    }

    /// Builds the agent for the instance `agent_id`.
    fn initiate(&self, params: Vec<TypedValue>, agent_id: String) -> (made: ResolvedAgent)
        ensures
            self.builds(models(params@), agent_id@, made),
    ;
}

/// A registered factory.
pub struct SharedInitiator {
    pub initiator: Arc<dyn AgentInitiator>,
}

/// The registries of one process.
pub struct AgentRegistry {
    constructors: NameMap<Vec<(String, String)>>,
    generic_types: NameMap<GenericAgentType>,
    agent_types: NameMap<AgentType>,
    initiators: NameMap<SharedInitiator>,
    instances: NameMap<AgentRefInternal>,
    counters: InstanceCounters,
}

/// What an `AgentRegistry` holds.
pub ghost struct RegistryView {
    /// Constructor metadata by agent type name: parameter names and the
    /// names of their types.
    pub constructors: Map<Seq<char>, Vec<(String, String)>>,
    /// Declared agent types by name.
    pub generic_types: Map<Seq<char>, GenericAgentType>,
    /// Full schemas by agent type name.
    pub definitions: Map<Seq<char>, AgentType>,
    /// Factories by agent type name.
    pub initiators: Map<Seq<char>, SharedInitiator>,
    /// Live instances by id.
    pub instances: Map<Seq<char>, AgentRefInternal>,
    /// Instance counters by agent type name.
    pub counts: Map<Seq<char>, u64>,
}

impl View for AgentRegistry {
    type V = RegistryView;

    closed spec fn view(&self) -> RegistryView {
        RegistryView {
            constructors: self.constructors@,
            generic_types: self.generic_types@,
            definitions: self.agent_types@,
            initiators: self.initiators@,
            instances: self.instances@,
            counts: self.counters.counts(),
        }
    }
}

impl AgentRegistry {
    /// The names of the registered schemas in the order in which they are
    /// listed. Callers may rely on its being an enumeration of the names,
    /// not on the order.
    pub closed spec fn definition_order(&self) -> Seq<Seq<char>> {
        self.agent_types.order()
    }

    /// The names of the declared agent types in the order in which they are
    /// listed.
    pub closed spec fn generic_type_order(&self) -> Seq<Seq<char>> {
        self.generic_types.order()
    }

    /// The ids of the live instances in the order in which they are walked.
    pub closed spec fn instance_order(&self) -> Seq<Seq<char>> {
        self.instances.order()
    }

    /// The number of instance ids allocated for the agent type `agent_type`
    /// so far.
    pub fn instance_count(&self, agent_type: &str) -> (n: u64)
        ensures
            n == count_of(self@.counts, agent_type@),
    {
        get_agent_instance_count(&self.counters, agent_type.to_owned())
    }

    /// An empty registry: nothing is registered, no instance lives, nothing
    /// was counted, and every walk of it is empty.
    pub fn new() -> (r: Self)
        ensures
            r@ == (RegistryView {
                constructors: Map::empty(),
                generic_types: Map::empty(),
                definitions: Map::empty(),
                initiators: Map::empty(),
                instances: Map::empty(),
                counts: Map::empty(),
            }),
            r.definition_order() == Seq::<Seq<char>>::empty(),
            r.generic_type_order() == Seq::<Seq<char>>::empty(),
            r.instance_order() == Seq::<Seq<char>>::empty(),
    {
        AgentRegistry {
            constructors: NameMap::new(),
            generic_types: NameMap::new(),
            agent_types: NameMap::new(),
            initiators: NameMap::new(),
            instances: NameMap::new(),
            counters: InstanceCounters::new(),
        }
    }
}

/// Records the constructor metadata of an agent type; a later record under
/// the same name replaces an earlier one.
pub fn register_constructor(
    registry: &mut AgentRegistry,
    agent_type_name: String,
    constructor: Vec<(String, String)>,
)
    ensures
        final(registry)@ == (RegistryView {
            constructors: old(registry)@.constructors.insert(agent_type_name@, constructor),
            ..old(registry)@
        }),
{
    registry.constructors.insert(agent_type_name, constructor);
}

/// The constructor metadata recorded for an agent type.
pub fn get_constructor(registry: &AgentRegistry, agent_type_name: &str) -> (r: Option<
    Vec<(String, String)>,
>)
    ensures
        match r {
            Some(pairs) => registry@.constructors.contains_key(agent_type_name@) && pair_texts(
                pairs@,
            ) == pair_texts(registry@.constructors[agent_type_name@]@),
            None => !registry@.constructors.contains_key(agent_type_name@),
        },
{
    match registry.constructors.get(agent_type_name) {
        Some(pairs) => Some(duplicate_pairs(pairs)),
        None => None,
    }
}

/// Registers the schema of an agent type; the last registration under a
/// name wins.
pub fn register_agent_definition(
    registry: &mut AgentRegistry,
    agent_trait_name: String,
    def: AgentType,
)
    ensures
        final(registry)@ == (RegistryView {
            definitions: old(registry)@.definitions.insert(agent_trait_name@, def),
            ..old(registry)@
        }),
        final(registry)@ == with_definition(old(registry)@, agent_trait_name@, def),
{
    registry.agent_types.insert(agent_trait_name, def);
}

/// Registers a declared agent type; the last registration under a name
/// wins.
pub fn register_generic_agent_type(
    registry: &mut AgentRegistry,
    agent_trait_name: String,
    def: GenericAgentType,
)
    ensures
        final(registry)@ == (RegistryView {
            generic_types: old(registry)@.generic_types.insert(agent_trait_name@, def),
            ..old(registry)@
        }),
{
    registry.generic_types.insert(agent_trait_name, def);
}

/// Registers the schema of an agent type; the last registration under a
/// name wins.
pub fn register_agent_type(registry: &mut AgentRegistry, agent_trait_name: String, def: AgentType)
    ensures
        final(registry)@ == with_definition(old(registry)@, agent_trait_name@, def),
{
    register_agent_definition(registry, agent_trait_name, def);
}

/// Registers the factory of an agent type; the last registration under a
/// name wins.
pub fn register_agent_initiator(
    registry: &mut AgentRegistry,
    agent_id: AgentName,
    implementation: SharedInitiator,
)
    ensures
        final(registry)@ == (RegistryView {
            initiators: old(registry)@.initiators.insert(agent_id@, implementation),
            ..old(registry)@
        }),
{
    registry.initiators.insert(agent_id, implementation);
}

/// The registry after the schema `def` was registered under `name`.
pub open spec fn with_definition(
    registry: RegistryView,
    name: Seq<char>,
    def: AgentType,
) -> RegistryView {
    RegistryView { definitions: registry.definitions.insert(name, def), ..registry }
}

/// The schema that a lookup by `name` finds.
pub open spec fn definition_of(registry: RegistryView, name: Seq<char>) -> Option<AgentType> {
    if registry.definitions.contains_key(name) {
        Some(registry.definitions[name])
    } else {
        None
    }
}

/// Registering two schemas under one name leaves only the later one: the
/// registry is as if the earlier had never been registered, and a lookup by
/// that name finds the later. Lookups by other names are not affected.
pub proof fn lemma_last_registration_wins(
    registry: RegistryView,
    name: Seq<char>,
    first: AgentType,
    second: AgentType,
    other: Seq<char>,
)
    ensures
        with_definition(with_definition(registry, name, first), name, second) == with_definition(
            registry,
            name,
            second,
        ),
        definition_of(with_definition(with_definition(registry, name, first), name, second), name)
            == Some(second),
        other != name ==> definition_of(
            with_definition(with_definition(registry, name, first), name, second),
            other,
        ) == definition_of(registry, other),
{
    assert(registry.definitions.insert(name, first).insert(name, second)
        =~= registry.definitions.insert(name, second));
}

/// The schema registered under a name.
pub fn get_agent_def_by_name(registry: &AgentRegistry, agent_trait_name: &str) -> (r: Option<
    AgentType,
>)
    ensures
        match r {
            Some(def) => definition_of(registry@, agent_trait_name@) is Some && def@
                == registry@.definitions[agent_trait_name@]@,
            None => definition_of(registry@, agent_trait_name@) is None,
        },
{
    match registry.agent_types.get(agent_trait_name) {
        Some(def) => Some(def.duplicate()),
        None => None,
    }
}

/// The declared agent type registered under a name.
pub fn get_generic_agent_type_by_name(registry: &AgentRegistry, agent_trait_name: &str) -> (r:
    Option<GenericAgentType>)
    ensures
        match r {
            Some(def) => registry@.generic_types.contains_key(agent_trait_name@) && def@
                == registry@.generic_types[agent_trait_name@]@,
            None => !registry@.generic_types.contains_key(agent_trait_name@),
        },
{
    match registry.generic_types.get(agent_trait_name) {
        Some(def) => Some(def.duplicate()),
        None => None,
    }
}

/// A snapshot of all declared agent types: one copy for each registered
/// name, in the order of `generic_type_order`.
pub fn get_all_generic_agent_types(registry: &AgentRegistry) -> (r: Vec<GenericAgentType>)
    ensures
        registry.generic_type_order().no_duplicates(),
        registry.generic_type_order().to_set() == registry@.generic_types.dom(),
        r.len() == registry.generic_type_order().len(),
        forall|i: int|
            0 <= i < r.len() ==> (#[trigger] r[i])@
                == registry@.generic_types[registry.generic_type_order()[i]]@,
{
    let n = registry.generic_types.len();
    let mut all: Vec<GenericAgentType> = Vec::new();
    let mut i: usize = 0;
    while i < n
        invariant
            i <= n,
            n == registry.generic_types.order().len(),
            all.len() == i,
            forall|j: int|
                0 <= j < i ==> (#[trigger] all[j])@
                    == registry.generic_types@[registry.generic_types.order()[j]]@,
        decreases n - i,
    {
        all.push(registry.generic_types.value_at(i).duplicate());
        i = i + 1;
    }
    all
}

/// A snapshot of all registered schemas: one copy for each registered name,
/// in the order of `definition_order`.
pub fn get_all_agent_definitions(registry: &AgentRegistry) -> (r: Vec<AgentType>)
    ensures
        registry.definition_order().no_duplicates(),
        registry.definition_order().to_set() == registry@.definitions.dom(),
        r.len() == registry.definition_order().len(),
        forall|i: int|
            0 <= i < r.len() ==> (#[trigger] r[i])@
                == registry@.definitions[registry.definition_order()[i]]@,
{
    let n = registry.agent_types.len();
    let mut all: Vec<AgentType> = Vec::new();
    let mut i: usize = 0;
    while i < n
        invariant
            i <= n,
            n == registry.agent_types.order().len(),
            all.len() == i,
            forall|j: int|
                0 <= j < i ==> (#[trigger] all[j])@
                    == registry.agent_types@[registry.agent_types.order()[j]]@,
        decreases n - i,
    {
        all.push(registry.agent_types.value_at(i).duplicate());
        i = i + 1;
    }
    all
}

/// The factory registered for an agent type.
pub fn get_agent_initiator(registry: &AgentRegistry, agent_trait_name: String) -> (r: Option<
    &SharedInitiator,
>)
    ensures
        match r {
            Some(found) => registry@.initiators.contains_key(agent_trait_name@) && *found
                == registry@.initiators[agent_trait_name@],
            None => !registry@.initiators.contains_key(agent_trait_name@),
        },
{
    registry.initiators.get(agent_trait_name.as_str())
}

/// Registers a live instance under its id; a later registration under the
/// same id replaces an earlier one.
pub fn register_agent_instance(
    registry: &mut AgentRegistry,
    agent_id: AgentId,
    agent_name: String,
    agent_handle: u32,
    resolved_agent: ResolvedAgent,
)
    ensures
        final(registry)@.instances.dom() == old(registry)@.instances.dom().insert(agent_id.0@),
        is_entry(
            final(registry)@.instances[agent_id.0@],
            agent_name@,
            agent_handle,
            resolved_agent,
        ),
        others_kept(old(registry)@.instances, final(registry)@.instances, agent_id.0@),
        final(registry)@ == (RegistryView {
            instances: final(registry)@.instances,
            ..old(registry)@
        }),
{
    let entry = AgentRefInternal { agent_handle, resolved_agent, agent_name };
    registry.instances.insert(agent_id.0, entry);
}

/// Whether every instance of `before` but the one under `id` is unchanged
/// in `after`.
pub open spec fn others_kept(
    before: Map<Seq<char>, AgentRefInternal>,
    after: Map<Seq<char>, AgentRefInternal>,
    id: Seq<char>,
) -> bool {
    forall|other: Seq<char>|
        other != id && before.contains_key(other) ==> #[trigger] after[other] == before[other]
}

/// Whether `entry` holds exactly the given agent type name, handle and
/// implementation.
pub open spec fn is_entry(
    entry: AgentRefInternal,
    agent_name: Seq<char>,
    agent_handle: u32,
    resolved_agent: ResolvedAgent,
) -> bool {
    entry.name() == agent_name && entry.handle() == agent_handle && entry.agent() == resolved_agent
}

/// Whether `found` refers to the instance registered under `id`.
pub open spec fn refers_to(
    instances: Map<Seq<char>, AgentRefInternal>,
    id: Seq<char>,
    found: AgentRef,
) -> bool {
    instances.contains_key(id) && found.agent_id@ == id && found.agent_name@
        == instances[id].name() && found.agent_handle == instances[id].handle()
}

/// The instance registered under an id.
pub fn get_agent_instance(registry: &AgentRegistry, agent_id: AgentId) -> (r: Option<AgentRef>)
    ensures
        match r {
            Some(found) => refers_to(registry@.instances, agent_id.0@, found),
            None => !registry@.instances.contains_key(agent_id.0@),
        },
{
    match registry.instances.get(agent_id.0.as_str()) {
        Some(entry) => Some(
            AgentRef {
                agent_id: agent_id.0.clone(),
                agent_name: entry.agent_name.clone(),
                agent_handle: entry.agent_handle,
            },
        ),
        None => None,
    }
}

/// The implementation bound to the instance registered under an id.
pub fn get_resolved_agent<'a>(registry: &'a AgentRegistry, agent_id: &str) -> (r: Option<
    &'a ResolvedAgent,
>)
    ensures
        match r {
            Some(found) => registry@.instances.contains_key(agent_id@) && *found
                == registry@.instances[agent_id@].agent(),
            None => !registry@.instances.contains_key(agent_id@),
        },
{
    match registry.instances.get(agent_id) {
        Some(entry) => Some(&entry.resolved_agent),
        None => None,
    }
}

/// The ids of a list of references, in order.
pub open spec fn agent_ids(found: Seq<AgentRef>) -> Seq<Seq<char>> {
    Seq::new(found.len(), |i: int| found[i].agent_id@)
}

/// Those of `ids` that begin with `prefix`, in order.
pub open spec fn with_prefix(ids: Seq<Seq<char>>, prefix: Seq<char>) -> Seq<Seq<char>>
    decreases ids.len(),
{
    if ids.len() == 0 {
        Seq::empty()
    } else {
        let before = with_prefix(ids.drop_last(), prefix);
        if prefix.is_prefix_of(ids.last()) {
            before.push(ids.last())
        } else {
            before
        }
    }
}

/// All instances whose id begins with `prefix`: each of them once, and no
/// other, in the order in which the instances are walked. That order is not
/// specified.
pub fn get_agent_instances_by_prefix(registry: &AgentRegistry, prefix: &str) -> (r: Vec<AgentRef>)
    ensures
        agent_ids(r@) == with_prefix(registry.instance_order(), prefix@),
        forall|i: int|
            0 <= i < r.len() ==> prefix@.is_prefix_of((#[trigger] r[i]).agent_id@) && refers_to(
                registry@.instances,
                r[i].agent_id@,
                r[i],
            ),
        forall|id: Seq<char>|
            registry@.instances.contains_key(id) && prefix@.is_prefix_of(id) ==> exists|i: int|
                0 <= i < r.len() && (#[trigger] r[i]).agent_id@ == id,
        forall|i: int, j: int|
            0 <= i < j < r.len() ==> (#[trigger] r[i]).agent_id@ != (#[trigger] r[j]).agent_id@,
{
    let n = registry.instances.len();
    let ghost order = registry.instances.order();
    let ghost instances = registry.instances@;
    let mut found: Vec<AgentRef> = Vec::new();
    let ghost mut places: Seq<int> = Seq::empty();
    let mut k: usize = 0;
    proof {
        assert(order.take(0) =~= Seq::<Seq<char>>::empty());
        assert(agent_ids(found@) =~= Seq::<Seq<char>>::empty());
    }
    while k < n
        invariant
            k <= n,
            n == order.len(),
            order == registry.instances.order(),
            instances == registry.instances@,
            order.no_duplicates(),
            order.to_set() == instances.dom(),
            places.len() == found.len(),
            agent_ids(found@) == with_prefix(order.take(k as int), prefix@),
            forall|i: int|
                0 <= i < found.len() ==> 0 <= #[trigger] places[i] < k && found[i].agent_id@
                    == order[places[i]],
            forall|i: int, j: int|
                0 <= i < j < found.len() ==> #[trigger] places[i] < #[trigger] places[j],
            forall|i: int|
                0 <= i < found.len() ==> prefix@.is_prefix_of((#[trigger] found[i]).agent_id@)
                    && refers_to(instances, found[i].agent_id@, found[i]),
            forall|p: int|
                0 <= p < k && prefix@.is_prefix_of(#[trigger] order[p]) ==> exists|i: int|
                    0 <= i < found.len() && (#[trigger] found[i]).agent_id@ == order[p],
        decreases n - k,
    {
        proof {
            assert(order.take(k + 1).drop_last() =~= order.take(k as int));
            assert(order.take(k + 1).last() == order[k as int]);
        }
        let id = registry.instances.name_at(k);
        if starts_with(id.as_str(), prefix) {
            let entry = registry.instances.value_at(k);
            let item = AgentRef {
                agent_id: id.clone(),
                agent_name: entry.agent_name.clone(),
                agent_handle: entry.agent_handle,
            };
            let ghost before = found@;
            found.push(item);
            proof {
                assert(agent_ids(found@) =~= agent_ids(before).push(order[k as int]));
                places = places.push(k as int);
                assert forall|p: int|
                    0 <= p < k + 1 && prefix@.is_prefix_of(#[trigger] order[p]) implies exists|
                    i: int,
                |
                    0 <= i < found.len() && (#[trigger] found[i]).agent_id@ == order[p] by {
                    if p < k {
                        let i = choose|i: int|
                            0 <= i < before.len() && (#[trigger] before[i]).agent_id@ == order[p];
                        assert(found[i].agent_id@ == order[p]);
                    } else {
                        assert(found[found.len() - 1].agent_id@ == order[p]);
                    }
                }
            }
        }
        k = k + 1;
    }
    proof {
        assert(order.take(n as int) =~= order);
        assert forall|id: Seq<char>|
            instances.contains_key(id) && prefix@.is_prefix_of(id) implies exists|i: int|
            0 <= i < found.len() && (#[trigger] found[i]).agent_id@ == id by {
            assert(order.to_set().contains(id));
            let p = choose|p: int| 0 <= p < order.len() && order[p] == id;
            assert(prefix@.is_prefix_of(order[p]));
        }
        assert forall|i: int, j: int| 0 <= i < j < found.len() implies (
        #[trigger] found[i]).agent_id@ != (#[trigger] found[j]).agent_id@ by {
            assert(places[i] < places[j]);
        }
    }
    found
}

/// The names under which schemas are registered, in the order of
/// `definition_order`.
pub fn known_agent_types(registry: &AgentRegistry) -> (r: Vec<String>)
    ensures
        texts(r@) == registry.definition_order(),
        registry.definition_order().no_duplicates(),
        registry.definition_order().to_set() == registry@.definitions.dom(),
{
    let n = registry.agent_types.len();
    let mut names: Vec<String> = Vec::new();
    let mut i: usize = 0;
    while i < n
        invariant
            i <= n,
            n == registry.agent_types.order().len(),
            names.len() == i,
            forall|j: int| 0 <= j < i ==> names[j]@ == registry.agent_types.order()[j],
        decreases n - i,
    {
        names.push(registry.agent_types.name_at(i).clone());
        i = i + 1;
    }
    assert(texts(names@) =~= registry.agent_types.order());
    names
}

/// The names under which declared agent types are registered, in the order
/// of `generic_type_order`.
pub fn known_generic_agent_types(registry: &AgentRegistry) -> (r: Vec<String>)
    ensures
        texts(r@) == registry.generic_type_order(),
        registry.generic_type_order().no_duplicates(),
        registry.generic_type_order().to_set() == registry@.generic_types.dom(),
{
    let n = registry.generic_types.len();
    let mut names: Vec<String> = Vec::new();
    let mut i: usize = 0;
    while i < n
        invariant
            i <= n,
            n == registry.generic_types.order().len(),
            names.len() == i,
            forall|j: int| 0 <= j < i ==> names[j]@ == registry.generic_types.order()[j],
        decreases n - i,
    {
        names.push(registry.generic_types.name_at(i).clone());
        i = i + 1;
    }
    assert(texts(names@) =~= registry.generic_types.order());
    names
}

/// The ids of the live instances, in the order of `instance_order`.
pub fn known_instances(registry: &AgentRegistry) -> (r: Vec<String>)
    ensures
        texts(r@) == registry.instance_order(),
        registry.instance_order().no_duplicates(),
        registry.instance_order().to_set() == registry@.instances.dom(),
{
    let n = registry.instances.len();
    let mut ids: Vec<String> = Vec::new();
    let mut i: usize = 0;
    while i < n
        invariant
            i <= n,
            n == registry.instances.order().len(),
            ids.len() == i,
            forall|j: int| 0 <= j < i ==> ids[j]@ == registry.instances.order()[j],
        decreases n - i,
    {
        ids.push(registry.instances.name_at(i).clone());
        i = i + 1;
    }
    assert(texts(ids@) =~= registry.instances.order());
    ids
}

/// Whether `bound` is an agent that the factory `factory` built from the
/// constructor arguments `params` for the instance `agent_id`, bound to that
/// id.
pub open spec fn is_built_by(
    factory: SharedInitiator,
    params: Seq<ValueModel>,
    agent_id: Seq<char>,
    bound: ResolvedAgent,
) -> bool {
    exists|made: ResolvedAgent|
        #![trigger factory.initiator.builds(params, agent_id, made)]
        factory.initiator.builds(params, agent_id, made) && bound.agent == made.agent
            && bound.agent_id@ == agent_id
}

/// Creates an instance of the agent type `agent_type` on the worker
/// `worker_name`.
///
/// The schema is looked up first, then the factory. The id is allocated
/// from the counter of the agent type, the factory builds the
/// implementation, the implementation is bound to the id, `bind` gives the
/// resource handle of the new instance, and the instance is registered under
/// its id, where its schema is found from then on. Where the lookup of the
/// schema or of the factory fails, the registry is left as it was.
pub fn create_instance<F: FnOnce(&ResolvedAgent) -> u32>(
    registry: &mut AgentRegistry,
    worker_name: &str,
    agent_type: String,
    params: Vec<TypedValue>,
    bind: F,
) -> (r: Result<AgentRef, AgentError>)
    requires
        count_of(old(registry)@.counts, agent_type@) < u64::MAX,
        forall|agent: ResolvedAgent| call_requires(bind, (&agent,)),
    ensures
        match r {
            Ok(created) => {
                &&& old(registry)@.definitions.contains_key(agent_type@)
                &&& old(registry)@.initiators.contains_key(agent_type@)
                &&& created.agent_id@ == agent_id_text(
                    worker_name@,
                    agent_type@,
                    count_of(old(registry)@.counts, agent_type@) + 1,
                )
                &&& created.agent_name@ == agent_type@
                &&& final(registry)@.counts == old(registry)@.counts.insert(
                    agent_type@,
                    (count_of(old(registry)@.counts, agent_type@) + 1) as u64,
                )
                &&& final(registry)@.instances.dom() == old(registry)@.instances.dom().insert(
                    created.agent_id@,
                )
                &&& refers_to(final(registry)@.instances, created.agent_id@, created)
                &&& final(registry)@.definitions.contains_key(
                    final(registry)@.instances[created.agent_id@].name(),
                )
                &&& final(registry)@.instances[created.agent_id@].agent().agent_id@
                    == created.agent_id@
                &&& is_built_by(
                    old(registry)@.initiators[agent_type@],
                    models(params@),
                    created.agent_id@,
                    final(registry)@.instances[created.agent_id@].agent(),
                )
                &&& call_ensures(
                    bind,
                    (&final(registry)@.instances[created.agent_id@].agent(),),
                    created.agent_handle,
                )
                &&& others_kept(
                    old(registry)@.instances,
                    final(registry)@.instances,
                    created.agent_id@,
                )
                &&& final(registry)@ == (RegistryView {
                    instances: final(registry)@.instances,
                    counts: final(registry)@.counts,
                    ..old(registry)@
                })
            },
            Err(AgentError::UnknownAgentType { agent_type: name, available }) => {
                &&& !old(registry)@.definitions.contains_key(agent_type@)
                &&& name@ == agent_type@
                &&& texts(available@) == old(registry).definition_order()
                &&& final(registry)@ == old(registry)@
            },
            Err(AgentError::NoImplementation { agent_type: name }) => {
                &&& old(registry)@.definitions.contains_key(agent_type@)
                &&& !old(registry)@.initiators.contains_key(agent_type@)
                &&& name@ == agent_type@
                &&& final(registry)@ == old(registry)@
            },
            Err(_) => false,
        },
{
    if !registry.agent_types.contains_key(agent_type.as_str()) {
        let available = known_agent_types(registry);
        return Err(AgentError::UnknownAgentType { agent_type, available });
    }
    let factory = match registry.initiators.get(agent_type.as_str()) {
        Some(factory) => factory,
        None => {
            return Err(AgentError::NoImplementation { agent_type });
        },
    };
    let agent_id = create_agent_id(&mut registry.counters, worker_name, agent_type.clone());
    let ghost arguments = models(params@);
    let mut resolved_agent = factory.initiator.initiate(params, agent_id.clone());
    let ghost made = resolved_agent;
    resolved_agent.agent_id = agent_id.clone();
    assert(old(registry)@.initiators[agent_type@].initiator.builds(arguments, agent_id@, made));
    assert(is_built_by(
        old(registry)@.initiators[agent_type@],
        arguments,
        agent_id@,
        resolved_agent,
    ));
    let agent_handle = bind(&resolved_agent);
    let created = AgentRef {
        agent_id: agent_id.clone(),
        agent_name: agent_type.clone(),
        agent_handle,
    };
    register_agent_instance(registry, AgentId(agent_id), agent_type, agent_handle, resolved_agent);
    Ok(created)
}

/// The schema of the agent type of a live instance: `None` where no
/// instance is registered under the id or no schema under the name of its
/// agent type.
///
/// For an instance that `create_instance` made the schema is there: it was
/// when the instance was made, and nothing is ever removed.
pub fn get_definition(registry: &AgentRegistry, agent_id: &str) -> (r: Option<AgentType>)
    ensures
        match r {
            Some(def) => registry@.instances.contains_key(agent_id@)
                && registry@.definitions.contains_key(registry@.instances[agent_id@].name())
                && def@ == registry@.definitions[registry@.instances[agent_id@].name()]@,
            None => !registry@.instances.contains_key(agent_id@)
                || !registry@.definitions.contains_key(registry@.instances[agent_id@].name()),
        },
{
    match registry.instances.get(agent_id) {
        Some(entry) => get_agent_def_by_name(registry, entry.agent_name.as_str()),
        None => None,
    }
}

} // verus!
