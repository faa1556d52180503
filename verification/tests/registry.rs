use golem_agentic::agent::Agent;
use golem_agentic::agent_registry::{
    create_instance, get_agent_def_by_name, get_agent_initiator,
    get_agent_instance, get_agent_instances_by_prefix, get_all_agent_definitions,
    get_all_generic_agent_types, get_constructor, get_definition,
    get_generic_agent_type_by_name, get_resolved_agent, known_agent_types,
    known_generic_agent_types, known_instances, register_agent_definition,
    register_agent_initiator, register_agent_instance, register_agent_type,
    register_constructor, register_generic_agent_type, AgentId, AgentInitiator, AgentRef,
    AgentRegistry, GenericAgentType, SharedInitiator,
};
use golem_agentic::descriptor::TypeDescriptor;
use golem_agentic::schema::{
    duplicate_methods, duplicate_names, AgentConstructor, AgentError, AgentMethod, AgentType,
    StatusUpdate,
};
use golem_agentic::text::duplicate_pairs;
use golem_agentic::value::TypedValue;
use golem_agentic::ResolvedAgent;
use std::sync::Arc;

struct EchoAgent {
    id: String,
    greeting: String,
}

impl Agent for EchoAgent {
    fn get_id(&self) -> String {
        self.id.clone()
    }

    fn invoke(&self, method_name: String, input: Vec<TypedValue>) -> StatusUpdate {
        let mut items = vec![
            TypedValue::Str(self.greeting.clone()),
            TypedValue::Str(method_name),
        ];
        items.extend(input);
        StatusUpdate::Emit(TypedValue::List(items))
    }

    fn get_definition(&self) -> AgentType {
        weather_type("from the agent")
    }
}

struct EchoInitiator;

impl AgentInitiator for EchoInitiator {
    fn initiate(&self, params: Vec<TypedValue>, agent_id: String) -> ResolvedAgent {
        let greeting = match params.first() {
            Some(TypedValue::Str(s)) => s.clone(),
            _ => String::new(),
        };
        ResolvedAgent {
            agent: Arc::new(EchoAgent { id: agent_id, greeting }),
            agent_id: "whatever the factory says".to_string(),
        }
    }
}

fn echo_factory() -> SharedInitiator {
    SharedInitiator { initiator: Arc::new(EchoInitiator) }
}

fn weather_method() -> AgentMethod {
    AgentMethod {
        name: "get-weather".to_string(),
        description: "the weather of a place".to_string(),
        input_schema: vec![TypeDescriptor::Str],
        output_schema: vec![TypeDescriptor::Str],
    }
}

fn weather_type(description: &str) -> AgentType {
    AgentType {
        name: "weather-agent".to_string(),
        description: description.to_string(),
        agent_constructor: AgentConstructor {
            parameters: vec![("greeting".to_string(), TypeDescriptor::Str)],
        },
        methods: vec![weather_method()],
        requires: vec!["clock-agent".to_string()],
    }
}

fn registry_with(types: &[&str]) -> AgentRegistry {
    let mut registry = AgentRegistry::new();
    for name in types {
        let mut def = weather_type("");
        def.name = name.to_string();
        register_agent_type(&mut registry, name.to_string(), def);
        register_agent_initiator(&mut registry, name.to_string(), echo_factory());
    }
    registry
}

fn create(registry: &mut AgentRegistry, worker: &str, name: &str, handle: u32) -> AgentRef {
    create_instance(registry, worker, name.to_string(), vec![], move |_agent| handle).unwrap()
}

fn sorted_ids(found: &[AgentRef]) -> Vec<String> {
    let mut ids: Vec<String> = found.iter().map(|r| r.agent_id.clone()).collect();
    ids.sort();
    ids
}

#[test]
fn lookup_finds_what_was_registered() {
    let mut registry = AgentRegistry::new();
    assert_eq!(get_agent_def_by_name(&registry, "weather-agent"), None);
    register_agent_type(&mut registry, "weather-agent".to_string(), weather_type("first"));
    assert_eq!(get_agent_def_by_name(&registry, "weather-agent"), Some(weather_type("first")));
    assert_eq!(get_agent_def_by_name(&registry, "Weather-Agent"), None);
    assert_eq!(get_agent_def_by_name(&registry, "weather"), None);
}

#[test]
fn last_registration_under_a_name_wins() {
    let mut registry = AgentRegistry::new();
    register_agent_type(&mut registry, "weather-agent".to_string(), weather_type("first"));
    register_agent_type(&mut registry, "weather-agent".to_string(), weather_type("second"));
    assert_eq!(get_agent_def_by_name(&registry, "weather-agent"), Some(weather_type("second")));
    assert_eq!(get_all_agent_definitions(&registry), vec![weather_type("second")]);
    assert_eq!(known_agent_types(&registry), vec!["weather-agent".to_string()]);
}

#[test]
fn register_agent_definition_and_register_agent_type_fill_one_store() {
    let mut registry = AgentRegistry::new();
    register_agent_definition(&mut registry, "a".to_string(), weather_type("by definition"));
    assert_eq!(get_agent_def_by_name(&registry, "a"), Some(weather_type("by definition")));
    register_agent_type(&mut registry, "a".to_string(), weather_type("by type"));
    assert_eq!(get_agent_def_by_name(&registry, "a"), Some(weather_type("by type")));
}

#[test]
fn list_all_is_a_snapshot_of_every_schema() {
    let mut registry = AgentRegistry::new();
    assert!(get_all_agent_definitions(&registry).is_empty());
    for name in ["a", "b", "c"] {
        register_agent_type(&mut registry, name.to_string(), weather_type(name));
    }
    let mut snapshot = get_all_agent_definitions(&registry);
    register_agent_type(&mut registry, "d".to_string(), weather_type("d"));
    assert_eq!(snapshot.len(), 3);
    snapshot.sort_by(|x, y| x.description.cmp(&y.description));
    assert_eq!(snapshot, vec![weather_type("a"), weather_type("b"), weather_type("c")]);
    assert_eq!(get_all_agent_definitions(&registry).len(), 4);
}

#[test]
fn the_stores_are_independent() {
    let mut registry = AgentRegistry::new();
    register_agent_type(&mut registry, "a".to_string(), weather_type(""));
    assert!(get_generic_agent_type_by_name(&registry, "a").is_none());
    assert!(get_agent_initiator(&registry, "a".to_string()).is_none());
    assert!(get_constructor(&registry, "a").is_none());
    assert!(get_agent_instance(&registry, AgentId("a".to_string())).is_none());
    register_agent_initiator(&mut registry, "b".to_string(), echo_factory());
    assert!(get_agent_initiator(&registry, "b".to_string()).is_some());
    assert!(get_agent_def_by_name(&registry, "b").is_none());
}

#[test]
fn generic_agent_types_are_kept_by_name() {
    let mut registry = AgentRegistry::new();
    let declared = GenericAgentType {
        name: "weather-agent".to_string(),
        description: "d".to_string(),
        methods: vec![weather_method()],
        requires: vec![],
    };
    register_generic_agent_type(&mut registry, "weather-agent".to_string(), declared.duplicate());
    assert_eq!(get_generic_agent_type_by_name(&registry, "weather-agent"), Some(declared.clone()));
    assert_eq!(get_generic_agent_type_by_name(&registry, "other"), None);
    assert_eq!(get_all_generic_agent_types(&registry), vec![declared]);
    assert_eq!(known_generic_agent_types(&registry), vec!["weather-agent".to_string()]);
    let replacement = GenericAgentType {
        name: "weather-agent".to_string(),
        description: "newer".to_string(),
        methods: vec![],
        requires: vec![],
    };
    register_generic_agent_type(&mut registry, "weather-agent".to_string(), replacement.clone());
    assert_eq!(get_all_generic_agent_types(&registry), vec![replacement]);
}

#[test]
fn to_agent_type_adds_the_constructor() {
    let declared = GenericAgentType {
        name: "weather-agent".to_string(),
        description: "".to_string(),
        methods: vec![weather_method()],
        requires: vec!["clock-agent".to_string()],
    };
    let constructor =
        AgentConstructor { parameters: vec![("greeting".to_string(), TypeDescriptor::Str)] };
    assert_eq!(declared.to_agent_type(constructor), weather_type(""));
}

#[test]
fn constructor_metadata_is_kept_by_name() {
    let mut registry = AgentRegistry::new();
    let fields = vec![("city".to_string(), "String".to_string())];
    register_constructor(&mut registry, "weather-agent".to_string(), fields.clone());
    assert_eq!(get_constructor(&registry, "weather-agent"), Some(fields.clone()));
    assert_eq!(get_constructor(&registry, "other"), None);
    register_constructor(&mut registry, "weather-agent".to_string(), vec![]);
    assert_eq!(get_constructor(&registry, "weather-agent"), Some(vec![]));
    assert_eq!(duplicate_pairs(&fields), fields);
}

#[test]
fn schema_copies_are_deep() {
    let t = weather_type("x");
    assert_eq!(t.duplicate(), t);
    assert_eq!(t.clone(), t);
    assert_eq!(t.agent_constructor.duplicate(), t.agent_constructor);
    assert_eq!(t.methods[0].duplicate(), t.methods[0]);
    assert_eq!(duplicate_methods(&t.methods), t.methods);
    assert_eq!(duplicate_names(&t.requires), t.requires);
}

#[test]
fn create_instance_allocates_ids_in_sequence() {
    let mut registry = registry_with(&["weather-agent"]);
    let first = create(&mut registry, "w1", "weather-agent", 10);
    let second = create(&mut registry, "w1", "weather-agent", 11);
    let third = create(&mut registry, "w1", "weather-agent", 12);
    assert_eq!(first.agent_id, "w1--weather-agent--1");
    assert_eq!(second.agent_id, "w1--weather-agent--2");
    assert_eq!(
        third,
        AgentRef {
            agent_id: "w1--weather-agent--3".to_string(),
            agent_name: "weather-agent".to_string(),
            agent_handle: 12,
        }
    );
}

#[test]
fn create_instance_never_repeats_an_id() {
    let mut registry = registry_with(&["weather-agent", "stock-agent"]);
    let mut ids = Vec::new();
    for i in 0..20 {
        ids.push(create(&mut registry, "w", "weather-agent", i).agent_id);
        ids.push(create(&mut registry, "w", "stock-agent", i).agent_id);
    }
    let mut distinct = ids.clone();
    distinct.sort();
    distinct.dedup();
    assert_eq!(distinct.len(), ids.len());
    assert_eq!(known_instances(&registry).len(), 40);
    assert_eq!(registry.instance_count("weather-agent"), 20);
    assert_eq!(registry.instance_count("stock-agent"), 20);
    assert_eq!(registry.instance_count("other"), 0);
}

#[test]
fn create_instance_registers_the_instance() {
    let mut registry = registry_with(&["weather-agent"]);
    let created = create_instance(
        &mut registry,
        "w1",
        "weather-agent".to_string(),
        vec![TypedValue::Str("hello".to_string())],
        |agent| agent.agent_id.len() as u32,
    )
    .unwrap();
    assert_eq!(created.agent_handle, "w1--weather-agent--1".len() as u32);
    let found = get_agent_instance(&registry, AgentId(created.agent_id.clone()));
    assert_eq!(found, Some(created.clone()));
    let agent = get_resolved_agent(&registry, &created.agent_id).unwrap();
    assert_eq!(agent.agent_id, "w1--weather-agent--1");
    assert_eq!(agent.get_id(), "w1--weather-agent--1");
    assert_eq!(agent.agent.get_id(), "w1--weather-agent--1");
    assert_eq!(
        agent.invoke("m".to_string(), vec![TypedValue::U8(1)]),
        StatusUpdate::Emit(TypedValue::List(vec![
            TypedValue::Str("hello".to_string()),
            TypedValue::Str("m".to_string()),
            TypedValue::U8(1),
        ]))
    );
    assert_eq!(agent.get_definition(), weather_type("from the agent"));
}

#[test]
fn create_instance_of_an_unknown_type_fails() {
    let mut registry = registry_with(&["a", "b"]);
    let err = create_instance(&mut registry, "w", "nope".to_string(), vec![], |_| 0).unwrap_err();
    match err {
        AgentError::UnknownAgentType { agent_type, mut available } => {
            assert_eq!(agent_type, "nope");
            available.sort();
            assert_eq!(available, vec!["a".to_string(), "b".to_string()]);
        }
        other => panic!("unexpected error {:?}", other),
    }
    assert!(known_instances(&registry).is_empty());
}

#[test]
fn create_instance_without_a_factory_fails() {
    let mut registry = AgentRegistry::new();
    register_agent_type(&mut registry, "weather-agent".to_string(), weather_type(""));
    let err = create_instance(&mut registry, "w", "weather-agent".to_string(), vec![], |_| 0)
        .unwrap_err();
    assert_eq!(err, AgentError::NoImplementation { agent_type: "weather-agent".to_string() });
    assert!(known_instances(&registry).is_empty());
    register_agent_initiator(&mut registry, "weather-agent".to_string(), echo_factory());
    let created = create(&mut registry, "w", "weather-agent", 1);
    assert_eq!(created.agent_id, "w--weather-agent--1");
}

#[test]
fn a_failed_creation_does_not_use_up_an_id() {
    let mut registry = AgentRegistry::new();
    register_agent_type(&mut registry, "a".to_string(), weather_type(""));
    assert!(create_instance(&mut registry, "w", "a".to_string(), vec![], |_| 0).is_err());
    register_agent_initiator(&mut registry, "a".to_string(), echo_factory());
    assert_eq!(create(&mut registry, "w", "a", 0).agent_id, "w--a--1");
}

#[test]
fn prefix_lookup_returns_exactly_the_matching_instances() {
    let mut registry = registry_with(&["A", "B"]);
    create(&mut registry, "w", "A", 1);
    create(&mut registry, "w", "A", 2);
    create(&mut registry, "w", "B", 3);
    let found = get_agent_instances_by_prefix(&registry, "w--A");
    assert_eq!(sorted_ids(&found), vec!["w--A--1".to_string(), "w--A--2".to_string()]);
    for item in &found {
        assert_eq!(item.agent_name, "A");
    }
    let all = get_agent_instances_by_prefix(&registry, "");
    assert_eq!(all.len(), 3);
    assert!(get_agent_instances_by_prefix(&registry, "w--C").is_empty());
    assert!(get_agent_instances_by_prefix(&registry, "x").is_empty());
    let one = get_agent_instances_by_prefix(&registry, "w--B--1");
    assert_eq!(
        one,
        vec![AgentRef {
            agent_id: "w--B--1".to_string(),
            agent_name: "B".to_string(),
            agent_handle: 3,
        }]
    );
}

#[test]
fn register_agent_instance_binds_an_id() {
    let mut registry = AgentRegistry::new();
    let resolved = ResolvedAgent {
        agent: Arc::new(EchoAgent { id: "custom".to_string(), greeting: "hi".to_string() }),
        agent_id: "custom".to_string(),
    };
    register_agent_instance(
        &mut registry,
        AgentId("custom".to_string()),
        "weather-agent".to_string(),
        77,
        resolved,
    );
    assert_eq!(
        get_agent_instance(&registry, AgentId("custom".to_string())),
        Some(AgentRef {
            agent_id: "custom".to_string(),
            agent_name: "weather-agent".to_string(),
            agent_handle: 77,
        })
    );
    assert_eq!(get_agent_instance(&registry, AgentId("other".to_string())), None);
    assert!(get_resolved_agent(&registry, "other").is_none());
    let replacement = ResolvedAgent {
        agent: Arc::new(EchoAgent { id: "custom".to_string(), greeting: "ho".to_string() }),
        agent_id: "custom".to_string(),
    };
    register_agent_instance(
        &mut registry,
        AgentId("custom".to_string()),
        "stock-agent".to_string(),
        78,
        replacement,
    );
    let found = get_agent_instance(&registry, AgentId("custom".to_string())).unwrap();
    assert_eq!(found.agent_name, "stock-agent");
    assert_eq!(found.agent_handle, 78);
    assert_eq!(known_instances(&registry), vec!["custom".to_string()]);
}

#[test]
fn get_definition_never_fails_for_a_created_instance() {
    let mut registry = registry_with(&["weather-agent"]);
    let created = create(&mut registry, "w", "weather-agent", 0);
    let mut expected = weather_type("");
    expected.name = "weather-agent".to_string();
    assert_eq!(get_definition(&registry, &created.agent_id), Some(expected));
    assert_eq!(get_definition(&registry, "w--weather-agent--2"), None);
}

#[test]
fn get_agent_initiator_hands_out_the_registered_factory() {
    let mut registry = AgentRegistry::new();
    register_agent_initiator(&mut registry, "weather-agent".to_string(), echo_factory());
    let factory = get_agent_initiator(&registry, "weather-agent".to_string()).unwrap();
    let made = factory
        .initiator
        .initiate(vec![TypedValue::Str("yo".to_string())], "some-id".to_string());
    assert_eq!(made.agent.get_id(), "some-id");
}

#[test]
fn error_messages_list_what_is_available() {
    let unknown = AgentError::UnknownAgentType {
        agent_type: "nope".to_string(),
        available: vec!["a".to_string(), "b".to_string(), "c".to_string()],
    };
    assert_eq!(
        unknown.message(),
        "Agent definition not found for agent name: nope. Available agents in this app is a, b, c"
    );
    let none = AgentError::UnknownAgentType { agent_type: "nope".to_string(), available: vec![] };
    assert_eq!(
        none.message(),
        "Agent definition not found for agent name: nope. Available agents in this app is "
    );
    let missing = AgentError::NoImplementation { agent_type: "weather-agent".to_string() };
    assert_eq!(
        missing.message(),
        "No agent implementation found for agent definition: weather-agent"
    );
    let method = AgentError::MethodNotFound {
        method_name: "fly".to_string(),
        agent_type: "weather-agent".to_string(),
    };
    assert_eq!(method.message(), "Method 'fly' not found in agent 'weather-agent'");
    assert_eq!(
        AgentError::MissingArgument { index: 2 }.message(),
        "Missing argument at position 2"
    );
    assert_eq!(
        AgentError::ArgumentMismatch { index: 10 }.message(),
        "Argument of another type than declared at position 10"
    );
    let instance = AgentError::UnknownInstance {
        agent_id: "w--a--9".to_string(),
        available: vec!["w--a--1".to_string()],
    };
    assert_eq!(
        instance.message(),
        "Agent with id w--a--9 not found. Available agents: w--a--1"
    );
}

#[test]
fn a_new_registry_is_empty() {
    let registry = AgentRegistry::new();
    assert!(known_agent_types(&registry).is_empty());
    assert!(known_generic_agent_types(&registry).is_empty());
    assert!(known_instances(&registry).is_empty());
    assert!(get_all_agent_definitions(&registry).is_empty());
    assert!(get_all_generic_agent_types(&registry).is_empty());
    assert!(get_agent_instances_by_prefix(&registry, "").is_empty());
    assert_eq!(get_agent_def_by_name(&registry, "weather-agent"), None);
    assert_eq!(get_constructor(&registry, "weather-agent"), None);
    assert!(get_agent_initiator(&registry, "weather-agent".to_string()).is_none());
    assert_eq!(registry.instance_count("weather-agent"), 0);
}
