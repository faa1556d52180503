use golem_agentic::agent_construct::AgentConstruct;
use golem_agentic::agent_registry::{
    get_agent_def_by_name, register_generic_agent_type, AgentRegistry, GenericAgentType,
};
use golem_agentic::declaration::{
    describe_method, get_agent_type, get_wit_type, register_agent_implementation,
    MethodDeclaration,
};
use golem_agentic::descriptor::TypeDescriptor;
use golem_agentic::schema::{AgentConstructor, AgentError, AgentMethod, AgentType};
use golem_agentic::type_mapping::FromValue;
use golem_agentic::value::TypedValue;

struct MyWeatherAgent {
    agent_id: String,
    greeting: String,
}

impl AgentConstruct for MyWeatherAgent {
    fn construct_from_params(params: Vec<TypedValue>, agent_id: String) -> Self {
        let greeting = String::from_value(params.into_iter().next().unwrap()).unwrap();
        MyWeatherAgent { agent_id, greeting }
    }

    fn get_params() -> Vec<(String, TypeDescriptor)> {
        vec![("greeting".to_string(), TypeDescriptor::Str)]
    }

    fn get_agent_dependencies() -> Vec<String> {
        vec![]
    }
}

fn declared_methods() -> Vec<MethodDeclaration> {
    vec![
        MethodDeclaration {
            name: "get_weather".to_string(),
            description: "the weather of a place".to_string(),
            inputs: vec![TypeDescriptor::Str],
            output: Some(TypeDescriptor::Str),
        },
        MethodDeclaration {
            name: "reset".to_string(),
            description: String::new(),
            inputs: vec![],
            output: None,
        },
    ]
}

fn described_methods() -> Vec<AgentMethod> {
    vec![
        AgentMethod {
            name: "get-weather".to_string(),
            description: "the weather of a place".to_string(),
            input_schema: vec![TypeDescriptor::Str],
            output_schema: vec![TypeDescriptor::Str],
        },
        AgentMethod {
            name: "reset".to_string(),
            description: String::new(),
            input_schema: vec![],
            output_schema: vec![],
        },
    ]
}

#[test]
fn a_declared_agent_is_described_under_canonical_names() {
    let described = get_agent_type("WeatherAgent", declared_methods());
    assert_eq!(
        described,
        GenericAgentType {
            name: "weather-agent".to_string(),
            description: String::new(),
            methods: described_methods(),
            requires: vec![],
        }
    );
}

#[test]
fn a_declared_agent_without_methods_has_none() {
    let described = get_agent_type("Idle", vec![]);
    assert_eq!(described.name, "idle");
    assert!(described.methods.is_empty());
}

#[test]
fn a_method_without_result_has_no_output() {
    let mut methods = declared_methods();
    let reset = describe_method(methods.pop().unwrap());
    assert_eq!(reset, described_methods().pop().unwrap());
}

#[test]
fn wit_types_of_the_supported_native_types() {
    assert_eq!(get_wit_type("String"), Some(TypeDescriptor::Str));
    assert_eq!(get_wit_type("bool"), Some(TypeDescriptor::Bool));
    assert_eq!(get_wit_type("u64"), Some(TypeDescriptor::U64));
    assert_eq!(get_wit_type("i64"), Some(TypeDescriptor::S64));
    assert_eq!(get_wit_type("f64"), Some(TypeDescriptor::Float64));
    assert_eq!(get_wit_type("u32"), None);
    assert_eq!(get_wit_type("string"), None);
    assert_eq!(get_wit_type(""), None);
}

#[test]
fn an_implementation_completes_the_declared_type() {
    let mut registry = AgentRegistry::new();
    register_generic_agent_type(
        &mut registry,
        "weather-agent".to_string(),
        get_agent_type("WeatherAgent", declared_methods()),
    );
    assert_eq!(
        register_agent_implementation::<MyWeatherAgent>(&mut registry, "weather-agent"),
        Ok(())
    );
    assert_eq!(
        get_agent_def_by_name(&registry, "weather-agent"),
        Some(AgentType {
            name: "weather-agent".to_string(),
            description: String::new(),
            agent_constructor: AgentConstructor {
                parameters: vec![("greeting".to_string(), TypeDescriptor::Str)],
            },
            methods: described_methods(),
            requires: vec![],
        })
    );
}

#[test]
fn an_implementation_of_an_undeclared_type_is_refused() {
    let mut registry = AgentRegistry::new();
    register_generic_agent_type(
        &mut registry,
        "stock-agent".to_string(),
        get_agent_type("StockAgent", vec![]),
    );
    assert_eq!(
        register_agent_implementation::<MyWeatherAgent>(&mut registry, "weather-agent"),
        Err(AgentError::UnknownAgentType {
            agent_type: "weather-agent".to_string(),
            available: vec!["stock-agent".to_string()],
        })
    );
    assert_eq!(get_agent_def_by_name(&registry, "weather-agent"), None);
}

#[test]
fn an_implementation_is_built_from_positional_arguments() {
    let agent = MyWeatherAgent::construct_from_params(
        vec![TypedValue::Str("hello".to_string())],
        "w--weather-agent--1".to_string(),
    );
    assert_eq!(agent.agent_id, "w--weather-agent--1");
    assert_eq!(agent.greeting, "hello");
    assert!(MyWeatherAgent::get_agent_dependencies().is_empty());
}
