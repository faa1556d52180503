use golem_agentic::descriptor::TypeDescriptor;
use golem_agentic::dispatch::{check_arguments, find_method, invoke, resolve_call, status_of};
use golem_agentic::schema::{AgentConstructor, AgentError, AgentMethod, AgentType, StatusUpdate};
use golem_agentic::type_mapping::{FromValue, ToValue};
use golem_agentic::value::TypedValue;
use std::sync::Mutex;

struct Weather {
    calls: Mutex<Vec<String>>,
}

impl Weather {
    fn new() -> Self {
        Weather { calls: Mutex::new(Vec::new()) }
    }

    fn get_weather(&self, location: String) -> String {
        self.calls.lock().unwrap().push(location.clone());
        format!("sunny in {}", location)
    }

    fn add(&self, a: u32, b: u32) -> u32 {
        a + b
    }
}

impl Weather {
    fn handle(&self, method: usize, args: Vec<TypedValue>) -> Result<TypedValue, AgentError> {
        let mut args = args.into_iter();
        match method {
            0 => {
                let location = String::from_value(args.next().unwrap()).unwrap();
                Ok(self.get_weather(location).to_value())
            }
            1 => {
                let a = u32::from_value(args.next().unwrap()).unwrap();
                let b = u32::from_value(args.next().unwrap()).unwrap();
                Ok(self.add(a, b).to_value())
            }
            2 => Ok(TypedValue::Tuple(vec![])),
            _ => Err(AgentError::MissingArgument { index: 99 }),
        }
    }
}

fn method(name: &str, inputs: Vec<TypeDescriptor>) -> AgentMethod {
    AgentMethod {
        name: name.to_string(),
        description: String::new(),
        input_schema: inputs,
        output_schema: vec![],
    }
}

fn weather_type() -> AgentType {
    AgentType {
        name: "weather-agent".to_string(),
        description: String::new(),
        agent_constructor: AgentConstructor { parameters: vec![] },
        methods: vec![
            method("get-weather", vec![TypeDescriptor::Str]),
            method("add", vec![TypeDescriptor::U32, TypeDescriptor::U32]),
            method("ping", vec![]),
            method("failing", vec![]),
            method("get-weather", vec![TypeDescriptor::Bool]),
        ],
        requires: vec![],
    }
}

fn call(agent: &Weather, method_name: &str, input: Vec<TypedValue>) -> StatusUpdate {
    invoke(
        &weather_type(),
        |method, args| agent.handle(method, args),
        method_name.to_string(),
        input,
    )
}

fn paris() -> Vec<TypedValue> {
    vec![TypedValue::Str("Paris".to_string())]
}

#[test]
fn dispatch_calls_the_implementation_and_emits_its_result() {
    let agent = Weather::new();
    let status = call(&agent, "get-weather", paris());
    assert_eq!(status, StatusUpdate::Emit(TypedValue::Str("sunny in Paris".to_string())));
    assert_eq!(*agent.calls.lock().unwrap(), vec!["Paris".to_string()]);
}

#[test]
fn dispatch_passes_arguments_by_position() {
    let agent = Weather::new();
    let status = call(
        &agent,
        "add",
        vec![TypedValue::U32(40), TypedValue::U32(2)],
    );
    assert_eq!(status, StatusUpdate::Emit(TypedValue::U32(42)));
}

#[test]
fn unknown_method_is_reported_not_fatal() {
    let agent = Weather::new();
    let status = call(&agent, "nonexistent-method", paris());
    assert_eq!(
        status,
        StatusUpdate::Error(AgentError::MethodNotFound {
            method_name: "nonexistent-method".to_string(),
            agent_type: "weather-agent".to_string(),
        })
    );
    assert!(agent.calls.lock().unwrap().is_empty());
}

#[test]
fn method_names_are_matched_exactly() {
    let agent = Weather::new();
    for name in ["Get-Weather", "get_weather", "getWeather", "get-weather ", "get-weathe", ""] {
        let status = call(&agent, name, paris());
        assert_eq!(
            status,
            StatusUpdate::Error(AgentError::MethodNotFound {
                method_name: name.to_string(),
                agent_type: "weather-agent".to_string(),
            })
        );
    }
    assert!(agent.calls.lock().unwrap().is_empty());
}

#[test]
fn missing_argument_is_reported_with_its_position() {
    let agent = Weather::new();
    let none = call(&agent, "get-weather", vec![]);
    assert_eq!(none, StatusUpdate::Error(AgentError::MissingArgument { index: 0 }));
    let one = call(&agent, "add", vec![TypedValue::U32(1)]);
    assert_eq!(one, StatusUpdate::Error(AgentError::MissingArgument { index: 1 }));
    assert!(agent.calls.lock().unwrap().is_empty());
}

#[test]
fn mismatched_argument_is_reported_with_its_position() {
    let agent = Weather::new();
    let status = call(
        &agent,
        "add",
        vec![TypedValue::U32(1), TypedValue::U64(2)],
    );
    assert_eq!(status, StatusUpdate::Error(AgentError::ArgumentMismatch { index: 1 }));
    let status = call(
        &agent,
        "get-weather",
        vec![TypedValue::Bool(true)],
    );
    assert_eq!(status, StatusUpdate::Error(AgentError::ArgumentMismatch { index: 0 }));
}

#[test]
fn the_first_fault_in_position_order_is_reported() {
    let two = vec![TypeDescriptor::U32, TypeDescriptor::U32, TypeDescriptor::U32];
    let m = method("m", two);
    let args = vec![TypedValue::Bool(true)];
    assert_eq!(check_arguments(&m, &args), Err(AgentError::ArgumentMismatch { index: 0 }));
    let args = vec![TypedValue::U32(1)];
    assert_eq!(check_arguments(&m, &args), Err(AgentError::MissingArgument { index: 1 }));
    let args = vec![TypedValue::U32(1), TypedValue::U32(2), TypedValue::Str("x".to_string())];
    assert_eq!(check_arguments(&m, &args), Err(AgentError::ArgumentMismatch { index: 2 }));
    let args = vec![TypedValue::U32(1), TypedValue::U32(2), TypedValue::U32(3)];
    assert_eq!(check_arguments(&m, &args), Ok(()));
}

#[test]
fn arguments_beyond_the_declared_ones_are_ignored() {
    let agent = Weather::new();
    let status = call(
        &agent,
        "ping",
        vec![TypedValue::U32(1), TypedValue::Bool(false)],
    );
    assert_eq!(status, StatusUpdate::Emit(TypedValue::Tuple(vec![])));
    let m = method("m", vec![TypeDescriptor::U32]);
    assert_eq!(check_arguments(&m, &vec![TypedValue::U32(1), TypedValue::Bool(false)]), Ok(()));
}

#[test]
fn an_error_of_the_implementation_is_reported() {
    let agent = Weather::new();
    let status = call(&agent, "failing", vec![]);
    assert_eq!(status, StatusUpdate::Error(AgentError::MissingArgument { index: 99 }));
}

#[test]
fn the_first_method_of_a_name_is_the_one_called() {
    let t = weather_type();
    assert_eq!(find_method(&t, "get-weather"), Some(0));
    assert_eq!(find_method(&t, "add"), Some(1));
    assert_eq!(find_method(&t, "failing"), Some(3));
    assert_eq!(find_method(&t, "nope"), None);
    assert_eq!(resolve_call(&t, "get-weather", &paris()), Ok(0));
    assert_eq!(
        resolve_call(&t, "get-weather", &vec![TypedValue::Bool(true)]),
        Err(AgentError::ArgumentMismatch { index: 0 })
    );
    assert_eq!(
        resolve_call(&t, "nope", &vec![]),
        Err(AgentError::MethodNotFound {
            method_name: "nope".to_string(),
            agent_type: "weather-agent".to_string(),
        })
    );
}

#[test]
fn status_of_wraps_values_and_errors() {
    assert_eq!(status_of(Ok(TypedValue::U8(1))), StatusUpdate::Emit(TypedValue::U8(1)));
    assert_eq!(
        status_of(Err(AgentError::MissingArgument { index: 3 })),
        StatusUpdate::Error(AgentError::MissingArgument { index: 3 })
    );
}

#[test]
fn status_updates_are_matched_with_a_catch_all() {
    let status = status_of(Ok(TypedValue::Bool(true)));
    let text = match status {
        StatusUpdate::Emit(_) => "emit",
        StatusUpdate::Error(_) => "error",
        _ => "later addition",
    };
    assert_eq!(text, "emit");
}
