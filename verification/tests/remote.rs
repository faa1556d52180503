use golem_agentic::remote::{
    decode_emitted, emitted_value, first_of_response, handle_of_agent_record,
    remote_constructor_name, remote_method_name, worker_name_of_uri, worker_of_handle,
    RemoteError, EMIT_CASE,
};
use golem_agentic::agent_registry::AgentRef;
use golem_agentic::descriptor::{conforms, TypeDescriptor};
use golem_agentic::type_mapping::{ConversionError, FromValue, ToValue, ToWitType};
use golem_agentic::value::TypedValue;

fn text(s: &str) -> TypedValue {
    TypedValue::Str(s.to_string())
}

fn status(case_idx: u32, value: Option<TypedValue>) -> TypedValue {
    TypedValue::Variant { case_idx, case_value: value.map(Box::new) }
}

fn response(answer: TypedValue) -> TypedValue {
    TypedValue::Tuple(vec![answer, TypedValue::Bool(true)])
}

fn agent_record(agent_id: TypedValue, handle: TypedValue) -> TypedValue {
    TypedValue::Record(vec![
        ("agent-id".to_string(), agent_id),
        ("agent-name".to_string(), text("weather-agent")),
        ("agent-handle".to_string(), handle),
    ])
}

#[test]
fn remote_names_follow_the_interface() {
    assert_eq!(
        remote_method_name("weather-agent", "get-weather"),
        "golem:simulated-agentic/simulated-agent.{[method]weather-agent.get-weather}"
    );
    assert_eq!(
        remote_constructor_name("weather-agent"),
        "golem:simulated-agentic/simulated-agent.{weather-agent.new}"
    );
}

#[test]
fn the_emitted_value_is_decoded() {
    assert_eq!(EMIT_CASE, 2);
    let r = response(status(2, Some(text("sunny"))));
    assert_eq!(decode_emitted::<String>(r), Ok("sunny".to_string()));
    let list = TypedValue::List(vec![TypedValue::U32(1), TypedValue::U32(2)]);
    let r = response(status(2, Some(list)));
    assert_eq!(decode_emitted::<Vec<u32>>(r), Ok(vec![1, 2]));
}

#[test]
fn only_the_first_item_of_a_response_counts() {
    let r = TypedValue::Tuple(vec![status(2, Some(text("a"))), status(2, Some(text("b")))]);
    assert_eq!(decode_emitted::<String>(r), Ok("a".to_string()));
    assert_eq!(first_of_response(response(text("x"))), Ok(text("x")));
}

#[test]
fn a_response_that_is_no_tuple_is_refused() {
    assert_eq!(decode_emitted::<String>(text("sunny")), Err(RemoteError::NotATuple));
    assert_eq!(
        decode_emitted::<String>(status(2, Some(text("sunny")))),
        Err(RemoteError::NotATuple)
    );
    assert_eq!(decode_emitted::<String>(TypedValue::Tuple(vec![])), Err(RemoteError::EmptyTuple));
    assert_eq!(first_of_response(TypedValue::List(vec![])), Err(RemoteError::NotATuple));
}

#[test]
fn a_status_that_emits_nothing_is_refused() {
    assert_eq!(decode_emitted::<String>(response(text("sunny"))), Err(RemoteError::NotAStatus));
    assert_eq!(
        decode_emitted::<String>(response(status(0, Some(text("failed"))))),
        Err(RemoteError::NotEmitted { case_idx: 0 })
    );
    assert_eq!(
        decode_emitted::<String>(response(status(3, None))),
        Err(RemoteError::NotEmitted { case_idx: 3 })
    );
    assert_eq!(
        decode_emitted::<String>(response(status(2, None))),
        Err(RemoteError::MissingValue)
    );
    assert_eq!(emitted_value(status(2, Some(text("x")))), Ok(text("x")));
    assert_eq!(emitted_value(text("x")), Err(RemoteError::NotAStatus));
}

#[test]
fn an_emitted_value_of_another_type_is_refused() {
    assert_eq!(
        decode_emitted::<u32>(response(status(2, Some(text("sunny"))))),
        Err(RemoteError::Conversion(ConversionError::TagMismatch))
    );
}

#[test]
fn the_worker_name_follows_the_last_slash() {
    assert_eq!(worker_name_of_uri("urn:worker:component-1/worker-7"), "worker-7");
    assert_eq!(worker_name_of_uri("a/b/c"), "c");
    assert_eq!(worker_name_of_uri("no-slash"), "no-slash");
    assert_eq!(worker_name_of_uri("trailing/"), "");
    assert_eq!(worker_name_of_uri(""), "");
    assert_eq!(worker_name_of_uri("/"), "");
    assert_eq!(worker_name_of_uri("ü/ö"), "ö");
}

#[test]
fn the_worker_of_a_handle_is_read_from_its_address() {
    let handle = TypedValue::Handle { resource_id: 3, uri: "urn:worker:c/w1".to_string() };
    assert_eq!(worker_of_handle(&handle), Ok("w1".to_string()));
    assert_eq!(worker_of_handle(&text("urn:worker:c/w1")), Err(RemoteError::NotAHandle));
}

#[test]
fn an_agent_record_gives_the_handle_of_the_agent() {
    let record = agent_record(text("w1--weather-agent--3"), TypedValue::U32(17));
    assert_eq!(
        handle_of_agent_record(&record, "component-1"),
        Ok(TypedValue::Handle { resource_id: 17, uri: "urn:worker:component-1/w1".to_string() })
    );
}

#[test]
fn an_answer_that_is_no_agent_record_is_refused() {
    for answer in [
        text("w1--weather-agent--3"),
        TypedValue::Record(vec![]),
        TypedValue::Record(vec![
            ("a".to_string(), text("w1--weather-agent--3")),
            ("b".to_string(), TypedValue::U32(1)),
        ]),
        agent_record(TypedValue::U32(1), TypedValue::U32(17)),
        agent_record(text("w1--weather-agent--3"), TypedValue::U64(17)),
    ] {
        assert_eq!(
            handle_of_agent_record(&answer, "component-1"),
            Err(RemoteError::NotAnAgentRecord)
        );
    }
}

#[test]
fn an_agent_record_with_a_malformed_id_is_refused() {
    let record = agent_record(text("w1-weather-agent-3"), TypedValue::U32(17));
    assert_eq!(
        handle_of_agent_record(&record, "component-1"),
        Err(RemoteError::InvalidAgentId { agent_id: "w1-weather-agent-3".to_string() })
    );
}

fn sample_ref() -> AgentRef {
    AgentRef {
        agent_id: "w1--weather-agent--3".to_string(),
        agent_name: "weather-agent".to_string(),
        agent_handle: 17,
    }
}

#[test]
fn an_agent_reference_is_a_record_of_three_fields() {
    assert_eq!(
        sample_ref().to_value(),
        TypedValue::Record(vec![
            ("agent-id".to_string(), text("w1--weather-agent--3")),
            ("agent-name".to_string(), text("weather-agent")),
            ("agent-handle".to_string(), TypedValue::U32(17)),
        ])
    );
    assert_eq!(
        AgentRef::get_wit_type(),
        TypeDescriptor::Record(vec![
            ("agent-id".to_string(), TypeDescriptor::Str),
            ("agent-name".to_string(), TypeDescriptor::Str),
            ("agent-handle".to_string(), TypeDescriptor::U32),
        ])
    );
    assert!(conforms(&sample_ref().to_value(), &AgentRef::get_wit_type()));
}

#[test]
fn an_agent_reference_round_trips() {
    assert_eq!(AgentRef::from_value(sample_ref().to_value()), Ok(sample_ref()));
    let unnamed = agent_record_without_names();
    assert_eq!(AgentRef::from_value(unnamed), Ok(sample_ref()));
}

fn agent_record_without_names() -> TypedValue {
    TypedValue::Record(vec![
        (String::new(), text("w1--weather-agent--3")),
        (String::new(), text("weather-agent")),
        (String::new(), TypedValue::U32(17)),
    ])
}

#[test]
fn a_malformed_agent_reference_is_refused() {
    assert_eq!(AgentRef::from_value(text("x")), Err(ConversionError::TagMismatch));
    assert_eq!(
        AgentRef::from_value(TypedValue::Record(vec![])),
        Err(ConversionError::FieldCountMismatch { expected: 3, actual: 0 })
    );
    assert_eq!(
        AgentRef::from_value(agent_record(TypedValue::U32(1), TypedValue::U64(17))),
        Err(ConversionError::FieldConversionFailure { field: "agent-id".to_string() })
    );
    assert_eq!(
        AgentRef::from_value(agent_record(text("w--a--1"), TypedValue::U64(17))),
        Err(ConversionError::FieldConversionFailure { field: "agent-handle".to_string() })
    );
    let mut fields = match sample_ref().to_value() {
        TypedValue::Record(fields) => fields,
        _ => unreachable!(),
    };
    fields[1].1 = TypedValue::Bool(true);
    assert_eq!(
        AgentRef::from_value(TypedValue::Record(fields)),
        Err(ConversionError::FieldConversionFailure { field: "agent-name".to_string() })
    );
}
