use golem_agentic::metadata::{
    agent_trait_marker, constructor_metadata_file, declared_constructor_file,
    decode_constructor_metadata, encode_constructor_metadata, parse_failure,
    serialization_failure,
};

fn pairs(list: &[(&str, &str)]) -> Vec<(String, String)> {
    list.iter().map(|(a, b)| (a.to_string(), b.to_string())).collect()
}

#[test]
fn metadata_is_written_as_a_json_list_of_pairs() {
    let fields = pairs(&[("city", "String"), ("days", "u64")]);
    assert_eq!(
        encode_constructor_metadata(&fields),
        Ok(r#"[["city","String"],["days","u64"]]"#.to_string())
    );
    assert_eq!(encode_constructor_metadata(&vec![]), Ok("[]".to_string()));
}

#[test]
fn metadata_text_is_escaped() {
    let fields = pairs(&[("quo\"te", "Vec < \\ >")]);
    assert_eq!(
        encode_constructor_metadata(&fields),
        Ok(r#"[["quo\"te","Vec < \\ >"]]"#.to_string())
    );
}

#[test]
fn metadata_is_read_back_as_written() {
    for fields in [
        pairs(&[]),
        pairs(&[("city", "String")]),
        pairs(&[("a", "std :: vec :: Vec < T >"), ("ünï", "Option < \"x\" >"), ("", "")]),
    ] {
        let json = encode_constructor_metadata(&fields).unwrap();
        assert_eq!(decode_constructor_metadata(&json), Ok(fields));
    }
}

#[test]
fn metadata_is_read_from_json_with_whitespace() {
    let json = " [ [ \"city\" , \"String\" ] ,\n [\"days\", \"u64\"] ] ";
    assert_eq!(
        decode_constructor_metadata(json),
        Ok(pairs(&[("city", "String"), ("days", "u64")]))
    );
}

#[test]
fn malformed_metadata_is_refused_with_a_reason() {
    for json in ["", "{", "[[\"a\"]]", "[[\"a\",1]]", "{\"a\":\"b\"}", "[[\"a\",\"b\"]] x"] {
        let message = decode_constructor_metadata(json).unwrap_err();
        assert!(
            message.starts_with("Failed to parse constructor metadata JSON: "),
            "{}",
            message
        );
        assert!(message.len() > "Failed to parse constructor metadata JSON: ".len());
    }
}

#[test]
fn failure_messages_carry_the_reason() {
    assert_eq!(
        parse_failure("expected value at line 1 column 1"),
        "Failed to parse constructor metadata JSON: expected value at line 1 column 1"
    );
    assert_eq!(serialization_failure("why"), "Failed to serialize constructor fields: why");
}

#[test]
fn metadata_files_are_named_after_the_struct() {
    assert_eq!(
        constructor_metadata_file("WeatherAgentImpl"),
        "golem-agentic/constructors/WeatherAgentImpl.json"
    );
    assert_eq!(
        declared_constructor_file("WeatherAgent"),
        "golem-agentic/constructors/WeatherAgentImpl.json"
    );
    assert_eq!(
        declared_constructor_file("WeatherAgent"),
        constructor_metadata_file("WeatherAgentImpl")
    );
    assert_eq!(agent_trait_marker("WeatherAgent"), "golem-agentic/agent-traits/WeatherAgent.trait");
}
