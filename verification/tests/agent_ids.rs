use golem_agentic::agent::{format_agent_id, parse_agent_id};
use golem_agentic::agent_instance_counter;
use golem_agentic::agent_instance_counter::LatestInstances;
use golem_agentic::agent_instance_registry::{
    create_agent_id, get_agent_instance_count, increment_agent_instance_counter,
    increment_agent_instance_counter_locked, InstanceCounters,
};
use golem_agentic::name_map::NameMap;
use golem_agentic::text::{decimal_string, join_names, starts_with};

#[test]
fn third_instance_id_has_the_documented_form() {
    let mut counters = InstanceCounters::new();
    let first = create_agent_id(&mut counters, "w1", "weather-agent".to_string());
    let second = create_agent_id(&mut counters, "w1", "weather-agent".to_string());
    let third = create_agent_id(&mut counters, "w1", "weather-agent".to_string());
    assert_eq!(first, "w1--weather-agent--1");
    assert_eq!(second, "w1--weather-agent--2");
    assert_eq!(third, "w1--weather-agent--3");
}

#[test]
fn format_agent_id_joins_with_double_hyphens() {
    assert_eq!(format_agent_id("w1", "weather-agent", 3), "w1--weather-agent--3");
    assert_eq!(format_agent_id("", "", 0), "----0");
    assert_eq!(
        format_agent_id("worker", "a", u64::MAX),
        "worker--a--18446744073709551615"
    );
}

#[test]
fn sequential_ids_never_repeat() {
    let mut counters = InstanceCounters::new();
    let mut seen: Vec<String> = Vec::new();
    for _ in 0..50 {
        let id = create_agent_id(&mut counters, "w", "weather-agent".to_string());
        assert!(!seen.contains(&id));
        seen.push(id);
    }
    assert_eq!(get_agent_instance_count(&counters, "weather-agent".to_string()), 50);
}

#[test]
fn counters_are_kept_per_agent_type() {
    let mut counters = InstanceCounters::new();
    assert_eq!(get_agent_instance_count(&counters, "a".to_string()), 0);
    assert_eq!(increment_agent_instance_counter(&mut counters, "a".to_string()), 1);
    assert_eq!(increment_agent_instance_counter(&mut counters, "a".to_string()), 2);
    assert_eq!(increment_agent_instance_counter(&mut counters, "b".to_string()), 1);
    assert_eq!(create_agent_id(&mut counters, "w", "a".to_string()), "w--a--3");
    assert_eq!(create_agent_id(&mut counters, "w", "b".to_string()), "w--b--2");
    assert_eq!(get_agent_instance_count(&counters, "a".to_string()), 3);
    assert_eq!(get_agent_instance_count(&counters, "b".to_string()), 2);
    assert_eq!(get_agent_instance_count(&counters, "c".to_string()), 0);
}

#[test]
fn locked_increment_starts_at_one() {
    let mut counter: NameMap<u64> = NameMap::new();
    let name = "weather-agent".to_string();
    assert_eq!(increment_agent_instance_counter_locked(&mut counter, &name), 1);
    assert_eq!(increment_agent_instance_counter_locked(&mut counter, &name), 2);
    assert_eq!(counter.get("weather-agent"), Some(&2));
    assert_eq!(counter.get("other"), None);
}

#[test]
fn latest_id_is_remembered_per_agent_type() {
    let mut state = LatestInstances::new();
    assert!(!state.has_agent_id("a"));
    agent_instance_counter::create_agent_id(&mut state, "w", "a".to_string());
    assert!(state.has_agent_id("a"));
    assert_eq!(agent_instance_counter::get_agent_id(&state, "a".to_string()), "w--a--1");
    agent_instance_counter::create_agent_id(&mut state, "w", "a".to_string());
    agent_instance_counter::create_agent_id(&mut state, "w", "b".to_string());
    assert_eq!(agent_instance_counter::get_agent_id(&state, "a".to_string()), "w--a--2");
    assert_eq!(agent_instance_counter::get_agent_id(&state, "b".to_string()), "w--b--1");
    assert_eq!(agent_instance_counter::get_agent_instance_count(&state, "a".to_string()), 2);
    assert_eq!(
        agent_instance_counter::increment_agent_instance_counter(&mut state, "a".to_string()),
        3
    );
    assert_eq!(agent_instance_counter::get_agent_id(&state, "a".to_string()), "w--a--2");
    assert_eq!(agent_instance_counter::get_agent_instance_count(&state, "zzz".to_string()), 0);
}

#[test]
fn parse_agent_id_splits_three_parts() {
    let info = parse_agent_id("w1--weather-agent--3").unwrap();
    assert_eq!(info.worker_name, "w1");
    assert_eq!(info.agent_name, "weather-agent");
    assert_eq!(info.instance_number, "3");
}

#[test]
fn parse_agent_id_reads_back_a_formatted_id() {
    let id = format_agent_id("worker-7", "stock-agent", 12);
    let info = parse_agent_id(&id).unwrap();
    assert_eq!(info.worker_name, "worker-7");
    assert_eq!(info.agent_name, "stock-agent");
    assert_eq!(info.instance_number, "12");
}

#[test]
fn parse_agent_id_rejects_fewer_than_three_parts() {
    for id in ["", "w1", "w1--weather-agent", "w1-weather-agent-3", "a-b--c"] {
        let err = parse_agent_id(id).unwrap_err();
        assert_eq!(
            err,
            format!(
                "Invalid agent_id format: {}. Expected format is {}",
                id, "{worker_name}-{agent_name}-{instance_number}"
            )
        );
    }
}

#[test]
fn parse_agent_id_ignores_what_follows_the_third_part() {
    let info = parse_agent_id("w--a--1--extra--more").unwrap();
    assert_eq!(info.worker_name, "w");
    assert_eq!(info.agent_name, "a");
    assert_eq!(info.instance_number, "1");
}

#[test]
fn parse_agent_id_allows_empty_parts() {
    let info = parse_agent_id("----").unwrap();
    assert_eq!(info.worker_name, "");
    assert_eq!(info.agent_name, "");
    assert_eq!(info.instance_number, "");
    let info = parse_agent_id("w--a--").unwrap();
    assert_eq!(info.instance_number, "");
}

#[test]
fn parse_agent_id_finds_separators_from_the_left() {
    let info = parse_agent_id("a---b--c").unwrap();
    assert_eq!(info.worker_name, "a");
    assert_eq!(info.agent_name, "-b");
    assert_eq!(info.instance_number, "c");
}

#[test]
fn parse_agent_id_handles_non_ascii_text() {
    let info = parse_agent_id("wörker--ägent--7").unwrap();
    assert_eq!(info.worker_name, "wörker");
    assert_eq!(info.agent_name, "ägent");
    assert_eq!(info.instance_number, "7");
}

#[test]
fn decimal_string_renders_without_leading_zeros() {
    assert_eq!(decimal_string(0), "0");
    assert_eq!(decimal_string(7), "7");
    assert_eq!(decimal_string(10), "10");
    assert_eq!(decimal_string(909), "909");
    assert_eq!(decimal_string(1234567890), "1234567890");
    assert_eq!(decimal_string(u64::MAX), "18446744073709551615");
}

#[test]
fn starts_with_compares_prefixes() {
    assert!(starts_with("w--A--1", "w--A"));
    assert!(starts_with("w--A--1", ""));
    assert!(starts_with("w--A--1", "w--A--1"));
    assert!(!starts_with("w--A--1", "w--B"));
    assert!(!starts_with("w--A", "w--A--1"));
    assert!(!starts_with("", "w"));
}

#[test]
fn join_names_separates_with_comma_and_space() {
    assert_eq!(join_names(&vec![]), "");
    assert_eq!(join_names(&vec!["a".to_string()]), "a");
    assert_eq!(join_names(&vec!["a".to_string(), "".to_string(), "c".to_string()]), "a, , c");
}
