use golem_agentic::naming::{push_kebab_piece, to_ascii_lower, to_kebab_case};

#[test]
fn kebab_case_of_type_names() {
    assert_eq!(to_kebab_case("WeatherAgent"), "weather-agent");
    assert_eq!(to_kebab_case("Weather"), "weather");
    assert_eq!(to_kebab_case("HTTPAgent"), "h-t-t-p-agent");
}

#[test]
fn kebab_case_of_method_names() {
    assert_eq!(to_kebab_case("get_weather"), "get-weather");
    assert_eq!(to_kebab_case("get_weather_forecast"), "get-weather-forecast");
    assert_eq!(to_kebab_case("getWeather"), "get-weather");
}

#[test]
fn kebab_case_edge_cases() {
    assert_eq!(to_kebab_case(""), "");
    assert_eq!(to_kebab_case("a"), "a");
    assert_eq!(to_kebab_case("A"), "a");
    assert_eq!(to_kebab_case("_"), "-");
    assert_eq!(to_kebab_case("A_B"), "a--b");
    assert_eq!(to_kebab_case("already-kebab"), "already-kebab");
    assert_eq!(to_kebab_case("agent2Go"), "agent2-go");
}

#[test]
fn kebab_case_lowers_only_ascii_capitals() {
    assert_eq!(to_kebab_case("aÉb"), "a-Éb");
    assert_eq!(to_kebab_case("Éa"), "Éa");
}

#[test]
fn kebab_case_is_stable_on_its_own_output() {
    for name in ["WeatherAgent", "get_weather", "StockPriceAgent"] {
        let once = to_kebab_case(name);
        assert_eq!(to_kebab_case(&once), once);
    }
}

#[test]
fn ascii_lower_maps_capitals_only() {
    assert_eq!(to_ascii_lower('A'), 'a');
    assert_eq!(to_ascii_lower('Z'), 'z');
    assert_eq!(to_ascii_lower('a'), 'a');
    assert_eq!(to_ascii_lower('@'), '@');
    assert_eq!(to_ascii_lower('['), '[');
    assert_eq!(to_ascii_lower('É'), 'É');
}

#[test]
fn kebab_piece_by_case() {
    let mut out = String::from("x");
    push_kebab_piece(&mut out, '_', false, false);
    assert_eq!(out, "x-");
    push_kebab_piece(&mut out, 'B', false, true);
    assert_eq!(out, "x--b");
    push_kebab_piece(&mut out, 'c', false, false);
    assert_eq!(out, "x--bc");
    let mut first = String::new();
    push_kebab_piece(&mut first, 'W', true, true);
    assert_eq!(first, "w");
}
