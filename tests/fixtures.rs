use grader_orchestration::fixtures::{
    cache_file_name, cache_key, fixture_to_json, fixtures_url, hidden_tests_url, parse_fixtures, parse_single_fixture,
    FixtureError, TestFixture,
};
use grader_orchestration::json::{JsonNumber, JsonValue};

fn member(k: &str, v: JsonValue) -> (String, JsonValue) {
    (k.to_string(), v)
}

fn text(s: &str) -> JsonValue {
    JsonValue::Text(s.to_string())
}

fn uint(n: u64) -> JsonValue {
    JsonValue::Number(JsonNumber::PosInt(n))
}

#[test]
fn test_fixture_parsing() {
    let fixture_data = JsonValue::Array(vec![JsonValue::Object(vec![
        member("id", text("test-1")),
        member("name", text("Simple Test")),
        member("description", text("A simple test case")),
        member("input", JsonValue::Object(vec![member("value", uint(42))])),
        member("expected_output", JsonValue::Object(vec![member("result", uint(84))])),
        member("hidden", JsonValue::Bool(false)),
        member("timeout", uint(30)),
        member("gas_limit", uint(1000000)),
    ])]);
    let fixtures = parse_fixtures(fixture_data).ok().unwrap();
    assert_eq!(fixtures.len(), 1);
    assert_eq!(fixtures[0].id, "test-1");
    assert_eq!(fixtures[0].name, "Simple Test");
    assert!(!fixtures[0].hidden);
}

#[test]
fn missing_fields_take_defaults() {
    let f = parse_single_fixture(JsonValue::Object(vec![
        member("id", text("t")),
        member("timeout", JsonValue::Number(JsonNumber::NegInt(-4))),
        member("hidden", text("yes")),
        member("extra", uint(1)),
    ]))
    .ok()
    .unwrap();
    assert_eq!(f.id, "t");
    assert_eq!(f.name, "Unnamed test");
    assert_eq!(f.description, "");
    assert!(matches!(f.input, JsonValue::Null));
    assert!(matches!(f.expected_output, JsonValue::Null));
    assert!(!f.hidden);
    assert_eq!(f.timeout, 30);
    assert_eq!(f.gas_limit, 1_000_000);
}

#[test]
fn fixture_without_id_is_refused() {
    assert!(matches!(
        parse_single_fixture(JsonValue::Object(vec![member("name", text("n"))])),
        Err(FixtureError::MissingId)
    ));
    assert!(matches!(
        parse_single_fixture(JsonValue::Object(vec![member("id", uint(3))])),
        Err(FixtureError::MissingId)
    ));
    let data = JsonValue::Array(vec![
        JsonValue::Object(vec![member("id", text("a"))]),
        JsonValue::Object(vec![]),
    ]);
    assert!(matches!(parse_fixtures(data), Err(FixtureError::MissingId)));
}

#[test]
fn fixtures_must_be_an_array() {
    assert!(matches!(parse_fixtures(JsonValue::Object(vec![])), Err(FixtureError::NotAnArray)));
    assert!(matches!(parse_fixtures(JsonValue::Array(vec![])), Ok(v) if v.is_empty()));
}

#[test]
fn cache_record_round_trip() {
    let f = TestFixture {
        id: "t-9".to_string(),
        name: "Edge".to_string(),
        description: "d".to_string(),
        input: JsonValue::Array(vec![uint(1), text("x")]),
        expected_output: JsonValue::Bool(true),
        hidden: true,
        timeout: 7,
        gas_limit: 12,
    };
    let g = parse_single_fixture(fixture_to_json(f)).ok().unwrap();
    assert_eq!(g.id, "t-9");
    assert_eq!(g.name, "Edge");
    assert_eq!(g.description, "d");
    assert!(matches!(&g.input, JsonValue::Array(a) if a.len() == 2));
    assert!(matches!(g.expected_output, JsonValue::Bool(true)));
    assert!(g.hidden);
    assert_eq!(g.timeout, 7);
    assert_eq!(g.gas_limit, 12);
}

#[test]
fn fixture_addresses_and_cache_names() {
    assert_eq!(fixtures_url("http://h/api", "c7"), "http://h/api/challenges/c7/fixtures");
    assert_eq!(hidden_tests_url("http://h/api", "c7"), "http://h/api/challenges/c7/hidden-tests");
    assert_eq!(cache_key("c7"), "fixtures_c7");
    assert_eq!(cache_file_name("c7"), "fixtures_c7.json");
}

#[test]
fn empty_id_is_refused_and_zero_timeout_takes_default() {
    assert!(matches!(
        parse_single_fixture(JsonValue::Object(vec![member("id", text(""))])),
        Err(FixtureError::MissingId)
    ));
    let f = parse_single_fixture(JsonValue::Object(vec![member("id", text("a")), member("timeout", uint(0))]))
        .ok()
        .unwrap();
    assert_eq!(f.timeout, 30);
}
