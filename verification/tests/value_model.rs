use headless_cli::json::to_json;
use headless_cli::value::HashMapValue;

fn text(s: &str) -> HashMapValue {
    HashMapValue::String(String::from(s))
}

#[test]
fn mapping_round_trip_is_untagged() {
    let v = HashMapValue::Dict(vec![
        (String::from("address"), text("H1...")),
        (String::from("value"), HashMapValue::Int(10)),
        (String::from("create_mint"), HashMapValue::Bool(true)),
    ]);
    assert_eq!(
        to_json(&v),
        "{\"address\":\"H1...\",\"value\":10,\"create_mint\":true}"
    );
}

#[test]
fn integers_render_as_plain_numbers() {
    assert_eq!(to_json(&HashMapValue::Int(0)), "0");
    assert_eq!(to_json(&HashMapValue::Int(7)), "7");
    assert_eq!(to_json(&HashMapValue::Int(4294967295)), "4294967295");
}

#[test]
fn booleans_render_bare() {
    assert_eq!(to_json(&HashMapValue::Bool(true)), "true");
    assert_eq!(to_json(&HashMapValue::Bool(false)), "false");
}

#[test]
fn strings_are_quoted_and_escaped() {
    assert_eq!(to_json(&text("plain")), "\"plain\"");
    assert_eq!(to_json(&text("say \"hi\"")), "\"say \\\"hi\\\"\"");
    assert_eq!(to_json(&text("a\\b")), "\"a\\\\b\"");
    assert_eq!(to_json(&text("line\nbreak")), "\"line\\nbreak\"");
    assert_eq!(to_json(&text("tab\there")), "\"tab\\there\"");
    assert_eq!(to_json(&text("cr\rlf")), "\"cr\\rlf\"");
    assert_eq!(to_json(&text("\u{1}")), "\"\\u0001\"");
    assert_eq!(to_json(&text("\u{1f}")), "\"\\u001f\"");
    assert_eq!(to_json(&text("caf\u{e9}")), "\"caf\u{e9}\"");
}

#[test]
fn lists_render_as_arrays() {
    assert_eq!(to_json(&HashMapValue::List(vec![])), "[]");
    let v = HashMapValue::List(vec![
        HashMapValue::Int(1),
        text("two"),
        HashMapValue::Bool(false),
    ]);
    assert_eq!(to_json(&v), "[1,\"two\",false]");
}

#[test]
fn nested_values_render_recursively() {
    let inner = HashMapValue::Dict(vec![
        (String::from("address"), text("H2")),
        (String::from("value"), HashMapValue::Int(5)),
    ]);
    let v = HashMapValue::Dict(vec![(
        String::from("outputs"),
        HashMapValue::List(vec![inner]),
    )]);
    assert_eq!(to_json(&v), "{\"outputs\":[{\"address\":\"H2\",\"value\":5}]}");
}

#[test]
fn empty_mapping_renders_as_empty_object() {
    assert_eq!(to_json(&HashMapValue::Dict(vec![])), "{}");
}

#[test]
fn conversions_pick_the_matching_variant() {
    assert_eq!(to_json(&HashMapValue::from(String::from("x"))), "\"x\"");
    assert_eq!(to_json(&HashMapValue::from(3u32)), "3");
    assert_eq!(to_json(&HashMapValue::from(true)), "true");
    let l: Vec<HashMapValue> = vec![HashMapValue::from(1u32)];
    assert_eq!(to_json(&HashMapValue::from(l)), "[1]");
    let d: Vec<(String, HashMapValue)> = vec![(String::from("k"), HashMapValue::from(2u32))];
    assert_eq!(to_json(&HashMapValue::from(d)), "{\"k\":2}");
}
