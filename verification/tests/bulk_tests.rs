use uiuifree_elastic::bulk::{
    bulk_insert_lines, bulk_insert_lines_for_id, index_action_line, index_action_line_for,
    json_escape, pair_outcomes,
};
use uiuifree_elastic::decode::decode_bulk;
use uiuifree_elastic::error::ElasticError;
use uiuifree_elastic::outcome::TransportOutcome;

fn reply(status: u16, body: &str) -> TransportOutcome {
    TransportOutcome::Reply(status, String::from(body))
}

#[test]
fn escape_leaves_plain_text_alone() {
    assert_eq!(json_escape("bulk name3"), "bulk name3");
}

#[test]
fn escape_leaves_unicode_alone() {
    assert_eq!(json_escape("テストデータ2"), "テストデータ2");
    assert_eq!(
        index_action_line_for("テスト"),
        "{\"index\":{\"_id\":\"テスト\"}}"
    );
}

#[test]
fn empty_batch_frames_no_lines() {
    let lines = bulk_insert_lines(&Vec::new());
    assert!(lines.is_empty());
}

#[test]
fn escape_handles_quotes_and_backslashes() {
    assert_eq!(json_escape("a\"b"), "a\\\"b");
    assert_eq!(json_escape("a\\b"), "a\\\\b");
}

#[test]
fn escape_handles_control_characters() {
    assert_eq!(json_escape("a\nb"), "a\\nb");
    assert_eq!(json_escape("a\tb"), "a\\tb");
    assert_eq!(json_escape("a\rb"), "a\\rb");
    assert_eq!(json_escape("a\u{0008}b"), "a\\bb");
    assert_eq!(json_escape("a\u{000c}b"), "a\\fb");
    assert_eq!(json_escape("a\u{0001}b"), "a\\u0001b");
    assert_eq!(json_escape("a\u{001f}b"), "a\\u001fb");
}

#[test]
fn action_lines_are_well_formed_descriptors() {
    assert_eq!(index_action_line(), "{\"index\":{}}");
    assert_eq!(index_action_line_for("25"), "{\"index\":{\"_id\":\"25\"}}");
    // The identifier is escaped, so the descriptor stays one structured line.
    let line = index_action_line_for("a\"b");
    assert_eq!(line, "{\"index\":{\"_id\":\"a\\\"b\"}}");
    let v: serde_json::Value = serde_json::from_str(&line).unwrap();
    assert_eq!(
        v.get("index").unwrap().get("_id").unwrap().as_str().unwrap(),
        "a\"b"
    );
}

#[test]
fn insert_lines_alternate_descriptor_and_payload_in_order() {
    let sources = vec![
        String::from("{\"name\":\"bulk name3\"}"),
        String::from("{\"name\":\"bulk name4\"}"),
    ];
    let lines = bulk_insert_lines(&sources);
    assert_eq!(lines.len(), 4);
    assert_eq!(lines[0], "{\"index\":{}}");
    assert_eq!(lines[1], "{\"name\":\"bulk name3\"}");
    assert_eq!(lines[2], "{\"index\":{}}");
    assert_eq!(lines[3], "{\"name\":\"bulk name4\"}");
}

#[test]
fn insert_lines_for_id_build_one_two_line_unit() {
    let lines = bulk_insert_lines_for_id("2", String::from("{\"name\":\"x\"}"));
    assert_eq!(lines.len(), 2);
    assert_eq!(lines[0], "{\"index\":{\"_id\":\"2\"}}");
    assert_eq!(lines[1], "{\"name\":\"x\"}");
}

#[test]
fn pairing_requires_equal_lengths() {
    let actions = vec![String::from("a"), String::from("b")];
    let outcomes = vec![1u64];
    assert_eq!(pair_outcomes(actions, outcomes), None);
}

#[test]
fn pairing_is_positional() {
    let actions = vec![String::from("a"), String::from("b"), String::from("c")];
    let outcomes = vec![10u64, 20, 30];
    let pairs = pair_outcomes(actions, outcomes).unwrap();
    assert_eq!(
        pairs,
        vec![
            (String::from("a"), 10u64),
            (String::from("b"), 20u64),
            (String::from("c"), 30u64),
        ]
    );
}

#[test]
fn bulk_envelope_gates_status_and_keeps_value() {
    let r = decode_bulk(reply(500, "overloaded"));
    assert_eq!(r, Err(ElasticError::Status(500, String::from("overloaded"))));
    let r = decode_bulk(TransportOutcome::Failed(String::from("refused")));
    assert_eq!(r, Err(ElasticError::Send(String::from("refused"))));
    let r = decode_bulk(reply(200, "{not json"));
    assert!(matches!(r, Err(ElasticError::JsonParse(_))));
}

#[test]
fn bulk_two_creates_yield_two_successes_in_order() {
    let inputs = vec![String::from("3"), String::from("4")];
    let body = "{\"errors\":false,\"items\":[\
        {\"create\":{\"_id\":\"3\",\"status\":201}},\
        {\"create\":{\"_id\":\"4\",\"status\":201}}]}";
    let envelope = decode_bulk(reply(200, body)).unwrap();

    let v: serde_json::Value = serde_json::from_str(&envelope).unwrap();
    let items = v.get("items").unwrap().as_array().unwrap();
    let outcomes: Vec<(String, u64)> = items
        .iter()
        .map(|item| {
            let c = item.get("create").unwrap();
            (
                c.get("_id").unwrap().as_str().unwrap().to_string(),
                c.get("status").unwrap().as_u64().unwrap(),
            )
        })
        .collect();

    let pairs = pair_outcomes(inputs, outcomes).unwrap();
    assert_eq!(pairs.len(), 2);
    assert_eq!(pairs[0].0, "3");
    assert_eq!(pairs[0].1, (String::from("3"), 201));
    assert_eq!(pairs[1].0, "4");
    assert_eq!(pairs[1].1, (String::from("4"), 201));
}
