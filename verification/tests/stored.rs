use caliber::codes::{ArtifactType, NoteType, OutcomeStatus, TrajectoryStatus, Ttl, TurnRole};
use caliber::error::ErrorCode;
use caliber::stored::{agent_update_document, trajectory_update_document, JsonValue, MessageListParams};

fn text(s: &str) -> JsonValue {
    JsonValue::Text(s.to_string())
}

fn object(entries: Vec<(&str, JsonValue)>) -> JsonValue {
    JsonValue::Object(entries.into_iter().map(|(k, v)| (k.to_string(), v)).collect())
}

fn keys(v: &JsonValue) -> Vec<String> {
    match v {
        JsonValue::Object(entries) => entries.iter().map(|(k, _)| k.clone()).collect(),
        _ => panic!("not an object"),
    }
}

const ID_A: &str = "01234567-89ab-cdef-0123-456789abcdef";
const ID_B: &str = "fedcba98-7654-3210-fedc-ba9876543210";

#[test]
fn get_finds_fields_of_objects_only() {
    let row = object(vec![("name", text("n")), ("count", JsonValue::Integer(3))]);
    assert!(matches!(row.get("name"), Some(JsonValue::Text(s)) if s == "n"));
    assert!(row.get("missing").is_none());
    assert!(text("x").get("name").is_none());
    assert_eq!(row.get("count").and_then(|v| v.as_i64()), Some(3));
    assert_eq!(JsonValue::Integer(-1).as_u64(), None);
    assert_eq!(JsonValue::Integer(u64::MAX as i128).as_i64(), None);
    assert_eq!(JsonValue::Integer(u64::MAX as i128).as_u64(), Some(u64::MAX));
    assert_eq!(JsonValue::Decimal("1.5".to_string()).as_i64(), None);
    assert!(JsonValue::Null.is_null());
    assert_eq!(JsonValue::Bool(true).as_bool(), Some(true));
}

#[test]
fn scalar_fields_read_or_fail_as_internal_errors() {
    let row = object(vec![
        ("name", text("agent")),
        ("flag", JsonValue::Bool(true)),
        ("turn", JsonValue::Integer(4_294_967_297)),
        ("nothing", JsonValue::Null),
        ("id", text(ID_A)),
        ("bad_id", text("not-a-uuid")),
    ]);
    assert_eq!(row.parse_string("name"), Ok("agent".to_string()));
    let e = row.parse_string("flag").unwrap_err();
    assert_eq!(e.code, ErrorCode::InternalError);
    assert_eq!(e.message, "Missing or invalid field: flag");
    assert_eq!(row.parse_optional_string("name"), Some("agent".to_string()));
    assert_eq!(row.parse_optional_string("nothing"), None);
    assert_eq!(row.parse_bool("flag"), Ok(true));
    assert_eq!(row.parse_bool("name").unwrap_err().message, "Missing or invalid field: name");
    // 2^32 + 1 cut to 32 bits is 1.
    assert_eq!(row.parse_i32("turn"), Ok(1));
    assert_eq!(row.parse_optional_uuid("id"), Some(0x0123456789abcdef0123456789abcdef));
    assert_eq!(row.parse_optional_uuid("bad_id"), None);
    assert_eq!(row.parse_optional_uuid("missing"), None);
    assert_eq!(row.parse_uuid("id"), Ok(0x0123456789abcdef0123456789abcdef));
    assert_eq!(row.parse_uuid("bad_id").unwrap_err().message, "Invalid UUID in field: bad_id");
    assert_eq!(row.parse_uuid("flag").unwrap_err().message, "Missing or invalid field: flag");
}

#[test]
fn timestamps_read_as_epoch_millis() {
    let row = object(vec![
        ("at", text("1970-01-01T00:00:01.5+00:00")),
        ("zoned", text("1970-01-01T01:00:00+01:00")),
        ("bad", text("yesterday")),
    ]);
    assert_eq!(row.parse_timestamp("at"), Ok(1500));
    assert_eq!(row.parse_timestamp("zoned"), Ok(0));
    let e = row.parse_timestamp("bad").unwrap_err();
    assert_eq!(e.message, "Invalid timestamp in field: bad");
    assert_eq!(row.parse_timestamp("none").unwrap_err().message, "Missing or invalid field: none");
    assert_eq!(row.parse_optional_timestamp("at"), Some(1500));
    assert_eq!(row.parse_optional_timestamp("bad"), None);
}

#[test]
fn stored_names_read_as_values() {
    let row = object(vec![
        ("status", text("suspended")),
        ("artifact", text("CodePatch")),
        ("note", text("Gotcha")),
        ("role", text("tool")),
        ("ttl", text("duration_1500")),
        ("odd", text("sideways")),
    ]);
    assert_eq!(row.parse_trajectory_status("status"), Ok(TrajectoryStatus::Suspended));
    assert_eq!(row.parse_artifact_type("artifact"), Ok(ArtifactType::CodePatch));
    assert_eq!(row.parse_note_type("note"), Ok(NoteType::Gotcha));
    assert_eq!(row.parse_turn_role("role"), Ok(TurnRole::Tool));
    assert_eq!(row.parse_ttl("ttl"), Ok(Ttl::Duration(1500)));
    assert_eq!(row.parse_trajectory_status("odd").unwrap_err().message, "Invalid trajectory status: sideways");
    assert_eq!(row.parse_artifact_type("odd").unwrap_err().message, "Invalid artifact type: sideways");
    assert_eq!(row.parse_note_type("odd").unwrap_err().message, "Invalid note type: sideways");
    assert_eq!(row.parse_turn_role("odd").unwrap_err().message, "Invalid turn role: sideways");
    assert_eq!(row.parse_ttl("odd").unwrap_err().message, "Invalid TTL: sideways");
    assert_eq!(row.parse_turn_role("gone").unwrap_err().message, "Missing or invalid field: gone");
}

#[test]
fn arrays_read_their_usable_items() {
    let row = object(vec![
        ("bytes", JsonValue::Array(vec![JsonValue::Integer(1), text("x"), JsonValue::Integer(257)])),
        ("ids", JsonValue::Array(vec![text(ID_A), text("nope"), JsonValue::Null, text(ID_B)])),
        ("names", JsonValue::Array(vec![text("a"), JsonValue::Bool(false), text("b")])),
        ("scalar", text("x")),
    ]);
    assert_eq!(row.parse_bytes("bytes"), Ok(vec![1u8, 1u8]));
    assert_eq!(
        row.parse_uuid_array("ids"),
        Ok(vec![0x0123456789abcdef0123456789abcdef, 0xfedcba9876543210fedcba9876543210])
    );
    assert_eq!(row.parse_string_array("names"), Ok(vec!["a".to_string(), "b".to_string()]));
    assert_eq!(row.parse_bytes("scalar").unwrap_err().message, "Missing or invalid field: scalar");
    assert_eq!(row.parse_uuid_array("gone").unwrap_err().code, ErrorCode::InternalError);
}

#[test]
fn content_hash_needs_exactly_32_items() {
    let mut items: Vec<JsonValue> = (0..32).map(|i| JsonValue::Integer(i)).collect();
    items[5] = text("five");
    items[6] = JsonValue::Integer(300);
    let row = object(vec![("hash", JsonValue::Array(items)), ("short", JsonValue::Array(vec![JsonValue::Integer(1)]))]);
    let hash = row.parse_content_hash("hash").unwrap();
    assert_eq!(hash[0], 0);
    assert_eq!(hash[5], 0);
    assert_eq!(hash[6], 44);
    assert_eq!(hash[31], 31);
    assert_eq!(row.parse_content_hash("short").unwrap_err().message, "Invalid hash length in field: short");
    assert_eq!(row.parse_content_hash("gone").unwrap_err().message, "Missing or invalid field: gone");
}

#[test]
fn outcome_reads_with_defaults() {
    let row = object(vec![
        (
            "outcome",
            object(vec![
                ("status", text("partial")),
                ("summary", text("half done")),
                ("produced_artifacts", JsonValue::Array(vec![text(ID_A), text("junk")])),
                ("error", text("timeout")),
            ]),
        ),
        ("bare", object(vec![("status", text("unknown"))])),
        ("none", JsonValue::Null),
    ]);
    let o = row.parse_optional_outcome("outcome").unwrap();
    assert_eq!(o.status, OutcomeStatus::Partial);
    assert_eq!(o.summary, "half done");
    assert_eq!(o.produced_artifacts, vec![0x0123456789abcdef0123456789abcdef]);
    assert!(o.produced_notes.is_empty());
    assert_eq!(o.error, Some("timeout".to_string()));
    let b = row.parse_optional_outcome("bare").unwrap();
    assert_eq!(b.status, OutcomeStatus::Success);
    assert_eq!(b.summary, "");
    assert_eq!(b.error, None);
    assert!(row.parse_optional_outcome("none").is_none());
    assert!(row.parse_optional_outcome("gone").is_none());
}

#[test]
fn checkpoint_reads_with_defaults() {
    let row = object(vec![
        (
            "cp",
            object(vec![
                ("context_state", JsonValue::Array(vec![JsonValue::Integer(7), JsonValue::Integer(8)])),
                ("recoverable", JsonValue::Bool(true)),
            ]),
        ),
        ("empty", object(vec![])),
        ("none", JsonValue::Null),
    ]);
    let c = row.parse_optional_checkpoint("cp").unwrap();
    assert_eq!(c.context_state, vec![7u8, 8u8]);
    assert!(c.recoverable);
    let e = row.parse_optional_checkpoint("empty").unwrap();
    assert!(e.context_state.is_empty());
    assert!(!e.recoverable);
    assert!(row.parse_optional_checkpoint("none").is_none());
}

#[test]
fn trajectory_update_holds_only_the_changed_fields() {
    let doc = trajectory_update_document(Some("renamed"), None, Some(TrajectoryStatus::Completed), None);
    assert_eq!(keys(&doc), vec!["name".to_string(), "status".to_string()]);
    assert_eq!(doc.parse_string("name"), Ok("renamed".to_string()));
    assert_eq!(doc.parse_trajectory_status("status"), Ok(TrajectoryStatus::Completed));
    assert!(doc.get("description").is_none());
    let doc = trajectory_update_document(None, Some("d"), None, Some(JsonValue::Integer(1)));
    assert_eq!(keys(&doc), vec!["description".to_string(), "metadata".to_string()]);
    assert_eq!(doc.get("metadata").and_then(|v| v.as_i64()), Some(1));
    let empty = trajectory_update_document(None, None, None, None);
    assert!(keys(&empty).is_empty());
}

#[test]
fn agent_update_writes_ids_as_uuid_text() {
    let caps = vec!["search".to_string(), "write".to_string()];
    let doc = agent_update_document(
        Some("busy"),
        Some(0x0123456789abcdef0123456789abcdef),
        None,
        Some(&caps),
        Some(JsonValue::Null),
    );
    assert_eq!(
        keys(&doc),
        vec![
            "status".to_string(),
            "current_trajectory_id".to_string(),
            "capabilities".to_string(),
            "memory_access".to_string()
        ]
    );
    assert_eq!(doc.parse_string("current_trajectory_id"), Ok(ID_A.to_string()));
    assert_eq!(doc.parse_string_array("capabilities"), Ok(caps.clone()));
    assert!(doc.get("memory_access").unwrap().is_null());
    assert!(doc.get("current_scope_id").is_none());
}

#[test]
fn message_filter_document_names_every_parameter() {
    let params = MessageListParams {
        from_agent_id: Some(0x0123456789abcdef0123456789abcdef),
        to_agent_id: None,
        to_agent_type: Some("coder"),
        trajectory_id: None,
        message_type: None,
        priority: Some("high"),
        undelivered_only: true,
        unacknowledged_only: false,
        limit: 50,
        offset: 10,
    };
    let doc = params.filter_document(None);
    assert_eq!(
        keys(&doc),
        vec![
            "from_agent_id", "to_agent_id", "to_agent_type", "trajectory_id", "message_type", "priority",
            "undelivered_only", "unacknowledged_only", "limit", "offset"
        ]
        .into_iter()
        .map(|k| k.to_string())
        .collect::<Vec<_>>()
    );
    assert_eq!(doc.parse_string("from_agent_id"), Ok(ID_A.to_string()));
    assert!(doc.get("to_agent_id").unwrap().is_null());
    assert_eq!(doc.parse_string("to_agent_type"), Ok("coder".to_string()));
    assert_eq!(doc.parse_string("priority"), Ok("high".to_string()));
    assert_eq!(doc.parse_bool("undelivered_only"), Ok(true));
    assert_eq!(doc.parse_bool("unacknowledged_only"), Ok(false));
    assert_eq!(doc.parse_i32("limit"), Ok(50));
    assert_eq!(doc.parse_i32("offset"), Ok(10));
    assert!(doc.get("tenant_id").is_none());
    let scoped = params.filter_document(Some(0xfedcba9876543210fedcba9876543210));
    assert_eq!(scoped.parse_string("tenant_id"), Ok(ID_B.to_string()));
    assert_eq!(keys(&scoped).len(), 11);
}
