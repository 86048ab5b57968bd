//! The tool surface: dispatch, schema validation, the four tools, the
//! registry, and tenant isolation between callers.

use umem::auth::AuthenticatedContext;
use umem::memory::{Memory, MemoryController, UpstreamError};
use umem::service::{
    lookup_field, McpService, ToolDefinition, ToolError, ToolOutput, ToolRouter,
};

fn ctx(subject: &str) -> AuthenticatedContext {
    AuthenticatedContext { subject: subject.to_string() }
}

fn args(pairs: &[(&str, &str)]) -> Vec<(String, String)> {
    pairs.iter().map(|(k, v)| (k.to_string(), v.to_string())).collect()
}

fn record_of(out: Result<ToolOutput, ToolError>) -> Memory {
    match out.unwrap() {
        ToolOutput::Record(m) => m,
        other => panic!("expected a record, got {:?}", other),
    }
}

fn records_of(out: Result<ToolOutput, ToolError>) -> Vec<Memory> {
    match out.unwrap() {
        ToolOutput::Records(v) => v,
        other => panic!("expected records, got {:?}", other),
    }
}

#[test]
fn add_memory_rejects_empty_text() {
    let mut s = McpService::new();
    let r = s.dispatch("add_memory", &args(&[("text", "")]), &ctx("tenant-a"));
    assert!(matches!(r, Err(ToolError::InvalidInput(_))));
}

#[test]
fn add_memory_missing_text_is_invalid_input() {
    let mut s = McpService::new();
    let r = s.dispatch("add_memory", &args(&[]), &ctx("tenant-a"));
    assert!(matches!(r, Err(ToolError::InvalidInput(_))));
}

#[test]
fn add_memory_persists_content_under_caller_tenant() {
    let mut s = McpService::new();
    let r = s.dispatch("add_memory", &args(&[("text", "hello")]), &ctx("tenant-a"));
    let m = record_of(r);
    assert_eq!(m.content, "hello");
    assert_eq!(m.user_id, "tenant-a");
    assert!(!m.memory_id.is_empty());
}

#[test]
fn update_then_get_returns_new_content() {
    let mut s = McpService::new();
    let caller = ctx("tenant-a");
    let added = record_of(s.dispatch("add_memory", &args(&[("text", "old words")]), &caller));
    let r = s.dispatch(
        "update_memory",
        &args(&[("memory_id", &added.memory_id), ("content", "new")]),
        &caller,
    );
    assert!(matches!(r, Ok(ToolOutput::Done)));
    let records = records_of(s.dispatch("get_memory", &args(&[]), &caller));
    assert!(records
        .iter()
        .any(|m| m.memory_id == added.memory_id && m.content == "new"));
    assert!(!records.iter().any(|m| m.content == "old words"));
}

#[test]
fn unknown_tool_is_structured_error() {
    let mut s = McpService::new();
    let r = s.dispatch("unknown_tool", &args(&[]), &ctx("tenant-a"));
    assert_eq!(r.unwrap_err(), ToolError::ToolNotFound);
}

#[test]
fn update_missing_fields_is_invalid_input() {
    let mut s = McpService::new();
    let caller = ctx("tenant-a");
    let r = s.dispatch("update_memory", &args(&[("memory_id", "1")]), &caller);
    assert!(matches!(r, Err(ToolError::InvalidInput(_))));
    let r = s.dispatch("update_memory", &args(&[("content", "x")]), &caller);
    assert!(matches!(r, Err(ToolError::InvalidInput(_))));
}

#[test]
fn update_of_absent_record_is_upstream_not_found() {
    let mut s = McpService::new();
    let r = s.dispatch(
        "update_memory",
        &args(&[("memory_id", "12345"), ("content", "x")]),
        &ctx("tenant-a"),
    );
    assert_eq!(r.unwrap_err(), ToolError::Upstream(UpstreamError::NotFound));
}

#[test]
fn tenants_never_observe_each_others_records() {
    let mut s = McpService::new();
    let alice = ctx("tenant-alice");
    let bob = ctx("tenant-bob");
    let a1 = record_of(s.dispatch("add_memory", &args(&[("text", "alpha note")]), &alice));
    record_of(s.dispatch("add_memory", &args(&[("text", "bravo note")]), &bob));
    record_of(s.dispatch("add_memory", &args(&[("text", "alpha second")]), &alice));

    let alice_records = records_of(s.dispatch("get_memory", &args(&[]), &alice));
    assert_eq!(alice_records.len(), 2);
    assert!(alice_records.iter().all(|m| m.user_id == "tenant-alice"));

    let bob_records = records_of(s.dispatch("get_memory", &args(&[]), &bob));
    assert_eq!(bob_records.len(), 1);
    assert!(bob_records.iter().all(|m| m.user_id == "tenant-bob"));

    let searched = records_of(s.dispatch(
        "get_memory_by_query",
        &args(&[("query", "note")]),
        &bob,
    ));
    assert_eq!(searched.len(), 1);
    assert_eq!(searched[0].content, "bravo note");

    let r = s.dispatch(
        "update_memory",
        &args(&[("memory_id", &a1.memory_id), ("content", "stolen")]),
        &bob,
    );
    assert_eq!(r.unwrap_err(), ToolError::Upstream(UpstreamError::NotFound));
    let alice_after = records_of(s.dispatch("get_memory", &args(&[]), &alice));
    assert!(alice_after.iter().any(|m| m.content == "alpha note"));
    assert!(!alice_after.iter().any(|m| m.content == "stolen"));
}

#[test]
fn query_filters_by_substring_in_order() {
    let mut s = McpService::new();
    let caller = ctx("tenant-a");
    record_of(s.dispatch("add_memory", &args(&[("text", "likes coffee")]), &caller));
    record_of(s.dispatch("add_memory", &args(&[("text", "prefers tea")]), &caller));
    record_of(s.dispatch("add_memory", &args(&[("text", "coffee at nine")]), &caller));
    let found = records_of(s.dispatch(
        "get_memory_by_query",
        &args(&[("query", "coffee")]),
        &caller,
    ));
    assert_eq!(found.len(), 2);
    assert_eq!(found[0].content, "likes coffee");
    assert_eq!(found[1].content, "coffee at nine");
}

#[test]
fn empty_query_is_invalid_input() {
    let mut s = McpService::new();
    let r = s.dispatch("get_memory_by_query", &args(&[("query", "")]), &ctx("t"));
    assert!(matches!(r, Err(ToolError::InvalidInput(_))));
}

#[test]
fn assigned_identifiers_are_unique() {
    let mut s = McpService::new();
    let caller = ctx("tenant-a");
    let mut ids = Vec::new();
    for i in 0..12 {
        let m = record_of(s.dispatch(
            "add_memory",
            &args(&[("text", &format!("note {}", i))]),
            &caller,
        ));
        assert!(!ids.contains(&m.memory_id));
        ids.push(m.memory_id);
    }
}

#[test]
fn registry_lists_the_four_tools() {
    let s = McpService::new();
    let names: Vec<String> = s.router.list().iter().map(|t| t.name.clone()).collect();
    assert_eq!(
        names,
        ["add_memory", "get_memory", "get_memory_by_query", "update_memory"]
    );
}

#[test]
fn duplicate_registration_is_refused() {
    let mut router = ToolRouter::new();
    let tool = ToolDefinition {
        name: "echo".to_string(),
        description: "Echo.".to_string(),
        required_fields: vec!["text".to_string()],
    };
    assert!(router.register(tool.clone()).is_ok());
    assert!(router.register(tool).is_err());
    assert_eq!(router.list().len(), 1);
}

#[test]
fn find_locates_registered_tools() {
    let s = McpService::new();
    assert_eq!(s.router.find("get_memory"), Some(1));
    assert_eq!(s.router.find("nope"), None);
}

#[test]
fn get_info_reports_capabilities() {
    let s = McpService::new();
    let info = s.get_info();
    assert_eq!(
        info.instructions,
        "An external Memory Persistence Layer for LLM and AI Agents"
    );
    assert!(info.prompts_enabled);
    assert!(info.resources_enabled);
    assert!(info.tools_enabled);
}

#[test]
fn lookup_field_finds_first_value() {
    let a = args(&[("k", "v1"), ("k", "v2"), ("other", "x")]);
    assert_eq!(lookup_field(&a, "k"), Some(&"v1".to_string()));
    assert_eq!(lookup_field(&a, "missing"), None);
}

#[test]
fn controller_delete_removes_only_owned_record() {
    let mut c = MemoryController::new();
    let m = c.add_memory("t1".to_string(), "keep me".to_string()).unwrap();
    assert_eq!(
        c.delete_memory("t2", &m.memory_id),
        Err(UpstreamError::NotFound)
    );
    assert_eq!(c.delete_memory("t1", &m.memory_id), Ok(()));
    assert!(c.get_memories_by_user_id("t1").is_empty());
}

#[test]
fn controller_rejects_empty_content() {
    let mut c = MemoryController::new();
    assert_eq!(
        c.add_memory("t1".to_string(), String::new()),
        Err(UpstreamError::InvalidArgument)
    );
}

#[test]
fn controller_bulk_add_appends_all_or_nothing() {
    let mut c = MemoryController::new();
    assert_eq!(c.add_memory_bulk(Vec::new()), Err(UpstreamError::InvalidArgument));
    let batch = vec![
        Memory { memory_id: String::new(), user_id: "t1".to_string(), content: "one".to_string() },
        Memory { memory_id: String::new(), user_id: "t2".to_string(), content: String::new() },
    ];
    assert_eq!(c.add_memory_bulk(batch), Err(UpstreamError::InvalidArgument));
    assert!(c.get_memories_by_user_id("t1").is_empty());
    let batch = vec![
        Memory { memory_id: String::new(), user_id: "t1".to_string(), content: "one".to_string() },
        Memory { memory_id: String::new(), user_id: "t1".to_string(), content: "two".to_string() },
    ];
    assert_eq!(c.add_memory_bulk(batch), Ok(()));
    let stored = c.get_memories_by_user_id("t1");
    assert_eq!(stored.len(), 2);
    assert_eq!(stored[0].content, "one");
    assert_eq!(stored[1].content, "two");
}
