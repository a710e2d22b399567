use std::collections::HashMap;

use lance_gateway::domain::BackendKind;
use lance_gateway::ipc::{
    AuthDescriptor, ConnectOptions, ConnectProfile, DataChunk, DisconnectRequestV1, ErrorCode,
    FtsSearchRequestV1, QueryFilterRequestV1, RenameTableRequestV1, ResultEnvelope, ScanRequestV1,
    DataFormat, SchemaDefinition,
};
use lance_gateway::query::QueryKind;
use lance_gateway::registry::ConnectionManager;
use lance_gateway::service::{
    begin_combined_search, begin_fts_search, begin_query_filter, begin_scan, begin_vector_search,
    check_auth, check_rename, disconnect_v1, hybrid_page, json_page, lookup_connection,
    pick_schema, register_connection, register_table, engine_error_code, require_text,
};

fn code<T>(e: &ResultEnvelope<T>) -> Option<ErrorCode> {
    e.error.as_ref().map(|x| x.code)
}

fn registry_with_table() -> (ConnectionManager<u8, u8>, String, String) {
    let mut m = ConnectionManager::new();
    let c = m.insert_connection(1);
    let t = m.insert_table("items".to_string(), 5, c.clone());
    (m, c, t)
}

fn filter_request(table_id: &str, filter: &str) -> QueryFilterRequestV1 {
    QueryFilterRequestV1 { table_id: table_id.to_string(), filter: filter.to_string(), projection: None, limit: None, offset: None }
}

fn value(text: &str) -> serde_json::Value {
    serde_json::from_str(text).unwrap()
}

fn empty_schema() -> SchemaDefinition {
    SchemaDefinition { fields: vec![] }
}

#[test]
fn empty_filter_is_invalid_argument() {
    let (m, _, t) = registry_with_table();
    let r = begin_query_filter(Some(&m), &filter_request(&t, "   "));
    assert_eq!(r.err().and_then(|e| code(&e)), Some(ErrorCode::InvalidArgument));
}

#[test]
fn empty_vector_is_invalid_argument() {
    let (m, _, t) = registry_with_table();
    let r = begin_vector_search(Some(&m), &t, 0, &None, None, None, &None, &None, None, None);
    assert_eq!(r.err().and_then(|e| code(&e)), Some(ErrorCode::InvalidArgument));
}

#[test]
fn unknown_table_is_not_found() {
    let (m, _, _) = registry_with_table();
    let r = begin_query_filter(Some(&m), &filter_request("missing", "id >= 2"));
    assert_eq!(r.err().and_then(|e| code(&e)), Some(ErrorCode::NotFound));
    let scan = ScanRequestV1 { table_id: "missing".to_string(), format: DataFormat::Arrow, projection: None, filter: None, limit: None, offset: None };
    assert_eq!(begin_scan(Some(&m), &scan).err().and_then(|e| code(&e)), Some(ErrorCode::NotFound));
}

#[test]
fn poisoned_registry_is_internal() {
    let r = begin_query_filter::<u8, u8>(None, &filter_request("any", "id >= 2"));
    assert_eq!(r.err().and_then(|e| code(&e)), Some(ErrorCode::Internal));
    let d = disconnect_v1::<u8, u8>(None, DisconnectRequestV1 { connection_id: "any".to_string() });
    assert!(!d.ok);
    assert_eq!(code(&d), Some(ErrorCode::Internal));
    let c = lookup_connection::<u8, u8, ()>(None, "any");
    assert_eq!(c.err().and_then(|e| code(&e)), Some(ErrorCode::Internal));
    let t = register_table::<u8, u8>(None, "t".to_string(), 1, "c".to_string());
    assert_eq!(code(&t), Some(ErrorCode::Internal));
}

#[test]
fn validation_comes_before_the_lock() {
    let r = begin_query_filter::<u8, u8>(None, &filter_request("any", ""));
    assert_eq!(r.err().and_then(|e| code(&e)), Some(ErrorCode::InvalidArgument));
}

#[test]
fn filter_query_plans_look_ahead() {
    let (m, _, t) = registry_with_table();
    let mut req = filter_request(&t, "id >= 2");
    req.limit = Some(2);
    req.offset = Some(4);
    let (table, page) = begin_query_filter(Some(&m), &req).ok().unwrap();
    assert_eq!(table, 5);
    assert_eq!(page.limit, 2);
    assert_eq!(page.offset, 4);
    assert_eq!(page.plan.limit, Some(3));
    assert_eq!(page.plan.offset, Some(4));
    assert_eq!(page.plan.filter.as_deref(), Some("id >= 2"));
    assert!(matches!(page.plan.kind, QueryKind::Scan));
}

#[test]
fn scan_defaults_to_a_hundred_rows() {
    let (m, _, t) = registry_with_table();
    let scan = ScanRequestV1 { table_id: t, format: DataFormat::Json, projection: Some(vec!["id".to_string()]), filter: None, limit: None, offset: None };
    let (_, page) = begin_scan(Some(&m), &scan).ok().unwrap();
    assert_eq!(page.limit, 100);
    assert_eq!(page.offset, 0);
    assert_eq!(page.plan.limit, Some(101));
    assert_eq!(page.plan.projection, Some(vec!["id".to_string()]));
}

#[test]
fn fts_search_checks_text_and_columns() {
    let (m, _, t) = registry_with_table();
    let mut req = FtsSearchRequestV1 { table_id: t.clone(), query: "  ".to_string(), columns: Some(vec![]), limit: None, offset: None, projection: None, filter: None };
    assert_eq!(begin_fts_search(Some(&m), &req).err().and_then(|e| code(&e)), Some(ErrorCode::InvalidArgument));
    req.query = "alpha".to_string();
    let (_, page) = begin_fts_search(Some(&m), &req).ok().unwrap();
    match page.plan.kind {
        QueryKind::FullText { query, columns } => {
            assert_eq!(query, "alpha");
            assert!(columns.is_none());
        }
        _ => panic!("expected full-text query"),
    }
    assert_eq!(page.plan.limit, Some(101));
}

#[test]
fn vector_search_defaults_to_ten() {
    let (m, _, t) = registry_with_table();
    let (_, page) = begin_vector_search(Some(&m), &t, 2, &Some("vector".to_string()), None, Some(3), &None, &None, Some(4), None).ok().unwrap();
    assert_eq!(page.limit, 10);
    assert_eq!(page.offset, 3);
    assert_eq!(page.plan.limit, Some(11));
    match page.plan.kind {
        QueryKind::Vector { column, nprobes, refine_factor } => {
            assert_eq!(column.as_deref(), Some("vector"));
            assert_eq!(nprobes, Some(4));
            assert_eq!(refine_factor, None);
        }
        _ => panic!("expected vector query"),
    }
}

#[test]
fn hybrid_search_needs_vector_or_text() {
    let (m, _, t) = registry_with_table();
    let r = begin_combined_search(Some(&m), &t, 0, &None, &Some("  ".to_string()), &None, &None, &None, None, None, None, None);
    assert_eq!(r.err().and_then(|e| code(&e)), Some(ErrorCode::InvalidArgument));
    let (_, plan) = begin_combined_search(Some(&m), &t, 3, &Some(" ".to_string()), &Some(" alpha ".to_string()), &Some(vec![]), &Some(vec![]), &Some("  ".to_string()), Some(5), Some(10), None, None).ok().unwrap();
    assert_eq!(plan.limit, 5);
    assert_eq!(plan.offset, 10);
    let v = plan.vector.expect("vector query");
    assert_eq!(v.limit, Some(15));
    assert_eq!(v.offset, None);
    assert!(v.filter.is_none());
    assert!(v.projection.is_none());
    match v.kind {
        QueryKind::Vector { column, .. } => assert!(column.is_none()),
        _ => panic!("expected vector query"),
    }
    let f = plan.text.expect("text query");
    match f.kind {
        QueryKind::FullText { query, columns } => {
            assert_eq!(query, "alpha");
            assert!(columns.is_none());
        }
        _ => panic!("expected full-text query"),
    }
}

#[test]
fn hybrid_page_merges_dedups_and_pages() {
    let vector = vec![value("{\"id\":1}"), value("{\"id\":2}"), value("{\"id\":3}")];
    let text = vec![value("{\"id\":2}"), value("{\"id\":4}")];
    let r = hybrid_page(vector, text, empty_schema(), 2, 1);
    match r.chunk {
        DataChunk::Json(c) => {
            assert_eq!(c.rows, vec![value("{\"id\":2}"), value("{\"id\":3}")]);
            assert_eq!(c.offset, 1);
            assert_eq!(c.limit, 2);
        }
        _ => panic!("expected json chunk"),
    }
    assert_eq!(r.next_offset, Some(3));
}

#[test]
fn hybrid_row_in_both_lists_appears_once_at_vector_rank() {
    let vector = vec![value("{\"id\":7}"), value("{\"id\":8}")];
    let text = vec![value("{\"id\":8}"), value("{\"id\":7}"), value("{\"id\":9}")];
    let r = hybrid_page(vector, text, empty_schema(), 10, 0);
    match r.chunk {
        DataChunk::Json(c) => assert_eq!(c.rows, vec![value("{\"id\":7}"), value("{\"id\":8}"), value("{\"id\":9}")]),
        _ => panic!("expected json chunk"),
    }
    assert_eq!(r.next_offset, None);
}

#[test]
fn json_page_cuts_look_ahead_row() {
    let rows = vec![value("1"), value("2"), value("3")];
    let r = json_page(rows, empty_schema(), 2, 0);
    assert_eq!(r.next_offset, Some(2));
    match r.chunk {
        DataChunk::Json(c) => assert_eq!(c.rows.len(), 2),
        _ => panic!("expected json chunk"),
    }
}

#[test]
fn schema_preference_order() {
    let named = |n: &str| SchemaDefinition { fields: vec![lance_gateway::ipc::SchemaField { name: n.to_string(), data_type: "Int32".to_string(), nullable: false, metadata: None }] };
    assert_eq!(pick_schema(Some(named("v")), Some(named("t")), named("f")).fields[0].name, "v");
    assert_eq!(pick_schema(None, Some(named("t")), named("f")).fields[0].name, "t");
    assert_eq!(pick_schema(None, None, named("f")).fields[0].name, "f");
}

fn profile(uri: &str, auth: AuthDescriptor) -> ConnectProfile {
    ConnectProfile { name: "local".to_string(), uri: uri.to_string(), storage_options: HashMap::new(), options: ConnectOptions { read_consistency_interval_seconds: None }, auth }
}

#[test]
fn connect_registers_and_disconnect_cascades() {
    let mut m: ConnectionManager<u8, u8> = ConnectionManager::new();
    let r = register_connection(Some(&mut m), 1, profile("S3://bucket/path", AuthDescriptor::NoCredentials));
    assert!(r.ok);
    let data = r.data.unwrap();
    assert!(matches!(data.backend_kind, BackendKind::S3));
    assert_eq!(data.uri, "S3://bucket/path");
    let t = register_table(Some(&mut m), "items".to_string(), 4, data.connection_id.clone());
    assert_eq!(t.data.as_ref().map(|h| h.name.clone()), Some("items".to_string()));
    let d = disconnect_v1(Some(&mut m), DisconnectRequestV1 { connection_id: data.connection_id.clone() });
    assert_eq!(d.data.map(|x| x.released_tables), Some(1));
    assert_eq!(m.get_table(&t.data.unwrap().table_id), None);
    let again = disconnect_v1(Some(&mut m), DisconnectRequestV1 { connection_id: data.connection_id });
    assert_eq!(code(&again), Some(ErrorCode::NotFound));
}

#[test]
fn secret_reference_is_not_implemented() {
    let secret = AuthDescriptor::SecretRef { provider: "vault".to_string(), reference: "db".to_string() };
    assert_eq!(check_auth::<()>(&secret).err().and_then(|e| code(&e)), Some(ErrorCode::NotImplemented));
    assert!(check_auth::<()>(&AuthDescriptor::NoCredentials).is_ok());
    let inline = AuthDescriptor::Inline { provider: "aws".to_string(), params: HashMap::new() };
    assert!(check_auth::<()>(&inline).is_ok());
}

fn rename(from: &str, to: &str) -> RenameTableRequestV1 {
    RenameTableRequestV1 { connection_id: "c".to_string(), table_name: from.to_string(), new_table_name: to.to_string(), namespace: None, new_namespace: None }
}

#[test]
fn rename_checks_names() {
    assert_eq!(check_rename(&rename(" ", "b")).err().and_then(|e| code(&e)), Some(ErrorCode::InvalidArgument));
    assert_eq!(check_rename(&rename("a", "")).err().and_then(|e| code(&e)), Some(ErrorCode::InvalidArgument));
    assert_eq!(check_rename(&rename(" a", "a ")).err().and_then(|e| code(&e)), Some(ErrorCode::InvalidArgument));
    assert_eq!(check_rename(&rename(" a ", "b")).ok(), Some(("a".to_string(), "b".to_string())));
}

#[test]
fn rename_errors_map_to_codes() {
    assert_eq!(engine_error_code("rename across namespaces is Not Supported"), ErrorCode::NotImplemented);
    assert_eq!(engine_error_code("io failure"), ErrorCode::Internal);
}

#[test]
fn required_text_is_trimmed() {
    assert_eq!(require_text::<()>("  path ", "path cannot be empty").ok(), Some("path".to_string()));
    let e = require_text::<()>("\t", "path cannot be empty").err().unwrap();
    assert_eq!(code(&e), Some(ErrorCode::InvalidArgument));
    assert_eq!(e.error.unwrap().message, "path cannot be empty");
}

#[test]
fn envelopes_carry_data_or_error() {
    let ok = ResultEnvelope::ok(3u8);
    assert!(ok.ok);
    assert_eq!(ok.data, Some(3));
    assert!(ok.error.is_none());
    let err: ResultEnvelope<u8> = ResultEnvelope::err(ErrorCode::NotFound, "table not found");
    assert!(!err.ok);
    assert!(err.data.is_none());
    let e = err.error.unwrap();
    assert_eq!(e.code, ErrorCode::NotFound);
    assert_eq!(e.message, "table not found");
    assert!(e.details.is_none());
}

#[test]
fn planners_clean_the_projection() {
    let (m, _, t) = registry_with_table();
    let scan = ScanRequestV1 {
        table_id: t.clone(),
        format: DataFormat::Json,
        projection: Some(vec![" id ".to_string(), "".to_string(), "text".to_string(), "id".to_string()]),
        filter: None,
        limit: None,
        offset: None,
    };
    let (_, page) = begin_scan(Some(&m), &scan).ok().unwrap();
    assert_eq!(page.plan.projection, Some(vec!["id".to_string(), "text".to_string()]));
    let mut req = filter_request(&t, "id > 0");
    req.projection = Some(vec![" ".to_string()]);
    let (_, page) = begin_query_filter(Some(&m), &req).ok().unwrap();
    assert!(page.plan.projection.is_none());
}

#[test]
fn errors_carry_no_data() {
    let (m, _, _) = registry_with_table();
    let e = begin_query_filter(Some(&m), &filter_request("missing", "id > 0")).err().unwrap();
    assert!(!e.ok);
    assert!(e.data.is_none());
}
