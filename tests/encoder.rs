use std::io::Cursor;
use std::sync::Arc;

use arrow_array::{Int32Array, RecordBatch};
use arrow_ipc::reader::StreamReader;
use arrow_ipc::writer::StreamWriter;
use arrow_schema::{DataType, Field, Schema};
use base64::Engine;

use lance_gateway::encoder::{ipc_stream_to_base64, json_rows_from_array, page_batches, row_keys, total_rows, truncate_batches};
use lance_gateway::ipc::DataChunk;
use lance_gateway::service::arrow_scan_page;

fn make_batch(values: &[i32]) -> RecordBatch {
    let schema = Arc::new(Schema::new(vec![Field::new("id", DataType::Int32, false)]));
    let array = Int32Array::from_iter_values(values.iter().copied());
    RecordBatch::try_new(schema, vec![Arc::new(array)]).expect("create record batch")
}

/// Cuts batches as a truncation plan says.
fn apply_plan(batches: &[RecordBatch], plan: &[usize]) -> Vec<RecordBatch> {
    plan.iter().zip(batches).map(|(n, b)| b.slice(0, *n)).collect()
}

fn json_array(batches: &[RecordBatch]) -> Vec<u8> {
    let mut writer = arrow_json::ArrayWriter::new(Vec::new());
    let refs: Vec<&RecordBatch> = batches.iter().collect();
    writer.write_batches(&refs).expect("write json");
    writer.finish().expect("finish json");
    writer.into_inner()
}

fn ipc_stream(batches: &[RecordBatch]) -> Vec<u8> {
    let mut writer = StreamWriter::try_new(Vec::new(), &batches[0].schema()).expect("writer");
    for b in batches {
        writer.write(b).expect("write batch");
    }
    writer.into_inner().expect("finish stream")
}

#[test]
fn truncate_batches_respects_limit() {
    let batch1 = make_batch(&[1, 2]);
    let batch2 = make_batch(&[3, 4]);
    let batches = vec![batch1, batch2];
    let counts: Vec<usize> = batches.iter().map(|b| b.num_rows()).collect();

    let plan = truncate_batches(&counts, 3);
    let trimmed = apply_plan(&batches, &plan);
    let total_rows: usize = trimmed.iter().map(|batch| batch.num_rows()).sum();

    assert_eq!(trimmed.len(), 2);
    assert_eq!(total_rows, 3);
    assert_eq!(trimmed[1].num_rows(), 1);
}

#[test]
fn truncation_slices_the_straddling_batch() {
    assert_eq!(truncate_batches(&vec![2, 2, 5], 3), vec![2, 1]);
    assert_eq!(truncate_batches(&vec![2, 2, 5], 4), vec![2, 2]);
    assert_eq!(truncate_batches(&vec![2, 2, 5], 100), vec![2, 2, 5]);
    assert_eq!(truncate_batches(&vec![0, 3], 2), vec![0, 2]);
    assert_eq!(truncate_batches(&vec![2, 2], 0), Vec::<usize>::new());
}

#[test]
fn total_rows_counts_and_detects_overflow() {
    assert_eq!(total_rows(&vec![2, 3, 0]), Some(5));
    assert_eq!(total_rows(&vec![]), Some(0));
    assert_eq!(total_rows(&vec![usize::MAX, 1]), None);
}

#[test]
fn columnar_page_matches_json_page() {
    let batches = vec![make_batch(&[1, 2]), make_batch(&[3, 4]), make_batch(&[5])];
    let counts: Vec<usize> = batches.iter().map(|b| b.num_rows()).collect();
    // A page of two rows at offset 0, fetched with look-ahead.
    let (plan, next) = page_batches(&counts, 2, 0);
    assert_eq!(plan, vec![2]);
    assert_eq!(next, Some(2));
    let rows = json_rows_from_array(&json_array(&batches), 5).expect("rows");
    let json = lance_gateway::service::json_page(rows, lance_gateway::ipc::SchemaDefinition { fields: vec![] }, 2, 0);
    match json.chunk {
        DataChunk::Json(c) => assert_eq!(c.rows.len(), plan.iter().sum::<usize>()),
        _ => panic!("expected json chunk"),
    }
    assert_eq!(json.next_offset, next);

    let (plan, next) = page_batches(&counts, 10, 3);
    assert_eq!(plan, counts);
    assert_eq!(next, None);
}

#[test]
fn json_rows_round_trip_row_count() {
    let batches = vec![make_batch(&[1, 2, 3]), make_batch(&[4])];
    let rows = json_rows_from_array(&json_array(&batches), 4).expect("parse rows");
    assert_eq!(rows.len(), 4);
    assert_eq!(rows[3], serde_json::from_str::<serde_json::Value>("{\"id\":4}").unwrap());
}

#[test]
fn json_rows_refuse_a_wrong_count() {
    let batches = vec![make_batch(&[1, 2])];
    assert!(json_rows_from_array(&json_array(&batches), 3).is_err());
    assert!(json_rows_from_array(&b"not json".to_vec(), 1).is_err());
    assert_eq!(json_rows_from_array(&Vec::new(), 0).map(|r| r.len()), Ok(0));
}

#[test]
fn ipc_round_trip_row_count() {
    let batches = vec![make_batch(&[1, 2]), make_batch(&[3, 4])];
    let counts: Vec<usize> = batches.iter().map(|b| b.num_rows()).collect();
    let (plan, next) = page_batches(&counts, 3, 0);
    let trimmed = apply_plan(&batches, &plan);
    let response = arrow_scan_page(&ipc_stream(&trimmed), next);
    assert_eq!(response.next_offset, Some(3));
    let chunk = match response.chunk {
        DataChunk::Arrow(c) => c,
        _ => panic!("expected arrow chunk"),
    };
    assert!(chunk.compression.is_none());
    let bytes = base64::engine::general_purpose::STANDARD.decode(chunk.ipc_base64).expect("decode base64");
    let reader = StreamReader::try_new(Cursor::new(bytes), None).expect("open stream reader");
    let mut read = 0;
    for batch in reader {
        read += batch.expect("read batch").num_rows();
    }
    assert_eq!(read, 3);
}

#[test]
fn base64_of_known_bytes() {
    assert_eq!(ipc_stream_to_base64(&vec![1, 2, 3]), "AQID");
    assert_eq!(ipc_stream_to_base64(&b"ab".to_vec()), "YWI=");
    assert_eq!(ipc_stream_to_base64(&Vec::new()), "");
}

#[test]
fn row_keys_are_compact_json() {
    let rows = vec![
        serde_json::from_str::<serde_json::Value>("{ \"a\" : 1 }").unwrap(),
        serde_json::from_str::<serde_json::Value>("[1, 2]").unwrap(),
    ];
    assert_eq!(row_keys(&rows), vec!["{\"a\":1}".to_string(), "[1,2]".to_string()]);
}
