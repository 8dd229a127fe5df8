use std::sync::Arc;

use arrow::array::Int32Array;
use arrow::datatypes::{DataType, Field, Schema};
use arrow::record_batch::RecordBatch;
use arrow_ipc::writer::StreamWriter;

use ibarrow::arrowio::BatchStream;
use ibarrow::errors::ErrorKind;
use ibarrow::export::export_stream;
use ibarrow::session::{export_outcome, CursorOutcome};

fn int32_schema() -> Arc<Schema> {
    Arc::new(Schema::new(vec![Field::new("v", DataType::Int32, false)]))
}

fn int32_batch(schema: &Arc<Schema>, values: Vec<i32>) -> RecordBatch {
    RecordBatch::try_new(schema.clone(), vec![Arc::new(Int32Array::from(values))]).unwrap()
}

fn ipc_bytes(schema: &Arc<Schema>, batches: &[RecordBatch]) -> Vec<u8> {
    let mut bytes = Vec::new();
    {
        let mut w = StreamWriter::try_new(&mut bytes, schema).unwrap();
        for b in batches {
            w.write(b).unwrap();
        }
        w.finish().unwrap();
    }
    bytes
}

#[test]
fn export_takes_first_batch_rows_not_sum() {
    let schema = int32_schema();
    let input = vec![
        int32_batch(&schema, vec![1, 2, 3, 4, 5]),
        int32_batch(&schema, vec![6, 7]),
        int32_batch(&schema, vec![8, 9, 10, 11, 12, 13, 14]),
    ];
    let bytes = ipc_bytes(&schema, &input);
    let stream = BatchStream::from_ipc_bytes(&bytes).unwrap();
    let exported = export_stream(stream).unwrap();
    assert_eq!(exported.rows, 5);
    assert_eq!(exported.array.len(), 5);
    assert!(!exported.schema.format().is_empty());
}

#[test]
fn export_of_single_batch_keeps_its_rows() {
    let schema = int32_schema();
    let bytes = ipc_bytes(&schema, &[int32_batch(&schema, vec![10, 20, 30])]);
    let stream = BatchStream::from_ipc_bytes(&bytes).unwrap();
    let exported = export_stream(stream).unwrap();
    assert_eq!(exported.rows, 3);
    assert_eq!(exported.array.len(), 3);
}

#[test]
fn export_of_empty_stream_is_a_domain_error() {
    let schema = int32_schema();
    let bytes = ipc_bytes(&schema, &[]);
    let stream = BatchStream::from_ipc_bytes(&bytes).unwrap();
    let err = export_stream(stream).unwrap_err();
    assert_eq!(err.kind(), ErrorKind::RuntimeError);
    assert_eq!(err.raw_text(), "No data returned from query");
    assert_eq!(err.message(), "Runtime Error: No data returned from query");
}

#[test]
fn export_of_no_result_set_outcome_is_an_error() {
    let err = export_outcome(CursorOutcome::NoResultSet).unwrap_err();
    assert_eq!(err.kind(), ErrorKind::ConnectionError);
    assert_eq!(
        err.raw_text(),
        "Query executed but returned no result set. This may indicate a connection issue or the query returned no data."
    );
    assert!(err.message().starts_with("Connection Error: "));
}

#[test]
fn export_outcome_with_cursor_takes_first_batch() {
    let schema = int32_schema();
    let input = vec![
        int32_batch(&schema, vec![1]),
        int32_batch(&schema, vec![2, 3]),
    ];
    let bytes = ipc_bytes(&schema, &input);
    let stream = BatchStream::from_ipc_bytes(&bytes).unwrap();
    let exported = export_outcome(CursorOutcome::HasCursor(stream)).unwrap();
    assert_eq!(exported.rows, 1);
}
