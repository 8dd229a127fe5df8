use std::sync::Arc;

use arrow::datatypes::DataType;
use arrow_ipc::reader::StreamReader;

use ibarrow::arrowio::{empty_batch, placeholder_schema, BatchStream};
use ibarrow::encode::encode_stream;

#[test]
fn stream_from_batches_encodes_each_batch() {
    let schema = placeholder_schema();
    let batches = vec![empty_batch(&schema), empty_batch(&schema), empty_batch(&schema)];
    let stream = BatchStream::from_batches(schema, batches);
    let out = encode_stream(stream).unwrap();
    let reader = StreamReader::try_new(out.as_slice(), None).unwrap();
    let decoded: Vec<_> = reader.collect::<Result<_, _>>().unwrap();
    assert_eq!(decoded.len(), 3);
    assert!(decoded.iter().all(|b| b.num_rows() == 0));
}

#[test]
fn stream_from_no_batches_still_encodes_one_empty_batch() {
    let schema = placeholder_schema();
    let stream = BatchStream::from_batches(schema, Vec::new());
    let out = encode_stream(stream).unwrap();
    let reader = StreamReader::try_new(out.as_slice(), None).unwrap();
    let schema2 = reader.schema();
    let decoded: Vec<_> = reader.collect::<Result<_, _>>().unwrap();
    assert_eq!(schema2.fields().len(), 1);
    assert_eq!(decoded.len(), 1);
    assert_eq!(decoded[0].num_rows(), 0);
}

#[test]
fn placeholder_schema_has_one_nullable_int32_column() {
    let schema = placeholder_schema();
    assert_eq!(schema.fields().len(), 1);
    assert_eq!(schema.field(0).name(), "empty");
    assert_eq!(schema.field(0).data_type(), &DataType::Int32);
    assert!(schema.field(0).is_nullable());
}

#[test]
fn empty_batch_has_zero_rows() {
    let schema: Arc<_> = placeholder_schema();
    assert_eq!(empty_batch(&schema).num_rows(), 0);
}
