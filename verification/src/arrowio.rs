use vstd::prelude::*;
use std::sync::Arc;
use arrow::array::{Array, StructArray};
use arrow::datatypes::{DataType, Field, Schema};
use arrow::error::ArrowError;
use arrow::ffi::{FFI_ArrowArray, FFI_ArrowSchema};
use arrow::record_batch::RecordBatch;
use arrow_ipc::reader::StreamReader;
use arrow_ipc::writer::StreamWriter;

verus! {

#[verifier::external_type_specification]
#[verifier::external_body]
pub struct ExSchema(Schema);

#[verifier::external_type_specification]
#[verifier::external_body]
pub struct ExArrowError(ArrowError);

#[verifier::external_type_specification]
#[verifier::external_body]
pub struct ExFfiArrowArray(FFI_ArrowArray);

#[verifier::external_type_specification]
#[verifier::external_body]
pub struct ExFfiArrowSchema(FFI_ArrowSchema);

#[verifier::external_type_specification]
#[verifier::external_body]
#[verifier::reject_recursive_types(W)]
pub struct ExStreamWriter<W>(StreamWriter<W>);

/// One ordered batch of named, typed columns under one schema. Holds the
/// columnar data of arrow's RecordBatch, which Verus cannot see inside; the
/// batch is described to contracts by its row count, its column count, and
/// whether the IPC encoder and the C-data export accept it.
#[verifier::external_body]
pub struct ColumnarBatch {
    inner: RecordBatch,
}

// The number of rows a columnar batch holds: what RecordBatch::num_rows
// returns for the held batch.
pub uninterp spec fn batch_rows(b: ColumnarBatch) -> nat;

// The number of columns a columnar batch holds: what RecordBatch::num_columns
// returns for the held batch.
pub uninterp spec fn batch_width(b: ColumnarBatch) -> nat;

// Whether arrow's IPC data generator encodes the batch without error. This
// is a function of the batch's columns alone: with dictionary replacement
// allowed, the only failures are malformed columns (for example a run-end
// encoded column without its two children), deterministically.
pub uninterp spec fn batch_encodable(b: ColumnarBatch) -> bool;

// Whether the C-data export accepts the batch: whether
// FFI_ArrowSchema::try_from accepts the struct data type built from the
// batch's schema, which fails only on unsupported data types,
// deterministically.
pub uninterp spec fn batch_exportable(b: ColumnarBatch) -> bool;

// The number of columns a schema describes: what Schema::fields().len()
// returns.
pub uninterp spec fn schema_width(s: Arc<Schema>) -> nat;

// Whether the IPC writers accept the schema: they refuse exactly the
// schemas with a dictionary-of-dictionary field.
pub uninterp spec fn schema_writable(s: Arc<Schema>) -> bool;

// Whether the schema is the no-result-set placeholder: exactly one nullable
// Int32 field named "empty".
pub uninterp spec fn schema_placeholder(s: Arc<Schema>) -> bool;

// The row counts, in order, recorded in the batch messages written so far
// to an IPC stream writer.
pub uninterp spec fn sink_rows(w: StreamWriter<Vec<u8>>) -> Seq<nat>;

// The number of columns of the schema an IPC stream writer was created with.
pub uninterp spec fn sink_width(w: StreamWriter<Vec<u8>>) -> nat;

// Whether the IPC stream writer has not yet written its terminating footer.
pub uninterp spec fn sink_open(w: StreamWriter<Vec<u8>>) -> bool;

// Whether the IPC stream writer was created with the placeholder schema.
pub uninterp spec fn sink_placeholder(w: StreamWriter<Vec<u8>>) -> bool;

// The row counts, in order, recorded in the batch messages of a finished
// IPC byte stream; arrow's StreamReader reproduces exactly these when it
// decodes the stream.
pub uninterp spec fn ipc_batch_rows(bytes: Seq<u8>) -> Seq<nat>;

// The number of columns recorded in the head schema message of a finished
// IPC byte stream.
pub uninterp spec fn ipc_schema_width(bytes: Seq<u8>) -> nat;

// Whether the head schema message of a finished IPC byte stream records the
// no-result-set placeholder schema: one nullable Int32 field named "empty".
pub uninterp spec fn ipc_schema_placeholder(bytes: Seq<u8>) -> bool;

// The element count recorded in an exported C-data array descriptor: what
// FFI_ArrowArray::len returns.
pub uninterp spec fn ffi_rows(a: FFI_ArrowArray) -> nat;

// The child count recorded in an exported C-data schema descriptor: one
// child per column of the exported batch.
pub uninterp spec fn ffi_schema_width(s: FFI_ArrowSchema) -> nat;

impl ColumnarBatch {
    /// Relies on arrow's RecordBatch::num_rows: the number of rows in the
    /// batch.
    #[verifier::external_body]
    pub fn num_rows(&self) -> (r: usize)
        ensures
            r as nat == batch_rows(*self),
    {
        self.inner.num_rows()
    }
}

/// Relies on arrow's Field::new and Schema::new, and on Arc::new: a schema
/// of exactly one nullable Int32 column named "empty", the placeholder for
/// statements that produce no result set. A plain Int32 schema is accepted
/// by the IPC writers.
#[verifier::external_body]
pub fn placeholder_schema() -> (r: Arc<Schema>)
    ensures
        schema_width(r) == 1,
        schema_writable(r),
        schema_placeholder(r),
{
    Arc::new(Schema::new(vec![Field::new("empty", DataType::Int32, true)]))
}

/// Relies on arrow's RecordBatch::new_empty: a batch with the given schema
/// and zero rows, one well-formed empty column per field, so the IPC
/// encoder accepts it whenever it accepts the schema.
#[verifier::external_body]
pub fn empty_batch(schema: &Arc<Schema>) -> (r: ColumnarBatch)
    ensures
        batch_rows(r) == 0,
        batch_width(r) == schema_width(*schema),
        schema_writable(*schema) ==> batch_encodable(r),
{
    ColumnarBatch { inner: RecordBatch::new_empty(schema.clone()) }
}

/// Relies on arrow_ipc's StreamWriter::try_new: it writes the schema header
/// into the fresh byte buffer, which cannot fail, and refuses exactly the
/// schemas the IPC format does not support; the new writer has written no
/// batch and no footer.
#[verifier::external_body]
pub(crate) fn sink_new(schema: &Arc<Schema>) -> (r: Result<StreamWriter<Vec<u8>>, ArrowError>)
    ensures
        r is Ok <==> schema_writable(*schema),
        r matches Ok(w) ==> sink_rows(w) == Seq::<nat>::empty() && sink_width(w)
            == schema_width(*schema) && sink_open(w) && sink_placeholder(w)
            == schema_placeholder(*schema),
{
    StreamWriter::try_new(Vec::new(), schema)
}

/// Relies on arrow_ipc's StreamWriter::write: on an open writer over a byte
/// buffer it fails only when the batch itself cannot be encoded, and on
/// success appends the batch's message after everything already written.
/// The writer does not check that the batch's schema matches its own: a
/// mismatched batch still has its row count recorded and reproduced by this
/// crate's names, but the resulting stream's columns will not decode.
#[verifier::external_body]
pub(crate) fn sink_write(w: &mut StreamWriter<Vec<u8>>, b: &ColumnarBatch) -> (r: Result<
    (),
    ArrowError,
>)
    ensures
        sink_open(*old(w)) && batch_encodable(*b) ==> r is Ok,
        r is Ok ==> sink_rows(*final(w)) == sink_rows(*old(w)).push(batch_rows(*b))
            && sink_width(*final(w)) == sink_width(*old(w)) && sink_open(*final(w))
            == sink_open(*old(w)) && sink_placeholder(*final(w)) == sink_placeholder(
            *old(w),
        ),
{
    w.write(&b.inner)
}

/// Relies on arrow_ipc's StreamWriter::finish, which writes the terminating
/// footer, and StreamWriter::into_inner, which hands back the byte buffer;
/// neither can fail on an open writer over a byte buffer. The finished
/// stream records the writer's schema and the written batches' row counts
/// in order, and arrow's StreamReader reproduces exactly these when it
/// decodes the stream — fully so for batches written under the writer's own
/// schema.
#[verifier::external_body]
pub(crate) fn sink_finish(w: StreamWriter<Vec<u8>>) -> (r: Result<Vec<u8>, ArrowError>)
    ensures
        sink_open(w) ==> r is Ok,
        r matches Ok(bytes) ==> ipc_batch_rows(bytes@) == sink_rows(w) && ipc_schema_width(
            bytes@,
        ) == sink_width(w) && ipc_schema_placeholder(bytes@) == sink_placeholder(w),
{
    let mut w = w;
    w.finish()?;
    w.into_inner()
}

/// Relies on arrow's StructArray::from(RecordBatch), which builds a struct
/// array with one element per row and one field per column of the batch; on
/// Array::into_data; and on arrow::ffi::to_ffi, which fails exactly when
/// FFI_ArrowSchema::try_from refuses the struct's data type. On success the
/// descriptors record the batch's row count and its column count, and
/// ownership of the underlying buffers moves into them.
#[verifier::external_body]
pub(crate) fn batch_to_ffi(b: &ColumnarBatch) -> (r: Result<
    (FFI_ArrowSchema, FFI_ArrowArray),
    ArrowError,
>)
    ensures
        r is Ok <==> batch_exportable(*b),
        r matches Ok(p) ==> ffi_rows(p.1) == batch_rows(*b) && ffi_schema_width(p.0)
            == batch_width(*b),
{
    let data = StructArray::from(b.inner.clone()).into_data();
    let (array, schema) = arrow::ffi::to_ffi(&data)?;
    Ok((schema, array))
}

/// Relies on ArrowError's Display implementation through ToString: the raw
/// diagnostic text, handed unchanged to the error classifier.
#[verifier::external_body]
pub(crate) fn arrow_error_text(e: &ArrowError) -> String {
    e.to_string()
}

/// A single-pass, pull-based source of schema-typed columnar batches. The
/// constructors decode or take their batches up front and the stream holds
/// them until pulled; it is consumed by pulling and is never restartable.
#[verifier::external_body]
pub struct BatchStream {
    schema: Arc<Schema>,
    batches: std::vec::IntoIter<RecordBatch>,
}

// The row counts, in order, of the batches the stream will still yield
// before it ends or fails.
pub uninterp spec fn stream_rem(s: BatchStream) -> Seq<nat>;

// Whether the stream ends cleanly after its remaining batches rather than
// failing with a decode error.
pub uninterp spec fn stream_clean(s: BatchStream) -> bool;

// The number of columns of the schema the stream reports.
pub uninterp spec fn stream_width(s: BatchStream) -> nat;

// Whether the IPC writers accept the schema the stream reports.
pub uninterp spec fn stream_schema_writable(s: BatchStream) -> bool;

// Whether every batch the stream will still yield is accepted by the IPC
// encoder.
pub uninterp spec fn stream_encodable(s: BatchStream) -> bool;

// Whether every batch the stream will still yield is accepted by the
// C-data export.
pub uninterp spec fn stream_exportable(s: BatchStream) -> bool;

impl BatchStream {
    /// Relies on arrow_ipc's StreamReader::try_new and its Iterator
    /// implementation, which decode a finished IPC stream: on success the
    /// stream yields the decoded batches, in order, each under the decoded
    /// schema, and then ends cleanly. A malformed stream is refused whole;
    /// no partial batch is ever yielded.
    #[verifier::external_body]
    pub fn from_ipc_bytes(bytes: &Vec<u8>) -> (r: Result<BatchStream, ArrowError>)
        ensures
            r matches Ok(s) ==> stream_rem(s) == ipc_batch_rows(bytes@) && stream_clean(s)
                && stream_width(s) == ipc_schema_width(bytes@),
    {
        let reader = StreamReader::try_new(bytes.as_slice(), None)?;
        let schema = reader.schema();
        let mut decoded = Vec::new();
        for b in reader {
            decoded.push(b?);
        }
        Ok(BatchStream { schema, batches: decoded.into_iter() })
    }

    /// Relies on Vec::into_iter: a stream over the given schema that yields
    /// exactly the given batches, in order, and then ends cleanly. Every
    /// batch must share the stream's schema: one ResultCursor has one
    /// schema, and the first batch's schema binds all later ones.
    #[verifier::external_body]
    pub fn from_batches(schema: Arc<Schema>, batches: Vec<ColumnarBatch>) -> (r: BatchStream)
        requires
            forall|i: int|
                0 <= i < batches@.len() ==> batch_width(#[trigger] batches@[i])
                    == schema_width(schema),
        ensures
            stream_rem(r) == batches@.map_values(|b: ColumnarBatch| batch_rows(b)),
            stream_clean(r),
            stream_width(r) == schema_width(schema),
            stream_schema_writable(r) == schema_writable(schema),
            (forall|i: int|
                0 <= i < batches@.len() ==> batch_encodable(#[trigger] batches@[i]))
                ==> stream_encodable(r),
            (forall|i: int|
                0 <= i < batches@.len() ==> batch_exportable(#[trigger] batches@[i]))
                ==> stream_exportable(r),
    {
        let inner: Vec<RecordBatch> = batches.into_iter().map(|b| b.inner).collect();
        BatchStream { schema, batches: inner.into_iter() }
    }

    /// Relies on Iterator::next of std's vector iterator: pulls the next
    /// batch. A batch comes only while batches remain and is the first
    /// remaining one, under the stream's schema; the stream ends with None
    /// only once no batch remains and it is clean; a decode failure comes
    /// only from an unclean stream.
    #[verifier::external_body]
    pub fn next_batch(&mut self) -> (r: Option<Result<ColumnarBatch, ArrowError>>)
        ensures
            r matches Some(res) && res matches Ok(b) ==> stream_rem(*old(self)).len() > 0
                && batch_rows(b) == stream_rem(*old(self))[0] && batch_width(b)
                == stream_width(*old(self)) && stream_rem(*final(self)) == stream_rem(
                *old(self),
            ).drop_first() && stream_clean(*final(self)) == stream_clean(*old(self))
                && stream_width(*final(self)) == stream_width(*old(self))
                && stream_schema_writable(*final(self)) == stream_schema_writable(
                *old(self),
            ) && (stream_encodable(*old(self)) ==> batch_encodable(b) && stream_encodable(
                *final(self),
            )) && (stream_exportable(*old(self)) ==> batch_exportable(b)
                && stream_exportable(*final(self))),
            r is None ==> stream_rem(*old(self)).len() == 0 && stream_clean(*old(self))
                && stream_rem(*final(self)).len() == 0 && stream_clean(*final(self)),
            r matches Some(res) && res matches Err(e) ==> !stream_clean(*old(self)),
    {
        match self.batches.next() {
            Some(b) => Some(Ok(ColumnarBatch { inner: b })),
            None => None,
        }
    }

    /// Relies on Arc::clone: the schema the stream reports.
    #[verifier::external_body]
    pub fn schema(&self) -> (r: Arc<Schema>)
        ensures
            schema_width(r) == stream_width(*self),
            schema_writable(r) == stream_schema_writable(*self),
    {
        self.schema.clone()
    }
}

} // verus!
