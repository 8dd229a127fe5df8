use vstd::prelude::*;
use vstd::string::*;
use crate::arrowio::{ffi_rows, ffi_schema_width, ipc_batch_rows, ipc_schema_placeholder,
    ipc_schema_width, stream_clean, stream_encodable, stream_exportable, stream_rem,
    stream_schema_writable, stream_width, BatchStream};
use crate::encode::{encode_no_result_set, encode_stream, spec_emitted};
use crate::errors::IbError;
use crate::export::{export_stream, spec_no_data_text, ExportedBatch};

verus! {

/// The outcome of executing one SQL statement: either a result cursor,
/// already wrapped as a batch stream, or the distinct terminal state of a
/// statement that executed without producing a result set.
pub enum CursorOutcome {
    HasCursor(BatchStream),
    NoResultSet,
}

/// The diagnostic text surfaced when the zero-copy channel is asked to
/// export the outcome of a statement without a result set.
pub open spec fn spec_no_result_set_text() -> Seq<char> {
    "Query executed but returned no result set. This may indicate a connection issue or the query returned no data."@
}

/// Serializes a cursor outcome into the self-describing streaming byte
/// format. A cursor is encoded batch by batch, with success owed whenever
/// its schema and batches are ones the encoder accepts; the no-result-set
/// outcome is not an error here: it always becomes a valid stream over the
/// placeholder schema with one empty batch.
pub fn encode_outcome(outcome: CursorOutcome) -> (r: Result<Vec<u8>, IbError>)
    ensures
        outcome matches CursorOutcome::HasCursor(s) ==> (r matches Ok(bytes)
            ==> ipc_batch_rows(bytes@) == spec_emitted(stream_rem(s)) && ipc_schema_width(
            bytes@,
        ) == stream_width(s)) && (stream_clean(s) && stream_schema_writable(s)
            && stream_encodable(s) ==> r is Ok),
        outcome is NoResultSet ==> r is Ok && (r matches Ok(bytes) ==> ipc_batch_rows(
            bytes@,
        ) == seq![0nat] && ipc_schema_width(bytes@) == 1 && ipc_schema_placeholder(bytes@)),
        r matches Err(e) ==> e.wf(),
{
    match outcome {
        CursorOutcome::HasCursor(stream) => encode_stream(stream),
        CursorOutcome::NoResultSet => encode_no_result_set(),
    }
}

/// Hands a cursor outcome to the zero-copy channel. Unlike the streaming
/// encoder, a statement without a result set is an error on this path, and
/// so is a cursor that yields no batch; a clean, nonempty cursor whose
/// batches the export accepts is owed success.
pub fn export_outcome(outcome: CursorOutcome) -> (r: Result<ExportedBatch, IbError>)
    ensures
        outcome matches CursorOutcome::HasCursor(s) ==> (r matches Ok(eb) ==> stream_rem(
            s,
        ).len() > 0 && eb.rows as nat == stream_rem(s)[0] && ffi_rows(eb.array)
            == stream_rem(s)[0] && ffi_schema_width(eb.schema) == stream_width(s)) && (
        stream_clean(s) && stream_rem(s).len() == 0 ==> r is Err && (r->Err_0).spec_raw()
            == spec_no_data_text()) && (stream_clean(s) && stream_rem(s).len() > 0
            && stream_exportable(s) ==> r is Ok),
        outcome is NoResultSet ==> r is Err && (r->Err_0).spec_raw()
            == spec_no_result_set_text(),
        r matches Err(e) ==> e.wf(),
{
    match outcome {
        CursorOutcome::HasCursor(stream) => export_stream(stream),
        CursorOutcome::NoResultSet => {
            Err(
                IbError::from_text(
                    String::from_str(
                        "Query executed but returned no result set. This may indicate a connection issue or the query returned no data.",
                    ),
                ),
            )
        },
    }
}

} // verus!
