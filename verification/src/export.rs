use vstd::prelude::*;
use vstd::string::*;
use arrow::ffi::{FFI_ArrowArray, FFI_ArrowSchema};
use crate::arrowio::{
    arrow_error_text, batch_exportable, batch_rows, batch_to_ffi, batch_width, ffi_rows,
    ffi_schema_width, stream_clean, stream_exportable, stream_rem, stream_width, BatchStream,
    ColumnarBatch,
};
use crate::errors::IbError;

verus! {

/// A snapshot of one columnar batch as two independently owned
/// foreign-memory descriptors, plus its row count in plain form. Once the
/// descriptors are handed to the foreign side, that side owns the
/// underlying buffers until it releases them; moving them out of this
/// struct is the handoff, and nothing here frees them afterwards.
#[derive(Debug)]
pub struct ExportedBatch {
    pub schema: FFI_ArrowSchema,
    pub array: FFI_ArrowArray,
    pub rows: usize,
}

/// The diagnostic text surfaced when the batch stream yields nothing.
pub open spec fn spec_no_data_text() -> Seq<char> {
    "No data returned from query"@
}

/// Materializes the whole batch stream, then exports exactly the first
/// produced batch through the foreign-memory interface; the remaining
/// batches are dropped, not exported. The descriptors record the first
/// batch's row count and the stream's column count. Success is owed for a
/// clean, nonempty stream whose batches the export accepts. A stream that
/// yields no batch is a domain error, unlike the streaming encoder's
/// placeholder leniency.
pub fn export_stream(stream: BatchStream) -> (r: Result<ExportedBatch, IbError>)
    ensures
        r matches Ok(eb) ==> stream_rem(stream).len() > 0 && ffi_rows(eb.array) == stream_rem(
            stream,
        )[0] && eb.rows as nat == stream_rem(stream)[0] && ffi_schema_width(eb.schema)
            == stream_width(stream),
        r is Err ==> (r->Err_0).wf() && (stream_clean(stream) && stream_rem(stream).len()
            == 0 ==> (r->Err_0).spec_raw() == spec_no_data_text()),
        stream_clean(stream) && stream_rem(stream).len() == 0 ==> r is Err,
        stream_clean(stream) && stream_rem(stream).len() > 0 && stream_exportable(stream)
            ==> r is Ok,
{
    let ghost orig = stream_rem(stream);
    let ghost width0 = stream_width(stream);
    let ghost clean0 = stream_clean(stream);
    let ghost exp0 = stream_exportable(stream);
    let mut stream = stream;
    let mut batches: Vec<ColumnarBatch> = Vec::new();
    let mut failure: Option<IbError> = None;
    loop
        invariant_except_break
            failure is None,
            orig == batches@.map_values(|b: ColumnarBatch| batch_rows(b)) + stream_rem(
                stream,
            ),
            stream_clean(stream) == clean0,
            stream_width(stream) == width0,
            exp0 ==> stream_exportable(stream),
            batches@.len() > 0 ==> batch_width(batches@[0]) == width0,
            exp0 && batches@.len() > 0 ==> batch_exportable(batches@[0]),
        ensures
            failure is None ==> batches@.map_values(|b: ColumnarBatch| batch_rows(b))
                == orig && (batches@.len() > 0 ==> batch_width(batches@[0]) == width0) && (
            exp0 && batches@.len() > 0 ==> batch_exportable(batches@[0])),
            failure matches Some(err) ==> err.wf() && !clean0,
        decreases stream_rem(stream).len(),
    {
        match stream.next_batch() {
            None => {
                proof {
                    assert(batches@.map_values(|b: ColumnarBatch| batch_rows(b)) =~= orig);
                }
                break;
            },
            Some(Err(e)) => {
                failure = Some(IbError::from_text(arrow_error_text(&e)));
                break;
            },
            Some(Ok(b)) => {
                batches.push(b);
                proof {
                    assert(batches@.map_values(|b: ColumnarBatch| batch_rows(b))
                        + stream_rem(stream) =~= orig);
                }
            },
        }
    }
    if let Some(err) = failure {
        return Err(err);
    }
    if batches.len() == 0 {
        proof {
            assert(orig.len() == 0);
        }
        return Err(IbError::from_text(String::from_str("No data returned from query")));
    }
    let first = &batches[0];
    let rows = first.num_rows();
    proof {
        assert(batch_rows(batches@[0]) == orig[0]);
    }
    match batch_to_ffi(first) {
        Ok(p) => {
            let (schema, array) = p;
            Ok(ExportedBatch { schema, array, rows })
        },
        Err(e) => Err(IbError::from_text(arrow_error_text(&e))),
    }
}

} // verus!
