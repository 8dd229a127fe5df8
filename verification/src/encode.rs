use vstd::prelude::*;
use crate::arrowio::{
    arrow_error_text, empty_batch, ipc_batch_rows, ipc_schema_placeholder, ipc_schema_width,
    placeholder_schema, sink_finish, sink_new, sink_open, sink_rows, sink_width, sink_write,
    stream_clean, stream_encodable, stream_rem, stream_schema_writable, stream_width,
    BatchStream,
};
use crate::errors::IbError;

verus! {

/// The batch row counts an encoded stream carries for a source with the
/// given batches: the batches themselves in arrival order, or one empty
/// batch when there are none, so that the output is always a structurally
/// valid, parseable stream and never a headers-only truncated one.
pub open spec fn spec_emitted(rem: Seq<nat>) -> Seq<nat> {
    if rem.len() == 0 {
        seq![0nat]
    } else {
        rem
    }
}

/// Total row count across a sequence of batch row counts.
pub open spec fn total_rows(rows: Seq<nat>) -> nat
    decreases rows.len(),
{
    if rows.len() == 0 {
        0
    } else {
        (rows[0] + total_rows(rows.drop_first())) as nat
    }
}

/// Serializes the batch stream into a self-describing, length-delimited
/// byte stream: the schema header once, then each batch as it is pulled, in
/// arrival order, then the terminating footer. Holds at most one in-flight
/// batch besides the output buffer: batches are written as they arrive and
/// never accumulated. A stream that yields no batch still produces one
/// empty batch before the footer. Success is owed whenever nothing can
/// fail: a clean stream with a writable schema and encodable batches
/// encodes. No partial buffer is ever returned: any failure aborts with a
/// classified error.
pub fn encode_stream(stream: BatchStream) -> (r: Result<Vec<u8>, IbError>)
    ensures
        r matches Ok(bytes) ==> ipc_batch_rows(bytes@) == spec_emitted(stream_rem(stream))
            && ipc_schema_width(bytes@) == stream_width(stream),
        r matches Err(e) ==> e.wf(),
        stream_clean(stream) && stream_schema_writable(stream) && stream_encodable(stream)
            ==> r is Ok,
{
    let ghost orig = stream_rem(stream);
    let ghost width = stream_width(stream);
    let ghost clean0 = stream_clean(stream);
    let ghost enc0 = stream_encodable(stream);
    let schema = stream.schema();
    let mut stream = stream;
    let mut sink = match sink_new(&schema) {
        Ok(w) => w,
        Err(e) => {
            return Err(IbError::from_text(arrow_error_text(&e)));
        },
    };
    let mut has_data = false;
    let mut failure: Option<IbError> = None;
    loop
        invariant_except_break
            failure is None,
            orig == sink_rows(sink) + stream_rem(stream),
            has_data == (sink_rows(sink).len() > 0),
            sink_width(sink) == width,
            sink_open(sink),
            stream_clean(stream) == clean0,
            enc0 ==> stream_encodable(stream),
        ensures
            failure is None ==> sink_rows(sink) == orig && has_data == (orig.len() > 0)
                && sink_width(sink) == width && sink_open(sink),
            failure matches Some(err) ==> err.wf() && !(clean0 && enc0),
        decreases stream_rem(stream).len(),
    {
        match stream.next_batch() {
            None => {
                proof {
                    assert(sink_rows(sink) =~= orig);
                }
                break;
            },
            Some(Err(e)) => {
                failure = Some(IbError::from_text(arrow_error_text(&e)));
                break;
            },
            Some(Ok(b)) => {
                match sink_write(&mut sink, &b) {
                    Ok(_) => {
                        proof {
                            assert(sink_rows(sink) + stream_rem(stream) =~= orig);
                        }
                        has_data = true;
                    },
                    Err(e) => {
                        failure = Some(IbError::from_text(arrow_error_text(&e)));
                        break;
                    },
                }
            },
        }
    }
    if let Some(err) = failure {
        return Err(err);
    }
    if !has_data {
        let eb = empty_batch(&schema);
        match sink_write(&mut sink, &eb) {
            Ok(_) => {
                proof {
                    assert(sink_rows(sink) =~= spec_emitted(orig));
                }
            },
            Err(e) => {
                return Err(IbError::from_text(arrow_error_text(&e)));
            },
        }
    }
    match sink_finish(sink) {
        Ok(bytes) => Ok(bytes),
        Err(e) => Err(IbError::from_text(arrow_error_text(&e))),
    }
}

/// The encoding for a statement that executed but produced no result set:
/// always a valid stream over the placeholder schema of one nullable Int32
/// column, carrying one empty batch, so the outcome is caller-visible and
/// unambiguous rather than an error. Nothing on this path can fail: the
/// placeholder schema is writable and its empty batch encodable.
pub fn encode_no_result_set() -> (r: Result<Vec<u8>, IbError>)
    ensures
        r is Ok,
        r matches Ok(bytes) ==> ipc_batch_rows(bytes@) == seq![0nat] && ipc_schema_width(
            bytes@,
        ) == 1 && ipc_schema_placeholder(bytes@),
{
    let schema = placeholder_schema();
    let mut sink = match sink_new(&schema) {
        Ok(w) => w,
        Err(e) => {
            return Err(IbError::from_text(arrow_error_text(&e)));
        },
    };
    let eb = empty_batch(&schema);
    match sink_write(&mut sink, &eb) {
        Ok(_) => {},
        Err(e) => {
            return Err(IbError::from_text(arrow_error_text(&e)));
        },
    }
    proof {
        assert(sink_rows(sink) =~= seq![0nat]);
    }
    match sink_finish(sink) {
        Ok(bytes) => Ok(bytes),
        Err(e) => Err(IbError::from_text(arrow_error_text(&e))),
    }
}

} // verus!
