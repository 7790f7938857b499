use vstd::prelude::*;

use crate::VolumeError;
use crate::arrow_link::{
    CanonicalBatch, batch_msg_bytes, batch_rows, eos_bytes, ipc_finish, ipc_flush, ipc_into_inner,
    ipc_open, ipc_write, raw_finished, schema_msg_bytes, stream_written, to_arrow_schema,
    to_record_batch,
};
use crate::records::{RowView, VolumeBatch};
use crate::schema::{VolumeSchema, canonical_columns};

verus! {

/// The complete stream for one batch of rows: the schema message, one
/// record-batch message, and the end-of-stream marker, in that order.
pub open spec fn ipc_stream_bytes(rows: Seq<RowView>) -> Seq<u8> {
    schema_msg_bytes(canonical_columns()) + batch_msg_bytes(rows) + eos_bytes()
}

/// The streaming writer: it owns an in-memory sink, writes the schema
/// message on opening, record-batch messages while open, and the
/// end-of-stream marker on finishing, and refuses every operation after
/// that as an invalid lifecycle state.
pub struct IpcStreamWriter {
    inner: arrow::ipc::writer::StreamWriter<Vec<u8>>,
    finished: bool,
}

impl IpcStreamWriter {
    /// The bytes the writer has put on its sink so far.
    pub closed spec fn written(self) -> Seq<u8> {
        stream_written(self.inner)
    }

    /// Whether the writer has left the open state for good.
    pub closed spec fn is_finished(self) -> bool {
        self.finished
    }

    /// The lifecycle flag agrees with the wrapped writer, and the schema
    /// message stands at the start of whatever has been written.
    pub closed spec fn wf(self) -> bool {
        &&& self.finished == raw_finished(self.inner)
        &&& schema_msg_bytes(canonical_columns()).is_prefix_of(stream_written(self.inner))
    }

    /// Opens a writer on a fresh in-memory sink, bound to `schema`, which
    /// must be the canonical one; the schema message becomes the first
    /// bytes of the sink.
    pub fn open(schema: &VolumeSchema) -> (r: Result<IpcStreamWriter, VolumeError>)
        ensures
            !schema.is_canonical() ==> r == Err::<IpcStreamWriter, VolumeError>(
                VolumeError::SchemaViolation,
            ),
            schema.is_canonical() ==> r is Ok,
            r matches Ok(w) ==> schema.is_canonical() && w.wf() && !w.is_finished() && w.written()
                == schema_msg_bytes(canonical_columns()),
    {
        if !schema.matches_canonical() {
            return Err(VolumeError::SchemaViolation);
        }
        let arrow_schema = to_arrow_schema(schema);
        match ipc_open(&arrow_schema) {
            Ok(inner) => Ok(IpcStreamWriter { inner, finished: false }),
            Err(_) => Err(VolumeError::IoFailure),
        }
    }

    /// Serializes one batch as a record-batch message and appends it.
    ///
    /// After finishing, the call is an invalid lifecycle state and changes
    /// nothing. A batch whose column lengths disagree is a schema
    /// violation and appends nothing.
    pub fn write_batch(&mut self, b: &VolumeBatch) -> (r: Result<(), VolumeError>)
        requires
            old(self).wf(),
        ensures
            final (self).wf(),
            final (self).is_finished() == old(self).is_finished(),
            old(self).is_finished() ==> r == Err::<(), VolumeError>(
                VolumeError::InvalidLifecycleState,
            ) && *final (self) == *old(self),
            !old(self).is_finished() && !b.wf() ==> r == Err::<(), VolumeError>(
                VolumeError::SchemaViolation,
            ) && *final (self) == *old(self),
            !old(self).is_finished() && b.wf() ==> r is Ok,
            r is Ok ==> !old(self).is_finished() && b.wf() && final (self).written() == old(self)
                .written() + batch_msg_bytes(b.rows()),
            old(self).written().is_prefix_of(final (self).written()),
    {
        if self.finished {
            return Err(VolumeError::InvalidLifecycleState);
        }
        if !b.check_wf() {
            return Err(VolumeError::SchemaViolation);
        }
        let schema = crate::schema::a_schema();
        let arrow_schema = to_arrow_schema(&schema);
        let rb = match to_record_batch(b, &arrow_schema) {
            Ok(rb) => rb,
            Err(_) => {
                return Err(VolumeError::IoFailure);
            },
        };
        match ipc_write(&mut self.inner, &rb) {
            Ok(()) => Ok(()),
            Err(_) => Err(VolumeError::IoFailure),
        }
    }

    /// Forces buffered bytes to the sink. On an in-memory sink this adds
    /// no bytes and, while the writer is open, always succeeds; after
    /// finishing it is an invalid lifecycle state.
    pub fn flush(&mut self) -> (r: Result<(), VolumeError>)
        requires
            old(self).wf(),
        ensures
            final (self).wf(),
            final (self).written() == old(self).written(),
            final (self).is_finished() == old(self).is_finished(),
            old(self).is_finished() ==> r == Err::<(), VolumeError>(
                VolumeError::InvalidLifecycleState,
            ) && *final (self) == *old(self),
            !old(self).is_finished() ==> r == Ok::<(), VolumeError>(()),
    {
        if self.finished {
            return Err(VolumeError::InvalidLifecycleState);
        }
        match ipc_flush(&mut self.inner) {
            Ok(()) => Ok(()),
            Err(_) => Err(VolumeError::IoFailure),
        }
    }

    /// Writes the end-of-stream marker and leaves the open state. A
    /// second finish is an invalid lifecycle state and changes nothing.
    pub fn finish(&mut self) -> (r: Result<(), VolumeError>)
        requires
            old(self).wf(),
        ensures
            final (self).wf(),
            old(self).is_finished() ==> r == Err::<(), VolumeError>(
                VolumeError::InvalidLifecycleState,
            ) && *final (self) == *old(self),
            !old(self).is_finished() ==> r is Ok,
            r is Ok ==> !old(self).is_finished() && final (self).is_finished() && final (self)
                .written() == old(self).written() + eos_bytes(),
            old(self).written().is_prefix_of(final (self).written()),
    {
        if self.finished {
            return Err(VolumeError::InvalidLifecycleState);
        }
        match ipc_finish(&mut self.inner) {
            Ok(()) => {
                self.finished = true;
                Ok(())
            },
            Err(_) => Err(VolumeError::IoFailure),
        }
    }

    /// Releases the writer after finishing and hands back the sink's
    /// bytes; it emits nothing further.
    pub fn into_bytes(self) -> (r: Result<Vec<u8>, VolumeError>)
        requires
            self.wf(),
            self.is_finished(),
        ensures
            r is Ok,
            r matches Ok(v) ==> v@ == self.written(),
    {
        match ipc_into_inner(self.inner) {
            Ok(v) => Ok(v),
            Err(_) => Err(VolumeError::IoFailure),
        }
    }
}

/// Serializes one batch as a complete stream: schema message, one batch
/// message, end-of-stream marker. The target schema must be the canonical
/// one and the batch well formed, else the call is a schema violation; on
/// such inputs the in-memory serialization always succeeds.
pub fn batch2writer(b: &VolumeBatch, sch: &VolumeSchema) -> (r: Result<Vec<u8>, VolumeError>)
    ensures
        r is Ok <==> sch.is_canonical() && b.wf(),
        r matches Ok(v) ==> v@ == ipc_stream_bytes(b.rows()),
        r matches Err(e) ==> e == VolumeError::SchemaViolation,
{
    if !b.check_wf() {
        return Err(VolumeError::SchemaViolation);
    }
    let mut w = IpcStreamWriter::open(sch)?;
    w.write_batch(b)?;
    w.flush()?;
    w.finish()?;
    w.into_bytes()
}

} // verus!
