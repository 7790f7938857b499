use std::sync::Arc;

use vstd::prelude::*;

use crate::records::{RowView, VolumeBatch};
use crate::schema::{ColumnType, VolumeSchema, canonical_columns};

verus! {

#[verifier::external_type_specification]
#[verifier::external_body]
pub struct ExArrowSchema(arrow::datatypes::Schema);

#[verifier::external_type_specification]
#[verifier::external_body]
pub struct ExArrowError(arrow::error::ArrowError);

#[verifier::external_type_specification]
#[verifier::external_body]
#[verifier::reject_recursive_types(W)]
pub struct ExStreamWriter<W>(arrow::ipc::writer::StreamWriter<W>);

/// An arrow record batch, held opaquely. Verus refuses to have
/// `arrow::record_batch::RecordBatch` declared directly, because an impl on
/// it mentions arrow's `Array` trait, so the value sits in a hidden field
/// and the spec functions below name what it holds.
#[verifier::external_body]
pub struct CanonicalBatch {
    inner: arrow::record_batch::RecordBatch,
}

/// The arrow schema is structurally the canonical volume schema: the four
/// text columns, in order, with their fixed nullability and no metadata.
pub uninterp spec fn is_canonical_arrow(s: arrow::datatypes::Schema) -> bool;

/// The rows the held record batch holds, in order.
pub uninterp spec fn batch_rows(b: CanonicalBatch) -> Seq<RowView>;

/// The held batch carries the canonical schema and the column layout this
/// crate's converter produces for its rows.
pub uninterp spec fn batch_canonical(b: CanonicalBatch) -> bool;

/// The bytes written so far to the stream writer's in-memory sink.
pub uninterp spec fn stream_written(w: arrow::ipc::writer::StreamWriter<Vec<u8>>) -> Seq<u8>;

/// Whether the stream writer has written its end-of-stream marker.
pub uninterp spec fn raw_finished(w: arrow::ipc::writer::StreamWriter<Vec<u8>>) -> bool;

/// The schema message: the bytes stream creation writes for the canonical
/// column list.
pub uninterp spec fn schema_msg_bytes(cols: Seq<(Seq<char>, bool)>) -> Seq<u8>;

/// The record-batch message: the bytes one write appends for a canonical
/// batch holding these rows.
pub uninterp spec fn batch_msg_bytes(rows: Seq<RowView>) -> Seq<u8>;

/// The end-of-stream marker: the continuation marker followed by a zero
/// length, which readers take as "no more batches".
pub open spec fn eos_bytes() -> Seq<u8> {
    seq![255u8, 255u8, 255u8, 255u8, 0u8, 0u8, 0u8, 0u8]
}

/// Relies on arrow's `Schema::new` and `Field::new`: the arrow schema is
/// built field for field from the canonical column list, text columns with
/// the given names and nullability and no metadata.
#[verifier::external_body]
pub(crate) fn to_arrow_schema(s: &VolumeSchema) -> (r: arrow::datatypes::Schema)
    requires
        s.is_canonical(),
    ensures
        is_canonical_arrow(r),
{
    let mut fields: Vec<arrow::datatypes::Field> = Vec::new();
    for c in s.columns.iter() {
        let data_type = match c.column_type {
            ColumnType::Text => arrow::datatypes::DataType::Utf8,
        };
        fields.push(arrow::datatypes::Field::new(c.name.clone(), data_type, c.nullable));
    }
    arrow::datatypes::Schema::new(fields)
}

/// Relies on arrow's `StringArray::from` and `RecordBatch::try_new`: each
/// column array is built value for value from the batch's vectors, an
/// absent optional entry becoming a null, and the resulting record batch
/// holds exactly those columns under the given schema. The batch's
/// well-formedness keeps every column's byte total within the 32-bit
/// offset limit, below which the array constructors cannot abort, and
/// under the canonical schema `try_new`'s count, type, length and
/// nullability checks all pass, so construction cannot fail.
#[verifier::external_body]
pub(crate) fn to_record_batch(b: &VolumeBatch, schema: &arrow::datatypes::Schema) -> (r: Result<
    CanonicalBatch,
    arrow::error::ArrowError,
>)
    requires
        b.wf(),
        is_canonical_arrow(*schema),
    ensures
        r is Ok,
        r matches Ok(rb) ==> batch_canonical(rb) && batch_rows(rb) == b.rows(),
{
    let columns: Vec<arrow::array::ArrayRef> = vec![
        Arc::new(arrow::array::StringArray::from(b.names.clone())),
        Arc::new(arrow::array::StringArray::from(b.drivers.clone())),
        Arc::new(arrow::array::StringArray::from(b.mountpoints.clone())),
        Arc::new(arrow::array::StringArray::from(b.created_ats.clone())),
    ];
    let inner = arrow::record_batch::RecordBatch::try_new(Arc::new(schema.clone()), columns)?;
    Ok(CanonicalBatch { inner })
}

/// Relies on arrow's `StreamWriter::try_new`: creating the writer writes
/// the schema message as the first bytes of the fresh in-memory sink and
/// leaves the writer unfinished. The canonical four-text-column schema
/// passes the writer's schema-support check, and writing to a fresh `Vec`
/// sink cannot fail, so creation succeeds.
#[verifier::external_body]
pub(crate) fn ipc_open(schema: &arrow::datatypes::Schema) -> (r: Result<
    arrow::ipc::writer::StreamWriter<Vec<u8>>,
    arrow::error::ArrowError,
>)
    requires
        is_canonical_arrow(*schema),
    ensures
        r is Ok,
        r matches Ok(w) ==> stream_written(w) == schema_msg_bytes(canonical_columns())
            && !raw_finished(w),
{
    arrow::ipc::writer::StreamWriter::try_new(Vec::new(), schema)
}

/// Relies on arrow's `StreamWriter::write`: on success it appends exactly
/// one record-batch message for the given batch; it never changes the
/// finished flag, and the in-memory sink only grows. On an unfinished
/// writer the call succeeds: plain text columns need no dictionaries and
/// default options use no compression, and writing to a `Vec` sink cannot
/// fail; only a finished writer is refused.
#[verifier::external_body]
pub(crate) fn ipc_write(
    w: &mut arrow::ipc::writer::StreamWriter<Vec<u8>>,
    b: &CanonicalBatch,
) -> (r: Result<(), arrow::error::ArrowError>)
    requires
        batch_canonical(*b),
    ensures
        raw_finished(*final(w)) == raw_finished(*old(w)),
        stream_written(*old(w)).is_prefix_of(stream_written(*final(w))),
        !raw_finished(*old(w)) ==> r is Ok,
        r is Ok ==> stream_written(*final(w)) == stream_written(*old(w)) + batch_msg_bytes(
            batch_rows(*b),
        ),
{
    w.write(&b.inner)
}

/// Relies on arrow's `StreamWriter::finish`: on success it appends the
/// eight end-of-stream bytes and marks the writer finished; a finished
/// writer is refused unchanged; the in-memory sink only grows. On an
/// unfinished writer the call succeeds, since writing the marker to a
/// `Vec` sink and flushing it cannot fail.
#[verifier::external_body]
pub(crate) fn ipc_finish(w: &mut arrow::ipc::writer::StreamWriter<Vec<u8>>) -> (r: Result<
    (),
    arrow::error::ArrowError,
>)
    ensures
        stream_written(*old(w)).is_prefix_of(stream_written(*final(w))),
        !raw_finished(*old(w)) ==> r is Ok,
        r is Ok ==> stream_written(*final(w)) == stream_written(*old(w)) + eos_bytes()
            && raw_finished(*final(w)) && !raw_finished(*old(w)),
        r is Err ==> raw_finished(*final(w)) == raw_finished(*old(w)),
        raw_finished(*old(w)) ==> r is Err && stream_written(*final(w)) == stream_written(*old(w)),
{
    w.finish()
}

/// Relies on arrow's `StreamWriter::flush`: it only flushes the underlying
/// sink, and flushing an in-memory `Vec` sink always succeeds, adds no
/// bytes and cannot change the finished flag.
#[verifier::external_body]
pub(crate) fn ipc_flush(w: &mut arrow::ipc::writer::StreamWriter<Vec<u8>>) -> (r: Result<
    (),
    arrow::error::ArrowError,
>)
    ensures
        r is Ok,
        stream_written(*final(w)) == stream_written(*old(w)),
        raw_finished(*final(w)) == raw_finished(*old(w)),
{
    w.flush()
}

/// Relies on arrow's `StreamWriter::into_inner`: on an already finished
/// writer it hands back the sink unchanged and cannot fail.
#[verifier::external_body]
pub(crate) fn ipc_into_inner(w: arrow::ipc::writer::StreamWriter<Vec<u8>>) -> (r: Result<
    Vec<u8>,
    arrow::error::ArrowError,
>)
    requires
        raw_finished(w),
    ensures
        r is Ok,
        r matches Ok(v) ==> v@ == stream_written(w),
{
    w.into_inner()
}

} // verus!
