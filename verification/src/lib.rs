use vstd::prelude::*;

pub mod arrow_link;
pub mod pipeline;
pub mod records;
pub mod schema;
pub mod writer;

pub use crate::pipeline::{query2writer, volumes2writer};
pub use crate::records::{
    RowView, TEXT_COLUMN_BYTE_MAX, VolumeBatch, VolumeRecord, all_required_present, opt_text_view,
    opt_utf8_len, required_present, row_bytes, row_of, rows_fit, rows_of_records, utf8_len,
    volumes2batch,
};
pub use crate::schema::{ColumnSpec, ColumnType, VolumeSchema, a_schema, canonical_columns};
pub use crate::writer::{IpcStreamWriter, batch2writer, ipc_stream_bytes};

verus! {

/// The failure taxonomy of the volume-to-stream pipeline.
///
/// `ConnectionFailure` comes from the daemon query, `SchemaViolation` from
/// projecting records into the fixed schema, `IoFailure` from the serializer
/// or the sink, and `InvalidLifecycleState` from a writer call made outside
/// the open state.
#[derive(Clone, Copy, Debug, PartialEq, Eq, Structural)]
pub enum VolumeError {
    ConnectionFailure,
    SchemaViolation,
    IoFailure,
    InvalidLifecycleState,
}

} // verus!
