use vstd::prelude::*;

use crate::VolumeError;
use crate::records::{
    VolumeRecord, all_required_present, rows_fit, rows_of_records, volumes2batch,
};
use crate::schema::VolumeSchema;
use crate::writer::{batch2writer, ipc_stream_bytes};

verus! {

/// Projects the records into one batch and serializes it as a complete
/// stream against `sch`, which must be the canonical schema.
///
/// A record missing a required field, a non-canonical target schema, or
/// a column outgrowing its array's offset limit is a schema violation;
/// on every other input the pipeline succeeds and returns the stream.
pub fn volumes2writer(volumes: Vec<VolumeRecord>, sch: &VolumeSchema) -> (r: Result<
    Vec<u8>,
    VolumeError,
>)
    ensures
        r is Ok <==> sch.is_canonical() && all_required_present(volumes@) && rows_fit(
            rows_of_records(volumes@),
        ),
        r matches Ok(v) ==> v@ == ipc_stream_bytes(rows_of_records(volumes@)),
        r matches Err(e) ==> e == VolumeError::SchemaViolation,
{
    let batch = volumes2batch(volumes, sch)?;
    batch2writer(&batch, sch)
}

/// The orchestrator's decision step: takes the daemon query's outcome and
/// either propagates its failure verbatim, producing no bytes, or carries
/// the records through projection and serialization.
pub fn query2writer(query: Result<Vec<VolumeRecord>, VolumeError>, sch: &VolumeSchema) -> (r:
    Result<Vec<u8>, VolumeError>)
    ensures
        query matches Err(e) ==> r == Err::<Vec<u8>, VolumeError>(e),
        query matches Ok(volumes) ==> {
            &&& r is Ok <==> sch.is_canonical() && all_required_present(volumes@) && rows_fit(
                rows_of_records(volumes@),
            )
            &&& r matches Ok(v) ==> v@ == ipc_stream_bytes(rows_of_records(volumes@))
            &&& r matches Err(e) ==> e == VolumeError::SchemaViolation
        },
{
    match query {
        Ok(volumes) => volumes2writer(volumes, sch),
        Err(e) => Err(e),
    }
}

} // verus!
