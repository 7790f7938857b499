use std::io::Cursor;

use arrow::array::Array;
use arrow::array::StringArray;
use arrow::datatypes::DataType;
use arrow::ipc::reader::StreamReader;
use arrow::record_batch::RecordBatch;

use rs_docker_volumes2arrow_ipc::IpcStreamWriter;
use rs_docker_volumes2arrow_ipc::VolumeBatch;
use rs_docker_volumes2arrow_ipc::VolumeError;
use rs_docker_volumes2arrow_ipc::VolumeRecord;
use rs_docker_volumes2arrow_ipc::a_schema;
use rs_docker_volumes2arrow_ipc::batch2writer;
use rs_docker_volumes2arrow_ipc::query2writer;
use rs_docker_volumes2arrow_ipc::volumes2batch;
use rs_docker_volumes2arrow_ipc::volumes2writer;

fn record(
    name: Option<&str>,
    driver: Option<&str>,
    mountpoint: Option<&str>,
    created_at: Option<&str>,
) -> VolumeRecord {
    VolumeRecord {
        name: name.map(|s| s.to_string()),
        driver: driver.map(|s| s.to_string()),
        mountpoint: mountpoint.map(|s| s.to_string()),
        created_at: created_at.map(|s| s.to_string()),
    }
}

fn decode(bytes: &[u8]) -> (arrow::datatypes::SchemaRef, Vec<RecordBatch>) {
    let reader = StreamReader::try_new(Cursor::new(bytes.to_vec()), None).unwrap();
    let schema = reader.schema();
    let batches: Vec<RecordBatch> = reader.map(|b| b.unwrap()).collect();
    (schema, batches)
}

fn text_column<'a>(batch: &'a RecordBatch, i: usize) -> &'a StringArray {
    batch
        .column(i)
        .as_any()
        .downcast_ref::<StringArray>()
        .unwrap()
}

fn assert_canonical_schema(schema: &arrow::datatypes::Schema) {
    let names: Vec<&str> = schema.fields().iter().map(|f| f.name().as_str()).collect();
    assert_eq!(names, vec!["name", "driver", "mountpoint", "created_at"]);
    let nullable: Vec<bool> = schema.fields().iter().map(|f| f.is_nullable()).collect();
    assert_eq!(nullable, vec![false, false, false, true]);
    for f in schema.fields() {
        assert_eq!(*f.data_type(), DataType::Utf8);
    }
}

#[test]
fn projection_row_count_and_order() {
    let volumes = vec![
        record(Some("a"), Some("local"), Some("/var/lib/a"), None),
        record(Some("b"), Some("nfs"), Some("/mnt/b"), Some("2024-01-01T00:00:00Z")),
        record(Some("c"), Some("local"), Some("/var/lib/c"), None),
    ];
    let schema = a_schema();
    let batch = volumes2batch(volumes, &schema).unwrap();
    assert_eq!(batch.names.len(), 3);
    assert_eq!(batch.drivers.len(), 3);
    assert_eq!(batch.mountpoints.len(), 3);
    assert_eq!(batch.created_ats.len(), 3);
    assert_eq!(batch.names, vec!["a".to_string(), "b".to_string(), "c".to_string()]);
    assert_eq!(batch.drivers, vec!["local".to_string(), "nfs".to_string(), "local".to_string()]);
}

#[test]
fn projection_absent_optional_is_null() {
    let volumes = vec![
        record(Some("a"), Some("local"), Some("/var/lib/a"), None),
        record(Some("b"), Some("local"), Some("/var/lib/b"), Some("2024-02-02T00:00:00Z")),
    ];
    let batch = volumes2batch(volumes, &a_schema()).unwrap();
    assert_eq!(batch.created_ats[0], None);
    assert_eq!(batch.created_ats[1], Some("2024-02-02T00:00:00Z".to_string()));
}

#[test]
fn projection_missing_required_fails() {
    let volumes = vec![
        record(Some("a"), Some("local"), Some("/var/lib/a"), None),
        record(Some("b"), None, Some("/var/lib/b"), None),
    ];
    let r = volumes2batch(volumes, &a_schema());
    assert_eq!(r.unwrap_err(), VolumeError::SchemaViolation);
}

#[test]
fn projection_missing_name_fails() {
    let volumes = vec![record(None, Some("local"), Some("/var/lib/a"), None)];
    let r = volumes2batch(volumes, &a_schema());
    assert_eq!(r.unwrap_err(), VolumeError::SchemaViolation);
}

#[test]
fn projection_rejects_foreign_schema() {
    let mut schema = a_schema();
    schema.columns.remove(1);
    let volumes = vec![record(Some("a"), Some("local"), Some("/var/lib/a"), None)];
    let r = volumes2batch(volumes, &schema);
    assert_eq!(r.unwrap_err(), VolumeError::SchemaViolation);
}

#[test]
fn round_trip() {
    let batch = VolumeBatch {
        names: vec!["v1".to_string(), "v2".to_string()],
        drivers: vec!["local".to_string(), "nfs".to_string()],
        mountpoints: vec!["/var/lib/v1".to_string(), "/mnt/v2".to_string()],
        created_ats: vec![Some("2024-01-01T00:00:00Z".to_string()), None],
    };
    let bytes = batch2writer(&batch, &a_schema()).unwrap();
    let (schema, batches) = decode(&bytes);
    assert_canonical_schema(&schema);
    assert_eq!(batches.len(), 1);
    let decoded = &batches[0];
    assert_eq!(decoded.num_rows(), 2);
    let names = text_column(decoded, 0);
    let drivers = text_column(decoded, 1);
    let mountpoints = text_column(decoded, 2);
    let created_ats = text_column(decoded, 3);
    assert_eq!(names.value(0), "v1");
    assert_eq!(names.value(1), "v2");
    assert_eq!(drivers.value(0), "local");
    assert_eq!(drivers.value(1), "nfs");
    assert_eq!(mountpoints.value(0), "/var/lib/v1");
    assert_eq!(mountpoints.value(1), "/mnt/v2");
    assert!(!created_ats.is_null(0));
    assert_eq!(created_ats.value(0), "2024-01-01T00:00:00Z");
    assert!(created_ats.is_null(1));
}

#[test]
fn writer_matches_arrow_stream_bytes() {
    let batch = VolumeBatch {
        names: vec!["v1".to_string()],
        drivers: vec!["local".to_string()],
        mountpoints: vec!["/var/lib/v1".to_string()],
        created_ats: vec![None],
    };
    let ours = batch2writer(&batch, &a_schema()).unwrap();

    let fields = vec![
        arrow::datatypes::Field::new("name", DataType::Utf8, false),
        arrow::datatypes::Field::new("driver", DataType::Utf8, false),
        arrow::datatypes::Field::new("mountpoint", DataType::Utf8, false),
        arrow::datatypes::Field::new("created_at", DataType::Utf8, true),
    ];
    let schema = std::sync::Arc::new(arrow::datatypes::Schema::new(fields));
    let columns: Vec<arrow::array::ArrayRef> = vec![
        std::sync::Arc::new(StringArray::from(vec!["v1".to_string()])),
        std::sync::Arc::new(StringArray::from(vec!["local".to_string()])),
        std::sync::Arc::new(StringArray::from(vec!["/var/lib/v1".to_string()])),
        std::sync::Arc::new(StringArray::from(vec![None as Option<String>])),
    ];
    let reference_batch = RecordBatch::try_new(schema.clone(), columns).unwrap();
    let mut writer =
        arrow::ipc::writer::StreamWriter::try_new(Vec::new(), schema.as_ref()).unwrap();
    writer.write(&reference_batch).unwrap();
    writer.finish().unwrap();
    let reference = writer.into_inner().unwrap();

    assert_eq!(ours, reference);
}

#[test]
fn lifecycle_write_after_finish_fails() {
    let batch = VolumeBatch {
        names: vec![],
        drivers: vec![],
        mountpoints: vec![],
        created_ats: vec![],
    };
    let schema = a_schema();
    let mut w = IpcStreamWriter::open(&schema).unwrap();
    w.write_batch(&batch).unwrap();
    w.finish().unwrap();
    assert_eq!(w.write_batch(&batch).unwrap_err(), VolumeError::InvalidLifecycleState);
    assert_eq!(w.flush().unwrap_err(), VolumeError::InvalidLifecycleState);
}

#[test]
fn lifecycle_double_finish_fails() {
    let schema = a_schema();
    let mut w = IpcStreamWriter::open(&schema).unwrap();
    w.finish().unwrap();
    assert_eq!(w.finish().unwrap_err(), VolumeError::InvalidLifecycleState);
}

#[test]
fn open_emits_schema_message_first() {
    let schema = a_schema();
    let w = IpcStreamWriter::open(&schema).unwrap();
    let mut w2 = w;
    w2.finish().unwrap();
    let ours = w2.into_bytes().unwrap();

    let fields = vec![
        arrow::datatypes::Field::new("name", DataType::Utf8, false),
        arrow::datatypes::Field::new("driver", DataType::Utf8, false),
        arrow::datatypes::Field::new("mountpoint", DataType::Utf8, false),
        arrow::datatypes::Field::new("created_at", DataType::Utf8, true),
    ];
    let arrow_schema = arrow::datatypes::Schema::new(fields);
    let reference_writer =
        arrow::ipc::writer::StreamWriter::try_new(Vec::new(), &arrow_schema).unwrap();
    let schema_message = reference_writer.get_ref().clone();
    assert!(ours.len() >= schema_message.len());
    assert_eq!(&ours[..schema_message.len()], &schema_message[..]);
    assert_eq!(&ours[schema_message.len()..], &[255, 255, 255, 255, 0, 0, 0, 0]);
}

#[test]
fn writer_rejects_ragged_batch() {
    let batch = VolumeBatch {
        names: vec!["v1".to_string()],
        drivers: vec![],
        mountpoints: vec!["/var/lib/v1".to_string()],
        created_ats: vec![None],
    };
    let r = batch2writer(&batch, &a_schema());
    assert_eq!(r.unwrap_err(), VolumeError::SchemaViolation);
}

#[test]
fn empty_volume_list_stream() {
    let bytes = volumes2writer(vec![], &a_schema()).unwrap();
    let (schema, batches) = decode(&bytes);
    assert_canonical_schema(&schema);
    assert_eq!(batches.len(), 1);
    assert_eq!(batches[0].num_rows(), 0);
}

#[test]
fn one_volume_stream() {
    let volumes = vec![record(Some("v1"), Some("local"), Some("/var/lib/v1"), None)];
    let bytes = volumes2writer(volumes, &a_schema()).unwrap();
    let (schema, batches) = decode(&bytes);
    assert_canonical_schema(&schema);
    assert_eq!(batches.len(), 1);
    let decoded = &batches[0];
    assert_eq!(decoded.num_rows(), 1);
    assert_eq!(text_column(decoded, 0).value(0), "v1");
    assert_eq!(text_column(decoded, 1).value(0), "local");
    assert_eq!(text_column(decoded, 2).value(0), "/var/lib/v1");
    assert!(text_column(decoded, 3).is_null(0));
}

#[test]
fn two_volumes_stream_preserves_order_and_nulls() {
    let volumes = vec![
        record(Some("v1"), Some("local"), Some("/var/lib/v1"), Some("2024-01-01T00:00:00Z")),
        record(Some("v2"), Some("local"), Some("/var/lib/v2"), None),
    ];
    let bytes = volumes2writer(volumes, &a_schema()).unwrap();
    let (_, batches) = decode(&bytes);
    assert_eq!(batches.len(), 1);
    let decoded = &batches[0];
    assert_eq!(decoded.num_rows(), 2);
    assert_eq!(text_column(decoded, 0).value(0), "v1");
    assert_eq!(text_column(decoded, 0).value(1), "v2");
    let created_ats = text_column(decoded, 3);
    assert!(!created_ats.is_null(0));
    assert_eq!(created_ats.value(0), "2024-01-01T00:00:00Z");
    assert!(created_ats.is_null(1));
}

#[test]
fn connection_failure_propagates_with_no_bytes() {
    let schema = a_schema();
    let r = query2writer(Err(VolumeError::ConnectionFailure), &schema);
    assert_eq!(r.unwrap_err(), VolumeError::ConnectionFailure);
}

#[test]
fn query_success_runs_pipeline() {
    let schema = a_schema();
    let volumes = vec![record(Some("v1"), Some("local"), Some("/var/lib/v1"), None)];
    let r = query2writer(Ok(volumes), &schema).unwrap();
    let (schema_ref, batches) = decode(&r);
    assert_canonical_schema(&schema_ref);
    assert_eq!(batches[0].num_rows(), 1);
}
