use std::sync::Arc;

use arrow::array::{Array, ArrayRef, Int32Array, StringArray};
use arrow::datatypes::{DataType, Field, Schema};
use arrow::record_batch::RecordBatch;
use bytes::Bytes;
use parquet::arrow::arrow_reader::ParquetRecordBatchReaderBuilder;
use parquet::arrow::ArrowWriter;
use parquet::basic::Encoding;
use parquet::file::properties::{WriterProperties, WriterVersion};

use parquet_dict_rewrite::error::RewriteError;
use parquet_dict_rewrite::rewrite::rewrite_bytes;

fn sample_schema() -> Arc<Schema> {
    Arc::new(Schema::new(vec![
        Field::new("id", DataType::Int32, false),
        Field::new("name", DataType::Utf8, true),
    ]))
}

fn sample_batch(ids: &[i32], names: &[Option<&str>]) -> RecordBatch {
    let id_col: ArrayRef = Arc::new(Int32Array::from(ids.to_vec()));
    let name_col: ArrayRef = Arc::new(StringArray::from(names.to_vec()));
    RecordBatch::try_new(sample_schema(), vec![id_col, name_col]).unwrap()
}

/// Encodes batches to Parquet bytes without dictionary encoding, so a
/// rewrite visibly has to add it.
fn write_plain_file(batches: &[RecordBatch]) -> Vec<u8> {
    let props = WriterProperties::builder()
        .set_dictionary_enabled(false)
        .build();
    let mut writer = ArrowWriter::try_new(Vec::new(), sample_schema(), Some(props)).unwrap();
    for batch in batches {
        writer.write(batch).unwrap();
    }
    writer.into_inner().unwrap()
}

fn read_file(bytes: &[u8]) -> Vec<RecordBatch> {
    let builder = ParquetRecordBatchReaderBuilder::try_new(Bytes::copy_from_slice(bytes)).unwrap();
    let reader = builder.build().unwrap();
    reader.collect::<Result<Vec<_>, _>>().unwrap()
}

fn int_column(batches: &[RecordBatch], index: usize) -> Vec<i32> {
    let mut values = Vec::new();
    for batch in batches {
        let column = batch
            .column(index)
            .as_any()
            .downcast_ref::<Int32Array>()
            .unwrap();
        for i in 0..column.len() {
            values.push(column.value(i));
        }
    }
    values
}

fn string_column(batches: &[RecordBatch], index: usize) -> Vec<Option<String>> {
    let mut values = Vec::new();
    for batch in batches {
        let column = batch
            .column(index)
            .as_any()
            .downcast_ref::<StringArray>()
            .unwrap();
        for i in 0..column.len() {
            if column.is_null(i) {
                values.push(None);
            } else {
                values.push(Some(column.value(i).to_string()));
            }
        }
    }
    values
}

fn footer_version(bytes: &[u8]) -> i32 {
    let builder = ParquetRecordBatchReaderBuilder::try_new(Bytes::copy_from_slice(bytes)).unwrap();
    builder.metadata().file_metadata().version()
}

fn all_eligible_chunks_dictionary_encoded(bytes: &[u8]) -> bool {
    let builder = ParquetRecordBatchReaderBuilder::try_new(Bytes::copy_from_slice(bytes)).unwrap();
    let metadata = builder.metadata().clone();
    let mut seen_chunk = false;
    for row_group in metadata.row_groups() {
        for column in row_group.columns() {
            seen_chunk = true;
            let has_dictionary = column
                .encodings()
                .any(|e| e == Encoding::RLE_DICTIONARY || e == Encoding::PLAIN_DICTIONARY);
            if !has_dictionary {
                return false;
            }
        }
    }
    seen_chunk
}

#[test]
fn round_trip_preserves_schema_and_values() {
    let batch = sample_batch(
        &[1, 2, 2, 3, 3, 3],
        &[Some("a"), Some("b"), Some("b"), None, Some("c"), Some("c")],
    );
    let input = write_plain_file(&[batch.clone()]);
    let output = rewrite_bytes(&input).unwrap();

    let input_batches = read_file(&input);
    let output_batches = read_file(&output);

    let rows_in: usize = input_batches.iter().map(|b| b.num_rows()).sum();
    let rows_out: usize = output_batches.iter().map(|b| b.num_rows()).sum();
    assert_eq!(rows_in, 6);
    assert_eq!(rows_out, 6);

    let schema_out = output_batches[0].schema();
    assert_eq!(schema_out.field(0).name(), "id");
    assert_eq!(schema_out.field(0).data_type(), &DataType::Int32);
    assert!(!schema_out.field(0).is_nullable());
    assert_eq!(schema_out.field(1).name(), "name");
    assert_eq!(schema_out.field(1).data_type(), &DataType::Utf8);
    assert!(schema_out.field(1).is_nullable());

    assert_eq!(int_column(&output_batches, 0), int_column(&input_batches, 0));
    assert_eq!(
        string_column(&output_batches, 1),
        string_column(&input_batches, 1)
    );
}

#[test]
fn multiple_batches_keep_their_order() {
    let first = sample_batch(&[1, 2], &[Some("x"), Some("y")]);
    let second = sample_batch(&[3, 4], &[Some("z"), None]);
    let third = sample_batch(&[5], &[Some("w")]);
    let input = write_plain_file(&[first, second, third]);
    let output = rewrite_bytes(&input).unwrap();

    let output_batches = read_file(&output);
    assert_eq!(int_column(&output_batches, 0), vec![1, 2, 3, 4, 5]);
    assert_eq!(
        string_column(&output_batches, 1),
        vec![
            Some("x".to_string()),
            Some("y".to_string()),
            Some("z".to_string()),
            None,
            Some("w".to_string()),
        ]
    );
}

#[test]
fn output_is_dictionary_encoded() {
    let batch = sample_batch(&[7, 7, 7, 8], &[Some("p"), Some("p"), Some("q"), Some("q")]);
    let input = write_plain_file(&[batch]);
    assert!(!all_eligible_chunks_dictionary_encoded(&input));

    let output = rewrite_bytes(&input).unwrap();
    assert!(all_eligible_chunks_dictionary_encoded(&output));
}

#[test]
fn output_records_baseline_format_version() {
    let batch = sample_batch(&[1, 1, 2], &[Some("a"), Some("a"), Some("b")]);
    let props = WriterProperties::builder()
        .set_writer_version(WriterVersion::PARQUET_2_0)
        .build();
    let mut writer = ArrowWriter::try_new(Vec::new(), sample_schema(), Some(props)).unwrap();
    writer.write(&batch).unwrap();
    let input = writer.into_inner().unwrap();
    assert_eq!(footer_version(&input), 2);

    let output = rewrite_bytes(&input).unwrap();
    assert_eq!(footer_version(&output), 1);
}

#[test]
fn already_dictionary_encoded_input_rewrites_to_same_content() {
    let batch = sample_batch(&[9, 9, 10], &[Some("r"), Some("r"), None]);
    let input = write_plain_file(&[batch]);
    let first = rewrite_bytes(&input).unwrap();
    let second = rewrite_bytes(&first).unwrap();

    let first_batches = read_file(&first);
    let second_batches = read_file(&second);
    assert_eq!(
        int_column(&second_batches, 0),
        int_column(&first_batches, 0)
    );
    assert_eq!(
        string_column(&second_batches, 1),
        string_column(&first_batches, 1)
    );
    assert!(all_eligible_chunks_dictionary_encoded(&second));
}

#[test]
fn input_larger_than_one_batch_keeps_every_row_in_order() {
    let ids: Vec<i32> = (0..20000).collect();
    let names: Vec<Option<String>> = (0..20000).map(|i| Some(format!("n{}", i % 7))).collect();
    let name_refs: Vec<Option<&str>> = names.iter().map(|n| n.as_deref()).collect();
    let batch = sample_batch(&ids, &name_refs);
    let input = write_plain_file(&[batch]);
    let output = rewrite_bytes(&input).unwrap();

    let output_batches = read_file(&output);
    assert_eq!(int_column(&output_batches, 0), ids);
    assert_eq!(
        string_column(&output_batches, 1),
        names
    );
}

#[test]
fn empty_input_is_refused() {
    let input = write_plain_file(&[]);
    let result = rewrite_bytes(&input);
    assert!(matches!(result, Err(RewriteError::EmptyInputError)));
}

#[test]
fn empty_input_error_message_names_the_problem() {
    let input = write_plain_file(&[]);
    let error = rewrite_bytes(&input).unwrap_err();
    assert_eq!(
        error.message(),
        "No data found in the input Parquet file."
    );
}

#[test]
fn garbage_bytes_are_a_format_error() {
    let input = vec![0u8, 1, 2, 3, 4, 5, 6, 7];
    let result = rewrite_bytes(&input);
    assert!(matches!(result, Err(RewriteError::FormatError(_))));
}

#[test]
fn truncated_file_is_a_format_error() {
    let batch = sample_batch(&[1, 2, 3], &[Some("a"), Some("b"), Some("c")]);
    let full = write_plain_file(&[batch]);
    let truncated = full[..full.len() / 2].to_vec();
    let result = rewrite_bytes(&truncated);
    assert!(matches!(result, Err(RewriteError::FormatError(_))));
}
