//! The trusted boundary to the `parquet` and `arrow` crates.
//!
//! The rewriter's logic is verified against the contracts stated here; the
//! bodies below only call into the outside crates and convert values. The
//! logical content of a file, a batch or a writer is abstracted by
//! uninterpreted names: a schema is a sequence of (name, type, nullability)
//! triples, and the data is a sequence of rows, each row standing for the
//! canonical rendering of its cells in column order. The contracts only
//! ever compare these names for equality; no contract says what a name is
//! on given values.

use vstd::prelude::*;

use crate::config::{FormatVersion, WriterConfiguration};

verus! {

/// One column definition of a schema: its name, its rendered data type,
/// and whether it is nullable.
pub type FieldModel = (Seq<char>, Seq<char>, bool);

/// One row of data: the canonical rendering of its cells in column order.
pub type RowModel = Seq<u8>;

#[verifier::external_type_specification]
#[verifier::external_body]
pub struct ExParquetError(parquet::errors::ParquetError);

/// One decoded record batch, held opaquely. Verus refuses a declaration of
/// `arrow::record_batch::RecordBatch` itself (its trait impls reach traits
/// Verus has not seen), so the batch lives in a hidden field and is spoken
/// of only through `batch_rows` and `batch_fields`.
#[verifier::external_body]
pub struct Batch {
    inner: arrow::record_batch::RecordBatch,
}

/// A Parquet writer over an in-memory buffer, held opaquely for the same
/// reason as `Batch`, and spoken of only through `writer_rows`,
/// `writer_fields` and `writer_dictionary`.
#[verifier::external_body]
pub struct BatchWriter {
    inner: parquet::arrow::ArrowWriter<Vec<u8>>,
}

/// What a Parquet file holds, as decoding reveals it: `None` when the bytes
/// do not form a valid file, otherwise the schema fields and the rows of
/// the file in order, with the batch boundaries flattened away.
pub uninterp spec fn parquet_file(bytes: Seq<u8>) -> Option<(Seq<FieldModel>, Seq<RowModel>)>;

/// The rows a record batch holds, in order.
pub uninterp spec fn batch_rows(b: Batch) -> Seq<RowModel>;

/// The schema fields of a record batch.
pub uninterp spec fn batch_fields(b: Batch) -> Seq<FieldModel>;

/// The rows written to a writer so far, in order.
pub uninterp spec fn writer_rows(w: BatchWriter) -> Seq<RowModel>;

/// The schema fields the writer was bound to.
pub uninterp spec fn writer_fields(w: BatchWriter) -> Seq<FieldModel>;

/// Whether the writer was configured with dictionary encoding enabled.
pub uninterp spec fn writer_dictionary(w: BatchWriter) -> bool;

/// Whether the writer was configured with the baseline format version.
pub uninterp spec fn writer_baseline(w: BatchWriter) -> bool;

/// Whether the output encoder supports a schema with these fields: the
/// Arrow-to-Parquet schema conversion accepts them, column writers exist
/// for every one of them, and every value a well-formed batch of this
/// schema can hold encodes without error. A property of the fields alone;
/// no contract says which fields are accepted.
pub uninterp spec fn encoder_accepts(fields: Seq<FieldModel>) -> bool;

/// Whether the column-chunk metadata of the file records a dictionary
/// encoding for every data-bearing column whose physical type supports one
/// under the file's writer settings.
pub uninterp spec fn dictionary_marked(bytes: Seq<u8>) -> bool;

/// Whether the file's footer records the baseline format version.
pub uninterp spec fn baseline_marked(bytes: Seq<u8>) -> bool;

/// Whether the bytes decode as a valid Parquet file.
pub open spec fn parquet_readable(bytes: Seq<u8>) -> bool {
    parquet_file(bytes) is Some
}

/// The schema fields of a valid file.
pub open spec fn file_fields(bytes: Seq<u8>) -> Seq<FieldModel> {
    parquet_file(bytes)->Some_0.0
}

/// The rows of a valid file, in order, batch boundaries flattened away.
pub open spec fn file_rows(bytes: Seq<u8>) -> Seq<RowModel> {
    parquet_file(bytes)->Some_0.1
}

/// The rows of a sequence of batches, concatenated in order.
pub open spec fn rows_of_batches(bs: Seq<Batch>) -> Seq<RowModel> {
    bs.map_values(|b: Batch| batch_rows(b)).flatten()
}

/// Relies on parquet's `ParquetRecordBatchReaderBuilder` (`try_new`,
/// `with_batch_size`, `build`) and on collecting the
/// `ParquetRecordBatchReader` iterator: decoding an in-memory file is a
/// deterministic function of the bytes and succeeds exactly when they form
/// a valid Parquet file; every decoded batch carries the file's schema and
/// at least one row (the reader never yields an empty batch), and the
/// batches concatenate to the file's rows in order.
#[verifier::external_body]
pub(crate) fn decode_batches(data: &Vec<u8>, batch_size: usize) -> (r: Result<
    Vec<Batch>,
    parquet::errors::ParquetError,
>)
    requires
        batch_size >= 1,
    ensures
        r is Ok <==> parquet_readable(data@),
        r is Ok ==> rows_of_batches(r->Ok_0@) == file_rows(data@),
        r is Ok ==> forall|i: int|
            0 <= i < r->Ok_0@.len() ==> #[trigger] batch_fields(r->Ok_0@[i]) == file_fields(
                data@,
            ),
        r is Ok ==> forall|i: int|
            0 <= i < r->Ok_0@.len() ==> #[trigger] batch_rows(r->Ok_0@[i]).len() > 0,
        r is Ok ==> (r->Ok_0@.len() == 0 <==> file_rows(data@).len() == 0),
{
    let bytes = bytes::Bytes::from(data.clone());
    let builder = parquet::arrow::arrow_reader::ParquetRecordBatchReaderBuilder::try_new(bytes)?;
    let reader = builder.with_batch_size(batch_size).build()?;
    let collected: Result<Vec<arrow::record_batch::RecordBatch>, arrow::error::ArrowError> =
        reader.collect();
    match collected {
        Ok(bs) => Ok(bs.into_iter().map(|inner| Batch { inner }).collect()),
        Err(e) => Err(parquet::errors::ParquetError::from(e)),
    }
}

/// Relies on arrow's `RecordBatch::schema`, parquet's `WriterProperties`
/// builder (`set_writer_version`, `set_dictionary_enabled`) and
/// `ArrowWriter::try_new`: a fresh writer bound to the batch's schema holds
/// no rows and records the configuration's dictionary and version choices.
/// `try_new` fails only when the schema conversion refuses the schema — the
/// underlying in-memory buffer cannot fail — so a schema the encoder
/// supports always yields a writer.
#[verifier::external_body]
pub(crate) fn writer_new(first: &Batch, config: &WriterConfiguration) -> (r: Result<
    BatchWriter,
    parquet::errors::ParquetError,
>)
    ensures
        r is Ok ==> writer_rows(r->Ok_0) == Seq::<RowModel>::empty(),
        r is Ok ==> writer_fields(r->Ok_0) == batch_fields(*first),
        r is Ok ==> writer_dictionary(r->Ok_0) == config.dictionary_enabled,
        r is Ok ==> writer_baseline(r->Ok_0) == (config.version == FormatVersion::V1_0),
        encoder_accepts(batch_fields(*first)) ==> r is Ok,
{
    let version = match config.version {
        FormatVersion::V1_0 => parquet::file::properties::WriterVersion::PARQUET_1_0,
        FormatVersion::V2_0 => parquet::file::properties::WriterVersion::PARQUET_2_0,
    };
    let props = parquet::file::properties::WriterProperties::builder()
        .set_writer_version(version)
        .set_dictionary_enabled(config.dictionary_enabled)
        .build();
    let w = parquet::arrow::ArrowWriter::try_new(Vec::new(), first.inner.schema(), Some(props))?;
    Ok(BatchWriter { inner: w })
}

/// Relies on parquet's `ArrowWriter::write`: on success the batch's rows
/// stand appended behind the rows already written (a batch with no rows
/// appends nothing), and the writer's configuration is unchanged. On
/// failure nothing is said of the writer's state. The batch's fields must
/// equal the writer's: `write` pairs the writer's schema fields with the
/// batch's columns by position and stops at the shorter side, so on a
/// batch of another shape it can return without having taken every cell.
/// A write fails only in the encoder — the in-memory buffer cannot — so
/// under a schema the encoder supports the batch is always taken; and
/// conversely, writing rows successfully shows the encoder supports the
/// writer's schema, since `write` builds the column writers for it.
#[verifier::external_body]
pub(crate) fn writer_write(w: &mut BatchWriter, batch: &Batch) -> (r: Result<
    (),
    parquet::errors::ParquetError,
>)
    requires
        batch_fields(*batch) == writer_fields(*old(w)),
    ensures
        r is Ok ==> writer_rows(*final(w)) == writer_rows(*old(w)) + batch_rows(*batch),
        r is Ok ==> writer_fields(*final(w)) == writer_fields(*old(w)),
        r is Ok ==> writer_dictionary(*final(w)) == writer_dictionary(*old(w)),
        r is Ok ==> writer_baseline(*final(w)) == writer_baseline(*old(w)),
        encoder_accepts(writer_fields(*old(w))) ==> r is Ok,
        r is Ok && batch_rows(*batch).len() > 0 ==> encoder_accepts(writer_fields(*old(w))),
{
    w.inner.write(&batch.inner)
}

/// Relies on parquet's `ArrowWriter::into_inner`: it flushes the buffered
/// rows, writes the footer and hands back the finished buffer. The finished
/// file reads back to exactly the schema and the rows that were written —
/// the writer embeds the Arrow schema in the file's metadata and the reader
/// restores it. When the writer was configured with dictionary encoding,
/// the column-chunk metadata records a dictionary encoding for every
/// eligible column; the footer records the baseline format version exactly
/// when the writer was configured with it. Flushing rows the writer already
/// accepted, under a schema the encoder supports, and writing the footer to
/// the in-memory buffer cannot fail.
#[verifier::external_body]
pub(crate) fn writer_finish(w: BatchWriter) -> (r: Result<
    Vec<u8>,
    parquet::errors::ParquetError,
>)
    ensures
        r is Ok ==> parquet_file(r->Ok_0@) == Some((writer_fields(w), writer_rows(w))),
        r is Ok ==> (writer_dictionary(w) ==> dictionary_marked(r->Ok_0@)),
        r is Ok ==> (baseline_marked(r->Ok_0@) <==> writer_baseline(w)),
        encoder_accepts(writer_fields(w)) ==> r is Ok,
{
    w.inner.into_inner()
}

/// Relies on `ParquetError`'s `Display` implementation to render the error
/// as text for the user.
#[verifier::external_body]
pub(crate) fn parquet_error_text(e: &parquet::errors::ParquetError) -> String {
    format!("{}", e)
}

} // verus!
